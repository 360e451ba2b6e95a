// The benchmark table itself: every record's counts and measurements,
// the fixed four-field schema, and determinism of the lookup.

use xcm_weights::pallet_xcm::{record, Extrinsic, WeightRecord};

#[test]
fn read_write_counts_match_storage_annotations() {
    let cases: [(Extrinsic, u64, u64); 20] = [
        (Extrinsic::Send, 4, 2),
        (Extrinsic::TeleportAssets, 5, 3),
        (Extrinsic::ReserveTransferAssets, 5, 3),
        (Extrinsic::TransferAssets, 5, 3),
        (Extrinsic::Execute, 0, 0),
        (Extrinsic::ForceXcmVersion, 0, 1),
        (Extrinsic::ForceDefaultXcmVersion, 0, 0),
        (Extrinsic::ForceSubscribeVersionNotify, 6, 5),
        (Extrinsic::ForceUnsubscribeVersionNotify, 5, 4),
        (Extrinsic::ForceSuspension, 0, 1),
        (Extrinsic::MigrateSupportedVersion, 5, 2),
        (Extrinsic::MigrateVersionNotifiers, 5, 2),
        (Extrinsic::AlreadyNotifiedTarget, 6, 0),
        (Extrinsic::NotifyCurrentTargets, 6, 3),
        (Extrinsic::NotifyTargetMigrationFail, 4, 0),
        (Extrinsic::MigrateVersionNotifyTargets, 5, 2),
        (Extrinsic::MigrateAndNotifyOldTargets, 9, 4),
        (Extrinsic::NewQuery, 1, 2),
        (Extrinsic::TakeResponse, 1, 1),
        (Extrinsic::ClaimAssets, 1, 1),
    ];
    for (op, reads, writes) in cases {
        let r = record(op);
        assert_eq!(r.reads, reads, "reads of {:?}", op);
        assert_eq!(r.writes, writes, "writes of {:?}", op);
    }
}

#[test]
fn times_and_proof_sizes_match_measurements() {
    let cases: [(Extrinsic, u64, u64); 20] = [
        (Extrinsic::Send, 36_463_000, 3541),
        (Extrinsic::TeleportAssets, 158_000_000, 3593),
        (Extrinsic::ReserveTransferAssets, 155_242_000, 3593),
        (Extrinsic::TransferAssets, 158_738_000, 3593),
        (Extrinsic::Execute, 13_526_000, 0),
        (Extrinsic::ForceXcmVersion, 10_367_000, 0),
        (Extrinsic::ForceDefaultXcmVersion, 3_284_000, 0),
        (Extrinsic::ForceSubscribeVersionNotify, 44_388_000, 3541),
        (Extrinsic::ForceUnsubscribeVersionNotify, 51_071_000, 3721),
        (Extrinsic::ForceSuspension, 3_512_000, 0),
        (Extrinsic::MigrateSupportedVersion, 22_947_000, 13387),
        (Extrinsic::MigrateVersionNotifiers, 23_134_000, 13391),
        (Extrinsic::AlreadyNotifiedTarget, 25_776_000, 15918),
        (Extrinsic::NotifyCurrentTargets, 43_738_000, 6052),
        (Extrinsic::NotifyTargetMigrationFail, 16_104_000, 10926),
        (Extrinsic::MigrateVersionNotifyTargets, 23_077_000, 13398),
        (Extrinsic::MigrateAndNotifyOldTargets, 55_708_000, 13477),
        (Extrinsic::NewQuery, 3_301_000, 1485),
        (Extrinsic::TakeResponse, 29_963_000, 11041),
        (Extrinsic::ClaimAssets, 48_743_000, 3488),
    ];
    for (op, ref_time, proof_size) in cases {
        let r = record(op);
        assert_eq!(r.ref_time, ref_time, "ref_time of {:?}", op);
        assert_eq!(r.proof_size, proof_size, "proof_size of {:?}", op);
    }
}

#[test]
fn schema_is_exactly_four_fields() {
    // A record built from arbitrary numbers holds exactly those numbers:
    // the schema admits any values.
    let r = WeightRecord::new(1, 2, 3, 4);
    assert_eq!(r.ref_time, 1);
    assert_eq!(r.proof_size, 2);
    assert_eq!(r.reads, 3);
    assert_eq!(r.writes, 4);
    // Two records that agree on the four fields are the same record.
    assert_eq!(WeightRecord::new(36_463_000, 3541, 4, 2), record(Extrinsic::Send));
}

#[test]
fn regenerated_values_fit_the_same_schema() {
    // A later benchmark run changes numbers, never shape: the extreme
    // values still build records that round-trip unchanged.
    let zero = WeightRecord::new(0, 0, 0, 0);
    assert_eq!((zero.ref_time, zero.proof_size, zero.reads, zero.writes), (0, 0, 0, 0));
    let max = WeightRecord::new(u64::MAX, u64::MAX, u64::MAX, u64::MAX);
    assert_eq!(max.ref_time, u64::MAX);
    assert_eq!(max.proof_size, u64::MAX);
    assert_eq!(max.reads, u64::MAX);
    assert_eq!(max.writes, u64::MAX);
}

#[test]
fn lookup_is_deterministic() {
    let first = record(Extrinsic::TakeResponse);
    let second = record(Extrinsic::TakeResponse);
    assert_eq!(first, second);
    assert_eq!(record(Extrinsic::ClaimAssets), record(Extrinsic::ClaimAssets));
}
