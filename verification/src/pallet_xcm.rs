//! The benchmarked weight table for the cross-consensus messaging
//! pallet. Each extrinsic maps to one constant [`WeightRecord`].

use vstd::prelude::*;
use crate::weight::{RuntimeDbWeight, Weight};

verus! {

/// One row of the benchmark table. The schema is exactly these four
/// fields; a regenerated table changes only the numbers.
#[derive(Clone, Copy, Debug, PartialEq, Eq, Structural)]
pub struct WeightRecord {
    /// Minimum execution time measured for the extrinsic, in picoseconds.
    pub ref_time: u64,
    /// Estimated proof-size footprint, in bytes.
    pub proof_size: u64,
    /// Number of storage reads the extrinsic performs.
    pub reads: u64,
    /// Number of storage writes the extrinsic performs.
    pub writes: u64,
}

impl WeightRecord {
    /// The record with the given measurements; any numeric values are
    /// accepted, the schema alone is fixed.
    pub fn new(ref_time: u64, proof_size: u64, reads: u64, writes: u64) -> (r: WeightRecord)
        ensures
            r.ref_time == ref_time,
            r.proof_size == proof_size,
            r.reads == reads,
            r.writes == writes,
    {
        WeightRecord { ref_time, proof_size, reads, writes }
    }

    /// The record folded into a single weight: the measured time plus
    /// every read and write charged at the database's cost, each
    /// component saturating at `u64::MAX`.
    pub open spec fn spec_total(self, db: RuntimeDbWeight) -> Weight {
        Weight { ref_time: self.ref_time, proof_size: self.proof_size }
            .spec_saturating_add(db.spec_reads(self.reads))
            .spec_saturating_add(db.spec_writes(self.writes))
    }

    /// Folds the record into a single weight under the given database
    /// cost table.
    pub fn total_weight(&self, db: RuntimeDbWeight) -> (w: Weight)
        ensures
            w == self.spec_total(db),
    {
        Weight::from_parts(self.ref_time, self.proof_size)
            .saturating_add(db.reads(self.reads))
            .saturating_add(db.writes(self.writes))
    }
}

/// The extrinsics of the cross-consensus messaging pallet whose costs
/// were benchmarked.
#[derive(Clone, Copy, Debug, PartialEq, Eq, Structural)]
pub enum Extrinsic {
    Send,
    TeleportAssets,
    ReserveTransferAssets,
    TransferAssets,
    Execute,
    ForceXcmVersion,
    ForceDefaultXcmVersion,
    ForceSubscribeVersionNotify,
    ForceUnsubscribeVersionNotify,
    ForceSuspension,
    MigrateSupportedVersion,
    MigrateVersionNotifiers,
    AlreadyNotifiedTarget,
    NotifyCurrentTargets,
    NotifyTargetMigrationFail,
    MigrateVersionNotifyTargets,
    MigrateAndNotifyOldTargets,
    NewQuery,
    TakeResponse,
    ClaimAssets,
}

/// The benchmark table as a mathematical function: the constant record
/// measured for each extrinsic.
pub open spec fn spec_record(op: Extrinsic) -> WeightRecord {
    match op {
        Extrinsic::Send => WeightRecord {
            ref_time: 36_463_000,
            proof_size: 3541,
            reads: 4,
            writes: 2,
        },
        Extrinsic::TeleportAssets => WeightRecord {
            ref_time: 158_000_000,
            proof_size: 3593,
            reads: 5,
            writes: 3,
        },
        Extrinsic::ReserveTransferAssets => WeightRecord {
            ref_time: 155_242_000,
            proof_size: 3593,
            reads: 5,
            writes: 3,
        },
        Extrinsic::TransferAssets => WeightRecord {
            ref_time: 158_738_000,
            proof_size: 3593,
            reads: 5,
            writes: 3,
        },
        Extrinsic::Execute => WeightRecord {
            ref_time: 13_526_000,
            proof_size: 0,
            reads: 0,
            writes: 0,
        },
        Extrinsic::ForceXcmVersion => WeightRecord {
            ref_time: 10_367_000,
            proof_size: 0,
            reads: 0,
            writes: 1,
        },
        Extrinsic::ForceDefaultXcmVersion => WeightRecord {
            ref_time: 3_284_000,
            proof_size: 0,
            reads: 0,
            writes: 0,
        },
        Extrinsic::ForceSubscribeVersionNotify => WeightRecord {
            ref_time: 44_388_000,
            proof_size: 3541,
            reads: 6,
            writes: 5,
        },
        Extrinsic::ForceUnsubscribeVersionNotify => WeightRecord {
            ref_time: 51_071_000,
            proof_size: 3721,
            reads: 5,
            writes: 4,
        },
        Extrinsic::ForceSuspension => WeightRecord {
            ref_time: 3_512_000,
            proof_size: 0,
            reads: 0,
            writes: 1,
        },
        Extrinsic::MigrateSupportedVersion => WeightRecord {
            ref_time: 22_947_000,
            proof_size: 13387,
            reads: 5,
            writes: 2,
        },
        Extrinsic::MigrateVersionNotifiers => WeightRecord {
            ref_time: 23_134_000,
            proof_size: 13391,
            reads: 5,
            writes: 2,
        },
        Extrinsic::AlreadyNotifiedTarget => WeightRecord {
            ref_time: 25_776_000,
            proof_size: 15918,
            reads: 6,
            writes: 0,
        },
        Extrinsic::NotifyCurrentTargets => WeightRecord {
            ref_time: 43_738_000,
            proof_size: 6052,
            reads: 6,
            writes: 3,
        },
        Extrinsic::NotifyTargetMigrationFail => WeightRecord {
            ref_time: 16_104_000,
            proof_size: 10926,
            reads: 4,
            writes: 0,
        },
        Extrinsic::MigrateVersionNotifyTargets => WeightRecord {
            ref_time: 23_077_000,
            proof_size: 13398,
            reads: 5,
            writes: 2,
        },
        Extrinsic::MigrateAndNotifyOldTargets => WeightRecord {
            ref_time: 55_708_000,
            proof_size: 13477,
            reads: 9,
            writes: 4,
        },
        Extrinsic::NewQuery => WeightRecord {
            ref_time: 3_301_000,
            proof_size: 1485,
            reads: 1,
            writes: 2,
        },
        Extrinsic::TakeResponse => WeightRecord {
            ref_time: 29_963_000,
            proof_size: 11041,
            reads: 1,
            writes: 1,
        },
        Extrinsic::ClaimAssets => WeightRecord {
            ref_time: 48_743_000,
            proof_size: 3488,
            reads: 1,
            writes: 1,
        },
    }
}

/// Looks up the benchmarked record for an extrinsic. A pure constant
/// lookup: it cannot fail, and repeated calls return the same record.
pub fn record(op: Extrinsic) -> (r: WeightRecord)
    ensures
        r == spec_record(op),
{
    match op {
        Extrinsic::Send => WeightRecord::new(36_463_000, 3541, 4, 2),
        Extrinsic::TeleportAssets => WeightRecord::new(158_000_000, 3593, 5, 3),
        Extrinsic::ReserveTransferAssets => WeightRecord::new(155_242_000, 3593, 5, 3),
        Extrinsic::TransferAssets => WeightRecord::new(158_738_000, 3593, 5, 3),
        Extrinsic::Execute => WeightRecord::new(13_526_000, 0, 0, 0),
        Extrinsic::ForceXcmVersion => WeightRecord::new(10_367_000, 0, 0, 1),
        Extrinsic::ForceDefaultXcmVersion => WeightRecord::new(3_284_000, 0, 0, 0),
        Extrinsic::ForceSubscribeVersionNotify => WeightRecord::new(44_388_000, 3541, 6, 5),
        Extrinsic::ForceUnsubscribeVersionNotify => WeightRecord::new(51_071_000, 3721, 5, 4),
        Extrinsic::ForceSuspension => WeightRecord::new(3_512_000, 0, 0, 1),
        Extrinsic::MigrateSupportedVersion => WeightRecord::new(22_947_000, 13387, 5, 2),
        Extrinsic::MigrateVersionNotifiers => WeightRecord::new(23_134_000, 13391, 5, 2),
        Extrinsic::AlreadyNotifiedTarget => WeightRecord::new(25_776_000, 15918, 6, 0),
        Extrinsic::NotifyCurrentTargets => WeightRecord::new(43_738_000, 6052, 6, 3),
        Extrinsic::NotifyTargetMigrationFail => WeightRecord::new(16_104_000, 10926, 4, 0),
        Extrinsic::MigrateVersionNotifyTargets => WeightRecord::new(23_077_000, 13398, 5, 2),
        Extrinsic::MigrateAndNotifyOldTargets => WeightRecord::new(55_708_000, 13477, 9, 4),
        Extrinsic::NewQuery => WeightRecord::new(3_301_000, 1485, 1, 2),
        Extrinsic::TakeResponse => WeightRecord::new(29_963_000, 11041, 1, 1),
        Extrinsic::ClaimAssets => WeightRecord::new(48_743_000, 3488, 1, 1),
    }
}

/// The weight table bound to a database cost table, ready to price each
/// extrinsic as a single [`Weight`]. Reads nothing but immutable
/// constants: every accessor is total and deterministic.
#[derive(Clone, Copy, Debug, PartialEq, Eq, Structural)]
pub struct SubstrateWeight {
    /// The per-read and per-write charges of the backing database.
    pub db_weight: RuntimeDbWeight,
}

impl SubstrateWeight {
    /// The table priced against the given database cost table.
    pub fn new(db_weight: RuntimeDbWeight) -> (s: SubstrateWeight)
        ensures
            s.db_weight == db_weight,
    {
        SubstrateWeight { db_weight }
    }

    /// The benchmarked record for `op`, folded into a single weight
    /// under this table's database costs.
    pub fn weight_of(&self, op: Extrinsic) -> (w: Weight)
        ensures
            w == spec_record(op).spec_total(self.db_weight),
    {
        let r = record(op);
        r.total_weight(self.db_weight)
    }

    /// Storage: `Dmp::DeliveryFeeFactor` (r:1 w:0)
    /// Storage: `XcmPallet::SupportedVersion` (r:1 w:0)
    /// Storage: `Dmp::DownwardMessageQueues` (r:1 w:1)
    /// Storage: `Dmp::DownwardMessageQueueHeads` (r:1 w:1)
    pub fn send(&self) -> (w: Weight)
        ensures
            w == spec_record(Extrinsic::Send).spec_total(self.db_weight),
    {
        self.weight_of(Extrinsic::Send)
    }

    /// Storage: `System::Account` (r:1 w:1)
    /// Storage: `Dmp::DeliveryFeeFactor` (r:1 w:0)
    /// Storage: `XcmPallet::SupportedVersion` (r:1 w:0)
    /// Storage: `Dmp::DownwardMessageQueues` (r:1 w:1)
    /// Storage: `Dmp::DownwardMessageQueueHeads` (r:1 w:1)
    pub fn teleport_assets(&self) -> (w: Weight)
        ensures
            w == spec_record(Extrinsic::TeleportAssets).spec_total(self.db_weight),
    {
        self.weight_of(Extrinsic::TeleportAssets)
    }

    /// Storage: `System::Account` (r:1 w:1)
    /// Storage: `Dmp::DeliveryFeeFactor` (r:1 w:0)
    /// Storage: `XcmPallet::SupportedVersion` (r:1 w:0)
    /// Storage: `Dmp::DownwardMessageQueues` (r:1 w:1)
    /// Storage: `Dmp::DownwardMessageQueueHeads` (r:1 w:1)
    pub fn reserve_transfer_assets(&self) -> (w: Weight)
        ensures
            w == spec_record(Extrinsic::ReserveTransferAssets).spec_total(self.db_weight),
    {
        self.weight_of(Extrinsic::ReserveTransferAssets)
    }

    /// Storage: `System::Account` (r:1 w:1)
    /// Storage: `Dmp::DeliveryFeeFactor` (r:1 w:0)
    /// Storage: `XcmPallet::SupportedVersion` (r:1 w:0)
    /// Storage: `Dmp::DownwardMessageQueues` (r:1 w:1)
    /// Storage: `Dmp::DownwardMessageQueueHeads` (r:1 w:1)
    pub fn transfer_assets(&self) -> (w: Weight)
        ensures
            w == spec_record(Extrinsic::TransferAssets).spec_total(self.db_weight),
    {
        self.weight_of(Extrinsic::TransferAssets)
    }

    /// Touches no storage.
    pub fn execute(&self) -> (w: Weight)
        ensures
            w == spec_record(Extrinsic::Execute).spec_total(self.db_weight),
    {
        self.weight_of(Extrinsic::Execute)
    }

    /// Storage: `XcmPallet::SupportedVersion` (r:0 w:1)
    pub fn force_xcm_version(&self) -> (w: Weight)
        ensures
            w == spec_record(Extrinsic::ForceXcmVersion).spec_total(self.db_weight),
    {
        self.weight_of(Extrinsic::ForceXcmVersion)
    }

    /// Touches no storage.
    pub fn force_default_xcm_version(&self) -> (w: Weight)
        ensures
            w == spec_record(Extrinsic::ForceDefaultXcmVersion).spec_total(self.db_weight),
    {
        self.weight_of(Extrinsic::ForceDefaultXcmVersion)
    }

    /// Storage: `XcmPallet::VersionNotifiers` (r:1 w:1)
    /// Storage: `XcmPallet::QueryCounter` (r:1 w:1)
    /// Storage: `Dmp::DeliveryFeeFactor` (r:1 w:0)
    /// Storage: `XcmPallet::SupportedVersion` (r:1 w:0)
    /// Storage: `Dmp::DownwardMessageQueues` (r:1 w:1)
    /// Storage: `Dmp::DownwardMessageQueueHeads` (r:1 w:1)
    /// Storage: `XcmPallet::Queries` (r:0 w:1)
    pub fn force_subscribe_version_notify(&self) -> (w: Weight)
        ensures
            w == spec_record(Extrinsic::ForceSubscribeVersionNotify).spec_total(self.db_weight),
    {
        self.weight_of(Extrinsic::ForceSubscribeVersionNotify)
    }

    /// Storage: `XcmPallet::VersionNotifiers` (r:1 w:1)
    /// Storage: `Dmp::DeliveryFeeFactor` (r:1 w:0)
    /// Storage: `XcmPallet::SupportedVersion` (r:1 w:0)
    /// Storage: `Dmp::DownwardMessageQueues` (r:1 w:1)
    /// Storage: `Dmp::DownwardMessageQueueHeads` (r:1 w:1)
    /// Storage: `XcmPallet::Queries` (r:0 w:1)
    pub fn force_unsubscribe_version_notify(&self) -> (w: Weight)
        ensures
            w == spec_record(Extrinsic::ForceUnsubscribeVersionNotify).spec_total(self.db_weight),
    {
        self.weight_of(Extrinsic::ForceUnsubscribeVersionNotify)
    }

    /// Storage: `XcmPallet::XcmExecutionSuspended` (r:0 w:1)
    pub fn force_suspension(&self) -> (w: Weight)
        ensures
            w == spec_record(Extrinsic::ForceSuspension).spec_total(self.db_weight),
    {
        self.weight_of(Extrinsic::ForceSuspension)
    }

    /// Storage: `XcmPallet::SupportedVersion` (r:5 w:2)
    pub fn migrate_supported_version(&self) -> (w: Weight)
        ensures
            w == spec_record(Extrinsic::MigrateSupportedVersion).spec_total(self.db_weight),
    {
        self.weight_of(Extrinsic::MigrateSupportedVersion)
    }

    /// Storage: `XcmPallet::VersionNotifiers` (r:5 w:2)
    pub fn migrate_version_notifiers(&self) -> (w: Weight)
        ensures
            w == spec_record(Extrinsic::MigrateVersionNotifiers).spec_total(self.db_weight),
    {
        self.weight_of(Extrinsic::MigrateVersionNotifiers)
    }

    /// Storage: `XcmPallet::VersionNotifyTargets` (r:6 w:0)
    pub fn already_notified_target(&self) -> (w: Weight)
        ensures
            w == spec_record(Extrinsic::AlreadyNotifiedTarget).spec_total(self.db_weight),
    {
        self.weight_of(Extrinsic::AlreadyNotifiedTarget)
    }

    /// Storage: `XcmPallet::VersionNotifyTargets` (r:2 w:1)
    /// Storage: `Dmp::DeliveryFeeFactor` (r:1 w:0)
    /// Storage: `XcmPallet::SupportedVersion` (r:1 w:0)
    /// Storage: `Dmp::DownwardMessageQueues` (r:1 w:1)
    /// Storage: `Dmp::DownwardMessageQueueHeads` (r:1 w:1)
    pub fn notify_current_targets(&self) -> (w: Weight)
        ensures
            w == spec_record(Extrinsic::NotifyCurrentTargets).spec_total(self.db_weight),
    {
        self.weight_of(Extrinsic::NotifyCurrentTargets)
    }

    /// Storage: `XcmPallet::VersionNotifyTargets` (r:4 w:0)
    pub fn notify_target_migration_fail(&self) -> (w: Weight)
        ensures
            w == spec_record(Extrinsic::NotifyTargetMigrationFail).spec_total(self.db_weight),
    {
        self.weight_of(Extrinsic::NotifyTargetMigrationFail)
    }

    /// Storage: `XcmPallet::VersionNotifyTargets` (r:5 w:2)
    pub fn migrate_version_notify_targets(&self) -> (w: Weight)
        ensures
            w == spec_record(Extrinsic::MigrateVersionNotifyTargets).spec_total(self.db_weight),
    {
        self.weight_of(Extrinsic::MigrateVersionNotifyTargets)
    }

    /// Storage: `XcmPallet::VersionNotifyTargets` (r:5 w:2)
    /// Storage: `Dmp::DeliveryFeeFactor` (r:1 w:0)
    /// Storage: `XcmPallet::SupportedVersion` (r:1 w:0)
    /// Storage: `Dmp::DownwardMessageQueues` (r:1 w:1)
    /// Storage: `Dmp::DownwardMessageQueueHeads` (r:1 w:1)
    pub fn migrate_and_notify_old_targets(&self) -> (w: Weight)
        ensures
            w == spec_record(Extrinsic::MigrateAndNotifyOldTargets).spec_total(self.db_weight),
    {
        self.weight_of(Extrinsic::MigrateAndNotifyOldTargets)
    }

    /// Storage: `XcmPallet::QueryCounter` (r:1 w:1)
    /// Storage: `XcmPallet::Queries` (r:0 w:1)
    pub fn new_query(&self) -> (w: Weight)
        ensures
            w == spec_record(Extrinsic::NewQuery).spec_total(self.db_weight),
    {
        self.weight_of(Extrinsic::NewQuery)
    }

    /// Storage: `XcmPallet::Queries` (r:1 w:1)
    pub fn take_response(&self) -> (w: Weight)
        ensures
            w == spec_record(Extrinsic::TakeResponse).spec_total(self.db_weight),
    {
        self.weight_of(Extrinsic::TakeResponse)
    }

    /// Storage: `XcmPallet::AssetTraps` (r:1 w:1)
    pub fn claim_assets(&self) -> (w: Weight)
        ensures
            w == spec_record(Extrinsic::ClaimAssets).spec_total(self.db_weight),
    {
        self.weight_of(Extrinsic::ClaimAssets)
    }
}

/// Law: the schema of a record is exactly its four fields. Two records
/// that agree on execution time, proof size, read count and write count
/// are the same record, so a regenerated table that keeps the four
/// fields and changes only the numbers stays within the same schema.
pub proof fn lemma_record_schema(a: WeightRecord, b: WeightRecord)
    requires
        a.ref_time == b.ref_time,
        a.proof_size == b.proof_size,
        a.reads == b.reads,
        a.writes == b.writes,
    ensures
        a == b,
{
}

/// Law: the table is a pure function of the extrinsic. Any two lookups
/// of the same extrinsic — in particular, repeated calls of [`record`] —
/// yield the same record.
pub proof fn lemma_lookup_deterministic(op: Extrinsic, r1: WeightRecord, r2: WeightRecord)
    requires
        r1 == spec_record(op),
        r2 == spec_record(op),
    ensures
        r1 == r2,
{
}

/// Law: pricing is deterministic as well. Any two results of the same
/// accessor of [`SubstrateWeight`] on the same table — each accessor
/// returns `spec_record(op).spec_total(db)` for its extrinsic — are
/// equal weights.
pub proof fn lemma_accessor_deterministic(
    db: RuntimeDbWeight,
    op: Extrinsic,
    w1: Weight,
    w2: Weight,
)
    requires
        w1 == spec_record(op).spec_total(db),
        w2 == spec_record(op).spec_total(db),
    ensures
        w1 == w2,
{
}

} // verus!
