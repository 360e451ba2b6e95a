//! Benchmark-derived weight tables for the extrinsics of a
//! cross-consensus messaging pallet.
//!
//! Every extrinsic is mapped to a fixed, precomputed [`pallet_xcm::WeightRecord`]:
//! an execution-time estimate, a proof-size estimate, and the counts of
//! storage reads and writes the extrinsic performs. The records are
//! constants baked in from an offline benchmark run; looking one up never
//! fails and never varies between calls.

pub mod pallet_xcm;
pub mod weight;
