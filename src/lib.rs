//! Safe, verified core of a broker plugin interface: status translation,
//! publish marshaling, the growable retained-message query, and reclamation
//! and conversion of host-populated records.

pub mod status;
pub mod message;
pub mod marshal;
pub mod query;
pub mod plugin;
