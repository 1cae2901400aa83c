pub mod convert;
pub mod iftable;
pub mod probes;
pub mod snapshot;
