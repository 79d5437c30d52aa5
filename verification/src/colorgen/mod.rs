//! Theme generation from album art. The colour science works in floating
//! point and lives outside the verified library; what is here is the part
//! that works on integers.

pub mod generator;
pub mod kmeans;
