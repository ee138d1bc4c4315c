//! Recognition of timed controller input techniques and scoring of how
//! precisely an attempt matched its template.

pub mod controller;
pub mod zones;
pub mod input_sequence;
pub mod scoring;
