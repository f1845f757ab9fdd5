//! Endpoints under `/channels`.

pub mod reactions;
