pub mod air_quality;
pub mod ninedof;
