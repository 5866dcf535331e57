//! Commands, and the checks that guard their recording.

pub mod validity;
