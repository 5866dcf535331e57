//! What a pipeline reads its input from.

pub mod input_assembly;
