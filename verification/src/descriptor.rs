//! What a pipeline declares of the data that its shaders read.

pub mod pipeline_layout;
