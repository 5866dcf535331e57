//! Checks on the commands that are about to be recorded. Each one only reads
//! what it is given, and names the reason where it refuses.

pub mod index_buffer;
pub mod push_constants;

pub use crate::command_buffer::validity::index_buffer::check_index_buffer;
pub use crate::command_buffer::validity::index_buffer::CheckIndexBuffer;
pub use crate::command_buffer::validity::index_buffer::CheckIndexBufferError;
pub use crate::command_buffer::validity::push_constants::check_push_constants_validity;
pub use crate::command_buffer::validity::push_constants::CheckPushConstantsValidityError;
