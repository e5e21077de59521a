//! The loop engine: from decoded buffers to an endless, tagged stream.

pub mod laws;
pub mod machine;
pub mod rules;
pub mod state;
