pub mod struct_emplace_to_buffers;
pub mod struct_into_buffers;
pub mod enum_emplace_buffers;
pub mod enum_into_buffers;
pub mod enum_models;
pub mod rpc;
