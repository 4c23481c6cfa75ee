//! Verified core of the Hurray Python binding: element types, devices, layouts and
//! their validation, buffer alignment, construction fills and display helpers.

pub mod text;
pub mod device;
pub mod dtype;
pub mod creation;
pub mod layout;
pub mod quantization;
pub mod errors;
pub mod dlpack;
pub mod interop;
pub mod buffer;
pub mod descriptor;
pub mod sparse;
pub mod context;
pub mod modes;
pub mod print_options;
pub mod native_buffer;
pub mod allocator;
pub mod kv;
pub mod file_io;
pub mod stream;
pub mod metadata;
pub mod composite;
