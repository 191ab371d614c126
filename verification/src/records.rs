//! The record decoders and the field-level parsers they share.
pub mod data_fix;
pub mod task_info;
pub mod util;
