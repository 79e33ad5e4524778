//! Inspect the firmware's boot entries and steer the next reboot through the
//! `BootNext` variable.

pub mod name_codec;
pub mod heuristics_load_option_number_iter;
pub mod store;
pub mod memory_store;
pub mod load_option;
pub mod error;
pub mod native_endian;
pub mod load_option_codec;
pub mod boot_next;
pub mod slot_source;
pub mod load_option_number_iter;
pub mod load_option_iter;
pub mod adapter;
pub mod load_option_format;
pub mod operation;

pub use adapter::Adapter;
pub use load_option::LoadOption;
