//! Index layouts.

pub mod default_serial_index_layout;

pub use default_serial_index_layout::DefaultSerialIndexLayout;
