//! The data records, one module per item type.

pub mod preprint;
