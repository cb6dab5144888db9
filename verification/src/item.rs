//! Items of a reference library: the creators that many item types list, and
//! one data record per item type.

pub mod creator;
pub mod item_data;

pub use creator::{Creator, CreatorModel, CreatorName, CreatorNameModel};
