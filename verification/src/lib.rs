//! The item data of a bibliographic reference library: one record per item
//! type, the creators and tags that records hold, and the wire form in which
//! the remote API delivers and accepts them.
//!
//! A record is decoded from a JSON value and encoded to one by the rules of
//! [`codec`]: each field has a wire name and a presence rule, which says
//! whether an empty field is written and what an absent member is read as.
//! Decoding passes over members that a record does not declare and fails only
//! with [`error::SchemaMismatch`], where a declared member has the wrong
//! shape. A record can also be collected field by field with its builder.
//!
//! Contracts speak of the mathematical value of each type, its view. The view
//! of a JSON object is a map, so the order of its members is no part of it;
//! the view of an array is a sequence, so the order of its elements is.

pub mod codec;
pub mod error;
pub mod item;
pub mod json;
pub mod shared_fields;
