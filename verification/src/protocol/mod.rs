//! The Open Shop Protocol documents and their validation rules.

pub mod manifest;
pub mod product;
pub mod validation;
pub mod well_known;
