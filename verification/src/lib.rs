//! Open Shop Protocol: the protocol's document types and validation rules,
//! and the decisions of a shop node that serves them.

pub mod json;
pub mod node;
pub mod protocol;
pub mod text;
pub mod web;
