//! The decisions of a shop node: configuration, input checks, the admin
//! API's rules, and the documents it serves.

pub mod admin;
pub mod config;
pub mod consistency;
pub mod error;
pub mod models;
pub mod osp;
pub mod paging;
pub mod validation;
