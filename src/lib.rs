//! Credential resolution and review-provider abstraction for a stacked-branch
//! workflow tool.

pub mod error;
pub mod providers;
pub mod remote;
pub mod repo;
pub mod text;
