//! Remote-URL handling, profile selection and credential injection for the
//! git-xet client, with every function verified against its contract.

pub mod text;
pub mod urls;
pub mod errors;
pub mod git_url;
pub mod config;
pub mod profile;
pub mod xetblob;
pub mod store;
