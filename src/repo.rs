//! The local repository side: metadata records, environment checks and the
//! decisions taken on what version control reports.

pub mod environment;
pub mod git;
pub mod init;
pub mod metadata;
