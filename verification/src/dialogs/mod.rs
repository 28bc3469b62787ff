pub mod agents;
pub mod common;
pub mod models;
pub mod permission;
pub mod question;
pub mod sessions;
pub mod skills;
pub mod status;
pub mod themes;
pub mod which_key;
pub mod git;
pub mod router;
