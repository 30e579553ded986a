//! Verified core of the QA Lab launcher: the rules that decide which tools the
//! catalog lists, which release asset is installed, how a download is checked,
//! how the device-flow login polls, and what the local registry records.

pub mod model;
pub mod text;
pub mod external;
pub mod catalog;
pub mod paths;
pub mod registry;
pub mod session;
pub mod login;
pub mod github;
pub mod checks;
pub mod install;
