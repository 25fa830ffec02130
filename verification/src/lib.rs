//! Verified core of the TeleMesh gateway: the decisions of the server and its client,
//! apart from the network, the files and the Telegram session they drive.
pub mod auth;
pub mod client;
pub mod convert;
pub mod download;
pub mod login;
pub mod numbers;
pub mod paging;
pub mod peer;
pub mod protocol;
pub mod retry;
pub mod socket;
pub mod text;
pub mod tickets;
pub mod updates;
pub mod upload;
