//! A local feed for image installers: the feed is announced on the local
//! network by multicast DNS and its directory is served over HTTP.
//!
//! This library holds the rules of the feed: which addresses are announced,
//! what the announcement says, where the server listens, in which order the
//! parts are brought up, and how they are taken down again once the interrupt
//! arrives.

pub mod advertiser;
pub mod coordinator;
pub mod descriptor;
pub mod interfaces;
pub mod server;
pub mod startup;
