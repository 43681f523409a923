//! A webhook-triggered continuous-integration relay: it authenticates a push
//! notification with an HMAC signature and, for every commit in the push,
//! reflects the outcome of a locally configured command as a status check on
//! that commit.

pub mod command;
pub mod dispatcher;
pub mod github;
pub mod hexstr;
pub mod numtext;
pub mod signature;
pub mod webhook;
