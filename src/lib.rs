//! SafeMail: a mail broker for end-to-end encrypted messages whose admission
//! is governed by postage stamps (recipient-issued periodic stamps, or
//! system-issued one-time stamps paid for with proof of work).

pub mod accounts;
pub mod error;
pub mod laws;
pub mod mail;
pub mod messages;
pub mod model;
pub mod services;
pub mod sessions;
pub mod stamps;
pub mod state;
pub mod tracking;
pub mod users;
