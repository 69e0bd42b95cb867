//! A chat-driven micro-ledger: a command grammar over message text, an
//! account ledger with value-conserving transfers, and the routing of each
//! parsed command to a ledger operation and a reply.

pub mod accounting;
pub mod command;
pub mod decimal;
pub mod ledger;
pub mod occurrence;
pub mod reply;
pub mod router;
pub mod text;
