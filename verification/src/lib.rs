//! Release scheduling for Discord guilds: the verified core of the
//! Scheduality bot and its companion HTTP server.
//!
//! The library holds what the bot and the server decide and compute:
//! calendar dates and their texts, the parsing of release submissions
//! typed into a modal, the messages shown to users, the permission and
//! lookup decisions around the database, and the replies of the server.
//! Everything that talks to Discord, PostgreSQL or HTTP stays outside.

pub mod calendar;
pub mod decimal;
pub mod modals;
pub mod messages;
pub mod guild;
pub mod events;
pub mod server;
