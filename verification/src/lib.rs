//! Matchmaking core of a websocket chat server: lobbies pair waiting
//! visitors into two-person chats, chats relay messages between their
//! members, and every decision the actors take is a verified function of
//! their state and the event they receive.

pub mod json;
pub mod table;
pub mod message;
pub mod models;
pub mod database;
pub mod chat;
pub mod lobby;
pub mod server;
pub mod client;
