//! The logic of a Matrix chat client, verified: the timeline of a room
//! (formatting messages, resolving replies, folding threads), the room list
//! and its spaces, logging in, sending messages, and what the pages decide.
//! `boundary` holds the calls into std and outside crates whose behaviour is
//! stated without proof.
use vstd::prelude::*;

pub mod boundary;
pub mod text;
pub mod timeline;
pub mod views;
pub mod pages;
pub mod rooms;
pub mod members;
pub mod messaging;
pub mod auth;
pub mod state;
