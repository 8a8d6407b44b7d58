//! A playback queue and the MPD line protocol that drives it.
//!
//! The library decides and computes; it reads no socket, asks no catalog and
//! sends nothing to a player. What it has for the player and for waiting
//! clients it puts on lists that the caller takes and delivers, and what it
//! needs from the catalog it asks for by value and takes back by value.
//!
//! - [`queue`]: the queue of tracks with its cursor, status and clock.
//! - [`laws`]: what holds of the queue whatever is done to it.
//! - [`mpd`]: framing of lines into batches, the table of commands, the
//!   commands themselves, and the response to a batch.
//! - [`track`], [`player`], [`catalog`]: the values that pass between the
//!   library and the world.
//! - [`text`], [`pattern`]: characters, numbers and regular expressions.

pub mod catalog;
pub mod laws;
pub mod mpd;
pub mod pattern;
pub mod player;
pub mod queue;
pub mod text;
pub mod track;
