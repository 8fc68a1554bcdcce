//! Matchmaking and game-session rules for a three-person guessing game played
//! over short text messages.
//!
//! A main player is paired with a waiting stranger and invites a friend. A coin
//! flip decides which of the two the main player actually talks to, and the main
//! player has to guess which one it is. This crate holds the rules: who is
//! admitted, who is busy, what each state of a session does with an inbound
//! message and which texts go out in response. Delivering and fetching texts is
//! left to the caller.

pub mod busy;
pub mod chance;
pub mod dispatcher;
pub mod inbound;
pub mod message;
pub mod registry;
pub mod session;
pub mod text;
