//! Typed client logic for the Leetify public Counter-Strike statistics API.
//!
//! The library says which request each operation sends and what each answer
//! means. It sends nothing itself: a transport takes a [`Request`], and hands
//! back a [`Status`] and the body.

pub mod client;
pub mod data_source;
pub mod error;
pub mod ids;
pub mod player;
pub mod records;
pub mod request;
pub mod status;

pub use client::{Client, ClientBuilder};
pub use data_source::DataSource;
pub use error::Error;
pub use ids::{is_uuid_format, Id, LeetifyId, Steam64Id};
pub use player::Player;
pub use records::{
    deserialize_score, deserialize_team_scores, exactly_two, CompetitiveRank, LengthMismatch,
    RecentTeammate, TeamScore,
};
pub use request::Request;
pub use status::Status;
