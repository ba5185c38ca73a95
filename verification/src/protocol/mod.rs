//! The API's messages on the wire. The conversions between the API values and
//! their wire messages are lossless: every API value comes back unchanged after
//! going to the wire and back.

pub mod artwork;
pub mod events;
pub mod library;
pub mod player;
pub mod playlists;
pub mod queue;
pub mod radio;
pub mod service;
