use vstd::prelude::*;

pub mod api;
pub mod applemusic;
pub mod config;
pub mod convert;
pub mod cover;
pub mod enums;
pub mod pages;
pub mod player;
pub mod protocol;
pub mod status;
pub mod text;
pub mod wire;

verus! {
} // verus!
