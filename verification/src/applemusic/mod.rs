//! Apple Music: playback dispatch, asset selection and the system Widevine CDM.

pub mod discover;
pub mod stream;
