//! A minimal terminal viewer: cursor navigation, frame rendering and a
//! batching terminal gateway, with their behaviour stated and proved.

pub mod terminal;
pub mod buffer;
pub mod editor;
pub mod view;
