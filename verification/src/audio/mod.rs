//! Audio: file formats, recording settings, silence counting and the
//! control of the player.
pub mod decoder;
pub mod files;
pub mod input;
pub mod player;
pub mod recording;
pub mod silence;
