//! The decision core of a desktop wallpaper that moves with the music.

pub mod capture;
pub mod display;
pub mod events;
pub mod helper;
pub mod menu;
pub mod pipeline;
pub mod platform;
pub mod sync;
pub mod system_audio;
pub mod text;
pub mod wallpaper;
