pub mod direct;
pub mod channel_hide;
pub mod mute;
pub mod pin;
