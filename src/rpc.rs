pub mod account;
pub mod auth;
pub mod channel;
pub mod channel_broadcast;
pub mod contact;
pub mod device;
pub mod file;
pub mod group;
pub mod message;
pub mod presence;
pub mod qrcode;
pub mod sticker;
pub mod sync;
