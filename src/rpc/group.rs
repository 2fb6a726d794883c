pub mod approval;
pub mod group;
pub mod member;
pub mod member_mute;
pub mod qrcode;
pub mod role_set;
pub mod settings;
pub mod transfer;
