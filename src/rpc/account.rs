pub mod privacy;
pub mod profile;
pub mod search;
pub mod user;
