pub mod blacklist;
pub mod friend;
