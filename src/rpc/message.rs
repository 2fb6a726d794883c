pub mod history;
pub mod reaction;
pub mod revoke;
pub mod status;
