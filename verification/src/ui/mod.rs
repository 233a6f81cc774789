pub mod actor;
pub mod layout;
pub mod messages;
pub mod plot;
