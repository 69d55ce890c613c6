pub mod events;
pub mod layout;
pub mod report;
