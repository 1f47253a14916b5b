pub mod layout;
pub mod manager;
pub mod registry;
pub mod store;
pub mod types;
