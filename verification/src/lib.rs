pub mod http;
pub mod item;
pub mod store;
