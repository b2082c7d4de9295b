pub mod handler;
pub mod laws;
pub mod lawsuit;
pub mod model;
pub mod protocol;
pub mod store;
pub mod text;
