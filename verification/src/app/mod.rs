pub mod command;
pub mod control;
pub mod json;
pub mod protocol;
pub mod session;
pub mod state;
pub mod view;
