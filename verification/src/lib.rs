pub mod command;
pub mod cursor;
pub mod layout;
pub mod math;
pub mod state;
