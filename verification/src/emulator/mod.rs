pub mod constants;
pub mod devices;
pub mod instructions;
pub mod interpreter;
pub mod state;
