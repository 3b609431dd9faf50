pub mod api;
pub mod arguments;
pub mod capture;
pub mod osc;
pub mod parameters;
pub mod reader;
pub mod text;
pub mod worker;
