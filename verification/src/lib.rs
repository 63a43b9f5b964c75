pub mod circuit;
pub mod curve;
pub mod digest;
pub mod encoding;
pub mod error;
pub mod field;
pub mod gadget;
pub mod generator;
pub mod marlin;
pub mod native;
pub mod parameters;
pub mod rewards;
pub mod text;
