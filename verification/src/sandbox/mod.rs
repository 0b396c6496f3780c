pub mod permissions;
pub mod fuel;
pub mod engine;
