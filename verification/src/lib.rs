pub mod behaviour;
pub mod command;
pub mod context;
pub mod error;
pub mod group;
pub mod help;
pub mod literal;
pub mod names;
pub mod permissions;
pub mod text;
pub mod validate;
pub mod value;
