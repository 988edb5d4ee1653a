//! The screens of the application.
pub mod menu;
pub mod node;
pub mod settings;
pub mod setup;
pub mod wallet;
