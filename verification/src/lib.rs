//! Locates a Roblox Studio installation and derives the paths of its
//! executable, its content directory and its two plugin directories.
//!
//! The library decides; it never touches the machine itself. What it needs
//! to know about the machine is handed to it: all at once, as a
//! [`Host`] that [`RobloxStudio::locate`] searches, or answer by answer,
//! to a [`Resolver`] that asks for what it needs.

pub mod error;
pub mod host;
pub mod laws;
pub mod layout;
pub mod path;
pub mod resolution;
pub mod resolver;
pub mod state;
pub mod studio;

pub use error::Error;
pub use host::{Host, Listing, Platform, Variable};
pub use resolver::{Answer, Query, Resolver, Search};
pub use studio::RobloxStudio;
