//! Planning and bookkeeping for a macOS disk cleaner: the catalogue of
//! cleanup targets, the accounting of physical sizes, the confirmation
//! protocol of a cleanup session and the main menu.

pub mod text;
pub mod paths;
pub mod targets;
pub mod catalogue;
pub mod installers;
pub mod sizes;
pub mod report;
pub mod session;
pub mod menu;
