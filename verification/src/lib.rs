//! Rules of a desktop welcome application: what it tells about the machine,
//! which tools it starts, how it reads a package manager's answer, and the
//! settings and translations it keeps.

pub mod actions;
pub mod config;
pub mod error;
pub mod i18n;
pub mod notifications;
pub mod package_manager;
pub mod system;
pub mod text;
