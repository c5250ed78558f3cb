//! Verified core of the Vaise cheat-sheet launcher.
pub mod text;
pub mod sheet;
pub mod defaults;
pub mod sort;
pub mod files;
pub mod launcher;
pub mod icon;
pub mod catalog;
