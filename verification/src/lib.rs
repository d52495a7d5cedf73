//! A directory browser's core: navigation history, directory listing
//! normalisation and the controller that keeps both in step.

pub mod history;
pub mod listing;
pub mod size;
pub mod browser;
