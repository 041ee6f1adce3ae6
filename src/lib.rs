//! Startup decisions of a desktop application shell: which capability
//! plugins it registers, how it treats its main window once set up, and how
//! it ends when the event loop returns.

pub mod capability;
pub mod startup;
