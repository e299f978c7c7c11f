//! The client's windows: the login/register forms and the main chat view.

pub mod login;
pub mod main;
