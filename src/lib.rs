//! The core of a small desktop application: the greeting command, the
//! filesystem scope that the application may reach, and the startup step that
//! registers capabilities and commands and fixes that scope.
pub mod greet;
pub mod scope;
pub mod shell;
