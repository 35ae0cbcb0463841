//! Terminal sessions of a project: where a session runs and with which
//! environment, how a virtual environment is found and activated in it, the
//! table of live sessions, and the forwarding of input to sessions of a
//! remotely hosted project.
pub mod env;
pub mod path;
pub mod registry;
pub mod remote;
pub mod session;
pub mod static_data;
pub mod ui;
pub mod venv;
