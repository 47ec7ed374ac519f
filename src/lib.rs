//! Decision logic of a command-line installer that fetches the latest release
//! of a project, downloads its AppImage asset, marks it executable and keeps a
//! stable-named symlink to it. All input and output happens in the caller: the
//! library decides what to do next and with which paths and addresses.
pub mod text;
pub mod config;
pub mod release;
pub mod mode;
pub mod progress;
pub mod installer;
pub mod laws;
