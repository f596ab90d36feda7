//! Screen-region capture and multipart object-store uploads, as verified
//! state machines: the network, the screen and the database stay with the
//! caller, which performs the requests this library prepares and reports
//! back what came of them.

pub mod rect;
pub mod store;
pub mod config;
pub mod text;
pub mod upload;
pub mod capture;
pub mod window;
pub mod records;
