//! Control-plane logic for the Windows service control manager.
//!
//! The library computes what has to be handed to the service control
//! manager and interprets what comes back; making the native calls is left
//! to the caller. Every operation is therefore split in two: a function
//! that encodes the arguments into a pending call, and a function on that
//! call, `finish` or `on_reply`, that turns the reply into a result.
//!
//! * [`service_manager`] holds the connection and its operations.
//! * [`service`] holds the description of a service, its encoded form and
//!   the handle of an open service.
//! * [`status`] decodes status records.
//! * [`wide`] converts between text and nul-terminated UTF-16.
//! * [`shell_escape`] quotes command-line arguments.
//! * [`handle`] guards handles against being closed twice.
//! * [`flags`] holds the bit sets, [`error`] the errors.

pub mod error;
pub mod flags;
pub mod handle;
pub mod service;
pub mod service_manager;
pub mod shell_escape;
pub mod status;
pub mod wide;
