//! Bridges a callback-driven native document picker into a future of one
//! optional file and a stream of files.
//!
//! The native browser calls back with raw buffers, at times and on threads
//! of its choosing. [`pick_file`] and [`pick_files`] start a session: they
//! marshal the extension filter, make the channel, hand its producing half
//! to the browser and keep the presenter that the browser returns alive for
//! as long as the consuming half lives. The producing half turns each
//! callback into a message; the consuming half is polled for the results.

pub mod channel;
pub mod extensions;
pub mod handle;
pub mod multi;
pub mod progress;
pub mod request;
pub mod shim;
pub mod single;

pub use crate::handle::FileHandle;
pub use crate::multi::pick_files;
pub use crate::single::pick_file;
