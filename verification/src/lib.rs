//! A bridge between a callback-driven native file picker and a caller that
//! waits for its result.
//!
//! The crate holds the decisions of one file-selection request and nothing
//! that touches a window, a disk or a clock:
//!
//! * [`request`] turns the caller's configuration into the descriptor that the
//!   native picker is opened with;
//! * [`slot`] is the one-shot cell through which the picker's completion
//!   callback hands its outcome to the polling side;
//! * [`file_info`] turns a resolved selection into the [`FileInfo`] record
//!   that the caller receives.
//!
//! Every function is verified against the contract written on it.

pub mod file_info;
pub mod request;
pub mod slot;

pub use file_info::FileInfo;
