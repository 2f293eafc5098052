//! Format-agnostic record I/O: which encoding applies to a token, a path or
//! an explicit request, which record cardinalities each encoding supports,
//! and one error type for every failure on the way.

pub mod dispatch;
pub mod error;
pub mod format;
pub mod lines;
pub mod text;

pub use dispatch::{dispatch, dispatch_extension, resolve, Cardinality};
pub use error::{codec_outcome, io_outcome, CodecError, Direction, Error};
pub use format::DataFormat;
pub use lines::{join_lines, split_lines};
