//! Safe, verified core of a reader for gzip and BGZF files that is backed by the
//! native `rapidgzip` decoder.
//!
//! The native decoder, the file system and the sources of compressed input are
//! outside the library. What the library holds is everything that is decided
//! around them: how settings are encoded, in which order calls are made, what each
//! status means, when a handle is closed, what a callback answers, how an index
//! file is replaced. An operation is a state machine that names the calls it wants
//! made and is given their replies; see [`protocol`].

pub mod builder;
pub mod callbacks;
pub mod disk;
pub mod error;
pub mod index_export;
pub mod index_import;
pub mod input;
pub mod io;
pub mod laws;
pub mod open;
pub mod protocol;
pub mod reader;
pub mod seek;
pub mod source;
pub mod stream;
pub mod sys;
pub mod text;
pub mod transfer;

pub use crate::builder::{IoReadMode, ReaderBuilder};
pub use crate::error::Error;
pub use crate::io::{checked_relative_seek, ErrorKind, IoError, SeekFrom};
pub use crate::protocol::{ModeReport, Operation, Reply, Request, Step};
pub use crate::reader::Reader;
pub use crate::sys::{rgz_callbacks_t, rgz_config_t, rgz_reader_t, rgz_status_t};
