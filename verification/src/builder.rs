//! Reader settings and their encoding for the native layer.

use vstd::prelude::*;

use crate::sys::{
    rgz_config_t, RGZ_CONFIG_SIZE, RGZ_IO_READ_MODE_AUTO, RGZ_IO_READ_MODE_LOCKED_READ_AND_SEEK,
    RGZ_IO_READ_MODE_MASK, RGZ_IO_READ_MODE_PREAD, RGZ_IO_READ_MODE_SEQUENTIAL,
};

verus! {

/// Selects how the native backend should access the compressed input.
#[derive(Debug, Copy, Clone, PartialEq, Eq, Structural)]
pub enum IoReadMode {
    /// Keep the native default behavior for the current input type.
    Auto,
    /// Force sequential buffered reads. Useful when avoiding random disk seeks matters more than peak latency.
    Sequential,
    /// Force positioned reads (`pread`) on seekable files. Useful for SSD-friendly random access and parallel workers.
    Pread,
    /// Force a shared reader that serializes read/seek operations without `pread`. Useful as a conservative fallback.
    LockedReadAndSeek,
}

impl IoReadMode {
    /// The flag that stands for the mode.
    pub open spec fn flag(self) -> u32 {
        match self {
            IoReadMode::Auto => RGZ_IO_READ_MODE_AUTO,
            IoReadMode::Sequential => RGZ_IO_READ_MODE_SEQUENTIAL,
            IoReadMode::Pread => RGZ_IO_READ_MODE_PREAD,
            IoReadMode::LockedReadAndSeek => RGZ_IO_READ_MODE_LOCKED_READ_AND_SEEK,
        }
    }

    /// Returns the flag that stands for the mode.
    pub fn to_ffi_flags(self) -> (flags: u32)
        ensures
            flags == self.flag(),
    {
        match self {
            IoReadMode::Auto => RGZ_IO_READ_MODE_AUTO,
            IoReadMode::Sequential => RGZ_IO_READ_MODE_SEQUENTIAL,
            IoReadMode::Pread => RGZ_IO_READ_MODE_PREAD,
            IoReadMode::LockedReadAndSeek => RGZ_IO_READ_MODE_LOCKED_READ_AND_SEEK,
        }
    }
}

/// What a [`ReaderBuilder`] holds.
pub struct ReaderSettings {
    pub parallelism: u32,
    pub chunk_size: u64,
    pub keep_index: Option<bool>,
    pub io_read_mode: IoReadMode,
}

/// The settings that a fresh builder holds: automatic parallelism, chunks of
/// 4 MiB, the native index policy and the native I/O mode.
pub open spec fn default_settings() -> ReaderSettings {
    ReaderSettings {
        parallelism: 0,
        chunk_size: 4194304,
        keep_index: None,
        io_read_mode: IoReadMode::Auto,
    }
}

/// The native configuration that settings stand for.
pub open spec fn config_of(settings: ReaderSettings) -> rgz_config_t {
    rgz_config_t {
        struct_size: RGZ_CONFIG_SIZE,
        flags: settings.io_read_mode.flag(),
        parallelism: settings.parallelism,
        reserved0: 0,
        chunk_size: settings.chunk_size,
        reserved1: 0,
    }
}

/// Builder for configuring a native `Reader` before opening an input.
pub struct ReaderBuilder {
    parallelism: u32,
    chunk_size: u64,
    keep_index: Option<bool>,
    io_read_mode: IoReadMode,
}

impl View for ReaderBuilder {
    type V = ReaderSettings;

    closed spec fn view(&self) -> ReaderSettings {
        ReaderSettings {
            parallelism: self.parallelism,
            chunk_size: self.chunk_size,
            keep_index: self.keep_index,
            io_read_mode: self.io_read_mode,
        }
    }
}

impl Default for ReaderBuilder {
    fn default() -> (builder: ReaderBuilder)
        ensures
            builder@ == default_settings(),
    {
        ReaderBuilder {
            parallelism: 0,
            chunk_size: 4 * 1024 * 1024,
            keep_index: None,
            io_read_mode: IoReadMode::Auto,
        }
    }
}

impl ReaderBuilder {
    /// Creates a builder with rapidgzip defaults.
    pub fn new() -> (builder: ReaderBuilder)
        ensures
            builder@ == default_settings(),
    {
        ReaderBuilder::default()
    }

    /// Sets the requested parallelism. `0` keeps the native auto policy.
    pub fn parallelism(self, n: u32) -> (builder: ReaderBuilder)
        ensures
            builder@ == (ReaderSettings { parallelism: n, ..self@ }),
    {
        ReaderBuilder { parallelism: n, ..self }
    }

    /// Sets the native chunk size used for parallel decoding.
    pub fn chunk_size(self, size: u64) -> (builder: ReaderBuilder)
        ensures
            builder@ == (ReaderSettings { chunk_size: size, ..self@ }),
    {
        ReaderBuilder { chunk_size: size, ..self }
    }

    /// Controls whether the native reader retains its in-memory index after use.
    pub fn keep_index(self, keep_index: bool) -> (builder: ReaderBuilder)
        ensures
            builder@ == (ReaderSettings { keep_index: Some(keep_index), ..self@ }),
    {
        ReaderBuilder { keep_index: Some(keep_index), ..self }
    }

    /// Selects the native I/O path for the compressed input.
    ///
    /// `Sequential` is the most relevant mode for spinning disks or pipe-like
    /// sources because it favors linear reads and buffering over random access.
    pub fn io_read_mode(self, mode: IoReadMode) -> (builder: ReaderBuilder)
        ensures
            builder@ == (ReaderSettings { io_read_mode: mode, ..self@ }),
    {
        ReaderBuilder { io_read_mode: mode, ..self }
    }

    /// Encodes the settings for the native layer.
    pub fn to_ffi_config(&self) -> (config: rgz_config_t)
        ensures
            config == config_of(self@),
    {
        let mode: u32 = self.io_read_mode.to_ffi_flags();
        assert(mode <= 3 ==> mode & 0b11 == mode) by (bit_vector);
        rgz_config_t {
            struct_size: RGZ_CONFIG_SIZE,
            flags: mode & RGZ_IO_READ_MODE_MASK,
            parallelism: self.parallelism,
            reserved0: 0,
            chunk_size: self.chunk_size,
            reserved1: 0,
        }
    }

    /// Returns the index policy that was asked for, if one was.
    pub(crate) fn index_policy(&self) -> (keep_index: Option<bool>)
        ensures
            keep_index == self@.keep_index,
    {
        self.keep_index
    }
}

/// Law: the masked flags of a configuration are the flag of the chosen mode, and
/// the other flag bits are clear.
pub proof fn law_flags_hold_the_mode(settings: ReaderSettings)
    ensures
        config_of(settings).flags & RGZ_IO_READ_MODE_MASK == settings.io_read_mode.flag(),
        config_of(settings).flags & !RGZ_IO_READ_MODE_MASK == 0,
{
    let flags = config_of(settings).flags;
    assert(flags <= 3 ==> flags & 0b11 == flags && flags & !0b11u32 == 0) by (bit_vector);
}

/// Law: settings that differ in anything but the index policy are encoded
/// differently.
pub proof fn law_config_determines_settings(a: ReaderSettings, b: ReaderSettings)
    requires
        config_of(a) == config_of(b),
    ensures
        a == (ReaderSettings { keep_index: a.keep_index, ..b }),
{
}

/// Law: the index policy is no part of the native configuration.
pub proof fn law_config_ignores_index_policy(settings: ReaderSettings, keep_index: Option<bool>)
    ensures
        config_of(ReaderSettings { keep_index, ..settings }) == config_of(settings),
{
}

/// Whether a native configuration says what settings ask for: its size as the C
/// layout has it, the number of the I/O mode in the two lowest flag bits and nothing
/// in the others, the parallelism and the chunk size as they were set, and nothing in
/// the reserved fields.
pub open spec fn encodes(config: rgz_config_t, settings: ReaderSettings) -> bool {
    &&& config.struct_size == 4 * 4 + 2 * 8
    &&& settings.io_read_mode is Auto ==> config.flags == 0
    &&& settings.io_read_mode is Sequential ==> config.flags == 1
    &&& settings.io_read_mode is Pread ==> config.flags == 2
    &&& settings.io_read_mode is LockedReadAndSeek ==> config.flags == 3
    &&& config.parallelism == settings.parallelism
    &&& config.chunk_size == settings.chunk_size
    &&& config.reserved0 == 0
    &&& config.reserved1 == 0
}

/// Law: every setting reaches the native layer as it was set, whatever its value.
pub proof fn law_settings_are_encoded(settings: ReaderSettings)
    ensures
        encodes(config_of(settings), settings),
{
}

/// Law: a builder that nothing was asked of leaves everything to the native layer
/// but the chunk size, which is four mebibytes.
pub proof fn law_defaults_leave_the_native_policy()
    ensures
        default_settings().parallelism == 0,
        default_settings().chunk_size == 4 * 1024 * 1024,
        default_settings().keep_index is None,
        default_settings().io_read_mode is Auto,
        config_of(default_settings()).flags == 0,
{
}

} // verus!
