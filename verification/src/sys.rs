//! Vocabulary of the native decoder's C ABI: status codes, reader
//! configuration, callback tables and reader handles.
//!
//! Nothing here calls native code. The types say what crosses the boundary, as
//! plain values; the embedding program translates them to their C layout.

use vstd::prelude::*;

verus! {

/// Status code returned by the native `rapidgzip` C ABI.
#[derive(Debug, Copy, Clone, PartialEq, Eq, Structural)]
#[allow(non_camel_case_types)]
pub enum rgz_status_t {
    RGZ_STATUS_OK,
    RGZ_STATUS_EOF,
    RGZ_STATUS_INVALID_ARGUMENT,
    RGZ_STATUS_IO_ERROR,
    RGZ_STATUS_DATA_ERROR,
    RGZ_STATUS_UNSUPPORTED,
    RGZ_STATUS_OUT_OF_MEMORY,
    RGZ_STATUS_INTERNAL_ERROR,
    RGZ_STATUS_SEEK_ERROR,
    RGZ_STATUS_INDEX_ERROR,
    RGZ_STATUS_STATE_ERROR,
    RGZ_STATUS_NOT_IMPLEMENTED,
}

impl rgz_status_t {
    /// The number that stands for this status in the C ABI.
    pub open spec fn spec_code(self) -> i32 {
        match self {
            rgz_status_t::RGZ_STATUS_OK => 0,
            rgz_status_t::RGZ_STATUS_EOF => 1,
            rgz_status_t::RGZ_STATUS_INVALID_ARGUMENT => 10,
            rgz_status_t::RGZ_STATUS_IO_ERROR => 11,
            rgz_status_t::RGZ_STATUS_DATA_ERROR => 12,
            rgz_status_t::RGZ_STATUS_UNSUPPORTED => 13,
            rgz_status_t::RGZ_STATUS_OUT_OF_MEMORY => 14,
            rgz_status_t::RGZ_STATUS_INTERNAL_ERROR => 15,
            rgz_status_t::RGZ_STATUS_SEEK_ERROR => 16,
            rgz_status_t::RGZ_STATUS_INDEX_ERROR => 17,
            rgz_status_t::RGZ_STATUS_STATE_ERROR => 18,
            rgz_status_t::RGZ_STATUS_NOT_IMPLEMENTED => 19,
        }
    }

    /// Returns the number that stands for this status in the C ABI.
    pub fn code(self) -> (code: i32)
        ensures
            code == self.spec_code(),
    {
        match self {
            rgz_status_t::RGZ_STATUS_OK => 0,
            rgz_status_t::RGZ_STATUS_EOF => 1,
            rgz_status_t::RGZ_STATUS_INVALID_ARGUMENT => 10,
            rgz_status_t::RGZ_STATUS_IO_ERROR => 11,
            rgz_status_t::RGZ_STATUS_DATA_ERROR => 12,
            rgz_status_t::RGZ_STATUS_UNSUPPORTED => 13,
            rgz_status_t::RGZ_STATUS_OUT_OF_MEMORY => 14,
            rgz_status_t::RGZ_STATUS_INTERNAL_ERROR => 15,
            rgz_status_t::RGZ_STATUS_SEEK_ERROR => 16,
            rgz_status_t::RGZ_STATUS_INDEX_ERROR => 17,
            rgz_status_t::RGZ_STATUS_STATE_ERROR => 18,
            rgz_status_t::RGZ_STATUS_NOT_IMPLEMENTED => 19,
        }
    }
}

/// Law: no two statuses share a number in the C ABI.
pub proof fn law_status_codes_are_distinct(a: rgz_status_t, b: rgz_status_t)
    ensures
        a.spec_code() == b.spec_code() ==> a == b,
{
}

/// The bits of `rgz_config_t.flags` that hold the I/O mode.
pub const RGZ_IO_READ_MODE_MASK: u32 = 0b11;

/// I/O mode flag: keep the native default behavior.
pub const RGZ_IO_READ_MODE_AUTO: u32 = 0;

/// I/O mode flag: sequential buffered reads.
pub const RGZ_IO_READ_MODE_SEQUENTIAL: u32 = 1;

/// I/O mode flag: positioned reads.
pub const RGZ_IO_READ_MODE_PREAD: u32 = 2;

/// I/O mode flag: one shared reader that serializes reads and seeks.
pub const RGZ_IO_READ_MODE_LOCKED_READ_AND_SEEK: u32 = 3;

/// Size in bytes of the C layout of `rgz_config_t`: four 4-byte fields, then two
/// 8-byte fields at offsets 16 and 24, without padding.
pub const RGZ_CONFIG_SIZE: u32 = 32;

/// Reader configuration passed across the FFI boundary.
#[derive(Debug, Copy, Clone, PartialEq, Eq, Structural)]
#[allow(non_camel_case_types)]
pub struct rgz_config_t {
    pub struct_size: u32,
    pub flags: u32,
    pub parallelism: u32,
    pub reserved0: u32,
    pub chunk_size: u64,
    pub reserved1: u64,
}

/// The kinds of source that a callback table can serve.
#[derive(Debug, Copy, Clone, PartialEq, Eq, Structural)]
pub enum SourceKind {
    /// A source that cannot be cloned.
    Plain,
    /// A source that can be cloned into independent ones.
    Cloneable,
}

/// The entry points that a callback table can name.
#[derive(Debug, Copy, Clone, PartialEq, Eq, Structural)]
pub enum CallbackEntry {
    Read,
    Seek,
    GetSize,
    FreeUserData,
    ReadCloneable,
    SeekCloneable,
    GetSizeCloneable,
    CloneCloneable,
    FreeUserDataCloneable,
}

/// Callback table used for custom callback-backed inputs: for each slot, the
/// entry point that fills it, if any.
#[derive(Debug, Copy, Clone, PartialEq, Eq, Structural)]
#[allow(non_camel_case_types)]
pub struct rgz_callbacks_t {
    pub read: Option<CallbackEntry>,
    pub seek: Option<CallbackEntry>,
    pub get_size: Option<CallbackEntry>,
    pub clone: Option<CallbackEntry>,
    pub free_user_data: Option<CallbackEntry>,
}

/// Opaque native reader handle: the address that the native layer gave out,
/// which is never null.
#[derive(Debug, Copy, Clone, PartialEq, Eq, Structural)]
#[allow(non_camel_case_types)]
pub struct rgz_reader_t {
    address: usize,
}

impl rgz_reader_t {
    #[verifier::type_invariant]
    spec fn non_null(self) -> bool {
        self.address != 0
    }

    /// The address of the handle.
    pub closed spec fn spec_address(self) -> usize {
        self.address
    }

    /// The handle at an address.
    pub closed spec fn at(address: usize) -> rgz_reader_t {
        rgz_reader_t { address }
    }

    /// Law: a handle and its address determine each other.
    pub proof fn law_at_address(address: usize)
        ensures
            rgz_reader_t::at(address).spec_address() == address,
    {
    }

    /// Law: the handle at a handle's own address is that handle.
    pub proof fn law_address_at(self)
        ensures
            rgz_reader_t::at(self.spec_address()) == self,
    {
    }

    /// Takes the address that a native open call returned; the null address is
    /// no handle.
    pub fn from_address(address: usize) -> (handle: Option<rgz_reader_t>)
        ensures
            handle == (if address == 0 {
                None
            } else {
                Some(rgz_reader_t::at(address))
            }),
    {
        if address == 0 {
            None
        } else {
            Some(rgz_reader_t { address })
        }
    }

    /// Returns the address to hand to native calls.
    pub fn address(&self) -> (address: usize)
        ensures
            address == self.spec_address(),
            address != 0,
    {
        proof {
            use_type_invariant(self);
        }
        self.address
    }
}

/// Law: the numbers of the C ABI: success is zero, the end of the stream is one, and
/// every failure has a number of its own from ten to nineteen.
pub proof fn law_status_code_ranges(status: rgz_status_t)
    ensures
        status.spec_code() == 0 <==> status == rgz_status_t::RGZ_STATUS_OK,
        status.spec_code() == 1 <==> status == rgz_status_t::RGZ_STATUS_EOF,
        status.spec_code() == 10 <==> status == rgz_status_t::RGZ_STATUS_INVALID_ARGUMENT,
        status.spec_code() == 11 <==> status == rgz_status_t::RGZ_STATUS_IO_ERROR,
        status.spec_code() == 12 <==> status == rgz_status_t::RGZ_STATUS_DATA_ERROR,
        status.spec_code() == 13 <==> status == rgz_status_t::RGZ_STATUS_UNSUPPORTED,
        status.spec_code() == 14 <==> status == rgz_status_t::RGZ_STATUS_OUT_OF_MEMORY,
        status.spec_code() == 15 <==> status == rgz_status_t::RGZ_STATUS_INTERNAL_ERROR,
        status.spec_code() == 16 <==> status == rgz_status_t::RGZ_STATUS_SEEK_ERROR,
        status.spec_code() == 17 <==> status == rgz_status_t::RGZ_STATUS_INDEX_ERROR,
        status.spec_code() == 18 <==> status == rgz_status_t::RGZ_STATUS_STATE_ERROR,
        status.spec_code() == 19 <==> status == rgz_status_t::RGZ_STATUS_NOT_IMPLEMENTED,
{
}

} // verus!
