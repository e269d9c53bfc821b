//! The flags with which files are opened.
use vstd::prelude::*;

verus! {

/// How the file should be opened: read-only, write-only, or read-write.
#[allow(non_camel_case_types)]
#[derive(Clone, Copy, Debug, PartialEq, Eq, Hash, Structural)]
pub enum OpenAccMode {
    /// Open file for reading only.
    O_RDONLY,
    /// Open file for writing only.
    O_WRONLY,
    /// Open file for reading and writing.
    O_RDWR,
}

/// Flags used when opening files, as passed into the open operation. Bits without a name are kept.
#[derive(Clone, Copy, Debug, PartialEq, Eq, Hash, Structural)]
pub struct OpenFlags {
    /// The flags.
    pub bits: i32,
}

/// The flags that have a name, with the bits that a system has for them. Systems have different
/// ones, so whoever calls the library says what they are where it runs.
#[derive(Clone, Copy, Debug, PartialEq, Eq, Structural)]
pub struct OpenFlagTable {
    /// The bits that hold the access mode (`O_ACCMODE`).
    pub access_mode: OpenFlags,
    /// Open for reading only.
    pub read_only: OpenFlags,
    /// Open for writing only.
    pub write_only: OpenFlags,
    /// Open for reading and writing.
    pub read_write: OpenFlags,
    /// Create file if it doesn't exist.
    pub create: OpenFlags,
    /// Fail if file already exists.
    pub create_exclusive: OpenFlags,
    /// Don't assign controlling terminal.
    pub no_terminal_control: OpenFlags,
    /// Truncate file to zero length.
    pub truncate: OpenFlags,
    /// Set append mode.
    pub append_mode: OpenFlags,
    /// Use non-blocking mode.
    pub non_blocking_mode: OpenFlags,
    /// Synchronize data writes.
    pub sync_data_only: OpenFlags,
    /// Synchronize both data and metadata writes.
    pub sync_data_and_metadata: OpenFlags,
    /// Synchronize read operations (Linux only).
    pub sync_reads_and_writes: Option<OpenFlags>,
    /// Fail if not a directory.
    pub must_be_directory: OpenFlags,
    /// Do not follow symlinks.
    pub do_not_follow_symlinks: OpenFlags,
    /// Set close-on-exec flag.
    pub close_on_exec: OpenFlags,
    /// Create an unnamed temporary file (Linux only).
    pub temporary_file: Option<OpenFlags>,
}

impl OpenAccMode {
    /// The access mode as flags.
    pub open spec fn flags(self, table: OpenFlagTable) -> OpenFlags {
        match self {
            OpenAccMode::O_RDONLY => table.read_only,
            OpenAccMode::O_WRONLY => table.write_only,
            OpenAccMode::O_RDWR => table.read_write,
        }
    }

    /// The access mode as flags.
    pub fn to_flags(self, table: OpenFlagTable) -> (flags: OpenFlags)
        ensures
            flags == self.flags(table),
    {
        match self {
            OpenAccMode::O_RDONLY => table.read_only,
            OpenAccMode::O_WRONLY => table.write_only,
            OpenAccMode::O_RDWR => table.read_write,
        }
    }
}

impl OpenFlags {
    /// Whether all of `other` is set.
    pub open spec fn has(self, other: OpenFlags) -> bool {
        self.bits & other.bits == other.bits
    }

    /// The access mode, where the system has these bits for it. A combination of bits that is none
    /// of the three counts as read-only.
    pub open spec fn access_mode(self, table: OpenFlagTable) -> OpenAccMode {
        let mode = self.bits & table.access_mode.bits;
        if mode == table.read_only.bits {
            OpenAccMode::O_RDONLY
        } else if mode == table.write_only.bits {
            OpenAccMode::O_WRONLY
        } else if mode == table.read_write.bits {
            OpenAccMode::O_RDWR
        } else {
            OpenAccMode::O_RDONLY
        }
    }

    /// Flags with the given bits.
    pub fn from_bits_retain(bits: i32) -> (flags: OpenFlags)
        ensures
            flags.bits == bits,
    {
        OpenFlags { bits }
    }

    /// The bits of the flags.
    pub fn bits(self) -> (bits: i32)
        ensures
            bits == self.bits,
    {
        self.bits
    }

    /// The flags that are set here or in `other`.
    pub fn union(self, other: OpenFlags) -> (both: OpenFlags)
        ensures
            both.bits == self.bits | other.bits,
            both.has(self),
            both.has(other),
    {
        let (a, b): (i32, i32) = (self.bits, other.bits);
        assert((a | b) & a == a && (a | b) & b == b) by (bit_vector);
        OpenFlags { bits: a | b }
    }

    /// Whether all of `other` is set.
    pub fn contains(self, other: OpenFlags) -> (contained: bool)
        ensures
            contained == self.has(other),
    {
        self.bits & other.bits == other.bits
    }

    /// File access mode.
    pub fn acc_mode(self, table: OpenFlagTable) -> (mode: OpenAccMode)
        ensures
            mode == self.access_mode(table),
    {
        let mode: i32 = self.bits & table.access_mode.bits;
        if mode == table.read_only.bits {
            OpenAccMode::O_RDONLY
        } else if mode == table.write_only.bits {
            OpenAccMode::O_WRONLY
        } else if mode == table.read_write.bits {
            OpenAccMode::O_RDWR
        } else {
            // Impossible combination of flags.
            OpenAccMode::O_RDONLY
        }
    }
}

/// No flag beside the bits that hold the access mode has a say in it.
pub proof fn lemma_access_mode_ignores_other_flags(
    table: OpenFlagTable,
    flags: OpenFlags,
    others: OpenFlags,
)
    requires
        others.bits & table.access_mode.bits == 0,
    ensures
        (OpenFlags { bits: flags.bits | others.bits }).access_mode(table) == flags.access_mode(
            table,
        ),
{
    let (a, b, m) = (flags.bits, others.bits, table.access_mode.bits);
    assert(b & m == 0 ==> (a | b) & m == a & m) by (bit_vector);
}

/// Flags that are put together contain every flag that one of them contains.
pub proof fn lemma_union_contains_what_its_parts_do(a: OpenFlags, b: OpenFlags, flag: OpenFlags)
    requires
        a.has(flag) || b.has(flag),
    ensures
        (OpenFlags { bits: a.bits | b.bits }).has(flag),
{
    let (x, y, f) = (a.bits, b.bits, flag.bits);
    assert(x & f == f || y & f == f ==> (x | y) & f == f) by (bit_vector);
}

/// On a system whose three access modes are bits of the mode that differ, flags that are made of an
/// access mode and of flags outside those bits have that access mode; and flags with any other
/// combination of those bits count as read-only.
pub proof fn lemma_access_mode_is_read_back(
    table: OpenFlagTable,
    mode: OpenAccMode,
    others: OpenFlags,
)
    requires
        table.access_mode.has(table.read_only),
        table.access_mode.has(table.write_only),
        table.access_mode.has(table.read_write),
        table.read_only.bits != table.write_only.bits,
        table.read_only.bits != table.read_write.bits,
        table.write_only.bits != table.read_write.bits,
    ensures
        others.bits & table.access_mode.bits == 0 ==> (OpenFlags {
            bits: mode.flags(table).bits | others.bits,
        }).access_mode(table) == mode,
        others.access_mode(table) == OpenAccMode::O_WRONLY <==> others.bits & table.access_mode.bits
            == table.write_only.bits,
        others.access_mode(table) == OpenAccMode::O_RDWR <==> others.bits & table.access_mode.bits
            == table.read_write.bits,
{
    let (a, b, m) = (mode.flags(table).bits, others.bits, table.access_mode.bits);
    assert(m & a == a && b & m == 0 ==> (a | b) & m == a) by (bit_vector);
}

/// Flags contain a single flag exactly if they have its bit, and several together exactly if they
/// contain each of them; no flags at all are contained in any.
pub proof fn lemma_flags_contain_bit_by_bit(
    flags: OpenFlags,
    bit: u32,
    one: OpenFlags,
    another: OpenFlags,
)
    requires
        bit < 32,
    ensures
        flags.has(OpenFlags { bits: 1i32 << bit }) <==> (flags.bits >> bit) & 1 == 1,
        flags.has(OpenFlags { bits: one.bits | another.bits }) <==> flags.has(one) && flags.has(
            another,
        ),
        flags.has(OpenFlags { bits: 0 }),
{
    let (bits, x, y) = (flags.bits, one.bits, another.bits);
    assert(bits & (1i32 << bit) == 1i32 << bit <==> (bits >> bit) & 1 == 1) by (bit_vector)
        requires
            bit < 32,
    ;
    assert(bits & (x | y) == x | y <==> bits & x == x && bits & y == y) by (bit_vector);
    assert(bits & 0 == 0) by (bit_vector);
}

} // verus!
