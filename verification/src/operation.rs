//! What the kernel asks for: a request, with its operation decoded into plain values.
use vstd::prelude::*;

use crate::errno::Errno;

verus! {

/// A version of the FUSE protocol.
#[derive(Clone, Copy, Debug, PartialEq, Eq, Structural)]
pub struct Version {
    pub major: u32,
    pub minor: u32,
}

/// A point in time, relative to the Unix epoch.
#[derive(Clone, Copy, Debug, PartialEq, Eq, Structural)]
pub struct Timestamp {
    pub secs: i64,
    pub nanos: u32,
}

/// The time that an attribute change asks for.
#[derive(Clone, Copy, Debug, PartialEq, Eq, Structural)]
pub enum TimeOrNow {
    SpecificTime(Timestamp),
    Now,
}

/// The attributes that a change sets; those that it leaves alone are `None`.
#[derive(Clone, Copy, Debug, PartialEq, Eq)]
pub struct AttrChange {
    pub mode: Option<u32>,
    pub uid: Option<u32>,
    pub gid: Option<u32>,
    pub size: Option<u64>,
    pub atime: Option<TimeOrNow>,
    pub mtime: Option<TimeOrNow>,
    pub ctime: Option<Timestamp>,
    pub file_handle: Option<u64>,
    pub crtime: Option<Timestamp>,
    pub chgtime: Option<Timestamp>,
    pub bkuptime: Option<Timestamp>,
    pub flags: Option<u32>,
}

/// A byte-range lock.
#[derive(Clone, Copy, Debug, PartialEq, Eq, Structural)]
pub struct Lock {
    pub start: u64,
    pub end: u64,
    pub typ: i32,
    pub pid: u32,
}

/// How many lookups of one inode the kernel gives up.
#[derive(Clone, Copy, Debug, PartialEq, Eq, Structural)]
pub struct ForgetOne {
    pub nodeid: u64,
    pub nlookup: u64,
}

/// One end of a copy between files.
#[derive(Clone, Copy, Debug, PartialEq, Eq, Structural)]
pub struct CopyEnd {
    pub inode: u64,
    pub file_handle: u64,
    pub offset: u64,
}

/// An operation of the FUSE protocol. File names are byte strings. A field that the protocol can
/// carry in a form that decodes to no offset or length holds the error that it decodes to.
#[allow(inconsistent_fields)]
#[derive(Debug)]
pub enum Operation {
    Lookup { name: Vec<u8> },
    Forget { nlookup: u64 },
    GetAttr { file_handle: Option<u64> },
    SetAttr { change: AttrChange },
    ReadLink,
    SymLink { link_name: Vec<u8>, target: Vec<u8> },
    MkNod { name: Vec<u8>, mode: u32, umask: u32, rdev: u32 },
    MkDir { name: Vec<u8>, mode: u32, umask: u32 },
    Unlink { name: Vec<u8> },
    RmDir { name: Vec<u8> },
    Rename { src_name: Vec<u8>, dest_dir: u64, dest_name: Vec<u8> },
    Link { inode_no: u64, dest_name: Vec<u8> },
    Open { flags: i32 },
    Read {
        file_handle: u64,
        offset: Result<u64, Errno>,
        size: u32,
        flags: i32,
        lock_owner: Option<u64>,
    },
    Write {
        file_handle: u64,
        offset: Result<u64, Errno>,
        data: Vec<u8>,
        write_flags: u32,
        flags: i32,
        lock_owner: Option<u64>,
    },
    StatFs,
    Release { file_handle: u64, flags: i32, lock_owner: Option<u64>, flush: bool },
    FSync { file_handle: u64, datasync: bool },
    SetXAttr { name: Vec<u8>, value: Vec<u8>, flags: i32, position: u32 },
    GetXAttr { name: Vec<u8>, size: u32 },
    ListXAttr { size: u32 },
    RemoveXAttr { name: Vec<u8> },
    Flush { file_handle: u64, lock_owner: u64 },
    Init { version: Version, capabilities: u64, max_readahead: u32 },
    OpenDir { flags: i32 },
    ReadDir { file_handle: u64, offset: u64, size: u32 },
    ReleaseDir { file_handle: u64, flags: i32 },
    FSyncDir { file_handle: u64, datasync: bool },
    GetLk { file_handle: u64, lock_owner: u64, lock: Lock },
    SetLk { file_handle: u64, lock_owner: u64, lock: Lock, sleep: bool },
    Access { mask: i32 },
    Create { name: Vec<u8>, mode: u32, umask: u32, flags: i32 },
    Interrupt { unique: u64 },
    BMap { block_size: u32, block: u64 },
    Destroy,
    IoCtl {
        unrestricted: bool,
        file_handle: u64,
        flags: u32,
        command: u32,
        in_data: Vec<u8>,
        out_size: u32,
    },
    Poll { file_handle: u64, kernel_handle: u64, events: u32, flags: u32 },
    NotifyReply,
    BatchForget { nodes: Vec<ForgetOne> },
    FAllocate {
        file_handle: u64,
        offset: Result<u64, Errno>,
        len: Result<u64, Errno>,
        mode: i32,
    },
    ReadDirPlus { file_handle: u64, offset: u64, size: u32 },
    Rename2 { from_dir: u64, from_name: Vec<u8>, to_dir: u64, to_name: Vec<u8>, flags: u32 },
    Lseek { file_handle: u64, offset: i64, whence: i32 },
    CopyFileRange {
        src: Result<CopyEnd, Errno>,
        dest: Result<CopyEnd, Errno>,
        len: u64,
        flags: u64,
    },
    /// Sent by macFUSE only.
    SetVolName { name: Vec<u8> },
    /// Sent by macFUSE only.
    GetXTimes,
    /// Sent by macFUSE only.
    Exchange { from_dir: u64, from_name: Vec<u8>, to_dir: u64, to_name: Vec<u8>, options: u64 },
    CuseInit,
}

/// What every request says of itself, whatever it asks for.
#[derive(Clone, Copy, Debug, PartialEq, Eq, Structural)]
pub struct RequestHeader {
    /// Identifies the request; its reply carries the same number.
    pub unique: u64,
    /// The inode that the request is about.
    pub nodeid: u64,
    /// The user who caused the request.
    pub uid: u32,
    /// The group of that user.
    pub gid: u32,
    /// The process that caused the request.
    pub pid: u32,
}

/// A request of the kernel. `operation` is `None` where the header is sound and the body names no
/// operation that can be decoded.
#[derive(Debug)]
pub struct AnyRequest {
    pub header: RequestHeader,
    pub operation: Option<Operation>,
}

} // verus!
