//! Where a request goes: to the filesystem, as one call with its arguments, or back to the kernel
//! with an error.
use vstd::prelude::*;

use crate::acl::SessionACL;
use crate::errno::{Errno, Errnos};
use crate::operation::{
    AnyRequest, AttrChange, CopyEnd, ForgetOne, Lock, Operation, RequestHeader,
};

verus! {

/// One call into the filesystem, with its arguments.
#[allow(inconsistent_fields)]
#[derive(Debug)]
pub enum FilesystemCall {
    Lookup { parent: u64, name: Vec<u8> },
    Forget { ino: u64, nlookup: u64 },
    GetAttr { ino: u64, file_handle: Option<u64> },
    SetAttr { ino: u64, change: AttrChange },
    ReadLink { ino: u64 },
    MkNod { parent: u64, name: Vec<u8>, mode: u32, umask: u32, rdev: u32 },
    MkDir { parent: u64, name: Vec<u8>, mode: u32, umask: u32 },
    Unlink { parent: u64, name: Vec<u8> },
    RmDir { parent: u64, name: Vec<u8> },
    SymLink { parent: u64, link_name: Vec<u8>, target: Vec<u8> },
    Rename { parent: u64, name: Vec<u8>, newparent: u64, newname: Vec<u8>, flags: u32 },
    Link { ino: u64, newparent: u64, newname: Vec<u8> },
    Open { ino: u64, flags: i32 },
    Read {
        ino: u64,
        file_handle: u64,
        offset: u64,
        size: u32,
        flags: i32,
        lock_owner: Option<u64>,
    },
    Write {
        ino: u64,
        file_handle: u64,
        offset: u64,
        data: Vec<u8>,
        write_flags: u32,
        flags: i32,
        lock_owner: Option<u64>,
    },
    Flush { ino: u64, file_handle: u64, lock_owner: u64 },
    Release { ino: u64, file_handle: u64, flags: i32, lock_owner: Option<u64>, flush: bool },
    FSync { ino: u64, file_handle: u64, datasync: bool },
    OpenDir { ino: u64, flags: i32 },
    ReadDir { ino: u64, file_handle: u64, offset: u64, size: u32 },
    ReleaseDir { ino: u64, file_handle: u64, flags: i32 },
    FSyncDir { ino: u64, file_handle: u64, datasync: bool },
    StatFs { ino: u64 },
    SetXAttr { ino: u64, name: Vec<u8>, value: Vec<u8>, flags: i32, position: u32 },
    GetXAttr { ino: u64, name: Vec<u8>, size: u32 },
    ListXAttr { ino: u64, size: u32 },
    RemoveXAttr { ino: u64, name: Vec<u8> },
    Access { ino: u64, mask: i32 },
    Create { parent: u64, name: Vec<u8>, mode: u32, umask: u32, flags: i32 },
    GetLk { ino: u64, file_handle: u64, lock_owner: u64, lock: Lock },
    SetLk { ino: u64, file_handle: u64, lock_owner: u64, lock: Lock, sleep: bool },
    BMap { ino: u64, block_size: u32, block: u64 },
    IoCtl {
        ino: u64,
        file_handle: u64,
        flags: u32,
        command: u32,
        in_data: Vec<u8>,
        out_size: u32,
    },
    Poll { ino: u64, file_handle: u64, kernel_handle: u64, events: u32, flags: u32 },
    BatchForget { nodes: Vec<ForgetOne> },
    FAllocate { ino: u64, file_handle: u64, offset: u64, len: u64, mode: i32 },
    ReadDirPlus { ino: u64, file_handle: u64, offset: u64, size: u32 },
    Lseek { ino: u64, file_handle: u64, offset: i64, whence: i32 },
    CopyFileRange { src: CopyEnd, dest: CopyEnd, len: u64, flags: u64 },
    SetVolName { name: Vec<u8> },
    GetXTimes { ino: u64 },
    Exchange { parent: u64, name: Vec<u8>, newparent: u64, newname: Vec<u8>, options: u64 },
}

/// What the event loop does with a request.
#[derive(Debug)]
pub enum DispatchAction {
    /// Spawn a task that makes the call; the filesystem answers the request.
    Handle { header: RequestHeader, call: FilesystemCall },
    /// Answer the request with an error; the filesystem does not see it.
    ReplyErrno { unique: u64, errno: Errno },
}

/// The operations that the kernel may issue without a user behind them. They are served whoever
/// the request names as its user.
pub open spec fn is_exempt(op: Operation) -> bool {
    ||| op is Init
    ||| op is Destroy
    ||| op is Read
    ||| op is ReadDir
    ||| op is ReadDirPlus
    ||| op is BatchForget
    ||| op is Forget
    ||| op is Write
    ||| op is FSync
    ||| op is FSyncDir
    ||| op is Release
    ||| op is ReleaseDir
}

/// The error that a field decodes to, if it does not decode.
pub open spec fn field_error<T>(field: Result<T, Errno>) -> Option<Errno> {
    match field {
        Ok(_) => None,
        Err(errno) => Some(errno),
    }
}

/// Why an operation is not served, whoever asks: a handshake message after the handshake and a
/// shutdown are input/output errors here, what the library does not implement is answered so, and
/// a field that does not decode gives its error (the first one, where there are two).
pub open spec fn refusal(errnos: Errnos, op: Operation) -> Option<Errno> {
    match op {
        Operation::Init { .. } | Operation::Destroy => Some(Errno { raw: errnos.eio }),
        Operation::Interrupt { .. } | Operation::NotifyReply | Operation::CuseInit => Some(
            Errno { raw: errnos.enosys },
        ),
        Operation::IoCtl { unrestricted, .. } => if unrestricted {
            Some(Errno { raw: errnos.enosys })
        } else {
            None
        },
        Operation::Read { offset, .. } => field_error(offset),
        Operation::Write { offset, .. } => field_error(offset),
        Operation::FAllocate { offset, len, .. } => if offset is Err {
            field_error(offset)
        } else {
            field_error(len)
        },
        Operation::CopyFileRange { src, dest, .. } => if src is Err {
            field_error(src)
        } else {
            field_error(dest)
        },
        _ => None,
    }
}

/// The call that an operation on inode `nodeid` asks for, where it is served. Arguments go
/// through unchanged; `nodeid` is the file, or the directory that a name is looked up in. A
/// rename of the older form is one without flags.
pub open spec fn wanted_call(nodeid: u64, op: Operation) -> FilesystemCall {
    match op {
        Operation::Lookup { name } => FilesystemCall::Lookup { parent: nodeid, name },
        Operation::Forget { nlookup } => FilesystemCall::Forget { ino: nodeid, nlookup },
        Operation::GetAttr { file_handle } => FilesystemCall::GetAttr {
            ino: nodeid,
            file_handle,
        },
        Operation::SetAttr { change } => FilesystemCall::SetAttr { ino: nodeid, change },
        Operation::ReadLink => FilesystemCall::ReadLink { ino: nodeid },
        Operation::MkNod { name, mode, umask, rdev } => FilesystemCall::MkNod {
            parent: nodeid,
            name,
            mode,
            umask,
            rdev,
        },
        Operation::MkDir { name, mode, umask } => FilesystemCall::MkDir {
            parent: nodeid,
            name,
            mode,
            umask,
        },
        Operation::Unlink { name } => FilesystemCall::Unlink { parent: nodeid, name },
        Operation::RmDir { name } => FilesystemCall::RmDir { parent: nodeid, name },
        Operation::SymLink { link_name, target } => FilesystemCall::SymLink {
            parent: nodeid,
            link_name,
            target,
        },
        Operation::Rename { src_name, dest_dir, dest_name } => FilesystemCall::Rename {
            parent: nodeid,
            name: src_name,
            newparent: dest_dir,
            newname: dest_name,
            flags: 0,
        },
        Operation::Link { inode_no, dest_name } => FilesystemCall::Link {
            ino: inode_no,
            newparent: nodeid,
            newname: dest_name,
        },
        Operation::Open { flags } => FilesystemCall::Open { ino: nodeid, flags },
        Operation::Read { file_handle, offset, size, flags, lock_owner } => FilesystemCall::Read {
            ino: nodeid,
            file_handle,
            offset: offset->Ok_0,
            size,
            flags,
            lock_owner,
        },
        Operation::Write { file_handle, offset, data, write_flags, flags, lock_owner } => {
            FilesystemCall::Write {
                ino: nodeid,
                file_handle,
                offset: offset->Ok_0,
                data,
                write_flags,
                flags,
                lock_owner,
            }
        },
        Operation::Flush { file_handle, lock_owner } => FilesystemCall::Flush {
            ino: nodeid,
            file_handle,
            lock_owner,
        },
        Operation::Release { file_handle, flags, lock_owner, flush } => FilesystemCall::Release {
            ino: nodeid,
            file_handle,
            flags,
            lock_owner,
            flush,
        },
        Operation::FSync { file_handle, datasync } => FilesystemCall::FSync {
            ino: nodeid,
            file_handle,
            datasync,
        },
        Operation::OpenDir { flags } => FilesystemCall::OpenDir { ino: nodeid, flags },
        Operation::ReadDir { file_handle, offset, size } => FilesystemCall::ReadDir {
            ino: nodeid,
            file_handle,
            offset,
            size,
        },
        Operation::ReleaseDir { file_handle, flags } => FilesystemCall::ReleaseDir {
            ino: nodeid,
            file_handle,
            flags,
        },
        Operation::FSyncDir { file_handle, datasync } => FilesystemCall::FSyncDir {
            ino: nodeid,
            file_handle,
            datasync,
        },
        Operation::StatFs => FilesystemCall::StatFs { ino: nodeid },
        Operation::SetXAttr { name, value, flags, position } => FilesystemCall::SetXAttr {
            ino: nodeid,
            name,
            value,
            flags,
            position,
        },
        Operation::GetXAttr { name, size } => FilesystemCall::GetXAttr {
            ino: nodeid,
            name,
            size,
        },
        Operation::ListXAttr { size } => FilesystemCall::ListXAttr { ino: nodeid, size },
        Operation::RemoveXAttr { name } => FilesystemCall::RemoveXAttr { ino: nodeid, name },
        Operation::Access { mask } => FilesystemCall::Access { ino: nodeid, mask },
        Operation::Create { name, mode, umask, flags } => FilesystemCall::Create {
            parent: nodeid,
            name,
            mode,
            umask,
            flags,
        },
        Operation::GetLk { file_handle, lock_owner, lock } => FilesystemCall::GetLk {
            ino: nodeid,
            file_handle,
            lock_owner,
            lock,
        },
        Operation::SetLk { file_handle, lock_owner, lock, sleep } => FilesystemCall::SetLk {
            ino: nodeid,
            file_handle,
            lock_owner,
            lock,
            sleep,
        },
        Operation::BMap { block_size, block } => FilesystemCall::BMap {
            ino: nodeid,
            block_size,
            block,
        },
        Operation::IoCtl { file_handle, flags, command, in_data, out_size, .. } => {
            FilesystemCall::IoCtl {
                ino: nodeid,
                file_handle,
                flags,
                command,
                in_data,
                out_size,
            }
        },
        Operation::Poll { file_handle, kernel_handle, events, flags } => FilesystemCall::Poll {
            ino: nodeid,
            file_handle,
            kernel_handle,
            events,
            flags,
        },
        Operation::BatchForget { nodes } => FilesystemCall::BatchForget { nodes },
        Operation::FAllocate { file_handle, offset, len, mode } => FilesystemCall::FAllocate {
            ino: nodeid,
            file_handle,
            offset: offset->Ok_0,
            len: len->Ok_0,
            mode,
        },
        Operation::ReadDirPlus { file_handle, offset, size } => FilesystemCall::ReadDirPlus {
            ino: nodeid,
            file_handle,
            offset,
            size,
        },
        Operation::Rename2 { from_dir, from_name, to_dir, to_name, flags } => {
            FilesystemCall::Rename {
                parent: from_dir,
                name: from_name,
                newparent: to_dir,
                newname: to_name,
                flags,
            }
        },
        Operation::Lseek { file_handle, offset, whence } => FilesystemCall::Lseek {
            ino: nodeid,
            file_handle,
            offset,
            whence,
        },
        Operation::CopyFileRange { src, dest, len, flags } => FilesystemCall::CopyFileRange {
            src: src->Ok_0,
            dest: dest->Ok_0,
            len,
            flags,
        },
        Operation::SetVolName { name } => FilesystemCall::SetVolName { name },
        Operation::GetXTimes => FilesystemCall::GetXTimes { ino: nodeid },
        Operation::Exchange { from_dir, from_name, to_dir, to_name, options } => {
            FilesystemCall::Exchange {
                parent: from_dir,
                name: from_name,
                newparent: to_dir,
                newname: to_name,
                options,
            }
        },
        _ => arbitrary(),
    }
}

/// What an operation on inode `nodeid` comes to, once access is granted.
pub open spec fn requested_call(errnos: Errnos, nodeid: u64, op: Operation) -> Result<
    FilesystemCall,
    Errno,
> {
    match refusal(errnos, op) {
        Some(errno) => Err(errno),
        None => Ok(wanted_call(nodeid, op)),
    }
}

/// The outcome of a request on a filesystem that `owner` mounted under the rule `acl`.
pub open spec fn dispatch_outcome(
    errnos: Errnos,
    acl: SessionACL,
    owner: u32,
    request: AnyRequest,
) -> Result<FilesystemCall, Errno> {
    match request.operation {
        None => Err(Errno { raw: errnos.enosys }),
        Some(op) => if acl.admits(request.header.uid, owner) || is_exempt(op) {
            requested_call(errnos, request.header.nodeid, op)
        } else {
            Err(Errno { raw: errnos.eacces })
        },
    }
}

/// What is done with a request on a filesystem that `owner` mounted under the rule `acl`.
pub open spec fn dispatch_action(
    errnos: Errnos,
    acl: SessionACL,
    owner: u32,
    request: AnyRequest,
) -> DispatchAction {
    match dispatch_outcome(errnos, acl, owner, request) {
        Ok(call) => DispatchAction::Handle { header: request.header, call },
        Err(errno) => DispatchAction::ReplyErrno { unique: request.header.unique, errno },
    }
}

/// Whether the kernel may issue an operation without a user behind it.
pub fn exempt_from_access_check(op: &Operation) -> (exempt: bool)
    ensures
        exempt == is_exempt(*op),
{
    match op {
        Operation::Init { .. }
        | Operation::Destroy
        | Operation::Read { .. }
        | Operation::ReadDir { .. }
        | Operation::BatchForget { .. }
        | Operation::Forget { .. }
        | Operation::Write { .. }
        | Operation::FSync { .. }
        | Operation::FSyncDir { .. }
        | Operation::Release { .. }
        | Operation::ReleaseDir { .. } => true,
        Operation::ReadDirPlus { .. } => true,
        _ => false,
    }
}

/// The filesystem call that an operation on inode `nodeid` asks for.
fn call_for(errnos: Errnos, nodeid: u64, op: Operation) -> (call: Result<FilesystemCall, Errno>)
    ensures
        call == requested_call(errnos, nodeid, op),
{
    match op {
        // The handshake is over, and a shutdown ends the event loop before it comes here.
        Operation::Init { .. } | Operation::Destroy => Err(Errno { raw: errnos.eio }),
        Operation::Interrupt { .. } | Operation::NotifyReply | Operation::CuseInit => Err(
            Errno { raw: errnos.enosys },
        ),
        Operation::Lookup { name } => Ok(FilesystemCall::Lookup { parent: nodeid, name }),
        Operation::Forget { nlookup } => Ok(FilesystemCall::Forget { ino: nodeid, nlookup }),
        Operation::GetAttr { file_handle } => Ok(
            FilesystemCall::GetAttr { ino: nodeid, file_handle },
        ),
        Operation::SetAttr { change } => Ok(FilesystemCall::SetAttr { ino: nodeid, change }),
        Operation::ReadLink => Ok(FilesystemCall::ReadLink { ino: nodeid }),
        Operation::MkNod { name, mode, umask, rdev } => Ok(
            FilesystemCall::MkNod { parent: nodeid, name, mode, umask, rdev },
        ),
        Operation::MkDir { name, mode, umask } => Ok(
            FilesystemCall::MkDir { parent: nodeid, name, mode, umask },
        ),
        Operation::Unlink { name } => Ok(FilesystemCall::Unlink { parent: nodeid, name }),
        Operation::RmDir { name } => Ok(FilesystemCall::RmDir { parent: nodeid, name }),
        Operation::SymLink { link_name, target } => Ok(
            FilesystemCall::SymLink { parent: nodeid, link_name, target },
        ),
        Operation::Rename { src_name, dest_dir, dest_name } => Ok(
            FilesystemCall::Rename {
                parent: nodeid,
                name: src_name,
                newparent: dest_dir,
                newname: dest_name,
                flags: 0,
            },
        ),
        Operation::Link { inode_no, dest_name } => Ok(
            FilesystemCall::Link { ino: inode_no, newparent: nodeid, newname: dest_name },
        ),
        Operation::Open { flags } => Ok(FilesystemCall::Open { ino: nodeid, flags }),
        Operation::Read { file_handle, offset, size, flags, lock_owner } => match offset {
            Ok(offset) => Ok(
                FilesystemCall::Read {
                    ino: nodeid,
                    file_handle,
                    offset,
                    size,
                    flags,
                    lock_owner,
                },
            ),
            Err(errno) => Err(errno),
        },
        Operation::Write { file_handle, offset, data, write_flags, flags, lock_owner } => {
            match offset {
                Ok(offset) => Ok(
                    FilesystemCall::Write {
                        ino: nodeid,
                        file_handle,
                        offset,
                        data,
                        write_flags,
                        flags,
                        lock_owner,
                    },
                ),
                Err(errno) => Err(errno),
            }
        },
        Operation::Flush { file_handle, lock_owner } => Ok(
            FilesystemCall::Flush { ino: nodeid, file_handle, lock_owner },
        ),
        Operation::Release { file_handle, flags, lock_owner, flush } => Ok(
            FilesystemCall::Release { ino: nodeid, file_handle, flags, lock_owner, flush },
        ),
        Operation::FSync { file_handle, datasync } => Ok(
            FilesystemCall::FSync { ino: nodeid, file_handle, datasync },
        ),
        Operation::OpenDir { flags } => Ok(FilesystemCall::OpenDir { ino: nodeid, flags }),
        Operation::ReadDir { file_handle, offset, size } => Ok(
            FilesystemCall::ReadDir { ino: nodeid, file_handle, offset, size },
        ),
        Operation::ReleaseDir { file_handle, flags } => Ok(
            FilesystemCall::ReleaseDir { ino: nodeid, file_handle, flags },
        ),
        Operation::FSyncDir { file_handle, datasync } => Ok(
            FilesystemCall::FSyncDir { ino: nodeid, file_handle, datasync },
        ),
        Operation::StatFs => Ok(FilesystemCall::StatFs { ino: nodeid }),
        Operation::SetXAttr { name, value, flags, position } => Ok(
            FilesystemCall::SetXAttr { ino: nodeid, name, value, flags, position },
        ),
        Operation::GetXAttr { name, size } => Ok(
            FilesystemCall::GetXAttr { ino: nodeid, name, size },
        ),
        Operation::ListXAttr { size } => Ok(FilesystemCall::ListXAttr { ino: nodeid, size }),
        Operation::RemoveXAttr { name } => Ok(FilesystemCall::RemoveXAttr { ino: nodeid, name }),
        Operation::Access { mask } => Ok(FilesystemCall::Access { ino: nodeid, mask }),
        Operation::Create { name, mode, umask, flags } => Ok(
            FilesystemCall::Create { parent: nodeid, name, mode, umask, flags },
        ),
        Operation::GetLk { file_handle, lock_owner, lock } => Ok(
            FilesystemCall::GetLk { ino: nodeid, file_handle, lock_owner, lock },
        ),
        Operation::SetLk { file_handle, lock_owner, lock, sleep } => Ok(
            FilesystemCall::SetLk { ino: nodeid, file_handle, lock_owner, lock, sleep },
        ),
        Operation::BMap { block_size, block } => Ok(
            FilesystemCall::BMap { ino: nodeid, block_size, block },
        ),
        Operation::IoCtl { unrestricted, file_handle, flags, command, in_data, out_size } => {
            if unrestricted {
                Err(Errno { raw: errnos.enosys })
            } else {
                Ok(
                    FilesystemCall::IoCtl {
                        ino: nodeid,
                        file_handle,
                        flags,
                        command,
                        in_data,
                        out_size,
                    },
                )
            }
        },
        Operation::Poll { file_handle, kernel_handle, events, flags } => Ok(
            FilesystemCall::Poll { ino: nodeid, file_handle, kernel_handle, events, flags },
        ),
        Operation::BatchForget { nodes } => Ok(FilesystemCall::BatchForget { nodes }),
        Operation::FAllocate { file_handle, offset, len, mode } => match (offset, len) {
            (Ok(offset), Ok(len)) => Ok(
                FilesystemCall::FAllocate { ino: nodeid, file_handle, offset, len, mode },
            ),
            (Err(errno), _) => Err(errno),
            (Ok(_), Err(errno)) => Err(errno),
        },
        Operation::ReadDirPlus { file_handle, offset, size } => Ok(
            FilesystemCall::ReadDirPlus { ino: nodeid, file_handle, offset, size },
        ),
        Operation::Rename2 { from_dir, from_name, to_dir, to_name, flags } => Ok(
            FilesystemCall::Rename {
                parent: from_dir,
                name: from_name,
                newparent: to_dir,
                newname: to_name,
                flags,
            },
        ),
        Operation::Lseek { file_handle, offset, whence } => Ok(
            FilesystemCall::Lseek { ino: nodeid, file_handle, offset, whence },
        ),
        Operation::CopyFileRange { src, dest, len, flags } => match (src, dest) {
            (Ok(src), Ok(dest)) => Ok(
                FilesystemCall::CopyFileRange { src, dest, len, flags },
            ),
            (Err(errno), _) => Err(errno),
            (Ok(_), Err(errno)) => Err(errno),
        },
        Operation::SetVolName { name } => Ok(FilesystemCall::SetVolName { name }),
        Operation::GetXTimes => Ok(FilesystemCall::GetXTimes { ino: nodeid }),
        Operation::Exchange { from_dir, from_name, to_dir, to_name, options } => Ok(
            FilesystemCall::Exchange {
                parent: from_dir,
                name: from_name,
                newparent: to_dir,
                newname: to_name,
                options,
            },
        ),
    }
}

/// Decides what a request asks of the filesystem, for a session with the rule `acl` whose
/// filesystem `owner` mounted.
pub fn dispatch_req(errnos: Errnos, acl: SessionACL, owner: u32, request: AnyRequest) -> (call:
    Result<FilesystemCall, Errno>)
    ensures
        call == dispatch_outcome(errnos, acl, owner, request),
        call matches Ok(FilesystemCall::Write {
            ino,
            file_handle,
            offset,
            data,
            write_flags,
            flags,
            lock_owner,
        }) ==> {
            let op = request.operation->0;
            &&& op is Write
            &&& ino == request.header.nodeid
            &&& file_handle == op->Write_file_handle
            &&& op->Write_offset == Ok::<u64, Errno>(offset)
            &&& data == op->Write_data
            &&& write_flags == op->Write_write_flags
            &&& flags == op->Write_flags
            &&& lock_owner == op->Write_lock_owner
        },
{
    let header = request.header;
    match request.operation {
        None => Err(Errno { raw: errnos.enosys }),
        Some(op) => {
            if !acl.permits(header.uid, owner) && !exempt_from_access_check(&op) {
                Err(Errno { raw: errnos.eacces })
            } else {
                call_for(errnos, header.nodeid, op)
            }
        },
    }
}

/// Dispatches a request: hands it to the filesystem, or answers it with the error that keeps it
/// from there.
pub fn dispatch(errnos: Errnos, acl: SessionACL, owner: u32, request: AnyRequest) -> (action:
    DispatchAction)
    ensures
        action == dispatch_action(errnos, acl, owner, request),
{
    let header = request.header;
    match dispatch_req(errnos, acl, owner, request) {
        Ok(call) => DispatchAction::Handle { header, call },
        Err(errno) => DispatchAction::ReplyErrno { unique: header.unique, errno },
    }
}

/// A user whom the rule shuts out gets "permission denied" for every operation that a user can
/// be behind, whatever its arguments, and the filesystem never hears of it.
pub proof fn lemma_stranger_is_denied(
    errnos: Errnos,
    acl: SessionACL,
    owner: u32,
    request: AnyRequest,
)
    requires
        request.operation is Some,
        !acl.admits(request.header.uid, owner),
        !is_exempt(request.operation->0),
    ensures
        dispatch_outcome(errnos, acl, owner, request) == Err::<FilesystemCall, Errno>(
            Errno { raw: errnos.eacces },
        ),
{
}

/// The rule decides on nothing but denial: two sessions, or two users, for which a request is not
/// denied treat it alike.
pub proof fn lemma_admitted_users_are_treated_alike(
    errnos: Errnos,
    acl: SessionACL,
    owner: u32,
    request: AnyRequest,
    other_acl: SessionACL,
    other_owner: u32,
    other_uid: u32,
)
    requires
        request.operation is Some,
        acl.admits(request.header.uid, owner) || is_exempt(request.operation->0),
        other_acl.admits(other_uid, other_owner) || is_exempt(request.operation->0),
    ensures
        dispatch_outcome(errnos, acl, owner, request) == dispatch_outcome(
            errnos,
            other_acl,
            other_owner,
            AnyRequest {
                header: RequestHeader { uid: other_uid, ..request.header },
                operation: request.operation,
            },
        ),
{
}

/// A request reaches the filesystem exactly if it decodes, its user passes or need not, and the
/// operation is one that is served.
pub proof fn lemma_served_iff(
    errnos: Errnos,
    acl: SessionACL,
    owner: u32,
    request: AnyRequest,
)
    ensures
        dispatch_outcome(errnos, acl, owner, request) is Ok <==> (request.operation matches Some(op)
            && refusal(errnos, op) is None && (acl.admits(request.header.uid, owner) || is_exempt(op))),
{
}

/// A served request about names, attributes or the filesystem as a whole becomes the call of that
/// kind, on the inode of the request or on those that it names, and every argument of the call is
/// the argument of the request.
pub proof fn lemma_call_on_names_and_attributes(
    errnos: Errnos,
    acl: SessionACL,
    owner: u32,
    request: AnyRequest,
    call: FilesystemCall,
)
    requires
        dispatch_outcome(errnos, acl, owner, request) == Ok::<FilesystemCall, Errno>(call),
    ensures
        match request.operation->0 {
            Operation::Lookup { name } => {
                &&& call is Lookup
                &&& call->Lookup_parent == request.header.nodeid
                &&& call->Lookup_name == name
            },
            Operation::Forget { nlookup } => {
                &&& call is Forget
                &&& call->Forget_ino == request.header.nodeid
                &&& call->Forget_nlookup == nlookup
            },
            Operation::GetAttr { file_handle } => {
                &&& call is GetAttr
                &&& call->GetAttr_ino == request.header.nodeid
                &&& call->GetAttr_file_handle == file_handle
            },
            Operation::SetAttr { change } => {
                &&& call is SetAttr
                &&& call->SetAttr_ino == request.header.nodeid
                &&& call->SetAttr_change == change
            },
            Operation::ReadLink => {
                &&& call is ReadLink
                &&& call->ReadLink_ino == request.header.nodeid
            },
            Operation::MkNod { name, mode, umask, rdev } => {
                &&& call is MkNod
                &&& call->MkNod_parent == request.header.nodeid
                &&& call->MkNod_name == name
                &&& call->MkNod_mode == mode
                &&& call->MkNod_umask == umask
                &&& call->MkNod_rdev == rdev
            },
            Operation::MkDir { name, mode, umask } => {
                &&& call is MkDir
                &&& call->MkDir_parent == request.header.nodeid
                &&& call->MkDir_name == name
                &&& call->MkDir_mode == mode
                &&& call->MkDir_umask == umask
            },
            Operation::Unlink { name } => {
                &&& call is Unlink
                &&& call->Unlink_parent == request.header.nodeid
                &&& call->Unlink_name == name
            },
            Operation::RmDir { name } => {
                &&& call is RmDir
                &&& call->RmDir_parent == request.header.nodeid
                &&& call->RmDir_name == name
            },
            Operation::SymLink { link_name, target } => {
                &&& call is SymLink
                &&& call->SymLink_parent == request.header.nodeid
                &&& call->SymLink_link_name == link_name
                &&& call->SymLink_target == target
            },
            Operation::Rename { src_name, dest_dir, dest_name } => {
                &&& call is Rename
                &&& call->Rename_parent == request.header.nodeid
                &&& call->Rename_name == src_name
                &&& call->Rename_newparent == dest_dir
                &&& call->Rename_newname == dest_name
                &&& call->Rename_flags == 0
            },
            Operation::Rename2 { from_dir, from_name, to_dir, to_name, flags } => {
                &&& call is Rename
                &&& call->Rename_parent == from_dir
                &&& call->Rename_name == from_name
                &&& call->Rename_newparent == to_dir
                &&& call->Rename_newname == to_name
                &&& call->Rename_flags == flags
            },
            Operation::Link { inode_no, dest_name } => {
                &&& call is Link
                &&& call->Link_ino == inode_no
                &&& call->Link_newparent == request.header.nodeid
                &&& call->Link_newname == dest_name
            },
            Operation::SetXAttr { name, value, flags, position } => {
                &&& call is SetXAttr
                &&& call->SetXAttr_ino == request.header.nodeid
                &&& call->SetXAttr_name == name
                &&& call->SetXAttr_value == value
                &&& call->SetXAttr_flags == flags
                &&& call->SetXAttr_position == position
            },
            Operation::GetXAttr { name, size } => {
                &&& call is GetXAttr
                &&& call->GetXAttr_ino == request.header.nodeid
                &&& call->GetXAttr_name == name
                &&& call->GetXAttr_size == size
            },
            Operation::ListXAttr { size } => {
                &&& call is ListXAttr
                &&& call->ListXAttr_ino == request.header.nodeid
                &&& call->ListXAttr_size == size
            },
            Operation::RemoveXAttr { name } => {
                &&& call is RemoveXAttr
                &&& call->RemoveXAttr_ino == request.header.nodeid
                &&& call->RemoveXAttr_name == name
            },
            Operation::Access { mask } => {
                &&& call is Access
                &&& call->Access_ino == request.header.nodeid
                &&& call->Access_mask == mask
            },
            Operation::StatFs => {
                &&& call is StatFs
                &&& call->StatFs_ino == request.header.nodeid
            },
            Operation::BatchForget { nodes } => {
                &&& call is BatchForget
                &&& call->BatchForget_nodes == nodes
            },
            Operation::SetVolName { name } => {
                &&& call is SetVolName
                &&& call->SetVolName_name == name
            },
            Operation::GetXTimes => {
                &&& call is GetXTimes
                &&& call->GetXTimes_ino == request.header.nodeid
            },
            Operation::Exchange { from_dir, from_name, to_dir, to_name, options } => {
                &&& call is Exchange
                &&& call->Exchange_parent == from_dir
                &&& call->Exchange_name == from_name
                &&& call->Exchange_newparent == to_dir
                &&& call->Exchange_newname == to_name
                &&& call->Exchange_options == options
            },
            _ => true,
        },
{
}

/// A served request about an open file or directory becomes the call of that kind, on the inode of
/// the request, and every argument of the call is the argument of the request. An offset or a length
/// is the one that its field decodes to.
pub proof fn lemma_call_on_an_open_file(
    errnos: Errnos,
    acl: SessionACL,
    owner: u32,
    request: AnyRequest,
    call: FilesystemCall,
)
    requires
        dispatch_outcome(errnos, acl, owner, request) == Ok::<FilesystemCall, Errno>(call),
    ensures
        match request.operation->0 {
            Operation::Open { flags } => {
                &&& call is Open
                &&& call->Open_ino == request.header.nodeid
                &&& call->Open_flags == flags
            },
            Operation::Create { name, mode, umask, flags } => {
                &&& call is Create
                &&& call->Create_parent == request.header.nodeid
                &&& call->Create_name == name
                &&& call->Create_mode == mode
                &&& call->Create_umask == umask
                &&& call->Create_flags == flags
            },
            Operation::Read { file_handle, offset, size, flags, lock_owner } => {
                &&& call is Read
                &&& call->Read_ino == request.header.nodeid
                &&& call->Read_file_handle == file_handle
                &&& offset == Ok::<_, Errno>(call->Read_offset)
                &&& call->Read_size == size
                &&& call->Read_flags == flags
                &&& call->Read_lock_owner == lock_owner
            },
            Operation::Write { file_handle, offset, data, write_flags, flags, lock_owner } => {
                &&& call is Write
                &&& call->Write_ino == request.header.nodeid
                &&& call->Write_file_handle == file_handle
                &&& offset == Ok::<_, Errno>(call->Write_offset)
                &&& call->Write_data == data
                &&& call->Write_write_flags == write_flags
                &&& call->Write_flags == flags
                &&& call->Write_lock_owner == lock_owner
            },
            Operation::Flush { file_handle, lock_owner } => {
                &&& call is Flush
                &&& call->Flush_ino == request.header.nodeid
                &&& call->Flush_file_handle == file_handle
                &&& call->Flush_lock_owner == lock_owner
            },
            Operation::Release { file_handle, flags, lock_owner, flush } => {
                &&& call is Release
                &&& call->Release_ino == request.header.nodeid
                &&& call->Release_file_handle == file_handle
                &&& call->Release_flags == flags
                &&& call->Release_lock_owner == lock_owner
                &&& call->Release_flush == flush
            },
            Operation::FSync { file_handle, datasync } => {
                &&& call is FSync
                &&& call->FSync_ino == request.header.nodeid
                &&& call->FSync_file_handle == file_handle
                &&& call->FSync_datasync == datasync
            },
            Operation::OpenDir { flags } => {
                &&& call is OpenDir
                &&& call->OpenDir_ino == request.header.nodeid
                &&& call->OpenDir_flags == flags
            },
            Operation::ReadDir { file_handle, offset, size } => {
                &&& call is ReadDir
                &&& call->ReadDir_ino == request.header.nodeid
                &&& call->ReadDir_file_handle == file_handle
                &&& call->ReadDir_offset == offset
                &&& call->ReadDir_size == size
            },
            Operation::ReadDirPlus { file_handle, offset, size } => {
                &&& call is ReadDirPlus
                &&& call->ReadDirPlus_ino == request.header.nodeid
                &&& call->ReadDirPlus_file_handle == file_handle
                &&& call->ReadDirPlus_offset == offset
                &&& call->ReadDirPlus_size == size
            },
            Operation::ReleaseDir { file_handle, flags } => {
                &&& call is ReleaseDir
                &&& call->ReleaseDir_ino == request.header.nodeid
                &&& call->ReleaseDir_file_handle == file_handle
                &&& call->ReleaseDir_flags == flags
            },
            Operation::FSyncDir { file_handle, datasync } => {
                &&& call is FSyncDir
                &&& call->FSyncDir_ino == request.header.nodeid
                &&& call->FSyncDir_file_handle == file_handle
                &&& call->FSyncDir_datasync == datasync
            },
            Operation::GetLk { file_handle, lock_owner, lock } => {
                &&& call is GetLk
                &&& call->GetLk_ino == request.header.nodeid
                &&& call->GetLk_file_handle == file_handle
                &&& call->GetLk_lock_owner == lock_owner
                &&& call->GetLk_lock == lock
            },
            Operation::SetLk { file_handle, lock_owner, lock, sleep } => {
                &&& call is SetLk
                &&& call->SetLk_ino == request.header.nodeid
                &&& call->SetLk_file_handle == file_handle
                &&& call->SetLk_lock_owner == lock_owner
                &&& call->SetLk_lock == lock
                &&& call->SetLk_sleep == sleep
            },
            Operation::BMap { block_size, block } => {
                &&& call is BMap
                &&& call->BMap_ino == request.header.nodeid
                &&& call->BMap_block_size == block_size
                &&& call->BMap_block == block
            },
            Operation::IoCtl { file_handle, flags, command, in_data, out_size, .. } => {
                &&& call is IoCtl
                &&& call->IoCtl_ino == request.header.nodeid
                &&& call->IoCtl_file_handle == file_handle
                &&& call->IoCtl_flags == flags
                &&& call->IoCtl_command == command
                &&& call->IoCtl_in_data == in_data
                &&& call->IoCtl_out_size == out_size
            },
            Operation::Poll { file_handle, kernel_handle, events, flags } => {
                &&& call is Poll
                &&& call->Poll_ino == request.header.nodeid
                &&& call->Poll_file_handle == file_handle
                &&& call->Poll_kernel_handle == kernel_handle
                &&& call->Poll_events == events
                &&& call->Poll_flags == flags
            },
            Operation::FAllocate { file_handle, offset, len, mode } => {
                &&& call is FAllocate
                &&& call->FAllocate_ino == request.header.nodeid
                &&& call->FAllocate_file_handle == file_handle
                &&& offset == Ok::<_, Errno>(call->FAllocate_offset)
                &&& len == Ok::<_, Errno>(call->FAllocate_len)
                &&& call->FAllocate_mode == mode
            },
            Operation::Lseek { file_handle, offset, whence } => {
                &&& call is Lseek
                &&& call->Lseek_ino == request.header.nodeid
                &&& call->Lseek_file_handle == file_handle
                &&& call->Lseek_offset == offset
                &&& call->Lseek_whence == whence
            },
            Operation::CopyFileRange { src, dest, len, flags } => {
                &&& call is CopyFileRange
                &&& src == Ok::<_, Errno>(call->CopyFileRange_src)
                &&& dest == Ok::<_, Errno>(call->CopyFileRange_dest)
                &&& call->CopyFileRange_len == len
                &&& call->CopyFileRange_flags == flags
            },
            _ => true,
        },
{
}

/// What is asked of a request is answered by the first of these that holds: it names no operation
/// that can be decoded; its user is shut out, and a user can be behind the operation; the operation
/// belongs to the handshake or ends the session; the library does not implement it; a field does not
/// decode. If none holds, the request is served.
pub proof fn lemma_answer_to_every_request(
    errnos: Errnos,
    acl: SessionACL,
    owner: u32,
    request: AnyRequest,
)
    ensures
        ({
            let outcome = dispatch_outcome(errnos, acl, owner, request);
            let uid = request.header.uid;
            let shut_out = uid != owner && (acl == SessionACL::Owner || (acl
                == SessionACL::RootAndOwner && uid != 0));
            match request.operation {
                None => outcome == Err::<FilesystemCall, Errno>(Errno { raw: errnos.enosys }),
                Some(op) => {
                    let by_kernel = match op {
                        Operation::Init { .. }
                        | Operation::Destroy
                        | Operation::Read { .. }
                        | Operation::ReadDir { .. }
                        | Operation::ReadDirPlus { .. }
                        | Operation::BatchForget { .. }
                        | Operation::Forget { .. }
                        | Operation::Write { .. }
                        | Operation::FSync { .. }
                        | Operation::FSyncDir { .. }
                        | Operation::Release { .. }
                        | Operation::ReleaseDir { .. } => true,
                        _ => false,
                    };
                    if shut_out && !by_kernel {
                        outcome == Err::<FilesystemCall, Errno>(Errno { raw: errnos.eacces })
                    } else {
                        match op {
                            Operation::Init { .. } | Operation::Destroy => outcome == Err::<
                                FilesystemCall,
                                Errno,
                            >(Errno { raw: errnos.eio }),
                            Operation::Interrupt { .. }
                            | Operation::NotifyReply
                            | Operation::CuseInit
                            | Operation::IoCtl { unrestricted: true, .. } => outcome == Err::<
                                FilesystemCall,
                                Errno,
                            >(Errno { raw: errnos.enosys }),
                            Operation::Read { offset: Err(errno), .. }
                            | Operation::Write { offset: Err(errno), .. }
                            | Operation::FAllocate { offset: Err(errno), .. }
                            | Operation::FAllocate { offset: Ok(_), len: Err(errno), .. }
                            | Operation::CopyFileRange { src: Err(errno), .. }
                            | Operation::CopyFileRange { src: Ok(_), dest: Err(errno), .. } => {
                                outcome == Err::<FilesystemCall, Errno>(errno)
                            },
                            _ => outcome is Ok,
                        }
                    }
                },
            }
        }),
{
}

/// What is done with a request names that request: a call goes to the filesystem with the whole
/// header of the request, and an error goes back under its number.
pub proof fn lemma_action_names_its_request(
    errnos: Errnos,
    acl: SessionACL,
    owner: u32,
    request: AnyRequest,
)
    ensures
        match dispatch_action(errnos, acl, owner, request) {
            DispatchAction::Handle { header, call } => header == request.header && Ok::<
                FilesystemCall,
                Errno,
            >(call) == dispatch_outcome(errnos, acl, owner, request),
            DispatchAction::ReplyErrno { unique, errno } => unique == request.header.unique
                && Err::<FilesystemCall, Errno>(errno) == dispatch_outcome(
                errnos,
                acl,
                owner,
                request,
            ),
        },
{
}

/// Nothing of what is asked gets lost: where two served requests become the same call, they ask for
/// the same, but for the two forms of a rename, and are about the same inode, unless the operation
/// names the inodes itself.
pub proof fn lemma_different_requests_become_different_calls(
    errnos: Errnos,
    acl: SessionACL,
    owner: u32,
    first: AnyRequest,
    second: AnyRequest,
)
    requires
        dispatch_outcome(errnos, acl, owner, first) is Ok,
        dispatch_outcome(errnos, acl, owner, first) == dispatch_outcome(
            errnos,
            acl,
            owner,
            second,
        ),
        !(first.operation->0 is Rename2),
        !(second.operation->0 is Rename2),
    ensures
        first.operation == second.operation,
        match first.operation->0 {
            Operation::BatchForget { .. }
            | Operation::CopyFileRange { .. }
            | Operation::SetVolName { .. }
            | Operation::Exchange { .. } => true,
            _ => first.header.nodeid == second.header.nodeid,
        },
{
}

/// A write that is served is a write of the same bytes to the same place: the call has the offset that
/// the request decodes to, and its inode, handle, data, flags and lock owner. So two writes to
/// different places stay two writes to different places.
pub proof fn lemma_writes_go_where_they_are_meant(
    errnos: Errnos,
    acl: SessionACL,
    owner: u32,
    first: AnyRequest,
    second: AnyRequest,
)
    requires
        first.operation is Some,
        first.operation->0 is Write,
        second.operation is Some,
        second.operation->0 is Write,
        dispatch_outcome(errnos, acl, owner, first) is Ok,
        dispatch_outcome(errnos, acl, owner, second) is Ok,
    ensures
        ({
            let asked = first.operation->0;
            let call = dispatch_outcome(errnos, acl, owner, first)->Ok_0;
            let other = dispatch_outcome(errnos, acl, owner, second)->Ok_0;
            &&& call is Write && other is Write
            &&& asked->Write_offset is Ok
            &&& call->Write_offset == asked->Write_offset->Ok_0
            &&& call->Write_ino == first.header.nodeid
            &&& call->Write_file_handle == asked->Write_file_handle
            &&& call->data == asked->data
            &&& call->Write_write_flags == asked->Write_write_flags
            &&& call->Write_flags == asked->Write_flags
            &&& call->Write_lock_owner == asked->Write_lock_owner
            &&& asked->Write_offset != second.operation->0->Write_offset ==> call->Write_offset
                != other->Write_offset
        }),
{
}

} // verus!
