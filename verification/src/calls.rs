//! One checked operation for every system call of the ABI.
//!
//! An operation takes the arguments of the call it stands for, then what the
//! host handed back: the status and, where the call has outputs, the content
//! of each output slot after the call. It returns what the caller may
//! observe. The content of an output slot reaches the result only when the
//! status reports success.
//!
//! Where a call transfers elements, the host owes that a successful call
//! reports no more elements than the views it was given can hold. An
//! operation on such a call requires that of the host's answer and promises
//! it of its own result.

// The arguments of a call say which call was made; the answer alone decides
// the result, so most arguments are named and not read.
#![allow(unused_variables)]

use crate::errno::{Errno, Status, ESUCCESS};
use crate::iovec::{honours_capacity, total_capacity, CIoVec, IoVec};
use crate::outcome::{outcome, unit_result, value_result};
use crate::types::{
    Advice, ClockId, DirCookie, Event, Fd, FdFlags, FdStat, FileDelta, FileSize, FileStat,
    FstFlags, LookupFlags, OFlags, Prestat, RiFlags, Rights, RoFlags, SdFlags, SiFlags, Signal,
    Subscription, Timestamp, Whence,
};
use vstd::prelude::*;

verus! {

/// The resolution of a clock.
pub fn clock_res_get(
    clock_id: ClockId,
    status: Status,
    resolution: Timestamp,
) -> (r: Result<Timestamp, Errno>)
    ensures
        r == outcome(status, resolution),
        r matches Err(e) ==> e.code() == status,
{
    value_result(status, resolution)
}

/// The time of a clock.
pub fn clock_time_get(
    clock_id: ClockId,
    precision: Timestamp,
    status: Status,
    time: Timestamp,
) -> (r: Result<Timestamp, Errno>)
    ensures
        r == outcome(status, time),
        r matches Err(e) ==> e.code() == status,
{
    value_result(status, time)
}

/// A scatter-read at an offset: the number of bytes read into `iovs`.
pub fn fd_pread(
    fd: Fd,
    iovs: &[IoVec],
    offset: FileSize,
    status: Status,
    nread: usize,
) -> (r: Result<usize, Errno>)
    requires
        honours_capacity(status, nread, total_capacity(iovs@)),
    ensures
        r == outcome(status, nread),
        r matches Err(e) ==> e.code() == status,
        r matches Ok(n) ==> n <= total_capacity(iovs@),
{
    value_result(status, nread)
}

/// A gather-write at an offset: the number of bytes written from `iovs`.
pub fn fd_pwrite(
    fd: Fd,
    iovs: &[CIoVec],
    offset: FileSize,
    status: Status,
    nwritten: usize,
) -> (r: Result<usize, Errno>)
    requires
        honours_capacity(status, nwritten, total_capacity(iovs@)),
    ensures
        r == outcome(status, nwritten),
        r matches Err(e) ==> e.code() == status,
        r matches Ok(n) ==> n <= total_capacity(iovs@),
{
    value_result(status, nwritten)
}

/// Filling `buf` with random bytes.
pub fn random_get(buf: &[u8], status: Status) -> (r: Result<(), Errno>)
    ensures
        r == outcome(status, ()),
        r matches Err(e) ==> e.code() == status,
{
    unit_result(status)
}

/// Closing a descriptor.
pub fn fd_close(fd: Fd, status: Status) -> (r: Result<(), Errno>)
    ensures
        r == outcome(status, ()),
        r matches Err(e) ==> e.code() == status,
{
    unit_result(status)
}

/// Writing the data of a file through to storage.
pub fn fd_datasync(fd: Fd, status: Status) -> (r: Result<(), Errno>)
    ensures
        r == outcome(status, ()),
        r matches Err(e) ==> e.code() == status,
{
    unit_result(status)
}

/// A scatter-read: the number of bytes read into `iovs`.
pub fn fd_read(fd: Fd, iovs: &[IoVec], status: Status, nread: usize) -> (r: Result<usize, Errno>)
    requires
        honours_capacity(status, nread, total_capacity(iovs@)),
    ensures
        r == outcome(status, nread),
        r matches Err(e) ==> e.code() == status,
        r matches Ok(n) ==> n <= total_capacity(iovs@),
{
    value_result(status, nread)
}

/// Moving a descriptor to another number.
pub fn fd_renumber(from: Fd, to: Fd, status: Status) -> (r: Result<(), Errno>)
    ensures
        r == outcome(status, ()),
        r matches Err(e) ==> e.code() == status,
{
    unit_result(status)
}

/// Moving the offset of a descriptor: the new offset.
pub fn fd_seek(
    fd: Fd,
    offset: FileDelta,
    whence: Whence,
    status: Status,
    newoffset: FileSize,
) -> (r: Result<FileSize, Errno>)
    ensures
        r == outcome(status, newoffset),
        r matches Err(e) ==> e.code() == status,
{
    value_result(status, newoffset)
}

/// The offset of a descriptor.
pub fn fd_tell(fd: Fd, status: Status, newoffset: FileSize) -> (r: Result<FileSize, Errno>)
    ensures
        r == outcome(status, newoffset),
        r matches Err(e) ==> e.code() == status,
{
    value_result(status, newoffset)
}

/// The attributes of a descriptor.
pub fn fd_fdstat_get(fd: Fd, status: Status, buf: FdStat) -> (r: Result<FdStat, Errno>)
    ensures
        r == outcome(status, buf),
        r matches Err(e) ==> e.code() == status,
{
    value_result(status, buf)
}

/// Setting the flags of a descriptor.
pub fn fd_fdstat_set_flags(fd: Fd, flags: FdFlags, status: Status) -> (r: Result<(), Errno>)
    ensures
        r == outcome(status, ()),
        r matches Err(e) ==> e.code() == status,
{
    unit_result(status)
}

/// Restricting the rights of a descriptor.
pub fn fd_fdstat_set_rights(
    fd: Fd,
    fs_rights_base: Rights,
    fs_rights_inheriting: Rights,
    status: Status,
) -> (r: Result<(), Errno>)
    ensures
        r == outcome(status, ()),
        r matches Err(e) ==> e.code() == status,
{
    unit_result(status)
}

/// Writing the data and the attributes of a file through to storage.
pub fn fd_sync(fd: Fd, status: Status) -> (r: Result<(), Errno>)
    ensures
        r == outcome(status, ()),
        r matches Err(e) ==> e.code() == status,
{
    unit_result(status)
}

/// A gather-write: the number of bytes written from `iovs`.
pub fn fd_write(
    fd: Fd,
    iovs: &[CIoVec],
    status: Status,
    nwritten: usize,
) -> (r: Result<usize, Errno>)
    requires
        honours_capacity(status, nwritten, total_capacity(iovs@)),
    ensures
        r == outcome(status, nwritten),
        r matches Err(e) ==> e.code() == status,
        r matches Ok(n) ==> n <= total_capacity(iovs@),
{
    value_result(status, nwritten)
}

/// Advising the host on how a range of a file is going to be used.
pub fn fd_advise(
    fd: Fd,
    offset: FileSize,
    len: FileSize,
    advice: Advice,
    status: Status,
) -> (r: Result<(), Errno>)
    ensures
        r == outcome(status, ()),
        r matches Err(e) ==> e.code() == status,
{
    unit_result(status)
}

/// Reserving space for a range of a file.
pub fn fd_allocate(
    fd: Fd,
    offset: FileSize,
    len: FileSize,
    status: Status,
) -> (r: Result<(), Errno>)
    ensures
        r == outcome(status, ()),
        r matches Err(e) ==> e.code() == status,
{
    unit_result(status)
}

/// Creating a directory.
pub fn path_create_directory(fd: Fd, path: &[u8], status: Status) -> (r: Result<(), Errno>)
    ensures
        r == outcome(status, ()),
        r matches Err(e) ==> e.code() == status,
{
    unit_result(status)
}

/// Creating a hard link.
pub fn path_link(
    old_fd: Fd,
    old_flags: LookupFlags,
    old_path: &[u8],
    new_fd: Fd,
    new_path: &[u8],
    status: Status,
) -> (r: Result<(), Errno>)
    ensures
        r == outcome(status, ()),
        r matches Err(e) ==> e.code() == status,
{
    unit_result(status)
}

/// Opening a file or a directory: the new descriptor.
pub fn path_open(
    dirfd: Fd,
    dirflags: LookupFlags,
    path: &[u8],
    oflags: OFlags,
    fs_rights_base: Rights,
    fs_rights_inheriting: Rights,
    fs_flags: FdFlags,
    status: Status,
    fd: Fd,
) -> (r: Result<Fd, Errno>)
    ensures
        r == outcome(status, fd),
        r matches Err(e) ==> e.code() == status,
{
    value_result(status, fd)
}

/// Listing a directory: the number of bytes of `buf` that hold entries.
pub fn fd_readdir(
    fd: Fd,
    buf: &[u8],
    cookie: DirCookie,
    status: Status,
    bufused: usize,
) -> (r: Result<usize, Errno>)
    requires
        honours_capacity(status, bufused, buf@.len()),
    ensures
        r == outcome(status, bufused),
        r matches Err(e) ==> e.code() == status,
        r matches Ok(n) ==> n <= buf@.len(),
{
    value_result(status, bufused)
}

/// Reading the target of a symbolic link: the number of bytes of `buf` that
/// hold it.
pub fn path_readlink(
    fd: Fd,
    path: &[u8],
    buf: &[u8],
    status: Status,
    bufused: usize,
) -> (r: Result<usize, Errno>)
    requires
        honours_capacity(status, bufused, buf@.len()),
    ensures
        r == outcome(status, bufused),
        r matches Err(e) ==> e.code() == status,
        r matches Ok(n) ==> n <= buf@.len(),
{
    value_result(status, bufused)
}

/// Renaming a file or a directory.
pub fn path_rename(
    old_fd: Fd,
    old_path: &[u8],
    new_fd: Fd,
    new_path: &[u8],
    status: Status,
) -> (r: Result<(), Errno>)
    ensures
        r == outcome(status, ()),
        r matches Err(e) ==> e.code() == status,
{
    unit_result(status)
}

/// The attributes of an open file.
pub fn fd_filestat_get(fd: Fd, status: Status, buf: FileStat) -> (r: Result<FileStat, Errno>)
    ensures
        r == outcome(status, buf),
        r matches Err(e) ==> e.code() == status,
{
    value_result(status, buf)
}

/// Adjusting the timestamps of an open file.
pub fn fd_filestat_set_times(
    fd: Fd,
    st_atim: Timestamp,
    st_mtim: Timestamp,
    fstflags: FstFlags,
    status: Status,
) -> (r: Result<(), Errno>)
    ensures
        r == outcome(status, ()),
        r matches Err(e) ==> e.code() == status,
{
    unit_result(status)
}

/// Adjusting the size of an open file.
pub fn fd_filestat_set_size(fd: Fd, st_size: FileSize, status: Status) -> (r: Result<(), Errno>)
    ensures
        r == outcome(status, ()),
        r matches Err(e) ==> e.code() == status,
{
    unit_result(status)
}

/// The attributes of the file at a path.
pub fn path_filestat_get(
    fd: Fd,
    flags: LookupFlags,
    path: &[u8],
    status: Status,
    buf: FileStat,
) -> (r: Result<FileStat, Errno>)
    ensures
        r == outcome(status, buf),
        r matches Err(e) ==> e.code() == status,
{
    value_result(status, buf)
}

/// Adjusting the timestamps of the file at a path.
pub fn path_filestat_set_times(
    fd: Fd,
    flags: LookupFlags,
    path: &[u8],
    st_atim: Timestamp,
    st_mtim: Timestamp,
    fstflags: FstFlags,
    status: Status,
) -> (r: Result<(), Errno>)
    ensures
        r == outcome(status, ()),
        r matches Err(e) ==> e.code() == status,
{
    unit_result(status)
}

/// Creating a symbolic link.
pub fn path_symlink(
    old_path: &[u8],
    fd: Fd,
    new_path: &[u8],
    status: Status,
) -> (r: Result<(), Errno>)
    ensures
        r == outcome(status, ()),
        r matches Err(e) ==> e.code() == status,
{
    unit_result(status)
}

/// Removing a file.
pub fn path_unlink_file(fd: Fd, path: &[u8], status: Status) -> (r: Result<(), Errno>)
    ensures
        r == outcome(status, ()),
        r matches Err(e) ==> e.code() == status,
{
    unit_result(status)
}

/// Removing a directory.
pub fn path_remove_directory(fd: Fd, path: &[u8], status: Status) -> (r: Result<(), Errno>)
    ensures
        r == outcome(status, ()),
        r matches Err(e) ==> e.code() == status,
{
    unit_result(status)
}

/// Whether `out` has room for one event per subscription of `in_`, which a
/// call that waits for events demands before it is made.
pub fn poll_capacity_suffices(in_: &[Subscription], out: &[Event]) -> (enough: bool)
    ensures
        enough == (out@.len() >= in_@.len()),
{
    out.len() >= in_.len()
}

/// Waiting for events: the number of events the host stored in `out`.
///
/// `out` must have room for one event per subscription. Where it has not,
/// no call is made and there is no answer to pass in.
pub fn poll_oneoff(
    in_: &[Subscription],
    out: &[Event],
    status: Status,
    nevents: usize,
) -> (r: Result<usize, Errno>)
    requires
        out@.len() >= in_@.len(),
        honours_capacity(status, nevents, in_@.len()),
    ensures
        r == outcome(status, nevents),
        r matches Err(e) ==> e.code() == status,
        r matches Ok(n) ==> n <= in_@.len() && n <= out@.len(),
{
    value_result(status, nevents)
}

/// Sending a signal to the calling process.
pub fn proc_raise(sig: Signal, status: Status) -> (r: Result<(), Errno>)
    ensures
        r == outcome(status, ()),
        r matches Err(e) ==> e.code() == status,
{
    unit_result(status)
}

/// Receiving a message into `ri_data`: the number of bytes received together
/// with the flags of the message. Both come from the one answer of the host,
/// so neither can be had without the other.
pub fn sock_recv(
    sock: Fd,
    ri_data: &[IoVec],
    ri_flags: RiFlags,
    status: Status,
    ro_datalen: usize,
    ro_flags: RoFlags,
) -> (r: Result<(usize, RoFlags), Errno>)
    requires
        honours_capacity(status, ro_datalen, total_capacity(ri_data@)),
    ensures
        r == outcome(status, (ro_datalen, ro_flags)),
        r matches Err(e) ==> e.code() == status,
        r matches Ok(received) ==> received.0 <= total_capacity(ri_data@),
{
    value_result(status, (ro_datalen, ro_flags))
}

/// Sending a message from `si_data`: the number of bytes sent.
pub fn sock_send(
    sock: Fd,
    si_data: &[CIoVec],
    si_flags: SiFlags,
    status: Status,
    so_datalen: usize,
) -> (r: Result<usize, Errno>)
    requires
        honours_capacity(status, so_datalen, total_capacity(si_data@)),
    ensures
        r == outcome(status, so_datalen),
        r matches Err(e) ==> e.code() == status,
        r matches Ok(n) ==> n <= total_capacity(si_data@),
{
    value_result(status, so_datalen)
}

/// Shutting down directions of a socket.
pub fn sock_shutdown(sock: Fd, how: SdFlags, status: Status) -> (r: Result<(), Errno>)
    ensures
        r == outcome(status, ()),
        r matches Err(e) ==> e.code() == status,
{
    unit_result(status)
}

/// Yielding the processor.
pub fn sched_yield(status: Status) -> (r: Result<(), Errno>)
    ensures
        r == outcome(status, ()),
        r matches Err(e) ==> e.code() == status,
{
    unit_result(status)
}

/// The description of a pre-opened descriptor.
pub fn fd_prestat_get(fd: Fd, status: Status, buf: Prestat) -> (r: Result<Prestat, Errno>)
    ensures
        r == outcome(status, buf),
        r matches Err(e) ==> e.code() == status,
{
    value_result(status, buf)
}

/// Reading the path of a pre-opened directory into `path`.
pub fn fd_prestat_dir_name(fd: Fd, path: &[u8], status: Status) -> (r: Result<(), Errno>)
    ensures
        r == outcome(status, ()),
        r matches Err(e) ==> e.code() == status,
{
    unit_result(status)
}

/// A transfer never reports more than it was given room for: whenever the
/// host keeps its promise, a successful result is at most the capacity, and
/// it is the very count the host reported.
pub proof fn lemma_transfer_within_capacity(status: Status, count: usize, capacity: nat)
    requires
        honours_capacity(status, count, capacity),
    ensures
        outcome(status, count) matches Ok(n) ==> n == count && n <= capacity,
{
}

/// Rights pass through the layer bit for bit: the patterns of rights that the
/// host stored in the attributes of a descriptor are the patterns a
/// successful `fd_fdstat_get` hands to the caller, whatever bits they hold.
pub proof fn lemma_rights_pass_through(base: Rights, inheriting: Rights, buf: FdStat)
    requires
        buf.fs_rights_base == base,
        buf.fs_rights_inheriting == inheriting,
    ensures
        outcome(ESUCCESS, buf) matches Ok(stat) && stat.fs_rights_base == base
            && stat.fs_rights_inheriting == inheriting,
{
}

} // verus!
