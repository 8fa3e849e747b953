//! The scalar types and the fixed-layout records of the ABI.
//!
//! Scalars keep the width the ABI gives them. Records mirror the ABI's
//! aggregates field for field; a field that the ABI tags by another field is
//! an enum here. The layer does not interpret any of them: it moves them
//! from the host to the caller unchanged.

use crate::errno::Status;
use vstd::prelude::*;

verus! {

pub type Advice = u8;

pub type ClockId = u32;

pub type Device = u64;

pub type DirCookie = u64;

pub type EventRwFlags = u16;

pub type EventType = u8;

pub type ExitCode = u32;

pub type Fd = u32;

pub type FdFlags = u16;

pub type FileDelta = i64;

pub type FileSize = u64;

pub type FileType = u8;

pub type FstFlags = u16;

pub type Inode = u64;

pub type LinkCount = u32;

pub type LookupFlags = u32;

pub type OFlags = u16;

pub type PreopenType = u8;

pub type RiFlags = u16;

pub type Rights = u64;

pub type RoFlags = u16;

pub type SdFlags = u8;

pub type SiFlags = u16;

pub type Signal = u8;

pub type SubclockFlags = u16;

pub type Timestamp = u64;

pub type Userdata = u64;

pub type Whence = u8;

/// The header of one directory entry.
#[derive(Clone, Copy, Debug, PartialEq, Eq, Structural)]
pub struct Dirent {
    pub d_next: DirCookie,
    pub d_ino: Inode,
    pub d_namlen: u32,
    pub d_type: FileType,
}

/// The attributes of an open descriptor.
#[derive(Clone, Copy, Debug, PartialEq, Eq, Structural)]
pub struct FdStat {
    pub fs_filetype: FileType,
    pub fs_flags: FdFlags,
    pub fs_rights_base: Rights,
    pub fs_rights_inheriting: Rights,
}

/// The attributes of a file.
#[derive(Clone, Copy, Debug, PartialEq, Eq, Structural)]
pub struct FileStat {
    pub st_dev: Device,
    pub st_ino: Inode,
    pub st_filetype: FileType,
    pub st_nlink: LinkCount,
    pub st_size: FileSize,
    pub st_atim: Timestamp,
    pub st_mtim: Timestamp,
    pub st_ctim: Timestamp,
}

/// What a subscription to a clock asks for.
#[derive(Clone, Copy, Debug, PartialEq, Eq, Structural)]
pub struct SubscriptionClock {
    pub identifier: Userdata,
    pub clock_id: ClockId,
    pub timeout: Timestamp,
    pub precision: Timestamp,
    pub flags: SubclockFlags,
}

/// What a subscription to a descriptor's readiness asks for.
#[derive(Clone, Copy, Debug, PartialEq, Eq, Structural)]
pub struct SubscriptionFdReadwrite {
    pub fd: Fd,
}

/// The part of a subscription that depends on its event type.
#[derive(Clone, Copy, Debug, PartialEq, Eq, Structural)]
pub enum SubscriptionU {
    Clock(SubscriptionClock),
    FdReadwrite(SubscriptionFdReadwrite),
}

/// One request to be told of an event.
#[derive(Clone, Copy, Debug, PartialEq, Eq, Structural)]
pub struct Subscription {
    pub userdata: Userdata,
    pub type_: EventType,
    pub u: SubscriptionU,
}

/// What an event on a descriptor reports.
#[derive(Clone, Copy, Debug, PartialEq, Eq, Structural)]
pub struct EventFdReadwrite {
    pub nbytes: FileSize,
    pub flags: EventRwFlags,
}

/// One event that occurred. `error` is the raw status the host stored for
/// this event; the layer does not map it.
#[derive(Clone, Copy, Debug, PartialEq, Eq, Structural)]
pub struct Event {
    pub userdata: Userdata,
    pub error: Status,
    pub type_: EventType,
    pub fd_readwrite: EventFdReadwrite,
}

/// What is known of a pre-opened directory.
#[derive(Clone, Copy, Debug, PartialEq, Eq, Structural)]
pub struct PrestatDir {
    pub pr_name_len: usize,
}

/// The description of a pre-opened descriptor.
#[derive(Clone, Copy, Debug, PartialEq, Eq, Structural)]
pub struct Prestat {
    pub pr_type: PreopenType,
    pub dir: PrestatDir,
}

} // verus!
