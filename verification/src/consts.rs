//! The constants of the ABI under their normalized names.
//!
//! Each constant has the numeric value and the type the ABI fixes for it.
//! The layer passes these values through and does not interpret them.

use crate::types::{
    Advice, ClockId, DirCookie, EventRwFlags, EventType, FdFlags, FileType, FstFlags, LookupFlags,
    OFlags, PreopenType, RiFlags, Rights, RoFlags, SdFlags, Signal, SubclockFlags, Whence,
};
use vstd::prelude::*;

verus! {

// How a file is going to be accessed.
pub const ADVICE_NORMAL: Advice = 0;

pub const ADVICE_SEQUENTIAL: Advice = 1;

pub const ADVICE_RANDOM: Advice = 2;

pub const ADVICE_WILLNEED: Advice = 3;

pub const ADVICE_DONTNEED: Advice = 4;

pub const ADVICE_NOREUSE: Advice = 5;

// The clocks.
pub const CLOCK_REALTIME: ClockId = 0;

pub const CLOCK_MONOTONIC: ClockId = 1;

pub const CLOCK_PROCESS_CPUTIME_ID: ClockId = 2;

pub const CLOCK_THREAD_CPUTIME_ID: ClockId = 3;

// The position of the first entry of a directory.
pub const DIRCOOKIE_START: DirCookie = 0;

// The state of a descriptor that an event reports.
pub const EVENT_FD_READWRITE_HANGUP: EventRwFlags = 0x0001;

// The kinds of event.
pub const EVENTTYPE_CLOCK: EventType = 0;

pub const EVENTTYPE_FD_READ: EventType = 1;

pub const EVENTTYPE_FD_WRITE: EventType = 2;

// The flags of a descriptor.
pub const FDFLAG_APPEND: FdFlags = 0x0001;

pub const FDFLAG_DSYNC: FdFlags = 0x0002;

pub const FDFLAG_NONBLOCK: FdFlags = 0x0004;

pub const FDFLAG_RSYNC: FdFlags = 0x0008;

pub const FDFLAG_SYNC: FdFlags = 0x0010;

// The kinds of file.
pub const FILETYPE_UNKNOWN: FileType = 0;

pub const FILETYPE_BLOCK_DEVICE: FileType = 1;

pub const FILETYPE_CHARACTER_DEVICE: FileType = 2;

pub const FILETYPE_DIRECTORY: FileType = 3;

pub const FILETYPE_REGULAR_FILE: FileType = 4;

pub const FILETYPE_SOCKET_DGRAM: FileType = 5;

pub const FILETYPE_SOCKET_STREAM: FileType = 6;

pub const FILETYPE_SYMBOLIC_LINK: FileType = 7;

// Which timestamps a call adjusts.
pub const FILESTAT_SET_ATIM: FstFlags = 0x0001;

pub const FILESTAT_SET_ATIM_NOW: FstFlags = 0x0002;

pub const FILESTAT_SET_MTIM: FstFlags = 0x0004;

pub const FILESTAT_SET_MTIM_NOW: FstFlags = 0x0008;

// How a path is resolved.
pub const LOOKUP_SYMLINK_FOLLOW: LookupFlags = 0x00000001;

// How a file is opened.
pub const O_CREAT: OFlags = 0x0001;

pub const O_DIRECTORY: OFlags = 0x0002;

pub const O_EXCL: OFlags = 0x0004;

pub const O_TRUNC: OFlags = 0x0008;

// The kinds of pre-opened descriptor.
pub const PREOPENTYPE_DIR: PreopenType = 0;

// How a message is received.
pub const SOCK_RECV_PEEK: RiFlags = 0x0001;

pub const SOCK_RECV_WAITALL: RiFlags = 0x0002;

// The capability rights: what may be done with a descriptor.
pub const RIGHT_FD_DATASYNC: Rights = 0x0000000000000001;

pub const RIGHT_FD_READ: Rights = 0x0000000000000002;

pub const RIGHT_FD_SEEK: Rights = 0x0000000000000004;

pub const RIGHT_FD_FDSTAT_SET_FLAGS: Rights = 0x0000000000000008;

pub const RIGHT_FD_SYNC: Rights = 0x0000000000000010;

pub const RIGHT_FD_TELL: Rights = 0x0000000000000020;

pub const RIGHT_FD_WRITE: Rights = 0x0000000000000040;

pub const RIGHT_FD_ADVISE: Rights = 0x0000000000000080;

pub const RIGHT_FD_ALLOCATE: Rights = 0x0000000000000100;

pub const RIGHT_PATH_CREATE_DIRECTORY: Rights = 0x0000000000000200;

pub const RIGHT_PATH_CREATE_FILE: Rights = 0x0000000000000400;

pub const RIGHT_PATH_LINK_SOURCE: Rights = 0x0000000000000800;

pub const RIGHT_PATH_LINK_TARGET: Rights = 0x0000000000001000;

pub const RIGHT_PATH_OPEN: Rights = 0x0000000000002000;

pub const RIGHT_FD_READDIR: Rights = 0x0000000000004000;

pub const RIGHT_PATH_READLINK: Rights = 0x0000000000008000;

pub const RIGHT_PATH_RENAME_SOURCE: Rights = 0x0000000000010000;

pub const RIGHT_PATH_RENAME_TARGET: Rights = 0x0000000000020000;

pub const RIGHT_PATH_FILESTAT_GET: Rights = 0x0000000000040000;

pub const RIGHT_PATH_FILESTAT_SET_SIZE: Rights = 0x0000000000080000;

pub const RIGHT_PATH_FILESTAT_SET_TIMES: Rights = 0x0000000000100000;

pub const RIGHT_FD_FILESTAT_GET: Rights = 0x0000000000200000;

pub const RIGHT_FD_FILESTAT_SET_SIZE: Rights = 0x0000000000400000;

pub const RIGHT_FD_FILESTAT_SET_TIMES: Rights = 0x0000000000800000;

pub const RIGHT_PATH_SYMLINK: Rights = 0x0000000001000000;

pub const RIGHT_PATH_REMOVE_DIRECTORY: Rights = 0x0000000002000000;

pub const RIGHT_PATH_UNLINK_FILE: Rights = 0x0000000004000000;

pub const RIGHT_POLL_FD_READWRITE: Rights = 0x0000000008000000;

pub const RIGHT_SOCK_SHUTDOWN: Rights = 0x0000000010000000;

// What a receive reports besides the data.
pub const SOCK_RECV_DATA_TRUNCATED: RoFlags = 0x0001;

// Which directions of a socket to shut down.
pub const SHUT_RD: SdFlags = 0x01;

pub const SHUT_WR: SdFlags = 0x02;

// The signals.
pub const SIGHUP: Signal = 1;

pub const SIGINT: Signal = 2;

pub const SIGQUIT: Signal = 3;

pub const SIGILL: Signal = 4;

pub const SIGTRAP: Signal = 5;

pub const SIGABRT: Signal = 6;

pub const SIGBUS: Signal = 7;

pub const SIGFPE: Signal = 8;

pub const SIGKILL: Signal = 9;

pub const SIGUSR1: Signal = 10;

pub const SIGSEGV: Signal = 11;

pub const SIGUSR2: Signal = 12;

pub const SIGPIPE: Signal = 13;

pub const SIGALRM: Signal = 14;

pub const SIGTERM: Signal = 15;

pub const SIGCHLD: Signal = 16;

pub const SIGCONT: Signal = 17;

pub const SIGSTOP: Signal = 18;

pub const SIGTSTP: Signal = 19;

pub const SIGTTIN: Signal = 20;

pub const SIGTTOU: Signal = 21;

pub const SIGURG: Signal = 22;

pub const SIGXCPU: Signal = 23;

pub const SIGXFSZ: Signal = 24;

pub const SIGVTALRM: Signal = 25;

pub const SIGPROF: Signal = 26;

pub const SIGWINCH: Signal = 27;

pub const SIGPOLL: Signal = 28;

pub const SIGPWR: Signal = 29;

pub const SIGSYS: Signal = 30;

// How the timeout of a clock subscription is read.
pub const SUBSCRIPTION_CLOCK_ABSTIME: SubclockFlags = 0x0001;

// The position an offset is relative to.
pub const WHENCE_CUR: Whence = 0;

pub const WHENCE_END: Whence = 1;

pub const WHENCE_SET: Whence = 2;

} // verus!
