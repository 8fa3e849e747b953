//! A checked layer over the `wasi_unstable` system-call ABI.
//!
//! Every entry point of that ABI takes primitive integers and pointer+length
//! pairs and answers with one numeric status. This crate holds the rules by
//! which such an answer becomes a typed result: the status `0` yields the
//! value the host placed in the output slot, any other status yields an
//! [`Errno`] that carries it, and a transfer never reports more elements than
//! the views handed to the host can hold.
//!
//! The crate performs no host call itself. Each operation takes the arguments
//! of the call it stands for, followed by what the host handed back, and
//! returns the result the caller may observe.

pub mod calls;
pub mod consts;
pub mod errno;
pub mod iovec;
pub mod outcome;
pub mod types;

pub use crate::calls::{
    clock_res_get, clock_time_get, fd_advise, fd_allocate, fd_close, fd_datasync, fd_fdstat_get,
    fd_fdstat_set_flags, fd_fdstat_set_rights, fd_filestat_get, fd_filestat_set_size,
    fd_filestat_set_times, fd_pread, fd_prestat_dir_name, fd_prestat_get, fd_pwrite, fd_read,
    fd_readdir, fd_renumber, fd_seek, fd_sync, fd_tell, fd_write, path_create_directory,
    path_filestat_get, path_filestat_set_times, path_link, path_open, path_readlink,
    path_remove_directory, path_rename, path_symlink, path_unlink_file, poll_capacity_suffices,
    poll_oneoff, proc_raise, random_get, sched_yield, sock_recv, sock_send, sock_shutdown,
};
pub use crate::errno::{
    success_sentinel_holds, Errno, Status, E2BIG, EACCES, EADDRINUSE, EADDRNOTAVAIL, EAFNOSUPPORT,
    EAGAIN, EALREADY, EBADF, EBADMSG, EBUSY, ECANCELED, ECHILD, ECONNABORTED, ECONNREFUSED,
    ECONNRESET, EDEADLK, EDESTADDRREQ, EDOM, EDQUOT, EEXIST, EFAULT, EFBIG, EHOSTUNREACH, EIDRM,
    EILSEQ, EINPROGRESS, EINTR, EINVAL, EIO, EISCONN, EISDIR, ELOOP, EMFILE, EMLINK, EMSGSIZE,
    EMULTIHOP, ENAMETOOLONG, ENETDOWN, ENETRESET, ENETUNREACH, ENFILE, ENOBUFS, ENODEV, ENOENT,
    ENOEXEC, ENOLCK, ENOLINK, ENOMEM, ENOMSG, ENOPROTOOPT, ENOSPC, ENOSYS, ENOTCAPABLE, ENOTCONN,
    ENOTDIR, ENOTEMPTY, ENOTRECOVERABLE, ENOTSOCK, ENOTSUP, ENOTTY, ENXIO, EOVERFLOW, EOWNERDEAD,
    EPERM, EPIPE, EPROTO, EPROTONOSUPPORT, EPROTOTYPE, ERANGE, EROFS, ESPIPE, ESRCH, ESTALE,
    ESUCCESS, ETIMEDOUT, ETXTBSY, EXDEV,
};
pub use crate::consts::{
    ADVICE_DONTNEED, ADVICE_NOREUSE, ADVICE_NORMAL, ADVICE_RANDOM, ADVICE_SEQUENTIAL,
    ADVICE_WILLNEED, CLOCK_MONOTONIC, CLOCK_PROCESS_CPUTIME_ID, CLOCK_REALTIME,
    CLOCK_THREAD_CPUTIME_ID, DIRCOOKIE_START, EVENTTYPE_CLOCK, EVENTTYPE_FD_READ,
    EVENTTYPE_FD_WRITE, EVENT_FD_READWRITE_HANGUP, FDFLAG_APPEND, FDFLAG_DSYNC, FDFLAG_NONBLOCK,
    FDFLAG_RSYNC, FDFLAG_SYNC, FILESTAT_SET_ATIM, FILESTAT_SET_ATIM_NOW, FILESTAT_SET_MTIM,
    FILESTAT_SET_MTIM_NOW, FILETYPE_BLOCK_DEVICE, FILETYPE_CHARACTER_DEVICE, FILETYPE_DIRECTORY,
    FILETYPE_REGULAR_FILE, FILETYPE_SOCKET_DGRAM, FILETYPE_SOCKET_STREAM, FILETYPE_SYMBOLIC_LINK,
    FILETYPE_UNKNOWN, LOOKUP_SYMLINK_FOLLOW, O_CREAT, O_DIRECTORY, O_EXCL, O_TRUNC,
    PREOPENTYPE_DIR, RIGHT_FD_ADVISE, RIGHT_FD_ALLOCATE, RIGHT_FD_DATASYNC,
    RIGHT_FD_FDSTAT_SET_FLAGS, RIGHT_FD_FILESTAT_GET, RIGHT_FD_FILESTAT_SET_SIZE,
    RIGHT_FD_FILESTAT_SET_TIMES, RIGHT_FD_READ, RIGHT_FD_READDIR, RIGHT_FD_SEEK, RIGHT_FD_SYNC,
    RIGHT_FD_TELL, RIGHT_FD_WRITE, RIGHT_PATH_CREATE_DIRECTORY, RIGHT_PATH_CREATE_FILE,
    RIGHT_PATH_FILESTAT_GET, RIGHT_PATH_FILESTAT_SET_SIZE, RIGHT_PATH_FILESTAT_SET_TIMES,
    RIGHT_PATH_LINK_SOURCE, RIGHT_PATH_LINK_TARGET, RIGHT_PATH_OPEN, RIGHT_PATH_READLINK,
    RIGHT_PATH_REMOVE_DIRECTORY, RIGHT_PATH_RENAME_SOURCE, RIGHT_PATH_RENAME_TARGET,
    RIGHT_PATH_SYMLINK, RIGHT_PATH_UNLINK_FILE, RIGHT_POLL_FD_READWRITE, RIGHT_SOCK_SHUTDOWN,
    SHUT_RD, SHUT_WR, SIGABRT, SIGALRM, SIGBUS, SIGCHLD, SIGCONT, SIGFPE, SIGHUP, SIGILL, SIGINT,
    SIGKILL, SIGPIPE, SIGPOLL, SIGPROF, SIGPWR, SIGQUIT, SIGSEGV, SIGSTOP, SIGSYS, SIGTERM,
    SIGTRAP, SIGTSTP, SIGTTIN, SIGTTOU, SIGURG, SIGUSR1, SIGUSR2, SIGVTALRM, SIGWINCH, SIGXCPU,
    SIGXFSZ, SOCK_RECV_DATA_TRUNCATED, SOCK_RECV_PEEK, SOCK_RECV_WAITALL,
    SUBSCRIPTION_CLOCK_ABSTIME, WHENCE_CUR, WHENCE_END, WHENCE_SET,
};
pub use crate::iovec::{within_capacity, CIoVec, Extent, IoVec};
pub use crate::outcome::{unit_result, value_result};
pub use crate::types::{
    Advice, ClockId, Device, DirCookie, Dirent, Event, EventFdReadwrite, EventRwFlags, EventType,
    ExitCode, Fd, FdFlags, FdStat, FileDelta, FileSize, FileStat, FileType, FstFlags, Inode,
    LinkCount, LookupFlags, OFlags, PreopenType, Prestat, PrestatDir, RiFlags, Rights, RoFlags,
    SdFlags, SiFlags, Signal, SubclockFlags, Subscription, SubscriptionClock,
    SubscriptionFdReadwrite, SubscriptionU, Timestamp, Userdata, Whence,
};
