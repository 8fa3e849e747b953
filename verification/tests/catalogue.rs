//! The catalogue of constants: every name has the value the ABI fixes.

use wasi_unstable::{
    ADVICE_DONTNEED, ADVICE_NOREUSE, ADVICE_NORMAL, ADVICE_RANDOM, ADVICE_SEQUENTIAL,
    ADVICE_WILLNEED, CLOCK_MONOTONIC, CLOCK_PROCESS_CPUTIME_ID, CLOCK_REALTIME,
    CLOCK_THREAD_CPUTIME_ID, DIRCOOKIE_START, E2BIG, EACCES, EADDRINUSE, EADDRNOTAVAIL,
    EAFNOSUPPORT, EAGAIN, EALREADY, EBADF, EBADMSG, EBUSY, ECANCELED, ECHILD, ECONNABORTED,
    ECONNREFUSED, ECONNRESET, EDEADLK, EDESTADDRREQ, EDOM, EDQUOT, EEXIST, EFAULT, EFBIG,
    EHOSTUNREACH, EIDRM, EILSEQ, EINPROGRESS, EINTR, EINVAL, EIO, EISCONN, EISDIR, ELOOP, EMFILE,
    EMLINK, EMSGSIZE, EMULTIHOP, ENAMETOOLONG, ENETDOWN, ENETRESET, ENETUNREACH, ENFILE, ENOBUFS,
    ENODEV, ENOENT, ENOEXEC, ENOLCK, ENOLINK, ENOMEM, ENOMSG, ENOPROTOOPT, ENOSPC, ENOSYS,
    ENOTCAPABLE, ENOTCONN, ENOTDIR, ENOTEMPTY, ENOTRECOVERABLE, ENOTSOCK, ENOTSUP, ENOTTY, ENXIO,
    EOVERFLOW, EOWNERDEAD, EPERM, EPIPE, EPROTO, EPROTONOSUPPORT, EPROTOTYPE, ERANGE, EROFS,
    ESPIPE, ESRCH, ESTALE, ESUCCESS, ETIMEDOUT, ETXTBSY, EVENTTYPE_CLOCK, EVENTTYPE_FD_READ,
    EVENTTYPE_FD_WRITE, EVENT_FD_READWRITE_HANGUP, EXDEV, FDFLAG_APPEND, FDFLAG_DSYNC,
    FDFLAG_NONBLOCK, FDFLAG_RSYNC, FDFLAG_SYNC, FILESTAT_SET_ATIM, FILESTAT_SET_ATIM_NOW,
    FILESTAT_SET_MTIM, FILESTAT_SET_MTIM_NOW, FILETYPE_BLOCK_DEVICE, FILETYPE_CHARACTER_DEVICE,
    FILETYPE_DIRECTORY, FILETYPE_REGULAR_FILE, FILETYPE_SOCKET_DGRAM, FILETYPE_SOCKET_STREAM,
    FILETYPE_SYMBOLIC_LINK, FILETYPE_UNKNOWN, LOOKUP_SYMLINK_FOLLOW, O_CREAT, O_DIRECTORY, O_EXCL,
    O_TRUNC, PREOPENTYPE_DIR, RIGHT_FD_ADVISE, RIGHT_FD_ALLOCATE, RIGHT_FD_DATASYNC,
    RIGHT_FD_FDSTAT_SET_FLAGS, RIGHT_FD_FILESTAT_GET, RIGHT_FD_FILESTAT_SET_SIZE,
    RIGHT_FD_FILESTAT_SET_TIMES, RIGHT_FD_READ, RIGHT_FD_READDIR, RIGHT_FD_SEEK, RIGHT_FD_SYNC,
    RIGHT_FD_TELL, RIGHT_FD_WRITE, RIGHT_PATH_CREATE_DIRECTORY, RIGHT_PATH_CREATE_FILE,
    RIGHT_PATH_FILESTAT_GET, RIGHT_PATH_FILESTAT_SET_SIZE, RIGHT_PATH_FILESTAT_SET_TIMES,
    RIGHT_PATH_LINK_SOURCE, RIGHT_PATH_LINK_TARGET, RIGHT_PATH_OPEN, RIGHT_PATH_READLINK,
    RIGHT_PATH_REMOVE_DIRECTORY, RIGHT_PATH_RENAME_SOURCE, RIGHT_PATH_RENAME_TARGET,
    RIGHT_PATH_SYMLINK, RIGHT_PATH_UNLINK_FILE, RIGHT_POLL_FD_READWRITE, RIGHT_SOCK_SHUTDOWN,
    SHUT_RD, SHUT_WR, SIGABRT, SIGALRM, SIGBUS, SIGCHLD, SIGCONT, SIGFPE, SIGHUP, SIGILL, SIGINT,
    SIGKILL, SIGPIPE, SIGPOLL, SIGPROF, SIGPWR, SIGQUIT, SIGSEGV, SIGSTOP, SIGSYS, SIGTERM,
    SIGTRAP, SIGTSTP, SIGTTIN, SIGTTOU, SIGURG, SIGUSR1, SIGUSR2, SIGVTALRM, SIGWINCH, SIGXCPU,
    SIGXFSZ, SOCK_RECV_DATA_TRUNCATED, SOCK_RECV_PEEK, SOCK_RECV_WAITALL,
    SUBSCRIPTION_CLOCK_ABSTIME, WHENCE_CUR, WHENCE_END, WHENCE_SET, fd_fdstat_get,
    fd_fdstat_set_rights, path_open, Errno, FdStat, Rights,
};

#[test]
fn advice_values() {
    assert_eq!(ADVICE_NORMAL, 0u8);
    assert_eq!(ADVICE_SEQUENTIAL, 1u8);
    assert_eq!(ADVICE_RANDOM, 2u8);
    assert_eq!(ADVICE_WILLNEED, 3u8);
    assert_eq!(ADVICE_DONTNEED, 4u8);
    assert_eq!(ADVICE_NOREUSE, 5u8);
}

#[test]
fn clock_values() {
    assert_eq!(CLOCK_REALTIME, 0u32);
    assert_eq!(CLOCK_MONOTONIC, 1u32);
    assert_eq!(CLOCK_PROCESS_CPUTIME_ID, 2u32);
    assert_eq!(CLOCK_THREAD_CPUTIME_ID, 3u32);
}

#[test]
fn dircookie_values() {
    assert_eq!(DIRCOOKIE_START, 0u64);
}

#[test]
fn event_rw_flag_values() {
    assert_eq!(EVENT_FD_READWRITE_HANGUP, 1u16);
}

#[test]
fn event_type_values() {
    assert_eq!(EVENTTYPE_CLOCK, 0u8);
    assert_eq!(EVENTTYPE_FD_READ, 1u8);
    assert_eq!(EVENTTYPE_FD_WRITE, 2u8);
}

#[test]
fn fd_flag_values() {
    assert_eq!(FDFLAG_APPEND, 1u16);
    assert_eq!(FDFLAG_DSYNC, 2u16);
    assert_eq!(FDFLAG_NONBLOCK, 4u16);
    assert_eq!(FDFLAG_RSYNC, 8u16);
    assert_eq!(FDFLAG_SYNC, 16u16);
}

#[test]
fn file_type_values() {
    assert_eq!(FILETYPE_UNKNOWN, 0u8);
    assert_eq!(FILETYPE_BLOCK_DEVICE, 1u8);
    assert_eq!(FILETYPE_CHARACTER_DEVICE, 2u8);
    assert_eq!(FILETYPE_DIRECTORY, 3u8);
    assert_eq!(FILETYPE_REGULAR_FILE, 4u8);
    assert_eq!(FILETYPE_SOCKET_DGRAM, 5u8);
    assert_eq!(FILETYPE_SOCKET_STREAM, 6u8);
    assert_eq!(FILETYPE_SYMBOLIC_LINK, 7u8);
}

#[test]
fn fst_flag_values() {
    assert_eq!(FILESTAT_SET_ATIM, 1u16);
    assert_eq!(FILESTAT_SET_ATIM_NOW, 2u16);
    assert_eq!(FILESTAT_SET_MTIM, 4u16);
    assert_eq!(FILESTAT_SET_MTIM_NOW, 8u16);
}

#[test]
fn lookup_flag_values() {
    assert_eq!(LOOKUP_SYMLINK_FOLLOW, 1u32);
}

#[test]
fn open_flag_values() {
    assert_eq!(O_CREAT, 1u16);
    assert_eq!(O_DIRECTORY, 2u16);
    assert_eq!(O_EXCL, 4u16);
    assert_eq!(O_TRUNC, 8u16);
}

#[test]
fn preopen_type_values() {
    assert_eq!(PREOPENTYPE_DIR, 0u8);
}

#[test]
fn ri_flag_values() {
    assert_eq!(SOCK_RECV_PEEK, 1u16);
    assert_eq!(SOCK_RECV_WAITALL, 2u16);
}

#[test]
fn rights_values() {
    assert_eq!(RIGHT_FD_DATASYNC, 1u64 << 0);
    assert_eq!(RIGHT_FD_READ, 1u64 << 1);
    assert_eq!(RIGHT_FD_SEEK, 1u64 << 2);
    assert_eq!(RIGHT_FD_FDSTAT_SET_FLAGS, 1u64 << 3);
    assert_eq!(RIGHT_FD_SYNC, 1u64 << 4);
    assert_eq!(RIGHT_FD_TELL, 1u64 << 5);
    assert_eq!(RIGHT_FD_WRITE, 1u64 << 6);
    assert_eq!(RIGHT_FD_ADVISE, 1u64 << 7);
    assert_eq!(RIGHT_FD_ALLOCATE, 1u64 << 8);
    assert_eq!(RIGHT_PATH_CREATE_DIRECTORY, 1u64 << 9);
    assert_eq!(RIGHT_PATH_CREATE_FILE, 1u64 << 10);
    assert_eq!(RIGHT_PATH_LINK_SOURCE, 1u64 << 11);
    assert_eq!(RIGHT_PATH_LINK_TARGET, 1u64 << 12);
    assert_eq!(RIGHT_PATH_OPEN, 1u64 << 13);
    assert_eq!(RIGHT_FD_READDIR, 1u64 << 14);
    assert_eq!(RIGHT_PATH_READLINK, 1u64 << 15);
    assert_eq!(RIGHT_PATH_RENAME_SOURCE, 1u64 << 16);
    assert_eq!(RIGHT_PATH_RENAME_TARGET, 1u64 << 17);
    assert_eq!(RIGHT_PATH_FILESTAT_GET, 1u64 << 18);
    assert_eq!(RIGHT_PATH_FILESTAT_SET_SIZE, 1u64 << 19);
    assert_eq!(RIGHT_PATH_FILESTAT_SET_TIMES, 1u64 << 20);
    assert_eq!(RIGHT_FD_FILESTAT_GET, 1u64 << 21);
    assert_eq!(RIGHT_FD_FILESTAT_SET_SIZE, 1u64 << 22);
    assert_eq!(RIGHT_FD_FILESTAT_SET_TIMES, 1u64 << 23);
    assert_eq!(RIGHT_PATH_SYMLINK, 1u64 << 24);
    assert_eq!(RIGHT_PATH_REMOVE_DIRECTORY, 1u64 << 25);
    assert_eq!(RIGHT_PATH_UNLINK_FILE, 1u64 << 26);
    assert_eq!(RIGHT_POLL_FD_READWRITE, 1u64 << 27);
    assert_eq!(RIGHT_SOCK_SHUTDOWN, 1u64 << 28);
}

#[test]
fn ro_flag_values() {
    assert_eq!(SOCK_RECV_DATA_TRUNCATED, 1u16);
}

#[test]
fn sd_flag_values() {
    assert_eq!(SHUT_RD, 1u8);
    assert_eq!(SHUT_WR, 2u8);
}

#[test]
fn signal_values() {
    assert_eq!(SIGHUP, 1u8);
    assert_eq!(SIGINT, 2u8);
    assert_eq!(SIGQUIT, 3u8);
    assert_eq!(SIGILL, 4u8);
    assert_eq!(SIGTRAP, 5u8);
    assert_eq!(SIGABRT, 6u8);
    assert_eq!(SIGBUS, 7u8);
    assert_eq!(SIGFPE, 8u8);
    assert_eq!(SIGKILL, 9u8);
    assert_eq!(SIGUSR1, 10u8);
    assert_eq!(SIGSEGV, 11u8);
    assert_eq!(SIGUSR2, 12u8);
    assert_eq!(SIGPIPE, 13u8);
    assert_eq!(SIGALRM, 14u8);
    assert_eq!(SIGTERM, 15u8);
    assert_eq!(SIGCHLD, 16u8);
    assert_eq!(SIGCONT, 17u8);
    assert_eq!(SIGSTOP, 18u8);
    assert_eq!(SIGTSTP, 19u8);
    assert_eq!(SIGTTIN, 20u8);
    assert_eq!(SIGTTOU, 21u8);
    assert_eq!(SIGURG, 22u8);
    assert_eq!(SIGXCPU, 23u8);
    assert_eq!(SIGXFSZ, 24u8);
    assert_eq!(SIGVTALRM, 25u8);
    assert_eq!(SIGPROF, 26u8);
    assert_eq!(SIGWINCH, 27u8);
    assert_eq!(SIGPOLL, 28u8);
    assert_eq!(SIGPWR, 29u8);
    assert_eq!(SIGSYS, 30u8);
}

#[test]
fn subclock_flag_values() {
    assert_eq!(SUBSCRIPTION_CLOCK_ABSTIME, 1u16);
}

#[test]
fn whence_values() {
    assert_eq!(WHENCE_CUR, 0u8);
    assert_eq!(WHENCE_END, 1u8);
    assert_eq!(WHENCE_SET, 2u8);
}

#[test]
fn errno_values() {
    let catalogue: [u16; 76] = [
        E2BIG, EACCES, EADDRINUSE, EADDRNOTAVAIL, EAFNOSUPPORT, EAGAIN, EALREADY, EBADF,
        EBADMSG, EBUSY, ECANCELED, ECHILD, ECONNABORTED, ECONNREFUSED, ECONNRESET, EDEADLK,
        EDESTADDRREQ, EDOM, EDQUOT, EEXIST, EFAULT, EFBIG, EHOSTUNREACH, EIDRM, EILSEQ,
        EINPROGRESS, EINTR, EINVAL, EIO, EISCONN, EISDIR, ELOOP, EMFILE, EMLINK, EMSGSIZE,
        EMULTIHOP, ENAMETOOLONG, ENETDOWN, ENETRESET, ENETUNREACH, ENFILE, ENOBUFS, ENODEV, ENOENT,
        ENOEXEC, ENOLCK, ENOLINK, ENOMEM, ENOMSG, ENOPROTOOPT, ENOSPC, ENOSYS, ENOTCONN, ENOTDIR,
        ENOTEMPTY, ENOTRECOVERABLE, ENOTSOCK, ENOTSUP, ENOTTY, ENXIO, EOVERFLOW, EOWNERDEAD, EPERM,
        EPIPE, EPROTO, EPROTONOSUPPORT, EPROTOTYPE, ERANGE, EROFS, ESPIPE, ESRCH, ESTALE,
        ETIMEDOUT, ETXTBSY, EXDEV, ENOTCAPABLE,
    ];
    for (i, code) in catalogue.iter().enumerate() {
        assert_eq!(usize::from(*code), i + 1);
        assert_eq!(Errno::new(*code).map(|e| e.get()), Some(*code));
    }
    assert_eq!(E2BIG, 1);
    assert_eq!(EBADF, 8);
    assert_eq!(EINVAL, 28);
    assert_eq!(EIO, 29);
    assert_eq!(ENOENT, 44);
    assert_eq!(ENOSYS, 52);
    assert_eq!(EPERM, 63);
    assert_eq!(EXDEV, 75);
    assert_eq!(ENOTCAPABLE, 76);
}

const ALL_RIGHTS: [Rights; 29] = [
    RIGHT_FD_DATASYNC, RIGHT_FD_READ, RIGHT_FD_SEEK, RIGHT_FD_FDSTAT_SET_FLAGS, RIGHT_FD_SYNC,
    RIGHT_FD_TELL, RIGHT_FD_WRITE, RIGHT_FD_ADVISE, RIGHT_FD_ALLOCATE, RIGHT_PATH_CREATE_DIRECTORY,
    RIGHT_PATH_CREATE_FILE, RIGHT_PATH_LINK_SOURCE, RIGHT_PATH_LINK_TARGET, RIGHT_PATH_OPEN,
    RIGHT_FD_READDIR, RIGHT_PATH_READLINK, RIGHT_PATH_RENAME_SOURCE, RIGHT_PATH_RENAME_TARGET,
    RIGHT_PATH_FILESTAT_GET, RIGHT_PATH_FILESTAT_SET_SIZE, RIGHT_PATH_FILESTAT_SET_TIMES,
    RIGHT_FD_FILESTAT_GET, RIGHT_FD_FILESTAT_SET_SIZE, RIGHT_FD_FILESTAT_SET_TIMES,
    RIGHT_PATH_SYMLINK, RIGHT_PATH_REMOVE_DIRECTORY, RIGHT_PATH_UNLINK_FILE,
    RIGHT_POLL_FD_READWRITE, RIGHT_SOCK_SHUTDOWN,
];

#[test]
fn rights_are_distinct_single_bits() {
    let mut seen: Rights = 0;
    for right in ALL_RIGHTS {
        assert_eq!(right.count_ones(), 1);
        assert_eq!(seen & right, 0);
        seen |= right;
    }
    assert_eq!(seen, 0x1fff_ffff);
}

#[test]
fn rights_read_back_bit_for_bit() {
    let patterns: [Rights; 6] = [
        0,
        RIGHT_FD_READ | RIGHT_FD_WRITE,
        RIGHT_PATH_OPEN | RIGHT_FD_READDIR | RIGHT_SOCK_SHUTDOWN,
        0x1fff_ffff,
        0x8000_0000_0000_0001,
        u64::MAX,
    ];
    for base in patterns {
        for inheriting in patterns {
            let stored = FdStat {
                fs_filetype: FILETYPE_REGULAR_FILE,
                fs_flags: FDFLAG_APPEND,
                fs_rights_base: base,
                fs_rights_inheriting: inheriting,
            };
            let read = fd_fdstat_get(3, ESUCCESS, stored).unwrap();
            assert_eq!(read.fs_rights_base, base);
            assert_eq!(read.fs_rights_inheriting, inheriting);
            assert_eq!(read, stored);
        }
    }
}

#[test]
fn each_right_reads_back_alone() {
    for right in ALL_RIGHTS {
        let stored = FdStat {
            fs_filetype: FILETYPE_DIRECTORY,
            fs_flags: 0,
            fs_rights_base: right,
            fs_rights_inheriting: !right,
        };
        let read = fd_fdstat_get(4, ESUCCESS, stored).unwrap();
        assert_eq!(read.fs_rights_base, right);
        assert_eq!(read.fs_rights_inheriting, !right);
    }
}

#[test]
fn rights_go_to_the_host_as_given() {
    let base = RIGHT_FD_READ | RIGHT_FD_SEEK;
    let inheriting = RIGHT_FD_READ;
    assert_eq!(fd_fdstat_set_rights(3, base, inheriting, ESUCCESS), Ok(()));
    assert_eq!(
        fd_fdstat_set_rights(3, base, inheriting, ENOTCAPABLE).map_err(|e| e.get()),
        Err(76)
    );
    assert_eq!(
        path_open(3, LOOKUP_SYMLINK_FOLLOW, b"a", O_CREAT, base, inheriting, 0, ESUCCESS, 5),
        Ok(5)
    );
}
