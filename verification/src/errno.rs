//! The status code of the ABI and the error type made from it.

use vstd::prelude::*;

verus! {

/// The numeric status that every raw entry point returns.
pub type Status = u16;

/// The one status that reports success.
pub const ESUCCESS: Status = 0;

/// A status that reports failure: any status but [`ESUCCESS`].
///
/// The code is private and guarded by a type invariant, so no executable
/// value of this type holds the success status.
#[derive(Clone, Copy, Debug, PartialEq, Eq, Hash, Structural)]
pub struct Errno {
    code: Status,
}

impl Errno {
    #[verifier::type_invariant]
    spec fn is_failure(self) -> bool {
        self.code != ESUCCESS
    }

    /// The status this error carries.
    pub closed spec fn code(self) -> Status {
        self.code
    }

    /// The error that carries `code`.
    pub closed spec fn with_code(code: Status) -> Errno {
        Errno { code }
    }

    /// The failure a status reports: none for the success status, the error
    /// that carries it for any other.
    pub open spec fn of_status(status: Status) -> Option<Errno> {
        if status == ESUCCESS {
            None
        } else {
            Some(Errno::with_code(status))
        }
    }

    /// Classifies a status: `None` for success, the error that carries it otherwise.
    pub fn new(status: Status) -> (r: Option<Errno>)
        ensures
            r == Errno::of_status(status),
    {
        if status == ESUCCESS {
            None
        } else {
            Some(Errno { code: status })
        }
    }

    /// The status this error carries; never the success status.
    pub fn get(self) -> (code: Status)
        ensures
            code == self.code(),
            code != ESUCCESS,
    {
        proof {
            use_type_invariant(&self);
        }
        self.code
    }
}

// The failure statuses that the ABI names.
pub const E2BIG: Status = 1;

pub const EACCES: Status = 2;

pub const EADDRINUSE: Status = 3;

pub const EADDRNOTAVAIL: Status = 4;

pub const EAFNOSUPPORT: Status = 5;

pub const EAGAIN: Status = 6;

pub const EALREADY: Status = 7;

pub const EBADF: Status = 8;

pub const EBADMSG: Status = 9;

pub const EBUSY: Status = 10;

pub const ECANCELED: Status = 11;

pub const ECHILD: Status = 12;

pub const ECONNABORTED: Status = 13;

pub const ECONNREFUSED: Status = 14;

pub const ECONNRESET: Status = 15;

pub const EDEADLK: Status = 16;

pub const EDESTADDRREQ: Status = 17;

pub const EDOM: Status = 18;

pub const EDQUOT: Status = 19;

pub const EEXIST: Status = 20;

pub const EFAULT: Status = 21;

pub const EFBIG: Status = 22;

pub const EHOSTUNREACH: Status = 23;

pub const EIDRM: Status = 24;

pub const EILSEQ: Status = 25;

pub const EINPROGRESS: Status = 26;

pub const EINTR: Status = 27;

pub const EINVAL: Status = 28;

pub const EIO: Status = 29;

pub const EISCONN: Status = 30;

pub const EISDIR: Status = 31;

pub const ELOOP: Status = 32;

pub const EMFILE: Status = 33;

pub const EMLINK: Status = 34;

pub const EMSGSIZE: Status = 35;

pub const EMULTIHOP: Status = 36;

pub const ENAMETOOLONG: Status = 37;

pub const ENETDOWN: Status = 38;

pub const ENETRESET: Status = 39;

pub const ENETUNREACH: Status = 40;

pub const ENFILE: Status = 41;

pub const ENOBUFS: Status = 42;

pub const ENODEV: Status = 43;

pub const ENOENT: Status = 44;

pub const ENOEXEC: Status = 45;

pub const ENOLCK: Status = 46;

pub const ENOLINK: Status = 47;

pub const ENOMEM: Status = 48;

pub const ENOMSG: Status = 49;

pub const ENOPROTOOPT: Status = 50;

pub const ENOSPC: Status = 51;

pub const ENOSYS: Status = 52;

pub const ENOTCONN: Status = 53;

pub const ENOTDIR: Status = 54;

pub const ENOTEMPTY: Status = 55;

pub const ENOTRECOVERABLE: Status = 56;

pub const ENOTSOCK: Status = 57;

pub const ENOTSUP: Status = 58;

pub const ENOTTY: Status = 59;

pub const ENXIO: Status = 60;

pub const EOVERFLOW: Status = 61;

pub const EOWNERDEAD: Status = 62;

pub const EPERM: Status = 63;

pub const EPIPE: Status = 64;

pub const EPROTO: Status = 65;

pub const EPROTONOSUPPORT: Status = 66;

pub const EPROTOTYPE: Status = 67;

pub const ERANGE: Status = 68;

pub const EROFS: Status = 69;

pub const ESPIPE: Status = 70;

pub const ESRCH: Status = 71;

pub const ESTALE: Status = 72;

pub const ETIMEDOUT: Status = 73;

pub const ETXTBSY: Status = 74;

pub const EXDEV: Status = 75;

pub const ENOTCAPABLE: Status = 76;

/// Whether a catalogue of statuses whose success status is `success` agrees
/// with this layer, whose error type cannot hold the status zero. Whoever
/// binds the layer to a host checks this once, before the first call, and
/// goes no further if it fails.
pub fn success_sentinel_holds(success: Status) -> (holds: bool)
    ensures
        holds == (success == 0),
{
    success == ESUCCESS
}

/// An error is determined by the status it carries.
pub proof fn lemma_errno_code(code: Status, e: Errno)
    ensures
        Errno::with_code(code).code() == code,
        Errno::with_code(e.code()) == e,
{
}

/// The success status is zero, the value the error type cannot hold.
pub proof fn lemma_success_is_zero()
    ensures
        ESUCCESS == 0,
        forall|status: Status| status == 0 <==> Errno::of_status(status) is None,
{
}

} // verus!
