//! The data model of the resolver: the closed set of error codes, the
//! platform profile that selects among competing canonical strings, and the
//! normalization of alias codes to their canonical representative.

use vstd::prelude::*;

verus! {

/// The C library flavor the resolver is configured for. A few codes have
/// competing canonical strings; the flavor picks one.
#[derive(Clone, Copy, Debug, PartialEq, Eq, Structural)]
pub enum LibcFlavor {
    /// GNU-flavored C library wording.
    Gnu,
    /// musl-flavored C library wording.
    Musl,
    /// Any other flavor: the POSIX-specified wording is used verbatim.
    Other,
}

/// The platform the resolver is configured for, fixed at configuration time.
///
/// The two fields are orthogonal: the flavor selects among competing strings,
/// while the WASI flag removes the STREAM-related codes (which WASI does not
/// define) and admits the WASI-only capability code.
#[derive(Clone, Copy, Debug, PartialEq, Eq, Structural)]
pub struct PlatformProfile {
    /// Which C library's wording to match where flavors disagree.
    pub flavor: LibcFlavor,
    /// Whether the target is WASI.
    pub wasi: bool,
}

impl PlatformProfile {
    /// Builds a profile from its two orthogonal components.
    pub fn new(flavor: LibcFlavor, wasi: bool) -> (r: PlatformProfile)
        ensures
            r.flavor == flavor,
            r.wasi == wasi,
    {
        PlatformProfile { flavor, wasi }
    }
}

/// The closed, platform-defined set of error codes the resolver knows:
/// the POSIX error numbers, the WASI-only capability code, and the two
/// documented alias codes that share a string with another code.
#[derive(Clone, Copy, Debug, PartialEq, Eq, Structural)]
pub enum ErrorCode {
    /// Argument list too long (`E2BIG`).
    TooBig,
    /// Permission denied (`EACCES`).
    Access,
    /// Address in use (`EADDRINUSE`).
    AddrInUse,
    /// Address not available (`EADDRNOTAVAIL`).
    AddrNotAvail,
    /// Address family not supported (`EAFNOSUPPORT`).
    AfNoSupport,
    /// Resource unavailable, try again (`EAGAIN`).
    Again,
    /// Connection already in progress (`EALREADY`).
    Already,
    /// Bad file descriptor (`EBADF`).
    BadF,
    /// Bad message (`EBADMSG`).
    BadMsg,
    /// Device or resource busy (`EBUSY`).
    Busy,
    /// Operation canceled (`ECANCELED`).
    Canceled,
    /// No child processes (`ECHILD`).
    Child,
    /// Connection aborted (`ECONNABORTED`).
    ConnAborted,
    /// Connection refused (`ECONNREFUSED`).
    ConnRefused,
    /// Connection reset (`ECONNRESET`).
    ConnReset,
    /// Resource deadlock would occur (`EDEADLK`).
    DeadLk,
    /// Destination address required (`EDESTADDRREQ`).
    DestAddrReq,
    /// Mathematics argument out of domain of function (`EDOM`).
    Dom,
    /// Reserved (`EDQUOT`).
    DQuot,
    /// File exists (`EEXIST`).
    Exist,
    /// Bad address (`EFAULT`).
    Fault,
    /// File too large (`EFBIG`).
    FBig,
    /// Host is unreachable (`EHOSTUNREACH`).
    HostUnreach,
    /// Identifier removed (`EIDRM`).
    IdRm,
    /// Invalid byte sequence (`EILSEQ`).
    IlSeq,
    /// Operation in progress (`EINPROGRESS`).
    InProgress,
    /// Interrupted function (`EINTR`).
    Intr,
    /// Invalid argument (`EINVAL`).
    Inval,
    /// I/O error (`EIO`).
    Io,
    /// Socket is connected (`EISCONN`).
    IsConn,
    /// Is a directory (`EISDIR`).
    IsDir,
    /// Too many levels of symbolic links (`ELOOP`).
    Loop,
    /// File descriptor value too large (`EMFILE`).
    MFile,
    /// Too many links (`EMLINK`).
    MLink,
    /// Message too large (`EMSGSIZE`).
    MsgSize,
    /// Reserved (`EMULTIHOP`).
    MultiHop,
    /// Filename too long (`ENAMETOOLONG`).
    NameTooLong,
    /// Network is down (`ENETDOWN`).
    NetDown,
    /// Connection aborted by network (`ENETRESET`).
    NetReset,
    /// Network unreachable (`ENETUNREACH`).
    NetUnreach,
    /// Too many files open in system (`ENFILE`).
    NFile,
    /// No buffer space available (`ENOBUFS`).
    NoBufs,
    /// No message is available on the STREAM head read queue (`ENODATA`);
    /// not defined on WASI.
    NoData,
    /// No such device (`ENODEV`).
    NoDev,
    /// No such file or directory (`ENOENT`).
    NoEnt,
    /// Executable file format error (`ENOEXEC`).
    NoExec,
    /// No locks available (`ENOLCK`).
    NoLck,
    /// Reserved (`ENOLINK`).
    NoLink,
    /// Out of memory (`ENOMEM`); the wording depends on the flavor.
    NoMem,
    /// No message of the desired type (`ENOMSG`).
    NoMsg,
    /// Protocol not available (`ENOPROTOOPT`).
    NoProtoOpt,
    /// No space left on device (`ENOSPC`).
    NoSpc,
    /// No STREAM resources (`ENOSR`); not defined on WASI.
    NoSr,
    /// Not a STREAM (`ENOSTR`); not defined on WASI.
    NoStr,
    /// Functionality not supported (`ENOSYS`).
    NoSys,
    /// The socket is not connected (`ENOTCONN`).
    NotConn,
    /// Not a directory (`ENOTDIR`).
    NotDir,
    /// Directory not empty (`ENOTEMPTY`).
    NotEmpty,
    /// State not recoverable (`ENOTRECOVERABLE`).
    NotRecoverable,
    /// Not a socket (`ENOTSOCK`).
    NotSock,
    /// Not supported (`ENOTSUP`).
    NotSup,
    /// Inappropriate I/O control operation (`ENOTTY`).
    NoTty,
    /// No such device or address (`ENXIO`).
    NxIo,
    /// Operation not supported on socket (`EOPNOTSUPP`): a documented alias
    /// of [`ErrorCode::NotSup`], resolved to the same string.
    OpNotSupp,
    /// Value too large to be stored in data type (`EOVERFLOW`).
    Overflow,
    /// Previous owner died (`EOWNERDEAD`).
    OwnerDead,
    /// Operation not permitted (`EPERM`).
    Perm,
    /// Broken pipe (`EPIPE`).
    Pipe,
    /// Protocol error (`EPROTO`).
    Proto,
    /// Protocol not supported (`EPROTONOSUPPORT`).
    ProtoNoSupport,
    /// Protocol wrong type for socket (`EPROTOTYPE`).
    ProtoType,
    /// Result too large (`ERANGE`).
    Range,
    /// Read-only file system (`EROFS`).
    RoFs,
    /// Invalid seek (`ESPIPE`).
    SPipe,
    /// No such process (`ESRCH`).
    Srch,
    /// Reserved (`ESTALE`).
    Stale,
    /// Stream ioctl() timeout (`ETIME`); not defined on WASI.
    Time,
    /// Connection timed out (`ETIMEDOUT`).
    TimedOut,
    /// Text file busy (`ETXTBSY`).
    TxtBsy,
    /// Operation would block (`EWOULDBLOCK`): a documented alias of
    /// [`ErrorCode::Again`], resolved to the same string.
    WouldBlock,
    /// Capabilities insufficient (`ENOTCAPABLE`); defined only on WASI.
    NotCapable,
    /// Cross-device link (`EXDEV`).
    XDev,
}

/// The canonical representative of a code: alias codes map to the code whose
/// string they share, every other code to itself.
pub open spec fn spec_canonical(code: ErrorCode) -> ErrorCode {
    match code {
        ErrorCode::OpNotSupp => ErrorCode::NotSup,
        ErrorCode::WouldBlock => ErrorCode::Again,
        _ => code,
    }
}

/// Normalizes an alias code to its canonical representative, so that callers
/// who key their own tables by code can pre-normalize before lookup.
pub fn canonicalize(code: ErrorCode) -> (r: ErrorCode)
    ensures
        r == spec_canonical(code),
{
    match code {
        ErrorCode::OpNotSupp => ErrorCode::NotSup,
        ErrorCode::WouldBlock => ErrorCode::Again,
        _ => code,
    }
}

} // verus!
