//! The resolver itself: a pure, exhaustive dispatch from an error code and
//! the active platform profile to the canonical diagnostic string.
//!
//! The mapping follows the strings documented by POSIX for `errno.h`, with
//! three profile-sensitive points: the out-of-memory wording differs between
//! C library flavors, the STREAM-related codes are undefined on WASI, and the
//! capability code exists only on WASI. Alias codes are given their own rows
//! with the shared string, so plain table lookup (no hidden pre-normalization)
//! is the aliasing mechanism; [`crate::platform::canonicalize`] is offered to
//! callers who prefer to normalize first.

use vstd::prelude::*;

use crate::platform::{spec_canonical, ErrorCode, LibcFlavor, PlatformProfile};

verus! {

/// The canonical message for a code under a profile, as a mathematical map:
/// `Some` of the exact character sequence the platform's C library documents,
/// or `None` where the profile does not define the code.
pub open spec fn spec_message(code: ErrorCode, profile: PlatformProfile) -> Option<Seq<char>> {
    match code {
        ErrorCode::TooBig => Some("Argument list too long"@),
        ErrorCode::Access => Some("Permission denied"@),
        ErrorCode::AddrInUse => Some("Address in use"@),
        ErrorCode::AddrNotAvail => Some("Address not available"@),
        ErrorCode::AfNoSupport => Some("Address family not supported"@),
        ErrorCode::Again | ErrorCode::WouldBlock => Some("Resource unavailable, try again"@),
        ErrorCode::Already => Some("Connection already in progress"@),
        ErrorCode::BadF => Some("Bad file descriptor"@),
        ErrorCode::BadMsg => Some("Bad message"@),
        ErrorCode::Busy => Some("Device or resource busy"@),
        ErrorCode::Canceled => Some("Operation canceled"@),
        ErrorCode::Child => Some("No child processes"@),
        ErrorCode::ConnAborted => Some("Connection aborted"@),
        ErrorCode::ConnRefused => Some("Connection refused"@),
        ErrorCode::ConnReset => Some("Connection reset"@),
        ErrorCode::DeadLk => Some("Resource deadlock would occur"@),
        ErrorCode::DestAddrReq => Some("Destination address required"@),
        ErrorCode::Dom => Some("Mathematics argument out of domain of function"@),
        ErrorCode::DQuot => Some("Reserved"@),
        ErrorCode::Exist => Some("File exists"@),
        ErrorCode::Fault => Some("Bad address"@),
        ErrorCode::FBig => Some("File too large"@),
        ErrorCode::HostUnreach => Some("Host is unreachable"@),
        ErrorCode::IdRm => Some("Identifier removed"@),
        ErrorCode::IlSeq => Some("Invalid byte sequence"@),
        ErrorCode::InProgress => Some("Operation in progress"@),
        ErrorCode::Intr => Some("Interrupted function"@),
        ErrorCode::Inval => Some("Invalid argument"@),
        ErrorCode::Io => Some("I/O error"@),
        ErrorCode::IsConn => Some("Socket is connected"@),
        ErrorCode::IsDir => Some("Is a directory"@),
        ErrorCode::Loop => Some("Too many levels of symbolic links"@),
        ErrorCode::MFile => Some("File descriptor value too large"@),
        ErrorCode::MLink => Some("Too many links"@),
        ErrorCode::MsgSize => Some("Message too large"@),
        ErrorCode::MultiHop => Some("Reserved"@),
        ErrorCode::NameTooLong => Some("Filename too long"@),
        ErrorCode::NetDown => Some("Network is down"@),
        ErrorCode::NetReset => Some("Connection aborted by network"@),
        ErrorCode::NetUnreach => Some("Network unreachable"@),
        ErrorCode::NFile => Some("Too many files open in system"@),
        ErrorCode::NoBufs => Some("No buffer space available"@),
        ErrorCode::NoData => if profile.wasi {
            None
        } else {
            Some("No message is available on the STREAM head read queue"@)
        },
        ErrorCode::NoDev => Some("No such device"@),
        ErrorCode::NoEnt => Some("No such file or directory"@),
        ErrorCode::NoExec => Some("Executable file format error"@),
        ErrorCode::NoLck => Some("No locks available"@),
        ErrorCode::NoLink => Some("Reserved"@),
        // Compatibility test suites compare this string literally, so the
        // wording follows the configured platform's own C library.
        ErrorCode::NoMem => match profile.flavor {
            LibcFlavor::Musl => Some("Out of memory"@),
            LibcFlavor::Gnu => Some("Cannot allocate memory"@),
            LibcFlavor::Other => Some("Not enough space"@),
        },
        ErrorCode::NoMsg => Some("No message of the desired type"@),
        ErrorCode::NoProtoOpt => Some("Protocol not available"@),
        ErrorCode::NoSpc => Some("No space left on device"@),
        ErrorCode::NoSr => if profile.wasi {
            None
        } else {
            Some("No STREAM resources"@)
        },
        ErrorCode::NoStr => if profile.wasi {
            None
        } else {
            Some("Not a STREAM"@)
        },
        ErrorCode::NoSys => Some("Functionality not supported"@),
        ErrorCode::NotConn => Some("The socket is not connected"@),
        ErrorCode::NotDir => Some("Not a directory"@),
        ErrorCode::NotEmpty => Some("Directory not empty"@),
        ErrorCode::NotRecoverable => Some("State not recoverable"@),
        ErrorCode::NotSock => Some("Not a socket"@),
        ErrorCode::NotSup | ErrorCode::OpNotSupp => Some("Not supported"@),
        ErrorCode::NoTty => Some("Inappropriate I/O control operation"@),
        ErrorCode::NxIo => Some("No such device or address"@),
        ErrorCode::Overflow => Some("Value too large to be stored in data type"@),
        ErrorCode::OwnerDead => Some("Previous owner died"@),
        ErrorCode::Perm => Some("Operation not permitted"@),
        ErrorCode::Pipe => Some("Broken pipe"@),
        ErrorCode::Proto => Some("Protocol error"@),
        ErrorCode::ProtoNoSupport => Some("Protocol not supported"@),
        ErrorCode::ProtoType => Some("Protocol wrong type for socket"@),
        ErrorCode::Range => Some("Result too large"@),
        ErrorCode::RoFs => Some("Read-only file system"@),
        ErrorCode::SPipe => Some("Invalid seek"@),
        ErrorCode::Srch => Some("No such process"@),
        ErrorCode::Stale => Some("Reserved"@),
        ErrorCode::Time => if profile.wasi {
            None
        } else {
            Some("Stream ioctl() timeout"@)
        },
        ErrorCode::TimedOut => Some("Connection timed out"@),
        ErrorCode::TxtBsy => Some("Text file busy"@),
        ErrorCode::NotCapable => if profile.wasi {
            Some("Capabilities insufficient"@)
        } else {
            None
        },
        ErrorCode::XDev => Some("Cross-device link"@),
    }
}

/// Returns the canonical message for `code` under `profile`: `Some` of the
/// exact documented string, or `None` where the profile does not define the
/// code. Pure and total; absence of a mapping is a normal outcome, never a
/// fault.
pub fn error_str(code: ErrorCode, profile: PlatformProfile) -> (r: Option<&'static str>)
    ensures
        match r {
            Some(s) => spec_message(code, profile) == Some(s@),
            None => spec_message(code, profile) is None,
        },
{
    match code {
        ErrorCode::TooBig => Some("Argument list too long"),
        ErrorCode::Access => Some("Permission denied"),
        ErrorCode::AddrInUse => Some("Address in use"),
        ErrorCode::AddrNotAvail => Some("Address not available"),
        ErrorCode::AfNoSupport => Some("Address family not supported"),
        ErrorCode::Again | ErrorCode::WouldBlock => Some("Resource unavailable, try again"),
        ErrorCode::Already => Some("Connection already in progress"),
        ErrorCode::BadF => Some("Bad file descriptor"),
        ErrorCode::BadMsg => Some("Bad message"),
        ErrorCode::Busy => Some("Device or resource busy"),
        ErrorCode::Canceled => Some("Operation canceled"),
        ErrorCode::Child => Some("No child processes"),
        ErrorCode::ConnAborted => Some("Connection aborted"),
        ErrorCode::ConnRefused => Some("Connection refused"),
        ErrorCode::ConnReset => Some("Connection reset"),
        ErrorCode::DeadLk => Some("Resource deadlock would occur"),
        ErrorCode::DestAddrReq => Some("Destination address required"),
        ErrorCode::Dom => Some("Mathematics argument out of domain of function"),
        ErrorCode::DQuot => Some("Reserved"),
        ErrorCode::Exist => Some("File exists"),
        ErrorCode::Fault => Some("Bad address"),
        ErrorCode::FBig => Some("File too large"),
        ErrorCode::HostUnreach => Some("Host is unreachable"),
        ErrorCode::IdRm => Some("Identifier removed"),
        ErrorCode::IlSeq => Some("Invalid byte sequence"),
        ErrorCode::InProgress => Some("Operation in progress"),
        ErrorCode::Intr => Some("Interrupted function"),
        ErrorCode::Inval => Some("Invalid argument"),
        ErrorCode::Io => Some("I/O error"),
        ErrorCode::IsConn => Some("Socket is connected"),
        ErrorCode::IsDir => Some("Is a directory"),
        ErrorCode::Loop => Some("Too many levels of symbolic links"),
        ErrorCode::MFile => Some("File descriptor value too large"),
        ErrorCode::MLink => Some("Too many links"),
        ErrorCode::MsgSize => Some("Message too large"),
        ErrorCode::MultiHop => Some("Reserved"),
        ErrorCode::NameTooLong => Some("Filename too long"),
        ErrorCode::NetDown => Some("Network is down"),
        ErrorCode::NetReset => Some("Connection aborted by network"),
        ErrorCode::NetUnreach => Some("Network unreachable"),
        ErrorCode::NFile => Some("Too many files open in system"),
        ErrorCode::NoBufs => Some("No buffer space available"),
        ErrorCode::NoData => if profile.wasi {
            None
        } else {
            Some("No message is available on the STREAM head read queue")
        },
        ErrorCode::NoDev => Some("No such device"),
        ErrorCode::NoEnt => Some("No such file or directory"),
        ErrorCode::NoExec => Some("Executable file format error"),
        ErrorCode::NoLck => Some("No locks available"),
        ErrorCode::NoLink => Some("Reserved"),
        ErrorCode::NoMem => match profile.flavor {
            LibcFlavor::Musl => Some("Out of memory"),
            LibcFlavor::Gnu => Some("Cannot allocate memory"),
            LibcFlavor::Other => Some("Not enough space"),
        },
        ErrorCode::NoMsg => Some("No message of the desired type"),
        ErrorCode::NoProtoOpt => Some("Protocol not available"),
        ErrorCode::NoSpc => Some("No space left on device"),
        ErrorCode::NoSr => if profile.wasi {
            None
        } else {
            Some("No STREAM resources")
        },
        ErrorCode::NoStr => if profile.wasi {
            None
        } else {
            Some("Not a STREAM")
        },
        ErrorCode::NoSys => Some("Functionality not supported"),
        ErrorCode::NotConn => Some("The socket is not connected"),
        ErrorCode::NotDir => Some("Not a directory"),
        ErrorCode::NotEmpty => Some("Directory not empty"),
        ErrorCode::NotRecoverable => Some("State not recoverable"),
        ErrorCode::NotSock => Some("Not a socket"),
        ErrorCode::NotSup | ErrorCode::OpNotSupp => Some("Not supported"),
        ErrorCode::NoTty => Some("Inappropriate I/O control operation"),
        ErrorCode::NxIo => Some("No such device or address"),
        ErrorCode::Overflow => Some("Value too large to be stored in data type"),
        ErrorCode::OwnerDead => Some("Previous owner died"),
        ErrorCode::Perm => Some("Operation not permitted"),
        ErrorCode::Pipe => Some("Broken pipe"),
        ErrorCode::Proto => Some("Protocol error"),
        ErrorCode::ProtoNoSupport => Some("Protocol not supported"),
        ErrorCode::ProtoType => Some("Protocol wrong type for socket"),
        ErrorCode::Range => Some("Result too large"),
        ErrorCode::RoFs => Some("Read-only file system"),
        ErrorCode::SPipe => Some("Invalid seek"),
        ErrorCode::Srch => Some("No such process"),
        ErrorCode::Stale => Some("Reserved"),
        ErrorCode::Time => if profile.wasi {
            None
        } else {
            Some("Stream ioctl() timeout")
        },
        ErrorCode::TimedOut => Some("Connection timed out"),
        ErrorCode::TxtBsy => Some("Text file busy"),
        ErrorCode::NotCapable => if profile.wasi {
            Some("Capabilities insufficient")
        } else {
            None
        },
        ErrorCode::XDev => Some("Cross-device link"),
    }
}

/// Every code documented under a profile resolves to a non-empty message.
/// Together with the contract of [`error_str`], which pins the result to
/// `spec_message` — a function of the inputs alone — this also gives
/// determinism: repeated calls with identical inputs return identical strings.
pub proof fn lemma_documented_message_nonempty(code: ErrorCode, profile: PlatformProfile)
    ensures
        spec_message(code, profile) matches Some(m) ==> m.len() > 0,
{
    reveal_strlit("Argument list too long");
    reveal_strlit("Permission denied");
    reveal_strlit("Address in use");
    reveal_strlit("Address not available");
    reveal_strlit("Address family not supported");
    reveal_strlit("Resource unavailable, try again");
    reveal_strlit("Connection already in progress");
    reveal_strlit("Bad file descriptor");
    reveal_strlit("Bad message");
    reveal_strlit("Device or resource busy");
    reveal_strlit("Operation canceled");
    reveal_strlit("No child processes");
    reveal_strlit("Connection aborted");
    reveal_strlit("Connection refused");
    reveal_strlit("Connection reset");
    reveal_strlit("Resource deadlock would occur");
    reveal_strlit("Destination address required");
    reveal_strlit("Mathematics argument out of domain of function");
    reveal_strlit("Reserved");
    reveal_strlit("File exists");
    reveal_strlit("Bad address");
    reveal_strlit("File too large");
    reveal_strlit("Host is unreachable");
    reveal_strlit("Identifier removed");
    reveal_strlit("Invalid byte sequence");
    reveal_strlit("Operation in progress");
    reveal_strlit("Interrupted function");
    reveal_strlit("Invalid argument");
    reveal_strlit("I/O error");
    reveal_strlit("Socket is connected");
    reveal_strlit("Is a directory");
    reveal_strlit("Too many levels of symbolic links");
    reveal_strlit("File descriptor value too large");
    reveal_strlit("Too many links");
    reveal_strlit("Message too large");
    reveal_strlit("Filename too long");
    reveal_strlit("Network is down");
    reveal_strlit("Connection aborted by network");
    reveal_strlit("Network unreachable");
    reveal_strlit("Too many files open in system");
    reveal_strlit("No buffer space available");
    reveal_strlit("No message is available on the STREAM head read queue");
    reveal_strlit("No such device");
    reveal_strlit("No such file or directory");
    reveal_strlit("Executable file format error");
    reveal_strlit("No locks available");
    reveal_strlit("Out of memory");
    reveal_strlit("Cannot allocate memory");
    reveal_strlit("Not enough space");
    reveal_strlit("No message of the desired type");
    reveal_strlit("Protocol not available");
    reveal_strlit("No space left on device");
    reveal_strlit("No STREAM resources");
    reveal_strlit("Not a STREAM");
    reveal_strlit("Functionality not supported");
    reveal_strlit("The socket is not connected");
    reveal_strlit("Not a directory");
    reveal_strlit("Directory not empty");
    reveal_strlit("State not recoverable");
    reveal_strlit("Not a socket");
    reveal_strlit("Not supported");
    reveal_strlit("Inappropriate I/O control operation");
    reveal_strlit("No such device or address");
    reveal_strlit("Value too large to be stored in data type");
    reveal_strlit("Previous owner died");
    reveal_strlit("Operation not permitted");
    reveal_strlit("Broken pipe");
    reveal_strlit("Protocol error");
    reveal_strlit("Protocol not supported");
    reveal_strlit("Protocol wrong type for socket");
    reveal_strlit("Result too large");
    reveal_strlit("Read-only file system");
    reveal_strlit("Invalid seek");
    reveal_strlit("No such process");
    reveal_strlit("Stream ioctl() timeout");
    reveal_strlit("Connection timed out");
    reveal_strlit("Text file busy");
    reveal_strlit("Capabilities insufficient");
    reveal_strlit("Cross-device link");
}

/// The WASI-only capability code has no message under any non-WASI profile.
pub proof fn lemma_wasi_only_code_absent(profile: PlatformProfile)
    ensures
        !profile.wasi ==> spec_message(ErrorCode::NotCapable, profile) is None,
{
}

/// The out-of-memory wording is selected by the C library flavor alone:
/// musl-flavored profiles get "Out of memory", GNU-flavored ones get
/// "Cannot allocate memory", and every other profile gets the POSIX wording
/// "Not enough space".
pub proof fn lemma_out_of_memory_by_flavor(profile: PlatformProfile)
    ensures
        profile.flavor == LibcFlavor::Musl ==> spec_message(ErrorCode::NoMem, profile)
            == Some("Out of memory"@),
        profile.flavor == LibcFlavor::Gnu ==> spec_message(ErrorCode::NoMem, profile)
            == Some("Cannot allocate memory"@),
        profile.flavor == LibcFlavor::Other ==> spec_message(ErrorCode::NoMem, profile)
            == Some("Not enough space"@),
{
}

/// Under a WASI profile, none of the STREAM-related codes has a message.
pub proof fn lemma_wasi_excludes_stream_codes(profile: PlatformProfile)
    requires
        profile.wasi,
    ensures
        spec_message(ErrorCode::NoData, profile) is None,
        spec_message(ErrorCode::NoSr, profile) is None,
        spec_message(ErrorCode::NoStr, profile) is None,
        spec_message(ErrorCode::Time, profile) is None,
{
}

/// A code resolves exactly as its canonical representative does: the alias
/// codes share their counterpart's row, so they can never yield a distinct
/// string, under any profile.
pub proof fn lemma_alias_resolves_as_canonical(code: ErrorCode, profile: PlatformProfile)
    ensures
        spec_message(code, profile) == spec_message(spec_canonical(code), profile),
{
}

} // verus!
