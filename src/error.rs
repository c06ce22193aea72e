//! The kinds of failure that the library reports.
use vstd::prelude::*;

verus! {

/// A failure of one of the library's operations.
#[derive(Debug, Clone, PartialEq, Eq)]
pub enum Error {
    NotInitialized,
    AlreadyInitialized,
    UnsupportedArchitecture,
    HomeNotFound,
    SudoUserNotFound,
    InvalidPasswd,
    InvalidUserId,
    InvalidGroupId,
    ContainerNotFound,
    ContainerProcessNotFound,
    GraphDriverNotOverlay2,
    InvalidPid,
    InvalidParameter,
    InvalidResponse,
    ApiResponseError(String),
    ApiServerError,
    ImageSyntaxError,
    ImageNotFound,
    ImageMetaNotFound,
    MountFailed(i32),
    UnmountFailed(i32),
    OverlayfsDirInvalid,
    InvalidPath,
    CopyFailed,
    ForkFailed,
    WaitpidFailed,
    NsOpenFailed,
    SetnsFailed,
    ChrootFailed,
    ExecFailed,
    AlreadyExists,
    NoSessions,
    ReadDirError,
    UnexpectedShell,
    CommandError,
    NotImplemented,
    FromParseError,
}

} // verus!
