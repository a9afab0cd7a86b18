//! The error taxonomy shared by all engines.

use vstd::prelude::*;

use crate::numfmt::{i32_to_string, spec_dec, spec_dec_i32, u32_to_string};

verus! {

/// Why a window-size change was refused, mapped one-to-one from the
/// operating system's error code.
#[derive(Clone, Copy, Debug, PartialEq, Eq, Structural)]
pub enum ResizeCause {
    /// The descriptor is not open (EBADF).
    BadDescriptor,
    /// The size structure was not addressable (EFAULT).
    BadAddress,
    /// The request or the size was invalid (EINVAL).
    InvalidArgument,
    /// The descriptor does not refer to a terminal (ENOTTY).
    NotTerminal,
    /// Any other error code.
    Other(i32),
}

/// Every failure a boundary operation can surface.  Where the operating
/// system supplied an error code, the variant carries it.
#[derive(Debug, PartialEq, Eq)]
pub enum PtyError {
    /// Terminal resources could not be allocated during an open.
    Allocation(i32),
    /// The fork primitive itself failed.
    Fork(i32),
    /// Child process creation failed.
    ProcessCreation(u32),
    /// A named pipe could not be created.
    PipeCreation(u32),
    /// A named pipe could not be connected.
    PipeConnect(u32),
    /// The pseudo-console could not be allocated.
    ConsoleCreation(u32),
    /// A window-size change was refused by the OS.
    Resize(ResizeCause),
    /// The operation referenced a session id that is not registered:
    /// it either never existed or was already torn down.
    NotFound,
    /// An executable could not be resolved on the search path; carries the
    /// requested file name.
    FileNotFound(String),
    /// A numeric argument did not fit the required range; carries the
    /// offending value.  Raised before any OS call is attempted.
    Coercion(i32),
    /// A platform-specific operation was invoked on the wrong platform.
    UnsupportedPlatform,
}

/// The human-readable description of a resize failure.
pub open spec fn spec_resize_message(c: ResizeCause) -> Seq<char> {
    match c {
        ResizeCause::BadDescriptor => "ioctl(2) failed, EBADF"@,
        ResizeCause::BadAddress => "ioctl(2) failed, EFAULT"@,
        ResizeCause::InvalidArgument => "ioctl(2) failed, EINVAL"@,
        ResizeCause::NotTerminal => "ioctl(2) failed, ENOTTY"@,
        ResizeCause::Other(e) => "ioctl(2) failed, errno "@ + spec_dec_i32(e as int),
    }
}

/// The human-readable description of each error, with the OS error code
/// where one was available.
pub open spec fn spec_message(e: PtyError) -> Seq<char> {
    match e {
        PtyError::Allocation(c) => "failed to allocate terminal resources, errno "@ + spec_dec_i32(
            c as int,
        ),
        PtyError::Fork(c) => "forkpty(3) failed, errno "@ + spec_dec_i32(c as int),
        PtyError::ProcessCreation(c) => "cannot create process, error code "@ + spec_dec(c as nat),
        PtyError::PipeCreation(c) => "failed to create handle for pipe, error code "@ + spec_dec(
            c as nat,
        ),
        PtyError::PipeConnect(c) => "failed to connect named pipes, error code "@ + spec_dec(
            c as nat,
        ),
        PtyError::ConsoleCreation(c) => "failed to create pseudoconsole, error code "@ + spec_dec(
            c as nat,
        ),
        PtyError::Resize(cause) => spec_resize_message(cause),
        PtyError::NotFound => "no pty was found with the provided id"@,
        PtyError::FileNotFound(f) => "File not found: "@ + f@,
        PtyError::Coercion(v) => "failed to coerce value "@ + spec_dec_i32(v as int)
            + " to a 16-bit size"@,
        PtyError::UnsupportedPlatform => "unsupported platform"@,
    }
}

impl PtyError {
    /// The human-readable message for this error, including the OS error
    /// code where one was available.
    pub fn message(&self) -> (r: String)
        ensures
            r@ == spec_message(*self),
    {
        match self {
            PtyError::Allocation(c) => String::from_str(
                "failed to allocate terminal resources, errno ",
            ).concat(i32_to_string(*c).as_str()),
            PtyError::Fork(c) => String::from_str("forkpty(3) failed, errno ").concat(
                i32_to_string(*c).as_str(),
            ),
            PtyError::ProcessCreation(c) => String::from_str(
                "cannot create process, error code ",
            ).concat(u32_to_string(*c).as_str()),
            PtyError::PipeCreation(c) => String::from_str(
                "failed to create handle for pipe, error code ",
            ).concat(u32_to_string(*c).as_str()),
            PtyError::PipeConnect(c) => String::from_str(
                "failed to connect named pipes, error code ",
            ).concat(u32_to_string(*c).as_str()),
            PtyError::ConsoleCreation(c) => String::from_str(
                "failed to create pseudoconsole, error code ",
            ).concat(u32_to_string(*c).as_str()),
            PtyError::Resize(cause) => match cause {
                ResizeCause::BadDescriptor => String::from_str("ioctl(2) failed, EBADF"),
                ResizeCause::BadAddress => String::from_str("ioctl(2) failed, EFAULT"),
                ResizeCause::InvalidArgument => String::from_str("ioctl(2) failed, EINVAL"),
                ResizeCause::NotTerminal => String::from_str("ioctl(2) failed, ENOTTY"),
                ResizeCause::Other(e) => String::from_str("ioctl(2) failed, errno ").concat(
                    i32_to_string(*e).as_str(),
                ),
            },
            PtyError::NotFound => String::from_str("no pty was found with the provided id"),
            PtyError::FileNotFound(f) => String::from_str("File not found: ").concat(f.as_str()),
            PtyError::Coercion(v) => String::from_str("failed to coerce value ").concat(
                i32_to_string(*v).as_str(),
            ).concat(" to a 16-bit size"),
            PtyError::UnsupportedPlatform => String::from_str("unsupported platform"),
        }
    }
}

} // verus!
