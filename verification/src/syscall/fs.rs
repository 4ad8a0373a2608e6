//! The system call that writes to the console.

use vstd::prelude::*;
use vstd::string::StringSliceAdditionalSpecFns;
use vstd::utf8::valid_utf8;
use crate::syscall::{KernelPanic, SyscallOutcome};

verus! {

/// File descriptor of standard output.
pub const FD_STDOUT: usize = 1;

/// What a `write` of the `len` bytes at address `buf` to the file descriptor
/// `fd` comes to.
pub open spec fn write_outcome(fd: usize, buf: usize, len: usize) -> SyscallOutcome {
    if fd == FD_STDOUT {
        SyscallOutcome::Write { buf, len }
    } else {
        SyscallOutcome::Fatal(KernelPanic::UnsupportedFd(fd))
    }
}

/// Handles a `write` of the `len` bytes at address `buf` of the task's memory
/// to the file descriptor `fd`. Only standard output can be written to; for
/// any other descriptor the kernel stops.
pub fn sys_write(fd: usize, buf: usize, len: usize) -> (outcome: SyscallOutcome)
    ensures
        outcome == write_outcome(fd, buf, len),
{
    if fd == FD_STDOUT {
        SyscallOutcome::Write { buf, len }
    } else {
        SyscallOutcome::Fatal(KernelPanic::UnsupportedFd(fd))
    }
}

/// Calls `core::str::from_utf8`. Not proved: that it accepts the byte
/// strings that are valid UTF-8 and no others, and that the text it returns
/// has the bytes it was given.
#[verifier::external_body]
fn str_from_utf8<'a>(bytes: &'a [u8]) -> (text: Option<&'a str>)
    ensures
        text is Some <==> valid_utf8(bytes@),
        text matches Some(s) ==> s.spec_bytes() == bytes@,
{
    core::str::from_utf8(bytes).ok()
}

/// The text that a `write` of `bytes` prints on the console. Bytes that are
/// no UTF-8 text cannot be printed, and the kernel stops.
pub fn written_text<'a>(bytes: &'a [u8]) -> (text: Result<&'a str, KernelPanic>)
    ensures
        text is Ok <==> valid_utf8(bytes@),
        text matches Ok(s) ==> s.spec_bytes() == bytes@,
        text matches Err(e) ==> e == KernelPanic::InvalidText,
{
    match str_from_utf8(bytes) {
        Some(s) => Ok(s),
        None => Err(KernelPanic::InvalidText),
    }
}

} // verus!
