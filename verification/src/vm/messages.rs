//! The messages of the errors that a running program can cause.

use vstd::prelude::*;
use vstd::string::StringExecFns;
use crate::utils::error::{ErrorView, VmError};

verus! {

/// The character of a decimal digit.
pub open spec fn digit_char(digit: nat) -> char {
    ('0' as nat + digit) as char
}

/// The decimal digits of a number, the most significant first, with no
/// leading zero.
pub open spec fn decimal_text(number: nat) -> Seq<char>
    decreases number,
{
    if number < 10 {
        seq![digit_char(number)]
    } else {
        decimal_text(number / 10).push(digit_char(number % 10))
    }
}

/// The message of the error for a system call that does not exist.
pub open spec fn unknown_syscall_message(number: u32) -> Seq<char> {
    "Unknown syscall: "@ + decimal_text(number as nat)
}

/// The message of the error for a file descriptor that a system call does
/// not serve.
pub open spec fn unsupported_descriptor_message(fd: u32) -> Seq<char> {
    "Unsupported file descriptor: "@ + decimal_text(fd as nat)
}

/// The message of the error for a used-up cycle budget.
pub open spec fn budget_message() -> Seq<char> {
    "Maximum cycles exceeded"@
}

/// The message of the error for a system call that can only be repeated.
pub open spec fn stall_message() -> Seq<char> {
    "System call repeats without progress"@
}

/// `format!` with `{}` on a `u32`, that is the `Display` of `u32` in `std`:
/// the number in decimal digits, the most significant first, with no sign
/// and no leading zero.
#[verifier::external_body]
fn decimal_string(number: u32) -> (text: String)
    ensures
        text@ == decimal_text(number as nat),
{
    format!("{}", number)
}

/// The error for a system call that does not exist.
pub fn unknown_syscall(number: u32) -> (error: VmError)
    ensures
        error@ == ErrorView::SyscallError(unknown_syscall_message(number)),
{
    let mut message = String::from_str("Unknown syscall: ");
    message.append(decimal_string(number).as_str());
    VmError::SyscallError(message)
}

/// The error for a file descriptor that a system call does not serve.
pub fn unsupported_descriptor(fd: u32) -> (error: VmError)
    ensures
        error@ == ErrorView::SyscallError(unsupported_descriptor_message(fd)),
{
    let mut message = String::from_str("Unsupported file descriptor: ");
    message.append(decimal_string(fd).as_str());
    VmError::SyscallError(message)
}

/// The error for a breakpoint.
pub fn breakpoint() -> (error: VmError)
    ensures
        error@ == ErrorView::ExecutionError("Breakpoint encountered"@),
{
    VmError::ExecutionError(String::from_str("Breakpoint encountered"))
}

/// The error for a used-up cycle budget.
pub fn budget_exhausted() -> (error: VmError)
    ensures
        error@ == ErrorView::ExecutionError(budget_message()),
{
    VmError::ExecutionError(String::from_str("Maximum cycles exceeded"))
}

/// The error for a system call that has returned and left the processor as
/// it was.
pub fn stalled() -> (error: VmError)
    ensures
        error@ == ErrorView::ExecutionError(stall_message()),
{
    VmError::ExecutionError(String::from_str("System call repeats without progress"))
}

} // verus!
