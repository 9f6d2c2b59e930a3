//! The signal registrar's verified side: the recognized signal numbers, the
//! policy that composes the delivery-flags word handed to the platform, and
//! the classification of the platform's registration status code.
//!
//! Installing a disposition is an operating-system call that cannot be made
//! from verified code; a host application performs it and feeds the status
//! code back through [`registration_result`].

use vstd::prelude::*;

verus! {

/// Hangup of the controlling terminal.
pub const SIGHUP: i32 = 1;
/// Interrupt from the keyboard.
pub const SIGINT: i32 = 2;
/// Quit from the keyboard.
pub const SIGQUIT: i32 = 3;
/// Trace or breakpoint trap.
pub const SIGTRAP: i32 = 5;
/// User-defined signal 1.
pub const SIGUSR1: i32 = 10;
/// User-defined signal 2.
pub const SIGUSR2: i32 = 12;
/// Broken pipe: write with no reader.
pub const SIGPIPE: i32 = 13;
/// Timer signalled by an alarm.
pub const SIGALRM: i32 = 14;
/// Termination request.
pub const SIGTERM: i32 = 15;

/// Run the handler on the alternate signal stack, so it works even when the
/// interrupted thread has exhausted its own stack.
pub const SA_ONSTACK: i32 = 0x0800_0000;
/// Restart interruptible system calls instead of failing them when the
/// handler returns.
pub const SA_RESTART: i32 = 0x1000_0000;
/// Deliver extended information to a three-argument handler. The handlers
/// this crate registers take the signal number alone, so this bit must never
/// reach the platform.
pub const SA_SIGINFO: i32 = 0x0000_0004;

/// The delivery-flags word that registration hands to the platform.
///
/// When the caller supplies no flags, a safe default applies: the handler
/// runs on the alternate stack and interrupted system calls are restarted.
/// When the caller supplies a flags word, it is taken as given except that
/// the extended-information bit is cleared, because it would make the
/// platform call the handler with arguments the registered handler type does
/// not have.
pub open spec fn resolved_flags(flags: Option<i32>) -> i32 {
    match flags {
        Option::None => SA_ONSTACK | SA_RESTART,
        Option::Some(f) => f & !SA_SIGINFO,
    }
}

/// Compose the delivery-flags word for a registration request.
pub fn resolve_flags(flags: Option<i32>) -> (r: i32)
    ensures
        r == resolved_flags(flags),
{
    match flags {
        None => SA_ONSTACK | SA_RESTART,
        Some(f) => f & !SA_SIGINFO,
    }
}

/// Why the platform refused to change a signal's disposition.
#[derive(Debug)]
pub enum RegisterError {
    /// The platform rejected the request: the signal number is invalid, or
    /// the signal's disposition cannot be changed.
    PlatformRefused,
}

/// What a registration status code means: zero is success, anything else is
/// a refusal.
pub open spec fn registration_of(status: i32) -> Result<(), RegisterError> {
    if status == 0 {
        Result::Ok(())
    } else {
        Result::Err(RegisterError::PlatformRefused)
    }
}

/// Classify the status code the platform returned for a disposition change.
pub fn registration_result(status: i32) -> (r: Result<(), RegisterError>)
    ensures
        r == registration_of(status),
{
    if status == 0 {
        Ok(())
    } else {
        Err(RegisterError::PlatformRefused)
    }
}

} // verus!
