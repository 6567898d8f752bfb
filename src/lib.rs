//! Semantic exit codes for command line tools, to aid in debugging and instrumentation.
//!
//! Two ranges of codes are defined:
//! - codes 80-99 indicate a user error of some sort;
//! - codes 100-119 indicate a software or system error of some sort.
use vstd::prelude::*;

pub mod laws;

verus! {

/// The exit code that is passed to the system call `exit` when the program terminates.
/// Conventionally, zero indicates success and all other values (1-255) indicate failure.
#[derive(Clone, Copy, Debug, PartialEq, Eq, Structural)]
pub enum Code {
    /// The program exited successfully (0).
    OK,
    /// The program exited unsuccessfully, with no extra context about the failure (1).
    NotOK,
    /// The program was used incorrectly (80): a required argument was omitted,
    /// or an invalid value was supplied for a flag.
    UsageError,
    /// An unrecognized subcommand was invoked (81). Unlike the shell's 127, the
    /// command itself exists but the subcommand does not.
    UnknownSubcommand,
    /// A precondition was not satisfied (82), such as being on a VPN or having
    /// a minimum version of some other software installed.
    RequirementNotMet,
    /// The user is not authorized to perform the requested action (83).
    Forbidden,
    /// The program has been migrated to a new location (84).
    MovedPermanently,
    /// A problem in the program's own code or dependencies (100).
    InternalError,
    /// A service the program depends on was not available (101).
    Unavailable,
}

impl Code {
    /// The integer status that this code stands for.
    pub open spec fn value(self) -> i32 {
        match self {
            Code::OK => 0,
            Code::NotOK => 1,
            Code::UsageError => 80,
            Code::UnknownSubcommand => 81,
            Code::RequirementNotMet => 82,
            Code::Forbidden => 83,
            Code::MovedPermanently => 84,
            Code::InternalError => 100,
            Code::Unavailable => 101,
        }
    }
}

impl From<Code> for i32 {
    fn from(value: Code) -> (r: i32)
        ensures
            r == value.value(),
    {
        match value {
            Code::OK => 0,
            Code::NotOK => 1,
            Code::UsageError => 80,
            Code::UnknownSubcommand => 81,
            Code::RequirementNotMet => 82,
            Code::Forbidden => 83,
            Code::MovedPermanently => 84,
            Code::InternalError => 100,
            Code::Unavailable => 101,
        }
    }
}

impl vstd::std_specs::convert::FromSpecImpl<Code> for i32 {
    open spec fn obeys_from_spec() -> bool {
        true
    }

    open spec fn from_spec(v: Code) -> i32 {
        v.value()
    }
}

/// The one way a conversion into a [`Code`] can fail.
#[derive(Clone, Copy, Debug, PartialEq, Eq, Structural)]
pub enum Error {
    /// The integer matches no defined code; it is carried for diagnostics.
    UnknownExitCode(i32),
}

/// The code whose status is `v`, if one is defined.
pub open spec fn code_for(v: i32) -> Option<Code> {
    if v == 0 {
        Some(Code::OK)
    } else if v == 1 {
        Some(Code::NotOK)
    } else if v == 80 {
        Some(Code::UsageError)
    } else if v == 81 {
        Some(Code::UnknownSubcommand)
    } else if v == 82 {
        Some(Code::RequirementNotMet)
    } else if v == 83 {
        Some(Code::Forbidden)
    } else if v == 84 {
        Some(Code::MovedPermanently)
    } else if v == 100 {
        Some(Code::InternalError)
    } else if v == 101 {
        Some(Code::Unavailable)
    } else {
        None
    }
}

/// What converting `v` into a code gives: the code whose status is `v`,
/// or an error that carries `v` exactly.
pub open spec fn try_code(v: i32) -> Result<Code, Error> {
    match code_for(v) {
        Some(c) => Ok(c),
        None => Err(Error::UnknownExitCode(v)),
    }
}

impl TryFrom<i32> for Code {
    type Error = Error;

    fn try_from(value: i32) -> (r: Result<Code, Error>)
        ensures
            r == try_code(value),
    {
        match value {
            0 => Ok(Code::OK),
            1 => Ok(Code::NotOK),
            80 => Ok(Code::UsageError),
            81 => Ok(Code::UnknownSubcommand),
            82 => Ok(Code::RequirementNotMet),
            83 => Ok(Code::Forbidden),
            84 => Ok(Code::MovedPermanently),
            100 => Ok(Code::InternalError),
            101 => Ok(Code::Unavailable),
            _ => Err(Error::UnknownExitCode(value)),
        }
    }
}

impl vstd::std_specs::convert::TryFromSpecImpl<i32> for Code {
    open spec fn obeys_try_from_spec() -> bool {
        true
    }

    open spec fn try_from_spec(v: i32) -> Result<Code, Error> {
        try_code(v)
    }
}

impl Code {
    /// Whether this code lies in the user error range, 80-99.
    pub open spec fn in_user_range(self) -> bool {
        80 <= self.value() <= 99
    }

    /// Whether this code lies in the software error range, 100-119.
    pub open spec fn in_software_range(self) -> bool {
        100 <= self.value() <= 119
    }

    /// Whether this code lies strictly between 128 and 255, where statuses
    /// derived from a signal fall.
    pub open spec fn in_signal_range(self) -> bool {
        128 < self.value() < 255
    }
}

/// Reports whether an exit code is a user error: true iff it is in the range 80-99.
pub fn is_user_error(code: Code) -> (r: bool)
    ensures
        r == code.in_user_range(),
{
    let v: i32 = i32::from(code);
    v >= 80 && v <= 99
}

/// Reports whether an exit code is a software error: true iff it is in the range 100-119.
pub fn is_software_error(code: Code) -> (r: bool)
    ensures
        r == code.in_software_range(),
{
    let v: i32 = i32::from(code);
    v >= 100 && v <= 119
}

/// Reports whether an exit code is derived from a signal: true iff it is
/// greater than 128 and less than 255.
pub fn is_signal(code: Code) -> (r: bool)
    ensures
        r == code.in_signal_range(),
{
    let v: i32 = i32::from(code);
    v > 128 && v < 255
}

/// The exit status of a program that exits in response to signal `signal`,
/// by the shell's convention of 128 plus the signal number. No bound is put
/// on the result beyond what an `i32` holds.
pub fn from_signal(signal: i32) -> (r: i32)
    requires
        128 + signal <= i32::MAX,
    ensures
        r == 128 + signal,
{
    128 + signal
}

} // verus!
