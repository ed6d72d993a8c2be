//! Exit statuses, following the BSD `sysexits` convention.
//!
//! A status is a named member of a fixed enumeration rather than a raw
//! integer, so that each failure class has a name a caller can branch on; it
//! collapses to a numeric process exit code only at the outermost boundary.

use vstd::prelude::*;

verus! {

/// One member of the `sysexits` exit-status convention.
#[derive(Clone, Copy, Debug, PartialEq, Eq, Structural)]
pub enum ExitStatus {
    Success,
    Usage,
    DataErr,
    NoInput,
    NoUser,
    NoHost,
    Unavailable,
    Software,
    OsErr,
    OsFile,
    CantCreat,
    IoErr,
    TempFail,
    Protocol,
    NoPerm,
    Config,
}

/// The numeric process exit code of each status.
pub open spec fn code_of(s: ExitStatus) -> int {
    match s {
        ExitStatus::Success => 0,
        ExitStatus::Usage => 64,
        ExitStatus::DataErr => 65,
        ExitStatus::NoInput => 66,
        ExitStatus::NoUser => 67,
        ExitStatus::NoHost => 68,
        ExitStatus::Unavailable => 69,
        ExitStatus::Software => 70,
        ExitStatus::OsErr => 71,
        ExitStatus::OsFile => 72,
        ExitStatus::CantCreat => 73,
        ExitStatus::IoErr => 74,
        ExitStatus::TempFail => 75,
        ExitStatus::Protocol => 76,
        ExitStatus::NoPerm => 77,
        ExitStatus::Config => 78,
    }
}

/// The normalizing conversion from a child process's raw exit code: a code
/// that names a `sysexits` member maps to that member, anything else (including
/// negative codes) falls back to `Success`, as a last resort.
pub open spec fn status_of_code(c: int) -> ExitStatus {
    if c == 0 {
        ExitStatus::Success
    } else if c == 64 {
        ExitStatus::Usage
    } else if c == 65 {
        ExitStatus::DataErr
    } else if c == 66 {
        ExitStatus::NoInput
    } else if c == 67 {
        ExitStatus::NoUser
    } else if c == 68 {
        ExitStatus::NoHost
    } else if c == 69 {
        ExitStatus::Unavailable
    } else if c == 70 {
        ExitStatus::Software
    } else if c == 71 {
        ExitStatus::OsErr
    } else if c == 72 {
        ExitStatus::OsFile
    } else if c == 73 {
        ExitStatus::CantCreat
    } else if c == 74 {
        ExitStatus::IoErr
    } else if c == 75 {
        ExitStatus::TempFail
    } else if c == 76 {
        ExitStatus::Protocol
    } else if c == 77 {
        ExitStatus::NoPerm
    } else if c == 78 {
        ExitStatus::Config
    } else {
        ExitStatus::Success
    }
}

impl ExitStatus {
    /// The numeric process exit code of this status.
    pub fn code(self) -> (r: u8)
        ensures
            r as int == code_of(self),
    {
        match self {
            ExitStatus::Success => 0,
            ExitStatus::Usage => 64,
            ExitStatus::DataErr => 65,
            ExitStatus::NoInput => 66,
            ExitStatus::NoUser => 67,
            ExitStatus::NoHost => 68,
            ExitStatus::Unavailable => 69,
            ExitStatus::Software => 70,
            ExitStatus::OsErr => 71,
            ExitStatus::OsFile => 72,
            ExitStatus::CantCreat => 73,
            ExitStatus::IoErr => 74,
            ExitStatus::TempFail => 75,
            ExitStatus::Protocol => 76,
            ExitStatus::NoPerm => 77,
            ExitStatus::Config => 78,
        }
    }

    /// Normalize a child process's raw exit code to a status.
    pub fn from_code(c: i32) -> (r: ExitStatus)
        ensures
            r == status_of_code(c as int),
    {
        if c == 0 {
            ExitStatus::Success
        } else if c == 64 {
            ExitStatus::Usage
        } else if c == 65 {
            ExitStatus::DataErr
        } else if c == 66 {
            ExitStatus::NoInput
        } else if c == 67 {
            ExitStatus::NoUser
        } else if c == 68 {
            ExitStatus::NoHost
        } else if c == 69 {
            ExitStatus::Unavailable
        } else if c == 70 {
            ExitStatus::Software
        } else if c == 71 {
            ExitStatus::OsErr
        } else if c == 72 {
            ExitStatus::OsFile
        } else if c == 73 {
            ExitStatus::CantCreat
        } else if c == 74 {
            ExitStatus::IoErr
        } else if c == 75 {
            ExitStatus::TempFail
        } else if c == 76 {
            ExitStatus::Protocol
        } else if c == 77 {
            ExitStatus::NoPerm
        } else if c == 78 {
            ExitStatus::Config
        } else {
            ExitStatus::Success
        }
    }

    /// Whether this status counts as success for `&&` / `||` chaining.
    pub fn is_success(self) -> (r: bool)
        ensures
            r == (self == ExitStatus::Success),
    {
        matches!(self, ExitStatus::Success)
    }
}

/// The two conversions agree: reading back the code of any status yields that
/// same status.
pub proof fn lemma_code_round_trip(s: ExitStatus)
    ensures
        status_of_code(code_of(s)) == s,
{
}

} // verus!
