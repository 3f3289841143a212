use vstd::prelude::*;

verus! {

/// The outcome of a bundling run: success, or the one step that failed.
///
/// Numeric codes: `0` is success; `1` to `9` concern creating, writing and
/// copying files; `10` to `19` the operating system; `20` to `29` the
/// interactive front-end.
#[derive(Debug, Clone, Copy, PartialEq, Eq, Structural)]
pub enum ExitCode {
    Success,
    BinaryNotFound,
    IconNotFound,
    UnableToCreate,
    UnableToWrite,
    UnableToCopy,
    ChangePermission,
    WrongFileFormat,
    NotUnixSystem,
    FileDialogError,
}

/// The process exit status that stands for each outcome.
pub open spec fn code_of(e: ExitCode) -> i32 {
    match e {
        ExitCode::Success => 0,
        ExitCode::BinaryNotFound => 1,
        ExitCode::IconNotFound => 2,
        ExitCode::UnableToCreate => 3,
        ExitCode::UnableToWrite => 4,
        ExitCode::UnableToCopy => 5,
        ExitCode::ChangePermission => 6,
        ExitCode::WrongFileFormat => 7,
        ExitCode::NotUnixSystem => 10,
        ExitCode::FileDialogError => 20,
    }
}

impl ExitCode {
    /// The process exit status for this outcome.
    pub fn code(&self) -> (r: i32)
        ensures
            r == code_of(*self),
    {
        match self {
            ExitCode::Success => 0,
            ExitCode::BinaryNotFound => 1,
            ExitCode::IconNotFound => 2,
            ExitCode::UnableToCreate => 3,
            ExitCode::UnableToWrite => 4,
            ExitCode::UnableToCopy => 5,
            ExitCode::ChangePermission => 6,
            ExitCode::WrongFileFormat => 7,
            ExitCode::NotUnixSystem => 10,
            ExitCode::FileDialogError => 20,
        }
    }
}

impl Default for ExitCode {
    fn default() -> (r: Self)
        ensures
            r == ExitCode::Success,
    {
        ExitCode::Success
    }
}

} // verus!
