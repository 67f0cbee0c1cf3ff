//! The errors that module operations report.

use vstd::prelude::*;

verus! {

/// An operation that the whitelist guards.
#[derive(Debug, Clone, Copy, PartialEq, Eq)]
pub enum ProcessAction {
    Suspend,
    Terminate,
}

/// Why an operation on a module failed.
#[derive(Debug, PartialEq, Eq)]
pub enum ModuleError {
    /// No module is registered under this name.
    ModuleNotFound(String),
    /// The process is protected by the whitelist.
    WhitelistViolation(ProcessAction),
    /// A platform call failed; the text is the platform's.
    OsError(String),
    /// A module's lock was poisoned.
    LockError(String),
    /// The history could not be read or written on request.
    PersistenceError(String),
    /// A window layout of this name does not exist.
    UnknownLayout(String),
}

/// What a `ModuleError` stands for.
pub enum ErrorModel {
    ModuleNotFound(Seq<char>),
    WhitelistViolation(ProcessAction),
    OsError(Seq<char>),
    LockError(Seq<char>),
    PersistenceError(Seq<char>),
    UnknownLayout(Seq<char>),
}

impl View for ModuleError {
    type V = ErrorModel;

    open spec fn view(&self) -> ErrorModel {
        match self {
            ModuleError::ModuleNotFound(name) => ErrorModel::ModuleNotFound(name@),
            ModuleError::WhitelistViolation(action) => ErrorModel::WhitelistViolation(*action),
            ModuleError::OsError(text) => ErrorModel::OsError(text@),
            ModuleError::LockError(text) => ErrorModel::LockError(text@),
            ModuleError::PersistenceError(text) => ErrorModel::PersistenceError(text@),
            ModuleError::UnknownLayout(name) => ErrorModel::UnknownLayout(name@),
        }
    }
}

impl ErrorModel {
    /// The error as a line of text.
    pub open spec fn message(self) -> Seq<char> {
        match self {
            ErrorModel::ModuleNotFound(name) => "Module '"@ + name + "' not found"@,
            ErrorModel::WhitelistViolation(ProcessAction::Suspend) =>
                "Cannot suspend whitelisted process"@,
            ErrorModel::WhitelistViolation(ProcessAction::Terminate) =>
                "Cannot terminate whitelisted process"@,
            ErrorModel::OsError(text) => text,
            ErrorModel::LockError(text) => "Lock error: "@ + text,
            ErrorModel::PersistenceError(text) => text,
            ErrorModel::UnknownLayout(_) => "Unknown layout"@,
        }
    }
}

impl ModuleError {
    /// The error as a line of text, as it is shown to whoever issued the command.
    pub fn message(&self) -> (r: String)
        ensures
            r@ == self@.message(),
    {
        match self {
            ModuleError::ModuleNotFound(name) => {
                String::from_str("Module '").concat(name.as_str()).concat("' not found")
            },
            ModuleError::WhitelistViolation(ProcessAction::Suspend) => String::from_str(
                "Cannot suspend whitelisted process",
            ),
            ModuleError::WhitelistViolation(ProcessAction::Terminate) => String::from_str(
                "Cannot terminate whitelisted process",
            ),
            ModuleError::OsError(text) => text.clone(),
            ModuleError::LockError(text) => String::from_str("Lock error: ").concat(text.as_str()),
            ModuleError::PersistenceError(text) => text.clone(),
            ModuleError::UnknownLayout(_) => String::from_str("Unknown layout"),
        }
    }
}

impl Clone for ModuleError {
    fn clone(&self) -> (r: ModuleError)
        ensures
            r@ == self@,
    {
        match self {
            ModuleError::ModuleNotFound(name) => ModuleError::ModuleNotFound(name.clone()),
            ModuleError::WhitelistViolation(action) => ModuleError::WhitelistViolation(*action),
            ModuleError::OsError(text) => ModuleError::OsError(text.clone()),
            ModuleError::LockError(text) => ModuleError::LockError(text.clone()),
            ModuleError::PersistenceError(text) => ModuleError::PersistenceError(text.clone()),
            ModuleError::UnknownLayout(name) => ModuleError::UnknownLayout(name.clone()),
        }
    }
}

/// What the platform answered to a request: done, or why not.
#[derive(Debug, PartialEq, Eq)]
pub enum OsOutcome {
    Done,
    Failed(String),
}

} // verus!
