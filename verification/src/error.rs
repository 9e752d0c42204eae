//! The errors of the driver.

use vstd::prelude::*;
use vstd::string::StringExecFns;

verus! {

/// Why an operation of the driver failed.
#[derive(Debug, PartialEq, Eq)]
pub enum ShyperError {
    /// Every slot of the disk pool is taken.
    NoFreeSlot,
    /// The disk replacement could not be run.
    ReplaceNotRun,
    /// The disk replacement ended with a failure status.
    ReplaceFailed(String),
    /// The mediated disk list at this path could not be created.
    CreateMediate(String),
    /// The mediated disk list could not be written.
    WriteMediate,
    /// The configuration template at this path could not be opened.
    OpenTemplate(String),
    /// The configuration template could not be read as a JSON document, for this
    /// reason.
    ParseTemplate(String),
    /// A root disk entry of the template has no place for its size.
    NoPlaceForSize,
    /// The machine configuration could not be created.
    CreateKata,
    /// The machine configuration could not be written.
    WriteKata,
    /// The daemon could not be spawned.
    SpawnDaemon,
    /// The daemon ended right after its start, with this status.
    DaemonExited(String),
    /// The configuration command could not be run.
    ConfigNotRun,
    /// The configuration command failed and printed this.
    ConfigFailed(String),
    /// The boot command could not be run.
    BootNotRun,
    /// The boot command failed and printed this.
    BootFailed(String),
    /// The destroy command could not be run.
    DestroyNotRun,
    /// There is no machine to wait for.
    NoProcessToWaitFor,
    /// Waiting for the machine failed.
    WaitFailed,
    /// There is no machine.
    ProcessNotFound,
}

/// The mathematical value of a [`ShyperError`].
pub enum ErrorView {
    NoFreeSlot,
    ReplaceNotRun,
    ReplaceFailed(Seq<char>),
    CreateMediate(Seq<char>),
    WriteMediate,
    OpenTemplate(Seq<char>),
    ParseTemplate(Seq<char>),
    NoPlaceForSize,
    CreateKata,
    WriteKata,
    SpawnDaemon,
    DaemonExited(Seq<char>),
    ConfigNotRun,
    ConfigFailed(Seq<char>),
    BootNotRun,
    BootFailed(Seq<char>),
    DestroyNotRun,
    NoProcessToWaitFor,
    WaitFailed,
    ProcessNotFound,
}

impl View for ShyperError {
    type V = ErrorView;

    open spec fn view(&self) -> ErrorView {
        match self {
            ShyperError::NoFreeSlot => ErrorView::NoFreeSlot,
            ShyperError::ReplaceNotRun => ErrorView::ReplaceNotRun,
            ShyperError::ReplaceFailed(s) => ErrorView::ReplaceFailed(s@),
            ShyperError::CreateMediate(s) => ErrorView::CreateMediate(s@),
            ShyperError::WriteMediate => ErrorView::WriteMediate,
            ShyperError::OpenTemplate(s) => ErrorView::OpenTemplate(s@),
            ShyperError::ParseTemplate(s) => ErrorView::ParseTemplate(s@),
            ShyperError::NoPlaceForSize => ErrorView::NoPlaceForSize,
            ShyperError::CreateKata => ErrorView::CreateKata,
            ShyperError::WriteKata => ErrorView::WriteKata,
            ShyperError::SpawnDaemon => ErrorView::SpawnDaemon,
            ShyperError::DaemonExited(s) => ErrorView::DaemonExited(s@),
            ShyperError::ConfigNotRun => ErrorView::ConfigNotRun,
            ShyperError::ConfigFailed(s) => ErrorView::ConfigFailed(s@),
            ShyperError::BootNotRun => ErrorView::BootNotRun,
            ShyperError::BootFailed(s) => ErrorView::BootFailed(s@),
            ShyperError::DestroyNotRun => ErrorView::DestroyNotRun,
            ShyperError::NoProcessToWaitFor => ErrorView::NoProcessToWaitFor,
            ShyperError::WaitFailed => ErrorView::WaitFailed,
            ShyperError::ProcessNotFound => ErrorView::ProcessNotFound,
        }
    }
}

impl ErrorView {
    /// What the error says to the caller.
    pub open spec fn text(self) -> Seq<char> {
        match self {
            ErrorView::NoFreeSlot => "No free disk slots in Shyper pool"@,
            ErrorView::ReplaceNotRun => "failed to replace disk"@,
            ErrorView::ReplaceFailed(s) => "replace-disk failed with status "@ + s,
            ErrorView::CreateMediate(s) => "create mediate json "@ + s,
            ErrorView::WriteMediate => "write mediate json"@,
            ErrorView::OpenTemplate(s) => "open kata.json template "@ + s,
            ErrorView::ParseTemplate(_) => "parse kata.json"@,
            ErrorView::NoPlaceForSize => "rootfs entry has no place for its size"@,
            ErrorView::CreateKata => "create kata json"@,
            ErrorView::WriteKata => "write kata json"@,
            ErrorView::SpawnDaemon => "spawn shyper daemon"@,
            ErrorView::DaemonExited(s) => "Shyper daemon exited prematurely with status: "@ + s,
            ErrorView::ConfigNotRun => "run vm config"@,
            ErrorView::ConfigFailed(s) => "vm config failed: "@ + s,
            ErrorView::BootNotRun => "run vm boot"@,
            ErrorView::BootFailed(s) => "vm boot failed: "@ + s,
            ErrorView::DestroyNotRun => "failed to destroy GVM via shyper"@,
            ErrorView::NoProcessToWaitFor => "no VM process to wait for"@,
            ErrorView::WaitFailed => "failed to wait for vm process"@,
            ErrorView::ProcessNotFound => "VM process not found"@,
        }
    }

    /// What caused the error, where the error knows it beside what it says.
    pub open spec fn cause(self) -> Option<Seq<char>> {
        match self {
            ErrorView::ParseTemplate(s) => Some(s),
            _ => None,
        }
    }
}

impl ShyperError {
    /// What the error says to the caller.
    pub fn message(&self) -> (text: String)
        ensures
            text@ == self@.text(),
    {
        match self {
            ShyperError::NoFreeSlot => "No free disk slots in Shyper pool".to_string(),
            ShyperError::ReplaceNotRun => "failed to replace disk".to_string(),
            ShyperError::ReplaceFailed(s) => "replace-disk failed with status ".to_string().concat(
                s.as_str(),
            ),
            ShyperError::CreateMediate(s) => "create mediate json ".to_string().concat(s.as_str()),
            ShyperError::WriteMediate => "write mediate json".to_string(),
            ShyperError::OpenTemplate(s) => "open kata.json template ".to_string().concat(
                s.as_str(),
            ),
            ShyperError::ParseTemplate(_) => "parse kata.json".to_string(),
            ShyperError::NoPlaceForSize => "rootfs entry has no place for its size".to_string(),
            ShyperError::CreateKata => "create kata json".to_string(),
            ShyperError::WriteKata => "write kata json".to_string(),
            ShyperError::SpawnDaemon => "spawn shyper daemon".to_string(),
            ShyperError::DaemonExited(s) =>
                "Shyper daemon exited prematurely with status: ".to_string().concat(s.as_str()),
            ShyperError::ConfigNotRun => "run vm config".to_string(),
            ShyperError::ConfigFailed(s) => "vm config failed: ".to_string().concat(s.as_str()),
            ShyperError::BootNotRun => "run vm boot".to_string(),
            ShyperError::BootFailed(s) => "vm boot failed: ".to_string().concat(s.as_str()),
            ShyperError::DestroyNotRun => "failed to destroy GVM via shyper".to_string(),
            ShyperError::NoProcessToWaitFor => "no VM process to wait for".to_string(),
            ShyperError::WaitFailed => "failed to wait for vm process".to_string(),
            ShyperError::ProcessNotFound => "VM process not found".to_string(),
        }
    }

    /// What caused the error, where the error knows it beside what it says.
    pub fn cause(&self) -> (text: Option<String>)
        ensures
            text.deep_view() == self@.cause(),
    {
        match self {
            ShyperError::ParseTemplate(s) => Some(s.clone()),
            _ => None,
        }
    }
}

} // verus!
