//! What can go wrong, and how each failure reads.

use vstd::prelude::*;

verus! {

/// A failure of the application.
#[derive(Debug)]
pub enum RoStartError {
    /// The machine could not be asked about itself.
    SystemInfo(String),
    /// The settings are not usable.
    Config(String),
    /// Reading or writing failed.
    Io(String),
    /// A command could not be run.
    CommandFailed(String),
    /// None of the known package managers answered.
    PackageManagerNotFound,
    /// The package manager could not be asked for updates.
    UpdateCheckFailed(String),
}

/// A failure with its detail as a sequence of characters.
pub enum RoStartErrorView {
    SystemInfo(Seq<char>),
    Config(Seq<char>),
    Io(Seq<char>),
    CommandFailed(Seq<char>),
    PackageManagerNotFound,
    UpdateCheckFailed(Seq<char>),
}

impl RoStartErrorView {
    /// The sentence that tells a user of this failure.
    pub open spec fn text(self) -> Seq<char> {
        match self {
            RoStartErrorView::SystemInfo(detail) => "System information error: "@ + detail,
            RoStartErrorView::Config(detail) => "Configuration error: "@ + detail,
            RoStartErrorView::Io(detail) => "IO error: "@ + detail,
            RoStartErrorView::CommandFailed(detail) => "Command execution failed: "@ + detail,
            RoStartErrorView::PackageManagerNotFound => "Package manager not found"@,
            RoStartErrorView::UpdateCheckFailed(detail) => "Update check failed: "@ + detail,
        }
    }
}

impl View for RoStartError {
    type V = RoStartErrorView;

    open spec fn view(&self) -> RoStartErrorView {
        match self {
            RoStartError::SystemInfo(detail) => RoStartErrorView::SystemInfo(detail@),
            RoStartError::Config(detail) => RoStartErrorView::Config(detail@),
            RoStartError::Io(detail) => RoStartErrorView::Io(detail@),
            RoStartError::CommandFailed(detail) => RoStartErrorView::CommandFailed(detail@),
            RoStartError::PackageManagerNotFound => RoStartErrorView::PackageManagerNotFound,
            RoStartError::UpdateCheckFailed(detail) => RoStartErrorView::UpdateCheckFailed(detail@),
        }
    }
}

/// `head` followed by `detail`.
fn headed(head: &str, detail: &str) -> (r: String)
    ensures
        r@ == head@ + detail@,
{
    let mut s = String::from_str(head);
    s.append(detail);
    s
}

impl RoStartError {
    /// The sentence that tells a user of this failure.
    pub fn message(&self) -> (r: String)
        ensures
            r@ == self@.text(),
    {
        match self {
            RoStartError::SystemInfo(detail) => headed(
                "System information error: ",
                detail.as_str(),
            ),
            RoStartError::Config(detail) => headed("Configuration error: ", detail.as_str()),
            RoStartError::Io(detail) => headed("IO error: ", detail.as_str()),
            RoStartError::CommandFailed(detail) => headed(
                "Command execution failed: ",
                detail.as_str(),
            ),
            RoStartError::PackageManagerNotFound => String::from_str("Package manager not found"),
            RoStartError::UpdateCheckFailed(detail) => headed(
                "Update check failed: ",
                detail.as_str(),
            ),
        }
    }
}

} // verus!
