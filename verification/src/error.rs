use vstd::prelude::*;

verus! {

/// Why a clone was given up. Every failure ends the whole operation; the
/// first one met is the one reported.
#[derive(Clone, Copy, Debug, PartialEq, Eq)]
pub enum CloneError {
    /// The base directory is not configured.
    ConfigMissing,
    /// The configured base directory is empty or not an absolute path.
    ConfigInvalid,
    /// Reading the configuration failed in any other way.
    ConfigReadError,
    /// The configuration was read, but its output is not text.
    OutputNotText,
    /// The source URL does not parse.
    InvalidUrl,
    /// A short-form upstream was asked for, but the source URL has no path
    /// segment that could be replaced.
    UrlHasNoPathSegments,
    /// The upstream URL would be longer than a URL may be rewritten to.
    UpstreamUrlTooLong,
    /// Both a short-form and a full-URL upstream were supplied.
    ConflictingUpstream,
    /// The clone command ended with a status other than zero.
    CloneFailed { exit_status: Option<i32> },
    /// The command that adds the upstream remote ended with a status other
    /// than zero.
    RemoteAddFailed { exit_status: Option<i32> },
}

/// The text that tells a user of `error`.
pub open spec fn message_text(error: CloneError) -> Seq<char> {
    match error {
        CloneError::ConfigMissing =>
            "repman.basedir is not set. Please use `git config --global` to configure it."@,
        CloneError::ConfigInvalid => "repman.basedir must be an absolute path"@,
        CloneError::ConfigReadError => "repman.basedir could not be read"@,
        CloneError::OutputNotText => "repman.basedir is not text"@,
        CloneError::InvalidUrl => "the URL to clone is not a valid URL"@,
        CloneError::UrlHasNoPathSegments =>
            "the URL to clone has no path segment that the upstream name could replace"@,
        CloneError::UpstreamUrlTooLong => "the upstream URL would be too long"@,
        CloneError::ConflictingUpstream =>
            "the upstream cannot be given both by name and as a URL"@,
        CloneError::CloneFailed { .. } => "cloning the repository failed"@,
        CloneError::RemoteAddFailed { .. } => "adding the upstream remote failed"@,
    }
}

impl CloneError {
    /// The text that tells a user of this error.
    pub fn message(&self) -> (r: String)
        ensures
            r@ == message_text(*self),
    {
        match self {
            CloneError::ConfigMissing => {
                "repman.basedir is not set. Please use `git config --global` to configure it."
                    .to_string()
            },
            CloneError::ConfigInvalid => "repman.basedir must be an absolute path".to_string(),
            CloneError::ConfigReadError => "repman.basedir could not be read".to_string(),
            CloneError::OutputNotText => "repman.basedir is not text".to_string(),
            CloneError::InvalidUrl => "the URL to clone is not a valid URL".to_string(),
            CloneError::UrlHasNoPathSegments => {
                "the URL to clone has no path segment that the upstream name could replace"
                    .to_string()
            },
            CloneError::UpstreamUrlTooLong => "the upstream URL would be too long".to_string(),
            CloneError::ConflictingUpstream =>
                "the upstream cannot be given both by name and as a URL".to_string(),
            CloneError::CloneFailed { .. } => "cloning the repository failed".to_string(),
            CloneError::RemoteAddFailed { .. } => "adding the upstream remote failed".to_string(),
        }
    }
}

} // verus!
