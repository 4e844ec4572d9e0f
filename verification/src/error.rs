use vstd::prelude::*;

verus! {

/// The kind of named entity a failed lookup was after.
#[derive(Debug, Clone, Copy, PartialEq, Eq, Structural)]
pub enum EntityKind {
    Template,
    Profile,
}

/// Everything that can go wrong while loading configuration fragments,
/// resolving a profile, or building and handing off a launch descriptor.
#[derive(Debug, Clone, PartialEq, Eq)]
pub enum Error {
    /// A configuration source exists but cannot be parsed.
    ParseError(String),
    /// A referenced template or profile name does not exist.
    NotFound { kind: EntityKind, name: String },
    /// A profile names no template and the global defaults name none either.
    NoDefaultTemplate,
    /// An engine path is required (skip-engine is off) but no layer supplies one.
    MissingEngine,
    /// Reading a configuration source failed for a reason other than absence.
    IoFailure(String),
    /// The external launcher process could not be started or waited on.
    LaunchFailure(String),
    /// No subcommand was given, so there is nothing to do.
    NoSubcommand,
}

/// Model of an error, with every message as a character sequence.
#[verifier::ext_equal]
pub enum ErrorView {
    ParseError(Seq<char>),
    NotFound { kind: EntityKind, name: Seq<char> },
    NoDefaultTemplate,
    MissingEngine,
    IoFailure(Seq<char>),
    LaunchFailure(Seq<char>),
    NoSubcommand,
}

impl View for Error {
    type V = ErrorView;

    open spec fn view(&self) -> ErrorView {
        match self {
            Error::ParseError(m) => ErrorView::ParseError(m@),
            Error::NotFound { kind, name } => ErrorView::NotFound { kind: *kind, name: name@ },
            Error::NoDefaultTemplate => ErrorView::NoDefaultTemplate,
            Error::MissingEngine => ErrorView::MissingEngine,
            Error::IoFailure(m) => ErrorView::IoFailure(m@),
            Error::LaunchFailure(m) => ErrorView::LaunchFailure(m@),
            Error::NoSubcommand => ErrorView::NoSubcommand,
        }
    }
}

impl DeepView for Error {
    type V = ErrorView;

    open spec fn deep_view(&self) -> ErrorView {
        self.view()
    }
}

} // verus!
