use vstd::prelude::*;

verus! {

/// The categories of failure a run can surface.
///
/// `Clap` and `NoSubCommand` belong to command-line handling around the
/// engine; the engine itself produces `InsufficientArguments` (a
/// configuration rejected before any remote call), `MalformedRecord` (a
/// backend record missing a required field), `TransportError` (the remote
/// call could not complete), `BackendRejected` (the service returned a
/// structured rejection), and `SyncChannel` (the result handoff between the
/// background run and the caller did not complete).
#[derive(Clone, Copy, Debug, PartialEq, Eq, Structural)]
pub enum ErrorKind {
    Clap,
    InsufficientArguments,
    NoSubCommand,
    MalformedRecord,
    TransportError,
    BackendRejected,
    SyncChannel,
}

impl ErrorKind {
    /// A short description of the category.
    pub fn text(&self) -> (r: String)
        ensures
            r@ == self.spec_text(),
    {
        match self {
            ErrorKind::Clap => "Clap error.".to_owned(),
            ErrorKind::InsufficientArguments => "Argument error.".to_owned(),
            ErrorKind::NoSubCommand => "No subcommand given.".to_owned(),
            ErrorKind::MalformedRecord => "Malformed record in a response.".to_owned(),
            ErrorKind::TransportError => "The remote call could not complete.".to_owned(),
            ErrorKind::BackendRejected => "The service rejected the request.".to_owned(),
            ErrorKind::SyncChannel => "Any sync error occurred".to_owned(),
        }
    }

    pub open spec fn spec_text(self) -> Seq<char> {
        match self {
            ErrorKind::Clap => "Clap error."@,
            ErrorKind::InsufficientArguments => "Argument error."@,
            ErrorKind::NoSubCommand => "No subcommand given."@,
            ErrorKind::MalformedRecord => "Malformed record in a response."@,
            ErrorKind::TransportError => "The remote call could not complete."@,
            ErrorKind::BackendRejected => "The service rejected the request."@,
            ErrorKind::SyncChannel => "Any sync error occurred"@,
        }
    }
}

/// One failure, carrying its category and a human-readable cause.
///
/// None of these are retried inside the engine: every failure short-circuits
/// the run and is returned as its single terminal error.
#[derive(Debug, Clone)]
pub struct Error {
    kind: ErrorKind,
    message: String,
}

impl Error {
    pub closed spec fn spec_kind(&self) -> ErrorKind {
        self.kind
    }

    pub closed spec fn spec_message(&self) -> Seq<char> {
        self.message@
    }

    pub fn new(kind: ErrorKind, message: String) -> (e: Error)
        ensures
            e.spec_kind() == kind,
            e.spec_message() == message@,
    {
        Error { kind, message }
    }

    /// An error whose message is just its category's description.
    pub fn from_kind(kind: ErrorKind) -> (e: Error)
        ensures
            e.spec_kind() == kind,
            e.spec_message() == kind.spec_text(),
    {
        let message = kind.text();
        Error { kind, message }
    }

    pub fn kind(&self) -> (k: ErrorKind)
        ensures
            k == self.spec_kind(),
    {
        self.kind
    }

    pub fn message(&self) -> (m: &String)
        ensures
            m@ == self.spec_message(),
    {
        &self.message
    }
}

} // verus!
