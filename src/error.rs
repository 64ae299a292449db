use vstd::prelude::*;

verus! {

/// All possible error kinds.
#[derive(Debug, Clone, Copy, PartialEq, Eq, Structural)]
pub enum ErrorKind {
    /// Errors encountered during the discovery service.
    Discovery,
    /// Errors encountered when sending requests to a device.
    Request,
    /// Errors caused by an invalid parameter.
    InvalidParameter,
    /// Errors encountered while parsing a `json` response.
    JsonResponse,
    /// Errors encountered while parsing a byte stream response.
    StreamResponse,
    /// Errors encountered while constructing the request sender.
    Sender,
    /// Errors related to event management.
    Events,
}

/// The text that names an error kind.
pub open spec fn kind_text(kind: ErrorKind) -> Seq<char> {
    match kind {
        ErrorKind::Discovery => "Discovery"@,
        ErrorKind::Request => "Request"@,
        ErrorKind::InvalidParameter => "Invalid Parameter"@,
        ErrorKind::JsonResponse => "Json Response"@,
        ErrorKind::StreamResponse => "Stream Response"@,
        ErrorKind::Sender => "Response Sender"@,
        ErrorKind::Events => "Events"@,
    }
}

impl ErrorKind {
    /// The text that names the error kind.
    pub fn description(self) -> (r: &'static str)
        ensures
            r@ == kind_text(self),
    {
        match self {
            ErrorKind::Discovery => "Discovery",
            ErrorKind::Request => "Request",
            ErrorKind::InvalidParameter => "Invalid Parameter",
            ErrorKind::JsonResponse => "Json Response",
            ErrorKind::StreamResponse => "Stream Response",
            ErrorKind::Sender => "Response Sender",
            ErrorKind::Events => "Events",
        }
    }
}

/// Controller error: a kind and a human description.
#[derive(Debug, Clone, PartialEq)]
pub struct Error {
    /// The kind of the error.
    pub kind: ErrorKind,
    /// What went wrong.
    pub description: String,
}

impl Error {
    /// Creates an [`Error`] from an [`ErrorKind`] and a description.
    pub fn new(kind: ErrorKind, description: &str) -> (r: Error)
        ensures
            r.kind == kind,
            r.description@ == description@,
    {
        Error { kind, description: String::from_str(description) }
    }

    /// The kind of the error.
    pub fn kind(&self) -> (r: ErrorKind)
        ensures
            r == self.kind,
    {
        self.kind
    }

    /// The error as text: its kind, a colon and its description.
    pub fn format(&self) -> (r: String)
        ensures
            r@ == kind_text(self.kind) + ": "@ + self.description@,
    {
        let mut r = String::from_str(self.kind.description());
        r.append(": ");
        r.append(self.description.as_str());
        proof {
            reveal_strlit(": ");
        }
        r
    }
}

} // verus!
