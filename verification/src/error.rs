//! The failures of an invocation, each labelled for the host.
use vstd::prelude::*;

verus! {

/// Where in the host's input the invocation stands: the span that an error points at.
#[derive(Clone, Copy, Debug, PartialEq, Eq, Structural)]
pub struct RequestContext {
    pub start: usize,
    pub end: usize,
}

/// The four kinds of failure.
#[derive(Clone, Copy, Debug, PartialEq, Eq, Structural)]
pub enum ErrorKind {
    /// The daemon could not be reached.
    Connection,
    /// The daemon answered with a protocol or semantic error.
    Api,
    /// A fetched record could not be turned into a row.
    Serialization,
    /// An argument of the invocation was not one of the expected names.
    Input,
}

/// Why a fetch failed, with the underlying message.
#[derive(Clone, Debug, PartialEq, Eq)]
pub enum TransportError {
    ConnectionFailed(String),
    ApiError(String),
}

impl TransportError {
    /// The kind of failure that this transport error is reported as.
    pub open spec fn kind(self) -> ErrorKind {
        match self {
            TransportError::ConnectionFailed(_) => ErrorKind::Connection,
            TransportError::ApiError(_) => ErrorKind::Api,
        }
    }

    /// The underlying message.
    pub open spec fn message(self) -> Seq<char> {
        match self {
            TransportError::ConnectionFailed(text) => text@,
            TransportError::ApiError(text) => text@,
        }
    }
}

/// A failure as the host receives it: a short machine-facing label, a message
/// for the user and the context of the invocation.
#[derive(Clone, Debug, PartialEq, Eq)]
pub struct LabeledError {
    pub kind: ErrorKind,
    pub label: String,
    pub message: String,
    pub context: RequestContext,
}

/// A labelled error with its strings as sequences of characters.
pub struct LabeledErrorView {
    pub kind: ErrorKind,
    pub label: Seq<char>,
    pub message: Seq<char>,
    pub context: RequestContext,
}

impl View for LabeledError {
    type V = LabeledErrorView;

    open spec fn view(&self) -> LabeledErrorView {
        LabeledErrorView {
            kind: self.kind,
            label: self.label@,
            message: self.message@,
            context: self.context,
        }
    }
}

/// The error for a failed fetch: the message is `dock failed: ` and the
/// underlying message, the label is `error`.
pub open spec fn fetch_failure(cause: TransportError, context: RequestContext) -> LabeledErrorView {
    LabeledErrorView {
        kind: cause.kind(),
        label: "error"@,
        message: "dock failed: "@ + cause.message(),
        context,
    }
}

/// The error for a record that could not be turned into a row.
pub open spec fn conversion_failure(detail: Seq<char>, context: RequestContext) -> LabeledErrorView {
    LabeledErrorView {
        kind: ErrorKind::Serialization,
        label: "failed to convert output values"@,
        message: "failed to convert output values: "@ + detail,
        context,
    }
}

/// The error for a discriminator that names no mode.
pub open spec fn input_failure(context: RequestContext) -> LabeledErrorView {
    LabeledErrorView {
        kind: ErrorKind::Input,
        label: "invalid subcommand"@,
        message: "Invalid subcommand. Expected images or containers"@,
        context,
    }
}

impl LabeledError {
    /// Labels a failed fetch.
    pub fn fetch_failed(cause: &TransportError, context: RequestContext) -> (error: LabeledError)
        ensures
            error@ == fetch_failure(*cause, context),
    {
        let (kind, message) = match cause {
            TransportError::ConnectionFailed(text) => (
                ErrorKind::Connection,
                "dock failed: ".to_owned().concat(text.as_str()),
            ),
            TransportError::ApiError(text) => (
                ErrorKind::Api,
                "dock failed: ".to_owned().concat(text.as_str()),
            ),
        };
        LabeledError { kind, label: "error".to_owned(), message, context }
    }

    /// Labels a failed conversion of the fetched records; `detail` is the serializer's message.
    pub fn conversion_failed(detail: &str, context: RequestContext) -> (error: LabeledError)
        ensures
            error@ == conversion_failure(detail@, context),
    {
        LabeledError {
            kind: ErrorKind::Serialization,
            label: "failed to convert output values".to_owned(),
            message: "failed to convert output values: ".to_owned().concat(detail),
            context,
        }
    }

    /// Labels a discriminator that names no mode.
    pub fn invalid_subcommand(context: RequestContext) -> (error: LabeledError)
        ensures
            error@ == input_failure(context),
    {
        LabeledError {
            kind: ErrorKind::Input,
            label: "invalid subcommand".to_owned(),
            message: "Invalid subcommand. Expected images or containers".to_owned(),
            context,
        }
    }
}

} // verus!
