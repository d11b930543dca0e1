use vstd::prelude::*;

verus! {

/// The kinds of failure that end a run.
#[derive(Clone, Copy, Debug, PartialEq, Eq, Structural)]
pub enum ErrorKind {
    /// The API credential is absent from the configuration.
    ConfigMissing,
    /// The transport failed, or an endpoint answered with a non-success status.
    UpstreamRequestFailed,
    /// A reply is not JSON, or lacks a field that is required.
    MalformedResponse,
    /// A caller-supplied parameter is out of range.
    ValidationError,
}

/// An error of the pipeline: its kind, the item it concerns (for a failed
/// statistic lookup) and a description of the cause.
#[derive(Debug)]
pub struct PipelineError {
    pub kind: ErrorKind,
    pub item_id: Option<String>,
    pub cause: String,
}

impl PipelineError {
    pub fn new(kind: ErrorKind, item_id: Option<String>, cause: String) -> (r: PipelineError)
        ensures
            r.kind == kind,
            r.item_id == item_id,
            r.cause == cause,
    {
        PipelineError { kind, item_id, cause }
    }

    /// A field-by-field copy.
    pub fn duplicate(&self) -> (r: PipelineError)
        ensures
            r == *self,
    {
        let item_id = match &self.item_id {
            Some(s) => Some(s.clone()),
            None => None,
        };
        PipelineError { kind: self.kind, item_id, cause: self.cause.clone() }
    }

    /// The kind of this error.
    pub fn kind(&self) -> (r: ErrorKind)
        ensures
            r == self.kind,
    {
        self.kind
    }
}

} // verus!
