//! The boundary to the host: what the library asks of it, and what it has
//! answered so far.
//!
//! The library never touches the file system. Where a decision hangs on it,
//! the deciding function returns [`Step::Ask`] with a [`Query`]. The host
//! carries the query out, writes the answer into the matching field of its
//! [`Findings`], and calls the function again. A query is asked only while
//! its field is still empty, so the exchange ends.

use vstd::prelude::*;
use crate::error::{Failure, IoError, MeltforgeError};

verus! {

/// What the host found at a path.
#[derive(Clone, Copy, Debug, PartialEq, Eq, Hash, Structural)]
pub enum PathKind {
    /// Nothing is there.
    Missing,
    /// A regular file.
    File,
    /// A directory, or anything else that is no regular file.
    Other,
}

/// Why the file system refused an operation.
#[derive(Clone, Copy, Debug, PartialEq, Eq, Hash, Structural)]
pub enum IoFailure {
    /// The operation was not permitted.
    PermissionDenied,
    /// Any other reason.
    Other,
}

/// A question to the host. Each variant names the path it is about and
/// belongs to one field of [`Findings`].
#[derive(Debug, PartialEq, Eq)]
pub enum Query {
    /// What is at the input path? Answered in `input_kind`.
    InputKind(String),
    /// Can the input file be opened for reading? Answered in `input_open`.
    InputOpens(String),
    /// Is there anything at the output path? Answered in `output_exists`.
    OutputExists(String),
    /// Does the directory of the output path exist? Answered in
    /// `output_dir_exists`.
    OutputDirExists(String),
    /// Can this probe file be created? The host creates it and, if that went
    /// well, removes it at once. Answered in `probe_created`.
    ProbeWrite(String),
    /// Does the parent of the final output path exist? Answered in
    /// `parent_exists`.
    ParentExists(String),
    /// Create this directory and all that it lacks above it. Answered in
    /// `parent_created`.
    CreateParent(String),
    /// Read the whole input file. Answered in `source`.
    ReadSource(String),
    /// Write these bytes to the final output path. Answered in `stored`.
    Store(String, Vec<u8>),
}

/// The mathematical value of a [`Query`].
pub enum QuerySpec {
    InputKind(Seq<char>),
    InputOpens(Seq<char>),
    OutputExists(Seq<char>),
    OutputDirExists(Seq<char>),
    ProbeWrite(Seq<char>),
    ParentExists(Seq<char>),
    CreateParent(Seq<char>),
    ReadSource(Seq<char>),
    Store(Seq<char>, Seq<u8>),
}

impl View for Query {
    type V = QuerySpec;

    open spec fn view(&self) -> QuerySpec {
        match *self {
            Query::InputKind(path) => QuerySpec::InputKind(path@),
            Query::InputOpens(path) => QuerySpec::InputOpens(path@),
            Query::OutputExists(path) => QuerySpec::OutputExists(path@),
            Query::OutputDirExists(path) => QuerySpec::OutputDirExists(path@),
            Query::ProbeWrite(path) => QuerySpec::ProbeWrite(path@),
            Query::ParentExists(path) => QuerySpec::ParentExists(path@),
            Query::CreateParent(path) => QuerySpec::CreateParent(path@),
            Query::ReadSource(path) => QuerySpec::ReadSource(path@),
            Query::Store(path, bytes) => QuerySpec::Store(path@, bytes@),
        }
    }
}

impl QuerySpec {
    /// Whether carrying the query out changes the file system.
    pub open spec fn writes(self) -> bool {
        self is ProbeWrite || self is CreateParent || self is Store
    }
}

/// Where a decision stands: it waits for an answer, or it is made.
#[derive(Debug, PartialEq, Eq)]
pub enum Step<R> {
    /// The decision needs this answer first.
    Ask(Query),
    /// The decision.
    Done(R),
}

/// The mathematical value of a [`Step`].
pub enum Plan<R> {
    Ask(QuerySpec),
    Done(R),
}

impl View for Step<Result<(), IoError>> {
    type V = Plan<Result<(), Failure>>;

    open spec fn view(&self) -> Plan<Result<(), Failure>> {
        match *self {
            Step::Ask(query) => Plan::Ask(query@),
            Step::Done(Ok(())) => Plan::Done(Ok(())),
            Step::Done(Err(e)) => Plan::Done(Err(e@)),
        }
    }
}

impl View for Step<Result<(), MeltforgeError>> {
    type V = Plan<Result<(), Failure>>;

    open spec fn view(&self) -> Plan<Result<(), Failure>> {
        match *self {
            Step::Ask(query) => Plan::Ask(query@),
            Step::Done(Ok(())) => Plan::Done(Ok(())),
            Step::Done(Err(e)) => Plan::Done(Err(e@)),
        }
    }
}

impl View for Step<Result<String, MeltforgeError>> {
    type V = Plan<Result<Seq<char>, Failure>>;

    open spec fn view(&self) -> Plan<Result<Seq<char>, Failure>> {
        match *self {
            Step::Ask(query) => Plan::Ask(query@),
            Step::Done(Ok(path)) => Plan::Done(Ok(path@)),
            Step::Done(Err(e)) => Plan::Done(Err(e@)),
        }
    }
}

/// What the host has found out so far. A field is `None` until its query has
/// been answered.
#[derive(Debug, PartialEq, Eq)]
pub struct Findings {
    /// What is at the input path.
    pub input_kind: Option<PathKind>,
    /// Whether the input file could be opened for reading.
    pub input_open: Option<Result<(), IoFailure>>,
    /// Whether anything is at the output path that the caller chose.
    pub output_exists: Option<bool>,
    /// Whether the directory of that path exists.
    pub output_dir_exists: Option<bool>,
    /// Whether the probe file could be created in that directory.
    pub probe_created: Option<bool>,
    /// Whether the parent of the final output path exists.
    pub parent_exists: Option<bool>,
    /// How creating that parent went.
    pub parent_created: Option<Result<(), IoFailure>>,
    /// The bytes of the input file, or why they could not be read.
    pub source: Option<Result<Vec<u8>, String>>,
    /// How writing the output file went; on failure, why.
    pub stored: Option<Result<(), String>>,
}

impl Findings {
    /// Whether nothing has been found out yet.
    pub open spec fn is_blank(self) -> bool {
        &&& self.input_kind is None
        &&& self.input_open is None
        &&& self.output_exists is None
        &&& self.output_dir_exists is None
        &&& self.probe_created is None
        &&& self.parent_exists is None
        &&& self.parent_created is None
        &&& self.source is None
        &&& self.stored is None
    }

    /// Whether every question has been answered.
    pub open spec fn is_complete(self) -> bool {
        &&& self.input_kind is Some
        &&& self.input_open is Some
        &&& self.output_exists is Some
        &&& self.output_dir_exists is Some
        &&& self.probe_created is Some
        &&& self.parent_exists is Some
        &&& self.parent_created is Some
        &&& self.source is Some
        &&& self.stored is Some
    }

    /// Whether the field that answers `query` is still empty.
    pub open spec fn lacks(self, query: QuerySpec) -> bool {
        match query {
            QuerySpec::InputKind(_) => self.input_kind is None,
            QuerySpec::InputOpens(_) => self.input_open is None,
            QuerySpec::OutputExists(_) => self.output_exists is None,
            QuerySpec::OutputDirExists(_) => self.output_dir_exists is None,
            QuerySpec::ProbeWrite(_) => self.probe_created is None,
            QuerySpec::ParentExists(_) => self.parent_exists is None,
            QuerySpec::CreateParent(_) => self.parent_created is None,
            QuerySpec::ReadSource(_) => self.source is None,
            QuerySpec::Store(_, _) => self.stored is None,
        }
    }

    /// Whether `self` holds all that `earlier` holds, and maybe more.
    pub open spec fn extends(self, earlier: Findings) -> bool {
        &&& earlier.input_kind is Some ==> self.input_kind == earlier.input_kind
        &&& earlier.input_open is Some ==> self.input_open == earlier.input_open
        &&& earlier.output_exists is Some ==> self.output_exists == earlier.output_exists
        &&& earlier.output_dir_exists is Some ==> self.output_dir_exists
            == earlier.output_dir_exists
        &&& earlier.probe_created is Some ==> self.probe_created == earlier.probe_created
        &&& earlier.parent_exists is Some ==> self.parent_exists == earlier.parent_exists
        &&& earlier.parent_created is Some ==> self.parent_created == earlier.parent_created
        &&& earlier.source is Some ==> self.source == earlier.source
        &&& earlier.stored is Some ==> self.stored == earlier.stored
    }

    /// Returns the findings of a host that has not been asked anything.
    pub fn new() -> (blank: Findings)
        ensures
            blank.is_blank(),
    {
        Findings {
            input_kind: None,
            input_open: None,
            output_exists: None,
            output_dir_exists: None,
            probe_created: None,
            parent_exists: None,
            parent_created: None,
            source: None,
            stored: None,
        }
    }
}

} // verus!
