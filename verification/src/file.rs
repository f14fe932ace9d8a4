//! Configuration of a file-writing observer.
//!
//! The writer itself performs I/O and lives outside the library; what the
//! library holds is the configuration an attached file sink is built from:
//! where to write, under what identifier, in which format, and what to
//! record.  Sinks open their files lazily, on each observation.

use std::path::PathBuf;

use vstd::prelude::*;

use crate::watchers::Target;

verus! {

/// Declares `std::path::PathBuf`, carried as an opaque value: the library
/// only stores where a sink writes, never reads inside the path.
#[verifier::external_type_specification]
#[verifier::external_body]
pub struct ExPathBuf(PathBuf);

/// The serialisation format a file writer records in.
#[derive(Clone, Copy, Debug, PartialEq, Eq, Structural)]
pub enum WriteToFileSerializer {
    /// One JSON document per observation.
    JSON,
    /// One comma-separated row per observation.
    CSV,
}

/// The configuration of an observer which writes observations to files.
pub struct FileWriter {
    /// The directory the sink writes into.
    pub dir: PathBuf,
    /// The identifier the sink's files are named by.
    pub identifier: String,
    /// An identifier recorded inside each written item, where one is set.
    pub writeable_identifier: Option<String>,
    /// The serialisation format.
    pub serializer: WriteToFileSerializer,
    /// What the sink records of the observed state.
    pub target: Target,
}

impl FileWriter {
    /// Configure a file-writing observer.
    pub fn new(dir: PathBuf, identifier: String, serializer: WriteToFileSerializer, target: Target)
        -> (r: Self)
        ensures
            r.dir == dir,
            r.identifier == identifier,
            r.writeable_identifier is None,
            r.serializer == serializer,
            r.target == target,
    {
        FileWriter { dir, identifier, writeable_identifier: None, serializer, target }
    }

    /// Record the given identifier inside each written item.
    #[must_use]
    pub fn with_writeable_identifier(self, identifier: String) -> (r: Self)
        ensures
            r == (FileWriter { writeable_identifier: Some(identifier), ..self }),
    {
        let mut w = self;
        w.writeable_identifier = Some(identifier);
        w
    }
}

} // verus!
