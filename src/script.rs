//! A script: its source, where it came from, and its parsed metadata.

use vstd::prelude::*;
use crate::metadata::{
    json_accepts, metadata_block, parse_metadata, parsed_as, Metadata, MetadataFault,
    ParseScriptError,
};

verus! {

pub struct Script {
    pub metadata: Metadata,
    /// The file the script was read from; empty for bundled scripts.
    pub path: String,
    pub source: String,
}

/// The metadata outcome of a parse, the script dropped.
pub open spec fn metadata_outcome(r: Result<Script, ParseScriptError>) -> Result<
    Metadata,
    ParseScriptError,
> {
    match r {
        Ok(s) => Ok(s.metadata),
        Err(e) => Err(e),
    }
}

impl Script {
    /// A script from its source text. Fails when the source has no metadata
    /// block, or when the block is not valid metadata.
    pub fn from_source(source: String, path: String) -> (r: Result<Script, ParseScriptError>)
        ensures
            metadata_block(source@) is None <==> r matches Err(ParseScriptError::NoMetadata),
            metadata_block(source@) matches Some(b) && !json_accepts(b) <==> r matches Err(
                ParseScriptError::InvalidMetadata(MetadataFault::Json(_)),
            ),
            !(r matches Err(ParseScriptError::FailedToRead(_))),
            r matches Ok(s) ==> s.source@ == source@ && s.path == path,
            parsed_as(source@, metadata_outcome(r)),
    {
        match parse_metadata(source.as_str()) {
            Ok(metadata) => Ok(Script { metadata, path, source }),
            Err(e) => Err(e),
        }
    }

    /// The source text, as it was given.
    pub fn source(&self) -> (r: &str)
        ensures
            r@ == self.source@,
    {
        self.source.as_str()
    }
}

} // verus!
