//! What the pipeline hands to each command, and what each command reports.
use vstd::prelude::*;

use crate::models::Version;

verus! {

/// The registry and the package that a resource stands for.
#[derive(Debug, Clone)]
pub struct Source {
    /// The registry's base URI.
    pub uri: String,
    pub owner: String,
    pub token: String,
    pub package: String,
}

/// Parameters of the fetch step; it takes none.
#[derive(Debug, Clone, PartialEq, Eq)]
pub struct GetStepParams {}

/// Input of `check`: the source and the last version the pipeline knows, if any.
#[derive(Debug, Clone)]
pub struct CheckParams {
    pub source: Source,
    pub version: Option<Version>,
}

/// Output of a fetch: the version now present at the destination.
#[derive(Debug, Clone)]
pub struct GetOutput<'a> {
    pub version: &'a Version,
}

impl<'a> From<&'a Version> for GetOutput<'a> {
    fn from(value: &'a Version) -> (r: Self) {
        GetOutput { version: value }
    }
}

impl<'a> vstd::std_specs::convert::FromSpecImpl<&'a Version> for GetOutput<'a> {
    open spec fn obeys_from_spec() -> bool {
        true
    }

    open spec fn from_spec(v: &'a Version) -> GetOutput<'a> {
        GetOutput { version: v }
    }
}

/// Output of a publish: the version the files were published under.
#[derive(Debug, Clone)]
pub struct OutOutput<'a> {
    pub version: &'a Version,
}

impl<'a> From<&'a Version> for OutOutput<'a> {
    fn from(value: &'a Version) -> (r: Self) {
        OutOutput { version: value }
    }
}

impl<'a> vstd::std_specs::convert::FromSpecImpl<&'a Version> for OutOutput<'a> {
    open spec fn obeys_from_spec() -> bool {
        true
    }

    open spec fn from_spec(v: &'a Version) -> OutOutput<'a> {
        OutOutput { version: v }
    }
}

/// Input of a fetch: the source and the version to download.
#[derive(Debug, Clone)]
pub struct GetParams {
    pub source: Source,
    pub version: Version,
}

/// Parameters of the publish step.
#[derive(Debug, Clone)]
pub struct OutStepParams {
    /// Declared for the pipeline; files already present are skipped whatever it holds.
    pub skip_if_exists: bool,
    pub version: String,
    /// Local paths, relative to the sources directory.
    pub files: Vec<String>,
}

/// Input of a publish: the source and the step's parameters.
#[derive(Debug, Clone)]
pub struct OutParams {
    pub source: Source,
    pub params: OutStepParams,
}

} // verus!
