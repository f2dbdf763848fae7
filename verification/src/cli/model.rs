//! The versions of tmgr that the `migrate` command knows.
use vstd::prelude::*;
use crate::text::owned;

verus! {

/// A major version of tmgr's database schema.
#[derive(Debug, Clone, Copy, PartialEq, Eq, Structural)]
pub enum TmgrVersion {
    V2,
    V3,
    Invalid,
}

/// The version for a major version number: 2 and 3 are known, anything else is invalid.
pub open spec fn version_of(value: u32) -> TmgrVersion {
    if value == 2 {
        TmgrVersion::V2
    } else if value == 3 {
        TmgrVersion::V3
    } else {
        TmgrVersion::Invalid
    }
}

/// The name of a version: `v2`, `v3` or `invalid`.
pub open spec fn version_text(v: TmgrVersion) -> Seq<char> {
    match v {
        TmgrVersion::V2 => "v2"@,
        TmgrVersion::V3 => "v3"@,
        TmgrVersion::Invalid => "invalid"@,
    }
}

impl From<u32> for TmgrVersion {
    fn from(value: u32) -> (v: Self) {
        if value == 2 {
            TmgrVersion::V2
        } else if value == 3 {
            TmgrVersion::V3
        } else {
            TmgrVersion::Invalid
        }
    }
}

impl vstd::std_specs::convert::FromSpecImpl<u32> for TmgrVersion {
    open spec fn obeys_from_spec() -> bool {
        true
    }

    open spec fn from_spec(v: u32) -> Self {
        version_of(v)
    }
}

impl TmgrVersion {
    /// The name of the version: `v2`, `v3` or `invalid`.
    pub fn to_string(&self) -> (s: String)
        ensures
            s@ == version_text(*self),
    {
        match self {
            TmgrVersion::V2 => owned("v2"),
            TmgrVersion::V3 => owned("v3"),
            TmgrVersion::Invalid => owned("invalid"),
        }
    }
}

} // verus!
