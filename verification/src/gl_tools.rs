//! Tools related to the GL renderer that do not touch GL: which shading language a GL reports.

use vstd::prelude::*;

use crate::text::{contains_text, str_find_some};

verus! {

/// Version of the GL ES shading language that shaders are written for.
#[derive(Clone, Copy, Debug, PartialEq, Eq, Structural)]
pub enum GlslVersion {
    Unknown,
    Glsl100,
    Glsl300,
}

/// The latest shading language version that a GL supports, judged from the shading language
/// version string it reports: ES 3 before ES 1, anything else is unknown.
pub open spec fn spec_shading_lang_version(version: Seq<char>) -> GlslVersion {
    if contains_text(version, "ES 3."@) {
        GlslVersion::Glsl300
    } else if contains_text(version, "ES 1."@) {
        GlslVersion::Glsl100
    } else {
        GlslVersion::Unknown
    }
}

/// Returns the latest supported version of GL ES shading language given the version string the
/// GL reports.
pub fn shading_lang_version(version: &str) -> (result: GlslVersion)
    ensures
        result == spec_shading_lang_version(version@),
{
    if str_find_some(version, "ES 3.") {
        GlslVersion::Glsl300
    } else if str_find_some(version, "ES 1.") {
        GlslVersion::Glsl100
    } else {
        GlslVersion::Unknown
    }
}

} // verus!
