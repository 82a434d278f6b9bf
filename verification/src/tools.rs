//! Decisions of the shader build helper: whether an artifact is out of
//! date, and which pipeline stage a shader source file belongs to.  The
//! caller reads file times and names; the rules live here.

use vstd::prelude::*;

verus! {

/// Whether a compiled artifact is out of date.
///
/// A missing source never forces a rebuild, a missing output always
/// does; otherwise the source being strictly newer decides.  Timestamps
/// arrive as opaque monotone ticks.
pub fn needs_rebuild(source_time: Option<u64>, output_time: Option<u64>) -> (r: bool)
    ensures
        source_time is None ==> !r,
        source_time is Some && output_time is None ==> r,
        source_time is Some && output_time is Some ==> r == (source_time.unwrap()
            > output_time.unwrap()),
{
    match (source_time, output_time) {
        (None, _) => false,
        (Some(_), None) => true,
        (Some(s), Some(o)) => s > o,
    }
}

/// Whether two strings hold the same characters.
fn str_chars_eq(a: &str, b: &str) -> (r: bool)
    ensures
        r == (a@ == b@),
{
    let la = a.unicode_len();
    let lb = b.unicode_len();
    if la != lb {
        return false;
    }
    let mut j: usize = 0;
    while j < la
        invariant
            la == a@.len(),
            lb == b@.len(),
            la == lb,
            j <= la,
            forall|i: int| 0 <= i < j ==> a@[i] == b@[i],
        decreases la - j,
    {
        if a.get_char(j) != b.get_char(j) {
            return false;
        }
        j += 1;
    }
    proof {
        assert(a@ =~= b@);
    }
    true
}

/// The pipeline stage named by a shader source file's extension, or
/// `None` for a file that is not a shader source.
pub open spec fn spec_shader_stage(ext: Seq<char>) -> Option<Seq<char>> {
    if ext == "vert"@ {
        Some("vertex"@)
    } else if ext == "frag"@ {
        Some("fragment"@)
    } else if ext == "comp"@ {
        Some("compute"@)
    } else if ext == "geom"@ {
        Some("geometry"@)
    } else if ext == "tesc"@ {
        Some("tesscontrol"@)
    } else if ext == "tese"@ {
        Some("tesseval"@)
    } else {
        None
    }
}

/// The pipeline stage named by a shader source file's extension, or
/// `None` for a file that is not a shader source.
pub fn shader_stage(extension: &str) -> (r: Option<&'static str>)
    ensures
        (match r {
            Some(stage) => spec_shader_stage(extension@) == Some(stage@),
            None => spec_shader_stage(extension@) is None,
        }),
{
    if str_chars_eq(extension, "vert") {
        Some("vertex")
    } else if str_chars_eq(extension, "frag") {
        Some("fragment")
    } else if str_chars_eq(extension, "comp") {
        Some("compute")
    } else if str_chars_eq(extension, "geom") {
        Some("geometry")
    } else if str_chars_eq(extension, "tesc") {
        Some("tesscontrol")
    } else if str_chars_eq(extension, "tese") {
        Some("tesseval")
    } else {
        None
    }
}

} // verus!
