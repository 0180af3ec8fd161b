//! Normalization of discovered plugin directory paths, so they are safe to
//! hand to spawned plugin processes: a Windows extended-length (verbatim)
//! prefix is stripped where that is safe; every other path passes through
//! unchanged.
use vstd::prelude::*;

verus! {

/// The simplified form of a path: what `dunce::simplified` returns for it.
/// The full safety condition for stripping is involved; what matters here
/// is named once and pinned down by the facts on `simplify_raw`.
pub uninterp spec fn simplified_path(path: Seq<char>) -> Seq<char>;

/// The four characters that open a Windows verbatim path.
pub open spec fn verbatim_prefix() -> Seq<char> {
    seq!['\\', '\\', '?', '\\']
}

/// Relies on dunce::simplified: it returns the path unchanged, or, when the
/// path opens with a verbatim disk prefix and is safe to strip, the path
/// without its first four characters. The result depends on the path's
/// characters alone; the call does no I/O.
#[verifier::external_body]
fn simplify_raw(path: &str) -> (r: String)
    ensures
        r@ == simplified_path(path@),
        r@ == path@ || r@ == path@.skip(4),
        path@.len() >= 4 && path@.take(4) != verbatim_prefix() ==> r@ == path@,
        path@.len() < 4 ==> r@ == path@,
{
    dunce::simplified(std::path::Path::new(path)).to_string_lossy().into_owned()
}

/// Normalizes each discovered plugin directory path in place of order: the
/// result has one entry per input, each the simplified form of its input.
pub fn simplify_plugin_dirs(dirs: Vec<String>) -> (r: Vec<String>)
    ensures
        r@.len() == dirs@.len(),
        forall|i: int| 0 <= i < dirs@.len() ==> (#[trigger] r@[i])@ == simplified_path(dirs@[i]@),
{
    let mut out: Vec<String> = Vec::new();
    let mut i: usize = 0;
    while i < dirs.len()
        invariant
            i <= dirs@.len(),
            out@.len() == i,
            forall|j: int| 0 <= j < i ==> (#[trigger] out@[j])@ == simplified_path(dirs@[j]@),
        decreases dirs@.len() - i,
    {
        let simplified = simplify_raw(dirs[i].as_str());
        out.push(simplified);
        i += 1;
    }
    out
}

} // verus!
