//! Small verified helpers on strings: comparison, name composition, and the
//! canonical lowercase word form of a variant identifier.

use convert_case::Case;
use convert_case::Casing;
use vstd::prelude::*;
use vstd::string::StringExecFns;

verus! {

/// True exactly when the two strings hold the same characters.
pub fn str_eq(a: &str, b: &str) -> (r: bool)
    ensures
        r == (a@ == b@),
{
    let sa = a.to_owned();
    let sb = b.to_owned();
    sa == sb
}

/// True exactly when the string holds the same characters as the literal.
pub fn string_is(s: &String, lit: &str) -> (r: bool)
    ensures
        r == (s@ == lit@),
{
    str_eq(s.as_str(), lit)
}

/// True exactly when one of the strings in the vector holds the same
/// characters as the given one.
pub fn vec_contains_str(v: &Vec<String>, s: &String) -> (r: bool)
    ensures
        r == v@.map_values(|x: String| x@).contains(s@),
{
    let ghost model = v@.map_values(|x: String| x@);
    let mut i: usize = 0;
    while i < v.len()
        invariant
            i <= v.len(),
            model == v@.map_values(|x: String| x@),
            forall|k: int| 0 <= k < i ==> model[k] != s@,
        decreases v.len() - i,
    {
        if string_is(&v[i], s.as_str()) {
            assert(model.contains(s@)) by {
                assert(model[i as int] == s@);
            }
            return true;
        }
        i += 1;
    }
    false
}

/// Clones a vector of strings, keeping every element.
pub fn clone_strings(v: &Vec<String>) -> (r: Vec<String>)
    ensures
        r@ == v@,
{
    let mut r: Vec<String> = Vec::new();
    let mut i: usize = 0;
    while i < v.len()
        invariant
            i <= v.len(),
            r@.len() == i,
            forall|k: int| 0 <= k < i ==> r@[k] == v@[k],
        decreases v.len() - i,
    {
        r.push(v[i].clone());
        i += 1;
    }
    proof {
        assert(r@ =~= v@);
    }
    r
}

/// The canonical lowercase word form of an identifier: lower-cased,
/// split at casing boundaries and joined with underscores.
pub uninterp spec fn snake_of(s: Seq<char>) -> Seq<char>;

/// Relies on convert_case's `Casing::to_case` with `Case::Snake`: the result
/// depends on the input characters alone.
#[verifier::external_body]
pub fn to_snake_case(s: &str) -> (r: String)
    ensures
        r@ == snake_of(s@),
{
    s.to_case(Case::Snake)
}

/// Composes an operation name: `{prefix}_{stem}` or `{prefix}_{stem}_{suffix}`.
pub open spec fn spec_composed_name(prefix: Seq<char>, stem: Seq<char>, suffix: Option<Seq<char>>) -> Seq<char> {
    match suffix {
        None => prefix + "_"@ + stem,
        Some(sfx) => prefix + "_"@ + stem + "_"@ + sfx,
    }
}

/// Builds an operation name from a prefix, a canonical variant name and an
/// optional suffix, joined with underscores.
pub fn compose_name(prefix: &str, stem: &str, suffix: Option<&str>) -> (r: String)
    ensures
        r@ == spec_composed_name(prefix@, stem@, match suffix {
            Some(sfx) => Some(sfx@),
            None => None,
        }),
{
    let mut r = prefix.to_owned();
    r.append("_");
    r.append(stem);
    match suffix {
        Some(sfx) => {
            r.append("_");
            r.append(sfx);
        },
        None => {},
    }
    r
}

} // verus!
