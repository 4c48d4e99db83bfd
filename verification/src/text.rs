//! Small verified text utilities: case-insensitive tag comparison for the
//! field-type alias table, and the fixed string shapes the generator emits
//! (name-index labels, volume references, record file names).

use vstd::prelude::*;
use vstd::string::StrSliceExecFns;
use vstd::string::StringExecFns;

verus! {

/// The code point of `c`, with an ASCII capital letter folded to its
/// lower-case counterpart. Characters outside `A`..=`Z` are unchanged.
pub open spec fn fold_code(c: char) -> int {
    if 65 <= c as int && c as int <= 90 {
        c as int + 32
    } else {
        c as int
    }
}

/// Equality of two character sequences up to ASCII case.
pub open spec fn tag_eq(a: Seq<char>, b: Seq<char>) -> bool {
    a.len() == b.len() && (forall|i: int| 0 <= i < a.len() ==> fold_code(a[i]) == fold_code(b[i]))
}

fn fold_exec(c: char) -> (r: u32)
    ensures
        r as int == fold_code(c),
{
    let n = c as u32;
    if 65 <= n && n <= 90 {
        n + 32
    } else {
        n
    }
}

/// Whether a user-supplied type tag matches a fixed alias, ignoring
/// ASCII case.
pub fn tag_matches(s: &str, alias: &str) -> (r: bool)
    ensures
        r == tag_eq(s@, alias@),
{
    let n = s.unicode_len();
    let m = alias.unicode_len();
    if n != m {
        return false;
    }
    for i in 0..n
        invariant
            n == s@.len(),
            n == alias@.len(),
            forall|j: int| 0 <= j < i ==> fold_code(s@[j]) == fold_code(alias@[j]),
    {
        let a = fold_exec(s.get_char(i));
        let b = fold_exec(alias.get_char(i));
        if a != b {
            return false;
        }
    }
    true
}

/// The label the name index stores for a record: `"<name> # <handle>"`.
pub fn name_label(name: &str, handle: &str) -> (r: String)
    ensures
        r@ == name@ + " # "@ + handle@,
{
    let r = String::from_str(name).concat(" # ").concat(handle);
    proof {
        assert(r@ =~= name@ + " # "@ + handle@);
    }
    r
}

/// A volume reference as the asset settings expect it: `"volume:<uid>"`.
pub fn volume_source(uid: &str) -> (r: String)
    ensures
        r@ == "volume:"@ + uid@,
{
    String::from_str("volume:").concat(uid)
}

/// The relative path of one emitted record:
/// `"<category>/<handle>--<uid>.yaml"`.
pub fn record_path(category: &str, handle: &str, uid: &str) -> (r: String)
    ensures
        r@ == category@ + "/"@ + handle@ + "--"@ + uid@ + ".yaml"@,
{
    let r = String::from_str(category).concat("/").concat(handle).concat("--").concat(uid).concat(
        ".yaml",
    );
    proof {
        assert(r@ =~= category@ + "/"@ + handle@ + "--"@ + uid@ + ".yaml"@);
    }
    r
}

} // verus!
