//! Path-string helpers: the final component of a slash-separated path, its
//! stem and extension, joining, and the recognized-source-file test used by
//! whole-project source discovery.
use vstd::prelude::*;
use crate::text::str_eq;

verus! {

/// The index of the last occurrence of `d` in `s`, or -1 when absent.
pub open spec fn rfind_char(s: Seq<char>, d: char) -> int
    decreases s.len(),
{
    if s.len() == 0 {
        -1
    } else if s.last() == d {
        s.len() - 1
    } else {
        rfind_char(s.drop_last(), d)
    }
}

pub proof fn lemma_rfind_char(s: Seq<char>, d: char)
    ensures
        rfind_char(s, d) >= -1,
        rfind_char(s, d) < 0 <==> !s.contains(d),
        rfind_char(s, d) >= 0 ==> rfind_char(s, d) < s.len() && s[rfind_char(s, d)] == d,
        forall|k: int| rfind_char(s, d) < k < s.len() ==> s[k] != d,
    decreases s.len(),
{
    if s.len() > 0 && s.last() != d {
        lemma_rfind_char(s.drop_last(), d);
        if !s.drop_last().contains(d) && s.contains(d) {
            let w = choose|w: int| 0 <= w < s.len() && s[w] == d;
            assert(s.drop_last()[w] == d);
        }
        assert forall|k: int| rfind_char(s, d) < k < s.len() implies s[k] != d by {
            if k < s.len() - 1 {
                assert(s.drop_last()[k] == s[k]);
                assert(s.drop_last()[k] != d);
            }
        }
    }
}

/// The part of `s` after its last slash: the whole of `s` when it has none.
pub open spec fn basename(s: Seq<char>) -> Seq<char> {
    s.skip(rfind_char(s, '/') + 1)
}

/// The basename of `s` up to its last dot; a leading dot or no dot at all
/// leaves the basename whole.
pub open spec fn file_stem(s: Seq<char>) -> Seq<char> {
    let b = basename(s);
    let dot = rfind_char(b, '.');
    if dot <= 0 {
        b
    } else {
        b.take(dot)
    }
}

/// The part of the basename of `s` after its last dot, when that dot is
/// neither absent nor leading.
pub open spec fn extension(s: Seq<char>) -> Option<Seq<char>> {
    let b = basename(s);
    let dot = rfind_char(b, '.');
    if dot <= 0 {
        None
    } else {
        Some(b.skip(dot + 1))
    }
}

/// Whether `s` names a source file of the C/C++ family: its extension is
/// `c` or `cpp`.
pub open spec fn is_source_name(s: Seq<char>) -> bool {
    match extension(s) {
        Some(e) => e == "c"@ || e == "cpp"@,
        None => false,
    }
}

/// `dir` and `name` joined with a single slash.
pub open spec fn joined(dir: Seq<char>, name: Seq<char>) -> Seq<char> {
    dir + seq!['/'] + name
}

/// The index of the last occurrence of `d` in `s`, when there is one.
fn rfind(s: &str, d: char) -> (r: Option<usize>)
    ensures
        r matches Some(i) ==> i == rfind_char(s@, d),
        r is None ==> rfind_char(s@, d) < 0,
{
    let n = s.unicode_len();
    let mut j: usize = n;
    while j > 0
        invariant
            0 <= j <= n,
            n == s@.len(),
            forall|k: int| j <= k < n ==> s@[k] != d,
        decreases j,
    {
        if s.get_char(j - 1) == d {
            proof {
                lemma_rfind_char(s@, d);
            }
            return Some(j - 1);
        }
        j -= 1;
    }
    proof {
        lemma_rfind_char(s@, d);
        if s@.contains(d) {
            let w = choose|w: int| 0 <= w < s@.len() && s@[w] == d;
            assert(s@[w] != d);
        }
    }
    None
}

/// The part of `s` after its last slash.
pub fn basename_of(s: &str) -> (r: String)
    ensures
        r@ == basename(s@),
{
    let n = s.unicode_len();
    match rfind(s, '/') {
        Some(i) => {
            proof {
                lemma_rfind_char(s@, '/');
            }
            s.substring_char(i + 1, n).to_owned()
        },
        None => {
            proof {
                lemma_rfind_char(s@, '/');
                assert(s@.skip(0) =~= s@);
            }
            s.to_owned()
        },
    }
}

/// The basename of `s` up to its last dot.
pub fn file_stem_of(s: &str) -> (r: String)
    ensures
        r@ == file_stem(s@),
{
    let b = basename_of(s);
    let bs = b.as_str();
    let n = bs.unicode_len();
    match rfind(bs, '.') {
        Some(dot) => {
            if dot == 0 {
                b
            } else {
                proof {
                    lemma_rfind_char(bs@, '.');
                }
                bs.substring_char(0, dot).to_owned()
            }
        },
        None => b,
    }
}

/// Whether `s` names a source file of the C/C++ family.
pub fn is_recognized_source(s: &str) -> (r: bool)
    ensures
        r == is_source_name(s@),
{
    let b = basename_of(s);
    let bs = b.as_str();
    let n = bs.unicode_len();
    match rfind(bs, '.') {
        Some(dot) => {
            if dot == 0 {
                false
            } else {
                proof {
                    lemma_rfind_char(bs@, '.');
                }
                let ext = bs.substring_char(dot + 1, n);
                str_eq(ext, "c") || str_eq(ext, "cpp")
            }
        },
        None => false,
    }
}

/// `dir` and `name` joined with a single slash.
pub fn path_join(dir: &str, name: &str) -> (r: String)
    ensures
        r@ == joined(dir@, name@),
{
    let mut r = dir.to_owned();
    r.append("/");
    r.append(name);
    proof {
        reveal_strlit("/");
        assert("/"@ =~= seq!['/']);
    }
    r
}

} // verus!
