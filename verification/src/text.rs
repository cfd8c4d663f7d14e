//! Character-level text utilities the manifest parser is built on: trimming,
//! quote stripping, and splitting on a delimiter, each verified against a
//! sequence-level model.
use vstd::prelude::*;

verus! {

/// The whitespace characters a manifest line may carry around its tokens.
pub open spec fn is_space(c: char) -> bool {
    c == ' ' || c == '\t' || c == '\r'
}

/// The character class removed from a token's ends: double-quotes when
/// `quote` is set, whitespace otherwise.
pub open spec fn span_pred(quote: bool, c: char) -> bool {
    if quote {
        c == '"'
    } else {
        is_space(c)
    }
}

/// `s` with its longest prefix of characters in the class removed.
pub open spec fn drop_start(s: Seq<char>, quote: bool) -> Seq<char>
    decreases s.len(),
{
    if s.len() > 0 && span_pred(quote, s[0]) {
        drop_start(s.drop_first(), quote)
    } else {
        s
    }
}

/// `s` with its longest suffix of characters in the class removed.
pub open spec fn drop_end(s: Seq<char>, quote: bool) -> Seq<char>
    decreases s.len(),
{
    if s.len() > 0 && span_pred(quote, s.last()) {
        drop_end(s.drop_last(), quote)
    } else {
        s
    }
}

/// `s` with leading and trailing whitespace removed.
pub open spec fn trimmed(s: Seq<char>) -> Seq<char> {
    drop_end(drop_start(s, false), false)
}

/// `s` with every leading and trailing double-quote removed.
pub open spec fn strip_quotes(s: Seq<char>) -> Seq<char> {
    drop_end(drop_start(s, true), true)
}

proof fn lemma_drop_start_skip(s: Seq<char>, quote: bool, i: int)
    requires
        0 <= i <= s.len(),
        forall|k: int| 0 <= k < i ==> span_pred(quote, s[k]),
        i == s.len() || !span_pred(quote, s[i]),
    ensures
        drop_start(s, quote) == s.skip(i),
    decreases i,
{
    if i == 0 {
        assert(s.skip(0) =~= s);
    } else {
        lemma_drop_start_skip(s.drop_first(), quote, i - 1);
        assert(s.drop_first().skip(i - 1) =~= s.skip(i));
    }
}

proof fn lemma_drop_end_take(s: Seq<char>, quote: bool, j: int)
    requires
        0 <= j <= s.len(),
        forall|k: int| j <= k < s.len() ==> span_pred(quote, s[k]),
        j == 0 || !span_pred(quote, s[j - 1]),
    ensures
        drop_end(s, quote) == s.take(j),
    decreases s.len() - j,
{
    if j == s.len() {
        assert(s.take(j) =~= s);
    } else {
        lemma_drop_end_take(s.drop_last(), quote, j);
        assert(s.drop_last().take(j) =~= s.take(j));
    }
}

/// `s` with leading and trailing characters equal to `around` removed when
/// `quote` is set, and with leading and trailing whitespace removed otherwise.
fn trim_span(s: &str, quote: bool) -> (r: String)
    ensures
        quote ==> r@ == strip_quotes(s@),
        !quote ==> r@ == trimmed(s@),
{
    let n = s.unicode_len();
    let mut i: usize = 0;
    while i < n
        invariant
            0 <= i <= n,
            n == s@.len(),
            forall|k: int| 0 <= k < i ==> span_pred(quote, s@[k]),
        ensures
            0 <= i <= n,
            forall|k: int| 0 <= k < i ==> span_pred(quote, s@[k]),
            i == n || !span_pred(quote, s@[i as int]),
        decreases n - i,
    {
        let c = s.get_char(i);
        let hit = if quote {
            c == '"'
        } else {
            c == ' ' || c == '\t' || c == '\r'
        };
        if !hit {
            break ;
        }
        i += 1;
    }
    let mut j: usize = n;
    while j > i
        invariant
            i <= j <= n,
            n == s@.len(),
            forall|k: int| j <= k < n ==> span_pred(quote, s@[k]),
        ensures
            i <= j <= n,
            forall|k: int| j <= k < n ==> span_pred(quote, s@[k]),
            j == i || !span_pred(quote, s@[j - 1]),
        decreases j,
    {
        let c = s.get_char(j - 1);
        let hit = if quote {
            c == '"'
        } else {
            c == ' ' || c == '\t' || c == '\r'
        };
        if !hit {
            break ;
        }
        j -= 1;
    }
    proof {
        lemma_drop_start_skip(s@, quote, i as int);
        lemma_drop_end_take(s@.skip(i as int), quote, j - i);
        assert(s@.skip(i as int).take(j - i) =~= s@.subrange(i as int, j as int));
    }
    s.substring_char(i, j).to_owned()
}

/// `s` with leading and trailing whitespace removed.
pub fn trim(s: &str) -> (r: String)
    ensures
        r@ == trimmed(s@),
{
    trim_span(s, false)
}

/// `s` with every leading and trailing double-quote removed.
pub fn unquote(s: &str) -> (r: String)
    ensures
        r@ == strip_quotes(s@),
{
    trim_span(s, true)
}

/// The index of the first occurrence of `d` in `s`, or -1 when absent.
pub open spec fn find_char(s: Seq<char>, d: char) -> int
    decreases s.len(),
{
    if s.len() == 0 {
        -1
    } else if s[0] == d {
        0
    } else if find_char(s.drop_first(), d) < 0 {
        -1
    } else {
        find_char(s.drop_first(), d) + 1
    }
}

pub proof fn lemma_find_char(s: Seq<char>, d: char)
    ensures
        find_char(s, d) < 0 <==> !s.contains(d),
        find_char(s, d) >= 0 ==> find_char(s, d) < s.len() && s[find_char(s, d)] == d,
        forall|k: int| 0 <= k < find_char(s, d) ==> s[k] != d,
    decreases s.len(),
{
    if s.len() > 0 && s[0] != d {
        lemma_find_char(s.drop_first(), d);
        if !s.drop_first().contains(d) && s.contains(d) {
            let w = choose|w: int| 0 <= w < s.len() && s[w] == d;
            assert(s.drop_first()[w - 1] == d);
        }
        assert forall|k: int| 0 <= k < find_char(s, d) implies s[k] != d by {
            if k > 0 {
                assert(s.drop_first()[k - 1] == s[k]);
                assert(s.drop_first()[k - 1] != d);
            }
        }
    }
}

/// `s` split on `d`: the (possibly empty) stretches between occurrences of
/// `d`, in order. A string without `d` splits into itself alone.
pub open spec fn split_char(s: Seq<char>, d: char) -> Seq<Seq<char>>
    decreases s.len(),
    via split_char_dec
{
    if find_char(s, d) < 0 {
        seq![s]
    } else {
        seq![s.take(find_char(s, d))] + split_char(s.skip(find_char(s, d) + 1), d)
    }
}

#[via_fn]
proof fn split_char_dec(s: Seq<char>, d: char) {
    lemma_find_char(s, d);
}

pub proof fn lemma_split_no_delim(s: Seq<char>, d: char)
    requires
        !s.contains(d),
    ensures
        split_char(s, d) == seq![s],
{
    lemma_find_char(s, d);
}

/// Splitting a string whose first delimiter stands after the `d`-free
/// prefix `a` yields `a` followed by the split of the rest.
pub proof fn lemma_split_first(a: Seq<char>, b: Seq<char>, d: char)
    requires
        !a.contains(d),
    ensures
        split_char(a + seq![d] + b, d) == seq![a] + split_char(b, d),
{
    let s = a + seq![d] + b;
    lemma_find_char(s, d);
    assert(s[a.len() as int] == d);
    assert(s.contains(d));
    let i = find_char(s, d);
    if i < a.len() {
        assert(a[i] == d);
        assert(a.contains(d));
    }
    assert(i == a.len());
    assert(s.take(i) =~= a);
    assert(s.skip(i + 1) =~= b);
}

pub proof fn lemma_split_len(s: Seq<char>, d: char)
    ensures
        split_char(s, d).len() >= 1,
{
    lemma_find_char(s, d);
}

/// `s` split on the delimiter `d`, each stretch as its own string.
pub fn split_on(s: &str, d: char) -> (r: Vec<String>)
    ensures
        r.deep_view() == split_char(s@, d),
        r@.len() >= 1,
{
    let n = s.unicode_len();
    let mut parts: Vec<String> = Vec::new();
    let mut start: usize = 0;
    let mut i: usize = 0;
    proof {
        assert(parts.deep_view() =~= Seq::<Seq<char>>::empty());
        assert(s@.skip(0) =~= s@);
        assert(Seq::<Seq<char>>::empty() + split_char(s@, d) =~= split_char(s@, d));
    }
    while i < n
        invariant
            0 <= start <= i <= n,
            n == s@.len(),
            split_char(s@, d) == parts.deep_view() + split_char(s@.skip(start as int), d),
            forall|k: int| start <= k < i ==> s@[k] != d,
        decreases n - i,
    {
        if s.get_char(i) == d {
            let piece = s.substring_char(start, i).to_owned();
            let ghost prev = parts.deep_view();
            proof {
                let a = s@.subrange(start as int, i as int);
                let b = s@.skip(i + 1);
                if a.contains(d) {
                    let w = choose|w: int| 0 <= w < a.len() && a[w] == d;
                    assert(s@[start + w] == d);
                }
                assert(s@.skip(start as int) =~= a + seq![d] + b);
                lemma_split_first(a, b, d);
            }
            parts.push(piece);
            proof {
                assert(parts.deep_view() =~= prev.push(piece@));
                assert(prev.push(piece@) + split_char(s@.skip(i + 1), d) =~= prev + (seq![
                    piece@,
                ] + split_char(s@.skip(i + 1), d)));
            }
            start = i + 1;
        }
        i += 1;
    }
    let piece = s.substring_char(start, n).to_owned();
    let ghost prev = parts.deep_view();
    proof {
        let a = s@.skip(start as int);
        if a.contains(d) {
            let w = choose|w: int| 0 <= w < a.len() && a[w] == d;
            assert(s@[start + w] == d);
        }
        lemma_split_no_delim(a, d);
        assert(piece@ =~= a);
    }
    parts.push(piece);
    proof {
        assert(parts.deep_view() =~= prev.push(piece@));
        assert(prev + seq![s@.skip(start as int)] =~= prev.push(s@.skip(start as int)));
        lemma_split_len(s@, d);
    }
    parts
}

/// Character-for-character string equality.
pub fn str_eq(a: &str, b: &str) -> (r: bool)
    ensures
        r == (a@ == b@),
{
    let na = a.unicode_len();
    let nb = b.unicode_len();
    if na != nb {
        return false;
    }
    let mut i: usize = 0;
    while i < na
        invariant
            0 <= i <= na,
            na == a@.len(),
            na == b@.len(),
            forall|k: int| 0 <= k < i ==> a@[k] == b@[k],
        decreases na - i,
    {
        if a.get_char(i) != b.get_char(i) {
            return false;
        }
        i += 1;
    }
    proof {
        assert(a@ =~= b@);
    }
    true
}

} // verus!
