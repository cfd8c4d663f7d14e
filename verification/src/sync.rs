//! The dependency synchronizer's decision logic: which declared dependencies
//! a sync pass copies from the global store into the project's local library
//! directory, and which missing name stops it.
use vstd::prelude::*;
use crate::error::Error;
use crate::text::str_eq;

verus! {

/// What one sync pass decides: the names to copy into the local library
/// directory, in declaration order, and the first name missing from the
/// global store, if any. Copies planned before the missing name stand; they
/// are not rolled back.
#[derive(Debug)]
pub struct SyncPlan {
    pub copies: Vec<String>,
    pub missing: Option<String>,
}

/// Concatenation holds an element exactly when one of its parts does.
pub proof fn lemma_contains_concat(a: Seq<Seq<char>>, b: Seq<Seq<char>>, x: Seq<char>)
    ensures
        (a + b).contains(x) <==> a.contains(x) || b.contains(x),
{
    if (a + b).contains(x) {
        let w = choose|w: int| 0 <= w < (a + b).len() && (a + b)[w] == x;
        if w < a.len() {
            assert(a[w] == x);
        } else {
            assert(b[w - a.len()] == x);
        }
    }
    if a.contains(x) {
        let w = choose|w: int| 0 <= w < a.len() && a[w] == x;
        assert((a + b)[w] == x);
    }
    if b.contains(x) {
        let w = choose|w: int| 0 <= w < b.len() && b[w] == x;
        assert((a + b)[w + a.len()] == x);
    }
}

/// The sync pass over `libs` in declaration order, against the global store
/// listing `global` and the local directory listing `local`: a name absent
/// from the global store stops the pass at once and names it; a name already
/// present locally is never overwritten; any other name is copied, and the
/// copy is visible to the rest of the pass. The result is the ordered copy
/// list and the stopping name, if any.
pub open spec fn spec_sync(
    libs: Seq<Seq<char>>,
    global: Seq<Seq<char>>,
    local: Seq<Seq<char>>,
) -> (Seq<Seq<char>>, Option<Seq<char>>)
    decreases libs.len(),
{
    if libs.len() == 0 {
        (Seq::<Seq<char>>::empty(), None::<Seq<char>>)
    } else {
        let l = libs.first();
        if !global.contains(l) {
            (Seq::<Seq<char>>::empty(), Some(l))
        } else if local.contains(l) {
            spec_sync(libs.drop_first(), global, local)
        } else {
            let rest = spec_sync(libs.drop_first(), global, local.push(l));
            (seq![l] + rest.0, rest.1)
        }
    }
}

/// Whether `v` holds a string equal to `s`.
pub fn contains_str(v: &Vec<String>, s: &String) -> (r: bool)
    ensures
        r == v.deep_view().contains(s@),
{
    let mut i: usize = 0;
    while i < v.len()
        invariant
            0 <= i <= v@.len(),
            forall|k: int| 0 <= k < i ==> v.deep_view()[k] != s@,
        decreases v@.len() - i,
    {
        if str_eq(v[i].as_str(), s.as_str()) {
            assert(v.deep_view()[i as int] == s@);
            return true;
        }
        i += 1;
    }
    proof {
        if v.deep_view().contains(s@) {
            let w = choose|w: int| 0 <= w < v.deep_view().len() && v.deep_view()[w] == s@;
            assert(v.deep_view()[w] != s@);
        }
    }
    false
}

/// One sync pass: walks `libraries` in declaration order against the two
/// store listings and returns what to copy and what is missing, exactly as
/// `spec_sync` describes.
pub fn plan_sync(libraries: &Vec<String>, global: &Vec<String>, local: &Vec<String>) -> (r:
    SyncPlan)
    ensures
        ({
            let m = spec_sync(libraries.deep_view(), global.deep_view(), local.deep_view());
            &&& r.copies.deep_view() == m.0
            &&& (r.missing matches Some(l) ==> m.1 == Some(l@))
            &&& (r.missing is None ==> m.1 is None)
        }),
{
    let ghost libs = libraries.deep_view();
    let ghost g = global.deep_view();
    let ghost l0 = local.deep_view();
    let mut copies: Vec<String> = Vec::new();
    let mut i: usize = 0;
    proof {
        assert(copies.deep_view() =~= Seq::<Seq<char>>::empty());
        assert(libs.skip(0) =~= libs);
        assert(l0 + copies.deep_view() =~= l0);
        let m0 = spec_sync(libs, g, l0);
        assert(Seq::<Seq<char>>::empty() + m0.0 =~= m0.0);
    }
    while i < libraries.len()
        invariant
            0 <= i <= libs.len(),
            libs == libraries.deep_view(),
            g == global.deep_view(),
            l0 == local.deep_view(),
            ({
                let m = spec_sync(libs, g, l0);
                let rest = spec_sync(libs.skip(i as int), g, l0 + copies.deep_view());
                m.0 == copies.deep_view() + rest.0 && m.1 == rest.1
            }),
        decreases libs.len() - i,
    {
        let lib = &libraries[i];
        let ghost tail = libs.skip(i as int);
        proof {
            assert(tail.first() == libs[i as int]);
            assert(tail.drop_first() =~= libs.skip(i as int + 1));
        }
        if !contains_str(global, lib) {
            return SyncPlan { copies, missing: Some(lib.clone()) };
        }
        let in_local = contains_str(local, lib);
        let in_copies = contains_str(&copies, lib);
        proof {
            lemma_contains_concat(l0, copies.deep_view(), libs[i as int]);
        }
        if !in_local && !in_copies {
            let ghost prev = copies.deep_view();
            copies.push(lib.clone());
            proof {
                assert(copies.deep_view() =~= prev.push(libs[i as int]));
                let cur = l0 + prev;
                let rest = spec_sync(tail.drop_first(), g, cur.push(libs[i as int]));
                assert(spec_sync(tail, g, cur) == (seq![libs[i as int]] + rest.0, rest.1));
                assert(l0 + copies.deep_view() =~= cur.push(libs[i as int]));
                assert(copies.deep_view() + rest.0 =~= prev + (seq![libs[i as int]] + rest.0));
            }
        }
        i += 1;
    }
    proof {
        assert(libs.skip(libs.len() as int) =~= Seq::<Seq<char>>::empty());
    }
    SyncPlan { copies, missing: None }
}

/// LAW: sync is idempotent. After a pass that found every dependency in the
/// global store, a second pass over the same store and dependency list copies
/// nothing and fails nothing, so the local library directory is unchanged
/// after the first pass.
pub proof fn lemma_sync_idempotent(libs: Seq<Seq<char>>, global: Seq<Seq<char>>, local: Seq<
    Seq<char>,
>)
    requires
        spec_sync(libs, global, local).1 is None,
    ensures
        ({
            let first = spec_sync(libs, global, local);
            let second = spec_sync(libs, global, local + first.0);
            second.0 == Seq::<Seq<char>>::empty() && second.1 is None
        }),
    decreases libs.len(),
{
    let first = spec_sync(libs, global, local);
    if libs.len() == 0 {
        assert(local + first.0 =~= local);
    } else {
        let l = libs.first();
        let rest = libs.drop_first();
        if local.contains(l) {
            lemma_sync_idempotent(rest, global, local);
            lemma_contains_concat(local, first.0, l);
            assert(spec_sync(libs, global, local + first.0) == spec_sync(
                rest,
                global,
                local + first.0,
            ));
        } else {
            let r = spec_sync(rest, global, local.push(l));
            assert(first == (seq![l] + r.0, r.1));
            lemma_sync_idempotent(rest, global, local.push(l));
            lemma_contains_concat(local, first.0, l);
            assert(first.0[0] == l);
            assert(first.0.contains(l));
            assert(local + first.0 =~= local.push(l) + r.0);
            assert(spec_sync(libs, global, local + first.0) == spec_sync(
                rest,
                global,
                local.push(l) + r.0,
            ));
        }
    }
}

/// The message of the error that names a dependency absent from the global
/// store.
pub open spec fn library_error_msg(lib: Seq<char>) -> Seq<char> {
    "Library "@ + lib + " not found in global library path"@
}

/// The error raised for the dependency `lib` missing from the global store.
pub fn missing_library_error(lib: &str) -> (r: Error)
    ensures
        r matches Error::Library(m) && m@ == library_error_msg(lib@),
{
    let mut m = "Library ".to_owned();
    m.append(lib);
    m.append(" not found in global library path");
    Error::Library(m)
}

} // verus!
