//! The location of the user-global dependency store and of the scratch build
//! directory.
use vstd::prelude::*;

verus! {

/// The environment-expandable location of the user-global library store.
pub fn global_store_template() -> (r: String)
    ensures
        r@ == "~/.cbuild/libs/"@,
{
    "~/.cbuild/libs/".to_owned()
}

/// The scratch directory ad hoc single-file builds compile into.
pub fn temp_build_dir() -> (r: String)
    ensures
        r@ == "./.cbuild"@,
{
    "./.cbuild".to_owned()
}

/// Relies on shellexpand::tilde: the result is the input itself, or, when the
/// input starts with `~`, the user's home directory followed by the input
/// after the tilde. Which of the two came back depends on the machine's
/// environment.
#[verifier::external_body]
fn expand_tilde(path: &str) -> (r: String)
    ensures
        r@ == path@ || (path@.len() >= 1 && path@[0] == '~' && exists|h: Seq<char>|
            r@ == h + path@.skip(1)),
{
    shellexpand::tilde(path).into_owned()
}

/// The directory of the user-global library store for this machine: the
/// home-relative template, with its tilde expanded to the user's home
/// directory when the environment knows it.
pub fn global_store_dir() -> (r: String)
    ensures
        r@ == "~/.cbuild/libs/"@ || (exists|h: Seq<char>| r@ == h + "~/.cbuild/libs/"@.skip(1)),
{
    let template = global_store_template();
    expand_tilde(template.as_str())
}

} // verus!
