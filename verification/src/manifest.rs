//! The manifest parser: line-oriented `key = "value"` pairs into a project
//! configuration. Section headers and unrecognized keys are ignored for
//! forward compatibility; malformed lines are ignored; a recognized key with
//! an unrecognized value is a configuration error naming that key; and the
//! resolved standard must belong to the resolved language's standard set.
use vstd::prelude::*;
use crate::error::Error;
use crate::settings::{
    Compiler,
    Config,
    Language,
    Mode,
    Settings,
    Standard,
    Target,
    Type,
    default_settings,
    standard_matches_language,
};
use crate::text::{split_char, split_on, strip_quotes, trim, trimmed, unquote, str_eq};

verus! {

/// The recognized manifest key whose value was rejected.
#[derive(Clone, Copy, Debug, PartialEq, Eq, Structural)]
pub enum BadKey {
    Language,
    Standard,
    Compiler,
    Type,
    Target,
    Mode,
}

/// The message of the configuration error that rejects a value of `k`.
pub open spec fn bad_key_msg(k: BadKey) -> Seq<char> {
    match k {
        BadKey::Language => "Unsupported language"@,
        BadKey::Standard => "Unsupported standard"@,
        BadKey::Compiler => "Unsupported compiler"@,
        BadKey::Type => "Unsupported type"@,
        BadKey::Target => "Unsupported target"@,
        BadKey::Mode => "Unsupported mode"@,
    }
}

/// The key/value form of one manifest line: a line with exactly one `=` has
/// its trimmed left side as key and its trimmed, quote-stripped right side as
/// value; any other line carries nothing.
pub open spec fn line_kv(line: Seq<char>) -> Option<(Seq<char>, Seq<char>)> {
    let parts = split_char(line, '=');
    if parts.len() == 2 {
        Some((trimmed(parts[0]), strip_quotes(trimmed(parts[1]))))
    } else {
        None
    }
}

/// The language a manifest value names.
pub open spec fn language_of(v: Seq<char>) -> Option<Language> {
    if v == "c"@ {
        Some(Language::C)
    } else if v == "CPP"@ {
        Some(Language::CPP)
    } else {
        None
    }
}

/// The standard a manifest value names.
pub open spec fn standard_of(v: Seq<char>) -> Option<Standard> {
    if v == "c89"@ {
        Some(Standard::C89)
    } else if v == "c99"@ {
        Some(Standard::C99)
    } else if v == "c11"@ {
        Some(Standard::C11)
    } else if v == "c17"@ {
        Some(Standard::C17)
    } else if v == "CPP98"@ {
        Some(Standard::CPP98)
    } else if v == "CPP11"@ {
        Some(Standard::CPP11)
    } else if v == "CPP14"@ {
        Some(Standard::CPP14)
    } else if v == "CPP17"@ {
        Some(Standard::CPP17)
    } else if v == "CPP20"@ {
        Some(Standard::CPP20)
    } else {
        None
    }
}

/// The compiler a manifest value names.
pub open spec fn compiler_of(v: Seq<char>) -> Option<Compiler> {
    if v == "gcc"@ {
        Some(Compiler::GCC)
    } else if v == "clang"@ {
        Some(Compiler::CLANG)
    } else if v == "msvc"@ {
        Some(Compiler::MSVC)
    } else {
        None
    }
}

/// The output type a manifest value names.
pub open spec fn type_of(v: Seq<char>) -> Option<Type> {
    if v == "bin"@ {
        Some(Type::Binary)
    } else if v == "lib"@ {
        Some(Type::Library)
    } else if v == "dylib"@ {
        Some(Type::DynLibrary)
    } else {
        None
    }
}

/// The target a manifest value names.
pub open spec fn target_of(v: Seq<char>) -> Option<Target> {
    if v == "x86_64"@ {
        Some(Target::X86_64)
    } else {
        None
    }
}

/// The mode a manifest value names.
pub open spec fn mode_of(v: Seq<char>) -> Option<Mode> {
    if v == "debug"@ {
        Some(Mode::Debug)
    } else if v == "release"@ {
        Some(Mode::Release)
    } else {
        None
    }
}

/// The dependency list a `libraries` value declares: comma-separated names,
/// each trimmed, in declaration order, duplicates kept.
pub open spec fn libs_of(v: Seq<char>) -> Seq<Seq<char>> {
    split_char(v, ',').map_values(|x: Seq<char>| trimmed(x))
}

/// The running state of the manifest fold.
pub struct ParseState {
    pub name: Option<Seq<char>>,
    pub settings: Settings,
    pub libs: Seq<Seq<char>>,
    pub bad: Option<BadKey>,
}

/// The fold's initial state: no name, default settings, no dependencies.
pub open spec fn init_state() -> ParseState {
    ParseState {
        name: None,
        settings: default_settings(),
        libs: Seq::<Seq<char>>::empty(),
        bad: None,
    }
}

/// One line's effect on the fold: the first rejected value sticks; a
/// recognized key overrides its field; an unrecognized key, and a line that
/// is no key/value pair, change nothing.
pub open spec fn pstep(st: ParseState, line: Seq<char>) -> ParseState {
    if st.bad is Some {
        st
    } else {
        match line_kv(line) {
            None => st,
            Some(kv) => {
                let k = kv.0;
                let v = kv.1;
                if k == "name"@ {
                    ParseState { name: Some(v), ..st }
                } else if k == "language"@ {
                    match language_of(v) {
                        Some(x) => ParseState {
                            settings: Settings { language: x, ..st.settings },
                            ..st
                        },
                        None => ParseState { bad: Some(BadKey::Language), ..st },
                    }
                } else if k == "standard"@ {
                    match standard_of(v) {
                        Some(x) => ParseState {
                            settings: Settings { standard: x, ..st.settings },
                            ..st
                        },
                        None => ParseState { bad: Some(BadKey::Standard), ..st },
                    }
                } else if k == "compiler"@ {
                    match compiler_of(v) {
                        Some(x) => ParseState {
                            settings: Settings { compiler: x, ..st.settings },
                            ..st
                        },
                        None => ParseState { bad: Some(BadKey::Compiler), ..st },
                    }
                } else if k == "type"@ {
                    match type_of(v) {
                        Some(x) => ParseState {
                            settings: Settings { build_type: x, ..st.settings },
                            ..st
                        },
                        None => ParseState { bad: Some(BadKey::Type), ..st },
                    }
                } else if k == "target"@ {
                    match target_of(v) {
                        Some(x) => ParseState {
                            settings: Settings { target: x, ..st.settings },
                            ..st
                        },
                        None => ParseState { bad: Some(BadKey::Target), ..st },
                    }
                } else if k == "mode"@ {
                    match mode_of(v) {
                        Some(x) => ParseState { settings: Settings { mode: x, ..st.settings }, ..st },
                        None => ParseState { bad: Some(BadKey::Mode), ..st },
                    }
                } else if k == "libraries"@ {
                    ParseState { libs: libs_of(v), ..st }
                } else {
                    st
                }
            },
        }
    }
}

/// The fold over all lines, in order.
pub open spec fn pfold(lines: Seq<Seq<char>>) -> ParseState
    decreases lines.len(),
{
    if lines.len() == 0 {
        init_state()
    } else {
        pstep(pfold(lines.drop_last()), lines.last())
    }
}

/// What parsing a manifest text yields.
pub enum SpecParse {
    /// A recognized key carried an unrecognized value.
    Rejected(BadKey),
    /// The resolved standard does not belong to the resolved language.
    Mismatched,
    /// The resolved name, settings, and dependency list.
    Accepted(Option<Seq<char>>, Settings, Seq<Seq<char>>),
}

/// The meaning of a manifest text: the fold over its lines, then the
/// cross-field check that the standard belongs to the language's set.
pub open spec fn spec_parse(text: Seq<char>) -> SpecParse {
    let st = pfold(split_char(text, '\n'));
    match st.bad {
        Some(k) => SpecParse::Rejected(k),
        None => if !standard_matches_language(st.settings.language, st.settings.standard) {
            SpecParse::Mismatched
        } else {
            SpecParse::Accepted(st.name, st.settings, st.libs)
        },
    }
}

/// Once a line has been rejected, the rest of the manifest changes nothing.
proof fn lemma_bad_sticks(lines: Seq<Seq<char>>, i: int)
    requires
        0 <= i <= lines.len(),
        pfold(lines.take(i)).bad is Some,
    ensures
        pfold(lines) == pfold(lines.take(i)),
    decreases lines.len() - i,
{
    if i == lines.len() {
        assert(lines.take(i) =~= lines);
    } else {
        assert(lines.take(i + 1).drop_last() =~= lines.take(i));
        assert(lines.take(i + 1).last() == lines[i]);
        assert(pfold(lines.take(i + 1)) == pfold(lines.take(i)));
        lemma_bad_sticks(lines, i + 1);
    }
}

/// Whether the configured standard belongs to the configured language.
pub fn settings_consistent(s: &Settings) -> (r: bool)
    ensures
        r == standard_matches_language(s.language, s.standard),
{
    match s.language {
        Language::C => match s.standard {
            Standard::C89 | Standard::C99 | Standard::C11 | Standard::C17 => true,
            _ => false,
        },
        Language::CPP => match s.standard {
            Standard::CPP98 | Standard::CPP11 | Standard::CPP14 | Standard::CPP17
                | Standard::CPP20 => true,
            _ => false,
        },
    }
}

/// Parses a manifest text into a configuration, exactly as `spec_parse`
/// describes: the first recognized key with an unrecognized value is a
/// configuration error naming that key; a standard outside the language's
/// set is a configuration error; otherwise each recognized key has overridden
/// its default, and the dependency list is as declared.
pub fn parse_config_toml(config: &str) -> (r: Result<Config, Error>)
    ensures
        ({
            match spec_parse(config@) {
                SpecParse::Rejected(k) => r matches Err(e) && e matches Error::Config(m) && m@
                    == bad_key_msg(k),
                SpecParse::Mismatched => r matches Err(e) && e matches Error::Config(m) && m@
                    == "Unsupported standard for language"@,
                SpecParse::Accepted(name, settings, libs) => r matches Ok(c)
                    && c.project_name.deep_view() == name && c.settings == settings
                    && c.libraries.deep_view() == libs && c.verbose == false,
            }
        }),
{
    let lines = split_on(config, '\n');
    let ghost all = lines.deep_view();
    let mut name: Option<String> = None;
    let mut settings = Settings::default();
    let mut libs: Vec<String> = Vec::new();
    let mut i: usize = 0;
    proof {
        assert(all.take(0) =~= Seq::<Seq<char>>::empty());
        assert(libs.deep_view() =~= Seq::<Seq<char>>::empty());
    }
    while i < lines.len()
        invariant
            0 <= i <= all.len(),
            all == lines.deep_view(),
            all == split_char(config@, '\n'),
            lines@.len() == all.len(),
            pfold(all.take(i as int)) == (ParseState {
                name: name.deep_view(),
                settings: settings,
                libs: libs.deep_view(),
                bad: None,
            }),
        decreases all.len() - i,
    {
        let ghost pre = pfold(all.take(i as int));
        proof {
            assert(all.take(i + 1).drop_last() =~= all.take(i as int));
            assert(all.take(i + 1).last() == all[i as int]);
        }
        let line = lines[i].as_str();
        let parts = split_on(line, '=');
        if parts.len() == 2 {
            let key = trim(parts[0].as_str());
            let value = unquote(trim(parts[1].as_str()).as_str());
            proof {
                assert(line_kv(all[i as int]) == Some((key@, value@)));
            }
            if str_eq(key.as_str(), "name") {
                name = Some(value);
            } else if str_eq(key.as_str(), "language") {
                if str_eq(value.as_str(), "c") {
                    settings.language = Language::C;
                } else if str_eq(value.as_str(), "CPP") {
                    settings.language = Language::CPP;
                } else {
                    proof {
                        lemma_bad_sticks(all, i + 1);
                    }
                    return Err(Error::Config("Unsupported language".to_owned()));
                }
            } else if str_eq(key.as_str(), "standard") {
                if str_eq(value.as_str(), "c89") {
                    settings.standard = Standard::C89;
                } else if str_eq(value.as_str(), "c99") {
                    settings.standard = Standard::C99;
                } else if str_eq(value.as_str(), "c11") {
                    settings.standard = Standard::C11;
                } else if str_eq(value.as_str(), "c17") {
                    settings.standard = Standard::C17;
                } else if str_eq(value.as_str(), "CPP98") {
                    settings.standard = Standard::CPP98;
                } else if str_eq(value.as_str(), "CPP11") {
                    settings.standard = Standard::CPP11;
                } else if str_eq(value.as_str(), "CPP14") {
                    settings.standard = Standard::CPP14;
                } else if str_eq(value.as_str(), "CPP17") {
                    settings.standard = Standard::CPP17;
                } else if str_eq(value.as_str(), "CPP20") {
                    settings.standard = Standard::CPP20;
                } else {
                    proof {
                        lemma_bad_sticks(all, i + 1);
                    }
                    return Err(Error::Config("Unsupported standard".to_owned()));
                }
            } else if str_eq(key.as_str(), "compiler") {
                if str_eq(value.as_str(), "gcc") {
                    settings.compiler = Compiler::GCC;
                } else if str_eq(value.as_str(), "clang") {
                    settings.compiler = Compiler::CLANG;
                } else if str_eq(value.as_str(), "msvc") {
                    settings.compiler = Compiler::MSVC;
                } else {
                    proof {
                        lemma_bad_sticks(all, i + 1);
                    }
                    return Err(Error::Config("Unsupported compiler".to_owned()));
                }
            } else if str_eq(key.as_str(), "type") {
                if str_eq(value.as_str(), "bin") {
                    settings.build_type = Type::Binary;
                } else if str_eq(value.as_str(), "lib") {
                    settings.build_type = Type::Library;
                } else if str_eq(value.as_str(), "dylib") {
                    settings.build_type = Type::DynLibrary;
                } else {
                    proof {
                        lemma_bad_sticks(all, i + 1);
                    }
                    return Err(Error::Config("Unsupported type".to_owned()));
                }
            } else if str_eq(key.as_str(), "target") {
                if str_eq(value.as_str(), "x86_64") {
                    settings.target = Target::X86_64;
                } else {
                    proof {
                        lemma_bad_sticks(all, i + 1);
                    }
                    return Err(Error::Config("Unsupported target".to_owned()));
                }
            } else if str_eq(key.as_str(), "mode") {
                if str_eq(value.as_str(), "debug") {
                    settings.mode = Mode::Debug;
                } else if str_eq(value.as_str(), "release") {
                    settings.mode = Mode::Release;
                } else {
                    proof {
                        lemma_bad_sticks(all, i + 1);
                    }
                    return Err(Error::Config("Unsupported mode".to_owned()));
                }
            } else if str_eq(key.as_str(), "libraries") {
                let pieces = split_on(value.as_str(), ',');
                let mut fresh: Vec<String> = Vec::new();
                let mut k: usize = 0;
                proof {
                    assert(fresh.deep_view() =~= libs_of(value@).take(0));
                }
                while k < pieces.len()
                    invariant
                        0 <= k <= pieces@.len(),
                        pieces.deep_view() == split_char(value@, ','),
                        fresh.deep_view() == libs_of(value@).take(k as int),
                    decreases pieces@.len() - k,
                {
                    let ghost prevf = fresh.deep_view();
                    fresh.push(trim(pieces[k].as_str()));
                    proof {
                        assert(fresh.deep_view() =~= prevf.push(trimmed(pieces.deep_view()[
                        k as int])));
                        assert(libs_of(value@)[k as int] == trimmed(pieces.deep_view()[k as int]));
                        assert(prevf.push(libs_of(value@)[k as int]) =~= libs_of(value@).take(
                            k as int + 1,
                        ));
                    }
                    k += 1;
                }
                proof {
                    assert(libs_of(value@).take(pieces@.len() as int) =~= libs_of(value@));
                }
                libs = fresh;
            }
        }
        proof {
            assert(pfold(all.take(i + 1)) == pstep(pre, all[i as int]));
            assert(pfold(all.take(i + 1)) == (ParseState {
                name: name.deep_view(),
                settings: settings,
                libs: libs.deep_view(),
                bad: None,
            }));
        }
        i += 1;
    }
    proof {
        assert(all.take(all.len() as int) =~= all);
    }
    if !settings_consistent(&settings) {
        return Err(Error::Config("Unsupported standard for language".to_owned()));
    }
    Ok(Config { project_name: name, settings, libraries: libs, verbose: false })
}

/// Whether `line` sets key `k`.
pub open spec fn sets_key(line: Seq<char>, k: Seq<char>) -> bool {
    line_kv(line) matches Some(kv) && kv.0 == k
}

/// Whether the manifest's lines set `k` at most once.
pub open spec fn key_at_most_once(lines: Seq<Seq<char>>, k: Seq<char>) -> bool {
    forall|i: int, j: int|
        #![trigger sets_key(lines[i], k), sets_key(lines[j], k)]
        0 <= i < j < lines.len() ==> !(sets_key(lines[i], k) && sets_key(lines[j], k))
}

/// Whether `line` is benign: no key/value pair, an unrecognized key, or a
/// recognized key with an accepted value — nothing the parser rejects.
pub open spec fn line_ok(line: Seq<char>) -> bool {
    match line_kv(line) {
        None => true,
        Some(kv) => {
            if kv.0 == "language"@ {
                language_of(kv.1) is Some
            } else if kv.0 == "standard"@ {
                standard_of(kv.1) is Some
            } else if kv.0 == "compiler"@ {
                compiler_of(kv.1) is Some
            } else if kv.0 == "type"@ {
                type_of(kv.1) is Some
            } else if kv.0 == "target"@ {
                target_of(kv.1) is Some
            } else if kv.0 == "mode"@ {
                mode_of(kv.1) is Some
            } else {
                true
            }
        },
    }
}

/// The value of the last line that sets `k`, if any.
pub open spec fn last_val(lines: Seq<Seq<char>>, k: Seq<char>) -> Option<Seq<char>>
    decreases lines.len(),
{
    if lines.len() == 0 {
        None
    } else {
        match line_kv(lines.last()) {
            Some(kv) => if kv.0 == k {
                Some(kv.1)
            } else {
                last_val(lines.drop_last(), k)
            },
            None => last_val(lines.drop_last(), k),
        }
    }
}

/// The key/value pairs the manifest's lines carry, as a set.
pub open spec fn kv_set(lines: Seq<Seq<char>>) -> Set<(Seq<char>, Seq<char>)>
    decreases lines.len(),
{
    if lines.len() == 0 {
        Set::<(Seq<char>, Seq<char>)>::empty()
    } else {
        match line_kv(lines.last()) {
            Some(kv) => kv_set(lines.drop_last()).insert(kv),
            None => kv_set(lines.drop_last()),
        }
    }
}

/// The language the manifest's lines resolve to.
pub open spec fn resolved_language(lines: Seq<Seq<char>>) -> Language {
    match last_val(lines, "language"@) {
        Some(v) => match language_of(v) {
            Some(x) => x,
            None => default_settings().language,
        },
        None => default_settings().language,
    }
}

/// The standard the manifest's lines resolve to.
pub open spec fn resolved_standard(lines: Seq<Seq<char>>) -> Standard {
    match last_val(lines, "standard"@) {
        Some(v) => match standard_of(v) {
            Some(x) => x,
            None => default_settings().standard,
        },
        None => default_settings().standard,
    }
}

/// The compiler the manifest's lines resolve to.
pub open spec fn resolved_compiler(lines: Seq<Seq<char>>) -> Compiler {
    match last_val(lines, "compiler"@) {
        Some(v) => match compiler_of(v) {
            Some(x) => x,
            None => default_settings().compiler,
        },
        None => default_settings().compiler,
    }
}

/// The output type the manifest's lines resolve to.
pub open spec fn resolved_type(lines: Seq<Seq<char>>) -> Type {
    match last_val(lines, "type"@) {
        Some(v) => match type_of(v) {
            Some(x) => x,
            None => default_settings().build_type,
        },
        None => default_settings().build_type,
    }
}

/// The target the manifest's lines resolve to.
pub open spec fn resolved_target(lines: Seq<Seq<char>>) -> Target {
    match last_val(lines, "target"@) {
        Some(v) => match target_of(v) {
            Some(x) => x,
            None => default_settings().target,
        },
        None => default_settings().target,
    }
}

/// The mode the manifest's lines resolve to.
pub open spec fn resolved_mode(lines: Seq<Seq<char>>) -> Mode {
    match last_val(lines, "mode"@) {
        Some(v) => match mode_of(v) {
            Some(x) => x,
            None => default_settings().mode,
        },
        None => default_settings().mode,
    }
}

/// The dependency list the manifest's lines resolve to.
pub open spec fn resolved_libs(lines: Seq<Seq<char>>) -> Seq<Seq<char>> {
    match last_val(lines, "libraries"@) {
        Some(v) => libs_of(v),
        None => Seq::<Seq<char>>::empty(),
    }
}

/// The lengths and first characters of the recognized keys: enough to tell
/// any two of them apart.
proof fn lemma_key_lit_facts()
    ensures
        "name"@.len() == 4 && "name"@[0] == 'n',
        "language"@.len() == 8 && "language"@[0] == 'l',
        "standard"@.len() == 8 && "standard"@[0] == 's',
        "compiler"@.len() == 8 && "compiler"@[0] == 'c',
        "type"@.len() == 4 && "type"@[0] == 't',
        "target"@.len() == 6 && "target"@[0] == 't',
        "mode"@.len() == 4 && "mode"@[0] == 'm',
        "libraries"@.len() == 9 && "libraries"@[0] == 'l',
{
    reveal_strlit("name");
    reveal_strlit("language");
    reveal_strlit("standard");
    reveal_strlit("compiler");
    reveal_strlit("type");
    reveal_strlit("target");
    reveal_strlit("mode");
    reveal_strlit("libraries");
}

/// Over benign lines, the fold rejects nothing and each field is the last
/// value its key was set to, or the default.
proof fn lemma_fold_fields(lines: Seq<Seq<char>>)
    requires
        forall|i: int| 0 <= i < lines.len() ==> #[trigger] line_ok(lines[i]),
    ensures
        pfold(lines).bad is None,
        pfold(lines).name == last_val(lines, "name"@),
        pfold(lines).settings.language == resolved_language(lines),
        pfold(lines).settings.standard == resolved_standard(lines),
        pfold(lines).settings.compiler == resolved_compiler(lines),
        pfold(lines).settings.build_type == resolved_type(lines),
        pfold(lines).settings.target == resolved_target(lines),
        pfold(lines).settings.mode == resolved_mode(lines),
        pfold(lines).libs == resolved_libs(lines),
    decreases lines.len(),
{
    lemma_key_lit_facts();
    if lines.len() > 0 {
        let prev = lines.drop_last();
        assert forall|i: int| 0 <= i < prev.len() implies #[trigger] line_ok(prev[i]) by {
            assert(prev[i] == lines[i]);
            assert(line_ok(lines[i]));
        }
        lemma_fold_fields(prev);
        assert(line_ok(lines[lines.len() - 1]));
        assert(lines.last() == lines[lines.len() - 1]);
    }
}

/// Every pair in the key/value set comes from some line.
proof fn lemma_kv_set_witness(lines: Seq<Seq<char>>, k: Seq<char>, v: Seq<char>)
    requires
        kv_set(lines).contains((k, v)),
    ensures
        exists|i: int| 0 <= i < lines.len() && line_kv(#[trigger] lines[i]) == Some((k, v)),
    decreases lines.len(),
{
    let prev = lines.drop_last();
    match line_kv(lines.last()) {
        Some(kv) => {
            if kv == (k, v) {
                assert(lines[lines.len() - 1] == lines.last());
                assert(line_kv(lines[lines.len() - 1]) == Some((k, v)));
            } else {
                lemma_kv_set_witness(prev, k, v);
                let i = choose|i: int| 0 <= i < prev.len() && line_kv(#[trigger] prev[i]) == Some(
                    (k, v),
                );
                assert(lines[i] == prev[i]);
                assert(line_kv(lines[i]) == Some((k, v)));
            }
        },
        None => {
            lemma_kv_set_witness(prev, k, v);
            let i = choose|i: int| 0 <= i < prev.len() && line_kv(#[trigger] prev[i]) == Some(
                (k, v),
            );
            assert(lines[i] == prev[i]);
            assert(line_kv(lines[i]) == Some((k, v)));
        },
    }
}

/// The last value of a key stands in the key/value set; a key that was never
/// set pairs with nothing there.
proof fn lemma_last_val_in_set(lines: Seq<Seq<char>>, k: Seq<char>)
    ensures
        (last_val(lines, k) matches Some(v) ==> kv_set(lines).contains((k, v))),
        (last_val(lines, k) is None ==> forall|v: Seq<char>|
            !(#[trigger] kv_set(lines).contains((k, v)))),
    decreases lines.len(),
{
    if lines.len() == 0 {
        assert forall|v: Seq<char>| !(#[trigger] kv_set(lines).contains((k, v))) by {
            assert(!Set::<(Seq<char>, Seq<char>)>::empty().contains((k, v)));
        }
    } else {
        lemma_last_val_in_set(lines.drop_last(), k);
        if last_val(lines, k) is None {
            assert forall|v: Seq<char>| !(#[trigger] kv_set(lines).contains((k, v))) by {
                assert(!kv_set(lines.drop_last()).contains((k, v)));
            }
        }
    }
}

/// When a key is set at most once, the pair it forms in the key/value set
/// determines its last value.
proof fn lemma_unique_set_determines(lines: Seq<Seq<char>>, k: Seq<char>, v: Seq<char>)
    requires
        key_at_most_once(lines, k),
        kv_set(lines).contains((k, v)),
    ensures
        last_val(lines, k) == Some(v),
    decreases lines.len(),
{
    if lines.len() == 0 {
        assert(!kv_set(lines).contains((k, v)));
    } else {
        let prev = lines.drop_last();
        assert(key_at_most_once(prev, k)) by {
            assert forall|i: int, j: int|
                #![trigger sets_key(prev[i], k), sets_key(prev[j], k)]
                0 <= i < j < prev.len() implies !(sets_key(prev[i], k) && sets_key(
                prev[j],
                k,
            )) by {
                assert(prev[i] == lines[i]);
                assert(prev[j] == lines[j]);
                assert(!(sets_key(lines[i], k) && sets_key(lines[j], k)));
            }
        }
        match line_kv(lines.last()) {
            Some(kv) => {
                if kv.0 == k {
                    if kv.1 != v {
                        assert(kv_set(prev).contains((k, v)));
                        lemma_kv_set_witness(prev, k, v);
                        let i = choose|i: int|
                            0 <= i < prev.len() && line_kv(#[trigger] prev[i]) == Some((k, v));
                        assert(prev[i] == lines[i]);
                        assert(sets_key(lines[i], k));
                        assert(sets_key(lines[lines.len() - 1], k));
                        assert(!(sets_key(lines[i], k) && sets_key(lines[lines.len() - 1], k)));
                    }
                } else {
                    assert((k, v) != kv);
                    assert(kv_set(prev).contains((k, v)));
                    lemma_unique_set_determines(prev, k, v);
                }
            },
            None => {
                lemma_unique_set_determines(prev, k, v);
            },
        }
    }
}

/// LAW: a manifest whose lines all carry recognized, accepted values, no key
/// set twice, resolves to the same name, settings, and dependency list
/// whatever the order of its lines: the fold is determined by the set of
/// key/value pairs alone.
pub proof fn lemma_parse_order_irrelevant(l1: Seq<Seq<char>>, l2: Seq<Seq<char>>)
    requires
        forall|i: int| 0 <= i < l1.len() ==> #[trigger] line_ok(l1[i]),
        forall|i: int| 0 <= i < l2.len() ==> #[trigger] line_ok(l2[i]),
        forall|k: Seq<char>| #[trigger] key_at_most_once(l1, k),
        forall|k: Seq<char>| #[trigger] key_at_most_once(l2, k),
        kv_set(l1) == kv_set(l2),
    ensures
        pfold(l1) == pfold(l2),
{
    lemma_fold_fields(l1);
    lemma_fold_fields(l2);
    assert forall|k: Seq<char>| #[trigger] last_val(l1, k) == last_val(l2, k) by {
        lemma_last_val_in_set(l1, k);
        lemma_last_val_in_set(l2, k);
        assert(key_at_most_once(l1, k));
        assert(key_at_most_once(l2, k));
        match last_val(l1, k) {
            Some(v) => {
                lemma_unique_set_determines(l2, k, v);
            },
            None => {
                match last_val(l2, k) {
                    Some(w) => {
                        assert(kv_set(l2).contains((k, w)));
                        assert(!kv_set(l1).contains((k, w)));
                    },
                    None => {},
                }
            },
        }
    }
    assert(last_val(l1, "name"@) == last_val(l2, "name"@));
    assert(last_val(l1, "language"@) == last_val(l2, "language"@));
    assert(last_val(l1, "standard"@) == last_val(l2, "standard"@));
    assert(last_val(l1, "compiler"@) == last_val(l2, "compiler"@));
    assert(last_val(l1, "type"@) == last_val(l2, "type"@));
    assert(last_val(l1, "target"@) == last_val(l2, "target"@));
    assert(last_val(l1, "mode"@) == last_val(l2, "mode"@));
    assert(last_val(l1, "libraries"@) == last_val(l2, "libraries"@));
}

} // verus!
