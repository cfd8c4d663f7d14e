//! Per-backend derivation of the concrete compiler command line: one total
//! flag mapping per enumerated domain, and the assembly of the full argument
//! list for whole-project and single-file builds.
use vstd::prelude::*;
use crate::settings::{Compiler, Mode, Settings, Standard, Target};

verus! {

/// One concrete compiler invocation: the executable to run and its ordered
/// argument list. Produced fresh for every build; never persisted.
#[derive(Debug)]
pub struct Invocation {
    pub program: String,
    pub args: Vec<String>,
}

/// Whether `c` uses the Unix-style flag grammar; GCC and Clang share it.
pub open spec fn is_unix_style(c: Compiler) -> bool {
    !(c is MSVC)
}

/// The executable name of each compiler backend.
pub open spec fn compiler_name(c: Compiler) -> Seq<char> {
    match c {
        Compiler::GCC => "gcc"@,
        Compiler::CLANG => "clang"@,
        Compiler::MSVC => "cl.exe"@,
    }
}

/// The standard directive of backend `c` for `s`. The MSVC mapping collapses
/// several standards onto one flag where the backend is coarser; that is a
/// backend limitation preserved deliberately.
pub open spec fn std_flag(c: Compiler, s: Standard) -> Seq<char> {
    if is_unix_style(c) {
        match s {
            Standard::C89 => "-std=c89"@,
            Standard::C99 => "-std=c99"@,
            Standard::C11 => "-std=c11"@,
            Standard::C17 => "-std=c17"@,
            Standard::CPP98 => "-std=c++98"@,
            Standard::CPP11 => "-std=c++11"@,
            Standard::CPP14 => "-std=c++14"@,
            Standard::CPP17 => "-std=c++17"@,
            Standard::CPP20 => "-std=c++20"@,
        }
    } else {
        match s {
            Standard::C89 => "/Za"@,
            Standard::C99 | Standard::C11 | Standard::C17 => "/std:c11"@,
            Standard::CPP98 | Standard::CPP11 | Standard::CPP14 => "/std:c++14"@,
            Standard::CPP17 => "/std:c++17"@,
            Standard::CPP20 => "/std:c++latest"@,
        }
    }
}

/// The output-path directive of backend `c` for output path `out`.
pub open spec fn output_flag(c: Compiler, out: Seq<char>) -> Seq<char> {
    if is_unix_style(c) {
        "-o"@ + out
    } else {
        "/Fe:"@ + out
    }
}

/// The include-search-path directive of backend `c` for directory `dir`.
pub open spec fn include_flag(c: Compiler, dir: Seq<char>) -> Seq<char> {
    if is_unix_style(c) {
        "-I"@ + dir
    } else {
        "/I"@ + dir
    }
}

/// The optimization/debug directives of backend `c` for `m`: one debug-symbol
/// flag in debug mode, the optimize-and-strip pair in release mode.
pub open spec fn mode_flags(c: Compiler, m: Mode) -> Seq<Seq<char>> {
    if is_unix_style(c) {
        match m {
            Mode::Debug => seq!["-g"@],
            Mode::Release => seq!["-O3"@, "-s"@],
        }
    } else {
        match m {
            Mode::Debug => seq!["/Zi"@],
            Mode::Release => seq!["/O2"@, "/DNDEBUG"@],
        }
    }
}

/// The word-size directive of backend `c` for `t`.
pub open spec fn target_flag(c: Compiler, t: Target) -> Seq<char> {
    match t {
        Target::X86_64 => if is_unix_style(c) {
            "-m64"@
        } else {
            "/MACHINE:X64"@
        },
    }
}

/// The flag portion of a build invocation: output path first, then include
/// path, standard, mode directives, and target.
pub open spec fn flag_args(s: Settings, include_dir: Seq<char>, output: Seq<char>) -> Seq<
    Seq<char>,
> {
    seq![
        output_flag(s.compiler, output),
        include_flag(s.compiler, include_dir),
        std_flag(s.compiler, s.standard),
    ] + mode_flags(s.compiler, s.mode) + seq![target_flag(s.compiler, s.target)]
}

/// The full argument list of a whole-project build: the flags, then each
/// source file as its own argument, in the order they were discovered.
pub open spec fn build_args(
    s: Settings,
    sources: Seq<Seq<char>>,
    include_dir: Seq<char>,
    output: Seq<char>,
) -> Seq<Seq<char>> {
    flag_args(s, include_dir, output) + sources
}

/// The argument list of an ad hoc single-file build: the output directive and
/// the one source file.
pub open spec fn file_args(c: Compiler, source: Seq<char>, output: Seq<char>) -> Seq<Seq<char>> {
    seq![output_flag(c, output), source]
}

/// Whether `x` is a standard directive that backend `c` can emit.
pub open spec fn is_std_directive(c: Compiler, x: Seq<char>) -> bool {
    if is_unix_style(c) {
        x == "-std=c89"@ || x == "-std=c99"@ || x == "-std=c11"@ || x == "-std=c17"@ || x
            == "-std=c++98"@ || x == "-std=c++11"@ || x == "-std=c++14"@ || x == "-std=c++17"@ || x
            == "-std=c++20"@
    } else {
        x == "/Za"@ || x == "/std:c11"@ || x == "/std:c++14"@ || x == "/std:c++17"@ || x
            == "/std:c++latest"@
    }
}

/// Whether `x` is an optimization/debug directive that backend `c` can emit.
pub open spec fn is_mode_directive(c: Compiler, x: Seq<char>) -> bool {
    if is_unix_style(c) {
        x == "-g"@ || x == "-O3"@ || x == "-s"@
    } else {
        x == "/Zi"@ || x == "/O2"@ || x == "/DNDEBUG"@
    }
}

/// The lengths and distinguishing characters of every flag literal either
/// backend can emit: what tells each directive kind apart from the others.
proof fn lemma_flag_lit_facts()
    ensures
        "-std=c89"@.len() == 8 && "-std=c89"@[1] == 's',
        "-std=c99"@.len() == 8 && "-std=c99"@[1] == 's',
        "-std=c11"@.len() == 8 && "-std=c11"@[1] == 's',
        "-std=c17"@.len() == 8 && "-std=c17"@[1] == 's',
        "-std=c++98"@.len() == 10 && "-std=c++98"@[1] == 's',
        "-std=c++11"@.len() == 10 && "-std=c++11"@[1] == 's',
        "-std=c++14"@.len() == 10 && "-std=c++14"@[1] == 's',
        "-std=c++17"@.len() == 10 && "-std=c++17"@[1] == 's',
        "-std=c++20"@.len() == 10 && "-std=c++20"@[1] == 's',
        "/Za"@.len() == 3 && "/Za"@[1] == 'Z' && "/Za"@[2] == 'a',
        "/std:c11"@.len() == 8 && "/std:c11"@[1] == 's',
        "/std:c++14"@.len() == 10 && "/std:c++14"@[1] == 's',
        "/std:c++17"@.len() == 10 && "/std:c++17"@[1] == 's',
        "/std:c++latest"@.len() == 14 && "/std:c++latest"@[1] == 's',
        "-g"@.len() == 2 && "-g"@[1] == 'g',
        "-O3"@.len() == 3 && "-O3"@[1] == 'O',
        "-s"@.len() == 2 && "-s"@[1] == 's',
        "/Zi"@.len() == 3 && "/Zi"@[1] == 'Z' && "/Zi"@[2] == 'i',
        "/O2"@.len() == 3 && "/O2"@[1] == 'O',
        "/DNDEBUG"@.len() == 8 && "/DNDEBUG"@[1] == 'D',
        "-m64"@.len() == 4 && "-m64"@[1] == 'm',
        "/MACHINE:X64"@.len() == 12 && "/MACHINE:X64"@[1] == 'M',
        "-o"@.len() == 2 && "-o"@[1] == 'o',
        "-I"@.len() == 2 && "-I"@[1] == 'I',
        "/Fe:"@.len() == 4 && "/Fe:"@[1] == 'F',
        "/I"@.len() == 2 && "/I"@[1] == 'I',
{
    reveal_strlit("-std=c89");
    reveal_strlit("-std=c99");
    reveal_strlit("-std=c11");
    reveal_strlit("-std=c17");
    reveal_strlit("-std=c++98");
    reveal_strlit("-std=c++11");
    reveal_strlit("-std=c++14");
    reveal_strlit("-std=c++17");
    reveal_strlit("-std=c++20");
    reveal_strlit("/Za");
    reveal_strlit("/std:c11");
    reveal_strlit("/std:c++14");
    reveal_strlit("/std:c++17");
    reveal_strlit("/std:c++latest");
    reveal_strlit("-g");
    reveal_strlit("-O3");
    reveal_strlit("-s");
    reveal_strlit("/Zi");
    reveal_strlit("/O2");
    reveal_strlit("/DNDEBUG");
    reveal_strlit("-o");
    reveal_strlit("-I");
    reveal_strlit("/Fe:");
    reveal_strlit("/I");
    reveal_strlit("-m64");
    reveal_strlit("/MACHINE:X64");
}

/// LAW: for every supported (compiler, mode, target, standard) tuple, the
/// derived flag list is the same every time (it is a function of the tuple
/// alone), carries the output-path directive first, exactly one standard
/// directive — the mapping table's — at its third position, and exactly the
/// optimization/debug directive pair of `mode`, whatever the output path and
/// include directory hold.
pub proof fn lemma_flag_args_shape(s: Settings, include_dir: Seq<char>, output: Seq<char>)
    ensures
        ({
            let a = flag_args(s, include_dir, output);
            let mf = mode_flags(s.compiler, s.mode);
            &&& a.len() == 4 + mf.len()
            &&& a[0] == output_flag(s.compiler, output)
            &&& a[1] == include_flag(s.compiler, include_dir)
            &&& a[2] == std_flag(s.compiler, s.standard)
            &&& is_std_directive(s.compiler, a[2])
            &&& forall|k: int| 0 <= k < a.len() && k != 2 ==> !is_std_directive(s.compiler, a[k])
            &&& a.subrange(3, 3 + mf.len() as int) == mf
            &&& forall|k: int|
                0 <= k < a.len() && !(3 <= k < 3 + mf.len()) ==> !is_mode_directive(
                    s.compiler,
                    a[k],
                )
        }),
{
    lemma_flag_lit_facts();
    let c = s.compiler;
    let a = flag_args(s, include_dir, output);
    let mf = mode_flags(c, s.mode);
    assert(a[0] == output_flag(c, output));
    assert(a[1] == include_flag(c, include_dir));
    assert(a[2] == std_flag(c, s.standard));
    assert(a.subrange(3, 3 + mf.len() as int) =~= mf);
    if is_unix_style(c) {
        assert(a[0][1] == 'o');
        assert(a[1][1] == 'I');
    } else {
        assert(a[0][1] == 'F');
        assert(a[1][1] == 'I');
    }
    assert(!is_std_directive(c, a[0]));
    assert(!is_std_directive(c, a[1]));
    assert(!is_mode_directive(c, a[0]));
    assert(!is_mode_directive(c, a[1]));
    match s.standard {
        Standard::C89 => {
            assert(is_std_directive(c, a[2]));
            assert(!is_mode_directive(c, a[2]));
        },
        Standard::C99 => {
            assert(is_std_directive(c, a[2]));
            assert(!is_mode_directive(c, a[2]));
        },
        Standard::C11 => {
            assert(is_std_directive(c, a[2]));
            assert(!is_mode_directive(c, a[2]));
        },
        Standard::C17 => {
            assert(is_std_directive(c, a[2]));
            assert(!is_mode_directive(c, a[2]));
        },
        Standard::CPP98 => {
            assert(is_std_directive(c, a[2]));
            assert(!is_mode_directive(c, a[2]));
        },
        Standard::CPP11 => {
            assert(is_std_directive(c, a[2]));
            assert(!is_mode_directive(c, a[2]));
        },
        Standard::CPP14 => {
            assert(is_std_directive(c, a[2]));
            assert(!is_mode_directive(c, a[2]));
        },
        Standard::CPP17 => {
            assert(is_std_directive(c, a[2]));
            assert(!is_mode_directive(c, a[2]));
        },
        Standard::CPP20 => {
            assert(is_std_directive(c, a[2]));
            assert(!is_mode_directive(c, a[2]));
        },
    }
    match s.mode {
        Mode::Debug => {
            assert(a.len() == 5);
            assert(a[3] == mf[0]);
            assert(a[4] == target_flag(c, s.target));
            assert(!is_std_directive(c, a[3]));
            assert(!is_std_directive(c, a[4]));
            assert(!is_mode_directive(c, a[4]));
            assert forall|k: int| 0 <= k < a.len() && k != 2 implies !is_std_directive(
                c,
                a[k],
            ) by {
                assert(k == 0 || k == 1 || k == 3 || k == 4);
            }
            assert forall|k: int|
                0 <= k < a.len() && !(3 <= k < 3 + mf.len()) implies !is_mode_directive(
                c,
                a[k],
            ) by {
                assert(k == 0 || k == 1 || k == 2 || k == 4);
            }
        },
        Mode::Release => {
            assert(a.len() == 6);
            assert(a[3] == mf[0]);
            assert(a[4] == mf[1]);
            assert(a[5] == target_flag(c, s.target));
            assert(!is_std_directive(c, a[3]));
            assert(!is_std_directive(c, a[4]));
            assert(!is_std_directive(c, a[5]));
            assert(!is_mode_directive(c, a[5]));
            assert forall|k: int| 0 <= k < a.len() && k != 2 implies !is_std_directive(
                c,
                a[k],
            ) by {
                assert(k == 0 || k == 1 || k == 3 || k == 4 || k == 5);
            }
            assert forall|k: int|
                0 <= k < a.len() && !(3 <= k < 3 + mf.len()) implies !is_mode_directive(
                c,
                a[k],
            ) by {
                assert(k == 0 || k == 1 || k == 2 || k == 5);
            }
        },
    }
}

/// `prefix` followed by `rest` as one fresh string.
fn prefixed(prefix: &str, rest: &str) -> (r: String)
    ensures
        r@ == prefix@ + rest@,
{
    let mut r = prefix.to_owned();
    r.append(rest);
    r
}

/// The executable name of the configured compiler backend.
pub fn compiler_executable(c: Compiler) -> (r: String)
    ensures
        r@ == compiler_name(c),
{
    match c {
        Compiler::GCC => "gcc".to_owned(),
        Compiler::CLANG => "clang".to_owned(),
        Compiler::MSVC => "cl.exe".to_owned(),
    }
}

/// The standard directive of backend `c` for `s`.
pub fn std_flag_of(c: Compiler, s: Standard) -> (r: String)
    ensures
        r@ == std_flag(c, s),
{
    if c == Compiler::MSVC {
        match s {
            Standard::C89 => "/Za".to_owned(),
            Standard::C99 | Standard::C11 | Standard::C17 => "/std:c11".to_owned(),
            Standard::CPP98 | Standard::CPP11 | Standard::CPP14 => "/std:c++14".to_owned(),
            Standard::CPP17 => "/std:c++17".to_owned(),
            Standard::CPP20 => "/std:c++latest".to_owned(),
        }
    } else {
        match s {
            Standard::C89 => "-std=c89".to_owned(),
            Standard::C99 => "-std=c99".to_owned(),
            Standard::C11 => "-std=c11".to_owned(),
            Standard::C17 => "-std=c17".to_owned(),
            Standard::CPP98 => "-std=c++98".to_owned(),
            Standard::CPP11 => "-std=c++11".to_owned(),
            Standard::CPP14 => "-std=c++14".to_owned(),
            Standard::CPP17 => "-std=c++17".to_owned(),
            Standard::CPP20 => "-std=c++20".to_owned(),
        }
    }
}

/// The optimization/debug directives of backend `c` for `m`, appended in
/// order.
fn push_mode_flags(args: &mut Vec<String>, c: Compiler, m: Mode)
    ensures
        final(args).deep_view() == old(args).deep_view() + mode_flags(c, m),
{
    let ghost base = args.deep_view();
    if c == Compiler::MSVC {
        match m {
            Mode::Debug => {
                args.push("/Zi".to_owned());
                proof {
                    assert(args.deep_view() =~= base + mode_flags(c, m));
                }
            },
            Mode::Release => {
                args.push("/O2".to_owned());
                args.push("/DNDEBUG".to_owned());
                proof {
                    assert(args.deep_view() =~= base + mode_flags(c, m));
                }
            },
        }
    } else {
        match m {
            Mode::Debug => {
                args.push("-g".to_owned());
                proof {
                    assert(args.deep_view() =~= base + mode_flags(c, m));
                }
            },
            Mode::Release => {
                args.push("-O3".to_owned());
                args.push("-s".to_owned());
                proof {
                    assert(args.deep_view() =~= base + mode_flags(c, m));
                }
            },
        }
    }
}

/// The concrete invocation of a whole-project build: the configured backend's
/// executable, with the flag list and the discovered sources in order.
pub fn build_invocation(
    s: &Settings,
    sources: &Vec<String>,
    include_dir: &str,
    output_path: &str,
) -> (r: Invocation)
    ensures
        r.program@ == compiler_name(s.compiler),
        r.args.deep_view() == build_args(*s, sources.deep_view(), include_dir@, output_path@),
{
    let mut args: Vec<String> = Vec::new();
    if s.compiler == Compiler::MSVC {
        args.push(prefixed("/Fe:", output_path));
        args.push(prefixed("/I", include_dir));
    } else {
        args.push(prefixed("-o", output_path));
        args.push(prefixed("-I", include_dir));
    }
    args.push(std_flag_of(s.compiler, s.standard));
    proof {
        assert(args.deep_view() =~= seq![
            output_flag(s.compiler, output_path@),
            include_flag(s.compiler, include_dir@),
            std_flag(s.compiler, s.standard),
        ]);
    }
    let ghost head = args.deep_view();
    push_mode_flags(&mut args, s.compiler, s.mode);
    let ghost with_mode = args.deep_view();
    if s.compiler == Compiler::MSVC {
        args.push("/MACHINE:X64".to_owned());
    } else {
        args.push("-m64".to_owned());
    }
    proof {
        assert(args.deep_view() =~= with_mode.push(target_flag(s.compiler, s.target)));
        assert(args.deep_view() =~= flag_args(*s, include_dir@, output_path@));
    }
    let ghost flags = args.deep_view();
    let mut k: usize = 0;
    while k < sources.len()
        invariant
            0 <= k <= sources.len(),
            args.deep_view() == flags + sources.deep_view().take(k as int),
        decreases sources.len() - k,
    {
        let ghost prev = args.deep_view();
        args.push(sources[k].clone());
        proof {
            assert(args.deep_view() =~= prev.push(sources@[k as int]@));
            assert(prev.push(sources@[k as int]@) =~= flags + sources.deep_view().take(
                k as int + 1,
            ));
        }
        k += 1;
    }
    proof {
        assert(sources.deep_view().take(sources@.len() as int) =~= sources.deep_view());
    }
    Invocation { program: compiler_executable(s.compiler), args }
}

/// The concrete invocation of an ad hoc single-file build: the output
/// directive and the one source file.
pub fn file_invocation(s: &Settings, source_file: &str, output_path: &str) -> (r: Invocation)
    ensures
        r.program@ == compiler_name(s.compiler),
        r.args.deep_view() == file_args(s.compiler, source_file@, output_path@),
{
    let mut args: Vec<String> = Vec::new();
    if s.compiler == Compiler::MSVC {
        args.push(prefixed("/Fe:", output_path));
    } else {
        args.push(prefixed("-o", output_path));
    }
    args.push(source_file.to_owned());
    proof {
        assert(args.deep_view() =~= file_args(s.compiler, source_file@, output_path@));
    }
    Invocation { program: compiler_executable(s.compiler), args }
}

} // verus!
