//! The SGX builder: its settings, read from the values of environment
//! variables, and the compiler flags, definitions and header directories it
//! selects for code generated from EDL files.

use crate::cc_build::{
    build_cargo_metadata, build_define, build_file, build_flag, build_header_dir, build_out_dir,
    cc_cargo_metadata, cc_defines, cc_files, cc_flags, cc_host, cc_includes, cc_opt_level,
    cc_out_dir, cc_target, same_settings,
};
use crate::gcc::{detect_gcc_version, gcc_version_spec};
use crate::mode::{
    mitigation_parse_spec, mode_parse_spec, Cve20200551Mitigation, SgxMode,
};
use crate::cc_build::{build_host, build_new, build_opt_level, build_target};
use crate::paths::{
    ancestor_named, file_stem, file_stem_spec, find_ancestor_named, join_spec, path_join,
    path_parent, spec_path_parent,
};
use crate::sdk_env::{default_arch, default_sdk, lib_dir_name, sdk_lib_path, sgx_arch, sgx_sdk};
use crate::text::{
    concat2, concat3, decimal_spec, push_string, push_text, split_char_spec, split_text,
    str_eq, u32_to_decimal,
};
use vstd::prelude::*;
use vstd::string::*;
use vstd::utf8::*;

verus! {

/// The values the builder's settings are read from: those of the
/// environment variables `SGX_SDK`, `SGX_MODE`, `SGX_ARCH`, `SGX_DEBUG`,
/// `MITIGATION_CVE_2020_0551` and `MITIGATION-CVE-2020-0551` (absent when
/// unset or not Unicode), whether debug assertions are compiled in, whether
/// pointers are 32 bits wide, and what `gcc --version` wrote to its standard
/// output (absent when it could not be run).
pub struct BuildEnvironment {
    pub sgx_sdk: Option<String>,
    pub sgx_mode: Option<String>,
    pub sgx_arch: Option<String>,
    pub sgx_debug: Option<String>,
    pub debug_assertions: bool,
    pub pointer_width_32: bool,
    pub mitigation: Option<String>,
    pub mitigation_alt: Option<String>,
    pub gcc_output: Option<Vec<u8>>,
}

/// The settings of a builder, as values.
pub struct BuilderConfig {
    pub sgx_sdk: Seq<char>,
    pub sgx_mode: SgxMode,
    pub sgx_arch: Seq<char>,
    pub debug: bool,
    pub mitigation: Cve20200551Mitigation,
    pub gcc_version: Option<(u32, u32, u32)>,
}

/// Builder for SGX applications (both enclave and app components).
pub struct SgxBuilder {
    sgx_sdk: String,
    sgx_mode: SgxMode,
    sgx_arch: String,
    debug: bool,
    mitigation_cve_2020_0551: Cve20200551Mitigation,
    gcc_version: Option<(u32, u32, u32)>,
}

impl View for SgxBuilder {
    type V = BuilderConfig;

    closed spec fn view(&self) -> BuilderConfig {
        BuilderConfig {
            sgx_sdk: self.sgx_sdk@,
            sgx_mode: self.sgx_mode,
            sgx_arch: self.sgx_arch@,
            debug: self.debug,
            mitigation: self.mitigation_cve_2020_0551,
            gcc_version: self.gcc_version,
        }
    }
}

/// The text of an optional environment value.
pub open spec fn opt_text(v: Option<String>) -> Option<Seq<char>> {
    match v {
        Some(s) => Some(s@),
        None => None,
    }
}

/// The mode: the one `SGX_MODE` names, hardware when it names none.
pub open spec fn mode_setting(v: Option<Seq<char>>) -> SgxMode {
    match v {
        Some(s) => match mode_parse_spec(s) {
            Ok(m) => m,
            Err(_) => SgxMode::Hardware,
        },
        None => SgxMode::Hardware,
    }
}

/// Debug builds: `SGX_DEBUG` is `1`, or debug assertions are compiled in.
pub open spec fn debug_setting(v: Option<Seq<char>>, debug_assertions: bool) -> bool {
    (v == Some("1"@)) || debug_assertions
}

/// The message for an unusable mitigation setting.
pub open spec fn invalid_mitigation_setting(e: Seq<char>) -> Seq<char> {
    "Invalid MITIGATION_CVE_2020_0551 value: "@ + e
}

/// The mitigation strategy: from `MITIGATION_CVE_2020_0551`, else from
/// `MITIGATION-CVE-2020-0551`; none when neither is set or the value is
/// empty; an error when the value names no strategy.
pub open spec fn mitigation_setting(a: Option<Seq<char>>, b: Option<Seq<char>>) -> Result<
    Cve20200551Mitigation,
    Seq<char>,
> {
    let chosen = match a {
        Some(s) => Some(s),
        None => b,
    };
    match chosen {
        Some(v) => if v.len() == 0 {
            Ok(Cve20200551Mitigation::Disabled)
        } else {
            match mitigation_parse_spec(v) {
                Ok(m) => Ok(m),
                Err(e) => Err(invalid_mitigation_setting(e)),
            }
        },
        None => Ok(Cve20200551Mitigation::Disabled),
    }
}

/// The GCC version read from what `gcc --version` printed.
pub open spec fn gcc_setting(out: Option<Seq<u8>>) -> Option<(u32, u32, u32)> {
    match out {
        Some(bytes) => if valid_utf8(bytes) {
            gcc_version_spec(decode_utf8(bytes))
        } else {
            None
        },
        None => None,
    }
}

/// The settings a builder takes from `env`, when its mitigation value is usable.
pub open spec fn config_from_env(env: BuildEnvironment, m: Cve20200551Mitigation) -> BuilderConfig {
    BuilderConfig {
        sgx_sdk: match opt_text(env.sgx_sdk) {
            Some(s) => s,
            None => default_sdk(),
        },
        sgx_mode: mode_setting(opt_text(env.sgx_mode)),
        sgx_arch: match opt_text(env.sgx_arch) {
            Some(s) => s,
            None => default_arch(env.pointer_width_32),
        },
        debug: debug_setting(opt_text(env.sgx_debug), env.debug_assertions),
        mitigation: m,
        gcc_version: gcc_setting(
            match env.gcc_output {
                Some(v) => Some(v@),
                None => None,
            },
        ),
    }
}

/// The flag that selects the pointer width: `-m32` for `x86`, else `-m64`.
pub open spec fn arch_flag(arch: Seq<char>) -> Seq<char> {
    if arch == "x86"@ {
        "-m32"@
    } else {
        "-m64"@
    }
}

/// The flags common to all generated code: stack protection, separate
/// sections, warnings, and the debug or release optimization flags.
pub open spec fn common_flags(debug: bool) -> Seq<Seq<char>> {
    seq![
        "-fstack-protector-strong"@,
        "-ffunction-sections"@,
        "-fdata-sections"@,
        "-Wall"@,
        "-Wextra"@,
        "-Winit-self"@,
        "-Wpointer-arith"@,
        "-Wreturn-type"@,
        "-Waddress"@,
        "-Wsequence-point"@,
        "-Wformat-security"@,
        "-Wmissing-include-dirs"@,
        "-Wfloat-equal"@,
        "-Wundef"@,
        "-Wshadow"@,
        "-Wcast-align"@,
        "-Wconversion"@,
        "-Wredundant-decls"@,
        "-Wjump-misses-init"@,
        "-Wstrict-prototypes"@,
        "-Wunsuffixed-float-constants"@,
    ] + if debug {
        seq!["-ggdb"@, "-O0"@, "-g"@]
    } else {
        seq!["-O2"@]
    }
}

/// The definitions common to all generated code: the architecture, and the
/// debug or release markers.
pub open spec fn common_defines(arch: Seq<char>, debug: bool) -> Seq<
    (Seq<char>, Option<Seq<char>>),
> {
    seq![
        (
            if arch == "x86"@ {
                "ITT_ARCH_IA32"@
            } else {
                "ITT_ARCH_IA64"@
            },
            None::<Seq<char>>,
        ),
    ] + if debug {
        seq![("DEBUG"@, None::<Seq<char>>), ("UNDEBUG"@, None::<Seq<char>>)]
    } else {
        seq![("_FORTIFY_SOURCE"@, Some("2"@)), ("UDEBUG"@, None::<Seq<char>>), ("NDEBUG"@, None::<Seq<char>>)]
    }
}

/// The CVE-2020-0551 flags: none unless the mode is hardware and a strategy
/// is chosen; then indirect-branch, return-thunk and PLT hardening, the
/// control-flow protection override for GCC 8 and later, and the assembler
/// LFENCE options of the strategy.
pub open spec fn mitigation_flags(
    mode: SgxMode,
    m: Cve20200551Mitigation,
    gcc: Option<(u32, u32, u32)>,
) -> Seq<Seq<char>> {
    if mode == SgxMode::Hardware && m != Cve20200551Mitigation::Disabled {
        seq!["-mindirect-branch-register"@] + (if gcc matches Some(v) && v.0 >= 8 {
            seq!["-fcf-protection=none"@]
        } else {
            seq![]
        }) + seq!["-mfunction-return=thunk-extern"@, "-fno-plt"@] + (if m
            == Cve20200551Mitigation::Load {
            seq!["-Wa,-mlfence-after-load=yes"@, "-Wa,-mlfence-before-indirect-branch=memory"@]
        } else {
            seq!["-Wa,-mlfence-before-indirect-branch=all"@]
        }) + seq!["-Wa,-mlfence-before-ret=shl"@]
    } else {
        seq![]
    }
}

/// The cargo warning that the mitigation flags come with in debug builds.
pub open spec fn mitigation_warning(c: BuilderConfig) -> Option<Seq<char>> {
    if c.sgx_mode == SgxMode::Hardware && c.mitigation != Cve20200551Mitigation::Disabled
        && c.debug {
        match c.gcc_version {
            Some(v) => Some(
                "cargo:warning=Using GCC "@ + decimal_spec(v.0 as nat)
                    + " mitigation flags for CVE-2020-0551 ("@ + c.mitigation.spec_name() + ")"@,
            ),
            None => Some(
                "cargo:warning=Could not detect GCC version, some CVE-2020-0551 mitigation flags may be missing"@,
            ),
        }
    } else {
        None
    }
}

/// The flags for code that runs inside the enclave.
pub open spec fn enclave_flags(c: BuilderConfig) -> Seq<Seq<char>> {
    seq![
        "-nostdinc"@,
        "-fvisibility=hidden"@,
        "-fpie"@,
        "-ffreestanding"@,
        "-fno-strict-overflow"@,
        "-fno-delete-null-pointer-checks"@,
        "-fno-builtin-printf"@,
        "-fno-builtin"@,
    ] + mitigation_flags(c.sgx_mode, c.mitigation, c.gcc_version)
}

/// The flags for code of the untrusted application.
pub open spec fn app_flags() -> Seq<Seq<char>> {
    seq!["-fPIC"@]
}

/// The SDK's header directory.
pub open spec fn sdk_headers(c: BuilderConfig) -> Seq<char> {
    join_spec(c.sgx_sdk, "include"@)
}

/// The SDK's trusted C library header directory.
pub open spec fn sdk_tlibc_headers(c: BuilderConfig) -> Seq<char> {
    join_spec(c.sgx_sdk, "include/tlibc"@)
}

/// The CVE-2020-0551 flags apply in hardware mode only: simulation builds
/// get none, whatever the strategy and compiler.
pub proof fn lemma_no_mitigation_in_simulation(m: Cve20200551Mitigation, gcc: Option<(u32, u32, u32)>)
    ensures
        mitigation_flags(SgxMode::Simulation, m, gcc) == Seq::<Seq<char>>::empty(),
{
}

/// Without a strategy there are no CVE-2020-0551 flags.
pub proof fn lemma_no_mitigation_when_disabled(mode: SgxMode, gcc: Option<(u32, u32, u32)>)
    ensures
        mitigation_flags(mode, Cve20200551Mitigation::Disabled, gcc) == Seq::<Seq<char>>::empty(),
{
}

/// With a strategy in hardware mode, the flags always harden indirect
/// branches first and fence returns last.
pub proof fn lemma_mitigation_brackets(m: Cve20200551Mitigation, gcc: Option<(u32, u32, u32)>)
    requires
        m != Cve20200551Mitigation::Disabled,
    ensures
        mitigation_flags(SgxMode::Hardware, m, gcc).len() > 0,
        mitigation_flags(SgxMode::Hardware, m, gcc)[0] == "-mindirect-branch-register"@,
        mitigation_flags(SgxMode::Hardware, m, gcc).last() == "-Wa,-mlfence-before-ret=shl"@,
{
}

/// With a strategy in hardware mode, control-flow protection is turned off
/// exactly when GCC 8 or later was detected, whichever strategy it is.
pub proof fn lemma_cf_protection_follows_gcc(m: Cve20200551Mitigation, gcc: Option<(u32, u32, u32)>)
    requires
        m != Cve20200551Mitigation::Disabled,
    ensures
        mitigation_flags(SgxMode::Hardware, m, gcc).contains("-fcf-protection=none"@) <==> (gcc matches Some(
            v,
        ) && v.0 >= 8),
{
    reveal_strlit("-mindirect-branch-register");
    reveal_strlit("-fcf-protection=none");
    reveal_strlit("-mfunction-return=thunk-extern");
    reveal_strlit("-fno-plt");
    reveal_strlit("-Wa,-mlfence-after-load=yes");
    reveal_strlit("-Wa,-mlfence-before-indirect-branch=memory");
    reveal_strlit("-Wa,-mlfence-before-indirect-branch=all");
    reveal_strlit("-Wa,-mlfence-before-ret=shl");
    assert("-mindirect-branch-register"@.len() == 26 && "-fcf-protection=none"@.len() == 20
        && "-mfunction-return=thunk-extern"@.len() == 30 && "-fno-plt"@.len() == 8
        && "-Wa,-mlfence-after-load=yes"@.len() == 27
        && "-Wa,-mlfence-before-indirect-branch=memory"@.len() == 42
        && "-Wa,-mlfence-before-indirect-branch=all"@.len() == 39
        && "-Wa,-mlfence-before-ret=shl"@.len() == 27);
    let f = mitigation_flags(SgxMode::Hardware, m, gcc);
    let new_gcc = gcc matches Some(v) && v.0 >= 8;
    let fences: Seq<Seq<char>> = if m == Cve20200551Mitigation::Load {
        seq!["-Wa,-mlfence-after-load=yes"@, "-Wa,-mlfence-before-indirect-branch=memory"@]
    } else {
        seq!["-Wa,-mlfence-before-indirect-branch=all"@]
    };
    let rest: Seq<Seq<char>> = seq!["-mfunction-return=thunk-extern"@, "-fno-plt"@] + fences + seq![
        "-Wa,-mlfence-before-ret=shl"@,
    ];
    assert forall|i: int| 0 <= i < rest.len() implies rest[i].len() != 20 by {
        if m == Cve20200551Mitigation::Load {
            assert(rest =~= seq![
                "-mfunction-return=thunk-extern"@,
                "-fno-plt"@,
                "-Wa,-mlfence-after-load=yes"@,
                "-Wa,-mlfence-before-indirect-branch=memory"@,
                "-Wa,-mlfence-before-ret=shl"@,
            ]);
        } else {
            assert(rest =~= seq![
                "-mfunction-return=thunk-extern"@,
                "-fno-plt"@,
                "-Wa,-mlfence-before-indirect-branch=all"@,
                "-Wa,-mlfence-before-ret=shl"@,
            ]);
        }
    }
    if new_gcc {
        assert(f =~= seq!["-mindirect-branch-register"@, "-fcf-protection=none"@] + rest);
        assert(f[1] == "-fcf-protection=none"@);
    } else {
        assert(f =~= seq!["-mindirect-branch-register"@] + rest);
        assert forall|i: int| 0 <= i < f.len() implies f[i] != "-fcf-protection=none"@ by {
            if i > 0 {
                assert(f[i] == rest[i - 1]);
                assert(rest[i - 1].len() != 20);
            }
        }
    }
}

/// The architecture definition of the common flags agrees with the
/// architecture flag: `ITT_ARCH_IA32` exactly for `-m32`, `ITT_ARCH_IA64`
/// exactly for `-m64`, with no value.
pub proof fn lemma_arch_define_matches_arch_flag(arch: Seq<char>, debug: bool)
    ensures
        (common_defines(arch, debug)[0].0 == "ITT_ARCH_IA32"@) == (arch_flag(arch) == "-m32"@),
        (common_defines(arch, debug)[0].0 == "ITT_ARCH_IA64"@) == (arch_flag(arch) == "-m64"@),
        common_defines(arch, debug)[0].1 is None,
{
    reveal_strlit("ITT_ARCH_IA32");
    reveal_strlit("ITT_ARCH_IA64");
    reveal_strlit("-m32");
    reveal_strlit("-m64");
    assert("ITT_ARCH_IA32"@[11] != "ITT_ARCH_IA64"@[11]);
    assert("-m32"@[2] != "-m64"@[2]);
}

/// The `--search-path` pairs for a list of directories: one pair per
/// directory, in order.
pub proof fn lemma_search_path_args_pairs(dirs: Seq<Seq<char>>)
    ensures
        search_path_args(dirs).len() == 2 * dirs.len(),
        forall|i: int|
            0 <= i < dirs.len() ==> #[trigger] search_path_args(dirs)[2 * i] == "--search-path"@,
        forall|i: int| 0 <= i < dirs.len() ==> #[trigger] search_path_args(dirs)[2 * i + 1] == dirs[i],
    decreases dirs.len(),
{
    if dirs.len() > 0 {
        lemma_search_path_args_pairs(dirs.drop_last());
        let prev = search_path_args(dirs.drop_last());
        let all = search_path_args(dirs);
        assert(all == prev + seq!["--search-path"@, dirs.last()]);
        assert forall|i: int| 0 <= i < dirs.len() implies #[trigger] all[2 * i] == "--search-path"@ by {
            if i < dirs.len() - 1 {
                assert(prev[2 * i] == "--search-path"@);
                assert(all[2 * i] == prev[2 * i]);
            } else {
                assert(2 * i == prev.len());
            }
        }
        assert forall|i: int| 0 <= i < dirs.len() implies #[trigger] all[2 * i + 1] == dirs[i] by {
            if i < dirs.len() - 1 {
                assert(prev[2 * i + 1] == dirs.drop_last()[i]);
                assert(all[2 * i + 1] == prev[2 * i + 1]);
            } else {
                assert(2 * i == prev.len());
            }
        }
    }
}

/// On either side, every directory of the colon-separated search-path
/// value is passed to `sgx_edger8r`, in order, as a `--search-path` pair
/// right after the SDK headers; the two sides differ only in the flag that
/// names the side and the one that names its output directory.
pub proof fn lemma_edger8r_search_paths(
    c: BuilderConfig,
    edl_path: Seq<char>,
    trusted: bool,
    search_paths: Seq<char>,
    edl_dir: Seq<char>,
    target_dir: Seq<char>,
)
    ensures
        edger8r_args(c, edl_path, trusted, Some(search_paths), edl_dir, target_dir).len() == 8 + 2
            * split_char_spec(search_paths, ':').len(),
        forall|i: int|
            0 <= i < split_char_spec(search_paths, ':').len() ==> edger8r_args(
                c,
                edl_path,
                trusted,
                Some(search_paths),
                edl_dir,
                target_dir,
            )[4 + 2 * i] == "--search-path"@ && #[trigger] edger8r_args(
                c,
                edl_path,
                trusted,
                Some(search_paths),
                edl_dir,
                target_dir,
            )[5 + 2 * i] == split_char_spec(search_paths, ':')[i],
        forall|j: int|
            1 <= j < edger8r_args(c, edl_path, trusted, Some(search_paths), edl_dir, target_dir).len()
                - 2 ==> #[trigger] edger8r_args(
                c,
                edl_path,
                trusted,
                Some(search_paths),
                edl_dir,
                target_dir,
            )[j] == edger8r_args(c, edl_path, !trusted, Some(search_paths), edl_dir, target_dir)[j],
{
    let dirs = split_char_spec(search_paths, ':');
    lemma_search_path_args_pairs(dirs);
    let a = edger8r_args(c, edl_path, trusted, Some(search_paths), edl_dir, target_dir);
    let b = edger8r_args(c, edl_path, !trusted, Some(search_paths), edl_dir, target_dir);
    let sp = search_path_args(dirs);
    let first = |side: bool| seq![
        if side {
            "--trusted"@
        } else {
            "--untrusted"@
        },
        edl_path,
        "--search-path"@,
        sdk_headers(c),
    ];
    let last = |side: bool| seq![
        "--search-path"@,
        edl_dir,
        if side {
            "--trusted-dir"@
        } else {
            "--untrusted-dir"@
        },
        target_dir,
    ];
    assert(a == first(trusted) + sp + last(trusted));
    assert(b == first(!trusted) + sp + last(!trusted));
    assert forall|i: int| 0 <= i < dirs.len() implies a[4 + 2 * i] == "--search-path"@
        && #[trigger] a[5 + 2 * i] == dirs[i] by {
        assert(a[4 + 2 * i] == sp[2 * i]);
        assert(a[5 + 2 * i] == sp[2 * i + 1]);
    }
    assert forall|j: int| 1 <= j < a.len() - 2 implies #[trigger] a[j] == b[j] by {
        if 4 <= j < 4 + sp.len() {
            assert(a[j] == sp[j - 4]);
            assert(b[j] == sp[j - 4]);
        }
    }
}

/// The mitigation strategy named by the values of `MITIGATION_CVE_2020_0551`
/// (`primary`) and `MITIGATION-CVE-2020-0551` (`alt`): the first one set is
/// used; unset or empty means none; an error when it names no strategy.
pub fn mitigation_from_env(primary: &Option<String>, alt: &Option<String>) -> (r: Result<
    Cve20200551Mitigation,
    String,
>)
    ensures
        mitigation_setting(opt_text(*primary), opt_text(*alt)) matches Ok(m) ==> r == Ok::<
            Cve20200551Mitigation,
            String,
        >(m),
        mitigation_setting(opt_text(*primary), opt_text(*alt)) matches Err(e) ==> (r matches Err(
            msg,
        ) && msg@ == e),
{
    let chosen: Option<&str> = match primary {
        Some(s) => Some(s.as_str()),
        None => match alt {
            Some(s) => Some(s.as_str()),
            None => None,
        },
    };
    match chosen {
        Some(v) => {
            if v.unicode_len() == 0 {
                Ok(Cve20200551Mitigation::Disabled)
            } else {
                match Cve20200551Mitigation::parse(v) {
                    Ok(m) => Ok(m),
                    Err(e) => Err(concat2("Invalid MITIGATION_CVE_2020_0551 value: ", e.as_str())),
                }
            }
        },
        None => Ok(Cve20200551Mitigation::Disabled),
    }
}

impl SgxBuilder {
    /// Creates a builder with the settings read from `env`, whose mitigation
    /// value must name a strategy (or none).
    pub fn new(env: BuildEnvironment) -> (r: SgxBuilder)
        requires
            mitigation_setting(opt_text(env.mitigation), opt_text(env.mitigation_alt)) is Ok,
        ensures
            mitigation_setting(opt_text(env.mitigation), opt_text(env.mitigation_alt)) matches Ok(
                m,
            ) && r@ == config_from_env(env, m),
    {
        let m = match mitigation_from_env(&env.mitigation, &env.mitigation_alt) {
            Ok(m) => m,
            Err(_) => {
                proof {
                    assert(false);
                }
                Cve20200551Mitigation::Disabled
            },
        };
        let BuildEnvironment {
            sgx_sdk: sdk_var,
            sgx_mode: mode_var,
            sgx_arch: arch_var,
            sgx_debug: debug_var,
            debug_assertions,
            pointer_width_32,
            mitigation: _,
            mitigation_alt: _,
            gcc_output,
        } = env;
        let sdk = sgx_sdk(sdk_var);
        let mode = match mode_var {
            Some(s) => match SgxMode::parse(s.as_str()) {
                Ok(m) => m,
                Err(_) => SgxMode::Hardware,
            },
            None => SgxMode::Hardware,
        };
        let arch = sgx_arch(arch_var, pointer_width_32);
        let debug = match debug_var {
            Some(s) => str_eq(s.as_str(), "1"),
            None => false,
        } || debug_assertions;
        let gcc_version = match gcc_output {
            Some(bytes) => detect_gcc_version(bytes.as_slice()),
            None => None,
        };
        SgxBuilder {
            sgx_sdk: sdk,
            sgx_mode: mode,
            sgx_arch: arch,
            debug,
            mitigation_cve_2020_0551: m,
            gcc_version,
        }
    }

    /// Creates a builder with the settings read from `env`; an error when the
    /// mitigation value names no strategy.
    pub fn try_new(env: BuildEnvironment) -> (r: Result<SgxBuilder, String>)
        ensures
            mitigation_setting(opt_text(env.mitigation), opt_text(env.mitigation_alt)) matches Ok(
                m,
            ) ==> (r matches Ok(b) && b@ == config_from_env(env, m)),
            mitigation_setting(opt_text(env.mitigation), opt_text(env.mitigation_alt)) matches Err(
                e,
            ) ==> (r matches Err(msg) && msg@ == e),
    {
        match mitigation_from_env(&env.mitigation, &env.mitigation_alt) {
            Ok(_) => Ok(SgxBuilder::new(env)),
            Err(e) => Err(e),
        }
    }

    /// The SGX SDK install prefix.
    pub fn sdk(&self) -> (r: &str)
        ensures
            r@ == self@.sgx_sdk,
    {
        self.sgx_sdk.as_str()
    }

    /// The execution mode.
    pub fn mode(&self) -> (r: SgxMode)
        ensures
            r == self@.sgx_mode,
    {
        self.sgx_mode
    }

    /// The target architecture.
    pub fn arch(&self) -> (r: &str)
        ensures
            r@ == self@.sgx_arch,
    {
        self.sgx_arch.as_str()
    }

    /// Whether this is a debug build.
    pub fn is_debug(&self) -> (r: bool)
        ensures
            r == self@.debug,
    {
        self.debug
    }

    /// The CVE-2020-0551 mitigation strategy.
    pub fn mitigation(&self) -> (r: Cve20200551Mitigation)
        ensures
            r == self@.mitigation,
    {
        self.mitigation_cve_2020_0551
    }

    /// The GCC version, when it was detected.
    pub fn gcc_version(&self) -> (r: Option<(u32, u32, u32)>)
        ensures
            r == self@.gcc_version,
    {
        self.gcc_version
    }

    /// Get SDK library path based on architecture, from the values that
    /// `SGX_SDK` and `SGX_ARCH` have now (not those the builder was made
    /// with) and whether pointers are 32 bits wide.
    pub fn get_sdk_lib_path(
        &self,
        sgx_sdk_var: Option<String>,
        sgx_arch_var: Option<String>,
        pointer_width_32: bool,
    ) -> (r: String)
        ensures
            r@ == join_spec(
                match opt_text(sgx_sdk_var) {
                    Some(s) => s,
                    None => default_sdk(),
                },
                lib_dir_name(
                    match opt_text(sgx_arch_var) {
                        Some(a) => a,
                        None => default_arch(pointer_width_32),
                    },
                ),
            ),
    {
        let sdk = sgx_sdk(sgx_sdk_var);
        let arch = sgx_arch(sgx_arch_var, pointer_width_32);
        sdk_lib_path(sdk.as_str(), arch.as_str())
    }

    /// Get architecture-specific flags.
    pub fn get_arch_flags(&self) -> (r: &'static str)
        ensures
            r@ == arch_flag(self@.sgx_arch),
    {
        if str_eq(self.sgx_arch.as_str(), "x86") {
            "-m32"
        } else {
            "-m64"
        }
    }

    /// Apply common compiler flags.
    pub fn apply_common_flags(&self, build: &mut cc::Build)
        ensures
            cc_flags(*final(build)) == cc_flags(*old(build)) + common_flags(self@.debug),
            cc_defines(*final(build)) == cc_defines(*old(build)) + common_defines(
                self@.sgx_arch,
                self@.debug,
            ),
            cc_includes(*final(build)) == cc_includes(*old(build)),
            cc_files(*final(build)) == cc_files(*old(build)),
            same_settings(*final(build), *old(build)),
    {
        let ghost f0 = cc_flags(*build);
        let ghost d0 = cc_defines(*build);
        build_flag(build, "-fstack-protector-strong");
        build_flag(build, "-ffunction-sections");
        build_flag(build, "-fdata-sections");
        if str_eq(self.sgx_arch.as_str(), "x86") {
            build_define(build, "ITT_ARCH_IA32", None);
        } else {
            build_define(build, "ITT_ARCH_IA64", None);
        }
        build_flag(build, "-Wall");
        build_flag(build, "-Wextra");
        build_flag(build, "-Winit-self");
        build_flag(build, "-Wpointer-arith");
        build_flag(build, "-Wreturn-type");
        build_flag(build, "-Waddress");
        build_flag(build, "-Wsequence-point");
        build_flag(build, "-Wformat-security");
        build_flag(build, "-Wmissing-include-dirs");
        build_flag(build, "-Wfloat-equal");
        build_flag(build, "-Wundef");
        build_flag(build, "-Wshadow");
        build_flag(build, "-Wcast-align");
        build_flag(build, "-Wconversion");
        build_flag(build, "-Wredundant-decls");
        build_flag(build, "-Wjump-misses-init");
        build_flag(build, "-Wstrict-prototypes");
        build_flag(build, "-Wunsuffixed-float-constants");
        if self.debug {
            build_flag(build, "-ggdb");
            build_flag(build, "-O0");
            build_flag(build, "-g");
            build_define(build, "DEBUG", None);
            build_define(build, "UNDEBUG", None);
        } else {
            build_flag(build, "-O2");
            build_define(build, "_FORTIFY_SOURCE", Some("2"));
            build_define(build, "UDEBUG", None);
            build_define(build, "NDEBUG", None);
        }
        assert(cc_flags(*build) =~= f0 + common_flags(self@.debug));
        assert(cc_defines(*build) =~= d0 + common_defines(self@.sgx_arch, self@.debug));
    }

    /// Apply mitigation flags for CVE-2020-0551; gives the cargo warning to
    /// print, if any.
    pub fn apply_mitigation_flags(&self, build: &mut cc::Build) -> (warning: Option<String>)
        ensures
            cc_flags(*final(build)) == cc_flags(*old(build)) + mitigation_flags(
                self@.sgx_mode,
                self@.mitigation,
                self@.gcc_version,
            ),
            cc_defines(*final(build)) == cc_defines(*old(build)),
            cc_includes(*final(build)) == cc_includes(*old(build)),
            cc_files(*final(build)) == cc_files(*old(build)),
            same_settings(*final(build), *old(build)),
            warning.deep_view() == mitigation_warning(self@),
    {
        let ghost f0 = cc_flags(*build);
        let mut warning: Option<String> = None;
        let hardware = match self.sgx_mode {
            SgxMode::Hardware => true,
            SgxMode::Simulation => false,
        };
        let active = match self.mitigation_cve_2020_0551 {
            Cve20200551Mitigation::Disabled => false,
            _ => true,
        };
        if hardware && active {
            build_flag(build, "-mindirect-branch-register");
            match self.gcc_version {
                Some((major, _, _)) => {
                    if major >= 8 {
                        build_flag(build, "-fcf-protection=none");
                    }
                    if self.debug {
                        let mut w = concat2(
                            "cargo:warning=Using GCC ",
                            u32_to_decimal(major).as_str(),
                        );
                        w.append(" mitigation flags for CVE-2020-0551 (");
                        w.append(self.mitigation_cve_2020_0551.to_string().as_str());
                        w.append(")");
                        warning = Some(w);
                    }
                },
                None => {
                    if self.debug {
                        warning = Some(
                            String::from_str(
                                "cargo:warning=Could not detect GCC version, some CVE-2020-0551 mitigation flags may be missing",
                            ),
                        );
                    }
                },
            }
            build_flag(build, "-mfunction-return=thunk-extern");
            build_flag(build, "-fno-plt");
            match self.mitigation_cve_2020_0551 {
                Cve20200551Mitigation::Load => {
                    build_flag(build, "-Wa,-mlfence-after-load=yes");
                    build_flag(build, "-Wa,-mlfence-before-indirect-branch=memory");
                },
                _ => {
                    build_flag(build, "-Wa,-mlfence-before-indirect-branch=all");
                },
            }
            build_flag(build, "-Wa,-mlfence-before-ret=shl");
        }
        assert(cc_flags(*build) =~= f0 + mitigation_flags(
            self@.sgx_mode,
            self@.mitigation,
            self@.gcc_version,
        ));
        warning
    }

    /// Apply enclave-specific compile flags; gives the cargo warning to print,
    /// if any.
    pub fn apply_enclave_compile_flags(&self, build: &mut cc::Build) -> (warning: Option<String>)
        ensures
            cc_flags(*final(build)) == cc_flags(*old(build)) + enclave_flags(self@),
            cc_includes(*final(build)) == cc_includes(*old(build)).push(sdk_tlibc_headers(self@)),
            cc_defines(*final(build)) == cc_defines(*old(build)),
            cc_files(*final(build)) == cc_files(*old(build)),
            same_settings(*final(build), *old(build)),
            warning.deep_view() == mitigation_warning(self@),
    {
        let ghost f0 = cc_flags(*build);
        build_flag(build, "-nostdinc");
        build_flag(build, "-fvisibility=hidden");
        build_flag(build, "-fpie");
        build_flag(build, "-ffreestanding");
        build_flag(build, "-fno-strict-overflow");
        build_flag(build, "-fno-delete-null-pointer-checks");
        let tlibc = path_join(self.sgx_sdk.as_str(), "include/tlibc");
        build_header_dir(build, tlibc.as_str());
        build_flag(build, "-fno-builtin-printf");
        build_flag(build, "-fno-builtin");
        let warning = self.apply_mitigation_flags(build);
        assert(cc_flags(*build) =~= f0 + enclave_flags(self@));
        warning
    }

    /// Apply app-specific compile flags.
    pub fn apply_app_compile_flags(&self, build: &mut cc::Build)
        ensures
            cc_flags(*final(build)) == cc_flags(*old(build)) + app_flags(),
            cc_includes(*final(build)) == cc_includes(*old(build)),
            cc_defines(*final(build)) == cc_defines(*old(build)),
            cc_files(*final(build)) == cc_files(*old(build)),
            same_settings(*final(build), *old(build)),
    {
        let ghost f0 = cc_flags(*build);
        build_flag(build, "-fPIC");
        assert(cc_flags(*build) =~= f0 + app_flags());
    }

    /// Configures `build` to compile the C file generated from an EDL file:
    /// the file, the architecture flag, the SDK headers and the file's own
    /// directory, the common flags, the enclave or app flags, cargo metadata
    /// in debug builds only, and `target_dir` as output directory.  Gives the
    /// cargo warning to print, if any; an error when the C file has no parent
    /// directory.
    pub fn configure_edl_build(
        &self,
        build: &mut cc::Build,
        c_file: &str,
        enclave: bool,
        target_dir: &str,
    ) -> (r: Result<Option<String>, String>)
        ensures
            spec_path_parent(c_file@) is None ==> (r matches Err(e) && e@
                == "C file should have a parent directory"@ && *final(build) == *old(build)),
            spec_path_parent(c_file@) matches Some(dir) ==> {
                &&& r matches Ok(w)
                &&& w.deep_view() == if enclave {
                    mitigation_warning(self@)
                } else {
                    None
                }
                &&& cc_files(*final(build)) == cc_files(*old(build)).push(c_file@)
                &&& cc_flags(*final(build)) == cc_flags(*old(build)) + seq![
                    arch_flag(self@.sgx_arch),
                ] + common_flags(self@.debug) + if enclave {
                    enclave_flags(self@)
                } else {
                    app_flags()
                }
                &&& cc_includes(*final(build)) == cc_includes(*old(build)) + seq![
                    sdk_headers(self@),
                    dir,
                ] + if enclave {
                    seq![sdk_tlibc_headers(self@)]
                } else {
                    seq![]
                }
                &&& cc_defines(*final(build)) == cc_defines(*old(build)) + common_defines(
                    self@.sgx_arch,
                    self@.debug,
                )
                &&& cc_cargo_metadata(*final(build)) == self@.debug
                &&& cc_out_dir(*final(build)) == Some(target_dir@)
                &&& cc_target(*final(build)) == cc_target(*old(build))
                &&& cc_host(*final(build)) == cc_host(*old(build))
                &&& cc_opt_level(*final(build)) == cc_opt_level(*old(build))
            },
    {
        let c_file_dir = match path_parent(c_file) {
            Some(d) => d,
            None => {
                return Err(String::from_str("C file should have a parent directory"));
            },
        };
        let ghost f0 = cc_flags(*build);
        let ghost i0 = cc_includes(*build);
        let ghost d0 = cc_defines(*build);
        build_file(build, c_file);
        build_flag(build, self.get_arch_flags());
        let headers = path_join(self.sgx_sdk.as_str(), "include");
        build_header_dir(build, headers.as_str());
        build_header_dir(build, c_file_dir.as_str());
        self.apply_common_flags(build);
        let warning = if enclave {
            self.apply_enclave_compile_flags(build)
        } else {
            self.apply_app_compile_flags(build);
            None
        };
        build_cargo_metadata(build, self.debug);
        build_out_dir(build, target_dir);
        assert(cc_flags(*build) =~= f0 + seq![arch_flag(self@.sgx_arch)] + common_flags(self@.debug)
            + if enclave {
            enclave_flags(self@)
        } else {
            app_flags()
        });
        assert(cc_includes(*build) =~= i0 + seq![sdk_headers(self@), c_file_dir@] + if enclave {
            seq![sdk_tlibc_headers(self@)]
        } else {
            seq![]
        });
        Ok(warning)
    }
}

/// Output information from EDL processing.
pub struct EdlOutput {
    pub c_file: String,
    pub h_file: String,
    pub lib_name: String,
}

/// How to run `sgx_edger8r` on an EDL file, and what it writes.
pub struct EdgerCommand {
    pub program: String,
    pub args: Vec<String>,
    pub output: EdlOutput,
}

/// The suffix of the generated files: `_t` for the trusted side, `_u` for
/// the untrusted one.
pub open spec fn edl_suffix(trusted: bool) -> Seq<char> {
    if trusted {
        "_t"@
    } else {
        "_u"@
    }
}

/// The `sgx_edger8r` program of the SDK.
pub open spec fn edger8r_program(c: BuilderConfig) -> Seq<char> {
    join_spec(c.sgx_sdk, "bin/x64/sgx_edger8r"@)
}

/// A `--search-path` argument pair for each directory, in order.
pub open spec fn search_path_args(dirs: Seq<Seq<char>>) -> Seq<Seq<char>>
    decreases dirs.len(),
{
    if dirs.len() == 0 {
        seq![]
    } else {
        search_path_args(dirs.drop_last()) + seq!["--search-path"@, dirs.last()]
    }
}

/// The arguments of `sgx_edger8r`: the side, the EDL file, the SDK headers,
/// each directory of the colon-separated `SGX_EDL_SEARCH_PATHS` value, the
/// EDL file's directory, and the output directory of the side.
pub open spec fn edger8r_args(
    c: BuilderConfig,
    edl_path: Seq<char>,
    trusted: bool,
    search_paths: Option<Seq<char>>,
    edl_dir: Seq<char>,
    target_dir: Seq<char>,
) -> Seq<Seq<char>> {
    seq![
        if trusted {
            "--trusted"@
        } else {
            "--untrusted"@
        },
        edl_path,
        "--search-path"@,
        sdk_headers(c),
    ] + match search_paths {
        Some(s) => search_path_args(split_char_spec(s, ':')),
        None => seq![],
    } + seq![
        "--search-path"@,
        edl_dir,
        if trusted {
            "--trusted-dir"@
        } else {
            "--untrusted-dir"@
        },
        target_dir,
    ]
}

/// Where the EDL artifacts go: `edl` under `CARGO_TARGET_DIR` when that is
/// set; otherwise `edl` under the nearest `target` directory above
/// `OUT_DIR`; an error when neither can be found.
pub open spec fn edl_target_dir_spec(cargo_target_dir: Option<Seq<char>>, out_dir: Option<Seq<char>>) -> Result<
    Seq<char>,
    Seq<char>,
> {
    match cargo_target_dir {
        Some(t) => Ok(join_spec(t, "edl"@)),
        None => match out_dir {
            None => Err("OUT_DIR not set. This function should only be called from build.rs"@),
            Some(o) => match ancestor_named(o, "target"@) {
                Some(t) => Ok(join_spec(t, "edl"@)),
                None => Err("Could not find 'target' directory in OUT_DIR path: "@ + o),
            },
        },
    }
}

/// The cargo directive that makes a build rerun when the variable the EDL
/// directory was found from changes.
pub open spec fn edl_target_rerun(cargo_target_dir: Option<Seq<char>>) -> Seq<char> {
    if cargo_target_dir is Some {
        "cargo:rerun-if-env-changed=CARGO_TARGET_DIR"@
    } else {
        "cargo:rerun-if-env-changed=OUT_DIR"@
    }
}

/// Directives that make a build rerun when the builder's variables change.
pub open spec fn common_env_rerun() -> Seq<Seq<char>> {
    seq![
        "cargo:rerun-if-env-changed=SGX_SDK"@,
        "cargo:rerun-if-env-changed=SGX_MODE"@,
        "cargo:rerun-if-env-changed=SGX_ARCH"@,
        "cargo:rerun-if-env-changed=SGX_DEBUG"@,
        "cargo:rerun-if-env-changed=MITIGATION_CVE_2020_0551"@,
        "cargo:rerun-if-env-changed=MITIGATION-CVE-2020-0551"@,
    ]
}

/// The directives that link the generated EDL library and rerun the build
/// when the EDL file or the builder's variables change.
pub open spec fn edl_link_directives(edl_dir: Seq<char>, lib_name: Seq<char>, edl_path: Seq<char>) -> Seq<
    Seq<char>,
> {
    seq![
        "cargo:rustc-link-search=native="@ + edl_dir,
        "cargo:rustc-link-lib=static="@ + lib_name,
        "cargo:rerun-if-changed="@ + edl_path,
    ] + common_env_rerun()
}

/// The linker arguments for an enclave, as cargo directives.
pub open spec fn enclave_linker_directives(c: BuilderConfig) -> Seq<Seq<char>> {
    seq![
        "cargo:rustc-link-arg=-Wl,-z,relro,-z,now,-z,noexecstack"@,
        "cargo:rustc-link-arg=-nostdlib"@,
        "cargo:rustc-link-arg=-nodefaultlibs"@,
        "cargo:rustc-link-arg=-nostartfiles"@,
        "cargo:rustc-link-arg=-Wl,-Bstatic"@,
        "cargo:rustc-link-arg=-Wl,-Bsymbolic"@,
        "cargo:rustc-link-arg=-Wl,--no-undefined"@,
        "cargo:rustc-link-arg=-Wl,-pie,-eenclave_entry"@,
        "cargo:rustc-link-arg=-Wl,--export-dynamic"@,
        "cargo:rustc-link-arg=-Wl,--defsym,__ImageBase=0"@,
        "cargo:rustc-link-arg=-Wl,--gc-sections"@,
        "cargo:rustc-link-arg="@ + arch_flag(c.sgx_arch),
    ]
}

/// The trusted runtime library of the mode.
pub open spec fn trts_lib(mode: SgxMode) -> Seq<char> {
    match mode {
        SgxMode::Simulation => "sgx_trts_sim"@,
        SgxMode::Hardware => "sgx_trts"@,
    }
}

/// The linker flags every enclave shared object is linked with.
pub open spec fn so_common_link_flags() -> Seq<Seq<char>> {
    seq![
        "-Wl,--no-undefined"@,
        "-nostdlib"@,
        "-nodefaultlibs"@,
        "-nostartfiles"@,
        "-Wl,-Bstatic"@,
        "-Wl,-Bsymbolic"@,
        "-Wl,--no-undefined"@,
        "-Wl,-pie,-eenclave_entry"@,
        "-Wl,--export-dynamic"@,
        "-Wl,--defsym,__ImageBase=0"@,
        "-Wl,--gc-sections"@,
        "-Wl,-z,relro,-z,now,-z,noexecstack"@,
    ]
}

/// The arguments of the command that links an enclave shared object: the
/// architecture flag, the common flags, the whole trusted runtime from the
/// SDK library directory `sdk_lib_dir`, the
/// static library and the EDL library in one group, the version script if
/// any, and the output.
pub open spec fn so_link_args(
    c: BuilderConfig,
    static_lib: Seq<char>,
    output: Seq<char>,
    version_script: Option<Seq<char>>,
    edl_lib_name: Seq<char>,
    edl_lib_dir: Seq<char>,
    sdk_lib_dir: Seq<char>,
) -> Seq<Seq<char>> {
    seq![arch_flag(c.sgx_arch)] + so_common_link_flags() + seq![
        "-L"@ + sdk_lib_dir,
        "-Wl,--whole-archive"@,
        "-l"@ + trts_lib(c.sgx_mode),
        "-Wl,--no-whole-archive"@,
        "-Wl,--start-group"@,
        static_lib,
        "-L"@ + edl_lib_dir,
        "-l"@ + edl_lib_name,
        "-Wl,--end-group"@,
    ] + match version_script {
        Some(p) => seq!["-Wl,--version-script="@ + p],
        None => seq![],
    } + seq!["-o"@, output]
}

/// The report of a failed link: the standard error and output, each when
/// not empty.
pub open spec fn link_failure_spec(stderr: Seq<char>, stdout: Seq<char>) -> Seq<char> {
    "Linking failed:\n"@ + (if stderr.len() > 0 {
        "stderr: "@ + stderr + "\n"@
    } else {
        seq![]
    }) + (if stdout.len() > 0 {
        "stdout: "@ + stdout + "\n"@
    } else {
        seq![]
    })
}

/// Appends one cargo directive made of a prefix and a value.
fn push_directive(v: &mut Vec<String>, prefix: &str, value: &str)
    ensures
        final(v).deep_view() == old(v).deep_view().push(prefix@ + value@),
{
    push_string(v, concat2(prefix, value));
}

/// The directives that make a build rerun when the builder's variables change.
pub fn common_env_rerun_directives() -> (r: Vec<String>)
    ensures
        r.deep_view() == common_env_rerun(),
{
    let mut v: Vec<String> = Vec::new();
    push_text(&mut v, "cargo:rerun-if-env-changed=SGX_SDK");
    push_text(&mut v, "cargo:rerun-if-env-changed=SGX_MODE");
    push_text(&mut v, "cargo:rerun-if-env-changed=SGX_ARCH");
    push_text(&mut v, "cargo:rerun-if-env-changed=SGX_DEBUG");
    push_text(&mut v, "cargo:rerun-if-env-changed=MITIGATION_CVE_2020_0551");
    push_text(&mut v, "cargo:rerun-if-env-changed=MITIGATION-CVE-2020-0551");
    assert(v.deep_view() =~= common_env_rerun());
    v
}

/// The directives printed after building the untrusted side of an EDL file.
pub fn build_app_directives(edl_dir: &str, lib_name: &str, edl_path: &str) -> (r: Vec<String>)
    ensures
        r.deep_view() == edl_link_directives(edl_dir@, lib_name@, edl_path@),
{
    let mut v: Vec<String> = Vec::new();
    push_directive(&mut v, "cargo:rustc-link-search=native=", edl_dir);
    push_directive(&mut v, "cargo:rustc-link-lib=static=", lib_name);
    push_directive(&mut v, "cargo:rerun-if-changed=", edl_path);
    let ghost first = v.deep_view();
    let rest = common_env_rerun_directives();
    let ghost rest_v = rest.deep_view();
    let mut i: usize = 0;
    while i < rest.len()
        invariant
            i <= rest.len(),
            rest.deep_view() == rest_v,
            v.deep_view() == first + rest_v.take(i as int),
        decreases rest.len() - i,
    {
        push_text(&mut v, rest[i].as_str());
        i += 1;
        assert(v.deep_view() =~= first + rest_v.take(i as int));
    }
    assert(rest_v.take(i as int) =~= rest_v);
    assert(v.deep_view() =~= edl_link_directives(edl_dir@, lib_name@, edl_path@));
    v
}

impl SgxBuilder {
    /// Get the target directory for EDL artifacts, from the values of
    /// `CARGO_TARGET_DIR` and `OUT_DIR`, one of which must lead to it; also
    /// gives the rerun directive for the variable that was used.
    pub fn get_edl_target_dir(cargo_target_dir: Option<&str>, out_dir: Option<&str>) -> (r: (
        String,
        String,
    ))
        requires
            edl_target_dir_spec(
                match cargo_target_dir {
                    Some(t) => Some(t@),
                    None => None,
                },
                match out_dir {
                    Some(o) => Some(o@),
                    None => None,
                },
            ) is Ok,
        ensures
            r.0@ == edl_target_rerun(
                match cargo_target_dir {
                    Some(t) => Some(t@),
                    None => None,
                },
            ),
            edl_target_dir_spec(
                match cargo_target_dir {
                    Some(t) => Some(t@),
                    None => None,
                },
                match out_dir {
                    Some(o) => Some(o@),
                    None => None,
                },
            ) == Ok::<Seq<char>, Seq<char>>(r.1@),
    {
        match cargo_target_dir {
            Some(t) => (
                String::from_str("cargo:rerun-if-env-changed=CARGO_TARGET_DIR"),
                path_join(t, "edl"),
            ),
            None => {
                let rerun = String::from_str("cargo:rerun-if-env-changed=OUT_DIR");
                let o: &str = match out_dir {
                    Some(o) => o,
                    None => {
                        proof {
                            assert(false);
                        }
                        ""
                    },
                };
                match find_ancestor_named(o, "target") {
                    Some(t) => (rerun, path_join(t.as_str(), "edl")),
                    None => {
                        proof {
                            assert(false);
                        }
                        (rerun, String::new())
                    },
                }
            },
        }
    }

    /// Get the target directory for EDL artifacts, from the values of
    /// `CARGO_TARGET_DIR` and `OUT_DIR`, or why there is none; also gives the
    /// rerun directive for the variable that was used.
    pub fn try_get_edl_target_dir(cargo_target_dir: Option<&str>, out_dir: Option<&str>) -> (r: (
        String,
        Result<String, String>,
    ))
        ensures
            r.0@ == edl_target_rerun(
                match cargo_target_dir {
                    Some(t) => Some(t@),
                    None => None,
                },
            ),
            edl_target_dir_spec(
                match cargo_target_dir {
                    Some(t) => Some(t@),
                    None => None,
                },
                match out_dir {
                    Some(o) => Some(o@),
                    None => None,
                },
            ) == match r.1 {
                Ok(d) => Ok::<Seq<char>, Seq<char>>(d@),
                Err(e) => Err(e@),
            },
    {
        let found = match cargo_target_dir {
            Some(_) => true,
            None => match out_dir {
                None => false,
                Some(o) => find_ancestor_named(o, "target").is_some(),
            },
        };
        if found {
            let (rerun, dir) = SgxBuilder::get_edl_target_dir(cargo_target_dir, out_dir);
            return (rerun, Ok(dir));
        }
        let rerun = String::from_str("cargo:rerun-if-env-changed=OUT_DIR");
        match out_dir {
            None => (
                rerun,
                Err(String::from_str("OUT_DIR not set. This function should only be called from build.rs")),
            ),
            Some(o) => (rerun, Err(concat2("Could not find 'target' directory in OUT_DIR path: ", o))),
        }
    }

    /// How to process an EDL file with `sgx_edger8r` and which files that
    /// writes to `target_dir`; `search_paths` is the value of
    /// `SGX_EDL_SEARCH_PATHS`.  An error when the path has no file name or no
    /// parent directory.
    pub fn edl_generate_command(
        &self,
        edl_path: &str,
        trusted: bool,
        search_paths: Option<&str>,
        target_dir: &str,
    ) -> (r: Result<EdgerCommand, String>)
        ensures
            file_stem_spec(edl_path@) is None ==> (r matches Err(e) && e@ == "Invalid EDL path"@),
            file_stem_spec(edl_path@) is Some && spec_path_parent(edl_path@) is None ==> (r matches Err(
                e,
            ) && e@ == "Invalid EDL path: no parent directory"@),
            file_stem_spec(edl_path@) matches Some(name) ==> (spec_path_parent(edl_path@) matches Some(
                dir,
            ) ==> (r matches Ok(cmd) && cmd.program@ == edger8r_program(self@)
                && cmd.args.deep_view() == edger8r_args(
                self@,
                edl_path@,
                trusted,
                match search_paths {
                    Some(s) => Some(s@),
                    None => None,
                },
                dir,
                target_dir@,
            ) && cmd.output.lib_name@ == name + edl_suffix(trusted) && cmd.output.c_file@
                == join_spec(target_dir@, name + edl_suffix(trusted) + ".c"@) && cmd.output.h_file@
                == join_spec(target_dir@, name + edl_suffix(trusted) + ".h"@))),
    {
        let edl_name = match file_stem(edl_path) {
            Some(n) => n,
            None => {
                return Err(String::from_str("Invalid EDL path"));
            },
        };
        let edl_dir = match path_parent(edl_path) {
            Some(d) => d,
            None => {
                return Err(String::from_str("Invalid EDL path: no parent directory"));
            },
        };
        let suffix = if trusted {
            "_t"
        } else {
            "_u"
        };
        let program = path_join(self.sgx_sdk.as_str(), "bin/x64/sgx_edger8r");
        let mut args: Vec<String> = Vec::new();
        push_text(&mut args, if trusted {
            "--trusted"
        } else {
            "--untrusted"
        });
        push_text(&mut args, edl_path);
        push_text(&mut args, "--search-path");
        push_string(&mut args, path_join(self.sgx_sdk.as_str(), "include"));
        let ghost head = args.deep_view();
        let ghost search_spec: Seq<Seq<char>> = match search_paths {
            Some(s) => search_path_args(split_char_spec(s@, ':')),
            None => seq![],
        };
        match search_paths {
            Some(s) => {
                let dirs = split_text(s, ':');
                let ghost dv = split_char_spec(s@, ':');
                let mut i: usize = 0;
                while i < dirs.len()
                    invariant
                        i <= dirs.len(),
                        dirs.deep_view() == dv,
                        args.deep_view() == head + search_path_args(dv.take(i as int)),
                    decreases dirs.len() - i,
                {
                    push_text(&mut args, "--search-path");
                    push_text(&mut args, dirs[i].as_str());
                    assert(dv.take(i + 1).drop_last() =~= dv.take(i as int));
                    assert(args.deep_view() =~= head + search_path_args(dv.take(i + 1)));
                    i += 1;
                }
                assert(dv.take(i as int) =~= dv);
            },
            None => {
                assert(args.deep_view() =~= head + search_spec);
            },
        }
        push_text(&mut args, "--search-path");
        push_text(&mut args, edl_dir.as_str());
        push_text(&mut args, if trusted {
            "--trusted-dir"
        } else {
            "--untrusted-dir"
        });
        push_text(&mut args, target_dir);
        proof {
            reveal_strlit("_t");
            reveal_strlit("_u");
        }
        assert(args.deep_view() =~= edger8r_args(
            self@,
            edl_path@,
            trusted,
            match search_paths {
                Some(s) => Some(s@),
                None => None,
            },
            edl_dir@,
            target_dir@,
        ));
        let lib_name = concat2(edl_name.as_str(), suffix);
        let c_name = concat3(edl_name.as_str(), suffix, ".c");
        let h_name = concat3(edl_name.as_str(), suffix, ".h");
        let c_file = path_join(target_dir, c_name.as_str());
        let h_file = path_join(target_dir, h_name.as_str());
        Ok(EdgerCommand { program, args, output: EdlOutput { c_file, h_file, lib_name } })
    }

    /// Setup linker flags for enclave: the cargo directives to print.
    pub fn setup_enclave_linker(&self) -> (r: Vec<String>)
        ensures
            r.deep_view() == enclave_linker_directives(self@),
    {
        let mut v: Vec<String> = Vec::new();
        push_text(&mut v, "cargo:rustc-link-arg=-Wl,-z,relro,-z,now,-z,noexecstack");
        push_text(&mut v, "cargo:rustc-link-arg=-nostdlib");
        push_text(&mut v, "cargo:rustc-link-arg=-nodefaultlibs");
        push_text(&mut v, "cargo:rustc-link-arg=-nostartfiles");
        push_text(&mut v, "cargo:rustc-link-arg=-Wl,-Bstatic");
        push_text(&mut v, "cargo:rustc-link-arg=-Wl,-Bsymbolic");
        push_text(&mut v, "cargo:rustc-link-arg=-Wl,--no-undefined");
        push_text(&mut v, "cargo:rustc-link-arg=-Wl,-pie,-eenclave_entry");
        push_text(&mut v, "cargo:rustc-link-arg=-Wl,--export-dynamic");
        push_text(&mut v, "cargo:rustc-link-arg=-Wl,--defsym,__ImageBase=0");
        push_text(&mut v, "cargo:rustc-link-arg=-Wl,--gc-sections");
        push_directive(&mut v, "cargo:rustc-link-arg=", self.get_arch_flags());
        assert(v.deep_view() =~= enclave_linker_directives(self@));
        v
    }

    /// The directives printed after building the trusted side of an EDL file:
    /// the enclave linker arguments, then those of the untrusted side.
    pub fn build_enclave_directives(&self, edl_dir: &str, lib_name: &str, edl_path: &str) -> (r:
        Vec<String>)
        ensures
            r.deep_view() == enclave_linker_directives(self@) + edl_link_directives(
                edl_dir@,
                lib_name@,
                edl_path@,
            ),
    {
        let mut v = self.setup_enclave_linker();
        let ghost first = v.deep_view();
        let rest = build_app_directives(edl_dir, lib_name, edl_path);
        let ghost rest_v = rest.deep_view();
        let mut i: usize = 0;
        while i < rest.len()
            invariant
                i <= rest.len(),
                rest.deep_view() == rest_v,
                v.deep_view() == first + rest_v.take(i as int),
            decreases rest.len() - i,
        {
            push_text(&mut v, rest[i].as_str());
            i += 1;
            assert(v.deep_view() =~= first + rest_v.take(i as int));
        }
        assert(rest_v.take(i as int) =~= rest_v);
        v
    }

    /// The C compiler configuration whose compiler links enclave shared
    /// objects: the x86-64 Linux target and host, no optimization in debug
    /// builds and level 2 otherwise, cargo metadata in debug builds only.
    pub fn enclave_so_linker_build(&self) -> (b: cc::Build)
        ensures
            cc_target(b) == Some("x86_64-unknown-linux-gnu"@),
            cc_host(b) == Some("x86_64-unknown-linux-gnu"@),
            cc_opt_level(b) == Some(
                if self@.debug {
                    0nat
                } else {
                    2nat
                },
            ),
            cc_cargo_metadata(b) == self@.debug,
            cc_flags(b) == Seq::<Seq<char>>::empty(),
            cc_defines(b) == Seq::<(Seq<char>, Option<Seq<char>>)>::empty(),
            cc_includes(b) == Seq::<Seq<char>>::empty(),
            cc_files(b) == Seq::<Seq<char>>::empty(),
            cc_out_dir(b) is None,
    {
        let mut b = build_new();
        build_target(&mut b, "x86_64-unknown-linux-gnu");
        build_host(&mut b, "x86_64-unknown-linux-gnu");
        build_opt_level(
            &mut b,
            if self.debug {
                0
            } else {
                2
            },
        );
        build_cargo_metadata(&mut b, self.debug);
        b
    }

    /// The arguments of the command that links an enclave shared object,
    /// with the trusted runtime taken from `sdk_lib_dir` (what
    /// [`SgxBuilder::get_sdk_lib_path`] gives when linking); an error when a
    /// version script is given that does not exist.
    pub fn enclave_so_link_args(
        &self,
        static_lib: &str,
        output: &str,
        version_script: Option<&str>,
        version_script_exists: bool,
        edl_lib_name: &str,
        edl_lib_dir: &str,
        sdk_lib_dir: &str,
    ) -> (r: Result<Vec<String>, String>)
        ensures
            version_script is Some && !version_script_exists ==> (r matches Err(e) && e@
                == "Version script not found: "@ + version_script.unwrap()@),
            version_script is None || version_script_exists ==> (r matches Ok(args)
                && args.deep_view() == so_link_args(
                self@,
                static_lib@,
                output@,
                match version_script {
                    Some(p) => Some(p@),
                    None => None,
                },
                edl_lib_name@,
                edl_lib_dir@,
                sdk_lib_dir@,
            )),
    {
        let mut v: Vec<String> = Vec::new();
        push_text(&mut v, self.get_arch_flags());
        push_text(&mut v, "-Wl,--no-undefined");
        push_text(&mut v, "-nostdlib");
        push_text(&mut v, "-nodefaultlibs");
        push_text(&mut v, "-nostartfiles");
        push_text(&mut v, "-Wl,-Bstatic");
        push_text(&mut v, "-Wl,-Bsymbolic");
        push_text(&mut v, "-Wl,--no-undefined");
        push_text(&mut v, "-Wl,-pie,-eenclave_entry");
        push_text(&mut v, "-Wl,--export-dynamic");
        push_text(&mut v, "-Wl,--defsym,__ImageBase=0");
        push_text(&mut v, "-Wl,--gc-sections");
        push_text(&mut v, "-Wl,-z,relro,-z,now,-z,noexecstack");
        let trts = match self.sgx_mode {
            SgxMode::Simulation => "sgx_trts_sim",
            SgxMode::Hardware => "sgx_trts",
        };
        push_directive(&mut v, "-L", sdk_lib_dir);
        push_text(&mut v, "-Wl,--whole-archive");
        push_directive(&mut v, "-l", trts);
        push_text(&mut v, "-Wl,--no-whole-archive");
        push_text(&mut v, "-Wl,--start-group");
        push_text(&mut v, static_lib);
        push_directive(&mut v, "-L", edl_lib_dir);
        push_directive(&mut v, "-l", edl_lib_name);
        push_text(&mut v, "-Wl,--end-group");
        match version_script {
            Some(p) => {
                if version_script_exists {
                    push_directive(&mut v, "-Wl,--version-script=", p);
                } else {
                    return Err(concat2("Version script not found: ", p));
                }
            },
            None => {},
        }
        push_text(&mut v, "-o");
        push_text(&mut v, output);
        assert(v.deep_view() =~= so_link_args(
            self@,
            static_lib@,
            output@,
            match version_script {
                Some(p) => Some(p@),
                None => None,
            },
            edl_lib_name@,
            edl_lib_dir@,
            sdk_lib_dir@,
        ));
        Ok(v)
    }
}

/// The report of a failed link.
pub fn link_failure_message(stderr: &str, stdout: &str) -> (r: String)
    ensures
        r@ == link_failure_spec(stderr@, stdout@),
{
    let mut msg = String::from_str("Linking failed:\n");
    if stderr.unicode_len() > 0 {
        msg.append("stderr: ");
        msg.append(stderr);
        msg.append("\n");
    }
    if stdout.unicode_len() > 0 {
        msg.append("stdout: ");
        msg.append(stdout);
        msg.append("\n");
    }
    assert(msg@ =~= link_failure_spec(stderr@, stdout@));
    msg
}

} // verus!
