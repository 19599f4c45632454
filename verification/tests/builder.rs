use sgx_sdk_tools::builder::{
    build_app_directives, common_env_rerun_directives, link_failure_message,
    mitigation_from_env, BuildEnvironment, EdgerCommand, SgxBuilder,
};
use sgx_sdk_tools::mode::{Cve20200551Mitigation, SgxMode};

fn env() -> BuildEnvironment {
    BuildEnvironment {
        sgx_sdk: None,
        sgx_mode: None,
        sgx_arch: None,
        sgx_debug: None,
        debug_assertions: false,
        pointer_width_32: false,
        mitigation: None,
        mitigation_alt: None,
        gcc_output: None,
    }
}

fn builder(e: BuildEnvironment) -> SgxBuilder {
    SgxBuilder::new(e)
}

/// The text of one list field of a build's debug form, such as
/// `Always("-m64"), Always("-O2")` for `flags`.
fn field(build: &cc::Build, name: &str) -> String {
    let dbg = format!("{build:?}");
    let key = format!(" {name}: [");
    let start = dbg.find(&key).expect("field present") + key.len();
    let end = start + dbg[start..].find(']').expect("list closed");
    dbg[start..end].to_string()
}

fn flags_of(build: &cc::Build) -> Vec<String> {
    let text = field(build, "flags");
    if text.is_empty() {
        return Vec::new();
    }
    text.split(", ")
        .map(|f| f.trim_start_matches("Always(\"").trim_end_matches("\")").to_string())
        .collect()
}

#[test]
fn builder_defaults() {
    let b = builder(env());
    assert_eq!(b.sdk(), "/opt/intel/sgxsdk");
    assert_eq!(b.mode(), SgxMode::Hardware);
    assert_eq!(b.arch(), "x64");
    assert!(!b.is_debug());
    assert_eq!(b.mitigation(), Cve20200551Mitigation::Disabled);
    assert_eq!(b.gcc_version(), None);
}

#[test]
fn builder_reads_its_variables() {
    let mut e = env();
    e.sgx_sdk = Some("/sdk".to_string());
    e.sgx_mode = Some("sim".to_string());
    e.sgx_arch = Some("x86".to_string());
    e.sgx_debug = Some("1".to_string());
    e.gcc_output = Some(b"gcc (GCC) 9.3.1 20200408\n".to_vec());
    let b = builder(e);
    assert_eq!(b.sdk(), "/sdk");
    assert_eq!(b.mode(), SgxMode::Simulation);
    assert_eq!(b.arch(), "x86");
    assert!(b.is_debug());
    assert_eq!(b.gcc_version(), Some((9, 3, 1)));
}

#[test]
fn builder_falls_back_on_unknown_mode() {
    let mut e = env();
    e.sgx_mode = Some("bogus".to_string());
    assert_eq!(builder(e).mode(), SgxMode::Hardware);
}

#[test]
fn builder_debug_needs_exactly_one() {
    let mut e = env();
    e.sgx_debug = Some("true".to_string());
    assert!(!builder(e).is_debug());
    let mut e = env();
    e.debug_assertions = true;
    assert!(builder(e).is_debug());
}

#[test]
fn builder_32_bit_host_defaults_to_x86() {
    let mut e = env();
    e.pointer_width_32 = true;
    let b = builder(e);
    assert_eq!(b.arch(), "x86");
    assert_eq!(b.get_arch_flags(), "-m32");
    assert_eq!(b.get_sdk_lib_path(None, None, true), "/opt/intel/sgxsdk/lib");
}

#[test]
fn builder_mitigation_variables() {
    let mut e = env();
    e.mitigation = Some("load".to_string());
    assert_eq!(builder(e).mitigation(), Cve20200551Mitigation::Load);

    let mut e = env();
    e.mitigation_alt = Some("CF".to_string());
    assert_eq!(builder(e).mitigation(), Cve20200551Mitigation::ControlFlow);

    let mut e = env();
    e.mitigation = Some("LOAD".to_string());
    e.mitigation_alt = Some("CF".to_string());
    assert_eq!(builder(e).mitigation(), Cve20200551Mitigation::Load);

    let mut e = env();
    e.mitigation = Some(String::new());
    e.mitigation_alt = Some("CF".to_string());
    assert_eq!(builder(e).mitigation(), Cve20200551Mitigation::Disabled);
}

#[test]
fn builder_rejects_unknown_mitigation() {
    let mut e = env();
    e.mitigation = Some("fast".to_string());
    match SgxBuilder::try_new(e) {
        Ok(_) => panic!("accepted an unknown mitigation"),
        Err(msg) => assert_eq!(
            msg,
            "Invalid MITIGATION_CVE_2020_0551 value: Invalid CVE-2020-0551 mitigation: fast"
        ),
    }
}

#[test]
fn builder_sdk_lib_path_and_arch_flag() {
    let b = builder(env());
    assert_eq!(b.get_sdk_lib_path(None, None, false), "/opt/intel/sgxsdk/lib64");
    // The library path follows the variables as they are when it is asked for.
    assert_eq!(
        b.get_sdk_lib_path(Some("/other".to_string()), Some("x86".to_string()), false),
        "/other/lib"
    );
    assert_eq!(b.get_arch_flags(), "-m64");
}

#[test]
fn app_edl_build_configuration() {
    let b = builder(env());
    let mut build = cc::Build::new();
    let w = b.configure_edl_build(&mut build, "/t/edl/Enclave_u.c", false, "/t/edl");
    assert_eq!(w, Ok(None));
    let flags = flags_of(&build);
    assert_eq!(flags.first().map(String::as_str), Some("-m64"));
    assert_eq!(flags.last().map(String::as_str), Some("-fPIC"));
    assert!(flags.contains(&"-O2".to_string()));
    assert!(!flags.contains(&"-nostdinc".to_string()));
    assert_eq!(flags.len(), 1 + 21 + 1 + 1);
    assert_eq!(field(&build, "include_directories"), "\"/opt/intel/sgxsdk/include\", \"/t/edl\"");
    assert_eq!(
        field(&build, "definitions"),
        "(\"ITT_ARCH_IA64\", None), (\"_FORTIFY_SOURCE\", Some(\"2\")), (\"UDEBUG\", None), (\"NDEBUG\", None)"
    );
    assert_eq!(field(&build, "files"), "\"/t/edl/Enclave_u.c\"");
    let dbg = format!("{build:?}");
    assert!(dbg.contains("out_dir: Some(\"/t/edl\")"));
    assert!(dbg.contains("CargoOutput { metadata: false"));
}

#[test]
fn enclave_edl_build_configuration_with_mitigation() {
    let mut e = env();
    e.sgx_debug = Some("1".to_string());
    e.mitigation = Some("LOAD".to_string());
    e.gcc_output = Some(b"gcc (Ubuntu 9.4.0-1ubuntu1~20.04.1) 9.4.0\n".to_vec());
    let b = builder(e);
    let mut build = cc::Build::new();
    let w = b.configure_edl_build(&mut build, "/t/edl/Enclave_t.c", true, "/t/edl");
    assert_eq!(
        w,
        Ok(Some("cargo:warning=Using GCC 9 mitigation flags for CVE-2020-0551 (LOAD)".to_string()))
    );
    let flags = flags_of(&build);
    let expected_tail = [
        "-nostdinc",
        "-fvisibility=hidden",
        "-fpie",
        "-ffreestanding",
        "-fno-strict-overflow",
        "-fno-delete-null-pointer-checks",
        "-fno-builtin-printf",
        "-fno-builtin",
        "-mindirect-branch-register",
        "-fcf-protection=none",
        "-mfunction-return=thunk-extern",
        "-fno-plt",
        "-Wa,-mlfence-after-load=yes",
        "-Wa,-mlfence-before-indirect-branch=memory",
        "-Wa,-mlfence-before-ret=shl",
    ];
    let tail: Vec<&str> = flags[flags.len() - expected_tail.len()..].iter().map(String::as_str).collect();
    assert_eq!(tail, expected_tail.to_vec());
    assert_eq!(flags[0], "-m64");
    assert!(flags.contains(&"-ggdb".to_string()));
    assert!(flags.contains(&"-O0".to_string()));
    assert_eq!(
        field(&build, "include_directories"),
        "\"/opt/intel/sgxsdk/include\", \"/t/edl\", \"/opt/intel/sgxsdk/include/tlibc\""
    );
    assert_eq!(
        field(&build, "definitions"),
        "(\"ITT_ARCH_IA64\", None), (\"DEBUG\", None), (\"UNDEBUG\", None)"
    );
    assert!(format!("{build:?}").contains("CargoOutput { metadata: true"));
}

#[test]
fn control_flow_mitigation_on_old_gcc() {
    let mut e = env();
    e.mitigation = Some("cf".to_string());
    e.gcc_output = Some(b"gcc (GCC) 7.5.0\n".to_vec());
    let b = builder(e);
    let mut build = cc::Build::new();
    let w = b.apply_mitigation_flags(&mut build);
    assert_eq!(w, None);
    assert_eq!(
        flags_of(&build),
        vec![
            "-mindirect-branch-register",
            "-mfunction-return=thunk-extern",
            "-fno-plt",
            "-Wa,-mlfence-before-indirect-branch=all",
            "-Wa,-mlfence-before-ret=shl",
        ]
    );
}

#[test]
fn mitigation_warning_without_gcc_version() {
    let mut e = env();
    e.mitigation = Some("cf".to_string());
    e.debug_assertions = true;
    let b = builder(e);
    let mut build = cc::Build::new();
    let w = b.apply_mitigation_flags(&mut build);
    assert_eq!(
        w,
        Some("cargo:warning=Could not detect GCC version, some CVE-2020-0551 mitigation flags may be missing".to_string())
    );
    assert_eq!(flags_of(&build).len(), 5);
}

#[test]
fn no_mitigation_in_simulation_mode() {
    let mut e = env();
    e.sgx_mode = Some("SW".to_string());
    e.mitigation = Some("LOAD".to_string());
    e.sgx_debug = Some("1".to_string());
    let b = builder(e);
    let mut build = cc::Build::new();
    assert_eq!(b.apply_mitigation_flags(&mut build), None);
    assert!(flags_of(&build).is_empty());
}

#[test]
fn no_mitigation_when_disabled() {
    let mut e = env();
    e.mitigation = Some("none".to_string());
    let b = builder(e);
    let mut build = cc::Build::new();
    assert_eq!(b.apply_mitigation_flags(&mut build), None);
    assert!(flags_of(&build).is_empty());
}

#[test]
fn common_flags_in_debug_and_release() {
    let mut e = env();
    e.sgx_debug = Some("1".to_string());
    let mut build = cc::Build::new();
    builder(e).apply_common_flags(&mut build);
    let flags = flags_of(&build);
    assert_eq!(flags[0], "-fstack-protector-strong");
    assert_eq!(&flags[flags.len() - 3..], &["-ggdb", "-O0", "-g"]);

    let mut build = cc::Build::new();
    builder(env()).apply_common_flags(&mut build);
    assert_eq!(flags_of(&build).last().map(String::as_str), Some("-O2"));
}

#[test]
fn app_compile_flags_are_pic() {
    let mut build = cc::Build::new();
    builder(env()).apply_app_compile_flags(&mut build);
    assert_eq!(flags_of(&build), vec!["-fPIC"]);
}

#[test]
fn edl_build_needs_parent_directory() {
    let b = builder(env());
    let mut build = cc::Build::new();
    let r = b.configure_edl_build(&mut build, "/", false, "/t/edl");
    assert_eq!(r, Err("C file should have a parent directory".to_string()));
    assert!(flags_of(&build).is_empty());
    let r = b.configure_edl_build(&mut build, "gen_u.c", false, "out");
    assert_eq!(r, Ok(None));
    assert_eq!(field(&build, "include_directories"), "\"/opt/intel/sgxsdk/include\", \"\"");
}

#[test]
fn edger8r_command_for_trusted_side() {
    let b = builder(env());
    let cmd: EdgerCommand = b
        .edl_generate_command("/p/enclave/Enclave.edl", true, Some("/a:/b"), "/p/target/edl")
        .expect("command");
    assert_eq!(cmd.program, "/opt/intel/sgxsdk/bin/x64/sgx_edger8r");
    assert_eq!(
        cmd.args,
        vec![
            "--trusted",
            "/p/enclave/Enclave.edl",
            "--search-path",
            "/opt/intel/sgxsdk/include",
            "--search-path",
            "/a",
            "--search-path",
            "/b",
            "--search-path",
            "/p/enclave",
            "--trusted-dir",
            "/p/target/edl",
        ]
    );
    assert_eq!(cmd.output.lib_name, "Enclave_t");
    assert_eq!(cmd.output.c_file, "/p/target/edl/Enclave_t.c");
    assert_eq!(cmd.output.h_file, "/p/target/edl/Enclave_t.h");
}

#[test]
fn edger8r_command_for_untrusted_side() {
    let b = builder(env());
    let cmd = b
        .edl_generate_command("../enclave/Enclave.edl", false, None, "target/edl")
        .expect("command");
    assert_eq!(
        cmd.args,
        vec![
            "--untrusted",
            "../enclave/Enclave.edl",
            "--search-path",
            "/opt/intel/sgxsdk/include",
            "--search-path",
            "../enclave",
            "--untrusted-dir",
            "target/edl",
        ]
    );
    assert_eq!(cmd.output.lib_name, "Enclave_u");
    assert_eq!(cmd.output.c_file, "target/edl/Enclave_u.c");
}

#[test]
fn edger8r_command_errors() {
    let b = builder(env());
    match b.edl_generate_command("/", true, None, "t") {
        Err(e) => assert_eq!(e, "Invalid EDL path"),
        Ok(_) => panic!("accepted a path without file name"),
    }
}

#[test]
fn edl_target_dir_from_cargo_target_dir() {
    let (rerun, dir) = SgxBuilder::get_edl_target_dir(Some("/ct"), Some("/x/target/o"));
    assert_eq!(rerun, "cargo:rerun-if-env-changed=CARGO_TARGET_DIR");
    assert_eq!(dir, "/ct/edl");
    let (rerun, dir) = SgxBuilder::try_get_edl_target_dir(Some("/ct"), None);
    assert_eq!(rerun, "cargo:rerun-if-env-changed=CARGO_TARGET_DIR");
    assert_eq!(dir, Ok("/ct/edl".to_string()));
}

#[test]
fn edl_target_dir_from_out_dir() {
    let (rerun, dir) =
        SgxBuilder::get_edl_target_dir(None, Some("/w/app/target/debug/build/app-123/out"));
    assert_eq!(rerun, "cargo:rerun-if-env-changed=OUT_DIR");
    assert_eq!(dir, "/w/app/target/edl");
    let (rerun, dir) =
        SgxBuilder::try_get_edl_target_dir(None, Some("/w/app/target/debug/build/app-123/out"));
    assert_eq!(rerun, "cargo:rerun-if-env-changed=OUT_DIR");
    assert_eq!(dir, Ok("/w/app/target/edl".to_string()));
}

#[test]
fn edl_target_dir_errors() {
    let (_, dir) = SgxBuilder::try_get_edl_target_dir(None, None);
    assert_eq!(dir, Err("OUT_DIR not set. This function should only be called from build.rs".to_string()));
    let (rerun, dir) = SgxBuilder::try_get_edl_target_dir(None, Some("/w/out"));
    assert_eq!(rerun, "cargo:rerun-if-env-changed=OUT_DIR");
    assert_eq!(dir, Err("Could not find 'target' directory in OUT_DIR path: /w/out".to_string()));
}

#[test]
fn rerun_directives() {
    assert_eq!(
        common_env_rerun_directives(),
        vec![
            "cargo:rerun-if-env-changed=SGX_SDK",
            "cargo:rerun-if-env-changed=SGX_MODE",
            "cargo:rerun-if-env-changed=SGX_ARCH",
            "cargo:rerun-if-env-changed=SGX_DEBUG",
            "cargo:rerun-if-env-changed=MITIGATION_CVE_2020_0551",
            "cargo:rerun-if-env-changed=MITIGATION-CVE-2020-0551",
        ]
    );
}

#[test]
fn app_directives() {
    let d = build_app_directives("/t/edl", "Enclave_u", "/p/Enclave.edl");
    assert_eq!(d.len(), 9);
    assert_eq!(d[0], "cargo:rustc-link-search=native=/t/edl");
    assert_eq!(d[1], "cargo:rustc-link-lib=static=Enclave_u");
    assert_eq!(d[2], "cargo:rerun-if-changed=/p/Enclave.edl");
    assert_eq!(d[3..].to_vec(), common_env_rerun_directives());
}

#[test]
fn enclave_linker_directives() {
    let b = builder(env());
    let d = b.setup_enclave_linker();
    assert_eq!(d.len(), 12);
    assert_eq!(d[0], "cargo:rustc-link-arg=-Wl,-z,relro,-z,now,-z,noexecstack");
    assert_eq!(d[11], "cargo:rustc-link-arg=-m64");
    let all = b.build_enclave_directives("/t/edl", "Enclave_t", "/p/Enclave.edl");
    assert_eq!(all[..12].to_vec(), d);
    assert_eq!(all[12..].to_vec(), build_app_directives("/t/edl", "Enclave_t", "/p/Enclave.edl"));
}

#[test]
fn enclave_so_linker_settings() {
    let b = builder(env());
    let build = b.enclave_so_linker_build();
    let dbg = format!("{build:?}");
    assert!(dbg.contains("target: Some(\"x86_64-unknown-linux-gnu\")"));
    assert!(dbg.contains("host: Some(\"x86_64-unknown-linux-gnu\")"));
    assert!(dbg.contains("opt_level: Some(\"2\")"));
    assert!(dbg.contains("CargoOutput { metadata: false"));

    let mut e = env();
    e.sgx_debug = Some("1".to_string());
    let dbg = format!("{:?}", builder(e).enclave_so_linker_build());
    assert!(dbg.contains("opt_level: Some(\"0\")"));
    assert!(dbg.contains("CargoOutput { metadata: true"));
}

#[test]
fn enclave_so_link_arguments() {
    let mut e = env();
    e.sgx_mode = Some("sim".to_string());
    let b = builder(e);
    let args = b
        .enclave_so_link_args(
            "/l/libe.a",
            "/o/enclave.so",
            Some("/p/Enclave.lds"),
            true,
            "Enclave_t",
            "/t/edl",
            "/opt/intel/sgxsdk/lib64",
        )
        .expect("arguments");
    assert_eq!(
        args,
        vec![
            "-m64",
            "-Wl,--no-undefined",
            "-nostdlib",
            "-nodefaultlibs",
            "-nostartfiles",
            "-Wl,-Bstatic",
            "-Wl,-Bsymbolic",
            "-Wl,--no-undefined",
            "-Wl,-pie,-eenclave_entry",
            "-Wl,--export-dynamic",
            "-Wl,--defsym,__ImageBase=0",
            "-Wl,--gc-sections",
            "-Wl,-z,relro,-z,now,-z,noexecstack",
            "-L/opt/intel/sgxsdk/lib64",
            "-Wl,--whole-archive",
            "-lsgx_trts_sim",
            "-Wl,--no-whole-archive",
            "-Wl,--start-group",
            "/l/libe.a",
            "-L/t/edl",
            "-lEnclave_t",
            "-Wl,--end-group",
            "-Wl,--version-script=/p/Enclave.lds",
            "-o",
            "/o/enclave.so",
        ]
    );
}

#[test]
fn enclave_so_link_arguments_hardware_without_script() {
    let b = builder(env());
    let args = b.enclave_so_link_args("a.a", "e.so", None, false, "E_t", "d", "/sdk/lib").expect("arguments");
    assert_eq!(args.len(), 24);
    assert_eq!(args[13], "-L/sdk/lib");
    assert_eq!(args[15], "-lsgx_trts");
    assert_eq!(&args[22..], &["-o", "e.so"]);
}

#[test]
fn enclave_so_missing_version_script() {
    let b = builder(env());
    let r = b.enclave_so_link_args("a.a", "e.so", Some("/p/x.lds"), false, "E_t", "d", "/sdk/lib");
    assert_eq!(r, Err("Version script not found: /p/x.lds".to_string()));
}

#[test]
fn link_failure_report() {
    assert_eq!(link_failure_message("", ""), "Linking failed:\n");
    assert_eq!(link_failure_message("bad", ""), "Linking failed:\nstderr: bad\n");
    assert_eq!(
        link_failure_message("e", "o"),
        "Linking failed:\nstderr: e\nstdout: o\n"
    );
}

#[test]
fn mitigation_from_environment_values() {
    assert_eq!(mitigation_from_env(&None, &None), Ok(Cve20200551Mitigation::Disabled));
    assert_eq!(
        mitigation_from_env(&Some("cf".to_string()), &Some("LOAD".to_string())),
        Ok(Cve20200551Mitigation::ControlFlow)
    );
    assert_eq!(mitigation_from_env(&None, &Some("Load".to_string())), Ok(Cve20200551Mitigation::Load));
    assert_eq!(mitigation_from_env(&Some(String::new()), &None), Ok(Cve20200551Mitigation::Disabled));
    assert_eq!(
        mitigation_from_env(&None, &Some("x".to_string())),
        Err("Invalid MITIGATION_CVE_2020_0551 value: Invalid CVE-2020-0551 mitigation: x".to_string())
    );
}

#[test]
fn try_new_builds_like_new() {
    let mut e = env();
    e.mitigation = Some("cf".to_string());
    let b = SgxBuilder::try_new(e).expect("builder");
    assert_eq!(b.mitigation(), Cve20200551Mitigation::ControlFlow);
    assert_eq!(b.sdk(), "/opt/intel/sgxsdk");
}
