use sgx_sdk_tools::cli::{
    build_rs_content, cargo_build_args, cargo_needs_json_target_spec, cargo_toml_content,
    default_edl_path, default_output_path, default_version_script_path, enclave_name,
    get_edl_target_dir, get_sgx_target_json, lib_name_from, manifest_lib_name,
    new_project_report, plan_enclave_so, project_dir, sgx_sdk_relative_path,
    sgx_target_json_path, static_lib_path, target_json_content, target_profile_dir,
    template_skip_notice, Mitigation,
    CARGO_CONFIG, ENCLAVE_EDL, ENCLAVE_SO_FILE, TARGET_JSON_FILE, TARGET_NAME, VERSION_SCRIPT,
};

#[test]
fn mitigation_option_names() {
    assert_eq!(Mitigation::Cve20200551Load.to_string(), "CVE-2020-0551-LOAD");
    assert_eq!(Mitigation::Cve20200551Cf.to_string(), "CVE-2020-0551-CF");
}

#[test]
fn cli_edl_target_dir() {
    assert_eq!(get_edl_target_dir(None), "target/edl");
    assert_eq!(get_edl_target_dir(Some("/ct")), "/ct/edl");
}

#[test]
fn target_json_lookup() {
    assert_eq!(sgx_target_json_path("/p"), "/p/x86_64-unknown-unknown-sgx.json");
    assert_eq!(get_sgx_target_json("/p", true), Ok("/p/x86_64-unknown-unknown-sgx.json".to_string()));
    assert_eq!(
        get_sgx_target_json(".", false),
        Err("Could not find x86_64-unknown-unknown-sgx.json in .".to_string())
    );
    assert_eq!(TARGET_JSON_FILE, format!("{TARGET_NAME}.json"));
}

#[test]
fn lib_name_rules() {
    assert_eq!(lib_name_from(Some("my-enclave"), None), Ok("my-enclave".to_string()));
    assert_eq!(lib_name_from(Some("my-enclave"), Some("my_enclave")), Ok("my_enclave".to_string()));
    assert_eq!(
        lib_name_from(None, Some("x")),
        Err("Failed to get package name from Cargo.toml".to_string())
    );
}

#[test]
fn manifest_lib_name_from_text() {
    let both = "[package]\nname = \"my-enclave\"\n\n[lib]\nname = \"my_enclave\"\n";
    assert_eq!(manifest_lib_name(both), Ok("my_enclave".to_string()));
    let package_only = "[package]\nname = \"demo\"\nversion = \"0.1.0\"\n";
    assert_eq!(manifest_lib_name(package_only), Ok("demo".to_string()));
    let no_name = "[package]\nversion = \"0.1.0\"\n";
    assert_eq!(manifest_lib_name(no_name), Err("Failed to get package name from Cargo.toml".to_string()));
    let not_string = "[package]\nname = 3\n";
    assert!(manifest_lib_name(not_string).is_err());
}

#[test]
fn manifest_lib_name_rejects_bad_toml() {
    match manifest_lib_name("[package\nname = ") {
        Ok(_) => panic!("accepted invalid TOML"),
        Err(e) => {
            let parser_error = toml::from_str::<toml::Value>("[package\nname = ").unwrap_err();
            assert_eq!(e, format!("Failed to parse Cargo.toml: {parser_error}"));
        }
    }
}

#[test]
fn manifest_lib_name_of_generated_manifest() {
    let text = cargo_toml_content("my-enclave", None);
    assert_eq!(manifest_lib_name(&text), Ok("my_enclave".to_string()));
}

#[test]
fn cargo_build_arguments() {
    assert_eq!(
        cargo_build_args("t.json", true, true, true),
        vec!["build", "-Zjson-target-spec", "--target", "t.json", "--release", "-v"]
    );
    assert_eq!(cargo_build_args("t.json", false, false, false), vec!["build", "--target", "t.json"]);
}

#[test]
fn json_target_spec_probe() {
    assert!(cargo_needs_json_target_spec(b"    -Z json-target-spec  -- ...", b""));
    assert!(cargo_needs_json_target_spec(b"", b"json-target-spec"));
    assert!(!cargo_needs_json_target_spec(b"-Z build-std", b"error"));
    assert!(cargo_needs_json_target_spec(b"\xff json-target-spec", b""));
    assert!(!cargo_needs_json_target_spec(b"json-target\xffspec", b""));
}

#[test]
fn artifact_paths() {
    assert_eq!(target_profile_dir("/p", false), "/p/target/x86_64-unknown-unknown-sgx/debug");
    assert_eq!(
        static_lib_path("/p", true, "my-enclave"),
        "/p/target/x86_64-unknown-unknown-sgx/release/libmy_enclave.a"
    );
    assert_eq!(
        static_lib_path(".", false, "my_enclave"),
        static_lib_path(".", false, "my-enclave")
    );
    assert_eq!(default_output_path("/d"), format!("/d/{ENCLAVE_SO_FILE}"));
    assert_eq!(default_edl_path("."), "./Enclave.edl");
    assert_eq!(default_version_script_path("p"), "p/Enclave.lds");
}

#[test]
fn enclave_so_plan_defaults() {
    let plan = plan_enclave_so("/p", None, true, None, false).expect("plan");
    assert_eq!(plan.edl_path, "/p/Enclave.edl");
    assert_eq!(plan.edl_lib_name, "Enclave_t");
    assert_eq!(plan.version_script, "/p/Enclave.lds");
    assert!(plan.create_version_script);
    let plan = plan_enclave_so("/p", None, true, None, true).expect("plan");
    assert!(!plan.create_version_script);
}

#[test]
fn enclave_so_plan_given_paths() {
    let plan = plan_enclave_so("/p", Some("/q/My.edl"), true, Some("/q/v.lds"), true).expect("plan");
    assert_eq!(plan.edl_path, "/q/My.edl");
    assert_eq!(plan.edl_lib_name, "My_t");
    assert_eq!(plan.version_script, "/q/v.lds");
    assert!(!plan.create_version_script);
}

#[test]
fn enclave_so_plan_errors() {
    assert_eq!(
        plan_enclave_so("/p", Some("x.edl"), false, None, true).err(),
        Some("EDL file not found: x.edl".to_string())
    );
    assert_eq!(
        plan_enclave_so("/p", None, false, None, true).err(),
        Some("Default EDL file not found: /p/Enclave.edl".to_string())
    );
    assert_eq!(
        plan_enclave_so("/p", None, true, Some("v.lds"), false).err(),
        Some("Version script not found: v.lds".to_string())
    );
    assert_eq!(
        plan_enclave_so("/p", Some("/"), true, None, true).err(),
        Some("Invalid EDL filename".to_string())
    );
}

#[test]
fn new_project_names() {
    assert_eq!(project_dir(None), "enclave");
    assert_eq!(project_dir(Some("apps/demo".to_string())), "apps/demo");
    assert_eq!(enclave_name(None, "apps/demo"), "demo");
    assert_eq!(enclave_name(Some("x".to_string()), "apps/demo"), "x");
    assert_eq!(enclave_name(None, ".."), "enclave");
}

#[test]
fn sdk_path_relative_to_project() {
    assert_eq!(sgx_sdk_relative_path("/w", "sdk", "proj"), Some("../sdk".to_string()));
    assert_eq!(sgx_sdk_relative_path("/w", "/opt/sdk", "a/b"), Some("../../../opt/sdk".to_string()));
    assert_eq!(sgx_sdk_relative_path("/w", "a/sdk", "a/p"), Some("../sdk".to_string()));
}

#[test]
fn build_script_templates() {
    let plain = build_rs_content(None);
    assert_eq!(
        plain,
        "fn main() {\n    sgx_build::SgxBuilder::new()\n        .build_enclave(\"Enclave.edl\")\n        .expect(\"Failed to build SGX enclave\");\n}\n"
    );
    let load = build_rs_content(Some("CVE-2020-0551-LOAD"));
    assert!(load.starts_with(
        "fn main() {\n    std::env::set_var(\"MITIGATION_CVE_2020_0551\", \"LOAD\");\n    sgx_build"
    ));
    let cf = build_rs_content(Some("CVE-2020-0551-CF"));
    assert!(cf.contains("\"CF\");\n"));
    assert_eq!(build_rs_content(Some("other")), plain);
}

#[test]
fn manifest_template_with_local_sdk() {
    let text = cargo_toml_content("my-enclave", Some("../sdk"));
    assert!(text.starts_with("[package]\nname = \"my-enclave\"\n"));
    assert!(text.contains("[lib]\nname = \"my_enclave\"\ncrate-type = [\"staticlib\"]\n"));
    assert!(text.contains("sgx-ert = { path = \"../sdk/sgx-ert\" }\n"));
    assert!(text.ends_with("[build-dependencies]\nsgx-build = { path = \"../sdk/sgx-build\" }\n"));
}

#[test]
fn manifest_template_with_repository() {
    let text = cargo_toml_content("e", None);
    assert!(text.contains(
        "sgx-ert = { git = \"https://github.com/datachainlab/sgx-sdk-rs\", branch = \"main\" }"
    ));
    assert!(text.ends_with(
        "sgx-build = { git = \"https://github.com/datachainlab/sgx-sdk-rs\", branch = \"main\" }\n"
    ));
}

#[test]
fn target_json_template() {
    let template = "{\"features\": \"+sse{{MITIGATION_FEATURES}}\", \"llvm-args\": {{MITIGATION_LLVM_ARGS}}}";
    assert_eq!(
        target_json_content(template, None),
        "{\"features\": \"+sse\", \"llvm-args\": []}"
    );
    assert_eq!(
        target_json_content(template, Some("CVE-2020-0551-CF")),
        "{\"features\": \"+sse,+lvi-cfi,+lvi-load-hardening\", \"llvm-args\": [\"--x86-experimental-lvi-inline-asm-hardening\"]}"
    );
}

#[test]
fn project_report_lines() {
    let lines = new_project_report("demo");
    assert_eq!(lines.len(), 12);
    assert_eq!(lines[0], "Successfully initialized SGX enclave project at demo");
    assert_eq!(lines[1], "Created files:");
    assert_eq!(lines[7], "  - demo/Enclave_private.pem (RSA 3072-bit private key)");
    assert_eq!(lines[11], "  - demo/.gitignore");
}

#[test]
fn fixed_templates() {
    assert!(VERSION_SCRIPT.starts_with("enclave.so\n{\n    global:\n"));
    assert!(CARGO_CONFIG.starts_with("[build]\ntarget = \"x86_64-unknown-unknown-sgx\"\n"));
    assert!(ENCLAVE_EDL.contains("public sgx_status_t ecall_sample("));
}

#[test]
fn existing_files_are_skipped_unless_forced() {
    assert_eq!(
        template_skip_notice("build.rs", true, false),
        Some("Skipping build.rs (already exists)".to_string())
    );
    assert_eq!(template_skip_notice("build.rs", true, true), None);
    assert_eq!(template_skip_notice("build.rs", false, false), None);
}
