//! What the `cargo sgx` subcommand computes: where things are found and
//! written, the cargo invocation, the linking plan, and the files of a new
//! enclave project.

use crate::builder::{edl_suffix, edl_target_dir_spec};
use crate::paths::{file_stem, file_stem_spec, join_spec, path_file_name, path_join, spec_path_file_name};
use crate::text::{
    concat2, concat3, contains_spec, contains_text, push_string, push_text, replace_char,
    replace_char_spec, replace_spec, replace_text, str_eq,
};
use vstd::prelude::*;
use vstd::string::*;
use vstd::utf8::*;

verus! {

/// The name of the enclave target.
pub const TARGET_NAME: &'static str = "x86_64-unknown-unknown-sgx";

/// The target specification file.
pub const TARGET_JSON_FILE: &'static str = "x86_64-unknown-unknown-sgx.json";

/// The enclave configuration file.
pub const ENCLAVE_CONFIG_FILE: &'static str = "Enclave.config.xml";

/// The enclave interface definition file.
pub const ENCLAVE_EDL_FILE: &'static str = "Enclave.edl";

/// The enclave signing key file.
pub const ENCLAVE_PRIVATE_KEY_FILE: &'static str = "Enclave_private.pem";

/// The enclave linker version script.
pub const ENCLAVE_LDS_FILE: &'static str = "Enclave.lds";

/// The enclave shared object.
pub const ENCLAVE_SO_FILE: &'static str = "enclave.so";

/// The name and directory of a new project when none is given.
pub const DEFAULT_ENCLAVE_NAME: &'static str = "enclave";

/// Where the SDK crates come from when no local copy is given.
pub const SGX_SDK_REPO_URL: &'static str = "https://github.com/datachainlab/sgx-sdk-rs";

/// The version script an enclave is linked with by default.
pub const VERSION_SCRIPT: &'static str = "enclave.so
{
    global:
        g_global_data_sim;
        g_global_data;
        enclave_entry;
        g_peak_heap_used;
        g_peak_rsrv_mem_committed;
    local:
        *;
};
";

/// The enclave configuration of a new project.
pub const ENCLAVE_CONFIG: &'static str = "<EnclaveConfiguration>
  <ProdID>0</ProdID>
  <ISVSVN>0</ISVSVN>
  <StackMaxSize>0x40000</StackMaxSize>
  <HeapMaxSize>0x100000</HeapMaxSize>
  <TCSNum>1</TCSNum>
  <TCSPolicy>1</TCSPolicy>
  <!-- Recommend changing to 1 for production -->
  <DisableDebug>0</DisableDebug>
  <MiscSelect>0</MiscSelect>
  <MiscMask>0xFFFFFFFF</MiscMask>
</EnclaveConfiguration>
";

/// The interface definition of a new project.
pub const ENCLAVE_EDL: &'static str = "enclave {
    trusted {
        /* Add your trusted functions here */
        public sgx_status_t ecall_sample(
            [in, size=input_len] const char* input,
            size_t input_len,
            [out, size=output_max_len] char* output,
            size_t output_max_len,
            [out] size_t* output_len
        );
    };

    untrusted {
        /* Add your ocalls here */
    };
};
";

/// The cargo configuration of a new project.
pub const CARGO_CONFIG: &'static str = "[build]
target = \"x86_64-unknown-unknown-sgx\"

[unstable]
build-std = [\"core\", \"alloc\"]
";

/// The library source of a new project.
pub const SRC_LIB_RS: &'static str = "#![no_std]
extern crate alloc;
extern crate sgx_ert;

use alloc::format;
use alloc::slice;
use alloc::string::String;
use sgx_types::*;

/// Sample ecall function that corresponds to the EDL definition
#[no_mangle]
#[allow(clippy::not_unsafe_ptr_arg_deref)]
pub extern \"C\" fn ecall_sample(
    input: *const u8,
    input_len: usize,
    output: *mut u8,
    output_max_len: usize,
    output_len: *mut usize,
) -> sgx_status_t {
    // Validate output_len pointer
    if output_len.is_null() {
        return sgx_status_t::SGX_ERROR_INVALID_PARAMETER;
    }

    // Convert input to string
    let input_slice = unsafe { slice::from_raw_parts(input, input_len) };
    let input_string = match String::from_utf8(input_slice.to_vec()) {
        Ok(s) => s,
        Err(_) => return sgx_status_t::SGX_ERROR_INVALID_PARAMETER,
    };

    // Process the input (example: echo back with prefix)
    let result = format!(\"Hello from enclave: {}\", input_string);
    let result_bytes = result.as_bytes();

    // Check if output buffer is large enough
    if result_bytes.len() > output_max_len {
        return sgx_status_t::SGX_ERROR_INVALID_PARAMETER;
    }

    // Copy result to output buffer
    let output_slice = unsafe { slice::from_raw_parts_mut(output, output_max_len) };
    output_slice[..result_bytes.len()].copy_from_slice(result_bytes);

    // Set the actual output length
    unsafe {
        *output_len = result_bytes.len();
    }

    sgx_status_t::SGX_SUCCESS
}
";

/// The ignore list of a new project.
pub const GITIGNORE: &'static str = "# Build directory
target/
";

/// The CVE mitigation a new project is set up for.
#[derive(Debug, Clone, Copy, PartialEq, Eq, Structural)]
pub enum Mitigation {
    Cve20200551Load,
    Cve20200551Cf,
}

impl Mitigation {
    /// The name of the mitigation, as it is displayed and given on the
    /// command line.
    pub open spec fn spec_name(self) -> Seq<char> {
        match self {
            Mitigation::Cve20200551Load => "CVE-2020-0551-LOAD"@,
            Mitigation::Cve20200551Cf => "CVE-2020-0551-CF"@,
        }
    }

    /// The name of the mitigation.
    pub fn to_string(&self) -> (r: String)
        ensures
            r@ == self.spec_name(),
    {
        match self {
            Mitigation::Cve20200551Load => String::from_str("CVE-2020-0551-LOAD"),
            Mitigation::Cve20200551Cf => String::from_str("CVE-2020-0551-CF"),
        }
    }
}

/// The text of an optional string slice.
pub open spec fn opt_str(v: Option<&str>) -> Option<Seq<char>> {
    match v {
        Some(s) => Some(s@),
        None => None,
    }
}

/// Get the target directory for EDL artifacts, given the value of
/// `CARGO_TARGET_DIR`: `edl` under it, or under `target` when it is unset.
pub fn get_edl_target_dir(cargo_target_dir: Option<&str>) -> (r: String)
    ensures
        r@ == join_spec(
            match cargo_target_dir {
                Some(t) => t@,
                None => "target"@,
            },
            "edl"@,
        ),
{
    match cargo_target_dir {
        Some(t) => path_join(t, "edl"),
        None => path_join("target", "edl"),
    }
}

/// Where the target specification of an enclave project is looked for.
pub fn sgx_target_json_path(enclave_dir: &str) -> (r: String)
    ensures
        r@ == join_spec(enclave_dir@, TARGET_JSON_FILE@),
{
    path_join(enclave_dir, TARGET_JSON_FILE)
}

/// The target specification of an enclave project, given whether the file
/// exists in the project directory.
pub fn get_sgx_target_json(enclave_dir: &str, exists: bool) -> (r: Result<String, String>)
    ensures
        exists ==> (r matches Ok(p) && p@ == join_spec(enclave_dir@, TARGET_JSON_FILE@)),
        !exists ==> (r matches Err(e) && e@ == "Could not find "@ + TARGET_JSON_FILE@ + " in "@
            + enclave_dir@),
{
    if exists {
        Ok(sgx_target_json_path(enclave_dir))
    } else {
        let mut e = concat3("Could not find ", TARGET_JSON_FILE, " in ");
        e.append(enclave_dir);
        Err(e)
    }
}

#[verifier::external_type_specification]
#[verifier::external_body]
pub struct ExTomlValue(toml::Value);

/// What `toml::from_str` gives for the text `text`, read as a TOML value:
/// the document, or the text of the error when it is not valid TOML.
pub uninterp spec fn spec_toml_parse(text: Seq<char>) -> Result<toml::Value, Seq<char>>;

/// What `toml::Value::get` gives for a key: the value under it in a table.
pub uninterp spec fn spec_toml_get(v: toml::Value, key: Seq<char>) -> Option<toml::Value>;

/// What `toml::Value::as_str` gives: the text of a string value.
pub uninterp spec fn spec_toml_str(v: toml::Value) -> Option<Seq<char>>;

/// `toml::from_str`: reads a TOML document; the error is what the parser's
/// error displays.
#[verifier::external_body]
fn toml_parse(text: &str) -> (r: Result<toml::Value, String>)
    ensures
        match r {
            Ok(v) => spec_toml_parse(text@) == Ok::<toml::Value, Seq<char>>(v),
            Err(e) => spec_toml_parse(text@) == Err::<toml::Value, Seq<char>>(e@),
        },
{
    match toml::from_str::<toml::Value>(text) {
        Ok(v) => Ok(v),
        Err(e) => Err(e.to_string()),
    }
}

/// `toml::Value::get`: the value under `key` in a table.
#[verifier::external_body]
fn toml_get<'a>(v: &'a toml::Value, key: &str) -> (r: Option<&'a toml::Value>)
    ensures
        r matches Some(x) ==> spec_toml_get(*v, key@) == Some(*x),
        r is None ==> spec_toml_get(*v, key@) is None,
{
    v.get(key)
}

/// `toml::Value::as_str`: the text of a string value.
#[verifier::external_body]
fn toml_as_str(v: &toml::Value) -> (r: Option<&str>)
    ensures
        r matches Some(x) ==> spec_toml_str(*v) == Some(x@),
        r is None ==> spec_toml_str(*v) is None,
{
    v.as_str()
}

/// The string under `key` of the table `table` of a TOML document.
pub open spec fn manifest_entry(doc: toml::Value, table: Seq<char>, key: Seq<char>) -> Option<
    Seq<char>,
> {
    match spec_toml_get(doc, table) {
        Some(t) => match spec_toml_get(t, key) {
            Some(v) => spec_toml_str(v),
            None => None,
        },
        None => None,
    }
}

/// The library name of a package: that of its `[lib]` table when given,
/// else the package name; an error when the package has no name.
pub open spec fn lib_name_spec(package_name: Option<Seq<char>>, lib_name: Option<Seq<char>>) -> Result<
    Seq<char>,
    Seq<char>,
> {
    match package_name {
        None => Err("Failed to get package name from Cargo.toml"@),
        Some(p) => Ok(
            match lib_name {
                Some(l) => l,
                None => p,
            },
        ),
    }
}

/// The library name of a package, given its package name and `[lib]` name.
pub fn lib_name_from(package_name: Option<&str>, lib_name: Option<&str>) -> (r: Result<String, String>)
    ensures
        lib_name_spec(opt_str(package_name), opt_str(lib_name)) matches Ok(n) ==> (r matches Ok(x)
            && x@ == n),
        lib_name_spec(opt_str(package_name), opt_str(lib_name)) matches Err(e) ==> (r matches Err(x)
            && x@ == e),
{
    match package_name {
        None => Err(String::from_str("Failed to get package name from Cargo.toml")),
        Some(p) => match lib_name {
            Some(l) => Ok(String::from_str(l)),
            None => Ok(String::from_str(p)),
        },
    }
}

/// The string under `key` of the table `table` of a TOML document.
fn lookup<'a>(doc: &'a toml::Value, table: &str, key: &str) -> (r: Option<&'a str>)
    ensures
        opt_str(r) == manifest_entry(*doc, table@, key@),
{
    match toml_get(doc, table) {
        Some(t) => match toml_get(t, key) {
            Some(v) => toml_as_str(v),
            None => None,
        },
        None => None,
    }
}

/// The library name declared by the text of a `Cargo.toml`: an error when
/// the text is not TOML or names no package.
pub fn manifest_lib_name(content: &str) -> (r: Result<String, String>)
    ensures
        spec_toml_parse(content@) matches Err(m) ==> (r matches Err(e) && e@
            == "Failed to parse Cargo.toml: "@ + m),
        spec_toml_parse(content@) matches Ok(doc) ==> match lib_name_spec(
            manifest_entry(doc, "package"@, "name"@),
            manifest_entry(doc, "lib"@, "name"@),
        ) {
            Ok(n) => r matches Ok(x) && x@ == n,
            Err(e) => r matches Err(x) && x@ == e,
        },
{
    let doc = match toml_parse(content) {
        Ok(d) => d,
        Err(e) => {
            return Err(concat2("Failed to parse Cargo.toml: ", e.as_str()));
        },
    };
    let package_name = lookup(&doc, "package", "name");
    let lib_name = lookup(&doc, "lib", "name");
    lib_name_from(package_name, lib_name)
}

/// The arguments of the `cargo build` that builds an enclave.
pub open spec fn cargo_build_args_spec(
    target_json: Seq<char>,
    json_target_spec_flag: bool,
    release: bool,
    verbose: bool,
) -> Seq<Seq<char>> {
    seq!["build"@] + (if json_target_spec_flag {
        seq!["-Zjson-target-spec"@]
    } else {
        seq![]
    }) + seq!["--target"@, target_json] + (if release {
        seq!["--release"@]
    } else {
        seq![]
    }) + (if verbose {
        seq!["-v"@]
    } else {
        seq![]
    })
}

/// The arguments of the `cargo build` that builds an enclave; the unstable
/// JSON target flag comes right after the subcommand.
pub fn cargo_build_args(target_json: &str, json_target_spec_flag: bool, release: bool, verbose: bool) -> (r: Vec<String>)
    ensures
        r.deep_view() == cargo_build_args_spec(target_json@, json_target_spec_flag, release, verbose),
{
    let mut v: Vec<String> = Vec::new();
    push_text(&mut v, "build");
    if json_target_spec_flag {
        push_text(&mut v, "-Zjson-target-spec");
    }
    push_text(&mut v, "--target");
    push_text(&mut v, target_json);
    if release {
        push_text(&mut v, "--release");
    }
    if verbose {
        push_text(&mut v, "-v");
    }
    assert(v.deep_view() =~= cargo_build_args_spec(
        target_json@,
        json_target_spec_flag,
        release,
        verbose,
    ));
    v
}

/// The unstable JSON target flag, when used, comes right after the `build`
/// subcommand (before it, cargo accepts it without effect).
pub proof fn lemma_json_flag_follows_subcommand(target_json: Seq<char>, release: bool, verbose: bool)
    ensures
        cargo_build_args_spec(target_json, true, release, verbose)[0] == "build"@,
        cargo_build_args_spec(target_json, true, release, verbose)[1] == "-Zjson-target-spec"@,
{
}

/// A release build, and only a release build, passes `--release`; verbose
/// output, and only verbose output, passes `-v`; each whatever the other is.
/// The target specification and the subcommand come first, in that order.
pub proof fn lemma_build_profile_flags(
    target_json: Seq<char>,
    json_target_spec_flag: bool,
    release: bool,
    verbose: bool,
)
    requires
        target_json != "--release"@,
        target_json != "-v"@,
    ensures
        cargo_build_args_spec(target_json, json_target_spec_flag, release, verbose).contains(
            "--release"@,
        ) <==> release,
        cargo_build_args_spec(target_json, json_target_spec_flag, release, verbose).contains("-v"@)
            <==> verbose,
        cargo_build_args_spec(target_json, json_target_spec_flag, release, verbose)[0] == "build"@,
        cargo_build_args_spec(target_json, json_target_spec_flag, release, verbose).len() == 3
            + (if json_target_spec_flag {
            1int
        } else {
            0int
        }) + (if release {
            1int
        } else {
            0int
        }) + (if verbose {
            1int
        } else {
            0int
        }),
{
    reveal_strlit("build");
    reveal_strlit("-Zjson-target-spec");
    reveal_strlit("--target");
    reveal_strlit("--release");
    reveal_strlit("-v");
    let a = cargo_build_args_spec(target_json, json_target_spec_flag, release, verbose);
    let head: Seq<Seq<char>> = seq!["build"@] + (if json_target_spec_flag {
        seq!["-Zjson-target-spec"@]
    } else {
        seq![]
    }) + seq!["--target"@, target_json];
    let k: int = head.len() as int;
    assert("build"@.len() == 5 && "-Zjson-target-spec"@.len() == 18 && "--target"@.len() == 8
        && "--release"@.len() == 9 && "-v"@.len() == 2);
    assert forall|i: int| 0 <= i < k implies head[i] != "--release"@ && head[i] != "-v"@ by {
        if json_target_spec_flag {
            assert(head =~= seq!["build"@, "-Zjson-target-spec"@, "--target"@, target_json]);
        } else {
            assert(head =~= seq!["build"@, "--target"@, target_json]);
        }
    }
    if release {
        assert(a[k] == "--release"@);
    }
    if verbose {
        let j = if release {
            k + 1
        } else {
            k
        };
        assert(a[j] == "-v"@);
    }
    assert forall|i: int| 0 <= i < a.len() && a[i] == "--release"@ implies release by {
        if i < k {
            assert(a[i] == head[i]);
        }
    }
    assert forall|i: int| 0 <= i < a.len() && a[i] == "-v"@ implies verbose by {
        if i < k {
            assert(a[i] == head[i]);
        }
    }
}

/// What `String::from_utf8_lossy` gives for `bytes`.
pub uninterp spec fn spec_utf8_lossy(bytes: Seq<u8>) -> Seq<char>;

/// `String::from_utf8_lossy`: the bytes as text, with each ill-formed part
/// replaced by U+FFFD; well-formed UTF-8 is decoded as it is.
#[verifier::external_body]
pub(crate) fn utf8_lossy(bytes: &[u8]) -> (r: String)
    ensures
        r@ == spec_utf8_lossy(bytes@),
        valid_utf8(bytes@) ==> r@ == decode_utf8(bytes@),
{
    String::from_utf8_lossy(bytes).into_owned()
}

/// Whether the help of cargo's unstable flags names `json-target-spec`.
pub open spec fn needs_json_target_spec(stdout: Seq<u8>, stderr: Seq<u8>) -> bool {
    contains_spec(spec_utf8_lossy(stdout), "json-target-spec"@) || contains_spec(
        spec_utf8_lossy(stderr),
        "json-target-spec"@,
    )
}

/// Whether this cargo requires `-Zjson-target-spec` to accept a `.json`
/// target, given what `cargo -Z help` wrote to its standard output and
/// standard error.
pub fn cargo_needs_json_target_spec(stdout: &[u8], stderr: &[u8]) -> (r: bool)
    ensures
        r == needs_json_target_spec(stdout@, stderr@),
{
    let out = utf8_lossy(stdout);
    if contains_text(out.as_str(), "json-target-spec") {
        return true;
    }
    let err = utf8_lossy(stderr);
    contains_text(err.as_str(), "json-target-spec")
}

/// The profile a build goes to.
pub open spec fn profile_spec(release: bool) -> Seq<char> {
    if release {
        "release"@
    } else {
        "debug"@
    }
}

/// The directory the enclave's build artifacts of a profile go to.
pub open spec fn target_profile_dir_spec(enclave_dir: Seq<char>, release: bool) -> Seq<char> {
    join_spec(join_spec(enclave_dir, "target/"@ + TARGET_NAME@), profile_spec(release))
}

/// The static library of an enclave: `lib<name>.a` with dashes turned into
/// underscores, in the profile's directory.
pub open spec fn static_lib_spec(enclave_dir: Seq<char>, release: bool, lib_name: Seq<char>) -> Seq<
    char,
> {
    join_spec(
        target_profile_dir_spec(enclave_dir, release),
        "lib"@ + replace_char_spec(lib_name, '-', '_') + ".a"@,
    )
}

/// The directory the enclave's build artifacts of a profile go to.
pub fn target_profile_dir(enclave_dir: &str, release: bool) -> (r: String)
    ensures
        r@ == target_profile_dir_spec(enclave_dir@, release),
{
    let sub = concat2("target/", TARGET_NAME);
    let target = path_join(enclave_dir, sub.as_str());
    path_join(
        target.as_str(),
        if release {
            "release"
        } else {
            "debug"
        },
    )
}

/// The static library an enclave build produces.
pub fn static_lib_path(enclave_dir: &str, release: bool, lib_name: &str) -> (r: String)
    ensures
        r@ == static_lib_spec(enclave_dir@, release, lib_name@),
{
    let dir = target_profile_dir(enclave_dir, release);
    let sanitized = replace_char(lib_name, '-', '_');
    let file = concat3("lib", sanitized.as_str(), ".a");
    path_join(dir.as_str(), file.as_str())
}

/// The library name a new project's manifest declares holds no dash, and
/// the static library a build looks for is the same whether the build reads
/// that library name or the package name it was made from.
pub proof fn lemma_lib_name_sanitized(enclave_dir: Seq<char>, release: bool, name: Seq<char>)
    ensures
        !replace_char_spec(name, '-', '_').contains('-'),
        static_lib_spec(enclave_dir, release, replace_char_spec(name, '-', '_')) == static_lib_spec(
            enclave_dir,
            release,
            name,
        ),
{
    let once = replace_char_spec(name, '-', '_');
    assert(replace_char_spec(once, '-', '_') =~= once);
    if once.contains('-') {
        let i = choose|i: int| 0 <= i < once.len() && once[i] == '-';
        assert(once[i] != '-');
    }
}

/// Where the enclave shared object goes when no output is given.
pub fn default_output_path(target_dir: &str) -> (r: String)
    ensures
        r@ == join_spec(target_dir@, ENCLAVE_SO_FILE@),
{
    path_join(target_dir, ENCLAVE_SO_FILE)
}

/// The EDL file of a project when none is given.
pub fn default_edl_path(enclave_dir: &str) -> (r: String)
    ensures
        r@ == join_spec(enclave_dir@, ENCLAVE_EDL_FILE@),
{
    path_join(enclave_dir, ENCLAVE_EDL_FILE)
}

/// The version script of a project when none is given.
pub fn default_version_script_path(enclave_dir: &str) -> (r: String)
    ensures
        r@ == join_spec(enclave_dir@, ENCLAVE_LDS_FILE@),
{
    path_join(enclave_dir, ENCLAVE_LDS_FILE)
}

/// How an enclave shared object is linked: from which EDL file and EDL
/// library, with which version script, and whether the default version
/// script must first be written.
pub struct EnclaveSoPlan {
    pub edl_path: String,
    pub edl_lib_name: String,
    pub version_script: String,
    pub create_version_script: bool,
}

/// The plan for linking an enclave shared object, or why there is none.
/// `edl` and `version_script` are the paths given, if any; `edl_exists` and
/// `version_script_exists` tell whether the given path, or else the default
/// one in `enclave_dir`, exists.  The EDL library is the trusted one of the
/// EDL file's stem; a missing default version script is to be created.
pub open spec fn enclave_so_plan_spec(
    enclave_dir: Seq<char>,
    edl: Option<Seq<char>>,
    edl_exists: bool,
    version_script: Option<Seq<char>>,
    version_script_exists: bool,
) -> Result<(Seq<char>, Seq<char>, Seq<char>, bool), Seq<char>> {
    let edl_path = match edl {
        Some(p) => p,
        None => join_spec(enclave_dir, ENCLAVE_EDL_FILE@),
    };
    if !edl_exists {
        Err(
            match edl {
                Some(p) => "EDL file not found: "@ + p,
                None => "Default EDL file not found: "@ + edl_path,
            },
        )
    } else {
        match file_stem_spec(edl_path) {
            None => Err("Invalid EDL filename"@),
            Some(stem) => match version_script {
                Some(p) => if version_script_exists {
                    Ok((edl_path, stem + edl_suffix(true), p, false))
                } else {
                    Err("Version script not found: "@ + p)
                },
                None => Ok(
                    (
                        edl_path,
                        stem + edl_suffix(true),
                        join_spec(enclave_dir, ENCLAVE_LDS_FILE@),
                        !version_script_exists,
                    ),
                ),
            },
        }
    }
}

/// Plans the linking of an enclave shared object.
pub fn plan_enclave_so(
    enclave_dir: &str,
    edl: Option<&str>,
    edl_exists: bool,
    version_script: Option<&str>,
    version_script_exists: bool,
) -> (r: Result<EnclaveSoPlan, String>)
    ensures
        match enclave_so_plan_spec(
            enclave_dir@,
            opt_str(edl),
            edl_exists,
            opt_str(version_script),
            version_script_exists,
        ) {
            Ok(p) => r matches Ok(plan) && plan.edl_path@ == p.0 && plan.edl_lib_name@ == p.1
                && plan.version_script@ == p.2 && plan.create_version_script == p.3,
            Err(e) => r matches Err(x) && x@ == e,
        },
{
    let edl_path = match edl {
        Some(p) => String::from_str(p),
        None => default_edl_path(enclave_dir),
    };
    if !edl_exists {
        return match edl {
            Some(p) => Err(concat2("EDL file not found: ", p)),
            None => Err(concat2("Default EDL file not found: ", edl_path.as_str())),
        };
    }
    let stem = match file_stem(edl_path.as_str()) {
        Some(s) => s,
        None => {
            return Err(String::from_str("Invalid EDL filename"));
        },
    };
    proof {
        reveal_strlit("_t");
    }
    let edl_lib_name = concat2(stem.as_str(), "_t");
    match version_script {
        Some(p) => {
            if version_script_exists {
                Ok(
                    EnclaveSoPlan {
                        edl_path,
                        edl_lib_name,
                        version_script: String::from_str(p),
                        create_version_script: false,
                    },
                )
            } else {
                Err(concat2("Version script not found: ", p))
            }
        },
        None => Ok(
            EnclaveSoPlan {
                edl_path,
                edl_lib_name,
                version_script: default_version_script_path(enclave_dir),
                create_version_script: !version_script_exists,
            },
        ),
    }
}

/// The EDL library a linking plan names is the trusted library that the
/// builder generates from the plan's EDL file.
pub proof fn lemma_plan_links_generated_library(
    enclave_dir: Seq<char>,
    edl: Option<Seq<char>>,
    edl_exists: bool,
    version_script: Option<Seq<char>>,
    version_script_exists: bool,
)
    ensures
        enclave_so_plan_spec(enclave_dir, edl, edl_exists, version_script, version_script_exists) matches Ok(
            p,
        ) ==> file_stem_spec(p.0) is Some && p.1 == file_stem_spec(p.0)->0 + edl_suffix(true),
{
}

/// With `CARGO_TARGET_DIR` set, `cargo sgx` links against the EDL library in
/// the directory the build script wrote it to.
pub proof fn lemma_edl_dirs_agree(cargo_target_dir: Seq<char>, out_dir: Option<Seq<char>>)
    ensures
        edl_target_dir_spec(Some(cargo_target_dir), out_dir) == Ok::<Seq<char>, Seq<char>>(
            join_spec(cargo_target_dir, "edl"@),
        ),
{
}

/// The directory of a new project: the path given, or `enclave`.
pub fn project_dir(path: Option<String>) -> (r: String)
    ensures
        path matches Some(p) ==> r@ == p@,
        path is None ==> r@ == DEFAULT_ENCLAVE_NAME@,
{
    match path {
        Some(p) => p,
        None => String::from_str(DEFAULT_ENCLAVE_NAME),
    }
}

/// The name of a new enclave: the name given, else the last component of
/// the project directory, else `enclave`.
pub fn enclave_name(name: Option<String>, project_dir: &str) -> (r: String)
    ensures
        name matches Some(n) ==> r@ == n@,
        name is None ==> r@ == match spec_path_file_name(project_dir@) {
            Some(f) => f,
            None => DEFAULT_ENCLAVE_NAME@,
        },
{
    match name {
        Some(n) => n,
        None => match path_file_name(project_dir) {
            Some(f) => f,
            None => String::from_str(DEFAULT_ENCLAVE_NAME),
        },
    }
}

/// Whether a path is absolute.
pub open spec fn is_absolute(p: Seq<char>) -> bool {
    p.len() > 0 && p[0] == '/'
}

/// What `pathdiff::diff_paths` gives for `path` relative to `base`.
pub uninterp spec fn spec_diff_paths(path: Seq<char>, base: Seq<char>) -> Option<Seq<char>>;

/// `pathdiff::diff_paths`: `path` relative to `base`.  An absolute path
/// relative to a relative base is itself; a relative path relative to an
/// absolute base has no such form.
#[verifier::external_body]
fn diff_paths(path: &str, base: &str) -> (r: Option<String>)
    ensures
        r.deep_view() == spec_diff_paths(path@, base@),
        is_absolute(path@) && !is_absolute(base@) ==> r.deep_view() == Some(path@),
        !is_absolute(path@) && is_absolute(base@) ==> r is None,
{
    match pathdiff::diff_paths(path, base) {
        Some(p) => Some(p.to_string_lossy().into_owned()),
        None => None,
    }
}

/// The SDK directory as a new project's manifest names it: relative to the
/// project directory, both taken from the current directory.
pub fn sgx_sdk_relative_path(current_dir: &str, sdk_path: &str, project_dir: &str) -> (r: Option<String>)
    ensures
        r.deep_view() == spec_diff_paths(
            join_spec(current_dir@, sdk_path@),
            join_spec(current_dir@, project_dir@),
        ),
{
    let absolute_sdk_path = path_join(current_dir, sdk_path);
    let absolute_project_dir = path_join(current_dir, project_dir);
    diff_paths(absolute_sdk_path.as_str(), absolute_project_dir.as_str())
}

/// The line of a new project's build script that selects the mitigation.
pub open spec fn mitigation_env_line(mitigation: Option<Seq<char>>) -> Seq<char> {
    if mitigation == Some("CVE-2020-0551-LOAD"@) {
        "    std::env::set_var(\"MITIGATION_CVE_2020_0551\", \"LOAD\");"@
    } else if mitigation == Some("CVE-2020-0551-CF"@) {
        "    std::env::set_var(\"MITIGATION_CVE_2020_0551\", \"CF\");"@
    } else {
        ""@
    }
}

/// The part of a new project's build script after the opening line.
pub open spec fn build_rs_body() -> Seq<char> {
    "    sgx_build::SgxBuilder::new()\n        .build_enclave(\"Enclave.edl\")\n        .expect(\"Failed to build SGX enclave\");\n}\n"@
}

/// The build script of a new project: it builds the enclave from its EDL
/// file, after selecting the mitigation when one is chosen.
pub open spec fn build_rs_spec(mitigation: Option<Seq<char>>) -> Seq<char> {
    let env_line = mitigation_env_line(mitigation);
    if env_line.len() == 0 {
        "fn main() {\n"@ + build_rs_body()
    } else {
        "fn main() {\n"@ + env_line + "\n"@ + build_rs_body()
    }
}

/// The build script of a new project.
pub fn build_rs_content(mitigation: Option<&str>) -> (r: String)
    ensures
        r@ == build_rs_spec(opt_str(mitigation)),
{
    let env_line: &str = match mitigation {
        Some(m) => if str_eq(m, "CVE-2020-0551-LOAD") {
            "    std::env::set_var(\"MITIGATION_CVE_2020_0551\", \"LOAD\");"
        } else if str_eq(m, "CVE-2020-0551-CF") {
            "    std::env::set_var(\"MITIGATION_CVE_2020_0551\", \"CF\");"
        } else {
            ""
        },
        None => "",
    };
    let body = "    sgx_build::SgxBuilder::new()\n        .build_enclave(\"Enclave.edl\")\n        .expect(\"Failed to build SGX enclave\");\n}\n";
    if env_line.unicode_len() == 0 {
        concat2("fn main() {\n", body)
    } else {
        let mut s = concat3("fn main() {\n", env_line, "\n");
        s.append(body);
        s
    }
}

/// The dependencies of a new project: the SDK crates from the given local
/// directory, or from the SDK repository.
pub open spec fn dependencies_spec(sdk: Option<Seq<char>>) -> Seq<char> {
    match sdk {
        Some(p) => "sgx-ert = { path = \""@ + p + "/sgx-ert\" }\nsgx-types = { path = \""@ + p
            + "/sgx-types\", default-features = false, features = [\n  \"tstdc\",\n  \"trts\",\n  \"tcrypto\",\n] }"@,
        None => "sgx-ert = { git = \""@ + SGX_SDK_REPO_URL@ + "\", branch = \"main\" }\nsgx-types = { git = \""@
            + SGX_SDK_REPO_URL@
            + "\", branch = \"main\", default-features = false, features = [\n  \"tstdc\",\n  \"trts\",\n  \"tcrypto\",\n] }"@,
    }
}

/// The build dependencies of a new project.
pub open spec fn build_dependencies_spec(sdk: Option<Seq<char>>) -> Seq<char> {
    match sdk {
        Some(p) => "sgx-build = { path = \""@ + p + "/sgx-build\" }"@,
        None => "sgx-build = { git = \""@ + SGX_SDK_REPO_URL@ + "\", branch = \"main\" }"@,
    }
}

/// The manifest of a new project: the package, a static library whose name
/// is the package name with dashes turned into underscores, and the SDK
/// dependencies.
pub open spec fn cargo_toml_spec(enclave_name: Seq<char>, sdk: Option<Seq<char>>) -> Seq<char> {
    "[package]\nname = \""@ + enclave_name
        + "\"\nversion = \"0.1.0\"\nauthors = [\"Your Name <you@example.com>\"]\nedition = \"2021\"\n\n[lib]\nname = \""@
        + replace_char_spec(enclave_name, '-', '_')
        + "\"\ncrate-type = [\"staticlib\"]\n\n[features]\ndefault = []\n\n[dependencies]\n"@
        + dependencies_spec(sdk) + "\n\n[build-dependencies]\n"@ + build_dependencies_spec(sdk)
        + "\n"@
}

/// The manifest of a new project.
pub fn cargo_toml_content(enclave_name: &str, sgx_sdk_path: Option<&str>) -> (r: String)
    ensures
        r@ == cargo_toml_spec(enclave_name@, opt_str(sgx_sdk_path)),
{
    let (dependencies, build_dependencies) = match sgx_sdk_path {
        Some(p) => {
            let mut d = concat3("sgx-ert = { path = \"", p, "/sgx-ert\" }\nsgx-types = { path = \"");
            d.append(p);
            d.append(
                "/sgx-types\", default-features = false, features = [\n  \"tstdc\",\n  \"trts\",\n  \"tcrypto\",\n] }",
            );
            let b = concat3("sgx-build = { path = \"", p, "/sgx-build\" }");
            (d, b)
        },
        None => {
            let mut d = concat3("sgx-ert = { git = \"", SGX_SDK_REPO_URL, "\", branch = \"main\" }\nsgx-types = { git = \"");
            d.append(SGX_SDK_REPO_URL);
            d.append(
                "\", branch = \"main\", default-features = false, features = [\n  \"tstdc\",\n  \"trts\",\n  \"tcrypto\",\n] }",
            );
            let b = concat3("sgx-build = { git = \"", SGX_SDK_REPO_URL, "\", branch = \"main\" }");
            (d, b)
        },
    };
    let lib_name = replace_char(enclave_name, '-', '_');
    let mut s = concat3("[package]\nname = \"", enclave_name, "\"\nversion = \"0.1.0\"\nauthors = [\"Your Name <you@example.com>\"]\nedition = \"2021\"\n\n[lib]\nname = \"");
    s.append(lib_name.as_str());
    s.append("\"\ncrate-type = [\"staticlib\"]\n\n[features]\ndefault = []\n\n[dependencies]\n");
    s.append(dependencies.as_str());
    s.append("\n\n[build-dependencies]\n");
    s.append(build_dependencies.as_str());
    s.append("\n");
    s
}

/// What a new project's setup does with one of its files: when the file
/// exists and overwriting is not forced, it leaves the file and prints the
/// notice returned; otherwise it writes the file, and nothing is returned.
/// `present` tells whether the file exists.
pub fn template_skip_notice(label: &str, present: bool, force: bool) -> (r: Option<String>)
    ensures
        present && !force ==> (r matches Some(n) && n@ == "Skipping "@ + label@
            + " (already exists)"@),
        (!present || force) ==> r is None,
{
    if present && !force {
        Some(concat3("Skipping ", label, " (already exists)"))
    } else {
        None
    }
}

/// Whether a mitigation option is one a new project can be set up for.
pub open spec fn known_mitigation(mitigation: Option<Seq<char>>) -> bool {
    mitigation is None || mitigation == Some("CVE-2020-0551-LOAD"@) || mitigation == Some(
        "CVE-2020-0551-CF"@,
    )
}

/// The target features a mitigation adds.
pub open spec fn mitigation_features(mitigation: Option<Seq<char>>) -> Seq<char> {
    if mitigation is None {
        ""@
    } else {
        ",+lvi-cfi,+lvi-load-hardening"@
    }
}

/// The LLVM arguments a mitigation adds.
pub open spec fn mitigation_llvm_args(mitigation: Option<Seq<char>>) -> Seq<char> {
    if mitigation is None {
        "[]"@
    } else {
        "[\"--x86-experimental-lvi-inline-asm-hardening\"]"@
    }
}

/// The target specification of a new project: the template with its two
/// placeholders filled in for the mitigation.
pub open spec fn target_json_spec(template: Seq<char>, mitigation: Option<Seq<char>>) -> Seq<char> {
    replace_spec(
        replace_spec(template, "{{MITIGATION_FEATURES}}"@, mitigation_features(mitigation)),
        "{{MITIGATION_LLVM_ARGS}}"@,
        mitigation_llvm_args(mitigation),
    )
}

/// Either mitigation gives the full LVI hardening: the features placeholder
/// becomes `,+lvi-cfi,+lvi-load-hardening` and the LLVM arguments one
/// `--x86-experimental-lvi-inline-asm-hardening`, so both mitigations give
/// the same target specification; without one, the placeholders become
/// nothing and `[]`.
pub proof fn lemma_mitigation_hardens_target(template: Seq<char>, mitigation: Option<Seq<char>>)
    requires
        known_mitigation(mitigation),
    ensures
        mitigation is Some ==> target_json_spec(template, mitigation) == replace_spec(
            replace_spec(
                template,
                "{{MITIGATION_FEATURES}}"@,
                ",+lvi-cfi,+lvi-load-hardening"@,
            ),
            "{{MITIGATION_LLVM_ARGS}}"@,
            "[\"--x86-experimental-lvi-inline-asm-hardening\"]"@,
        ),
        mitigation is Some ==> target_json_spec(template, mitigation) == target_json_spec(
            template,
            Some("CVE-2020-0551-LOAD"@),
        ) && target_json_spec(template, mitigation) == target_json_spec(
            template,
            Some("CVE-2020-0551-CF"@),
        ),
        mitigation is None ==> target_json_spec(template, mitigation) == replace_spec(
            replace_spec(template, "{{MITIGATION_FEATURES}}"@, ""@),
            "{{MITIGATION_LLVM_ARGS}}"@,
            "[]"@,
        ),
{
}

/// The target specification of a new project, from its template.
pub fn target_json_content(template: &str, mitigation: Option<&str>) -> (r: String)
    requires
        known_mitigation(opt_str(mitigation)),
    ensures
        r@ == target_json_spec(template@, opt_str(mitigation)),
{
    let (features, llvm_args) = match mitigation {
        None => ("", "[]"),
        Some(_) => (",+lvi-cfi,+lvi-load-hardening", "[\"--x86-experimental-lvi-inline-asm-hardening\"]"),
    };
    proof {
        reveal_strlit("{{MITIGATION_FEATURES}}");
        reveal_strlit("{{MITIGATION_LLVM_ARGS}}");
    }
    let filled = replace_text(template, "{{MITIGATION_FEATURES}}", features);
    replace_text(filled.as_str(), "{{MITIGATION_LLVM_ARGS}}", llvm_args)
}

/// The report printed after a new project was set up.
pub open spec fn new_project_report_spec(dir: Seq<char>) -> Seq<Seq<char>> {
    seq![
        "Successfully initialized SGX enclave project at "@ + dir,
        "Created files:"@,
        "  - "@ + dir + "/Cargo.toml"@,
        "  - "@ + dir + "/src/lib.rs"@,
        "  - "@ + dir + "/build.rs"@,
        "  - "@ + dir + "/"@ + ENCLAVE_CONFIG_FILE@,
        "  - "@ + dir + "/"@ + ENCLAVE_EDL_FILE@,
        "  - "@ + dir + "/"@ + ENCLAVE_PRIVATE_KEY_FILE@ + " (RSA 3072-bit private key)"@,
        "  - "@ + dir + "/"@ + ENCLAVE_LDS_FILE@,
        "  - "@ + dir + "/"@ + TARGET_JSON_FILE@,
        "  - "@ + dir + "/.cargo/config.toml"@,
        "  - "@ + dir + "/.gitignore"@,
    ]
}

/// One line of the report: `  - <dir><rest>`.
fn report_line(v: &mut Vec<String>, dir: &str, rest: &str)
    ensures
        final(v).deep_view() == old(v).deep_view().push("  - "@ + dir@ + rest@),
{
    push_string(v, concat3("  - ", dir, rest));
}

/// One line of the report naming a file of the project directory.
fn report_file(v: &mut Vec<String>, dir: &str, file: &str, note: &str)
    ensures
        final(v).deep_view() == old(v).deep_view().push("  - "@ + dir@ + "/"@ + file@ + note@),
{
    let mut line = concat3("  - ", dir, "/");
    line.append(file);
    line.append(note);
    push_string(v, line);
}

/// The report printed after a new project was set up.
pub fn new_project_report(project_dir: &str) -> (r: Vec<String>)
    ensures
        r.deep_view() == new_project_report_spec(project_dir@),
{
    let mut v: Vec<String> = Vec::new();
    push_string(&mut v, concat2("Successfully initialized SGX enclave project at ", project_dir));
    push_text(&mut v, "Created files:");
    report_line(&mut v, project_dir, "/Cargo.toml");
    report_line(&mut v, project_dir, "/src/lib.rs");
    report_line(&mut v, project_dir, "/build.rs");
    report_file(&mut v, project_dir, ENCLAVE_CONFIG_FILE, "");
    report_file(&mut v, project_dir, ENCLAVE_EDL_FILE, "");
    report_file(&mut v, project_dir, ENCLAVE_PRIVATE_KEY_FILE, " (RSA 3072-bit private key)");
    report_file(&mut v, project_dir, ENCLAVE_LDS_FILE, "");
    report_file(&mut v, project_dir, TARGET_JSON_FILE, "");
    report_line(&mut v, project_dir, "/.cargo/config.toml");
    report_line(&mut v, project_dir, "/.gitignore");
    proof {
        reveal_strlit("");
    }
    assert(v.deep_view() =~= new_project_report_spec(project_dir@));
    v
}

} // verus!
