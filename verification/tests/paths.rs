use sgx_sdk_tools::paths::{file_stem, find_ancestor_named, path_join, stem_of};
use sgx_sdk_tools::sdk_env::{sdk_lib_path, sgx_arch, sgx_sdk};

#[test]
fn join_inserts_one_separator() {
    assert_eq!(path_join("/opt/intel/sgxsdk", "include"), "/opt/intel/sgxsdk/include");
    assert_eq!(path_join("/opt/", "lib"), "/opt/lib");
    assert_eq!(path_join("", "lib"), "lib");
    assert_eq!(path_join("/opt", "/abs"), "/abs");
}

#[test]
fn stems_follow_path_file_stem() {
    assert_eq!(stem_of("Enclave.edl"), "Enclave");
    assert_eq!(stem_of("a.tar.gz"), "a.tar");
    assert_eq!(stem_of(".hidden"), ".hidden");
    assert_eq!(stem_of("noext"), "noext");
    assert_eq!(file_stem("/x/y/Enclave.edl"), Some("Enclave".to_string()));
    assert_eq!(file_stem("/"), None);
    assert_eq!(file_stem("dir/.."), None);
}

#[test]
fn ancestor_search_walks_up() {
    assert_eq!(
        find_ancestor_named("/w/proj/target/debug/build/x-1/out", "target"),
        Some("/w/proj/target".to_string())
    );
    assert_eq!(find_ancestor_named("/w/target", "target"), Some("/w/target".to_string()));
    assert_eq!(find_ancestor_named("/w/out", "target"), None);
    assert_eq!(find_ancestor_named("", "target"), None);
}

#[test]
fn sdk_defaults_and_overrides() {
    assert_eq!(sgx_sdk(None), "/opt/intel/sgxsdk");
    assert_eq!(sgx_sdk(Some("/sdk".to_string())), "/sdk");
    assert_eq!(sgx_arch(None, false), "x64");
    assert_eq!(sgx_arch(None, true), "x86");
    assert_eq!(sgx_arch(Some("x86".to_string()), false), "x86");
}

#[test]
fn sdk_lib_path_by_arch() {
    assert_eq!(sdk_lib_path("/opt/intel/sgxsdk", "x86"), "/opt/intel/sgxsdk/lib");
    assert_eq!(sdk_lib_path("/opt/intel/sgxsdk", "x64"), "/opt/intel/sgxsdk/lib64");
    assert_eq!(sdk_lib_path("/sdk", "arm"), "/sdk/lib64");
}
