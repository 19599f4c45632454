//! Locating the Intel SGX SDK from the values of its environment variables.

use crate::paths::{join_spec, path_join};
use crate::text::str_eq;
use vstd::prelude::*;
use vstd::string::*;

verus! {

/// The SDK install prefix when `SGX_SDK` is not set.
pub open spec fn default_sdk() -> Seq<char> {
    "/opt/intel/sgxsdk"@
}

/// Install prefix of the SGX SDK, given the value of `SGX_SDK`.
pub fn sgx_sdk(sgx_sdk_var: Option<String>) -> (r: String)
    ensures
        sgx_sdk_var matches Some(v) ==> r@ == v@,
        sgx_sdk_var is None ==> r@ == default_sdk(),
{
    match sgx_sdk_var {
        Some(v) => v,
        None => String::from_str("/opt/intel/sgxsdk"),
    }
}

/// The target architecture when `SGX_ARCH` is not set: that of the host.
pub open spec fn default_arch(pointer_width_32: bool) -> Seq<char> {
    if pointer_width_32 {
        "x86"@
    } else {
        "x64"@
    }
}

/// Target architecture, given the value of `SGX_ARCH` and whether the host
/// uses 32-bit pointers.
pub fn sgx_arch(sgx_arch_var: Option<String>, pointer_width_32: bool) -> (r: String)
    ensures
        sgx_arch_var matches Some(v) ==> r@ == v@,
        sgx_arch_var is None ==> r@ == default_arch(pointer_width_32),
{
    match sgx_arch_var {
        Some(v) => v,
        None => if pointer_width_32 {
            String::from_str("x86")
        } else {
            String::from_str("x64")
        },
    }
}

/// The library directory of the SDK under its prefix: `lib` for the 32-bit
/// architecture `x86`, `lib64` for any other.
pub open spec fn lib_dir_name(arch: Seq<char>) -> Seq<char> {
    if arch == "x86"@ {
        "lib"@
    } else {
        "lib64"@
    }
}

/// Directory holding the SDK libraries for the selected architecture.
pub fn sdk_lib_path(sdk: &str, arch: &str) -> (r: String)
    ensures
        r@ == join_spec(sdk@, lib_dir_name(arch@)),
{
    if str_eq(arch, "x86") {
        path_join(sdk, "lib")
    } else {
        path_join(sdk, "lib64")
    }
}

} // verus!
