//! Verified core of an SGX enclave development kit: build configuration,
//! compiler and linker flag selection, project templates, and the
//! untrusted-side event primitives that enclave threads sleep and wake on.

pub mod builder;
pub mod cli;
pub mod cc_build;
pub mod event;
pub mod gcc;
pub mod mode;
pub mod paths;
pub mod sdk_env;
pub mod text;
