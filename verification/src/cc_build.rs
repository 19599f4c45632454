//! The C compiler configuration of the `cc` crate, as the flag selection in
//! this library sees it: the lists of flags, preprocessor definitions,
//! header search directories and source files that a `cc::Build` collects.

use vstd::prelude::*;

verus! {

#[verifier::external_type_specification]
#[verifier::external_body]
pub struct ExBuild(cc::Build);

/// The compiler flags a build holds, in the order they were added.
pub uninterp spec fn cc_flags(b: cc::Build) -> Seq<Seq<char>>;

/// The preprocessor definitions a build holds (name, optional value), in order.
pub uninterp spec fn cc_defines(b: cc::Build) -> Seq<(Seq<char>, Option<Seq<char>>)>;

/// The header search directories a build holds, in order.
pub uninterp spec fn cc_includes(b: cc::Build) -> Seq<Seq<char>>;

/// The source files a build holds, in order.
pub uninterp spec fn cc_files(b: cc::Build) -> Seq<Seq<char>>;

/// Whether the build emits cargo metadata after compiling.
pub uninterp spec fn cc_cargo_metadata(b: cc::Build) -> bool;

/// The output directory a build was given, if any.
pub uninterp spec fn cc_out_dir(b: cc::Build) -> Option<Seq<char>>;

/// The target triple a build was given, if any.
pub uninterp spec fn cc_target(b: cc::Build) -> Option<Seq<char>>;

/// The host triple a build was given, if any.
pub uninterp spec fn cc_host(b: cc::Build) -> Option<Seq<char>>;

/// The optimization level a build was given, if any.
pub uninterp spec fn cc_opt_level(b: cc::Build) -> Option<nat>;

/// The parts of a build that its other settings leave alone.
pub open spec fn same_lists(a: cc::Build, b: cc::Build) -> bool {
    &&& cc_flags(a) == cc_flags(b)
    &&& cc_defines(a) == cc_defines(b)
    &&& cc_includes(a) == cc_includes(b)
    &&& cc_files(a) == cc_files(b)
}

/// The scalar settings of a build.
pub open spec fn same_settings(a: cc::Build, b: cc::Build) -> bool {
    &&& cc_cargo_metadata(a) == cc_cargo_metadata(b)
    &&& cc_out_dir(a) == cc_out_dir(b)
    &&& cc_target(a) == cc_target(b)
    &&& cc_host(a) == cc_host(b)
    &&& cc_opt_level(a) == cc_opt_level(b)
}

/// `cc::Build::new`: a build with no flags, definitions, header search
/// directories or files, no output directory, target, host or optimization level, that
/// emits cargo metadata.
#[verifier::external_body]
pub(crate) fn build_new() -> (b: cc::Build)

    ensures
        cc_flags(b) == Seq::<Seq<char>>::empty(),
        cc_defines(b) == Seq::<(Seq<char>, Option<Seq<char>>)>::empty(),
        cc_includes(b) == Seq::<Seq<char>>::empty(),
        cc_files(b) == Seq::<Seq<char>>::empty(),
        cc_cargo_metadata(b),
        cc_out_dir(b) is None,
        cc_target(b) is None,
        cc_host(b) is None,
        cc_opt_level(b) is None,
{
    cc::Build::new()
}

/// `cc::Build::flag`: appends one compiler flag.
#[verifier::external_body]
pub(crate) fn build_flag(b: &mut cc::Build, flag: &str)
    ensures
        cc_flags(*final(b)) == cc_flags(*old(b)).push(flag@),
        cc_defines(*final(b)) == cc_defines(*old(b)),
        cc_includes(*final(b)) == cc_includes(*old(b)),
        cc_files(*final(b)) == cc_files(*old(b)),
        same_settings(*final(b), *old(b)),
{
    b.flag(flag);
}

/// `cc::Build::define`: appends one preprocessor definition.
#[verifier::external_body]
pub(crate) fn build_define(b: &mut cc::Build, var: &str, val: Option<&str>)
    ensures
        cc_defines(*final(b)) == cc_defines(*old(b)).push(
            (
                var@,
                match val {
                    Some(v) => Some(v@),
                    None => None,
                },
            ),
        ),
        cc_flags(*final(b)) == cc_flags(*old(b)),
        cc_includes(*final(b)) == cc_includes(*old(b)),
        cc_files(*final(b)) == cc_files(*old(b)),
        same_settings(*final(b), *old(b)),
{
    b.define(var, val);
}

/// `cc::Build::includes`, given one directory: appends it to the header
/// search directories.
#[verifier::external_body]
pub(crate) fn build_header_dir(b: &mut cc::Build, dir: &str)
    ensures
        cc_includes(*final(b)) == cc_includes(*old(b)).push(dir@),
        cc_flags(*final(b)) == cc_flags(*old(b)),
        cc_defines(*final(b)) == cc_defines(*old(b)),
        cc_files(*final(b)) == cc_files(*old(b)),
        same_settings(*final(b), *old(b)),
{
    b.includes([dir]);
}

/// `cc::Build::file`: appends one source file.
#[verifier::external_body]
pub(crate) fn build_file(b: &mut cc::Build, file: &str)
    ensures
        cc_files(*final(b)) == cc_files(*old(b)).push(file@),
        cc_flags(*final(b)) == cc_flags(*old(b)),
        cc_defines(*final(b)) == cc_defines(*old(b)),
        cc_includes(*final(b)) == cc_includes(*old(b)),
        same_settings(*final(b), *old(b)),
{
    b.file(file);
}

/// `cc::Build::cargo_metadata`: sets whether cargo metadata is emitted.
#[verifier::external_body]
pub(crate) fn build_cargo_metadata(b: &mut cc::Build, on: bool)
    ensures
        cc_cargo_metadata(*final(b)) == on,
        same_lists(*final(b), *old(b)),
        cc_out_dir(*final(b)) == cc_out_dir(*old(b)),
        cc_target(*final(b)) == cc_target(*old(b)),
        cc_host(*final(b)) == cc_host(*old(b)),
        cc_opt_level(*final(b)) == cc_opt_level(*old(b)),
{
    b.cargo_metadata(on);
}

/// `cc::Build::out_dir`: sets the output directory.
#[verifier::external_body]
pub(crate) fn build_out_dir(b: &mut cc::Build, dir: &str)
    ensures
        cc_out_dir(*final(b)) == Some(dir@),
        same_lists(*final(b), *old(b)),
        cc_cargo_metadata(*final(b)) == cc_cargo_metadata(*old(b)),
        cc_target(*final(b)) == cc_target(*old(b)),
        cc_host(*final(b)) == cc_host(*old(b)),
        cc_opt_level(*final(b)) == cc_opt_level(*old(b)),
{
    b.out_dir(dir);
}

/// `cc::Build::target`: sets the target triple.
#[verifier::external_body]
pub(crate) fn build_target(b: &mut cc::Build, target: &str)
    ensures
        cc_target(*final(b)) == Some(target@),
        same_lists(*final(b), *old(b)),
        cc_cargo_metadata(*final(b)) == cc_cargo_metadata(*old(b)),
        cc_out_dir(*final(b)) == cc_out_dir(*old(b)),
        cc_host(*final(b)) == cc_host(*old(b)),
        cc_opt_level(*final(b)) == cc_opt_level(*old(b)),
{
    b.target(target);
}

/// `cc::Build::host`: sets the host triple.
#[verifier::external_body]
pub(crate) fn build_host(b: &mut cc::Build, host: &str)
    ensures
        cc_host(*final(b)) == Some(host@),
        same_lists(*final(b), *old(b)),
        cc_cargo_metadata(*final(b)) == cc_cargo_metadata(*old(b)),
        cc_out_dir(*final(b)) == cc_out_dir(*old(b)),
        cc_target(*final(b)) == cc_target(*old(b)),
        cc_opt_level(*final(b)) == cc_opt_level(*old(b)),
{
    b.host(host);
}

/// `cc::Build::opt_level`: sets the optimization level.
#[verifier::external_body]
pub(crate) fn build_opt_level(b: &mut cc::Build, level: u32)
    ensures
        cc_opt_level(*final(b)) == Some(level as nat),
        same_lists(*final(b), *old(b)),
        cc_cargo_metadata(*final(b)) == cc_cargo_metadata(*old(b)),
        cc_out_dir(*final(b)) == cc_out_dir(*old(b)),
        cc_target(*final(b)) == cc_target(*old(b)),
        cc_host(*final(b)) == cc_host(*old(b)),
{
    b.opt_level(level);
}

} // verus!
