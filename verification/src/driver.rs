//! Trusted boundary to the compiler-driver crate `cc` and to the
//! `current_platform` crate.
//!
//! The `cc::Build` descriptor is opaque to verification, so the state it
//! accumulates is modelled by uninterpreted observers, one per descriptor
//! field this library touches.  Each wrapper below states, over those
//! observers, exactly what the corresponding `cc` method does to the
//! descriptor according to the crate's source: every setter either appends
//! to one list or overwrites one scalar, and leaves everything else alone.

use vstd::prelude::*;

verus! {

#[verifier::external_type_specification]
#[verifier::external_body]
pub struct ExCcBuild(cc::Build);

#[verifier::external_type_specification]
#[verifier::external_body]
pub struct ExCcTool(cc::Tool);

#[verifier::external_type_specification]
#[verifier::external_body]
pub struct ExCcError(cc::Error);

/// The accumulated `-D` definitions: symbol name and optional value, in
/// the order they were issued.
pub uninterp spec fn cc_defines_of(b: cc::Build) -> Seq<(Seq<char>, Option<Seq<char>>)>;

/// The accumulated source-file paths, in the order they were added.
pub uninterp spec fn cc_files_of(b: cc::Build) -> Seq<Seq<char>>;

/// The accumulated header search directories, in the order they were added.
pub uninterp spec fn cc_header_dirs_of(b: cc::Build) -> Seq<Seq<char>>;

/// The requested C-standard dialect, if one was set.
pub uninterp spec fn cc_std_of(b: cc::Build) -> Option<Seq<char>>;

/// The warnings setting, if one was set.
pub uninterp spec fn cc_warnings_of(b: cc::Build) -> Option<bool>;

/// The extra-warnings setting, if one was set.
pub uninterp spec fn cc_extra_warnings_of(b: cc::Build) -> Option<bool>;

/// The assumed host triple, if one was set.
pub uninterp spec fn cc_host_of(b: cc::Build) -> Option<Seq<char>>;

/// The output directory, if one was set.
pub uninterp spec fn cc_out_dir_of(b: cc::Build) -> Option<Seq<char>>;

/// The optimization level, if one was set.
pub uninterp spec fn cc_opt_level_of(b: cc::Build) -> Option<u32>;

/// The debug-information setting, if one was set.
pub uninterp spec fn cc_debug_of(b: cc::Build) -> Option<bool>;

/// The three accumulated lists of `a` and `b` agree.
pub open spec fn cc_same_lists(a: cc::Build, b: cc::Build) -> bool {
    &&& cc_defines_of(a) == cc_defines_of(b)
    &&& cc_files_of(a) == cc_files_of(b)
    &&& cc_header_dirs_of(a) == cc_header_dirs_of(b)
}

/// The seven scalar settings of `a` and `b` agree.
pub open spec fn cc_same_scalars(a: cc::Build, b: cc::Build) -> bool {
    &&& cc_std_of(a) == cc_std_of(b)
    &&& cc_warnings_of(a) == cc_warnings_of(b)
    &&& cc_extra_warnings_of(a) == cc_extra_warnings_of(b)
    &&& cc_host_of(a) == cc_host_of(b)
    &&& cc_out_dir_of(a) == cc_out_dir_of(b)
    &&& cc_opt_level_of(a) == cc_opt_level_of(b)
    &&& cc_debug_of(a) == cc_debug_of(b)
}

/// Relies on cc::Build::new: a fresh descriptor with empty definition,
/// file and header-directory lists and no std, warnings, host, out-dir,
/// opt-level or debug setting.
#[verifier::external_body]
pub(crate) fn cc_new() -> (b: cc::Build)
    ensures
        cc_defines_of(b) == Seq::<(Seq<char>, Option<Seq<char>>)>::empty(),
        cc_files_of(b) == Seq::<Seq<char>>::empty(),
        cc_header_dirs_of(b) == Seq::<Seq<char>>::empty(),
        cc_std_of(b) is None,
        cc_warnings_of(b) is None,
        cc_extra_warnings_of(b) is None,
        cc_host_of(b) is None,
        cc_out_dir_of(b) is None,
        cc_opt_level_of(b) is None,
        cc_debug_of(b) is None,
{
    cc::Build::new()
}

/// Relies on cc::Build::define: appends `(var, val)` to the definition
/// list, keeping what was there (in particular, issuing the same define
/// twice records it twice), and changes nothing else.
#[verifier::external_body]
pub(crate) fn cc_define(b: &mut cc::Build, var: &str, val: Option<&str>)
    ensures
        cc_defines_of(*final(b)) == cc_defines_of(*old(b)).push(
            (
                var@,
                match val {
                    Some(v) => Some(v@),
                    None => None,
                },
            ),
        ),
        cc_files_of(*final(b)) == cc_files_of(*old(b)),
        cc_header_dirs_of(*final(b)) == cc_header_dirs_of(*old(b)),
        cc_same_scalars(*old(b), *final(b)),
{
    b.define(var, val);
}

/// Relies on cc::Build::file: appends the path to the file list and
/// changes nothing else.
#[verifier::external_body]
pub(crate) fn cc_file(b: &mut cc::Build, path: &str)
    ensures
        cc_files_of(*final(b)) == cc_files_of(*old(b)).push(path@),
        cc_defines_of(*final(b)) == cc_defines_of(*old(b)),
        cc_header_dirs_of(*final(b)) == cc_header_dirs_of(*old(b)),
        cc_same_scalars(*old(b), *final(b)),
{
    b.file(path);
}

/// Relies on cc::Build::includes: appends the single given directory to
/// the header search directories and changes nothing else.
#[verifier::external_body]
pub(crate) fn cc_header_dir(b: &mut cc::Build, dir: &str)
    ensures
        cc_header_dirs_of(*final(b)) == cc_header_dirs_of(*old(b)).push(dir@),
        cc_defines_of(*final(b)) == cc_defines_of(*old(b)),
        cc_files_of(*final(b)) == cc_files_of(*old(b)),
        cc_same_scalars(*old(b), *final(b)),
{
    b.includes([dir]);
}

/// Relies on cc::Build::std: overwrites the requested dialect and changes
/// nothing else.
#[verifier::external_body]
pub(crate) fn cc_std(b: &mut cc::Build, dialect: &str)
    ensures
        cc_std_of(*final(b)) == Some(dialect@),
        cc_same_lists(*old(b), *final(b)),
        cc_warnings_of(*final(b)) == cc_warnings_of(*old(b)),
        cc_extra_warnings_of(*final(b)) == cc_extra_warnings_of(*old(b)),
        cc_host_of(*final(b)) == cc_host_of(*old(b)),
        cc_out_dir_of(*final(b)) == cc_out_dir_of(*old(b)),
        cc_opt_level_of(*final(b)) == cc_opt_level_of(*old(b)),
        cc_debug_of(*final(b)) == cc_debug_of(*old(b)),
{
    b.std(dialect);
}

/// Relies on cc::Build::warnings: overwrites both the warnings and the
/// extra-warnings settings with the given value and changes nothing else.
#[verifier::external_body]
pub(crate) fn cc_warnings(b: &mut cc::Build, w: bool)
    ensures
        cc_warnings_of(*final(b)) == Some(w),
        cc_extra_warnings_of(*final(b)) == Some(w),
        cc_same_lists(*old(b), *final(b)),
        cc_std_of(*final(b)) == cc_std_of(*old(b)),
        cc_host_of(*final(b)) == cc_host_of(*old(b)),
        cc_out_dir_of(*final(b)) == cc_out_dir_of(*old(b)),
        cc_opt_level_of(*final(b)) == cc_opt_level_of(*old(b)),
        cc_debug_of(*final(b)) == cc_debug_of(*old(b)),
{
    b.warnings(w);
}

/// Relies on cc::Build::extra_warnings: overwrites the extra-warnings
/// setting and changes nothing else.
#[verifier::external_body]
pub(crate) fn cc_extra_warnings(b: &mut cc::Build, w: bool)
    ensures
        cc_extra_warnings_of(*final(b)) == Some(w),
        cc_same_lists(*old(b), *final(b)),
        cc_std_of(*final(b)) == cc_std_of(*old(b)),
        cc_warnings_of(*final(b)) == cc_warnings_of(*old(b)),
        cc_host_of(*final(b)) == cc_host_of(*old(b)),
        cc_out_dir_of(*final(b)) == cc_out_dir_of(*old(b)),
        cc_opt_level_of(*final(b)) == cc_opt_level_of(*old(b)),
        cc_debug_of(*final(b)) == cc_debug_of(*old(b)),
{
    b.extra_warnings(w);
}

/// Relies on cc::Build::host: overwrites the assumed host triple and
/// changes nothing else.
#[verifier::external_body]
pub(crate) fn cc_host(b: &mut cc::Build, host: &str)
    ensures
        cc_host_of(*final(b)) == Some(host@),
        cc_same_lists(*old(b), *final(b)),
        cc_std_of(*final(b)) == cc_std_of(*old(b)),
        cc_warnings_of(*final(b)) == cc_warnings_of(*old(b)),
        cc_extra_warnings_of(*final(b)) == cc_extra_warnings_of(*old(b)),
        cc_out_dir_of(*final(b)) == cc_out_dir_of(*old(b)),
        cc_opt_level_of(*final(b)) == cc_opt_level_of(*old(b)),
        cc_debug_of(*final(b)) == cc_debug_of(*old(b)),
{
    b.host(host);
}

/// Relies on cc::Build::out_dir: overwrites the output directory and
/// changes nothing else.
#[verifier::external_body]
pub(crate) fn cc_out_dir(b: &mut cc::Build, dir: &str)
    ensures
        cc_out_dir_of(*final(b)) == Some(dir@),
        cc_same_lists(*old(b), *final(b)),
        cc_std_of(*final(b)) == cc_std_of(*old(b)),
        cc_warnings_of(*final(b)) == cc_warnings_of(*old(b)),
        cc_extra_warnings_of(*final(b)) == cc_extra_warnings_of(*old(b)),
        cc_host_of(*final(b)) == cc_host_of(*old(b)),
        cc_opt_level_of(*final(b)) == cc_opt_level_of(*old(b)),
        cc_debug_of(*final(b)) == cc_debug_of(*old(b)),
{
    b.out_dir(dir);
}

/// Relies on cc::Build::opt_level: overwrites the optimization level and
/// changes nothing else.
#[verifier::external_body]
pub(crate) fn cc_opt_level(b: &mut cc::Build, level: u32)
    ensures
        cc_opt_level_of(*final(b)) == Some(level),
        cc_same_lists(*old(b), *final(b)),
        cc_std_of(*final(b)) == cc_std_of(*old(b)),
        cc_warnings_of(*final(b)) == cc_warnings_of(*old(b)),
        cc_extra_warnings_of(*final(b)) == cc_extra_warnings_of(*old(b)),
        cc_host_of(*final(b)) == cc_host_of(*old(b)),
        cc_out_dir_of(*final(b)) == cc_out_dir_of(*old(b)),
        cc_debug_of(*final(b)) == cc_debug_of(*old(b)),
{
    b.opt_level(level);
}

/// Relies on cc::Build::debug: overwrites the debug-information setting
/// and changes nothing else.
#[verifier::external_body]
pub(crate) fn cc_debug(b: &mut cc::Build, emit: bool)
    ensures
        cc_debug_of(*final(b)) == Some(emit),
        cc_same_lists(*old(b), *final(b)),
        cc_std_of(*final(b)) == cc_std_of(*old(b)),
        cc_warnings_of(*final(b)) == cc_warnings_of(*old(b)),
        cc_extra_warnings_of(*final(b)) == cc_extra_warnings_of(*old(b)),
        cc_host_of(*final(b)) == cc_host_of(*old(b)),
        cc_out_dir_of(*final(b)) == cc_out_dir_of(*old(b)),
        cc_opt_level_of(*final(b)) == cc_opt_level_of(*old(b)),
{
    b.debug(emit);
}

/// Relies on cc::Build::try_get_compiler: probes the build environment for
/// the toolchain.  Which compiler is found, if any, depends on that
/// environment, so nothing is promised of the outcome.
#[verifier::external_body]
pub(crate) fn cc_try_get_compiler(b: &cc::Build) -> Result<cc::Tool, cc::Error> {
    b.try_get_compiler()
}

/// Relies on cc::Build::try_compile: runs the compiler over the
/// accumulated descriptor.  Success depends on the toolchain and the
/// sources on disk, so nothing is promised of the outcome.
#[verifier::external_body]
pub(crate) fn cc_try_compile(b: &cc::Build, output: &str) -> Result<(), cc::Error> {
    b.try_compile(output)
}

/// Relies on cc::Tool::is_like_gnu: whether the detected tool is GNU-like.
#[verifier::external_body]
pub(crate) fn tool_is_like_gnu(t: &cc::Tool) -> bool {
    t.is_like_gnu()
}

/// Relies on cc::Tool::is_like_clang: whether the detected tool is
/// Clang-like.
#[verifier::external_body]
pub(crate) fn tool_is_like_clang(t: &cc::Tool) -> bool {
    t.is_like_clang()
}

/// Relies on cc::Tool::is_like_msvc: whether the detected tool is
/// MSVC-like.
#[verifier::external_body]
pub(crate) fn tool_is_like_msvc(t: &cc::Tool) -> bool {
    t.is_like_msvc()
}

/// Relies on cc::Tool::is_like_clang_cl: whether the detected tool is
/// `clang-cl`-based MSVC-like.
#[verifier::external_body]
pub(crate) fn tool_is_like_clang_cl(t: &cc::Tool) -> bool {
    t.is_like_clang_cl()
}

/// Relies on cc::Error's Display impl: the error's human-readable text.
#[verifier::external_body]
pub(crate) fn cc_error_text(e: &cc::Error) -> String {
    format!("{e}")
}

/// Relies on current_platform::CURRENT_PLATFORM: the target triple this
/// build is compiled for, as reported by the build environment.
#[verifier::external_body]
pub fn current_triple() -> String {
    current_platform::CURRENT_PLATFORM.to_owned()
}

} // verus!
