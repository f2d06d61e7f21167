//! Lua platform handling: the per-platform preprocessor defines and
//! C-standard dialects, and the resolution of a target triple to a platform.

use vstd::prelude::*;
use crate::strutil::{contains_seq, ends_with_seq, str_contains, str_ends_with};

verus! {

/// Collection of C standard identifiers for different kinds of compilers.
#[derive(Debug, Clone, PartialEq, Eq)]
pub struct Standards {
    pub gnu: Option<String>,
    pub clang: Option<String>,
    pub msvc: Option<String>,
    pub clang_cl: Option<String>,
}

/// Mathematical model of a [`Standards`] record.
pub ghost struct StandardsView {
    pub gnu: Option<Seq<char>>,
    pub clang: Option<Seq<char>>,
    pub msvc: Option<Seq<char>>,
    pub clang_cl: Option<Seq<char>>,
}

impl View for Standards {
    type V = StandardsView;

    open spec fn view(&self) -> StandardsView {
        StandardsView {
            gnu: self.gnu.deep_view(),
            clang: self.clang.deep_view(),
            msvc: self.msvc.deep_view(),
            clang_cl: self.clang_cl.deep_view(),
        }
    }
}

/// The record with no dialect requested of any compiler.
pub open spec fn spec_empty_standards() -> StandardsView {
    StandardsView { gnu: None, clang: None, msvc: None, clang_cl: None }
}

/// The record most platforms request: `gnu99` from GNU-like and Clang-like
/// compilers, `c99` from MSVC.
pub open spec fn spec_common_standards() -> StandardsView {
    StandardsView {
        gnu: Some("gnu99"@),
        clang: Some("gnu99"@),
        msvc: Some("c99"@),
        clang_cl: Some("gnu99"@),
    }
}

impl Default for Standards {
    /// A record that requests no dialect of any compiler.
    fn default() -> (r: Self)
        ensures
            r@ == spec_empty_standards(),
    {
        Standards { gnu: None, clang: None, msvc: None, clang_cl: None }
    }
}

impl Standards {
    /// The dialect record shared by most platforms; see
    /// [`spec_common_standards`].
    pub fn common() -> (r: Self)
        ensures
            r@ == spec_common_standards(),
    {
        Standards {
            gnu: Some(String::from_str("gnu99")),
            clang: Some(String::from_str("gnu99")),
            msvc: Some(String::from_str("c99")),
            clang_cl: Some(String::from_str("gnu99")),
        }
    }
}

/// The compiler family reported by the toolchain.
#[derive(Debug, Clone, Copy, PartialEq, Eq, Structural)]
pub enum CompilerFamily {
    Gnu,
    Clang,
    Msvc,
    ClangCl,
    Unknown,
}

/// The dialect requested for a compiler family under a [`Standards`] record:
/// exactly the record field of that family, and none for an unknown family.
/// There is no fallback across families.
pub open spec fn spec_select_std(f: CompilerFamily, s: StandardsView) -> Option<Seq<char>> {
    match f {
        CompilerFamily::Gnu => s.gnu,
        CompilerFamily::Clang => s.clang,
        CompilerFamily::Msvc => s.msvc,
        CompilerFamily::ClangCl => s.clang_cl,
        CompilerFamily::Unknown => None,
    }
}

/// Select the single dialect to request from a compiler of family `f`.
pub fn select_std(f: CompilerFamily, s: &Standards) -> (r: Option<String>)
    ensures
        r.deep_view() == spec_select_std(f, s@),
{
    match f {
        CompilerFamily::Gnu => s.gnu.clone(),
        CompilerFamily::Clang => s.clang.clone(),
        CompilerFamily::Msvc => s.msvc.clone(),
        CompilerFamily::ClangCl => s.clang_cl.clone(),
        CompilerFamily::Unknown => None,
    }
}

/// Trait for a Lua platform: the preprocessor defines it needs and the
/// C-standard dialects it requests.
pub trait Platform {
    /// The platform's defines, as a sequence of symbol names.
    spec fn spec_defines(&self) -> Seq<Seq<char>>;

    /// The platform's dialect record.
    spec fn spec_standards(&self) -> StandardsView;

    /// Preprocessor symbols required unconditionally on this platform.
    fn defines(&self) -> (r: Vec<String>)
        ensures
            r.deep_view() == self.spec_defines(),
    ;

    /// Dialects to request, one optional entry per compiler family.
    fn standards(&self) -> (r: Standards)
        ensures
            r@ == self.spec_standards(),
    ;
}

/// Trait for a known, constant Lua platform.
pub trait ConstPlatform {
    /// The platform's defines, as a sequence of symbol names.
    spec fn const_defines() -> Seq<Seq<char>>;

    /// The platform's dialect record.
    spec fn const_standards() -> StandardsView;

    /// Preprocessor symbols required unconditionally on this platform.
    fn platform_defines() -> (r: Vec<String>)
        ensures
            r.deep_view() == Self::const_defines(),
    ;

    /// Dialects to request, one optional entry per compiler family.
    fn platform_standards() -> (r: Standards)
        ensures
            r@ == Self::const_standards(),
    ;
}

impl<T: ConstPlatform> Platform for T {
    open spec fn spec_defines(&self) -> Seq<Seq<char>> {
        T::const_defines()
    }

    open spec fn spec_standards(&self) -> StandardsView {
        T::const_standards()
    }

    fn defines(&self) -> (r: Vec<String>) {
        T::platform_defines()
    }

    fn standards(&self) -> (r: Standards) {
        T::platform_standards()
    }
}

/// Copy an optional dialect string, preserving its model.
fn clone_opt_str(o: &Option<String>) -> (r: Option<String>)
    ensures
        r.deep_view() == o.deep_view(),
{
    match o {
        Some(s) => Some(s.clone()),
        None => None,
    }
}

/// Copy a [`Standards`] record, preserving its model.
fn clone_standards(s: &Standards) -> (r: Standards)
    ensures
        r@ == s@,
{
    Standards {
        gnu: clone_opt_str(&s.gnu),
        clang: clone_opt_str(&s.clang),
        msvc: clone_opt_str(&s.msvc),
        clang_cl: clone_opt_str(&s.clang_cl),
    }
}

/// Copy a define list, preserving its model.
fn clone_defines(v: &Vec<String>) -> (r: Vec<String>)
    ensures
        r.deep_view() == v.deep_view(),
{
    let mut r: Vec<String> = Vec::new();
    proof {
        assert(r@ =~= v@.take(0));
    }
    let mut i: usize = 0;
    while i < v.len()
        invariant
            i <= v@.len(),
            r@ == v@.take(i as int),
        decreases v@.len() - i,
    {
        let x = v[i].clone();
        proof {
            assert(x == v@[i as int]);
        }
        r.push(x);
        proof {
            assert(r@ =~= v@.take(i + 1));
        }
        i = i + 1;
    }
    proof {
        assert(v@.take(v@.len() as int) =~= v@);
    }
    r
}

/// One symbol name as a define list.
fn vec1(a: &str) -> (r: Vec<String>)
    ensures
        r.deep_view() =~= seq![a@],
{
    let mut v: Vec<String> = Vec::new();
    v.push(String::from_str(a));
    proof {
        assert(v.deep_view() =~= seq![a@]);
    }
    v
}

/// Two symbol names as a define list.
fn vec2(a: &str, b: &str) -> (r: Vec<String>)
    ensures
        r.deep_view() =~= seq![a@, b@],
{
    let mut v: Vec<String> = Vec::new();
    v.push(String::from_str(a));
    v.push(String::from_str(b));
    proof {
        assert(v.deep_view() =~= seq![a@, b@]);
    }
    v
}

/// Three symbol names as a define list.
fn vec3(a: &str, b: &str, c: &str) -> (r: Vec<String>)
    ensures
        r.deep_view() =~= seq![a@, b@, c@],
{
    let mut v: Vec<String> = Vec::new();
    v.push(String::from_str(a));
    v.push(String::from_str(b));
    v.push(String::from_str(c));
    proof {
        assert(v.deep_view() =~= seq![a@, b@, c@]);
    }
    v
}

/// AIX.
#[derive(Debug, Clone, Copy, PartialEq, Eq, Structural)]
pub struct Aix;

impl ConstPlatform for Aix {
    open spec fn const_defines() -> Seq<Seq<char>> {
        seq!["LUA_USE_POSIX"@, "LUA_USE_DLOPEN"@]
    }

    open spec fn const_standards() -> StandardsView {
        spec_common_standards()
    }

    fn platform_defines() -> (r: Vec<String>) {
        vec2("LUA_USE_POSIX", "LUA_USE_DLOPEN")
    }

    fn platform_standards() -> (r: Standards) {
        Standards::common()
    }
}

/// Generic BSD.
#[derive(Debug, Clone, Copy, PartialEq, Eq, Structural)]
pub struct Bsd;

impl ConstPlatform for Bsd {
    open spec fn const_defines() -> Seq<Seq<char>> {
        seq!["LUA_USE_POSIX"@, "LUA_USE_DLOPEN"@]
    }

    open spec fn const_standards() -> StandardsView {
        spec_common_standards()
    }

    fn platform_defines() -> (r: Vec<String>) {
        vec2("LUA_USE_POSIX", "LUA_USE_DLOPEN")
    }

    fn platform_standards() -> (r: Standards) {
        Standards::common()
    }
}

/// A platform restricted to C89.
#[derive(Debug, Clone, Copy, PartialEq, Eq, Structural)]
pub struct C89;

impl ConstPlatform for C89 {
    open spec fn const_defines() -> Seq<Seq<char>> {
        seq!["LUA_USE_POSIX"@, "LUA_USE_DLOPEN"@]
    }

    open spec fn const_standards() -> StandardsView {
        StandardsView {
            gnu: Some("c89"@),
            clang: Some("c89"@),
            msvc: None,
            clang_cl: Some("c89"@),
        }
    }

    fn platform_defines() -> (r: Vec<String>) {
        vec2("LUA_USE_POSIX", "LUA_USE_DLOPEN")
    }

    fn platform_standards() -> (r: Standards) {
        Standards {
            gnu: Some(String::from_str("c89")),
            clang: Some(String::from_str("c89")),
            msvc: None,
            clang_cl: Some(String::from_str("c89")),
        }
    }
}

/// FreeBSD.  Deliberately shares the generic Linux define set, reflecting
/// shared libc behaviour assumptions.
#[derive(Debug, Clone, Copy, PartialEq, Eq, Structural)]
pub struct FreeBsd;

impl ConstPlatform for FreeBsd {
    open spec fn const_defines() -> Seq<Seq<char>> {
        seq!["LUA_USE_LINUX"@]
    }

    open spec fn const_standards() -> StandardsView {
        spec_common_standards()
    }

    fn platform_defines() -> (r: Vec<String>) {
        vec1("LUA_USE_LINUX")
    }

    fn platform_standards() -> (r: Standards) {
        Standards::common()
    }
}

/// iOS.
#[derive(Debug, Clone, Copy, PartialEq, Eq, Structural)]
pub struct Ios;

impl ConstPlatform for Ios {
    open spec fn const_defines() -> Seq<Seq<char>> {
        seq!["LUA_USE_IOS"@]
    }

    open spec fn const_standards() -> StandardsView {
        spec_common_standards()
    }

    fn platform_defines() -> (r: Vec<String>) {
        vec1("LUA_USE_IOS")
    }

    fn platform_standards() -> (r: Standards) {
        Standards::common()
    }
}

/// Linux.
#[derive(Debug, Clone, Copy, PartialEq, Eq, Structural)]
pub struct Linux;

impl ConstPlatform for Linux {
    open spec fn const_defines() -> Seq<Seq<char>> {
        seq!["LUA_USE_LINUX"@]
    }

    open spec fn const_standards() -> StandardsView {
        spec_common_standards()
    }

    fn platform_defines() -> (r: Vec<String>) {
        vec1("LUA_USE_LINUX")
    }

    fn platform_standards() -> (r: Standards) {
        Standards::common()
    }
}

/// macOS.
#[derive(Debug, Clone, Copy, PartialEq, Eq, Structural)]
pub struct MacOsX;

impl ConstPlatform for MacOsX {
    open spec fn const_defines() -> Seq<Seq<char>> {
        seq!["LUA_USE_MACOSX"@]
    }

    open spec fn const_standards() -> StandardsView {
        spec_common_standards()
    }

    fn platform_defines() -> (r: Vec<String>) {
        vec1("LUA_USE_MACOSX")
    }

    fn platform_standards() -> (r: Standards) {
        Standards::common()
    }
}

/// MinGW.
#[derive(Debug, Clone, Copy, PartialEq, Eq, Structural)]
pub struct MinGw;

impl ConstPlatform for MinGw {
    open spec fn const_defines() -> Seq<Seq<char>> {
        seq!["LUA_BUILD_AS_DLL"@]
    }

    open spec fn const_standards() -> StandardsView {
        spec_common_standards()
    }

    fn platform_defines() -> (r: Vec<String>) {
        vec1("LUA_BUILD_AS_DLL")
    }

    fn platform_standards() -> (r: Standards) {
        Standards::common()
    }
}

/// Generic POSIX.
#[derive(Debug, Clone, Copy, PartialEq, Eq, Structural)]
pub struct Posix;

impl ConstPlatform for Posix {
    open spec fn const_defines() -> Seq<Seq<char>> {
        seq!["LUA_USE_POSIX"@]
    }

    open spec fn const_standards() -> StandardsView {
        spec_common_standards()
    }

    fn platform_defines() -> (r: Vec<String>) {
        vec1("LUA_USE_POSIX")
    }

    fn platform_standards() -> (r: Standards) {
        Standards::common()
    }
}

/// Solaris.
#[derive(Debug, Clone, Copy, PartialEq, Eq, Structural)]
pub struct Solaris;

impl ConstPlatform for Solaris {
    open spec fn const_defines() -> Seq<Seq<char>> {
        seq!["LUA_USE_POSIX"@, "LUA_USE_DLOPEN"@, "_REENTRANT"@]
    }

    open spec fn const_standards() -> StandardsView {
        spec_common_standards()
    }

    fn platform_defines() -> (r: Vec<String>) {
        vec3("LUA_USE_POSIX", "LUA_USE_DLOPEN", "_REENTRANT")
    }

    fn platform_standards() -> (r: Standards) {
        Standards::common()
    }
}

/// Windows.
#[derive(Debug, Clone, Copy, PartialEq, Eq, Structural)]
pub struct Windows;

impl ConstPlatform for Windows {
    open spec fn const_defines() -> Seq<Seq<char>> {
        seq!["LUA_USE_WINDOWS"@]
    }

    open spec fn const_standards() -> StandardsView {
        spec_common_standards()
    }

    fn platform_defines() -> (r: Vec<String>) {
        vec1("LUA_USE_WINDOWS")
    }

    fn platform_standards() -> (r: Standards) {
        Standards::common()
    }
}

/// A platform value holding copied data, for the triple-resolution path.
#[derive(Debug, Clone, PartialEq, Eq)]
pub struct DynPlatform {
    pub defines: Vec<String>,
    pub standards: Standards,
}

/// Mathematical model of a [`DynPlatform`].
pub ghost struct DynPlatformView {
    pub defines: Seq<Seq<char>>,
    pub standards: StandardsView,
}

impl View for DynPlatform {
    type V = DynPlatformView;

    open spec fn view(&self) -> DynPlatformView {
        DynPlatformView { defines: self.defines.deep_view(), standards: self.standards@ }
    }
}

impl DynPlatform {
    /// Collect information about a [`ConstPlatform`] into this structure.
    pub fn new<P: ConstPlatform>() -> (r: Self)
        ensures
            r@.defines == P::const_defines(),
            r@.standards == P::const_standards(),
    {
        DynPlatform { defines: P::platform_defines(), standards: P::platform_standards() }
    }
}

impl Platform for DynPlatform {
    open spec fn spec_defines(&self) -> Seq<Seq<char>> {
        self@.defines
    }

    open spec fn spec_standards(&self) -> StandardsView {
        self@.standards
    }

    fn defines(&self) -> (r: Vec<String>) {
        clone_defines(&self.defines)
    }

    fn standards(&self) -> (r: Standards) {
        clone_standards(&self.standards)
    }
}

/// What [`from_target_triple`] returns for a triple: the first matching rule
/// decides the platform; a triple no rule matches resolves to nothing.  The
/// solaris rule is a substring test so that version-suffixed triples such as
/// `sparc-sun-solaris2.11` still resolve.
pub open spec fn resolves_to(t: Seq<char>, r: Option<DynPlatform>) -> bool {
    if contains_seq(t, "linux"@) {
        r matches Some(p) && p@.defines == Linux::const_defines() && p@.standards
            == Linux::const_standards()
    } else if ends_with_seq(t, "bsd"@) {
        r matches Some(p) && p@.defines == FreeBsd::const_defines() && p@.standards
            == FreeBsd::const_standards()
    } else if ends_with_seq(t, "apple-darwin"@) {
        r matches Some(p) && p@.defines == MacOsX::const_defines() && p@.standards
            == MacOsX::const_standards()
    } else if ends_with_seq(t, "apple-ios"@) {
        r matches Some(p) && p@.defines == Ios::const_defines() && p@.standards
            == Ios::const_standards()
    } else if contains_seq(t, "solaris"@) {
        r matches Some(p) && p@.defines == Solaris::const_defines() && p@.standards
            == Solaris::const_standards()
    } else if contains_seq(t, "windows"@) {
        r matches Some(p) && p@.defines == Windows::const_defines() && p@.standards
            == Windows::const_standards()
    } else {
        r is None
    }
}

/// Get an appropriate [`Platform`] for the given target triple.
pub fn from_target_triple(target: &str) -> (r: Option<DynPlatform>)
    ensures
        resolves_to(target@, r),
{
    if str_contains(target, "linux") {
        Some(DynPlatform::new::<Linux>())
    } else if str_ends_with(target, "bsd") {
        Some(DynPlatform::new::<FreeBsd>())
    } else if str_ends_with(target, "apple-darwin") {
        Some(DynPlatform::new::<MacOsX>())
    } else if str_ends_with(target, "apple-ios") {
        Some(DynPlatform::new::<Ios>())
    } else if str_contains(target, "solaris") {
        Some(DynPlatform::new::<Solaris>())
    } else if str_contains(target, "windows") {
        Some(DynPlatform::new::<Windows>())
    } else {
        None
    }
}

/// Get an appropriate [`Platform`] for the target triple this build is
/// compiled for, as the build environment reports it.  Whatever that triple
/// turns out to be, the result is exactly what [`from_target_triple`] gives
/// for it.
pub fn from_current_triple() -> (r: Option<DynPlatform>)
    ensures
        exists|t: Seq<char>| #[trigger] resolves_to(t, r),
{
    let t = crate::driver::current_triple();
    let r = from_target_triple(t.as_str());
    proof {
        assert(resolves_to(t@, r));
    }
    r
}

/// Resolution is a pure function of the triple: any two results that
/// [`from_target_triple`] may return for the same triple agree, both on
/// whether a platform was found and, when one was, on its defines and
/// standards.
pub proof fn lemma_resolution_pure(t: Seq<char>, r1: Option<DynPlatform>, r2: Option<DynPlatform>)
    requires
        resolves_to(t, r1),
        resolves_to(t, r2),
    ensures
        r1 is Some <==> r2 is Some,
        r1 is Some ==> r1->0@.defines == r2->0@.defines,
        r1 is Some ==> r1->0@.standards == r2->0@.standards,
{
}

} // verus!
