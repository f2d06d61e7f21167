//! Builder for a compilation of Lua 5.4.
//!
//! A [`Builder`] wraps one compiler-invocation descriptor.  Construction
//! commits to a dialect selection and the platform's unconditional defines;
//! every later call is purely additive (defines, files, header directories)
//! or overwrites a single scalar setting.

use vstd::prelude::*;
use crate::conf::{conf_defines, LuaConf};
use crate::driver;
use crate::driver::{
    cc_debug_of, cc_defines_of, cc_extra_warnings_of, cc_files_of, cc_header_dirs_of, cc_host_of,
    cc_opt_level_of, cc_out_dir_of, cc_std_of, cc_warnings_of,
};
use crate::escape::{escape_c_string, escaped, quoted};
use crate::platforms::{select_std, spec_select_std, CompilerFamily, Platform};
use crate::sources::{bundled_kept_paths, lua_kept_paths, lua_source_paths, SrcEntry};

verus! {

/// An error from the toolchain, carried as its human-readable text.
#[derive(Debug)]
pub struct BuildError {
    message: String,
}

impl BuildError {
    /// The error's text.
    pub closed spec fn spec_message(&self) -> Seq<char> {
        self.message@
    }

    /// The underlying toolchain error's human-readable text.
    pub fn message(&self) -> (r: &String)
        ensures
            r@ == self.spec_message(),
    {
        &self.message
    }

    /// Wrap a toolchain error, keeping its text.
    fn from_cc(e: &cc::Error) -> BuildError {
        BuildError { message: driver::cc_error_text(e) }
    }
}

/// Every platform define, as a flag-style define without a value.
pub open spec fn flag_defines(names: Seq<Seq<char>>) -> Seq<(Seq<char>, Option<Seq<char>>)> {
    names.map(|i: int, n: Seq<char>| (n, Option::<Seq<char>>::None))
}

/// A define list after issuing a flag-style define: the symbol is appended
/// with no value, and nothing already recorded changes.
pub open spec fn flag_applied(d: Seq<(Seq<char>, Option<Seq<char>>)>, name: Seq<char>) -> Seq<
    (Seq<char>, Option<Seq<char>>),
> {
    d.push((name, Option::<Seq<char>>::None))
}

/// A define list after issuing a literal-valued define: the symbol is
/// appended with the raw expression as its value.
pub open spec fn lit_applied(
    d: Seq<(Seq<char>, Option<Seq<char>>)>,
    name: Seq<char>,
    value: Seq<char>,
) -> Seq<(Seq<char>, Option<Seq<char>>)> {
    d.push((name, Some(value)))
}

/// A define list after issuing a string-valued define: the symbol is
/// appended with the text rendered as a quoted C string literal.
pub open spec fn str_applied(
    d: Seq<(Seq<char>, Option<Seq<char>>)>,
    name: Seq<char>,
    text: Seq<char>,
) -> Seq<(Seq<char>, Option<Seq<char>>)> {
    d.push((name, Some(quoted(escaped(text)))))
}

/// Builder for a compilation of Lua 5.4.
pub struct Builder {
    cc: cc::Build,
}

impl Builder {
    /// The accumulated defines: symbol and optional value, in issue order.
    pub closed spec fn defines(&self) -> Seq<(Seq<char>, Option<Seq<char>>)> {
        cc_defines_of(self.cc)
    }

    /// The accumulated source-file paths, in order.
    pub closed spec fn files(&self) -> Seq<Seq<char>> {
        cc_files_of(self.cc)
    }

    /// The accumulated header search directories, in order.
    pub closed spec fn header_dirs(&self) -> Seq<Seq<char>> {
        cc_header_dirs_of(self.cc)
    }

    /// The requested C-standard dialect, if any.
    pub closed spec fn std_sel(&self) -> Option<Seq<char>> {
        cc_std_of(self.cc)
    }

    /// The warnings setting, if set.
    pub closed spec fn warnings_sel(&self) -> Option<bool> {
        cc_warnings_of(self.cc)
    }

    /// The extra-warnings setting, if set.
    pub closed spec fn extra_warnings_sel(&self) -> Option<bool> {
        cc_extra_warnings_of(self.cc)
    }

    /// The assumed host triple, if set.
    pub closed spec fn host_sel(&self) -> Option<Seq<char>> {
        cc_host_of(self.cc)
    }

    /// The output directory, if set.
    pub closed spec fn out_dir_sel(&self) -> Option<Seq<char>> {
        cc_out_dir_of(self.cc)
    }

    /// The optimization level, if set.
    pub closed spec fn opt_level_sel(&self) -> Option<u32> {
        cc_opt_level_of(self.cc)
    }

    /// The debug-information setting, if set.
    pub closed spec fn debug_sel(&self) -> Option<bool> {
        cc_debug_of(self.cc)
    }
}

/// The defines, files and header directories of `a` and `b` agree.
pub open spec fn same_lists(a: Builder, b: Builder) -> bool {
    &&& a.defines() == b.defines()
    &&& a.files() == b.files()
    &&& a.header_dirs() == b.header_dirs()
}

/// The files and header directories of `a` and `b` agree.
pub open spec fn same_sources(a: Builder, b: Builder) -> bool {
    &&& a.files() == b.files()
    &&& a.header_dirs() == b.header_dirs()
}

/// The seven scalar settings of `a` and `b` agree.
pub open spec fn same_scalars(a: Builder, b: Builder) -> bool {
    &&& a.std_sel() == b.std_sel()
    &&& a.warnings_sel() == b.warnings_sel()
    &&& a.extra_warnings_sel() == b.extra_warnings_sel()
    &&& a.host_sel() == b.host_sel()
    &&& a.out_dir_sel() == b.out_dir_sel()
    &&& a.opt_level_sel() == b.opt_level_sel()
    &&& a.debug_sel() == b.debug_sel()
}

/// The compiler family the detected tool reports, probed in a fixed order:
/// GNU-like, Clang-like, MSVC-like, then `clang-cl`.  The answer depends on
/// the toolchain the build environment offers.
fn family_of(tool: &cc::Tool) -> CompilerFamily {
    if driver::tool_is_like_gnu(tool) {
        CompilerFamily::Gnu
    } else if driver::tool_is_like_clang(tool) {
        CompilerFamily::Clang
    } else if driver::tool_is_like_msvc(tool) {
        CompilerFamily::Msvc
    } else if driver::tool_is_like_clang_cl(tool) {
        CompilerFamily::ClangCl
    } else {
        CompilerFamily::Unknown
    }
}

impl Builder {
    /// Create a new builder based on a [`Platform`].
    ///
    /// On success the builder has committed to exactly one dialect
    /// selection (the platform's entry for the detected compiler family),
    /// enabled full warnings, and applied every platform define, in order,
    /// as a flag-style define; nothing else is set.  On failure the
    /// toolchain probe's error is surfaced.
    pub fn try_new<P: Platform>(p: P) -> (r: Result<Builder, BuildError>)
        ensures
            r matches Ok(b) ==> {
                &&& b.defines() == flag_defines(p.spec_defines())
                &&& b.files() == Seq::<Seq<char>>::empty()
                &&& b.header_dirs() == Seq::<Seq<char>>::empty()
                &&& b.warnings_sel() == Some(true)
                &&& b.extra_warnings_sel() == Some(true)
                &&& b.host_sel() is None
                &&& b.out_dir_sel() is None
                &&& b.opt_level_sel() is None
                &&& b.debug_sel() is None
                &&& exists|f: CompilerFamily|
                    b.std_sel() == #[trigger] spec_select_std(f, p.spec_standards())
            },
    {
        let mut cc = driver::cc_new();
        let tool = match driver::cc_try_get_compiler(&cc) {
            Ok(t) => t,
            Err(e) => {
                return Err(BuildError::from_cc(&e));
            },
        };
        let family = family_of(&tool);
        let stds = p.standards();
        match select_std(family, &stds) {
            Some(dialect) => driver::cc_std(&mut cc, dialect.as_str()),
            None => (),
        }
        proof {
            assert(cc_std_of(cc) == spec_select_std(family, p.spec_standards()));
        }
        driver::cc_warnings(&mut cc, true);
        driver::cc_extra_warnings(&mut cc, true);
        let defs = p.defines();
        let ghost names = p.spec_defines();
        let mut i: usize = 0;
        proof {
            assert(cc_defines_of(cc) =~= flag_defines(names.take(0)));
        }
        while i < defs.len()
            invariant
                i <= defs@.len(),
                defs.deep_view() == names,
                cc_defines_of(cc) == flag_defines(names.take(i as int)),
                cc_files_of(cc) == Seq::<Seq<char>>::empty(),
                cc_header_dirs_of(cc) == Seq::<Seq<char>>::empty(),
                cc_std_of(cc) == spec_select_std(family, p.spec_standards()),
                cc_warnings_of(cc) == Some(true),
                cc_extra_warnings_of(cc) == Some(true),
                cc_host_of(cc) is None,
                cc_out_dir_of(cc) is None,
                cc_opt_level_of(cc) is None,
                cc_debug_of(cc) is None,
            decreases defs@.len() - i,
        {
            driver::cc_define(&mut cc, defs[i].as_str(), None);
            proof {
                assert(defs@[i as int]@ == names[i as int]);
                assert(cc_defines_of(cc) =~= flag_defines(names.take(i + 1)));
            }
            i = i + 1;
        }
        proof {
            assert(names.take(names.len() as int) =~= names);
        }
        Ok(Builder { cc })
    }

    /// Run the compiler over the accumulated descriptor, producing a static
    /// library named `output`.  The descriptor is not consumed: the call
    /// can be repeated.  Success depends on the toolchain and the sources
    /// on disk; on failure the toolchain's error is surfaced.
    pub fn try_compile(&self, output: &str) -> Result<(), BuildError> {
        match driver::cc_try_compile(&self.cc, output) {
            Ok(()) => Ok(()),
            Err(e) => Err(BuildError::from_cc(&e)),
        }
    }

    /// Set the host assumed by this configuration.
    pub fn host(&mut self, host: &str)
        ensures
            final(self).host_sel() == Some(host@),
            same_lists(*old(self), *final(self)),
            final(self).std_sel() == old(self).std_sel(),
            final(self).warnings_sel() == old(self).warnings_sel(),
            final(self).extra_warnings_sel() == old(self).extra_warnings_sel(),
            final(self).out_dir_sel() == old(self).out_dir_sel(),
            final(self).opt_level_sel() == old(self).opt_level_sel(),
            final(self).debug_sel() == old(self).debug_sel(),
    {
        driver::cc_host(&mut self.cc, host);
    }

    /// Set the output directory where all object files and static
    /// libraries will be located.
    pub fn out_dir(&mut self, path: &str)
        ensures
            final(self).out_dir_sel() == Some(path@),
            same_lists(*old(self), *final(self)),
            final(self).std_sel() == old(self).std_sel(),
            final(self).warnings_sel() == old(self).warnings_sel(),
            final(self).extra_warnings_sel() == old(self).extra_warnings_sel(),
            final(self).host_sel() == old(self).host_sel(),
            final(self).opt_level_sel() == old(self).opt_level_sel(),
            final(self).debug_sel() == old(self).debug_sel(),
    {
        driver::cc_out_dir(&mut self.cc, path);
    }

    /// Set whether debug information should be emitted for this build.
    pub fn debug_info(&mut self, emit_debug_info: bool)
        ensures
            final(self).debug_sel() == Some(emit_debug_info),
            same_lists(*old(self), *final(self)),
            final(self).std_sel() == old(self).std_sel(),
            final(self).warnings_sel() == old(self).warnings_sel(),
            final(self).extra_warnings_sel() == old(self).extra_warnings_sel(),
            final(self).host_sel() == old(self).host_sel(),
            final(self).out_dir_sel() == old(self).out_dir_sel(),
            final(self).opt_level_sel() == old(self).opt_level_sel(),
    {
        driver::cc_debug(&mut self.cc, emit_debug_info);
    }

    /// Set the semi-arbitrary optimization level for the generated object
    /// files; its meaning is compiler-defined.
    pub fn opt_level(&mut self, opt_level: u32)
        ensures
            final(self).opt_level_sel() == Some(opt_level),
            same_lists(*old(self), *final(self)),
            final(self).std_sel() == old(self).std_sel(),
            final(self).warnings_sel() == old(self).warnings_sel(),
            final(self).extra_warnings_sel() == old(self).extra_warnings_sel(),
            final(self).host_sel() == old(self).host_sel(),
            final(self).out_dir_sel() == old(self).out_dir_sel(),
            final(self).debug_sel() == old(self).debug_sel(),
    {
        driver::cc_opt_level(&mut self.cc, opt_level);
    }

    /// Add one header search directory.
    pub fn header_dir(&mut self, dir: &str)
        ensures
            final(self).header_dirs() == old(self).header_dirs().push(dir@),
            final(self).defines() == old(self).defines(),
            final(self).files() == old(self).files(),
            same_scalars(*old(self), *final(self)),
    {
        driver::cc_header_dir(&mut self.cc, dir);
    }

    /// Add multiple header search directories, in order.
    pub fn add_header_dirs(&mut self, dirs: &Vec<String>)
        ensures
            final(self).header_dirs() == old(self).header_dirs() + dirs.deep_view(),
            final(self).defines() == old(self).defines(),
            final(self).files() == old(self).files(),
            same_scalars(*old(self), *final(self)),
    {
        let mut i: usize = 0;
        proof {
            assert(self.header_dirs() =~= old(self).header_dirs() + dirs.deep_view().take(0));
        }
        while i < dirs.len()
            invariant
                i <= dirs@.len(),
                self.header_dirs() == old(self).header_dirs() + dirs.deep_view().take(i as int),
                self.defines() == old(self).defines(),
                self.files() == old(self).files(),
                same_scalars(*old(self), *self),
            decreases dirs@.len() - i,
        {
            self.header_dir(dirs[i].as_str());
            proof {
                assert(self.header_dirs() =~= old(self).header_dirs() + dirs.deep_view().take(
                    i + 1,
                ));
            }
            i = i + 1;
        }
        proof {
            assert(dirs.deep_view().take(dirs@.len() as int) =~= dirs.deep_view());
        }
    }

    /// Add a preprocessor symbol with no value.
    pub(crate) fn define_flag(&mut self, flag: &str)
        ensures
            final(self).defines() == flag_applied(old(self).defines(), flag@),
            same_sources(*old(self), *final(self)),
            same_scalars(*old(self), *final(self)),
    {
        driver::cc_define(&mut self.cc, flag, None);
    }

    /// Add a preprocessor symbol whose value is inserted verbatim; the
    /// caller is responsible for it being valid preprocessor-expansion
    /// text.
    pub(crate) fn define_lit(&mut self, ident: &str, data: &str)
        ensures
            final(self).defines() == lit_applied(old(self).defines(), ident@, data@),
            same_sources(*old(self), *final(self)),
            same_scalars(*old(self), *final(self)),
    {
        driver::cc_define(&mut self.cc, ident, Some(data));
    }

    /// Add a preprocessor symbol whose value is `data` rendered as a
    /// quoted C string literal, with backslashes and quotes escaped so the
    /// compiled program reads back exactly `data`.
    pub(crate) fn define_str(&mut self, ident: &str, data: &str)
        ensures
            final(self).defines() == str_applied(old(self).defines(), ident@, data@),
            same_sources(*old(self), *final(self)),
            same_scalars(*old(self), *final(self)),
    {
        let escaped_text = escape_c_string(data);
        let mut value = String::from_str("\"");
        value.append(escaped_text.as_str());
        value.append("\"");
        proof {
            reveal_strlit("\"");
            assert(value@ =~= quoted(escaped(data@)));
        }
        self.define_lit(ident, value.as_str());
    }

    /// Enable compatibility with Lua 5.3.
    pub fn compat_lua_5_3(&mut self)
        ensures
            final(self).defines() == flag_applied(old(self).defines(), "LUA_COMPAT_5_3"@),
            same_sources(*old(self), *final(self)),
            same_scalars(*old(self), *final(self)),
    {
        self.define_flag("LUA_COMPAT_5_3");
    }

    /// Have several deprecated functions stay in the `math` library.
    pub fn compat_math_lib(&mut self)
        ensures
            final(self).defines() == flag_applied(old(self).defines(), "LUA_COMPAT_MATH_LIB"@),
            same_sources(*old(self), *final(self)),
            same_scalars(*old(self), *final(self)),
    {
        self.define_flag("LUA_COMPAT_MATH_LIB");
    }

    /// Emulate the `__le` metamethod using `__lt`.
    pub fn compat_lt_le(&mut self)
        ensures
            final(self).defines() == flag_applied(old(self).defines(), "LUA_COMPAT_LT_LE"@),
            same_sources(*old(self), *final(self)),
            same_scalars(*old(self), *final(self)),
    {
        self.define_flag("LUA_COMPAT_LT_LE");
    }

    /// Enable several consistency checks in the API.
    pub fn api_checks(&mut self)
        ensures
            final(self).defines() == flag_applied(old(self).defines(), "LUA_USE_APICHECK"@),
            same_sources(*old(self), *final(self)),
            same_scalars(*old(self), *final(self)),
    {
        self.define_flag("LUA_USE_APICHECK");
    }

    /// Set the default path that Lua uses to look for Lua libraries.
    pub fn lua_lib_path(&mut self, path: &str)
        ensures
            final(self).defines() == str_applied(old(self).defines(), "LUA_PATH_DEFAULT"@, path@),
            same_sources(*old(self), *final(self)),
            same_scalars(*old(self), *final(self)),
    {
        self.define_str("LUA_PATH_DEFAULT", path);
    }

    /// Set the default path that Lua uses to look for C libraries.
    pub fn lua_c_lib_path(&mut self, path: &str)
        ensures
            final(self).defines() == str_applied(old(self).defines(), "LUA_CPATH_DEFAULT"@, path@),
            same_sources(*old(self), *final(self)),
            same_scalars(*old(self), *final(self)),
    {
        self.define_str("LUA_CPATH_DEFAULT", path);
    }

    /// Set the directory separator for `require` submodules.
    pub fn dir_separator(&mut self, sep: &str)
        ensures
            final(self).defines() == str_applied(old(self).defines(), "LUA_DIRSEP"@, sep@),
            same_sources(*old(self), *final(self)),
            same_scalars(*old(self), *final(self)),
    {
        self.define_str("LUA_DIRSEP", sep);
    }

    /// Enable Unicode identifiers.
    ///
    /// This define is not part of the interpreter's documented
    /// configuration surface, but its lexer's character-table source reads
    /// it when building the identifier table.
    pub fn unicode_identifiers(&mut self)
        ensures
            final(self).defines() == flag_applied(old(self).defines(), "LUA_UCID"@),
            same_sources(*old(self), *final(self)),
            same_scalars(*old(self), *final(self)),
    {
        self.define_flag("LUA_UCID");
    }

    /// Use additional configuration provided by a [`LuaConf`] in this
    /// build: each set field contributes its define, each unset field
    /// contributes nothing.
    pub fn lua_conf(&mut self, conf: &LuaConf)
        ensures
            final(self).defines() == old(self).defines() + conf_defines(*conf),
            same_sources(*old(self), *final(self)),
            same_scalars(*old(self), *final(self)),
    {
        if conf.no_number_to_string {
            self.define_flag("LUNKA_NOCVTN2S");
        }
        if conf.no_string_to_number {
            self.define_flag("LUNKA_NOCVTS2N");
        }
        if let Some(extra_space) = &conf.extra_space {
            self.define_lit("LUNKA_EXTRASPACE", extra_space.as_str());
        }
        if let Some(id_size) = &conf.id_size {
            self.define_lit("LUNKA_IDSIZE", id_size.as_str());
        }
        proof {
            assert(self.defines() =~= old(self).defines() + conf_defines(*conf));
        }
    }

    /// Add the Lua source files found among the entries of a directory
    /// under the arbitrary-tree policy: regular `.c` files that are not an
    /// executable entry point, in directory order.
    pub fn add_lua_src_entries(&mut self, entries: &Vec<SrcEntry>)
        ensures
            final(self).files() == old(self).files() + lua_kept_paths(entries@),
            final(self).defines() == old(self).defines(),
            final(self).header_dirs() == old(self).header_dirs(),
            same_scalars(*old(self), *final(self)),
    {
        let paths = lua_source_paths(entries);
        self.add_files(&paths);
        proof {
            assert(old(self).files() + paths.deep_view() == old(self).files() + lua_kept_paths(
                entries@,
            ));
        }
    }

    /// Add the bundled source tree, given its header directory and the
    /// entries of its source directory: the header directory becomes a
    /// header search directory (never a source), and every regular file of
    /// the source directory is added, whatever its extension.
    pub fn add_lunka_src_entries(&mut self, headers: &str, entries: &Vec<SrcEntry>)
        ensures
            final(self).header_dirs() == old(self).header_dirs().push(headers@),
            final(self).files() == old(self).files() + bundled_kept_paths(entries@),
            final(self).defines() == old(self).defines(),
            same_scalars(*old(self), *final(self)),
    {
        self.header_dir(headers);
        let paths = crate::sources::bundled_source_paths(entries);
        self.add_files(&paths);
    }

    /// Add every path of `paths` to the file list, in order.
    fn add_files(&mut self, paths: &Vec<String>)
        ensures
            final(self).files() == old(self).files() + paths.deep_view(),
            final(self).defines() == old(self).defines(),
            final(self).header_dirs() == old(self).header_dirs(),
            same_scalars(*old(self), *final(self)),
    {
        let mut i: usize = 0;
        proof {
            assert(self.files() =~= old(self).files() + paths.deep_view().take(0));
        }
        while i < paths.len()
            invariant
                i <= paths@.len(),
                self.files() == old(self).files() + paths.deep_view().take(i as int),
                self.defines() == old(self).defines(),
                self.header_dirs() == old(self).header_dirs(),
                same_scalars(*old(self), *self),
            decreases paths@.len() - i,
        {
            driver::cc_file(&mut self.cc, paths[i].as_str());
            proof {
                assert(paths@[i as int]@ == paths.deep_view()[i as int]);
                assert(self.files() =~= old(self).files() + paths.deep_view().take(i + 1));
            }
            i = i + 1;
        }
        proof {
            assert(paths.deep_view().take(paths@.len() as int) =~= paths.deep_view());
        }
    }
}

/// Issuing the same named flag twice records its define twice: define
/// application accumulates and never deduplicates, so a repeated feature
/// call leaves two identical entries behind the first `d.len()` ones.
pub proof fn lemma_flag_application_accumulates(
    d: Seq<(Seq<char>, Option<Seq<char>>)>,
    name: Seq<char>,
)
    ensures
        flag_applied(flag_applied(d, name), name).len() == d.len() + 2,
        flag_applied(flag_applied(d, name), name)[d.len() as int] == (
            name,
            Option::<Seq<char>>::None,
        ),
        flag_applied(flag_applied(d, name), name)[d.len() as int + 1] == (
            name,
            Option::<Seq<char>>::None,
        ),
        flag_applied(flag_applied(d, name), name).take(d.len() as int) == d,
{
    assert(flag_applied(flag_applied(d, name), name).take(d.len() as int) =~= d);
}

} // verus!
