//! Additional configuration for Lua that cannot be expressed as plain
//! command-line flag defines: settings whose preprocessor symbols carry
//! literal values, plus two coercion toggles.
//!
//! The bundled source tree's configuration header reacts to these symbols
//! with `#if defined(...)` guards; a normal Lua source distribution does not,
//! so this structure is only meaningful together with the bundled tree.

use vstd::prelude::*;

verus! {

/// Additional configuration for a Lua build.
///
/// Each field is independently optional: a field that is unset (or `false`)
/// contributes no preprocessor define at all.
#[derive(Debug)]
pub struct LuaConf {
    /// `true` to disable automatic coercion from numbers to strings.
    ///
    /// This corresponds to `LUNKA_NOCVTN2S` for `LUA_NOCVTN2S`.
    pub no_number_to_string: bool,
    /// `true` to disable automatic coercion from strings to numbers.
    ///
    /// This corresponds to `LUNKA_NOCVTS2N` for `LUA_NOCVTS2N`.
    pub no_string_to_number: bool,
    /// Size of the raw memory area associated with a Lua state with very
    /// fast access, as a literal C expression.
    ///
    /// This corresponds to `LUNKA_EXTRASPACE` for `LUA_EXTRASPACE`.
    pub extra_space: Option<String>,
    /// Maximum size for the description of the source of a function in
    /// debug information, as a literal C expression.
    ///
    /// This corresponds to `LUNKA_IDSIZE` for `LUA_IDSIZE`.
    pub id_size: Option<String>,
}

impl Default for LuaConf {
    /// The configuration that leaves every setting at Lua's own default.
    fn default() -> (r: Self)
        ensures
            !r.no_number_to_string,
            !r.no_string_to_number,
            r.extra_space is None,
            r.id_size is None,
    {
        LuaConf {
            no_number_to_string: false,
            no_string_to_number: false,
            extra_space: None,
            id_size: None,
        }
    }
}

/// The defines a configuration contributes, in the order they are issued:
/// each boolean field contributes its flag define exactly when `true`, each
/// literal field contributes its valued define exactly when set.
pub open spec fn conf_defines(c: LuaConf) -> Seq<(Seq<char>, Option<Seq<char>>)> {
    (if c.no_number_to_string {
        seq![("LUNKA_NOCVTN2S"@, Option::<Seq<char>>::None)]
    } else {
        Seq::<(Seq<char>, Option<Seq<char>>)>::empty()
    }) + (if c.no_string_to_number {
        seq![("LUNKA_NOCVTS2N"@, Option::<Seq<char>>::None)]
    } else {
        Seq::<(Seq<char>, Option<Seq<char>>)>::empty()
    }) + (match c.extra_space {
        Some(s) => seq![("LUNKA_EXTRASPACE"@, Some(s@))],
        None => Seq::<(Seq<char>, Option<Seq<char>>)>::empty(),
    }) + (match c.id_size {
        Some(s) => seq![("LUNKA_IDSIZE"@, Some(s@))],
        None => Seq::<(Seq<char>, Option<Seq<char>>)>::empty(),
    })
}

impl LuaConf {
    /// The define list this configuration stands for, as concrete values.
    pub fn defines(&self) -> (r: Vec<(String, Option<String>)>)
        ensures
            r.deep_view() == conf_defines(*self),
    {
        let mut r: Vec<(String, Option<String>)> = Vec::new();
        if self.no_number_to_string {
            r.push((String::from_str("LUNKA_NOCVTN2S"), None));
        }
        if self.no_string_to_number {
            r.push((String::from_str("LUNKA_NOCVTS2N"), None));
        }
        if let Some(s) = &self.extra_space {
            r.push((String::from_str("LUNKA_EXTRASPACE"), Some(s.clone())));
        }
        if let Some(s) = &self.id_size {
            r.push((String::from_str("LUNKA_IDSIZE"), Some(s.clone())));
        }
        proof {
            assert(r.deep_view() =~= conf_defines(*self));
        }
        r
    }
}

/// Application is all-or-nothing per field: a configuration with only
/// `extra_space` set contributes exactly one define, the valued
/// `LUNKA_EXTRASPACE`, and the other three fields contribute nothing.
pub proof fn lemma_conf_only_extra_space(c: LuaConf)
    requires
        !c.no_number_to_string,
        !c.no_string_to_number,
        c.extra_space is Some,
        c.id_size is None,
    ensures
        conf_defines(c) == seq![("LUNKA_EXTRASPACE"@, Some(c.extra_space->0@))],
{
    assert(conf_defines(c) =~= seq![("LUNKA_EXTRASPACE"@, Some(c.extra_space->0@))]);
}

/// A field left unset contributes nothing: the empty configuration
/// contributes no defines at all.
pub proof fn lemma_conf_empty(c: LuaConf)
    requires
        !c.no_number_to_string,
        !c.no_string_to_number,
        c.extra_space is None,
        c.id_size is None,
    ensures
        conf_defines(c) == Seq::<(Seq<char>, Option<Seq<char>>)>::empty(),
{
    assert(conf_defines(c) =~= Seq::<(Seq<char>, Option<Seq<char>>)>::empty());
}

} // verus!
