//! String-define escaping, secondary configuration, and source-set
//! assembly.

use lunka_build::escape::escape_c_string;
use lunka_build::sources::{
    bundled_source_paths, keep_bundled_source, keep_lua_source, lua_source_paths, EntryKind,
    SrcEntry,
};
use lunka_build::LuaConf;

fn entry(kind: EntryKind, name: &str, path: &str) -> SrcEntry {
    SrcEntry { kind, name: Some(name.to_string()), path: path.to_string() }
}

/// Read back the inside of a C string literal the way a C compiler does:
/// a backslash makes the next character stand for itself.
fn c_unescape(s: &str) -> String {
    let mut out = String::new();
    let mut it = s.chars();
    while let Some(c) = it.next() {
        if c == '\\' {
            match it.next() {
                Some(n) => out.push(n),
                None => out.push(c),
            }
        } else {
            out.push(c);
        }
    }
    out
}

#[test]
fn escaping_doubles_backslashes_then_escapes_quotes() {
    assert_eq!(escape_c_string(r#"C:\path"with"quotes"#), r#"C:\\path\"with\"quotes"#);
}

#[test]
fn escaping_round_trips() {
    let samples = [
        r#"C:\path"with"quotes"#,
        r#"\\"#,
        r#""""#,
        r#"\""#,
        "plain text",
        "",
        "/usr/local/share/lua/5.4/?.lua",
    ];
    for s in samples {
        assert_eq!(c_unescape(&escape_c_string(s)), s.to_string());
    }
}

#[test]
fn escaping_leaves_plain_text_alone() {
    assert_eq!(escape_c_string("/usr/share/lua"), "/usr/share/lua".to_string());
    assert_eq!(escape_c_string(""), String::new());
}

#[test]
fn conf_with_only_extra_space_adds_exactly_one_define() {
    let conf = LuaConf {
        no_number_to_string: false,
        no_string_to_number: false,
        extra_space: Some("sizeof(void*)".to_string()),
        id_size: None,
    };
    let defines = conf.defines();
    assert_eq!(defines, vec![("LUNKA_EXTRASPACE".to_string(), Some("sizeof(void*)".to_string()))]);
}

#[test]
fn conf_default_adds_no_defines() {
    let conf = LuaConf::default();
    assert!(conf.defines().is_empty());
}

#[test]
fn conf_boolean_fields_become_flag_defines() {
    let conf = LuaConf {
        no_number_to_string: true,
        no_string_to_number: true,
        extra_space: None,
        id_size: None,
    };
    let defines = conf.defines();
    assert_eq!(
        defines,
        vec![("LUNKA_NOCVTN2S".to_string(), None), ("LUNKA_NOCVTS2N".to_string(), None)]
    );
}

#[test]
fn conf_all_fields_contribute_in_order() {
    let conf = LuaConf {
        no_number_to_string: true,
        no_string_to_number: true,
        extra_space: Some("64".to_string()),
        id_size: Some("128".to_string()),
    };
    let defines = conf.defines();
    assert_eq!(
        defines,
        vec![
            ("LUNKA_NOCVTN2S".to_string(), None),
            ("LUNKA_NOCVTS2N".to_string(), None),
            ("LUNKA_EXTRASPACE".to_string(), Some("64".to_string())),
            ("LUNKA_IDSIZE".to_string(), Some("128".to_string())),
        ]
    );
}

#[test]
fn arbitrary_tree_keeps_only_plain_c_sources() {
    let entries = vec![
        entry(EntryKind::File, "foo.c", "root/foo.c"),
        entry(EntryKind::File, "bar.h", "root/bar.h"),
        entry(EntryKind::File, "lua.c", "root/lua.c"),
        entry(EntryKind::File, "luac.c", "root/luac.c"),
        entry(EntryKind::Directory, "sub", "root/sub"),
    ];
    assert_eq!(lua_source_paths(&entries), vec!["root/foo.c".to_string()]);
}

#[test]
fn arbitrary_tree_skips_unreadable_names_and_odd_entries() {
    let entries = vec![
        SrcEntry { kind: EntryKind::File, name: None, path: "root/???".to_string() },
        entry(EntryKind::Other, "link.c", "root/link.c"),
        entry(EntryKind::File, "ok.c", "root/ok.c"),
    ];
    assert_eq!(lua_source_paths(&entries), vec!["root/ok.c".to_string()]);
}

#[test]
fn bundled_tree_keeps_every_regular_file() {
    let entries = vec![
        entry(EntryKind::File, "lapi.c", "lua/src/lapi.c"),
        entry(EntryKind::File, "lapi.h", "lua/src/lapi.h"),
        entry(EntryKind::File, "lauxlib.c", "lua/src/lauxlib.c"),
        entry(EntryKind::Directory, "extras", "lua/src/extras"),
    ];
    assert_eq!(
        bundled_source_paths(&entries),
        vec![
            "lua/src/lapi.c".to_string(),
            "lua/src/lapi.h".to_string(),
            "lua/src/lauxlib.c".to_string(),
        ]
    );
}

#[test]
fn keep_decisions_match_policies() {
    assert!(keep_lua_source(&entry(EntryKind::File, "x.c", "x.c")));
    assert!(!keep_lua_source(&entry(EntryKind::File, "lua.c", "lua.c")));
    assert!(!keep_lua_source(&entry(EntryKind::File, "luac.c", "luac.c")));
    assert!(!keep_lua_source(&entry(EntryKind::File, "x.h", "x.h")));
    assert!(!keep_lua_source(&entry(EntryKind::Directory, "x.c", "x.c")));
    assert!(keep_bundled_source(&entry(EntryKind::File, "x.h", "x.h")));
    assert!(!keep_bundled_source(&entry(EntryKind::Directory, "d", "d")));
}
