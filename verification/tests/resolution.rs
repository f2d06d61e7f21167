//! Platform resolution and dialect selection.

use lunka_build::platforms::{
    from_current_triple, from_target_triple, select_std, CompilerFamily, ConstPlatform, Linux,
    Platform, Standards,
};
use lunka_build::strutil::{str_contains, str_ends_with, str_eq};

#[test]
fn linux_triple_resolves_to_linux() {
    let p = from_target_triple("x86_64-unknown-linux-gnu").unwrap();
    assert_eq!(p.defines, vec!["LUA_USE_LINUX".to_string()]);
    assert_eq!(p.standards.gnu.as_deref(), Some("gnu99"));
    assert_eq!(p.standards.clang.as_deref(), Some("gnu99"));
    assert_eq!(p.standards.msvc.as_deref(), Some("c99"));
    assert_eq!(p.standards.clang_cl.as_deref(), Some("gnu99"));
}

#[test]
fn windows_triple_resolves_to_windows() {
    let p = from_target_triple("x86_64-pc-windows-msvc").unwrap();
    assert_eq!(p.defines, vec!["LUA_USE_WINDOWS".to_string()]);
}

#[test]
fn darwin_triple_resolves_to_macos() {
    let p = from_target_triple("aarch64-apple-darwin").unwrap();
    assert_eq!(p.defines, vec!["LUA_USE_MACOSX".to_string()]);
}

#[test]
fn solaris_triple_resolves_to_solaris() {
    let p = from_target_triple("sparc-sun-solaris2.11").unwrap();
    assert_eq!(
        p.defines,
        vec![
            "LUA_USE_POSIX".to_string(),
            "LUA_USE_DLOPEN".to_string(),
            "_REENTRANT".to_string()
        ]
    );
}

#[test]
fn ios_triple_resolves_to_ios() {
    let p = from_target_triple("aarch64-apple-ios").unwrap();
    assert_eq!(p.defines, vec!["LUA_USE_IOS".to_string()]);
}

#[test]
fn bsd_suffix_resolves_to_freebsd_descriptor() {
    let p = from_target_triple("x86_64-unknown-freebsd").unwrap();
    assert_eq!(p.defines, vec!["LUA_USE_LINUX".to_string()]);
}

#[test]
fn unknown_triple_resolves_to_nothing() {
    assert!(from_target_triple("unknown-unknown-unknown").is_none());
}

#[test]
fn first_matching_rule_wins() {
    let p = from_target_triple("windows-linux").unwrap();
    assert_eq!(p.defines, vec!["LUA_USE_LINUX".to_string()]);
}

#[test]
fn resolution_is_pure() {
    let a = from_target_triple("x86_64-unknown-linux-gnu");
    let b = from_target_triple("x86_64-unknown-linux-gnu");
    assert_eq!(a, b);
    let c = from_target_triple("unknown-unknown-unknown");
    let d = from_target_triple("unknown-unknown-unknown");
    assert_eq!(c, d);
}

#[test]
fn current_triple_resolution_is_stable() {
    let a = from_current_triple();
    let b = from_current_triple();
    assert_eq!(a, b);
}

#[test]
fn platform_trait_reports_const_data() {
    let p = Linux;
    assert_eq!(p.defines(), vec!["LUA_USE_LINUX".to_string()]);
    assert_eq!(p.standards(), Linux::platform_standards());
}

#[test]
fn select_std_reads_exactly_one_field() {
    let s = Standards::common();
    assert_eq!(select_std(CompilerFamily::Gnu, &s).as_deref(), Some("gnu99"));
    assert_eq!(select_std(CompilerFamily::Clang, &s).as_deref(), Some("gnu99"));
    assert_eq!(select_std(CompilerFamily::Msvc, &s).as_deref(), Some("c99"));
    assert_eq!(select_std(CompilerFamily::ClangCl, &s).as_deref(), Some("gnu99"));
    assert_eq!(select_std(CompilerFamily::Unknown, &s), None);
}

#[test]
fn select_std_empty_field_requests_nothing() {
    let s = Standards::default();
    assert_eq!(select_std(CompilerFamily::Gnu, &s), None);
    assert_eq!(select_std(CompilerFamily::Msvc, &s), None);
}

#[test]
fn substring_and_suffix_tests() {
    assert!(str_contains("x86_64-unknown-linux-gnu", "linux"));
    assert!(!str_contains("x86_64-pc-windows-msvc", "linux"));
    assert!(str_contains("abc", ""));
    assert!(str_ends_with("x86_64-unknown-freebsd", "bsd"));
    assert!(str_contains("sparc-sun-solaris2.11", "solaris"));
    assert!(str_ends_with("solaris", "solaris"));
    assert!(!str_ends_with("bsd", "freebsd"));
    assert!(str_eq("lua.c", "lua.c"));
    assert!(!str_eq("lua.c", "luac.c"));
}
