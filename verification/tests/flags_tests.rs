use target_info::cfg::CfgPred;
use target_info::flags::{env_args, CfgSection, Config, FlagFamily, TargetConfig};
use target_info::kinds::{CompileKind, CompileTarget};

fn empty_config() -> Config {
    Config {
        env_rustflags: None,
        env_rustdocflags: None,
        target_configs: Vec::new(),
        cfg_sections: Vec::new(),
        build_rustflags: None,
        build_rustdocflags: None,
    }
}

fn strs(v: &[&str]) -> Vec<String> {
    v.iter().map(|s| s.to_string()).collect()
}

fn pred(name: &str) -> CfgPred {
    CfgPred { name: name.to_string(), value: None }
}

fn pred_kv(name: &str, value: &str) -> CfgPred {
    CfgPred { name: name.to_string(), value: Some(value.to_string()) }
}

const HOST: &str = "x86_64-unknown-linux-gnu";

#[test]
fn env_override_wins_over_config() {
    let mut c = empty_config();
    c.env_rustflags = Some("-C a -C b".to_string());
    c.target_configs
        .push((HOST.to_string(), TargetConfig {
            rustflags: Some(strs(&["--conflicting"])),
            rustdocflags: None,
        }));
    c.build_rustflags = Some(strs(&["--also-conflicting"]));
    let r = env_args(&c, &CompileKind::Host, HOST, None, &CompileKind::Host, FlagFamily::Rustflags);
    assert_eq!(r, strs(&["-C", "a", "-C", "b"]));
}

#[test]
fn env_override_set_to_empty_yields_empty() {
    let mut c = empty_config();
    c.env_rustflags = Some("".to_string());
    c.build_rustflags = Some(strs(&["--fallback"]));
    let r = env_args(&c, &CompileKind::Host, HOST, None, &CompileKind::Host, FlagFamily::Rustflags);
    assert_eq!(r, strs(&[]));
}

#[test]
fn env_tokens_are_trimmed_and_empties_dropped() {
    let mut c = empty_config();
    c.env_rustflags = Some("  -C   a\t ".to_string());
    let r = env_args(&c, &CompileKind::Host, HOST, None, &CompileKind::Host, FlagFamily::Rustflags);
    assert_eq!(r, strs(&["-C", "a"]));
}

#[test]
fn cross_compilation_guard_empties_host_flags() {
    let mut c = empty_config();
    c.target_configs
        .push((HOST.to_string(), TargetConfig {
            rustflags: Some(strs(&["--host-scoped"])),
            rustdocflags: None,
        }));
    c.build_rustflags = Some(strs(&["--global"]));
    let requested = CompileKind::Target(CompileTarget { name: "wasm32-unknown-unknown".to_string() });
    let r = env_args(&c, &requested, HOST, None, &CompileKind::Host, FlagFamily::Rustflags);
    assert_eq!(r, strs(&[]));
    // resolving for the target itself still sees its config
    let mut c2 = empty_config();
    c2.target_configs
        .push(("wasm32-unknown-unknown".to_string(), TargetConfig {
            rustflags: Some(strs(&["--target-scoped"])),
            rustdocflags: None,
        }));
    let target = CompileKind::Target(CompileTarget { name: "wasm32-unknown-unknown".to_string() });
    let r2 = env_args(&c2, &requested, HOST, None, &target, FlagFamily::Rustflags);
    assert_eq!(r2, strs(&["--target-scoped"]));
}

#[test]
fn predicate_scoped_flags_union_with_direct() {
    let mut c = empty_config();
    c.target_configs
        .push((HOST.to_string(), TargetConfig {
            rustflags: Some(strs(&["--direct"])),
            rustdocflags: None,
        }));
    c.cfg_sections.push(CfgSection {
        key: "cfg(unix)".to_string(),
        rustflags: Some(strs(&["--scoped"])),
        rustdocflags: None,
    });
    c.cfg_sections.push(CfgSection {
        key: "cfg(windows)".to_string(),
        rustflags: Some(strs(&["--not-matching"])),
        rustdocflags: None,
    });
    c.build_rustflags = Some(strs(&["--global"]));
    let preds = vec![pred("unix"), pred_kv("target_os", "linux")];
    let r = env_args(
        &c,
        &CompileKind::Host,
        HOST,
        Some(&preds),
        &CompileKind::Host,
        FlagFamily::Rustflags,
    );
    assert_eq!(r, strs(&["--direct", "--scoped"]));
}

#[test]
fn predicate_scoped_flags_need_a_predicate_list() {
    let mut c = empty_config();
    c.cfg_sections.push(CfgSection {
        key: "cfg(unix)".to_string(),
        rustflags: Some(strs(&["--scoped"])),
        rustdocflags: None,
    });
    c.build_rustflags = Some(strs(&["--global"]));
    // bootstrap pass: no predicates yet, so the section is not consulted and
    // the empty union falls through to the global fallback
    let r = env_args(&c, &CompileKind::Host, HOST, None, &CompileKind::Host, FlagFamily::Rustflags);
    assert_eq!(r, strs(&["--global"]));
}

#[test]
fn empty_union_falls_through_to_global() {
    let mut c = empty_config();
    c.cfg_sections.push(CfgSection {
        key: "cfg(windows)".to_string(),
        rustflags: Some(strs(&["--not-matching"])),
        rustdocflags: None,
    });
    c.build_rustflags = Some(strs(&["--global"]));
    let preds = vec![pred("unix")];
    let r = env_args(
        &c,
        &CompileKind::Host,
        HOST,
        Some(&preds),
        &CompileKind::Host,
        FlagFamily::Rustflags,
    );
    assert_eq!(r, strs(&["--global"]));
    // and with nothing configured at all, the result is empty
    let r2 = env_args(
        &empty_config(),
        &CompileKind::Host,
        HOST,
        Some(&preds),
        &CompileKind::Host,
        FlagFamily::Rustflags,
    );
    assert_eq!(r2, strs(&[]));
}

#[test]
fn key_value_predicates_match_cfg_expressions() {
    let mut c = empty_config();
    c.cfg_sections.push(CfgSection {
        key: "cfg(target_os = \"linux\")".to_string(),
        rustflags: Some(strs(&["--linux-only"])),
        rustdocflags: None,
    });
    let preds = vec![pred_kv("target_os", "linux")];
    let r = env_args(
        &c,
        &CompileKind::Host,
        HOST,
        Some(&preds),
        &CompileKind::Host,
        FlagFamily::Rustflags,
    );
    assert_eq!(r, strs(&["--linux-only"]));
}

#[test]
fn doc_flags_resolve_from_their_own_family() {
    let mut c = empty_config();
    c.env_rustflags = Some("-C compile-only".to_string());
    c.build_rustdocflags = Some(strs(&["--doc-global"]));
    let r = env_args(
        &c,
        &CompileKind::Host,
        HOST,
        None,
        &CompileKind::Host,
        FlagFamily::Rustdocflags,
    );
    assert_eq!(r, strs(&["--doc-global"]));
}
