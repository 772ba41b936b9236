use target_info::flags::{Config, TargetConfig};
use target_info::kinds::{
    CompileKind, CompileTarget, Dependency, PlatformSpec, ProcessOutcome, Rustc,
};
use target_info::data::RustcTargetData;

const HOST: &str = "x86_64-unknown-linux-gnu";
const TARGET: &str = "aarch64-unknown-linux-gnu";

fn empty_config() -> Config {
    Config {
        env_rustflags: None,
        env_rustdocflags: None,
        target_configs: Vec::new(),
        cfg_sections: Vec::new(),
        build_rustflags: None,
        build_rustdocflags: None,
    }
}

fn rustc() -> Rustc {
    Rustc { path: "rustc".to_string(), host: HOST.to_string() }
}

fn host_stdout() -> String {
    "___\nlib___.rlib\nlib___.so\nlib___.so\nlib___.a\nlib___.so\n/opt/sysroot\nunix\ntarget_os=\"linux\"\n"
        .to_string()
}

fn target_stdout() -> String {
    "___\nlib___.rlib\nlib___.so\nlib___.so\nlib___.a\nlib___.so\n/opt/sysroot\nunix\ntarget_arch=\"aarch64\"\n"
        .to_string()
}

fn host_only_data(config: &Config) -> RustcTargetData {
    let host_probe =
        ProcessOutcome::Success { stdout: host_stdout(), stderr: "".to_string() };
    RustcTargetData::new(config, rustc(), &CompileKind::Host, false, &host_probe, true, None)
        .unwrap()
}

#[test]
fn host_only_data_answers_queries() {
    let c = empty_config();
    let d = host_only_data(&c);
    assert_eq!(d.short_name(&CompileKind::Host), HOST);
    let info = d.info(&CompileKind::Host);
    assert_eq!(info.sysroot, "/opt/sysroot");
    assert_eq!(info.supports_bitcode_in_rlib, Some(true));
    let cfg = d.cfg(&CompileKind::Host);
    assert_eq!(cfg.len(), 2);
    let tc: &TargetConfig = d.target_config(&CompileKind::Host);
    assert_eq!(tc.rustflags, None);
    assert_eq!(tc.rustdocflags, None);
}

#[test]
fn host_config_snapshot_comes_from_the_store() {
    let mut c = empty_config();
    c.target_configs.push((
        HOST.to_string(),
        TargetConfig {
            rustflags: Some(vec!["--snap".to_string()]),
            rustdocflags: None,
        },
    ));
    let d = host_only_data(&c);
    let tc = d.target_config(&CompileKind::Host);
    assert_eq!(tc.rustflags, Some(vec!["--snap".to_string()]));
}

#[test]
fn dependency_activation_by_name_and_cfg() {
    let c = empty_config();
    let d = host_only_data(&c);
    let unrestricted = Dependency { platform: None };
    assert!(d.dep_platform_activated(&unrestricted, &CompileKind::Host));
    let by_name = Dependency { platform: Some(PlatformSpec::Name(HOST.to_string())) };
    assert!(d.dep_platform_activated(&by_name, &CompileKind::Host));
    let other_name =
        Dependency { platform: Some(PlatformSpec::Name("x86_64-pc-windows-msvc".to_string())) };
    assert!(!d.dep_platform_activated(&other_name, &CompileKind::Host));
    let unix_only = Dependency { platform: Some(PlatformSpec::CfgKey("cfg(unix)".to_string())) };
    assert!(d.dep_platform_activated(&unix_only, &CompileKind::Host));
    let windows_only =
        Dependency { platform: Some(PlatformSpec::CfgKey("cfg(windows)".to_string())) };
    assert!(!d.dep_platform_activated(&windows_only, &CompileKind::Host));
    let os_match = Dependency {
        platform: Some(PlatformSpec::CfgKey("cfg(target_os = \"linux\")".to_string())),
    };
    assert!(d.dep_platform_activated(&os_match, &CompileKind::Host));
    let not_unix =
        Dependency { platform: Some(PlatformSpec::CfgKey("cfg(not(unix))".to_string())) };
    assert!(!d.dep_platform_activated(&not_unix, &CompileKind::Host));
}

#[test]
fn target_data_keeps_host_and_target_apart() {
    let c = empty_config();
    let requested = CompileKind::Target(CompileTarget { name: TARGET.to_string() });
    let host_probe =
        ProcessOutcome::Success { stdout: host_stdout(), stderr: "".to_string() };
    let target_probe =
        ProcessOutcome::Success { stdout: target_stdout(), stderr: "".to_string() };
    let d = RustcTargetData::new(
        &c,
        rustc(),
        &requested,
        false,
        &host_probe,
        false,
        Some(&target_probe),
    )
    .unwrap();
    assert_eq!(d.short_name(&requested), TARGET);
    assert_eq!(d.short_name(&CompileKind::Host), HOST);
    let tinfo = d.info(&requested);
    // the feature probe runs only for the host platform
    assert_eq!(tinfo.supports_bitcode_in_rlib, None);
    assert_eq!(
        tinfo.sysroot_target_libdir,
        "/opt/sysroot/lib/rustlib/aarch64-unknown-linux-gnu/lib"
    );
    let hinfo = d.info(&CompileKind::Host);
    assert_eq!(hinfo.supports_bitcode_in_rlib, Some(false));
    let arch = Dependency {
        platform: Some(PlatformSpec::CfgKey("cfg(target_arch = \"aarch64\")".to_string())),
    };
    assert!(d.dep_platform_activated(&arch, &requested));
    assert!(!d.dep_platform_activated(&arch, &CompileKind::Host));
}

#[test]
fn failed_target_probe_fails_construction() {
    let c = empty_config();
    let requested = CompileKind::Target(CompileTarget { name: TARGET.to_string() });
    let host_probe =
        ProcessOutcome::Success { stdout: host_stdout(), stderr: "".to_string() };
    let target_probe = ProcessOutcome::Failure { message: "bad target".to_string() };
    let r = RustcTargetData::new(
        &c,
        rustc(),
        &requested,
        false,
        &host_probe,
        false,
        Some(&target_probe),
    );
    assert!(r.is_err());
}
