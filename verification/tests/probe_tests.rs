use target_info::errors::ProbeErrorKind;
use target_info::flags::Config;
use target_info::kinds::{CompileKind, CompileTarget, ProcessOutcome, Rustc, TargetKind};
use target_info::naming::FileFlavor;
use target_info::flags::CfgSection;
use target_info::probe::{batch_probe_args, bitcode_probe_args, probe_base_args, FileTypesReply, TargetInfo};

const HOST: &str = "x86_64-unknown-linux-gnu";

fn empty_config() -> Config {
    Config {
        env_rustflags: None,
        env_rustdocflags: None,
        target_configs: Vec::new(),
        cfg_sections: Vec::new(),
        build_rustflags: None,
        build_rustdocflags: None,
    }
}

fn rustc() -> Rustc {
    Rustc { path: "rustc".to_string(), host: HOST.to_string() }
}

fn linux_stdout() -> String {
    "___\nlib___.rlib\nlib___.so\nlib___.so\nlib___.a\nlib___.so\n/opt/sysroot\nunix\nproc_macro\ntarget_os=\"linux\"\n"
        .to_string()
}

fn host_info() -> TargetInfo {
    let c = empty_config();
    let probe = ProcessOutcome::Success { stdout: linux_stdout(), stderr: "".to_string() };
    TargetInfo::new(&c, &CompileKind::Host, &rustc(), &CompileKind::Host, false, &probe, Some(true))
        .unwrap()
}

#[test]
fn probe_args_have_the_documented_shape() {
    let c = empty_config();
    let base = probe_base_args(&c, &CompileKind::Host, &rustc(), &CompileKind::Host);
    assert_eq!(base, vec!["rustc", "-", "--crate-name", "___", "--print=file-names"]);
    let batch = batch_probe_args(&base);
    assert_eq!(
        batch,
        vec![
            "rustc",
            "-",
            "--crate-name",
            "___",
            "--print=file-names",
            "--crate-type",
            "bin",
            "--crate-type",
            "rlib",
            "--crate-type",
            "dylib",
            "--crate-type",
            "cdylib",
            "--crate-type",
            "staticlib",
            "--crate-type",
            "proc-macro",
            "--print=sysroot",
            "--print=cfg",
        ]
    );
    let bitcode = bitcode_probe_args(&c, &CompileKind::Host, &rustc(), &CompileKind::Host);
    assert_eq!(
        bitcode,
        vec!["rustc", "-", "--crate-name", "___", "--print=file-names", "-Cbitcode-in-rlib"]
    );
    let target = CompileKind::Target(CompileTarget { name: "wasm32-unknown-unknown".to_string() });
    let tbase = probe_base_args(&c, &target, &rustc(), &target);
    assert_eq!(
        tbase,
        vec![
            "rustc",
            "-",
            "--crate-name",
            "___",
            "--print=file-names",
            "--target",
            "wasm32-unknown-unknown",
        ]
    );
}

#[test]
fn successful_probe_populates_everything() {
    let ti = host_info();
    assert_eq!(ti.sysroot, "/opt/sysroot");
    assert_eq!(ti.sysroot_host_libdir, "/opt/sysroot/lib");
    assert_eq!(ti.sysroot_target_libdir, "/opt/sysroot/lib/rustlib/x86_64-unknown-linux-gnu/lib");
    assert_eq!(ti.supports_bitcode_in_rlib, Some(true));
    // the probe-artifact marker predicate is filtered out; the rest is kept
    let cfg = ti.cfg();
    assert_eq!(cfg.len(), 2);
    assert_eq!(cfg[0].name, "unix");
    assert_eq!(cfg[0].value, None);
    assert_eq!(cfg[1].name, "target_os");
    assert_eq!(cfg[1].value, Some("linux".to_string()));
}

#[test]
fn windows_host_uses_bin_subdirectory() {
    let c = empty_config();
    let probe = ProcessOutcome::Success { stdout: linux_stdout(), stderr: "".to_string() };
    let ti = TargetInfo::new(
        &c,
        &CompileKind::Host,
        &rustc(),
        &CompileKind::Host,
        true,
        &probe,
        Some(false),
    )
    .unwrap();
    assert_eq!(ti.sysroot_host_libdir, "/opt/sysroot/bin");
    assert_eq!(ti.supports_bitcode_in_rlib, Some(false));
}

#[test]
fn batch_answers_are_served_from_the_cache() {
    let ti = host_info();
    match ti.file_types("rlib", FileFlavor::Linkable { rmeta: false }, &TargetKind::Lib, HOST) {
        FileTypesReply::Known(Some(plan)) => {
            assert_eq!(plan.len(), 1);
            assert_eq!(plan[0].prefix, "lib");
            assert_eq!(plan[0].suffix, ".rlib");
        },
        _ => panic!("expected a cached answer for rlib"),
    }
}

#[test]
fn unsupported_type_in_batch_is_recorded_as_absent() {
    let c = empty_config();
    let stdout = "___\nlib___.rlib\nlib___.so\nlib___.so\nlib___.a\n/opt/sysroot\nunix\n";
    let stderr = "error: unsupported crate type `proc-macro` for this target";
    let probe =
        ProcessOutcome::Success { stdout: stdout.to_string(), stderr: stderr.to_string() };
    let ti = TargetInfo::new(
        &c,
        &CompileKind::Host,
        &rustc(),
        &CompileKind::Host,
        false,
        &probe,
        Some(true),
    )
    .unwrap();
    match ti.file_types("proc-macro", FileFlavor::Normal, &TargetKind::Lib, HOST) {
        FileTypesReply::Known(None) => {},
        _ => panic!("expected proc-macro to be known unsupported"),
    }
    assert_eq!(ti.sysroot, "/opt/sysroot");
}

#[test]
fn lazy_discovery_probes_once_and_memoizes() {
    let mut ti = host_info();
    // first query: not cached, the reply carries the probe command line
    let args = match ti.file_types("wasm", FileFlavor::Normal, &TargetKind::Lib, HOST) {
        FileTypesReply::NeedsProbe(args) => args,
        _ => panic!("expected a probe request for wasm"),
    };
    assert_eq!(
        args,
        vec!["rustc", "-", "--crate-name", "___", "--print=file-names", "--crate-type", "wasm"]
    );
    let outcome =
        ProcessOutcome::Success { stdout: "___.wasm\n".to_string(), stderr: "".to_string() };
    ti.record_crate_type("wasm", &outcome).unwrap();
    // second query: served from the cache, no probe requested
    match ti.file_types("wasm", FileFlavor::Normal, &TargetKind::Lib, HOST) {
        FileTypesReply::Known(Some(plan)) => {
            assert_eq!(plan.len(), 1);
            assert_eq!(plan[0].prefix, "");
            assert_eq!(plan[0].suffix, ".wasm");
        },
        _ => panic!("expected the recorded answer for wasm"),
    }
    // recording again for a cached type changes nothing
    let bogus = ProcessOutcome::Failure { message: "should not matter".to_string() };
    ti.record_crate_type("wasm", &bogus).unwrap();
}

#[test]
fn discovery_of_an_unsupported_type_records_absence() {
    let mut ti = host_info();
    let outcome = ProcessOutcome::Success {
        stdout: "".to_string(),
        stderr: "error: unsupported crate type `piston`".to_string(),
    };
    ti.record_crate_type("piston", &outcome).unwrap();
    match ti.file_types("piston", FileFlavor::Normal, &TargetKind::Lib, HOST) {
        FileTypesReply::Known(None) => {},
        _ => panic!("expected piston to be known unsupported"),
    }
}

#[test]
fn discovery_invocation_failure_is_fatal() {
    let mut ti = host_info();
    let outcome = ProcessOutcome::Failure { message: "no such file".to_string() };
    let e = ti.record_crate_type("wasm", &outcome).unwrap_err();
    assert_eq!(e.kind(), ProbeErrorKind::Invocation);
    assert_eq!(
        e.detail(),
        "failed to run `rustc` to learn about crate-type wasm information: no such file"
    );
}

#[test]
fn probe_invocation_failure_is_fatal() {
    let c = empty_config();
    let probe = ProcessOutcome::Failure { message: "rustc not found".to_string() };
    let e = TargetInfo::new(
        &c,
        &CompileKind::Host,
        &rustc(),
        &CompileKind::Host,
        false,
        &probe,
        Some(false),
    )
    .unwrap_err();
    assert_eq!(e.kind(), ProbeErrorKind::Invocation);
    assert_eq!(
        e.detail(),
        "failed to run `rustc` to learn about target-specific information: rustc not found"
    );
}

#[test]
fn missing_sysroot_line_is_fatal() {
    let c = empty_config();
    let stdout = "___\nlib___.rlib\nlib___.so\nlib___.so\nlib___.a\nlib___.so\n";
    let probe = ProcessOutcome::Success { stdout: stdout.to_string(), stderr: "".to_string() };
    let e = TargetInfo::new(
        &c,
        &CompileKind::Host,
        &rustc(),
        &CompileKind::Host,
        false,
        &probe,
        Some(false),
    )
    .unwrap_err();
    assert_eq!(e.kind(), ProbeErrorKind::MissingSysrootLine);
    let cmd = "rustc - --crate-name ___ --print=file-names --crate-type bin --crate-type rlib \
               --crate-type dylib --crate-type cdylib --crate-type staticlib \
               --crate-type proc-macro --print=sysroot --print=cfg";
    let expected = format!(
        "output of --print=sysroot missing when learning about target-specific information \
         from rustc\ncommand was: {}\n\n--- stdout\n{}",
        cmd, stdout
    );
    assert_eq!(e.detail(), &expected);
}

#[test]
fn malformed_predicate_line_is_fatal() {
    let c = empty_config();
    let stdout = "___\nlib___.rlib\nlib___.so\nlib___.so\nlib___.a\nlib___.so\n/opt/sysroot\n1bad%line\n";
    let probe = ProcessOutcome::Success { stdout: stdout.to_string(), stderr: "".to_string() };
    let e = TargetInfo::new(
        &c,
        &CompileKind::Host,
        &rustc(),
        &CompileKind::Host,
        false,
        &probe,
        Some(false),
    )
    .unwrap_err();
    assert_eq!(e.kind(), ProbeErrorKind::BadCfgLine);
    assert_eq!(
        e.detail(),
        &format!("failed to parse the cfg from `rustc --print=cfg`, got:\n{}", stdout)
    );
}

#[test]
fn probe_flags_reach_the_command_line() {
    let mut c = empty_config();
    c.env_rustflags = Some("-C opt-level=2".to_string());
    let base = probe_base_args(&c, &CompileKind::Host, &rustc(), &CompileKind::Host);
    assert_eq!(
        base,
        vec!["rustc", "-", "--crate-name", "___", "--print=file-names", "-C", "opt-level=2"]
    );
}

#[test]
fn unsupported_type_in_the_middle_skips_no_line() {
    // dylib and cdylib are flagged unsupported: staticlib and proc-macro
    // must still take their own lines, in order
    let c = empty_config();
    let stdout = "___\nlib___.rlib\nlib___.a\nlib___.so\n/opt/sysroot\nunix\n";
    let stderr = "error: unsupported crate type `dylib`\nerror: unsupported crate type `cdylib`\n";
    let probe =
        ProcessOutcome::Success { stdout: stdout.to_string(), stderr: stderr.to_string() };
    let ti = TargetInfo::new(
        &c,
        &CompileKind::Host,
        &rustc(),
        &CompileKind::Host,
        false,
        &probe,
        Some(true),
    )
    .unwrap();
    match ti.file_types("dylib", FileFlavor::Normal, &TargetKind::Lib, HOST) {
        FileTypesReply::Known(None) => {},
        _ => panic!("expected dylib to be known unsupported"),
    }
    match ti.file_types("staticlib", FileFlavor::Normal, &TargetKind::Lib, HOST) {
        FileTypesReply::Known(Some(plan)) => {
            assert_eq!(plan[0].prefix, "lib");
            assert_eq!(plan[0].suffix, ".a");
        },
        _ => panic!("expected staticlib to take the line after rlib's"),
    }
    match ti.file_types("proc-macro", FileFlavor::Normal, &TargetKind::Lib, HOST) {
        FileTypesReply::Known(Some(plan)) => {
            assert_eq!(plan[0].suffix, ".so");
        },
        _ => panic!("expected proc-macro to take the last naming line"),
    }
    assert_eq!(ti.sysroot, "/opt/sysroot");
}

#[test]
fn predicate_conditioned_flags_appear_after_the_probe() {
    // the bootstrap pass cannot see predicate-scoped config; the second pass,
    // run with the predicates the probe discovered, can
    let mut c = empty_config();
    c.cfg_sections.push(CfgSection {
        key: "cfg(unix)".to_string(),
        rustflags: Some(vec!["--scoped".to_string()]),
        rustdocflags: None,
    });
    let base = probe_base_args(&c, &CompileKind::Host, &rustc(), &CompileKind::Host);
    assert_eq!(base, vec!["rustc", "-", "--crate-name", "___", "--print=file-names"]);
    let probe = ProcessOutcome::Success { stdout: linux_stdout(), stderr: "".to_string() };
    let ti = TargetInfo::new(
        &c,
        &CompileKind::Host,
        &rustc(),
        &CompileKind::Host,
        false,
        &probe,
        Some(true),
    )
    .unwrap();
    assert_eq!(ti.rustflags, vec!["--scoped".to_string()]);
    assert_eq!(ti.rustdocflags, Vec::<String>::new());
}
