use target_info::errors::{output_err_info, ProbeErrorKind};
use target_info::kinds::TargetKind;
use target_info::naming::{file_plan, parse_crate_type, FileFlavor, FileType};

fn lines_of(s: &str) -> Vec<String> {
    s.lines().map(|l| l.to_string()).collect()
}

#[test]
fn filename_plain() {
    let ft = FileType {
        flavor: FileFlavor::Normal,
        suffix: ".rlib".to_string(),
        prefix: "lib".to_string(),
        should_replace_hyphens: false,
    };
    assert_eq!(ft.filename("my-app"), "libmy-app.rlib");
}

#[test]
fn filename_replaces_hyphens() {
    let ft = FileType {
        flavor: FileFlavor::Auxiliary,
        suffix: ".wasm".to_string(),
        prefix: "".to_string(),
        should_replace_hyphens: true,
    };
    assert_eq!(ft.filename("my-web-app"), "my_web_app.wasm");
}

#[test]
fn plan_windows_msvc_dylib_import_library() {
    let plan = file_plan(
        &"".to_string(),
        &".dll".to_string(),
        "dylib",
        FileFlavor::Normal,
        &TargetKind::Bin,
        "x86_64-pc-windows-msvc",
    );
    assert_eq!(plan.len(), 3);
    assert_eq!(plan[0].suffix, ".dll");
    assert_eq!(plan[0].prefix, "");
    assert_eq!(plan[1].suffix, ".dll.lib");
    assert_eq!(plan[1].prefix, "");
    assert_eq!(plan[1].flavor, FileFlavor::Normal);
    // the third entry is the debug database for an ordinary binary on msvc
    assert_eq!(plan[2].suffix, ".pdb");
    assert_eq!(plan[2].flavor, FileFlavor::DebugInfo);
}

#[test]
fn plan_windows_msvc_dylib_for_lib_kind() {
    let plan = file_plan(
        &"".to_string(),
        &".dll".to_string(),
        "cdylib",
        FileFlavor::Normal,
        &TargetKind::Lib,
        "x86_64-pc-windows-msvc",
    );
    assert_eq!(plan.len(), 2);
    assert_eq!(plan[0].suffix, ".dll");
    assert_eq!(plan[1].suffix, ".dll.lib");
    assert_eq!(plan[0].prefix, plan[1].prefix);
}

#[test]
fn plan_wasm_bin_auxiliary_module() {
    let plan = file_plan(
        &"".to_string(),
        &".js".to_string(),
        "bin",
        FileFlavor::Normal,
        &TargetKind::Lib,
        "wasm32-unknown-emscripten",
    );
    assert_eq!(plan.len(), 2);
    assert_eq!(plan[0].suffix, ".js");
    assert!(!plan[0].should_replace_hyphens);
    assert_eq!(plan[1].suffix, ".wasm");
    assert_eq!(plan[1].flavor, FileFlavor::Auxiliary);
    assert!(plan[1].should_replace_hyphens);
    assert_eq!(plan[0].filename("my-app"), "my-app.js");
    assert_eq!(plan[1].filename("my-app"), "my_app.wasm");
}

#[test]
fn plan_no_debug_symbols_for_tests_on_apple() {
    let plan = file_plan(
        &"".to_string(),
        &"".to_string(),
        "bin",
        FileFlavor::Normal,
        &TargetKind::Test,
        "x86_64-apple-darwin",
    );
    assert_eq!(plan.len(), 1);
    assert!(plan.iter().all(|f| f.flavor != FileFlavor::DebugInfo));
}

#[test]
fn plan_debug_symbols_for_apple_bin_and_example() {
    let plan = file_plan(
        &"".to_string(),
        &"".to_string(),
        "bin",
        FileFlavor::Normal,
        &TargetKind::Bin,
        "aarch64-apple-darwin",
    );
    assert_eq!(plan.len(), 2);
    assert_eq!(plan[1].suffix, ".dSYM");
    assert_eq!(plan[1].flavor, FileFlavor::DebugInfo);
    let example = file_plan(
        &"".to_string(),
        &"".to_string(),
        "bin",
        FileFlavor::Normal,
        &TargetKind::ExampleBin,
        "aarch64-apple-darwin",
    );
    assert_eq!(example.len(), 2);
    // a non-apple example gets none
    let linux_example = file_plan(
        &"".to_string(),
        &"".to_string(),
        "bin",
        FileFlavor::Normal,
        &TargetKind::ExampleBin,
        "x86_64-unknown-linux-gnu",
    );
    assert_eq!(linux_example.len(), 1);
}

#[test]
fn parse_crate_type_reads_one_line() {
    let lines = lines_of("lib___.rlib\nnext___line");
    let mut cursor = 0usize;
    let r = parse_crate_type("rlib", "rustc", "lib___.rlib\nnext___line", "", &lines, &mut cursor);
    assert_eq!(r.unwrap(), Some(("lib".to_string(), ".rlib".to_string())));
    assert_eq!(cursor, 1);
}

#[test]
fn parse_crate_type_trims_and_splits_suffix_at_second_delimiter() {
    let lines = lines_of("  ___.js___rest  ");
    let mut cursor = 0usize;
    let r = parse_crate_type("bin", "rustc", "", "", &lines, &mut cursor);
    assert_eq!(r.unwrap(), Some(("".to_string(), ".js".to_string())));
    assert_eq!(cursor, 1);
}

#[test]
fn parse_crate_type_unsupported_consumes_no_line() {
    let stderr =
        "warning: something\nerror: unsupported crate type `proc-macro` on this target\n";
    let lines = lines_of("lib___.rlib");
    let mut cursor = 0usize;
    let r = parse_crate_type("proc-macro", "rustc", "lib___.rlib", stderr, &lines, &mut cursor);
    assert_eq!(r.unwrap(), None);
    assert_eq!(cursor, 0);
    // the stderr line for `proc-macro` must not steal rlib's stdout line
    let r2 = parse_crate_type("rlib", "rustc", "lib___.rlib", stderr, &lines, &mut cursor);
    assert_eq!(r2.unwrap(), Some(("lib".to_string(), ".rlib".to_string())));
    assert_eq!(cursor, 1);
}

#[test]
fn parse_crate_type_unknown_wording_also_detected() {
    let stderr = "error: unknown crate type `zzz`";
    let lines = lines_of("");
    let mut cursor = 0usize;
    let r = parse_crate_type("zzz", "rustc", "", stderr, &lines, &mut cursor);
    assert_eq!(r.unwrap(), None);
    assert_eq!(cursor, 0);
}

#[test]
fn parse_crate_type_missing_line_is_an_error() {
    let lines: Vec<String> = Vec::new();
    let mut cursor = 0usize;
    let r = parse_crate_type("bin", "rustc", "", "", &lines, &mut cursor);
    assert_eq!(r.unwrap_err().kind(), ProbeErrorKind::MissingCrateTypeLine);
}

#[test]
fn parse_crate_type_missing_delimiter_is_an_error() {
    let lines = lines_of("no delimiter here");
    let mut cursor = 0usize;
    let r = parse_crate_type("bin", "rustc", "no delimiter here", "", &lines, &mut cursor);
    let e = r.unwrap_err();
    assert_eq!(e.kind(), ProbeErrorKind::BadNamingDelimiter);
    assert!(e.detail().contains("--print=file-names has changed"));
    assert_eq!(cursor, 0);
}

#[test]
fn output_err_info_formats_streams() {
    assert_eq!(
        output_err_info("rustc - --print=file-names", "", ""),
        "command was: rustc - --print=file-names\n(no output received)"
    );
    assert_eq!(
        output_err_info("rustc", "out", "err"),
        "command was: rustc\n\n--- stdout\nout\n--- stderr\nerr"
    );
    assert_eq!(output_err_info("rustc", "out", ""), "command was: rustc\n\n--- stdout\nout");
}
