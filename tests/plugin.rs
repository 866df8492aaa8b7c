use stable_plugin::{
    decide, item_line, parse_host_triple, print_all_items, CallbackPhase, CompilationDecision,
    CrateSelection, ItemDescription, ProbeError, StablePlugin, StablePluginArgs,
    StablePluginCallbacks,
};

const RUSTC_VV: &str = "rustc 1.80.0-nightly (7d83a4c13 2024-05-06)\n\
binary: rustc\n\
commit-hash: 7d83a4c131ab9ae81a74c6fd825c827b74a2881d\n\
commit-date: 2024-05-06\n\
host: x86_64-unknown-linux-gnu\n\
release: 1.80.0-nightly\n\
LLVM version: 18.1.4\n";

fn strings(v: &[&str]) -> Vec<String> {
    v.iter().map(|s| s.to_string()).collect()
}

#[test]
fn probe_reads_host_line() {
    assert_eq!(
        parse_host_triple("host: x86_64-unknown-linux-gnu\n"),
        Ok("x86_64-unknown-linux-gnu".to_string())
    );
}

#[test]
fn probe_reads_full_report() {
    assert_eq!(parse_host_triple(RUSTC_VV), Ok("x86_64-unknown-linux-gnu".to_string()));
}

#[test]
fn probe_reads_host_line_without_newline() {
    assert_eq!(
        parse_host_triple("binary: rustc\nhost: aarch64-apple-darwin"),
        Ok("aarch64-apple-darwin".to_string())
    );
}

#[test]
fn probe_takes_last_host_line() {
    assert_eq!(
        parse_host_triple("host: a-b-c\nhost: d-e-f\nrelease: 1\n"),
        Ok("d-e-f".to_string())
    );
}

#[test]
fn probe_fails_without_host_line() {
    assert_eq!(
        parse_host_triple("binary: rustc\nrelease: 1.80.0\n"),
        Err(ProbeError::MissingHostLine)
    );
    assert_eq!(parse_host_triple(""), Err(ProbeError::MissingHostLine));
    assert_eq!(parse_host_triple(" host: x\n"), Err(ProbeError::MissingHostLine));
    assert_eq!(parse_host_triple("host:x\n"), Err(ProbeError::MissingHostLine));
}

#[test]
fn probe_fails_on_empty_triple() {
    assert_eq!(parse_host_triple("host: \n"), Err(ProbeError::EmptyTriple));
    assert_eq!(parse_host_triple("host: x\nhost: "), Err(ProbeError::EmptyTriple));
}

#[test]
fn cargo_flags_put_forwarded_args_last() {
    let plugin = StablePlugin;
    let args = StablePluginArgs::new(strings(&["--feature", "foo"]));
    assert_eq!(
        plugin.cargo_flags("T", &args),
        strings(&["-Zbuild-std", "--target=T", "--feature", "foo"])
    );
}

#[test]
fn cargo_flags_without_forwarded_args() {
    let plugin = StablePlugin;
    let args = StablePluginArgs::new(Vec::new());
    assert_eq!(
        plugin.cargo_flags("x86_64-unknown-linux-gnu", &args),
        strings(&["-Zbuild-std", "--target=x86_64-unknown-linux-gnu"])
    );
}

#[test]
fn modify_cargo_appends_flags() {
    let plugin = StablePlugin;
    let args = StablePluginArgs::new(strings(&["--release"]));
    let mut cargo = strings(&["check", "-v"]);
    assert_eq!(plugin.modify_cargo(&mut cargo, RUSTC_VV, &args), Ok(()));
    assert_eq!(
        cargo,
        strings(&[
            "check",
            "-v",
            "-Zbuild-std",
            "--target=x86_64-unknown-linux-gnu",
            "--release"
        ])
    );
}

#[test]
fn modify_cargo_leaves_command_on_bad_report() {
    let plugin = StablePlugin;
    let args = StablePluginArgs::new(strings(&["--release"]));
    let mut cargo = strings(&["check"]);
    assert_eq!(
        plugin.modify_cargo(&mut cargo, "release: 1\n", &args),
        Err(ProbeError::MissingHostLine)
    );
    assert_eq!(plugin.modify_cargo(&mut cargo, "host: ", &args), Err(ProbeError::EmptyTriple));
    assert_eq!(cargo, strings(&["check"]));
}

#[test]
fn compiler_args_keep_mir() {
    let plugin = StablePlugin;
    let args = strings(&["rustc", "src/lib.rs"]);
    assert_eq!(
        plugin.compiler_args(&args),
        strings(&["rustc", "src/lib.rs", "-Zalways-encode-mir"])
    );
    assert_eq!(plugin.compiler_args(&Vec::new()), strings(&["-Zalways-encode-mir"]));
}

#[test]
fn driver_name_and_selection() {
    let plugin = StablePlugin;
    assert_eq!(plugin.driver_name(), "stable-plugin-driver");
    assert_eq!(plugin.crate_selection(), CrateSelection::AllCrates);
}

#[test]
fn no_decision_means_stop() {
    assert_eq!(decide(None), CompilationDecision::Stop);
    assert_eq!(decide(Some(CompilationDecision::Stop)), CompilationDecision::Stop);
    assert_eq!(decide(Some(CompilationDecision::Continue)), CompilationDecision::Continue);
}

#[test]
fn callback_without_record_stops() {
    let mut cb = StablePluginCallbacks::new(StablePluginArgs::new(Vec::new()));
    assert_eq!(cb.phase(), CallbackPhase::AwaitingAnalysisCompletion);
    assert_eq!(cb.result(), None);
    cb.start_analysis();
    assert_eq!(cb.phase(), CallbackPhase::AnalysisRan);
    assert_eq!(cb.finish(), CompilationDecision::Stop);
    assert_eq!(cb.phase(), CallbackPhase::Finished);
}

#[test]
fn callback_with_recorded_continue_continues() {
    let mut cb = StablePluginCallbacks::new(StablePluginArgs::new(strings(&["--all"])));
    cb.start_analysis();
    cb.record(CompilationDecision::Continue);
    assert_eq!(cb.result(), Some(CompilationDecision::Continue));
    assert_eq!(cb.finish(), CompilationDecision::Continue);
    assert_eq!(cb.args().cargo_args, strings(&["--all"]));
}

#[test]
fn callback_with_recorded_stop_stops() {
    let mut cb = StablePluginCallbacks::new(StablePluginArgs::new(Vec::new()));
    cb.start_analysis();
    cb.record(CompilationDecision::Stop);
    assert_eq!(cb.finish(), CompilationDecision::Stop);
}

#[test]
fn item_line_format() {
    assert_eq!(
        item_line("CrateItem(0)", "fn() -> i32"),
        "There is an item \"CrateItem(0)\" of type \"fn() -> i32\""
    );
}

#[test]
fn one_line_per_item() {
    let items = vec![
        ItemDescription::new("a".to_string(), "fn()".to_string()),
        ItemDescription::new("B".to_string(), "u8".to_string()),
        ItemDescription::new("C".to_string(), "&str".to_string()),
    ];
    let mut sink = Vec::new();
    assert_eq!(print_all_items(&items, &mut sink), CompilationDecision::Continue);
    assert_eq!(sink.len(), 3);
    assert_eq!(
        sink,
        strings(&[
            "There is an item \"a\" of type \"fn()\"",
            "There is an item \"B\" of type \"u8\"",
            "There is an item \"C\" of type \"&str\"",
        ])
    );
}

#[test]
fn no_items_no_lines() {
    let mut sink = strings(&["earlier"]);
    assert_eq!(print_all_items(&Vec::new(), &mut sink), CompilationDecision::Continue);
    assert_eq!(sink, strings(&["earlier"]));
}

#[test]
fn enumeration_is_deterministic() {
    let items = vec![
        ItemDescription::new("f".to_string(), "fn() -> i32".to_string()),
        ItemDescription::new("g".to_string(), "fn(u8)".to_string()),
    ];
    let mut first = Vec::new();
    let mut second = Vec::new();
    print_all_items(&items, &mut first);
    print_all_items(&items.clone(), &mut second);
    assert_eq!(first, second);
}

#[test]
fn single_function_crate() {
    let items = vec![ItemDescription::new("f".to_string(), "fn() -> i32".to_string())];
    let mut sink = Vec::new();
    print_all_items(&items, &mut sink);
    assert_eq!(sink.len(), 1);
    assert!(sink[0].contains("\"f\""));
    assert!(sink[0].contains("fn() -> i32"));
    assert_eq!(sink[0], "There is an item \"f\" of type \"fn() -> i32\"");
}
