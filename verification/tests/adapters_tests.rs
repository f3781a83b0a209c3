use std::cell::RefCell;
use unica_coder::adapters::{
    launcher_invocation, platform_launcher_name, resolve_launcher, AdapterStep, CliAdapter,
    Platform, ProcessCommand, ProcessOutput, ProcessRunner, RuntimeAdapter,
};
use unica_coder::argv::{cli_args, is_secret_key, kebab_case, pascal_case_key, runtime_args, script_args};
use unica_coder::json::{value_to_cli_string, JsonObject, JsonValue};

fn text(s: &str) -> JsonValue {
    JsonValue::String(s.to_string())
}

fn number(s: &str) -> JsonValue {
    JsonValue::Number(s.to_string())
}

fn object(pairs: Vec<(&str, JsonValue)>) -> JsonObject {
    let mut o = JsonObject::new();
    for (k, v) in pairs {
        o.insert(k.to_string(), v);
    }
    o
}

fn strings(v: &[&str]) -> Vec<String> {
    v.iter().map(|s| s.to_string()).collect()
}

struct RecordingRunner {
    commands: RefCell<Vec<ProcessCommand>>,
    output: ProcessOutput,
}

impl ProcessRunner for RecordingRunner {
    fn run(&self, command: &ProcessCommand) -> Result<ProcessOutput, String> {
        self.commands.borrow_mut().push(ProcessCommand {
            program: command.program.clone(),
            args: command.args.clone(),
            cwd: command.cwd.clone(),
            timeout_secs: command.timeout_secs,
        });
        Ok(ProcessOutput {
            status_success: self.output.status_success,
            status: self.output.status.clone(),
            stdout: self.output.stdout.clone(),
            stderr: self.output.stderr.clone(),
            timed_out: self.output.timed_out,
        })
    }
}

fn runner(success: bool, status: &str, stdout: &str, stderr: &str, timed_out: bool) -> RecordingRunner {
    RecordingRunner {
        commands: RefCell::new(Vec::new()),
        output: ProcessOutput {
            status_success: success,
            status: status.to_string(),
            stdout: stdout.to_string(),
            stderr: stderr.to_string(),
            timed_out,
        },
    }
}

#[test]
fn runtime_adapter_maps_config_init_config_to_output_arg() {
    let args = object(vec![
        ("operation", text("config-init")),
        ("config", text("./v8project.yaml")),
        ("connection", text("File=build/ib")),
        ("format", text("edt")),
        ("builder", text("IBCMD")),
    ]);

    let argv = runtime_args(&args, false).unwrap();

    assert_eq!(
        argv,
        vec![
            "config",
            "init",
            "--output",
            "./v8project.yaml",
            "--connection",
            "File=build/ib",
            "--format",
            "edt",
            "--builder",
            "IBCMD"
        ]
    );
}

#[test]
fn runtime_adapter_maps_test_and_launch_mcp_va() {
    let test_args = object(vec![
        ("operation", text("test")),
        ("testRunner", text("yaxunit")),
        ("fullRebuild", JsonValue::Bool(true)),
        ("testScope", text("module")),
        ("module", text("CommonModule.Тесты")),
    ]);

    assert_eq!(
        runtime_args(&test_args, false).unwrap(),
        vec!["test", "yaxunit", "--full", "module", "CommonModule.Тесты"]
    );

    let launch_args = object(vec![
        ("operation", text("launch")),
        ("clientMode", text("mcp-va")),
        ("mode", text("thin")),
        ("mcpPort", number("1550")),
    ]);

    assert_eq!(
        runtime_args(&launch_args, false).unwrap(),
        vec!["launch", "mcp", "va", "--mode", "thin", "--mcp-port", "1550"]
    );
}

#[test]
fn runtime_adapter_maps_each_runtime_operation_to_expected_argv() {
    let cases = vec![
        (object(vec![("operation", text("init"))]), vec!["init"]),
        (
            object(vec![
                ("operation", text("dump")),
                ("mode", text("partial")),
                ("object", text("Catalog:Номенклатура")),
                ("sourceSet", text("main")),
                ("extension", text("MyExtension")),
            ]),
            vec![
                "dump",
                "--mode",
                "partial",
                "--object",
                "Catalog:Номенклатура",
                "--source-set",
                "main",
                "--extension",
                "MyExtension",
            ],
        ),
        (
            object(vec![
                ("operation", text("convert")),
                ("sourceSet", text("main")),
                ("output", text("build/convert")),
            ]),
            vec!["convert", "--source-set", "main", "--output", "build/convert"],
        ),
        (
            object(vec![
                ("operation", text("make")),
                ("output", text("build/config.cf")),
                ("sourceSet", text("main")),
            ]),
            vec!["make", "--output", "build/config.cf", "--source-set", "main"],
        ),
        (
            object(vec![
                ("operation", text("load")),
                ("path", text("build/config.cf")),
                ("mode", text("merge")),
                ("settings", text("merge-settings.xml")),
            ]),
            vec![
                "load",
                "--path",
                "build/config.cf",
                "--mode",
                "merge",
                "--settings",
                "merge-settings.xml",
            ],
        ),
        (
            object(vec![
                ("operation", text("syntax")),
                ("mode", text("designer-modules")),
                ("server", JsonValue::Bool(true)),
                ("thinClient", JsonValue::Bool(true)),
            ]),
            vec!["syntax", "designer-modules", "--server", "--thin-client"],
        ),
        (
            object(vec![("operation", text("extensions")), ("sourceSet", text("MyExtension"))]),
            vec!["extensions", "--name", "MyExtension"],
        ),
    ];

    for (args, expected) in cases {
        assert_eq!(runtime_args(&args, false).unwrap(), expected);
    }
}

#[test]
fn runtime_adapter_rejects_raw_args_vector() {
    let args = object(vec![
        ("operation", text("build")),
        ("args", JsonValue::Array(vec![text("--unsafe"), text("../outside")])),
    ]);

    let error = runtime_args(&args, false).unwrap_err();

    assert!(error.contains("raw args are not accepted"));
}

#[test]
fn runtime_args_without_operation_and_unknown_operation_are_errors() {
    assert!(runtime_args(&JsonObject::new(), false).is_err());
    assert!(runtime_args(&object(vec![("operation", text("explode"))]), false).is_err());
}

#[test]
fn runtime_build_maps_to_allowlisted_argv() {
    let args = object(vec![
        ("operation", text("build")),
        ("sourceSet", text("main")),
        ("fullRebuild", JsonValue::Bool(true)),
    ]);
    assert_eq!(
        runtime_args(&args, false).unwrap(),
        vec!["build", "--full-rebuild", "--source-set", "main"]
    );
}

#[test]
fn cli_args_turn_keys_into_kebab_flags_and_redact_secrets() {
    let args = object(vec![
        ("sourceDir", text("src")),
        ("dbPassword", text("super-secret")),
        ("cwd", text("/ignored")),
        ("dryRun", JsonValue::Bool(true)),
        ("verbose", JsonValue::Bool(true)),
        ("quiet", JsonValue::Bool(false)),
        ("limit", number("3")),
    ]);
    let report = cli_args(&args, true).unwrap().join(" ");
    assert!(report.contains("--source-dir src"));
    assert!(report.contains("--db-password <redacted>"));
    assert!(!report.contains("super-secret"));
    assert!(!report.contains("ignored"));
    let exec = cli_args(&args, false).unwrap().join(" ");
    assert!(exec.contains("--db-password super-secret"));
    assert!(exec.contains("--verbose"));
    assert!(!exec.contains("--quiet"));
    assert!(exec.contains("--limit 3"));
}

#[test]
fn cli_adapter_rejects_raw_args_vector() {
    let args = object(vec![("args", JsonValue::Array(vec![text("--unsafe"), text("../outside")]))]);
    let adapter = CliAdapter::new("run-v8-runner.sh", &["build"], "build/runtime");
    let fake = runner(true, "exit status: 0", "", "", false);
    let error = adapter
        .invoke(&fake, "unica.build.load", &args, "/w", Some("/p"), true, Platform::Unix, true, true)
        .err()
        .unwrap();
    assert!(error.contains("raw args are not accepted"));
    assert!(cli_args(&args, false).unwrap_err().contains("raw args are not accepted"));
}

#[test]
fn code_adapter_dry_run_builds_bsl_analyzer_command() {
    let args = object(vec![("query", text("ОбщийМодуль"))]);
    let fake = runner(true, "exit status: 0", "", "", false);
    let outcome = CliAdapter::new("run-bsl-analyzer.sh", &["search"], "code analysis")
        .invoke(&fake, "unica.code.search", &args, "/w", Some("/p"), true, Platform::Unix, true, false)
        .unwrap();
    let command = outcome.command.unwrap().join(" ");
    assert!(command.contains("run-bsl-analyzer"));
    assert!(command.contains("search"));
    assert!(command.contains("--query"));
    assert!(command.contains("ОбщийМодуль"));
    assert!(fake.commands.borrow().is_empty());
}

#[test]
fn diagnostics_adapter_still_builds_bsl_analyzer_analyze_command() {
    let args = object(vec![("sourceDir", text("src"))]);
    let fake = runner(true, "exit status: 0", "", "", false);
    let outcome = CliAdapter::new("run-bsl-analyzer.sh", &["analyze"], "code analysis")
        .invoke(&fake, "unica.code.diagnostics", &args, "/w", Some("/p"), true, Platform::Windows, true, false)
        .unwrap();
    let command = outcome.command.unwrap().join(" ");
    assert!(command.contains("run-bsl-analyzer.ps1"));
    assert!(command.starts_with("pwsh -NoProfile -File"));
    assert!(command.contains("analyze"));
    assert!(command.contains("--source-dir src"));
}

#[test]
fn key_helpers() {
    assert_eq!(kebab_case("sourceDir"), "source-dir");
    assert_eq!(kebab_case("already-kebab"), "already-kebab");
    assert_eq!(kebab_case("URLPath"), "u-r-l-path");
    assert!(is_secret_key("dbPassword"));
    assert!(is_secret_key("apiToken"));
    assert!(!is_secret_key("sourceDir"));
    assert_eq!(pascal_case_key("name"), "Name");
    assert_eq!(value_to_cli_string(&JsonValue::Bool(false)), "false");
    assert_eq!(value_to_cli_string(&number("12")), "12");
    assert_eq!(
        value_to_cli_string(&JsonValue::Array(vec![text("a"), number("1")])),
        "[\"a\",1]"
    );
}

#[test]
fn script_args_pass_named_values() {
    let args = object(vec![("name", text("Doc")), ("dryRun", JsonValue::Bool(false))]);
    assert_eq!(script_args(&args), vec!["-Name", "Doc"]);
    let list = object(vec![("items", JsonValue::Array(vec![text("a"), text("b")])), ("force", JsonValue::Bool(true))]);
    assert_eq!(script_args(&list), vec!["-Force", "-Items", "a ;; b"]);
}

#[test]
fn arguments_follow_key_order_not_insertion_order() {
    let args = object(vec![
        ("zeta", text("z")),
        ("alpha", number("1")),
        ("mid", JsonValue::Bool(true)),
        ("alpha", number("2")),
    ]);
    let keys: Vec<&str> = args.entries.iter().map(|(k, _)| k.as_str()).collect();
    assert_eq!(keys, vec!["alpha", "mid", "zeta"]);
    assert_eq!(
        cli_args(&args, false).unwrap(),
        strings(&["--alpha", "2", "--mid", "--zeta", "z"])
    );
    assert_eq!(script_args(&args), vec!["-Alpha", "2", "-Mid", "-Zeta", "z"]);
}

#[test]
fn secret_values_are_redacted_only_in_the_report() {
    let args = object(vec![("apiToken", text("s3cr3t")), ("user", text("bob"))]);
    assert_eq!(
        cli_args(&args, true).unwrap(),
        strings(&["--api-token", "<redacted>", "--user", "bob"])
    );
    assert_eq!(
        cli_args(&args, false).unwrap(),
        strings(&["--api-token", "s3cr3t", "--user", "bob"])
    );
}

#[test]
fn launcher_names_and_invocations_per_platform() {
    assert_eq!(platform_launcher_name("run-v8-runner.sh", Platform::Unix), "run-v8-runner.sh");
    assert_eq!(platform_launcher_name("run-v8-runner.sh", Platform::Windows), "run-v8-runner.ps1");
    assert_eq!(resolve_launcher("/p", "run.sh", Platform::Unix), "/p/scripts/run.sh");
    assert_eq!(resolve_launcher("C:\\p", "run.sh", Platform::Windows), "C:\\p\\scripts\\run.ps1");
    let unix = launcher_invocation("/p/scripts/run.sh", &strings(&["build"]), &strings(&["--x"]), Platform::Unix);
    assert_eq!(unix.program, "/p/scripts/run.sh");
    assert_eq!(unix.args, strings(&["build", "--x"]));
    assert_eq!(unix.display, strings(&["/p/scripts/run.sh", "build", "--x"]));
    let win = launcher_invocation("C:/p/run.ps1", &strings(&["build"]), &strings(&[]), Platform::Windows);
    assert_eq!(win.program, "pwsh");
    assert_eq!(win.args, strings(&["-NoProfile", "-File", "C:/p/run.ps1", "build"]));
    assert_eq!(win.display[0], "pwsh");
}

#[test]
fn build_runtime_adapter_dry_run_builds_v8_runner_command() {
    let adapter = CliAdapter::new("run-v8-runner.sh", &["build"], "build/runtime");
    let args = object(vec![("sourceSet", text("main"))]);
    let step = adapter
        .plan("unica.build.load", &args, "/w", Some("/p"), false, Platform::Unix, true, true)
        .unwrap();
    match step {
        AdapterStep::Done(outcome) => {
            assert!(outcome.ok);
            assert!(outcome.summary.contains("dry run"));
            let command = outcome.command.unwrap().join(" ");
            assert!(command.contains("run-v8-runner"));
            assert!(command.contains("build"));
            assert!(command.contains("--source-set main"));
            assert_eq!(outcome.changes, vec!["no files changed because dryRun is true"]);
            assert_eq!(outcome.warnings.len(), 1);
            assert!(outcome.warnings[0].contains("launcher not found"));
        }
        AdapterStep::Run { .. } => panic!("a dry run must not run anything"),
    }
}

#[test]
fn missing_plugin_root_and_launcher_are_errors() {
    let adapter = CliAdapter::new("run-bsl-analyzer.sh", &["analyze"], "code analysis");
    let args = JsonObject::new();
    let r = adapter.plan("unica.code.diagnostics", &args, "/w", None, true, Platform::Unix, false, false);
    assert_eq!(r.err().unwrap(), "could not locate Unica plugin root for internal adapter lookup");
    let r = adapter.plan("unica.code.diagnostics", &args, "/w", Some("/p"), false, Platform::Unix, false, false);
    assert_eq!(r.err().unwrap(), "internal adapter launcher not found: /p/scripts/run-bsl-analyzer.sh");
}

#[test]
fn cli_adapter_redacts_secret_values_from_reported_command() {
    let adapter = CliAdapter::new("run-v8-runner.sh", &["build"], "build/runtime");
    let args = object(vec![("dbPassword", text("super-secret"))]);
    let outcome = adapter
        .invoke(&runner(true, "exit status: 0", "", "", false), "unica.build.load", &args, "/w", Some("/p"), true, Platform::Unix, true, true)
        .unwrap();
    let command = outcome.command.unwrap().join(" ");
    assert!(command.contains("--db-password <redacted>"));
    assert!(!command.contains("super-secret"));
}

#[test]
fn cli_adapter_uses_fake_process_runner_for_status_and_output_contract() {
    let adapter = CliAdapter::new("run-v8-runner.sh", &["build"], "build/runtime");
    let fake = runner(false, "exit status: 2", "partial stdout", "failure stderr\n", false);
    let args = object(vec![("dbPassword", text("s3cret"))]);
    let outcome = adapter
        .invoke(&fake, "unica.build.load", &args, "/w", Some("/p"), true, Platform::Windows, false, true)
        .unwrap();
    assert!(!outcome.ok);
    assert_eq!(outcome.summary, "unica.build.load failed through internal build/runtime adapter");
    assert_eq!(outcome.warnings, vec!["internal build/runtime adapter exited with status exit status: 2"]);
    assert_eq!(outcome.errors, vec!["failure stderr"]);
    assert_eq!(outcome.stdout.as_deref(), Some("partial stdout"));
    assert_eq!(outcome.stderr.as_deref(), Some("failure stderr\n"));
    assert_eq!(outcome.changes, vec!["internal build/runtime adapter executed"]);
    let commands = fake.commands.borrow();
    assert_eq!(commands.len(), 1);
    assert_eq!(commands[0].program, "pwsh");
    assert_eq!(&commands[0].args[0..2], ["-NoProfile", "-File"]);
    assert!(commands[0].args[2].contains("run-v8-runner.ps1"));
    assert_eq!(commands[0].args[3..], ["build", "--db-password", "s3cret"]);
    assert_eq!(commands[0].cwd, "/w");
    assert_eq!(commands[0].timeout_secs, 120);
}

#[test]
fn cli_adapter_reports_fake_process_timeout() {
    let adapter = CliAdapter::new("run-v8-runner.sh", &["build"], "build/runtime");
    let fake = runner(false, "timeout", "", "", true);
    let outcome = adapter
        .invoke(&fake, "unica.build.load", &JsonObject::new(), "/w", Some("/p"), true, Platform::Unix, false, false)
        .unwrap();
    assert!(!outcome.ok);
    assert!(outcome.warnings.iter().any(|w| w.contains("timed out")));
    assert!(outcome.errors.iter().any(|e| e.contains("timed out after 120 seconds")));
    assert!(outcome.changes.is_empty());
}

#[test]
fn runtime_adapter_maps_build_to_allowlisted_v8_runner_argv() {
    let fake = runner(true, "exit status: 0", "ok", "", false);
    let args = object(vec![
        ("operation", text("build")),
        ("sourceSet", text("main")),
        ("fullRebuild", JsonValue::Bool(true)),
    ]);
    let outcome = RuntimeAdapter::new()
        .invoke(&fake, "unica.runtime.execute", &args, "/w", Some("/p"), true, Platform::Unix, false, true)
        .unwrap();
    assert!(outcome.ok);
    assert_eq!(outcome.summary, "unica.runtime.execute completed through internal v8-runner runtime adapter");
    let commands = fake.commands.borrow();
    assert_eq!(commands[0].program, "/p/scripts/run-v8-runner.sh");
    assert_eq!(commands[0].args, strings(&["build", "--full-rebuild", "--source-set", "main"]));
}

#[test]
fn runtime_adapter_dry_run_runs_nothing() {
    let fake = runner(true, "exit status: 0", "ok", "", false);
    let args = object(vec![("operation", text("dump"))]);
    let outcome = RuntimeAdapter::new()
        .invoke(&fake, "unica.runtime.execute", &args, "/w", Some("/p"), true, Platform::Unix, true, true)
        .unwrap();
    assert!(outcome.ok);
    assert!(outcome.summary.contains("dry run"));
    assert!(outcome.command.unwrap().join(" ").contains(" dump"));
    assert!(fake.commands.borrow().is_empty());
}
