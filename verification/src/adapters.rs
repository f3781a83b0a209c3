//! The internal adapters: what a call of a launcher script looks like, and
//! what the caller is told before and after the script runs.  Finding the
//! plugin root, testing whether a file exists and running a process are
//! done by the caller; the decisions are made here.

use vstd::prelude::*;
use crate::argv::{cli_args, cli_args_spec, runtime_args, runtime_args_spec, script_args, script_argv};
use crate::json::JsonObject;
use crate::outcome::AdapterOutcome;
use crate::text::{
    concat, concat3, concat4, ends_with, nat_text, seq_ends_with, string_of, trim, trim_seq,
    u64_to_string, views, chars_of,
};
use crate::workspace::{path_join, path_join_spec};
pub use crate::workspace::Platform;

verus! {

/// How long a launcher may run, in seconds.
pub const DEFAULT_PROCESS_TIMEOUT_SECS: u64 = 120;

/// A process to run.
pub struct ProcessCommand {
    pub program: String,
    pub args: Vec<String>,
    pub cwd: String,
    pub timeout_secs: u64,
}

/// What a finished (or timed-out) process left.
pub struct ProcessOutput {
    pub status_success: bool,
    pub status: String,
    pub stdout: String,
    pub stderr: String,
    pub timed_out: bool,
}

/// A launcher call: the program, its arguments, and the command line shown
/// to the user.
pub struct LauncherInvocation {
    pub program: String,
    pub args: Vec<String>,
    pub display: Vec<String>,
}

/// What an adapter does next: answer at once, or run a process first.
pub enum AdapterStep {
    Done(AdapterOutcome),
    Run { command: ProcessCommand, display: Vec<String> },
}

/// What runs a launcher process and waits for it (or for its timeout).
pub trait ProcessRunner {
    fn run(&self, command: &ProcessCommand) -> Result<ProcessOutput, String>;
}

/// On Windows a `.sh` launcher has a PowerShell twin with the same stem.
pub open spec fn platform_launcher_name_spec(launcher: Seq<char>, platform: Platform) -> Seq<char> {
    if platform == Platform::Windows && seq_ends_with(launcher, ".sh"@) {
        launcher.subrange(0, launcher.len() - 3) + ".ps1"@
    } else {
        launcher
    }
}

pub fn platform_launcher_name(launcher: &str, platform: Platform) -> (r: String)
    ensures
        r@ == platform_launcher_name_spec(launcher@, platform),
{
    if platform == Platform::Windows && ends_with(launcher, ".sh") {
        let v = chars_of(launcher);
        proof {
            reveal_strlit(".sh");
        }
        let stem = crate::text::slice_string(v.as_slice(), 0, v.len() - 3);
        concat(stem.as_str(), ".ps1")
    } else {
        launcher.to_string()
    }
}

/// `<plugin root>/scripts/<launcher for the platform>`.
pub open spec fn resolve_launcher_spec(plugin_root: Seq<char>, launcher: Seq<char>, platform: Platform) -> Seq<char> {
    path_join_spec(
        path_join_spec(plugin_root, "scripts"@, platform),
        platform_launcher_name_spec(launcher, platform),
        platform,
    )
}

pub fn resolve_launcher(plugin_root: &str, launcher: &str, platform: Platform) -> (r: String)
    ensures
        r@ == resolve_launcher_spec(plugin_root@, launcher@, platform),
{
    let name = platform_launcher_name(launcher, platform);
    let dir = path_join(plugin_root, "scripts", platform);
    path_join(dir.as_str(), name.as_str(), platform)
}

/// On Windows a launcher runs under `pwsh -NoProfile -File`; elsewhere it
/// runs itself.  The shown command line starts with the program.
pub open spec fn invocation_program(launcher: Seq<char>, platform: Platform) -> Seq<char> {
    if platform == Platform::Windows {
        "pwsh"@
    } else {
        launcher
    }
}

pub open spec fn invocation_args(launcher: Seq<char>, tool_args: Seq<Seq<char>>, platform: Platform) -> Seq<Seq<char>> {
    if platform == Platform::Windows {
        seq!["-NoProfile"@, "-File"@, launcher] + tool_args
    } else {
        tool_args
    }
}

pub open spec fn invocation_display(launcher: Seq<char>, tool_args: Seq<Seq<char>>, platform: Platform) -> Seq<Seq<char>> {
    seq![invocation_program(launcher, platform)] + invocation_args(launcher, tool_args, platform)
}

fn append_all(dst: &mut Vec<String>, src: &Vec<String>)
    ensures
        views(final(dst)@) == views(old(dst)@) + views(src@),
{
    let ghost before = views(dst@);
    let mut i: usize = 0;
    while i < src.len()
        invariant
            i <= src@.len(),
            views(dst@) == before + views(src@).take(i as int),
        decreases src@.len() - i,
    {
        crate::argv::push_arg(dst, src[i].as_str());
        assert(views(src@).take(i + 1) =~= views(src@).take(i as int).push(src@[i as int]@));
        i += 1;
    }
    assert(views(src@).take(src@.len() as int) =~= views(src@));
}

pub fn launcher_invocation(launcher: &str, prefix_args: &Vec<String>, args: &Vec<String>, platform: Platform) -> (r: LauncherInvocation)
    ensures
        r.program@ == invocation_program(launcher@, platform),
        views(r.args@) == invocation_args(launcher@, views(prefix_args@) + views(args@), platform),
        views(r.display@) == invocation_display(launcher@, views(prefix_args@) + views(args@), platform),
{
    let mut tool_args: Vec<String> = Vec::new();
    assert(views(tool_args@) =~= Seq::<Seq<char>>::empty());
    append_all(&mut tool_args, prefix_args);
    append_all(&mut tool_args, args);
    assert(views(tool_args@) =~= views(prefix_args@) + views(args@));
    if platform == Platform::Windows {
        let mut pwsh_args: Vec<String> = Vec::new();
        crate::argv::push_arg(&mut pwsh_args, "-NoProfile");
        crate::argv::push_arg(&mut pwsh_args, "-File");
        crate::argv::push_arg(&mut pwsh_args, launcher);
        append_all(&mut pwsh_args, &tool_args);
        let mut display: Vec<String> = Vec::new();
        crate::argv::push_arg(&mut display, "pwsh");
        append_all(&mut display, &pwsh_args);
        assert(views(pwsh_args@) =~= invocation_args(launcher@, views(tool_args@), platform));
        assert(views(display@) =~= invocation_display(launcher@, views(tool_args@), platform));
        LauncherInvocation { program: "pwsh".to_string(), args: pwsh_args, display }
    } else {
        let mut display: Vec<String> = Vec::new();
        crate::argv::push_arg(&mut display, launcher);
        append_all(&mut display, &tool_args);
        assert(views(display@) =~= invocation_display(launcher@, views(tool_args@), platform));
        LauncherInvocation { program: launcher.to_string(), args: tool_args, display }
    }
}

// ---------------------------------------------------------------------------
// What the user is told
// ---------------------------------------------------------------------------

/// `internal <label> adapter`.
pub open spec fn adapter_phrase(label: Seq<char>) -> Seq<char> {
    "internal "@ + label + " adapter"@
}

pub open spec fn launcher_missing(launcher: Seq<char>) -> Seq<char> {
    "internal adapter launcher not found: "@ + launcher
}

pub open spec fn plugin_root_missing() -> Seq<char> {
    "could not locate Unica plugin root for internal adapter lookup"@
}

pub open spec fn dry_run_change() -> Seq<char> {
    "no files changed because dryRun is true"@
}

/// The outcome of a dry run: nothing executed, the command that would run
/// is shown, and a missing launcher is a warning.
pub open spec fn dry_run_outcome_ok(
    o: AdapterOutcome,
    tool_name: Seq<char>,
    label: Seq<char>,
    launcher: Seq<char>,
    launcher_exists: bool,
    mutating: bool,
    display: Seq<Seq<char>>,
) -> bool {
    &&& o.ok
    &&& o.summary@ == "dry run: "@ + tool_name + " would call "@ + adapter_phrase(label)
    &&& views(o.changes@) == (if mutating {
        seq![dry_run_change()]
    } else {
        Seq::<Seq<char>>::empty()
    })
    &&& views(o.warnings@) == (if launcher_exists {
        Seq::<Seq<char>>::empty()
    } else {
        seq![launcher_missing(launcher)]
    })
    &&& o.errors@.len() == 0
    &&& o.artifacts@.len() == 0
    &&& o.stdout is None
    &&& o.stderr is None
    &&& o.command matches Some(c) && views(c@) == display
}

/// The outcome after the launcher ran.
pub open spec fn process_outcome_ok(
    o: AdapterOutcome,
    tool_name: Seq<char>,
    label: Seq<char>,
    mutating: bool,
    display: Seq<Seq<char>>,
    out: ProcessOutput,
) -> bool {
    let ok = out.status_success;
    let phrase = adapter_phrase(label);
    let err = trim_seq(out.stderr@);
    &&& o.ok == ok
    &&& o.summary@ == tool_name + (if ok {
        " completed through "@
    } else {
        " failed through "@
    }) + phrase
    &&& views(o.changes@) == (if mutating {
        seq![phrase + " executed"@]
    } else {
        Seq::<Seq<char>>::empty()
    })
    &&& views(o.warnings@) == (if ok {
        Seq::<Seq<char>>::empty()
    } else if out.timed_out {
        seq![phrase + " timed out"@]
    } else {
        seq![phrase + " exited with status "@ + out.status@]
    })
    &&& views(o.errors@) == (if ok {
        Seq::<Seq<char>>::empty()
    } else if err.len() == 0 && out.timed_out {
        seq![phrase + " timed out after "@ + nat_text(DEFAULT_PROCESS_TIMEOUT_SECS as nat) + " seconds"@]
    } else {
        seq![err]
    })
    &&& o.artifacts@.len() == 0
    &&& o.stdout matches Some(s) && s@ == out.stdout@
    &&& o.stderr matches Some(s) && s@ == out.stderr@
    &&& o.command matches Some(c) && views(c@) == display
}

fn one(s: String) -> (v: Vec<String>)
    ensures
        views(v@) == seq![s@],
{
    let mut v = Vec::new();
    v.push(s);
    assert(views(v@) =~= seq![v@[0]@]);
    v
}

fn none() -> (v: Vec<String>)
    ensures
        views(v@) == Seq::<Seq<char>>::empty(),
{
    let v = Vec::new();
    assert(views(v@) =~= Seq::<Seq<char>>::empty());
    v
}

fn dry_run_outcome(
    tool_name: &str,
    label: &str,
    launcher: &str,
    launcher_exists: bool,
    mutating: bool,
    display: Vec<String>,
) -> (o: AdapterOutcome)
    ensures
        dry_run_outcome_ok(o, tool_name@, label@, launcher@, launcher_exists, mutating, views(display@)),
{
    let phrase = concat3("internal ", label, " adapter");
    AdapterOutcome {
        ok: true,
        summary: concat4("dry run: ", tool_name, " would call ", phrase.as_str()),
        changes: if mutating {
            one("no files changed because dryRun is true".to_string())
        } else {
            none()
        },
        warnings: if launcher_exists {
            none()
        } else {
            one(concat("internal adapter launcher not found: ", launcher))
        },
        errors: Vec::new(),
        artifacts: Vec::new(),
        stdout: None,
        stderr: None,
        command: Some(display),
    }
}

/// What the caller is told after the launcher ran.
pub fn process_outcome(tool_name: &str, label: &str, mutating: bool, display: Vec<String>, output: ProcessOutput) -> (o: AdapterOutcome)
    ensures
        process_outcome_ok(o, tool_name@, label@, mutating, views(display@), output),
{
    let ok = output.status_success;
    let phrase = concat3("internal ", label, " adapter");
    let summary = if ok {
        concat3(tool_name, " completed through ", phrase.as_str())
    } else {
        concat3(tool_name, " failed through ", phrase.as_str())
    };
    let changes = if mutating {
        one(concat(phrase.as_str(), " executed"))
    } else {
        none()
    };
    let warnings = if ok {
        none()
    } else if output.timed_out {
        one(concat(phrase.as_str(), " timed out"))
    } else {
        one(concat3(phrase.as_str(), " exited with status ", output.status.as_str()))
    };
    let err = trim(output.stderr.as_str());
    let errors = if ok {
        none()
    } else if err.as_str().is_empty() && output.timed_out {
        let secs = u64_to_string(DEFAULT_PROCESS_TIMEOUT_SECS);
        one(concat4(phrase.as_str(), " timed out after ", secs.as_str(), " seconds"))
    } else {
        one(err)
    };
    AdapterOutcome {
        ok,
        summary,
        changes,
        warnings,
        errors,
        artifacts: Vec::new(),
        stdout: Some(output.stdout),
        stderr: Some(output.stderr),
        command: Some(display),
    }
}

/// The step of a launcher call once its argument vectors are known.
pub open spec fn launch_step_ok(
    r: Result<AdapterStep, String>,
    tool_name: Seq<char>,
    label: Seq<char>,
    launcher: Seq<char>,
    launcher_exists: bool,
    prefix: Seq<Seq<char>>,
    report_args: Seq<Seq<char>>,
    exec_args: Seq<Seq<char>>,
    cwd: Seq<char>,
    platform: Platform,
    dry_run: bool,
    mutating: bool,
) -> bool {
    if dry_run {
        r matches Ok(AdapterStep::Done(o)) && dry_run_outcome_ok(
            o,
            tool_name,
            label,
            launcher,
            launcher_exists,
            mutating,
            invocation_display(launcher, prefix + report_args, platform),
        )
    } else if !launcher_exists {
        r matches Err(e) && e@ == launcher_missing(launcher)
    } else {
        r matches Ok(AdapterStep::Run { command, display }) && {
            &&& command.program@ == invocation_program(launcher, platform)
            &&& views(command.args@) == invocation_args(launcher, prefix + exec_args, platform)
            &&& command.cwd@ == cwd
            &&& command.timeout_secs == DEFAULT_PROCESS_TIMEOUT_SECS
            &&& views(display@) == invocation_display(launcher, prefix + exec_args, platform)
        }
    }
}

/// What happened when `runner` was handed `command`: the runner's error is
/// the call's error, and its output is what the outcome reports.
pub open spec fn ran_ok<R: ProcessRunner>(
    r: Result<AdapterOutcome, String>,
    runner: &R,
    command: ProcessCommand,
    res: Result<ProcessOutput, String>,
    tool_name: Seq<char>,
    label: Seq<char>,
    mutating: bool,
    display: Seq<Seq<char>>,
) -> bool {
    &&& call_ensures(R::run, (runner, &command), res)
    &&& match res {
        Err(e) => r == Err::<AdapterOutcome, String>(e),
        Ok(out) => r matches Ok(o) && process_outcome_ok(o, tool_name, label, mutating, display, out),
    }
}

/// A whole launcher call, once its argument vectors are known: a dry run
/// answers at once; a missing launcher is an error; otherwise `runner` is
/// handed the launcher's command (program, arguments, working directory and
/// timeout), its error is the call's error, and its output is what the
/// outcome reports.
pub open spec fn invoke_ok<R: ProcessRunner>(
    r: Result<AdapterOutcome, String>,
    runner: &R,
    tool_name: Seq<char>,
    label: Seq<char>,
    launcher: Seq<char>,
    launcher_exists: bool,
    prefix: Seq<Seq<char>>,
    report_args: Seq<Seq<char>>,
    exec_args: Seq<Seq<char>>,
    cwd: Seq<char>,
    platform: Platform,
    dry_run: bool,
    mutating: bool,
) -> bool {
    if dry_run {
        r matches Ok(o) && dry_run_outcome_ok(
            o,
            tool_name,
            label,
            launcher,
            launcher_exists,
            mutating,
            invocation_display(launcher, prefix + report_args, platform),
        )
    } else if !launcher_exists {
        r matches Err(e) && e@ == launcher_missing(launcher)
    } else {
        exists|command: ProcessCommand, res: Result<ProcessOutput, String>|
            #[trigger] ran_ok(
                r,
                runner,
                command,
                res,
                tool_name,
                label,
                mutating,
                invocation_display(launcher, prefix + exec_args, platform),
            ) && {
                &&& command.program@ == invocation_program(launcher, platform)
                &&& views(command.args@) == invocation_args(launcher, prefix + exec_args, platform)
                &&& command.cwd@ == cwd
                &&& command.timeout_secs == DEFAULT_PROCESS_TIMEOUT_SECS
            }
    }
}

/// Runs the step of a launcher call with `runner` and finishes it.
fn run_step<R: ProcessRunner>(
    runner: &R,
    step: Result<AdapterStep, String>,
    tool_name: &str,
    label: &str,
    mutating: bool,
) -> (r: Result<AdapterOutcome, String>)
    ensures
        match step {
            Err(e) => r == Err::<AdapterOutcome, String>(e),
            Ok(AdapterStep::Done(o)) => r == Ok::<AdapterOutcome, String>(o),
            Ok(AdapterStep::Run { command, display }) => exists|res: Result<ProcessOutput, String>|
                #[trigger] ran_ok(r, runner, command, res, tool_name@, label@, mutating, views(display@)),
        },
{
    match step {
        Err(e) => Err(e),
        Ok(AdapterStep::Done(o)) => Ok(o),
        Ok(AdapterStep::Run { command, display }) => {
            let ghost disp = views(display@);
            let res = runner.run(&command);
            let ghost res_g = res;
            let r = match res {
                Err(e) => Err(e),
                Ok(output) => Ok(process_outcome(tool_name, label, mutating, display, output)),
            };
            assert(ran_ok(r, runner, command, res_g, tool_name@, label@, mutating, disp));
            r
        },
    }
}

fn launch_step(
    tool_name: &str,
    label: &str,
    launcher: &str,
    launcher_exists: bool,
    prefix: &Vec<String>,
    report_args: &Vec<String>,
    exec_args: &Vec<String>,
    cwd: &str,
    platform: Platform,
    dry_run: bool,
    mutating: bool,
) -> (r: Result<AdapterStep, String>)
    ensures
        launch_step_ok(
            r,
            tool_name@,
            label@,
            launcher@,
            launcher_exists,
            views(prefix@),
            views(report_args@),
            views(exec_args@),
            cwd@,
            platform,
            dry_run,
            mutating,
        ),
{
    if dry_run {
        let report = launcher_invocation(launcher, prefix, report_args, platform);
        return Ok(
            AdapterStep::Done(
                dry_run_outcome(tool_name, label, launcher, launcher_exists, mutating, report.display),
            ),
        );
    }
    if !launcher_exists {
        return Err(concat("internal adapter launcher not found: ", launcher));
    }
    let invocation = launcher_invocation(launcher, prefix, exec_args, platform);
    Ok(
        AdapterStep::Run {
            command: ProcessCommand {
                program: invocation.program,
                args: invocation.args,
                cwd: cwd.to_string(),
                timeout_secs: DEFAULT_PROCESS_TIMEOUT_SECS,
            },
            display: invocation.display,
        },
    )
}

// ---------------------------------------------------------------------------
// The generic command-line adapter
// ---------------------------------------------------------------------------

/// An adapter that calls a launcher script with a fixed command and the
/// tool arguments as flags.
#[derive(Debug, Clone, Copy)]
pub struct CliAdapter {
    pub launcher: &'static str,
    pub default_command: &'static [&'static str],
    pub label: &'static str,
}

fn static_words(words: &'static [&'static str]) -> (v: Vec<String>)
    ensures
        views(v@) == crate::tools::strs(words@),
{
    let mut v: Vec<String> = Vec::new();
    let mut i: usize = 0;
    while i < words.len()
        invariant
            i <= words@.len(),
            views(v@) == crate::tools::strs(words@).take(i as int),
        decreases words@.len() - i,
    {
        crate::argv::push_arg(&mut v, words[i]);
        assert(crate::tools::strs(words@).take(i + 1) =~= crate::tools::strs(words@).take(
            i as int,
        ).push(words@[i as int]@));
        i += 1;
    }
    assert(crate::tools::strs(words@).take(words@.len() as int) =~= crate::tools::strs(words@));
    v
}

impl CliAdapter {
    pub fn new(launcher: &'static str, default_command: &'static [&'static str], label: &'static str) -> (a: Self)
        ensures
            a.launcher == launcher,
            a.default_command == default_command,
            a.label == label,
    {
        CliAdapter { launcher, default_command, label }
    }

    /// The first step of a call.  `plugin_root` is where the plugin was
    /// found (if anywhere); `launcher_exists` tells whether the launcher that
    /// [`resolve_launcher`] names under it exists.
    pub fn plan(
        &self,
        tool_name: &str,
        args: &JsonObject,
        cwd: &str,
        plugin_root: Option<&str>,
        launcher_exists: bool,
        platform: Platform,
        dry_run: bool,
        mutating: bool,
    ) -> (r: Result<AdapterStep, String>)
        ensures
            match plugin_root {
                None => r matches Err(e) && e@ == plugin_root_missing(),
                Some(root) => match (cli_args_spec(args.entries@, true), cli_args_spec(args.entries@, false)) {
                    (Err(e), _) => r matches Err(m) && m@ == e,
                    (Ok(_), Err(e)) => r matches Err(m) && m@ == e,
                    (Ok(report), Ok(exec)) => launch_step_ok(
                        r,
                        tool_name@,
                        self.label@,
                        resolve_launcher_spec(root@, self.launcher@, platform),
                        launcher_exists,
                        crate::tools::strs(self.default_command@),
                        report,
                        exec,
                        cwd@,
                        platform,
                        dry_run,
                        mutating,
                    ),
                },
            },
    {
        let root = match plugin_root {
            Some(root) => root,
            None => {
                return Err("could not locate Unica plugin root for internal adapter lookup".to_string());
            },
        };
        let launcher = resolve_launcher(root, self.launcher, platform);
        let report_args = cli_args(args, true)?;
        let execution_args = cli_args(args, false)?;
        let prefix = static_words(self.default_command);
        launch_step(
            tool_name,
            self.label,
            launcher.as_str(),
            launcher_exists,
            &prefix,
            &report_args,
            &execution_args,
            cwd,
            platform,
            dry_run,
            mutating,
        )
    }

    /// The outcome once the launcher ran.
    pub fn finish(&self, tool_name: &str, mutating: bool, display: Vec<String>, output: ProcessOutput) -> (o: AdapterOutcome)
        ensures
            process_outcome_ok(o, tool_name@, self.label@, mutating, views(display@), output),
    {
        process_outcome(tool_name, self.label, mutating, display, output)
    }

    /// A whole call: plans it, runs the launcher with `runner` unless the
    /// plan answers at once, and finishes it.
    pub fn invoke<R: ProcessRunner>(
        &self,
        runner: &R,
        tool_name: &str,
        args: &JsonObject,
        cwd: &str,
        plugin_root: Option<&str>,
        launcher_exists: bool,
        platform: Platform,
        dry_run: bool,
        mutating: bool,
    ) -> (r: Result<AdapterOutcome, String>)
        ensures
            match plugin_root {
                None => r matches Err(e) && e@ == plugin_root_missing(),
                Some(root) => match (cli_args_spec(args.entries@, true), cli_args_spec(args.entries@, false)) {
                    (Err(e), _) => r matches Err(m) && m@ == e,
                    (Ok(_), Err(e)) => r matches Err(m) && m@ == e,
                    (Ok(report), Ok(exec)) => invoke_ok(
                        r,
                        runner,
                        tool_name@,
                        self.label@,
                        resolve_launcher_spec(root@, self.launcher@, platform),
                        launcher_exists,
                        crate::tools::strs(self.default_command@),
                        report,
                        exec,
                        cwd@,
                        platform,
                        dry_run,
                        mutating,
                    ),
                },
            },
    {
        let step = self.plan(tool_name, args, cwd, plugin_root, launcher_exists, platform, dry_run, mutating);
        run_step(runner, step, tool_name, self.label, mutating)
    }
}

// ---------------------------------------------------------------------------
// The runtime adapter
// ---------------------------------------------------------------------------

/// The adapter of `unica.runtime.execute`: typed operations of v8-runner.
#[derive(Debug, Clone, Copy)]
pub struct RuntimeAdapter;

pub open spec fn runtime_label() -> Seq<char> {
    "v8-runner runtime"@
}

impl RuntimeAdapter {
    pub fn new() -> (a: Self) {
        RuntimeAdapter
    }

    pub fn launcher() -> (l: &'static str)
        ensures
            l@ == "run-v8-runner.sh"@,
    {
        "run-v8-runner.sh"
    }

    pub fn plan(
        &self,
        tool_name: &str,
        args: &JsonObject,
        cwd: &str,
        plugin_root: Option<&str>,
        launcher_exists: bool,
        platform: Platform,
        dry_run: bool,
        mutating: bool,
    ) -> (r: Result<AdapterStep, String>)
        ensures
            match plugin_root {
                None => r matches Err(e) && e@ == plugin_root_missing(),
                Some(root) => match (runtime_args_spec(args.entries@, true), runtime_args_spec(args.entries@, false)) {
                    (Err(e), _) => r matches Err(m) && m@ == e,
                    (Ok(_), Err(e)) => r matches Err(m) && m@ == e,
                    (Ok(report), Ok(exec)) => launch_step_ok(
                        r,
                        tool_name@,
                        runtime_label(),
                        resolve_launcher_spec(root@, "run-v8-runner.sh"@, platform),
                        launcher_exists,
                        Seq::<Seq<char>>::empty(),
                        report,
                        exec,
                        cwd@,
                        platform,
                        dry_run,
                        mutating,
                    ),
                },
            },
    {
        let root = match plugin_root {
            Some(root) => root,
            None => {
                return Err("could not locate Unica plugin root for internal adapter lookup".to_string());
            },
        };
        let launcher = resolve_launcher(root, "run-v8-runner.sh", platform);
        let report_args = runtime_args(args, true)?;
        let execution_args = runtime_args(args, false)?;
        let prefix: Vec<String> = Vec::new();
        assert(views(prefix@) =~= Seq::<Seq<char>>::empty());
        launch_step(
            tool_name,
            "v8-runner runtime",
            launcher.as_str(),
            launcher_exists,
            &prefix,
            &report_args,
            &execution_args,
            cwd,
            platform,
            dry_run,
            mutating,
        )
    }

    pub fn finish(&self, tool_name: &str, mutating: bool, display: Vec<String>, output: ProcessOutput) -> (o: AdapterOutcome)
        ensures
            process_outcome_ok(o, tool_name@, runtime_label(), mutating, views(display@), output),
    {
        process_outcome(tool_name, "v8-runner runtime", mutating, display, output)
    }

    /// A whole call of `unica.runtime.execute` (see [`CliAdapter::invoke`]).
    pub fn invoke<R: ProcessRunner>(
        &self,
        runner: &R,
        tool_name: &str,
        args: &JsonObject,
        cwd: &str,
        plugin_root: Option<&str>,
        launcher_exists: bool,
        platform: Platform,
        dry_run: bool,
        mutating: bool,
    ) -> (r: Result<AdapterOutcome, String>)
        ensures
            match plugin_root {
                None => r matches Err(e) && e@ == plugin_root_missing(),
                Some(root) => match (runtime_args_spec(args.entries@, true), runtime_args_spec(args.entries@, false)) {
                    (Err(e), _) => r matches Err(m) && m@ == e,
                    (Ok(_), Err(e)) => r matches Err(m) && m@ == e,
                    (Ok(report), Ok(exec)) => invoke_ok(
                        r,
                        runner,
                        tool_name@,
                        runtime_label(),
                        resolve_launcher_spec(root@, "run-v8-runner.sh"@, platform),
                        launcher_exists,
                        Seq::<Seq<char>>::empty(),
                        report,
                        exec,
                        cwd@,
                        platform,
                        dry_run,
                        mutating,
                    ),
                },
            },
    {
        let step = self.plan(tool_name, args, cwd, plugin_root, launcher_exists, platform, dry_run, mutating);
        proof {
            reveal_strlit("v8-runner runtime");
        }
        run_step(runner, step, tool_name, "v8-runner runtime", mutating)
    }
}

/// A dry run never runs a process: whatever the arguments, the first step of
/// a dry call that is not rejected is the final answer, and it reports success.
pub proof fn lemma_dry_run_never_executes(
    r: Result<AdapterStep, String>,
    tool_name: Seq<char>,
    label: Seq<char>,
    launcher: Seq<char>,
    launcher_exists: bool,
    prefix: Seq<Seq<char>>,
    report_args: Seq<Seq<char>>,
    exec_args: Seq<Seq<char>>,
    cwd: Seq<char>,
    platform: Platform,
    mutating: bool,
)
    requires
        launch_step_ok(r, tool_name, label, launcher, launcher_exists, prefix, report_args, exec_args, cwd, platform, true, mutating),
    ensures
        r matches Ok(AdapterStep::Done(o)) && o.ok,
{
}

} // verus!
