//! Tools carried out by a skill's Python script.

use vstd::prelude::*;
use crate::adapters::ProcessOutput;
use crate::argv::{push_arg, script_args, script_argv};
use crate::json::JsonObject;
use crate::outcome::AdapterOutcome;
use crate::text::{concat, concat3, concat4, trim, trim_seq, views};
use crate::workspace::{path_join, path_join_spec, Platform};

verus! {

/// Runs a skill's script with `python3`.
pub struct LegacyScriptAdapter;

/// What the legacy adapter does next.
pub enum LegacyStep {
    Done(AdapterOutcome),
    Run { program: String, args: Vec<String>, cwd: String, command: Vec<String> },
}

/// `<plugin root>/skills/<skill>/scripts/<script>`.
pub open spec fn script_path_spec(root: Seq<char>, skill: Seq<char>, script: Seq<char>, platform: Platform) -> Seq<char> {
    let skills = path_join_spec(root, "skills"@, platform);
    let scripts = path_join_spec(path_join_spec(skills, skill, platform), "scripts"@, platform);
    path_join_spec(scripts, script, platform)
}

pub open spec fn legacy_root_missing() -> Seq<char> {
    "could not locate Unica plugin root; set UNICA_PLUGIN_ROOT or run from a repository/package containing plugins/unica"@
}

pub open spec fn script_missing(script: Seq<char>) -> Seq<char> {
    "fallback script not found: "@ + script
}

fn one(s: String) -> (v: Vec<String>)
    ensures
        views(v@) == seq![s@],
{
    let mut v = Vec::new();
    v.push(s);
    assert(views(v@) =~= seq![v@[0]@]);
    v
}

fn none() -> (v: Vec<String>)
    ensures
        views(v@) == Seq::<Seq<char>>::empty(),
{
    let v = Vec::new();
    assert(views(v@) =~= Seq::<Seq<char>>::empty());
    v
}

impl LegacyScriptAdapter {
    pub fn script_path(plugin_root: &str, skill: &str, script_name: &str, platform: Platform) -> (p: String)
        ensures
            p@ == script_path_spec(plugin_root@, skill@, script_name@, platform),
    {
        let a = path_join(plugin_root, "skills", platform);
        let b = path_join(a.as_str(), skill, platform);
        let c = path_join(b.as_str(), "scripts", platform);
        path_join(c.as_str(), script_name, platform)
    }

    /// The first step of a call: on a dry run the command that would run;
    /// otherwise the process to run, or the error when the script is missing.
    pub fn plan(
        skill: &str,
        script_name: &str,
        tool_name: &str,
        args: &JsonObject,
        cwd: &str,
        plugin_root: Option<&str>,
        script_exists: bool,
        platform: Platform,
        dry_run: bool,
        mutating: bool,
    ) -> (r: Result<LegacyStep, String>)
        ensures
            match plugin_root {
                None => r matches Err(e) && e@ == legacy_root_missing(),
                Some(root) => {
                    let script = script_path_spec(root@, skill@, script_name@, platform);
                    let command = seq!["python3"@, script] + script_argv(args.entries@);
                    if dry_run {
                        r matches Ok(LegacyStep::Done(o)) && {
                            &&& o.ok
                            &&& o.summary@ == "dry run: would execute "@ + tool_name@
                                + " through legacy script "@ + script_name@
                            &&& views(o.changes@) == (if mutating {
                                seq!["no files changed because dryRun is true"@]
                            } else {
                                Seq::<Seq<char>>::empty()
                            })
                            &&& views(o.warnings@) == (if script_exists {
                                Seq::<Seq<char>>::empty()
                            } else {
                                seq![script_missing(script)]
                            })
                            &&& o.errors@.len() == 0 && o.artifacts@.len() == 0
                            &&& o.stdout is None && o.stderr is None
                            &&& o.command matches Some(c) && views(c@) == command
                        }
                    } else if !script_exists {
                        r matches Err(e) && e@ == script_missing(script)
                    } else {
                        r matches Ok(LegacyStep::Run { program, args: a, cwd: d, command: c }) && {
                            &&& program@ == "python3"@
                            &&& views(a@) == seq![script] + script_argv(args.entries@)
                            &&& d@ == cwd@
                            &&& views(c@) == command
                        }
                    }
                },
            },
    {
        let root = match plugin_root {
            Some(root) => root,
            None => {
                return Err(
                    "could not locate Unica plugin root; set UNICA_PLUGIN_ROOT or run from a repository/package containing plugins/unica".to_string(),
                );
            },
        };
        let script = Self::script_path(root, skill, script_name, platform);
        let flags = script_args(args);
        let mut command: Vec<String> = Vec::new();
        push_arg(&mut command, "python3");
        push_arg(&mut command, script.as_str());
        let mut run_args: Vec<String> = Vec::new();
        push_arg(&mut run_args, script.as_str());
        let mut i: usize = 0;
        let ghost c0 = views(command@);
        let ghost a0 = views(run_args@);
        while i < flags.len()
            invariant
                i <= flags@.len(),
                views(command@) == c0 + views(flags@).take(i as int),
                views(run_args@) == a0 + views(flags@).take(i as int),
            decreases flags@.len() - i,
        {
            push_arg(&mut command, flags[i].as_str());
            push_arg(&mut run_args, flags[i].as_str());
            assert(views(flags@).take(i + 1) =~= views(flags@).take(i as int).push(flags@[i as int]@));
            i += 1;
        }
        assert(views(flags@).take(flags@.len() as int) =~= views(flags@));
        assert(c0 =~= seq!["python3"@, script@]);
        assert(a0 =~= seq![script@]);
        if dry_run {
            return Ok(
                LegacyStep::Done(
                    AdapterOutcome {
                        ok: true,
                        summary: concat4(
                            "dry run: would execute ",
                            tool_name,
                            " through legacy script ",
                            script_name,
                        ),
                        changes: if mutating {
                            one("no files changed because dryRun is true".to_string())
                        } else {
                            none()
                        },
                        warnings: if script_exists {
                            none()
                        } else {
                            one(concat("fallback script not found: ", script.as_str()))
                        },
                        errors: Vec::new(),
                        artifacts: Vec::new(),
                        stdout: None,
                        stderr: None,
                        command: Some(command),
                    },
                ),
            );
        }
        if !script_exists {
            return Err(concat("fallback script not found: ", script.as_str()));
        }
        Ok(LegacyStep::Run { program: "python3".to_string(), args: run_args, cwd: cwd.to_string(), command })
    }

    /// The outcome once the script ran.
    pub fn finish(tool_name: &str, script_name: &str, mutating: bool, command: Vec<String>, output: ProcessOutput) -> (o: AdapterOutcome)
        ensures
            o.ok == output.status_success,
            o.summary@ == tool_name@ + (if output.status_success {
                " completed through legacy script "@
            } else {
                " failed through legacy script "@
            }) + script_name@,
            views(o.changes@) == (if mutating {
                seq!["legacy script executed with dryRun=false"@]
            } else {
                Seq::<Seq<char>>::empty()
            }),
            views(o.warnings@) == (if output.status_success {
                Seq::<Seq<char>>::empty()
            } else {
                seq!["fallback exited with status "@ + output.status@]
            }),
            views(o.errors@) == (if output.status_success {
                Seq::<Seq<char>>::empty()
            } else {
                seq![trim_seq(output.stderr@)]
            }),
            o.artifacts@.len() == 0,
            o.stdout matches Some(s) && s@ == output.stdout@,
            o.stderr matches Some(s) && s@ == output.stderr@,
            o.command == Some(command),
    {
        let ok = output.status_success;
        let summary = if ok {
            concat3(tool_name, " completed through legacy script ", script_name)
        } else {
            concat3(tool_name, " failed through legacy script ", script_name)
        };
        let changes = if mutating {
            one("legacy script executed with dryRun=false".to_string())
        } else {
            none()
        };
        let warnings = if ok {
            none()
        } else {
            one(concat("fallback exited with status ", output.status.as_str()))
        };
        let errors = if ok {
            none()
        } else {
            one(trim(output.stderr.as_str()))
        };
        AdapterOutcome {
            ok,
            summary,
            changes,
            warnings,
            errors,
            artifacts: Vec::new(),
            stdout: Some(output.stdout),
            stderr: Some(output.stderr),
            command: Some(command),
        }
    }
}

} // verus!
