//! `unica.code.search`: the analyzer's answer, extended with the methods
//! that the code index finds.  Running the analyzer and reading the index
//! database are done by the caller; what is asked and what is answered is
//! decided here.

use vstd::prelude::*;
use crate::adapters::{AdapterStep, CliAdapter, Platform};
use crate::argv::cli_args_spec;
use crate::index::IndexReadiness;
use crate::json::{arg_str, obj_get, JsonObject, JsonValue};
use crate::outcome::AdapterOutcome;
use crate::text::{
    concat, concat3, int_text, join, join_seq, parse_u64, replace_char, replace_char_seq, trim,
    trim_end, trim_end_seq, trim_seq, u64_of_text, views, i64_to_string,
};

verus! {

/// A titled block of text: the title line, then the text without its
/// trailing whitespace (the title alone when nothing is left).
pub open spec fn section_spec(name: Seq<char>, text: Seq<char>) -> Seq<char> {
    let body = trim_end_seq(text);
    if body.len() == 0 {
        "=== "@ + name + " ==="@
    } else {
        "=== "@ + name + " ===\n"@ + body
    }
}

pub fn format_section(name: &str, text: &str) -> (r: String)
    ensures
        r@ == section_spec(name@, text@),
{
    let body = trim_end(text);
    let head = concat3("=== ", name, " ===");
    if body.as_str().is_empty() {
        head
    } else {
        let head = concat3("=== ", name, " ===\n");
        concat(head.as_str(), body.as_str())
    }
}

/// How many index hits are listed when the call names no limit.
pub const DEFAULT_RLM_LIMIT: u64 = 20;

/// What the index is asked: the trimmed `query` and the `limit`, when the
/// query is a non-empty string.  A limit that is not a whole number in
/// `u64` falls back to [`DEFAULT_RLM_LIMIT`].
pub open spec fn rlm_terms_spec(args: Seq<(String, JsonValue)>) -> Option<(Seq<char>, u64)> {
    match arg_str(args, "query"@) {
        Some(q) if trim_seq(q).len() > 0 => Some(
            (
                trim_seq(q),
                match obj_get(args, "limit"@) {
                    Some(JsonValue::Number(t)) => match u64_of_text(t@) {
                        Some(n) => n,
                        None => DEFAULT_RLM_LIMIT,
                    },
                    _ => DEFAULT_RLM_LIMIT,
                },
            ),
        ),
        _ => None,
    }
}

pub fn rlm_search_terms(args: &JsonObject) -> (r: Option<(String, u64)>)
    ensures
        match r {
            Some((q, n)) => rlm_terms_spec(args.entries@) == Some((q@, n)),
            None => rlm_terms_spec(args.entries@) is None,
        },
{
    let query = match crate::json::get_str(args, "query") {
        Some(q) => trim(q),
        None => {
            return None;
        },
    };
    if query.as_str().is_empty() {
        return None;
    }
    let limit = match args.get("limit") {
        Some(JsonValue::Number(t)) => match parse_u64(t.as_str()) {
            Some(n) => n,
            None => DEFAULT_RLM_LIMIT,
        },
        _ => DEFAULT_RLM_LIMIT,
    };
    Some((query, limit))
}

/// The full-text query for a search phrase: the phrase in double quotes,
/// with each double quote inside it doubled.
pub open spec fn fts_query_spec(query: Seq<char>) -> Seq<char> {
    seq!['"'] + replace_char_seq(query, '"', seq!['"', '"']) + seq!['"']
}

pub fn fts_query(query: &str) -> (r: String)
    ensures
        r@ == fts_query_spec(query@),
{
    let inner = replace_char(query, '"', "\"\"");
    proof {
        reveal_strlit("\"\"");
        reveal_strlit("\"");
        assert("\"\""@ =~= seq!['"', '"']);
        assert("\""@ =~= seq!['"']);
    }
    concat3("\"", inner.as_str(), "\"")
}

/// One index hit as a line of the listing:
/// `- <module>:<line> <type> <name>(<params>)`, with ` export` after an
/// exported method.
pub open spec fn rlm_row_spec(
    module_file: Seq<char>,
    line: int,
    method_type: Seq<char>,
    name: Seq<char>,
    params: Option<Seq<char>>,
    is_export: bool,
) -> Seq<char> {
    "- "@ + module_file + ":"@ + int_text(line) + " "@ + method_type + " "@ + name + "("@
        + trim_seq(
        match params {
            Some(p) => p,
            None => seq![],
        },
    ) + ")"@ + (if is_export {
        " export"@
    } else {
        seq![]
    })
}

pub fn rlm_row_line(
    module_file: &str,
    line: i64,
    method_type: &str,
    name: &str,
    params: Option<&str>,
    is_export: i64,
) -> (r: String)
    ensures
        r@ == rlm_row_spec(
            module_file@,
            line as int,
            method_type@,
            name@,
            match params {
                Some(p) => Some(p@),
                None => None,
            },
            is_export != 0,
        ),
{
    let params_text = match params {
        Some(p) => trim(p),
        None => {
            proof {
                reveal_strlit("");
            }
            trim("")
        },
    };
    let line_text = i64_to_string(line);
    let mut r = concat3("- ", module_file, ":");
    r.append(line_text.as_str());
    r.append(" ");
    r.append(method_type);
    r.append(" ");
    r.append(name);
    r.append("(");
    r.append(params_text.as_str());
    r.append(")");
    if is_export != 0 {
        r.append(" export");
    }
    proof {
        reveal_strlit("");
        assert(""@ =~= Seq::<char>::empty());
    }
    r
}

/// The listing of the index hits: one line each, or a note that nothing
/// matched.
pub open spec fn rlm_listing_spec(lines: Seq<Seq<char>>) -> Seq<char> {
    if lines.len() == 0 {
        "No RLM method matches."@
    } else {
        join_seq(lines, "\n"@)
    }
}

pub fn rlm_listing(lines: &Vec<String>) -> (r: String)
    ensures
        r@ == rlm_listing_spec(views(lines@)),
{
    if lines.len() == 0 {
        "No RLM method matches.".to_string()
    } else {
        join(lines, "\n")
    }
}

/// The adapter of `unica.code.search`.
#[derive(Debug, Clone, Copy)]
pub struct CodeSearchAdapter;

/// The warning that the index state adds to a search, if any; `rlm` is
/// what reading the index gave (looked at only when the index is ready).
pub open spec fn rlm_warning(readiness: IndexReadiness, rlm: Result<Option<String>, String>) -> Option<Seq<char>> {
    match readiness {
        IndexReadiness::Ready { .. } => match rlm {
            Err(e) => Some("rlm search failed: "@ + e@),
            Ok(_) => None,
        },
        IndexReadiness::Building => Some("rlm index building"@),
        IndexReadiness::Stale => Some("rlm index building"@),
        IndexReadiness::Missing => Some("rlm index unavailable: index is missing"@),
        IndexReadiness::Failed(e) => Some("rlm index unavailable: "@ + e@),
        IndexReadiness::Unavailable(e) => Some("rlm index unavailable: "@ + e@),
    }
}

/// The text of a search: the analyzer's section, then the index's section
/// when the index was ready and gave a listing.
pub open spec fn search_stdout(
    analyzer_stdout: Seq<char>,
    readiness: IndexReadiness,
    rlm: Result<Option<String>, String>,
) -> Seq<char> {
    let head = section_spec("bsl-analyzer"@, analyzer_stdout);
    match (readiness, rlm) {
        (IndexReadiness::Ready { .. }, Ok(Some(listing))) => head + "\n\n"@ + section_spec(
            "rlm"@,
            listing@,
        ),
        _ => head,
    }
}

/// The answer of a search: the analyzer's outcome with its output put into
/// sections and the index's warning added after the analyzer's warnings.
pub open spec fn merge_ok(
    o: AdapterOutcome,
    analyzer: AdapterOutcome,
    readiness: IndexReadiness,
    rlm: Result<Option<String>, String>,
) -> bool {
    &&& o.ok == analyzer.ok
    &&& o.summary == analyzer.summary
    &&& o.changes == analyzer.changes
    &&& o.errors == analyzer.errors
    &&& o.artifacts == analyzer.artifacts
    &&& o.command == analyzer.command
    &&& o.stderr == analyzer.stderr
    &&& o.stdout matches Some(out) && out@ == search_stdout(
        match analyzer.stdout {
            Some(s) => s@,
            None => seq![],
        },
        readiness,
        rlm,
    )
    &&& o.warnings@.len() == analyzer.warnings@.len() + (if rlm_warning(readiness, rlm) is Some {
        1int
    } else {
        0int
    })
    &&& o.warnings@.subrange(0, analyzer.warnings@.len() as int) == analyzer.warnings@
    &&& rlm_warning(readiness, rlm) matches Some(w) ==> o.warnings@.last()@ == w
}

/// Where a search stands once its analyzer call was planned.
pub enum SearchState {
    /// The analyzer is running.
    Analyzing,
    /// The analyzer answered; the code index is being asked.
    AskingIndex { analyzer: AdapterOutcome },
    /// The index is ready; its database is being searched.
    SearchingIndex { analyzer: AdapterOutcome, readiness: IndexReadiness },
    Done,
}

/// What the caller found out.
pub enum SearchEvent {
    /// The analyzer's outcome.
    Analyzed(AdapterOutcome),
    /// Whether the code index is ready.
    IndexAnswered(IndexReadiness),
    /// What searching the index database gave.
    Searched(Result<Option<String>, String>),
}

/// What the caller does next.
pub enum SearchAction {
    /// Ask whether the code index is ready.
    AskIndex,
    /// Search the index database at this path.
    SearchDatabase(String),
    /// Answer the call.
    Answer(AdapterOutcome),
}

/// One step of a search: a dry run answers with the analyzer's outcome; a
/// real one asks the index, searches its database only when it is ready,
/// and answers with the merged outcome.  An event that does not answer the
/// last action ends the search with a failure.
pub open spec fn search_step_ok(
    dry_run: bool,
    state: SearchState,
    event: SearchEvent,
    next: SearchState,
    a: SearchAction,
) -> bool {
    match (state, event) {
        (SearchState::Analyzing, SearchEvent::Analyzed(o)) => if dry_run {
            next is Done && a == SearchAction::Answer(o)
        } else {
            a is AskIndex && next == SearchState::AskingIndex { analyzer: o }
        },
        (SearchState::AskingIndex { analyzer }, SearchEvent::IndexAnswered(r)) => match r {
            IndexReadiness::Ready { db_path } => (a matches SearchAction::SearchDatabase(p) && p@ == db_path@)
                && next == SearchState::SearchingIndex { analyzer, readiness: r },
            _ => next is Done && (a matches SearchAction::Answer(o) && merge_ok(
                o,
                analyzer,
                r,
                Ok(None),
            )),
        },
        (SearchState::SearchingIndex { analyzer, readiness }, SearchEvent::Searched(rlm)) => next is Done
            && (a matches SearchAction::Answer(o) && merge_ok(o, analyzer, readiness, rlm)),
        _ => next is Done && (a matches SearchAction::Answer(o) && !o.ok),
    }
}

impl CodeSearchAdapter {
    /// One step of a search (see [`search_step_ok`]); the first step takes
    /// the analyzer's outcome in `Analyzing`.
    pub fn search_step(&self, dry_run: bool, state: SearchState, event: SearchEvent) -> (r: (SearchState, SearchAction))
        ensures
            search_step_ok(dry_run, state, event, r.0, r.1),
    {
        match (state, event) {
            (SearchState::Analyzing, SearchEvent::Analyzed(o)) => if dry_run {
                (SearchState::Done, SearchAction::Answer(o))
            } else {
                (SearchState::AskingIndex { analyzer: o }, SearchAction::AskIndex)
            },
            (SearchState::AskingIndex { analyzer }, SearchEvent::IndexAnswered(r)) => match r {
                IndexReadiness::Ready { db_path } => {
                    let path = db_path.clone();
                    (
                        SearchState::SearchingIndex { analyzer, readiness: IndexReadiness::Ready { db_path } },
                        SearchAction::SearchDatabase(path),
                    )
                },
                other => {
                    let o = self.merge(analyzer, &other, &Ok(None));
                    (SearchState::Done, SearchAction::Answer(o))
                },
            },
            (SearchState::SearchingIndex { analyzer, readiness }, SearchEvent::Searched(rlm)) => {
                let o = self.merge(analyzer, &readiness, &rlm);
                (SearchState::Done, SearchAction::Answer(o))
            },
            _ => {
                let o = AdapterOutcome::failure(
                    "unica.code.search stopped: its steps came out of order".to_string(),
                    "code search steps out of order".to_string(),
                    Vec::new(),
                );
                (SearchState::Done, SearchAction::Answer(o))
            },
        }
    }
}

impl CodeSearchAdapter {
    pub fn new() -> (a: Self) {
        CodeSearchAdapter
    }

    /// The analyzer call that a search starts with: `run-bsl-analyzer.sh
    /// search`, reported as the code analysis adapter.
    pub fn analyzer(&self) -> (a: CliAdapter)
        ensures
            a.launcher@ == "run-bsl-analyzer.sh"@,
            crate::tools::strs(a.default_command@) == seq!["search"@],
            a.label@ == "code analysis"@,
    {
        let a = CliAdapter::new("run-bsl-analyzer.sh", &["search"], "code analysis");
        assert(crate::tools::strs(a.default_command@) =~= seq!["search"@]);
        a
    }

    /// The first step of a search: the analyzer's, for a call that changes
    /// nothing.  A dry run ends here with the analyzer's outcome.
    pub fn plan(
        &self,
        tool_name: &str,
        args: &JsonObject,
        cwd: &str,
        plugin_root: Option<&str>,
        launcher_exists: bool,
        platform: Platform,
        dry_run: bool,
    ) -> (r: Result<AdapterStep, String>)
        ensures
            match plugin_root {
                None => r matches Err(e) && e@ == crate::adapters::plugin_root_missing(),
                Some(root) => match (cli_args_spec(args.entries@, true), cli_args_spec(args.entries@, false)) {
                    (Err(e), _) => r matches Err(m) && m@ == e,
                    (Ok(_), Err(e)) => r matches Err(m) && m@ == e,
                    (Ok(report), Ok(exec)) => crate::adapters::launch_step_ok(
                        r,
                        tool_name@,
                        "code analysis"@,
                        crate::adapters::resolve_launcher_spec(root@, "run-bsl-analyzer.sh"@, platform),
                        launcher_exists,
                        seq!["search"@],
                        report,
                        exec,
                        cwd@,
                        platform,
                        dry_run,
                        false,
                    ),
                },
            },
    {
        let a = self.analyzer();
        a.plan(tool_name, args, cwd, plugin_root, launcher_exists, platform, dry_run, false)
    }

    /// The answer once the analyzer ran and the index was asked: the
    /// analyzer's outcome with its output put into sections and the index's
    /// warning added.
    pub fn merge(
        &self,
        analyzer: AdapterOutcome,
        readiness: &IndexReadiness,
        rlm: &Result<Option<String>, String>,
    ) -> (o: AdapterOutcome)
        ensures
            merge_ok(o, analyzer, *readiness, *rlm),
    {
        let analyzer_stdout = match &analyzer.stdout {
            Some(s) => s.clone(),
            None => String::new(),
        };
        let mut stdout = format_section("bsl-analyzer", analyzer_stdout.as_str());
        let mut warnings = analyzer.warnings;
        let ghost w0 = warnings@;
        match readiness {
            IndexReadiness::Ready { .. } => match rlm {
                Ok(Some(listing)) => {
                    stdout.append("\n\n");
                    let section = format_section("rlm", listing.as_str());
                    stdout.append(section.as_str());
                },
                Ok(None) => {},
                Err(e) => {
                    warnings.push(concat("rlm search failed: ", e.as_str()));
                },
            },
            IndexReadiness::Building => {
                warnings.push("rlm index building".to_string());
            },
            IndexReadiness::Stale => {
                warnings.push("rlm index building".to_string());
            },
            IndexReadiness::Missing => {
                warnings.push("rlm index unavailable: index is missing".to_string());
            },
            IndexReadiness::Failed(e) => {
                warnings.push(concat("rlm index unavailable: ", e.as_str()));
            },
            IndexReadiness::Unavailable(e) => {
                warnings.push(concat("rlm index unavailable: ", e.as_str()));
            },
        }
        assert(warnings@.subrange(0, w0.len() as int) =~= w0);
        AdapterOutcome {
            ok: analyzer.ok,
            summary: analyzer.summary,
            changes: analyzer.changes,
            warnings,
            errors: analyzer.errors,
            artifacts: analyzer.artifacts,
            stdout: Some(stdout),
            stderr: analyzer.stderr,
            command: analyzer.command,
        }
    }
}


/// The index database is searched only when the index said it is ready.
pub proof fn lemma_database_searched_only_when_ready(
    dry_run: bool,
    state: SearchState,
    event: SearchEvent,
    next: SearchState,
    a: SearchAction,
)
    requires
        search_step_ok(dry_run, state, event, next, a),
        a is SearchDatabase,
    ensures
        state is AskingIndex,
        event matches SearchEvent::IndexAnswered(IndexReadiness::Ready { .. }),
{
}

/// A dry search answers with the analyzer's outcome and asks the index
/// nothing.
pub proof fn lemma_dry_search_answers_with_analyzer(o: AdapterOutcome, next: SearchState, a: SearchAction)
    requires
        search_step_ok(true, SearchState::Analyzing, SearchEvent::Analyzed(o), next, a),
    ensures
        a == SearchAction::Answer(o),
        next is Done,
{
}

} // verus!
