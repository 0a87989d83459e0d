//! The traversal-filter pipeline: an immutable configuration, the events
//! a depth-first walk produces, and the decision taken on each event.
//!
//! The walker hands each visited node (or each failure to visit one) to
//! this module as a [`WalkEvent`]; the pipeline answers with the action
//! to take: emit the node's path, report a diagnostic, or skip it.
//! Processing a whole event sequence is the same decision taken event by
//! event, in order, so output order equals traversal order.

use vstd::prelude::*;
use vstd::string::StringExecFns;
use crate::filter::EntryType;
use crate::filter::classify;
use crate::filter::classify_spec;
use crate::filter::name_accepted;
use crate::filter::name_accepted_spec;
use crate::filter::pattern_views;
use crate::filter::type_accepted;
use crate::filter::type_accepted_spec;
use crate::pattern::Pattern;
use crate::pattern::pattern_matches;

verus! {

/// What a run works from: root paths to walk, in order; the set of
/// accepted entry types (empty: accept all types); and the name
/// patterns (empty: accept all names). Built once, never mutated.
pub struct Config {
    paths: Vec<String>,
    types: Vec<EntryType>,
    names: Vec<Pattern>,
}

/// The mathematical content of a [`Config`]: the paths and pattern
/// sources as character sequences.
pub struct ConfigV {
    pub paths: Seq<Seq<char>>,
    pub types: Seq<EntryType>,
    pub names: Seq<Seq<char>>,
}

impl View for Config {
    type V = ConfigV;

    closed spec fn view(&self) -> ConfigV {
        ConfigV {
            paths: self.paths@.map_values(|s: String| s@),
            types: self.types@,
            names: pattern_views(self.names@),
        }
    }
}

impl Config {
    /// Build a configuration. When no root path is supplied, the walk
    /// defaults to the current directory, `"."`.
    pub fn new(paths: Vec<String>, types: Vec<EntryType>, names: Vec<Pattern>) -> (c: Config)
        ensures
            c@.types == types@,
            c@.names == pattern_views(names@),
            paths@.len() == 0 ==> c@.paths =~= seq!["."@],
            paths@.len() > 0 ==> c@.paths == paths@.map_values(|s: String| s@),
    {
        let paths = if paths.len() == 0 {
            let mut defaults: Vec<String> = Vec::new();
            defaults.push(String::from_str("."));
            defaults
        } else {
            paths
        };
        Config { paths, types, names }
    }

    /// The root paths, in the order the walk visits them.
    pub fn paths(&self) -> (r: &Vec<String>)
        ensures
            r@.map_values(|s: String| s@) == self@.paths,
    {
        &self.paths
    }
}

/// One event of a depth-first walk.
#[derive(Debug)]
pub enum WalkEvent {
    /// A node the walker reached: its path, its base name (`None` when
    /// the name is not valid text), and the metadata flags the
    /// filesystem reports for it.
    Node { path: String, name: Option<String>, is_dir: bool, is_file: bool, is_symlink: bool },
    /// A node the walker could not visit, with the walker's message.
    Error { message: String },
}

/// The mathematical content of a [`WalkEvent`].
pub enum EventV {
    Node { path: Seq<char>, name: Option<Seq<char>>, is_dir: bool, is_file: bool, is_symlink: bool },
    Error { message: Seq<char> },
}

impl View for WalkEvent {
    type V = EventV;

    closed spec fn view(&self) -> EventV {
        match self {
            WalkEvent::Node { path, name, is_dir, is_file, is_symlink } => EventV::Node {
                path: path@,
                name: match name {
                    Some(n) => Some(n@),
                    None => None,
                },
                is_dir: *is_dir,
                is_file: *is_file,
                is_symlink: *is_symlink,
            },
            WalkEvent::Error { message } => EventV::Error { message: message@ },
        }
    }
}

/// A non-fatal condition met during a walk; the run goes on past it.
#[derive(Debug)]
pub enum Diagnostic {
    /// The walker's report of a node it could not visit.
    Traversal(String),
    /// The path of a node whose metadata matched no entry type.
    Unclassifiable(String),
}

/// The mathematical content of a [`Diagnostic`].
pub enum DiagnosticV {
    Traversal(Seq<char>),
    Unclassifiable(Seq<char>),
}

impl View for Diagnostic {
    type V = DiagnosticV;

    closed spec fn view(&self) -> DiagnosticV {
        match self {
            Diagnostic::Traversal(m) => DiagnosticV::Traversal(m@),
            Diagnostic::Unclassifiable(p) => DiagnosticV::Unclassifiable(p@),
        }
    }
}

/// What the pipeline decides for one event.
#[derive(Debug)]
pub enum Action {
    /// The node passed both filters: print its path on the output stream.
    Emit(String),
    /// A non-fatal condition: report it on the diagnostic stream.
    Report(Diagnostic),
    /// The node failed a filter or its name is not text: print nothing.
    Skip,
}

/// The mathematical content of an [`Action`].
pub enum ActionV {
    Emit(Seq<char>),
    Report(DiagnosticV),
    Skip,
}

impl View for Action {
    type V = ActionV;

    closed spec fn view(&self) -> ActionV {
        match self {
            Action::Emit(p) => ActionV::Emit(p@),
            Action::Report(d) => ActionV::Report(d@),
            Action::Skip => ActionV::Skip,
        }
    }
}

/// The decision taken on one walk event: a failed visit is reported; a
/// visited node is classified, and when it cannot be classified that is
/// reported; a classified node is emitted exactly when it passes the
/// type filter and then the name filter.
pub open spec fn event_action(cfg: ConfigV, e: EventV) -> ActionV {
    match e {
        EventV::Error { message } => ActionV::Report(DiagnosticV::Traversal(message)),
        EventV::Node { path, name, is_dir, is_file, is_symlink } => match classify_spec(
            is_dir,
            is_file,
            is_symlink,
        ) {
            None => ActionV::Report(DiagnosticV::Unclassifiable(path)),
            Some(kind) => if type_accepted_spec(kind, cfg.types) && name_accepted_spec(
                name,
                cfg.names,
            ) {
                ActionV::Emit(path)
            } else {
                ActionV::Skip
            },
        },
    }
}

/// Decide one walk event against the configuration.
pub fn process_event(config: &Config, event: WalkEvent) -> (a: Action)
    ensures
        a@ == event_action(config@, event@),
{
    match event {
        WalkEvent::Error { message } => Action::Report(Diagnostic::Traversal(message)),
        WalkEvent::Node { path, name, is_dir, is_file, is_symlink } => {
            match classify(is_dir, is_file, is_symlink) {
                None => Action::Report(Diagnostic::Unclassifiable(path)),
                Some(kind) => {
                    if !type_accepted(kind, &config.types) {
                        Action::Skip
                    } else {
                        let name_ok = if config.names.len() == 0 {
                            true
                        } else {
                            match &name {
                                Some(n) => name_accepted(n.as_str(), &config.names),
                                None => false,
                            }
                        };
                        if name_ok {
                            Action::Emit(path)
                        } else {
                            Action::Skip
                        }
                    }
                },
            }
        },
    }
}

/// The views of a sequence of walk events.
pub open spec fn event_views(events: Seq<WalkEvent>) -> Seq<EventV> {
    events.map_values(|e: WalkEvent| e@)
}

/// The output lines one decided event contributes: one line for an
/// emitted node, none otherwise.
pub open spec fn action_lines(a: ActionV) -> Seq<Seq<char>> {
    match a {
        ActionV::Emit(path) => seq![path],
        ActionV::Report(_) => seq![],
        ActionV::Skip => seq![],
    }
}

/// The diagnostics one decided event contributes.
pub open spec fn action_diagnostics(a: ActionV) -> Seq<DiagnosticV> {
    match a {
        ActionV::Emit(_) => seq![],
        ActionV::Report(d) => seq![d],
        ActionV::Skip => seq![],
    }
}

/// The lines a run prints for a sequence of walk events, in event
/// order: each event's contribution, laid end to end.
pub open spec fn run_lines(cfg: ConfigV, events: Seq<EventV>) -> Seq<Seq<char>>
    decreases events.len(),
{
    if events.len() == 0 {
        Seq::empty()
    } else {
        action_lines(event_action(cfg, events[0])) + run_lines(cfg, events.drop_first())
    }
}

/// The diagnostics a run reports for a sequence of walk events, in
/// event order.
pub open spec fn run_diagnostics(cfg: ConfigV, events: Seq<EventV>) -> Seq<DiagnosticV>
    decreases events.len(),
{
    if events.len() == 0 {
        Seq::empty()
    } else {
        action_diagnostics(event_action(cfg, events[0])) + run_diagnostics(
            cfg,
            events.drop_first(),
        )
    }
}

/// The lines of two walks laid end to end are the lines of the first
/// walk followed by the lines of the second, and likewise for the
/// diagnostics. Root paths processed one after the other therefore
/// contribute their matches in the order the roots were given, and what
/// one event yields is untouched by the events around it.
pub proof fn lemma_run_concat(cfg: ConfigV, first: Seq<EventV>, second: Seq<EventV>)
    ensures
        run_lines(cfg, first + second) == run_lines(cfg, first) + run_lines(cfg, second),
        run_diagnostics(cfg, first + second) == run_diagnostics(cfg, first) + run_diagnostics(
            cfg,
            second,
        ),
    decreases first.len(),
{
    if first.len() == 0 {
        assert(first + second =~= second);
        assert(run_lines(cfg, first) + run_lines(cfg, second) =~= run_lines(cfg, second));
        assert(run_diagnostics(cfg, first) + run_diagnostics(cfg, second) =~= run_diagnostics(
            cfg,
            second,
        ));
    } else {
        assert((first + second)[0] == first[0]);
        assert((first + second).drop_first() =~= first.drop_first() + second);
        lemma_run_concat(cfg, first.drop_first(), second);
        assert(run_lines(cfg, first + second) =~= run_lines(cfg, first) + run_lines(cfg, second));
        assert(run_diagnostics(cfg, first + second) =~= run_diagnostics(cfg, first)
            + run_diagnostics(cfg, second));
    }
}

/// What one event alone yields: exactly its own decision's lines and
/// diagnostics.
pub proof fn lemma_run_singleton(cfg: ConfigV, e: EventV)
    ensures
        run_lines(cfg, seq![e]) == action_lines(event_action(cfg, e)),
        run_diagnostics(cfg, seq![e]) == action_diagnostics(event_action(cfg, e)),
{
    let s = seq![e];
    assert(s[0] == e);
    assert(s.drop_first() =~= Seq::<EventV>::empty());
    assert(run_lines(cfg, s.drop_first()) == Seq::<Seq<char>>::empty());
    assert(run_diagnostics(cfg, s.drop_first()) == Seq::<DiagnosticV>::empty());
    assert(run_lines(cfg, s) =~= action_lines(event_action(cfg, e)));
    assert(run_diagnostics(cfg, s) =~= action_diagnostics(event_action(cfg, e)));
}

/// One visited node yields at most one output line, however many name
/// patterns it matches: acceptance is a single disjunction over the
/// patterns, not one emission per pattern.
pub proof fn lemma_at_most_one_line(cfg: ConfigV, e: EventV)
    ensures
        run_lines(cfg, seq![e]).len() <= 1,
{
    lemma_run_singleton(cfg, e);
}

/// An entry that passes the type filter and whose name matches any one
/// of the given patterns appears in the output exactly once, however
/// many of the patterns match it.
pub proof fn lemma_match_emitted_exactly_once(
    cfg: ConfigV,
    path: Seq<char>,
    name: Seq<char>,
    is_dir: bool,
    is_file: bool,
    is_symlink: bool,
    kind: EntryType,
    i: int,
)
    requires
        classify_spec(is_dir, is_file, is_symlink) == Some(kind),
        type_accepted_spec(kind, cfg.types),
        0 <= i < cfg.names.len(),
        pattern_matches(cfg.names[i], name),
    ensures
        run_lines(cfg, seq![EventV::Node { path, name: Some(name), is_dir, is_file, is_symlink }])
            == seq![path],
{
    let e = EventV::Node { path, name: Some(name), is_dir, is_file, is_symlink };
    crate::filter::lemma_any_match_accepts(name, cfg.names, i);
    lemma_run_singleton(cfg, e);
    assert(event_action(cfg, e) == ActionV::Emit(path));
}

/// A node the walker could not visit yields exactly one diagnostic, and
/// the lines printed for the events before and after it are exactly
/// those of the same walk without it: a failed visit suppresses no
/// other node's output.
pub proof fn lemma_error_is_transparent(
    cfg: ConfigV,
    before: Seq<EventV>,
    message: Seq<char>,
    after: Seq<EventV>,
)
    ensures
        run_lines(cfg, before + seq![EventV::Error { message }] + after) == run_lines(
            cfg,
            before + after,
        ),
        run_diagnostics(cfg, before + seq![EventV::Error { message }] + after) == run_diagnostics(
            cfg,
            before,
        ) + seq![DiagnosticV::Traversal(message)] + run_diagnostics(cfg, after),
{
    let err = seq![EventV::Error { message }];
    lemma_run_concat(cfg, before + err, after);
    lemma_run_concat(cfg, before, err);
    lemma_run_concat(cfg, before, after);
    lemma_run_singleton(cfg, EventV::Error { message });
    assert(run_lines(cfg, before + err + after) =~= run_lines(cfg, before + after));
    assert(run_diagnostics(cfg, before + err + after) =~= run_diagnostics(cfg, before) + seq![
        DiagnosticV::Traversal(message),
    ] + run_diagnostics(cfg, after));
}

/// Everything a run of the pipeline produces, in order.
pub struct Output {
    /// The matched paths, one output line each, in traversal order.
    pub lines: Vec<String>,
    /// The non-fatal conditions met, in traversal order.
    pub diagnostics: Vec<Diagnostic>,
}

/// Decide a whole sequence of walk events, in order. The result holds
/// exactly the lines and the diagnostics that deciding each event in
/// turn yields: matches come out in traversal order, one line per
/// matched node, and a failed visit costs nothing but its diagnostic.
pub fn process_events(config: &Config, events: Vec<WalkEvent>) -> (out: Output)
    ensures
        out.lines@.map_values(|s: String| s@) == run_lines(config@, event_views(events@)),
        out.diagnostics@.map_values(|d: Diagnostic| d@) == run_diagnostics(
            config@,
            event_views(events@),
        ),
{
    let ghost all = event_views(events@);
    let mut remaining = events;
    let mut lines: Vec<String> = Vec::new();
    let mut diagnostics: Vec<Diagnostic> = Vec::new();
    let ghost mut done: Seq<EventV> = Seq::empty();
    proof {
        assert(done + event_views(remaining@) =~= all);
        assert(lines@.map_values(|s: String| s@) =~= run_lines(config@, done));
        assert(diagnostics@.map_values(|d: Diagnostic| d@) =~= run_diagnostics(config@, done));
    }
    while remaining.len() > 0
        invariant
            done + event_views(remaining@) == all,
            lines@.map_values(|s: String| s@) == run_lines(config@, done),
            diagnostics@.map_values(|d: Diagnostic| d@) == run_diagnostics(config@, done),
        decreases remaining@.len(),
    {
        let ghost done_before = done;
        let ghost remaining_before = event_views(remaining@);
        let event = remaining.remove(0);
        let ghost ev = event@;
        proof {
            assert(remaining_before[0] == ev);
            assert(event_views(remaining@) =~= remaining_before.drop_first());
            assert(done_before + seq![ev] + event_views(remaining@) =~= all);
            done = done_before + seq![ev];
            lemma_run_concat(config@, done_before, seq![ev]);
            lemma_run_singleton(config@, ev);
        }
        let action = process_event(config, event);
        let ghost av = action@;
        proof {
            assert(run_lines(config@, done) =~= run_lines(config@, done_before) + action_lines(
                av,
            ));
            assert(run_diagnostics(config@, done) =~= run_diagnostics(config@, done_before)
                + action_diagnostics(av));
        }
        match action {
            Action::Emit(path) => {
                proof {
                    assert(av == ActionV::Emit(path@));
                    assert(action_lines(av) =~= seq![path@]);
                }
                lines.push(path);
                proof {
                    assert(lines@.map_values(|s: String| s@) =~= run_lines(config@, done));
                }
            },
            Action::Report(diagnostic) => {
                proof {
                    assert(av == ActionV::Report(diagnostic@));
                    assert(action_diagnostics(av) =~= seq![diagnostic@]);
                }
                diagnostics.push(diagnostic);
                proof {
                    assert(diagnostics@.map_values(|d: Diagnostic| d@) =~= run_diagnostics(
                        config@,
                        done,
                    ));
                }
            },
            Action::Skip => {
                proof {
                    assert(lines@.map_values(|s: String| s@) =~= run_lines(config@, done));
                    assert(diagnostics@.map_values(|d: Diagnostic| d@) =~= run_diagnostics(
                        config@,
                        done,
                    ));
                }
            },
        }
    }
    proof {
        assert(event_views(remaining@) =~= Seq::<EventV>::empty());
        assert(done =~= all);
    }
    Output { lines, diagnostics }
}

} // verus!
