//! The aggregator and renderer: ingests decoded records one at a time and,
//! once the stream is exhausted, renders the Markdown report.

use vstd::prelude::*;

use crate::duration::{format_precise, human_duration_secs, spec_format, Duration};
use crate::event::test::EventView;
use crate::event::{json_fields, spec_decode, suite, Record, RecordView};
use crate::text::{
    char_is_alphanumeric, escape_html, is_alphanum, push_char, spec_dec, spec_escape, u64_to_string,
};

verus! {

/// The outcome of a suite, or of the whole report.
#[derive(Clone, Copy, Debug, PartialEq, Eq, Structural)]
pub enum Outcome {
    Passed,
    Failed,
}

impl Outcome {
    /// The glyph the report shows for this outcome.
    pub open spec fn spec_glyph(self) -> Seq<char> {
        if self == Outcome::Passed {
            "✅"@
        } else {
            "❌"@
        }
    }

    /// Renders the outcome's glyph.
    pub fn glyph(self) -> (r: &'static str)
        ensures
            r@ == self.spec_glyph(),
    {
        match self {
            Outcome::Passed => "✅",
            Outcome::Failed => "❌",
        }
    }
}

/// The aggregated totals of every finished-suite event seen so far.
#[derive(Clone, Copy, Debug, PartialEq, Eq, Structural)]
pub struct Summary {
    pub outcome: Outcome,
    pub passed: u64,
    pub failed: u64,
    pub ignored: u64,
    pub filtered_out: u64,
    pub exec_time: Duration,
}

impl Summary {
    /// The accumulated duration is well-formed.
    pub open spec fn wf(self) -> bool {
        self.exec_time.wf()
    }
}

/// Sum of two counters, stuck at `u64::MAX` on overflow.
pub open spec fn spec_sat_add(a: u64, b: u64) -> u64 {
    if a + b > u64::MAX {
        u64::MAX
    } else {
        (a + b) as u64
    }
}

/// Saturating addition of two counters.
pub fn sat_add(a: u64, b: u64) -> (r: u64)
    ensures
        r == spec_sat_add(a, b),
{
    if a > u64::MAX - b {
        u64::MAX
    } else {
        a + b
    }
}

/// How one finished-suite event merges into the summary so far: the first
/// event stands as it is; later ones add their counters and their duration,
/// and a `Failed` outcome, once seen, never reverts.
pub open spec fn spec_merge(so_far: Option<Summary>, incoming: Summary) -> Summary {
    match so_far {
        None => incoming,
        Some(s) => Summary {
            outcome: if s.outcome == Outcome::Failed || incoming.outcome == Outcome::Failed {
                Outcome::Failed
            } else {
                Outcome::Passed
            },
            passed: spec_sat_add(s.passed, incoming.passed),
            failed: spec_sat_add(s.failed, incoming.failed),
            ignored: spec_sat_add(s.ignored, incoming.ignored),
            filtered_out: spec_sat_add(s.filtered_out, incoming.filtered_out),
            exec_time: s.exec_time.spec_add(incoming.exec_time),
        },
    }
}

/// Merges one finished-suite event into the summary so far.
pub fn merge(so_far: &Option<Summary>, incoming: Summary) -> (r: Summary)
    requires
        (so_far matches Some(s) ==> s.wf()),
        incoming.wf(),
    ensures
        r == spec_merge(*so_far, incoming),
        r.wf(),
{
    match so_far {
        None => incoming,
        Some(s) => Summary {
            outcome: if s.outcome == Outcome::Failed || incoming.outcome == Outcome::Failed {
                Outcome::Failed
            } else {
                Outcome::Passed
            },
            passed: sat_add(s.passed, incoming.passed),
            failed: sat_add(s.failed, incoming.failed),
            ignored: sat_add(s.ignored, incoming.ignored),
            filtered_out: sat_add(s.filtered_out, incoming.filtered_out),
            exec_time: s.exec_time.add_sat(incoming.exec_time),
        },
    }
}

/// Chained saturating addition clips the exact three-way sum.
pub proof fn lemma_sat_add_chain(x: u64, a: u64, b: u64)
    ensures
        spec_sat_add(spec_sat_add(x, a), b) == if x + a + b > u64::MAX {
            u64::MAX
        } else {
            (x + a + b) as u64
        },
{
}

/// Merging finished-suite events is commutative: from any starting summary,
/// two events may arrive in either order and leave the same summary — the
/// same counters, the same accumulated duration, and the same outcome.
pub proof fn lemma_merge_commutative(so_far: Option<Summary>, a: Summary, b: Summary)
    requires
        so_far matches Some(s) ==> s.wf(),
        a.wf(),
        b.wf(),
    ensures
        spec_merge(Some(spec_merge(so_far, a)), b) == spec_merge(Some(spec_merge(so_far, b)), a),
{
    match so_far {
        None => {
            crate::duration::lemma_dur_add_comm(a.exec_time, b.exec_time);
        },
        Some(s) => {
            lemma_sat_add_chain(s.passed, a.passed, b.passed);
            lemma_sat_add_chain(s.passed, b.passed, a.passed);
            lemma_sat_add_chain(s.failed, a.failed, b.failed);
            lemma_sat_add_chain(s.failed, b.failed, a.failed);
            lemma_sat_add_chain(s.ignored, a.ignored, b.ignored);
            lemma_sat_add_chain(s.ignored, b.ignored, a.ignored);
            lemma_sat_add_chain(s.filtered_out, a.filtered_out, b.filtered_out);
            lemma_sat_add_chain(s.filtered_out, b.filtered_out, a.filtered_out);
            crate::duration::lemma_add_total(s.exec_time, a.exec_time);
            crate::duration::lemma_add_total(s.exec_time.spec_add(a.exec_time), b.exec_time);
            crate::duration::lemma_add_total(s.exec_time, b.exec_time);
            crate::duration::lemma_add_total(s.exec_time.spec_add(b.exec_time), a.exec_time);
            crate::duration::lemma_total_injective(
                s.exec_time.spec_add(a.exec_time).spec_add(b.exec_time),
                s.exec_time.spec_add(b.exec_time).spec_add(a.exec_time),
            );
        },
    }
}

/// Merging finished-suite events is associative: merging `b` and then `c`
/// into `a` equals merging into `a` the summary that `b` and `c` merge to.
pub proof fn lemma_merge_associative(a: Summary, b: Summary, c: Summary)
    requires
        a.wf(),
        b.wf(),
        c.wf(),
    ensures
        spec_merge(Some(spec_merge(Some(a), b)), c) == spec_merge(Some(a), spec_merge(Some(b), c)),
{
    lemma_sat_add_chain(a.passed, b.passed, c.passed);
    lemma_sat_add_chain(b.passed, c.passed, a.passed);
    lemma_sat_add_chain(a.failed, b.failed, c.failed);
    lemma_sat_add_chain(b.failed, c.failed, a.failed);
    lemma_sat_add_chain(a.ignored, b.ignored, c.ignored);
    lemma_sat_add_chain(b.ignored, c.ignored, a.ignored);
    lemma_sat_add_chain(a.filtered_out, b.filtered_out, c.filtered_out);
    lemma_sat_add_chain(b.filtered_out, c.filtered_out, a.filtered_out);
    crate::duration::lemma_dur_add_assoc(a.exec_time, b.exec_time, c.exec_time);
}

/// The summary left after folding a sequence of finished-suite events into
/// a starting summary, one at a time.
pub open spec fn spec_fold_merge(so_far: Option<Summary>, events: Seq<Summary>) -> Option<Summary>
    decreases events.len(),
{
    if events.len() == 0 {
        so_far
    } else {
        spec_fold_merge(Some(spec_merge(so_far, events[0])), events.drop_first())
    }
}

/// A `Failed` outcome is sticky: whenever the summary so far is already
/// failed, or any event of the sequence is failed, the summary left after
/// folding the whole sequence is failed — whatever the order of events.
pub proof fn lemma_outcome_sticky(so_far: Option<Summary>, events: Seq<Summary>)
    requires
        (so_far matches Some(s) && s.outcome == Outcome::Failed) || (exists|i: int|
            0 <= i < events.len() && events[i].outcome == Outcome::Failed),
    ensures
        spec_fold_merge(so_far, events) matches Some(s2) && s2.outcome == Outcome::Failed,
    decreases events.len(),
{
    if events.len() == 0 {
    } else {
        let merged = spec_merge(so_far, events[0]);
        if (so_far matches Some(s) && s.outcome == Outcome::Failed) || events[0].outcome
            == Outcome::Failed {
            assert(merged.outcome == Outcome::Failed);
            lemma_outcome_sticky(Some(merged), events.drop_first());
        } else {
            let i = choose|i: int| 0 <= i < events.len() && events[i].outcome == Outcome::Failed;
            assert(events.drop_first()[i - 1] == events[i]);
            assert(exists|j: int|
                0 <= j < events.drop_first().len() && events.drop_first()[j].outcome
                    == Outcome::Failed);
            lemma_outcome_sticky(Some(merged), events.drop_first());
        }
    }
}

/// How many of the test events are finished tests.
pub open spec fn spec_finished_count(tests: Seq<EventView>) -> int
    decreases tests.len(),
{
    if tests.len() == 0 {
        0
    } else {
        spec_finished_count(tests.drop_last()) + if spec_rendered(tests.last()) {
            1int
        } else {
            0int
        }
    }
}

/// The index holds exactly one row per finished test: as many rows as there
/// are non-`Started` test events.
pub proof fn lemma_index_row_count(tests: Seq<EventView>, precise: bool)
    ensures
        spec_index_rows(tests, precise).len() == spec_finished_count(tests),
    decreases tests.len(),
{
    if tests.len() > 0 {
        lemma_index_row_count(tests.drop_last(), precise);
    }
}

/// The index rows are the rows of the finished tests, in encounter order.
pub proof fn lemma_index_rows_ordered(tests: Seq<EventView>, precise: bool)
    ensures
        spec_index_rows(tests, precise) == tests.filter(|t: EventView| spec_rendered(t)).map_values(
            |t: EventView| spec_index_row(t, precise),
        ),
    decreases tests.len(),
{
    reveal(Seq::filter);
    let pred = |t: EventView| spec_rendered(t);
    let row = |t: EventView| spec_index_row(t, precise);
    if tests.len() == 0 {
        assert(spec_index_rows(tests, precise) =~= tests.filter(pred).map_values(row));
    } else {
        lemma_index_rows_ordered(tests.drop_last(), precise);
        if pred(tests.last()) {
            assert(tests.filter(pred) == tests.drop_last().filter(pred).push(tests.last()));
            assert(tests.filter(pred).map_values(row) =~= tests.drop_last().filter(
                pred,
            ).map_values(row).push(row(tests.last())));
        } else {
            assert(tests.filter(pred) == tests.drop_last().filter(pred));
        }
    }
}

/// A pluggable metadata renderer, invoked once per report, between the
/// summary table and the job link.
pub trait Addon {
    /// The fragment this addon renders when it succeeds.
    spec fn spec_fragment(&self) -> Seq<char>;

    /// Renders the addon's fragment, or says why it cannot; a failure is
    /// fatal to the report.
    fn render(&self) -> (r: Result<String, String>)
        ensures
            r matches Ok(f) ==> f@ == self.spec_fragment(),
    ;
}

/// An addon whose fragment is fixed up front.
#[derive(Debug)]
pub struct FragmentAddon {
    pub fragment: String,
}

impl Addon for FragmentAddon {
    open spec fn spec_fragment(&self) -> Seq<char> {
        self.fragment@
    }

    fn render(&self) -> (r: Result<String, String>) {
        Ok(self.fragment.clone())
    }
}

/// Configuration of one report-generation run.
///
/// The identifiers and timestamps the report embeds are read from the
/// environment by the caller and handed over here, so that rendering itself
/// is a function of its inputs.
pub struct ProcessOptions<A: Addon> {
    /// Omit the front-matter block.
    pub disable_front_matter: bool,
    /// Metadata addons, rendered in order after the summary table.
    pub addons: Vec<A>,
    /// Render only the summary: no index, no details.
    pub summary: bool,
    /// Render durations exactly instead of rounded to whole seconds.
    pub precise: bool,
    /// The CI run identifier, when the environment names one.
    pub run_id: Option<String>,
    /// The repository identifier, when the environment names one.
    pub repository: Option<String>,
    /// The current time, as the front-matter title shows it.
    pub date_title: String,
    /// The current time, in RFC 3339 form for the front-matter.
    pub date_rfc3339: String,
}

/// The mathematical shape of the configuration (the addons stand apart).
pub struct OptionsView {
    pub disable_front_matter: bool,
    pub summary: bool,
    pub precise: bool,
    pub run_id: Option<Seq<char>>,
    pub repository: Option<Seq<char>>,
    pub date_title: Seq<char>,
    pub date_rfc3339: Seq<char>,
}

impl<A: Addon> View for ProcessOptions<A> {
    type V = OptionsView;

    open spec fn view(&self) -> OptionsView {
        OptionsView {
            disable_front_matter: self.disable_front_matter,
            summary: self.summary,
            precise: self.precise,
            run_id: match self.run_id {
                Some(ref s) => Some(s@),
                None => None,
            },
            repository: match self.repository {
                Some(ref s) => Some(s@),
                None => None,
            },
            date_title: self.date_title@,
            date_rfc3339: self.date_rfc3339@,
        }
    }
}

/// The aggregation state: owned by one run, mutated once per record, and
/// consumed exactly once when the report is rendered.
pub struct Processor<A: Addon> {
    options: ProcessOptions<A>,
    tests: Vec<crate::event::test::Event>,
    test_count: Option<u64>,
    summary: Option<Summary>,
}

/// The state the report is rendered from.
pub struct ProcessorView {
    pub opts: OptionsView,
    pub tests: Seq<EventView>,
    pub test_count: Option<u64>,
    pub summary: Option<Summary>,
}

impl ProcessorView {
    /// Every duration held by the state is well-formed.
    pub open spec fn wf(self) -> bool {
        &&& (self.summary matches Some(s) ==> s.wf())
        &&& forall|i: int| 0 <= i < self.tests.len() ==> (#[trigger] self.tests[i]).wf()
    }
}

impl<A: Addon> View for Processor<A> {
    type V = ProcessorView;

    closed spec fn view(&self) -> ProcessorView {
        ProcessorView {
            opts: self.options@,
            tests: self.tests@.map_values(|t: crate::event::test::Event| t@),
            test_count: self.test_count,
            summary: self.summary,
        }
    }
}

/// Anchor generation, continued from an arbitrary point: `was_dash` says
/// whether the last emitted character was the collapsing dash.
pub open spec fn spec_anchor_from(s: Seq<char>, was_dash: bool) -> Seq<char>
    decreases s.len(),
{
    if s.len() == 0 {
        Seq::empty()
    } else {
        let c = s[0];
        let rest = s.drop_first();
        if c == '_' {
            seq![c] + spec_anchor_from(rest, false)
        } else if c == ' ' || c == '-' {
            if was_dash {
                spec_anchor_from(rest, true)
            } else {
                seq!['-'] + spec_anchor_from(rest, true)
            }
        } else if is_alphanum(c) {
            seq![c] + spec_anchor_from(rest, false)
        } else {
            spec_anchor_from(rest, was_dash)
        }
    }
}

/// The in-document link target generated from a raw test name: underscores
/// and alphanumeric characters pass through, any run of spaces and dashes
/// collapses to one dash, everything else is dropped.
pub open spec fn spec_anchor(s: Seq<char>) -> Seq<char> {
    spec_anchor_from(s, false)
}

/// Generates the anchor for a name, as [`spec_anchor`] says.
pub fn make_anchor(link: &str) -> (r: String)
    ensures
        r@ == spec_anchor(link@),
{
    let n: usize = link.unicode_len();
    let mut s = String::new();
    let mut was_dash = false;
    let mut i: usize = 0;
    proof {
        assert(link@.skip(0) =~= link@);
    }
    while i < n
        invariant
            n == link@.len(),
            i <= n,
            spec_anchor(link@) == s@ + spec_anchor_from(link@.skip(i as int), was_dash),
        decreases n - i,
    {
        let c = link.get_char(i);
        proof {
            assert(link@.skip(i as int)[0] == link@[i as int]);
            assert(link@.skip(i as int).drop_first() =~= link@.skip(i as int + 1));
        }
        let ghost pre = s@;
        let ghost tail = link@.skip(i as int + 1);
        if c == '_' {
            push_char(&mut s, c);
            was_dash = false;
            proof {
                assert(pre + (seq![c] + spec_anchor_from(tail, false)) =~= s@ + spec_anchor_from(
                    tail,
                    false,
                ));
            }
        } else if c == ' ' || c == '-' {
            if !was_dash {
                was_dash = true;
                push_char(&mut s, '-');
                proof {
                    assert(pre + (seq!['-'] + spec_anchor_from(tail, true)) =~= s@
                        + spec_anchor_from(tail, true));
                }
            }
        } else if char_is_alphanumeric(c) {
            push_char(&mut s, c);
            was_dash = false;
            proof {
                assert(pre + (seq![c] + spec_anchor_from(tail, false)) =~= s@ + spec_anchor_from(
                    tail,
                    false,
                ));
            }
        }
        i = i + 1;
    }
    proof {
        assert(link@.skip(n as int) =~= Seq::<char>::empty());
        assert(s@ + Seq::<char>::empty() =~= s@);
    }
    s
}

/// The linked form of a test's name: the raw name, linking to its anchor.
pub open spec fn spec_linked_name(name: Seq<char>) -> Seq<char> {
    "["@ + name + "](#"@ + spec_anchor(name) + ")"@
}

/// The title of a test's heading: the outcome's glyph, then the name.
pub open spec fn spec_heading_title(name: Seq<char>, outcome: Seq<char>) -> Seq<char> {
    outcome + " "@ + name
}

/// The heading of a test's detail section, anchored at the name's anchor.
pub open spec fn spec_heading(name: Seq<char>, outcome: Seq<char>) -> Seq<char> {
    "## "@ + spec_heading_title(name, outcome) + "<a id=\""@ + spec_anchor(name) + "\"></a>"@
}

/// Whether a test event is rendered: only finished tests are.
pub open spec fn spec_rendered(t: EventView) -> bool {
    !(t is Started)
}

/// All of `parts`, concatenated in order.
pub open spec fn spec_concat(parts: Seq<Seq<char>>) -> Seq<char>
    decreases parts.len(),
{
    if parts.len() == 0 {
        Seq::empty()
    } else {
        spec_concat(parts.drop_last()) + parts.last()
    }
}

/// The index row of one finished test: linked name, glyph, duration.
pub open spec fn spec_index_row(t: EventView, precise: bool) -> Seq<char> {
    match t {
        EventView::Started { .. } => Seq::empty(),
        EventView::Passed { name, exec_time } => "| "@ + spec_linked_name(name) + " | "@ + "✅"@
            + " | "@ + spec_format(exec_time, precise) + " | "@ + "\n"@,
        EventView::Failed { name, exec_time, .. } => "| "@ + spec_linked_name(name) + " | "@
            + "❌"@ + " | "@ + spec_format(exec_time, precise) + " | "@ + "\n"@,
    }
}

/// The index rows of the finished tests, in encounter order.
pub open spec fn spec_index_rows(tests: Seq<EventView>, precise: bool) -> Seq<Seq<char>>
    decreases tests.len(),
{
    if tests.len() == 0 {
        Seq::empty()
    } else {
        let init = spec_index_rows(tests.drop_last(), precise);
        if spec_rendered(tests.last()) {
            init.push(spec_index_row(tests.last(), precise))
        } else {
            init
        }
    }
}

/// The index section: a table with one row per finished test.
pub open spec fn spec_index(tests: Seq<EventView>, precise: bool) -> Seq<char> {
    "<!--more-->\n"@ + "\n"@ + "# Index\n"@ + "\n"@ + "| Name | Result | Duration |\n"@
        + "| ---- | ------ | -------- |\n"@ + spec_concat(spec_index_rows(tests, precise))
}

/// The detail fragment of one finished test: an anchored heading, the
/// duration, and, for a failed test with captured output, that output
/// HTML-escaped inside a collapsible block.
pub open spec fn spec_detail(t: EventView, precise: bool) -> Seq<char> {
    match t {
        EventView::Started { .. } => Seq::empty(),
        EventView::Passed { name, exec_time } => "\n"@ + spec_heading(name, "✅"@) + "\n"@ + "\n"@
            + "**Duration**: "@ + spec_format(exec_time, precise) + "\n"@,
        EventView::Failed { name, exec_time, stdout } => "\n"@ + spec_heading(name, "❌"@) + "\n"@
            + "\n"@ + "**Duration**: "@ + spec_format(exec_time, precise) + "\n"@ + (
        if stdout.len() > 0 {
            "\n"@ + "<details>\n"@ + "\n"@ + "<summary>Test output</summary>\n"@ + "\n"@
                + "<pre>\n"@ + spec_escape(stdout) + "\n"@ + "</pre>\n"@ + "\n"@ + "</details>\n"@
        } else {
            Seq::empty()
        }),
    }
}

/// The detail fragments of the finished tests, in encounter order.
pub open spec fn spec_detail_parts(tests: Seq<EventView>, precise: bool) -> Seq<Seq<char>>
    decreases tests.len(),
{
    if tests.len() == 0 {
        Seq::empty()
    } else {
        let init = spec_detail_parts(tests.drop_last(), precise);
        if spec_rendered(tests.last()) {
            init.push(spec_detail(tests.last(), precise))
        } else {
            init
        }
    }
}

/// The details section: one anchored heading per finished test.
pub open spec fn spec_details(tests: Seq<EventView>, precise: bool) -> Seq<char> {
    "\n"@ + "\n"@ + "# Details\n"@ + spec_concat(spec_detail_parts(tests, precise))
}

/// The front-matter block: a quoted title built from the outcome's glyph and
/// the current time, the RFC 3339 time, and two fixed metadata lines.
pub open spec fn spec_front_matter(o: OptionsView, outcome: Outcome) -> Seq<char> {
    "---\n"@ + "title: \""@ + outcome.spec_glyph() + " Test Result "@ + o.date_title + "\"\n"@
        + "date: "@ + o.date_rfc3339 + "\n"@ + "categories: test-report\n"@
        + "excerpt_separator: <!--more-->\n"@ + "---\n"@ + "\n"@
}

/// The total cell of the summary table: the accumulated count, or a
/// placeholder when no suite ever announced one.
pub open spec fn spec_total(test_count: Option<u64>) -> Seq<char> {
    match test_count {
        Some(n) => spec_dec(n as int),
        None => "*unknown*"@,
    }
}

/// The one-row summary table.
pub open spec fn spec_summary_table(s: Summary, test_count: Option<u64>, precise: bool) -> Seq<
    char,
> {
    "\n| | Total | Passed | Failed | Ignored | Filtered | Duration |\n| --- | ----- | -------| ------ | ------- | -------- | -------- |\n| "@
        + s.outcome.spec_glyph() + " | "@ + spec_total(test_count) + " | "@ + spec_dec(
        s.passed as int,
    ) + " | "@ + spec_dec(s.failed as int) + " | "@ + spec_dec(s.ignored as int) + " | "@
        + spec_dec(s.filtered_out as int) + " | "@ + spec_format(s.exec_time, precise) + " |\n"@
        + "\n"@ + "\n"@
}

/// The addons' fragments, each followed by a blank line.
pub open spec fn spec_addon_block(frags: Seq<Seq<char>>) -> Seq<char>
    decreases frags.len(),
{
    if frags.len() == 0 {
        Seq::empty()
    } else {
        spec_addon_block(frags.drop_last()) + frags.last() + "\n"@
    }
}

/// The CI job link, emitted only when the environment named both a
/// repository and a run.
pub open spec fn spec_job_link(o: OptionsView) -> Seq<char> {
    match (o.repository, o.run_id) {
        (Some(repo), Some(id)) => {
            let url = "https://github.com/"@ + repo + "/actions/runs/"@ + id;
            "**Job:** ["@ + url + "]("@ + url + ")\n"@ + "\n"@
        },
        _ => Seq::empty(),
    }
}

/// The views of a list of strings.
pub open spec fn spec_strings(v: Seq<String>) -> Seq<Seq<char>> {
    v.map_values(|s: String| s@)
}

/// The header: optional front-matter, the summary table, the addons'
/// fragments, and the optional job link.
pub open spec fn spec_header(
    o: OptionsView,
    test_count: Option<u64>,
    s: Summary,
    frags: Seq<Seq<char>>,
) -> Seq<char> {
    (if !o.disable_front_matter {
        spec_front_matter(o, s.outcome)
    } else {
        Seq::empty()
    }) + spec_summary_table(s, test_count, o.precise) + spec_addon_block(frags) + spec_job_link(o)
}

/// The whole document: the header when a summary exists, then, unless the
/// run asks for the summary alone, the index and the details.
pub open spec fn spec_document(p: ProcessorView, frags: Seq<Seq<char>>) -> Seq<char> {
    (match p.summary {
        Some(s) => spec_header(p.opts, p.test_count, s, frags),
        None => Seq::empty(),
    }) + (if !p.opts.summary {
        spec_index(p.tests, p.opts.precise) + spec_details(p.tests, p.opts.precise)
    } else {
        Seq::empty()
    })
}

/// How one record changes the state: a test event is appended to the list,
/// a suite start adds to the expected total, and a finished suite merges
/// into the summary.
pub open spec fn spec_ingest(p: ProcessorView, r: RecordView) -> ProcessorView {
    match r {
        RecordView::Test(t) => ProcessorView { tests: p.tests.push(t), ..p },
        RecordView::Suite(suite::Event::Started { test_count }) => ProcessorView {
            test_count: Some(
                match p.test_count {
                    Some(c) => spec_sat_add(c, test_count),
                    None => test_count,
                },
            ),
            ..p
        },
        RecordView::Suite(
            suite::Event::Passed { passed, failed, ignored, filtered_out, exec_time, .. },
        ) => ProcessorView {
            summary: Some(
                spec_merge(
                    p.summary,
                    Summary {
                        outcome: Outcome::Passed,
                        passed,
                        failed,
                        ignored,
                        filtered_out,
                        exec_time,
                    },
                ),
            ),
            ..p
        },
        RecordView::Suite(
            suite::Event::Failed { passed, failed, ignored, filtered_out, exec_time, .. },
        ) => ProcessorView {
            summary: Some(
                spec_merge(
                    p.summary,
                    Summary {
                        outcome: Outcome::Failed,
                        passed,
                        failed,
                        ignored,
                        filtered_out,
                        exec_time,
                    },
                ),
            ),
            ..p
        },
    }
}

impl<A: Addon> Processor<A> {
    /// A fresh state: no tests, no expected total, no summary.
    pub fn new(options: ProcessOptions<A>) -> (r: Processor<A>)
        ensures
            r@.opts == options@,
            r@.tests == Seq::<EventView>::empty(),
            r@.test_count is None,
            r@.summary is None,
            r@.wf(),
    {
        let r = Processor { options, tests: Vec::new(), test_count: None, summary: None };
        proof {
            assert(r@.tests =~= Seq::<EventView>::empty());
        }
        r
    }

    /// Adds a suite's announced test count to the running total.
    pub fn record_suite_started(&mut self, test_count: u64)
        requires
            old(self)@.wf(),
        ensures
            final(self)@ == (ProcessorView {
                test_count: Some(
                    match old(self)@.test_count {
                        Some(c) => spec_sat_add(c, test_count),
                        None => test_count,
                    },
                ),
                ..old(self)@
            }),
            final(self)@.wf(),
    {
        self.test_count = match self.test_count {
            Some(count) => Some(sat_add(count, test_count)),
            None => Some(test_count),
        };
    }

    /// Merges a passed suite's counters into the summary.
    pub fn record_suite_ok(
        &mut self,
        passed: u64,
        failed: u64,
        ignored: u64,
        filtered_out: u64,
        exec_time: Duration,
    )
        requires
            old(self)@.wf(),
            exec_time.wf(),
        ensures
            final(self)@ == (ProcessorView {
                summary: Some(
                    spec_merge(
                        old(self)@.summary,
                        Summary {
                            outcome: Outcome::Passed,
                            passed,
                            failed,
                            ignored,
                            filtered_out,
                            exec_time,
                        },
                    ),
                ),
                ..old(self)@
            }),
            final(self)@.wf(),
    {
        let incoming = Summary {
            outcome: Outcome::Passed,
            passed,
            failed,
            ignored,
            filtered_out,
            exec_time,
        };
        let merged = merge(&self.summary, incoming);
        self.summary = Some(merged);
    }

    /// Merges a failed suite's counters into the summary; the outcome is
    /// `Failed` from here on.
    pub fn record_suite_failed(
        &mut self,
        passed: u64,
        failed: u64,
        ignored: u64,
        filtered_out: u64,
        exec_time: Duration,
    )
        requires
            old(self)@.wf(),
            exec_time.wf(),
        ensures
            final(self)@ == (ProcessorView {
                summary: Some(
                    spec_merge(
                        old(self)@.summary,
                        Summary {
                            outcome: Outcome::Failed,
                            passed,
                            failed,
                            ignored,
                            filtered_out,
                            exec_time,
                        },
                    ),
                ),
                ..old(self)@
            }),
            final(self)@.wf(),
    {
        let incoming = Summary {
            outcome: Outcome::Failed,
            passed,
            failed,
            ignored,
            filtered_out,
            exec_time,
        };
        let merged = merge(&self.summary, incoming);
        self.summary = Some(merged);
    }

    /// Ingests one decoded record, as [`spec_ingest`] says.
    pub fn record(&mut self, rec: Record)
        requires
            old(self)@.wf(),
            rec@.wf(),
        ensures
            final(self)@ == spec_ingest(old(self)@, rec@),
            final(self)@.wf(),
    {
        match rec {
            Record::Test(t) => {
                let ghost before = self.tests@.map_values(|e: crate::event::test::Event| e@);
                let ghost tv = t@;
                self.tests.push(t);
                proof {
                    assert(self.tests@.map_values(|e: crate::event::test::Event| e@) =~= before.push(tv));
                }
            },
            Record::Suite(e) => match e {
                suite::Event::Started { test_count } => self.record_suite_started(test_count),
                suite::Event::Passed {
                    passed,
                    failed,
                    ignored,
                    filtered_out,
                    exec_time,
                    ..
                } => self.record_suite_ok(passed, failed, ignored, filtered_out, exec_time),
                suite::Event::Failed {
                    passed,
                    failed,
                    ignored,
                    filtered_out,
                    exec_time,
                    ..
                } => self.record_suite_failed(passed, failed, ignored, filtered_out, exec_time),
            },
        }
    }

    /// Renders a span of time: exactly in precise mode, else truncated to
    /// whole seconds and written in human units.
    pub fn format_duration(&self, duration: &Duration) -> (r: String)
        requires
            duration.wf(),
        ensures
            r@ == spec_format(*duration, self@.opts.precise),
    {
        if self.options.precise {
            format_precise(duration)
        } else {
            human_duration_secs(duration.secs)
        }
    }

    /// The linked name of a test, as the index shows it.
    pub fn make_linked_name(&self, name: &str) -> (r: String)
        ensures
            r@ == spec_linked_name(name@),
    {
        let mut s = String::from_str("[");
        s.append(name);
        s.append("](#");
        let a = make_anchor(name);
        s.append(a.as_str());
        s.append(")");
        proof {
            assert(s@ =~= spec_linked_name(name@));
        }
        s
    }

    /// The title of a test's heading: the outcome's glyph, then the name.
    pub fn make_heading_title(&self, name: &str, outcome: &str) -> (r: String)
        ensures
            r@ == spec_heading_title(name@, outcome@),
    {
        let mut s = String::from_str(outcome);
        s.append(" ");
        s.append(name);
        proof {
            assert(s@ =~= spec_heading_title(name@, outcome@));
        }
        s
    }

    /// The heading of a test's detail section, carrying the same anchor the
    /// index links to.
    pub fn make_heading(&self, name: &str, outcome: &str) -> (r: String)
        ensures
            r@ == spec_heading(name@, outcome@),
    {
        let mut s = String::from_str("## ");
        let t = self.make_heading_title(name, outcome);
        s.append(t.as_str());
        s.append("<a id=\"");
        let a = make_anchor(name);
        s.append(a.as_str());
        s.append("\"></a>");
        proof {
            assert(s@ =~= spec_heading(name@, outcome@));
        }
        s
    }

    /// Appends one test's index row to `out`.
    #[verifier::rlimit(60)]
    fn append_index_row(&self, out: &mut String, t: &crate::event::test::Event)
        requires
            t@.wf(),
        ensures
            final(out)@ == old(out)@ + spec_index_row(t@, self@.opts.precise),
    {
        match t {
            crate::event::test::Event::Started { .. } => {
                proof {
                    assert(out@ =~= out@ + spec_index_row(t@, self@.opts.precise));
                }
            },
            crate::event::test::Event::Passed { name, exec_time } => {
                out.append("| ");
                let linked = self.make_linked_name(name.as_str());
                out.append(linked.as_str());
                out.append(" | ");
                out.append("✅");
                out.append(" | ");
                let d = self.format_duration(exec_time);
                out.append(d.as_str());
                out.append(" | ");
                out.append("\n");
                proof {
                    assert(out@ =~= old(out)@ + spec_index_row(t@, self@.opts.precise));
                }
            },
            crate::event::test::Event::Failed { name, exec_time, .. } => {
                out.append("| ");
                let linked = self.make_linked_name(name.as_str());
                out.append(linked.as_str());
                out.append(" | ");
                out.append("❌");
                out.append(" | ");
                let d = self.format_duration(exec_time);
                out.append(d.as_str());
                out.append(" | ");
                out.append("\n");
                proof {
                    assert(out@ =~= old(out)@ + spec_index_row(t@, self@.opts.precise));
                }
            },
        }
    }

    /// Appends the index section to `out`.
    #[verifier::loop_isolation(false)]
    pub fn render_index(&self, out: &mut String)
        requires
            self@.wf(),
        ensures
            final(out)@ == old(out)@ + spec_index(self@.tests, self@.opts.precise),
    {
        out.append("<!--more-->\n");
        out.append("\n");
        out.append("# Index\n");
        out.append("\n");
        out.append("| Name | Result | Duration |\n");
        out.append("| ---- | ------ | -------- |\n");
        let ghost head = out@;
        let ghost tests_v = self@.tests;
        let ghost precise = self@.opts.precise;
        let mut i: usize = 0;
        proof {
            assert(spec_concat(spec_index_rows(tests_v.take(0), precise)) =~= Seq::<char>::empty());
            assert(out@ =~= head + spec_concat(spec_index_rows(tests_v.take(0), precise)));
        }
        while i < self.tests.len()
            invariant
                i <= self.tests@.len(),
                out@ == head + spec_concat(spec_index_rows(tests_v.take(i as int), precise)),
            decreases self.tests@.len() - i,
        {
            let ghost rows = spec_index_rows(tests_v.take(i as int), precise);
            proof {
                assert(tests_v.take(i as int + 1).drop_last() =~= tests_v.take(i as int));
                assert(tests_v[i as int] == self.tests@[i as int]@);
                assert(tests_v[i as int].wf());
            }
            let t = &self.tests[i];
            self.append_index_row(out, t);
            proof {
                let row = spec_index_row(tests_v[i as int], precise);
                if spec_rendered(tests_v[i as int]) {
                    assert(spec_index_rows(tests_v.take(i as int + 1), precise) == rows.push(row));
                    assert(rows.push(row).drop_last() =~= rows);
                    assert(spec_concat(rows.push(row)) == spec_concat(rows) + row);
                } else {
                    assert(spec_index_rows(tests_v.take(i as int + 1), precise) == rows);
                    assert(row =~= Seq::<char>::empty());
                    assert(out@ =~= head + spec_concat(rows) + row);
                }
                assert(out@ =~= head + spec_concat(
                    spec_index_rows(tests_v.take(i as int + 1), precise),
                ));
            }
            i = i + 1;
        }
        proof {
            assert(tests_v.take(i as int) =~= tests_v);
            assert(out@ =~= old(out)@ + spec_index(tests_v, precise));
        }
    }

    /// Appends one test's detail fragment to `out`.
    #[verifier::rlimit(60)]
    fn append_detail(&self, out: &mut String, t: &crate::event::test::Event)
        requires
            t@.wf(),
        ensures
            final(out)@ == old(out)@ + spec_detail(t@, self@.opts.precise),
    {
        match t {
            crate::event::test::Event::Started { .. } => {
                proof {
                    assert(out@ =~= out@ + spec_detail(t@, self@.opts.precise));
                }
            },
            crate::event::test::Event::Passed { name, exec_time } => {
                out.append("\n");
                let heading = self.make_heading(name.as_str(), "✅");
                out.append(heading.as_str());
                out.append("\n");
                out.append("\n");
                out.append("**Duration**: ");
                let d = self.format_duration(exec_time);
                out.append(d.as_str());
                out.append("\n");
                proof {
                    assert(out@ =~= old(out)@ + spec_detail(t@, self@.opts.precise));
                }
            },
            crate::event::test::Event::Failed { name, exec_time, stdout } => {
                let ghost head_part = "\n"@ + spec_heading(name@, "❌"@) + "\n"@ + "\n"@ + "**Duration**: "@
                    + spec_format(*exec_time, self@.opts.precise) + "\n"@;
                let ghost output_block = if stdout@.len() > 0 {
                    "\n"@ + "<details>\n"@ + "\n"@ + "<summary>Test output</summary>\n"@ + "\n"@
                        + "<pre>\n"@ + spec_escape(stdout@) + "\n"@ + "</pre>\n"@ + "\n"@
                        + "</details>\n"@
                } else {
                    Seq::<char>::empty()
                };
                out.append("\n");
                let heading = self.make_heading(name.as_str(), "❌");
                out.append(heading.as_str());
                out.append("\n");
                out.append("\n");
                out.append("**Duration**: ");
                let d = self.format_duration(exec_time);
                out.append(d.as_str());
                out.append("\n");
                proof {
                    assert(out@ =~= old(out)@ + head_part);
                }
                let ghost mid = out@;
                if !stdout.as_str().is_empty() {
                    out.append("\n");
                    out.append("<details>\n");
                    out.append("\n");
                    out.append("<summary>Test output</summary>\n");
                    out.append("\n");
                    out.append("<pre>\n");
                    let escaped = escape_html(stdout.as_str());
                    out.append(escaped.as_str());
                    out.append("\n");
                    out.append("</pre>\n");
                    out.append("\n");
                    out.append("</details>\n");
                    proof {
                        assert(out@ =~= mid + output_block);
                    }
                } else {
                    proof {
                        assert(out@ =~= mid + output_block);
                    }
                }
                proof {
                    assert(spec_detail(t@, self@.opts.precise) == head_part + output_block);
                    assert(out@ =~= (old(out)@ + head_part) + output_block);
                    assert((old(out)@ + head_part) + output_block =~= old(out)@ + (head_part + output_block));
                }
            },
        }
    }

    /// Appends the details section to `out`.
    #[verifier::loop_isolation(false)]
    pub fn render_details(&self, out: &mut String)
        requires
            self@.wf(),
        ensures
            final(out)@ == old(out)@ + spec_details(self@.tests, self@.opts.precise),
    {
        out.append("\n");
        out.append("\n");
        out.append("# Details\n");
        let ghost head = out@;
        let ghost tests_v = self@.tests;
        let ghost precise = self@.opts.precise;
        let mut i: usize = 0;
        proof {
            assert(spec_concat(spec_detail_parts(tests_v.take(0), precise)) =~= Seq::<
                char,
            >::empty());
            assert(out@ =~= head + spec_concat(spec_detail_parts(tests_v.take(0), precise)));
        }
        while i < self.tests.len()
            invariant
                i <= self.tests@.len(),
                out@ == head + spec_concat(spec_detail_parts(tests_v.take(i as int), precise)),
            decreases self.tests@.len() - i,
        {
            let ghost parts = spec_detail_parts(tests_v.take(i as int), precise);
            proof {
                assert(tests_v.take(i as int + 1).drop_last() =~= tests_v.take(i as int));
                assert(tests_v[i as int] == self.tests@[i as int]@);
                assert(tests_v[i as int].wf());
            }
            let t = &self.tests[i];
            self.append_detail(out, t);
            proof {
                let part = spec_detail(tests_v[i as int], precise);
                if spec_rendered(tests_v[i as int]) {
                    assert(spec_detail_parts(tests_v.take(i as int + 1), precise) == parts.push(
                        part,
                    ));
                    assert(parts.push(part).drop_last() =~= parts);
                    assert(spec_concat(parts.push(part)) == spec_concat(parts) + part);
                } else {
                    assert(spec_detail_parts(tests_v.take(i as int + 1), precise) == parts);
                    assert(part =~= Seq::<char>::empty());
                    assert(out@ =~= head + spec_concat(parts) + part);
                }
                assert(out@ =~= head + spec_concat(
                    spec_detail_parts(tests_v.take(i as int + 1), precise),
                ));
            }
            i = i + 1;
        }
        proof {
            assert(tests_v.take(i as int) =~= tests_v);
            assert(out@ =~= old(out)@ + spec_details(tests_v, precise));
        }
    }

    /// Appends the front-matter block to `out`.
    #[verifier::rlimit(60)]
    fn append_front_matter(&self, out: &mut String, outcome: Outcome)
        ensures
            final(out)@ == old(out)@ + spec_front_matter(self@.opts, outcome),
    {
        out.append("---\n");
        out.append("title: \"");
        out.append(outcome.glyph());
        out.append(" Test Result ");
        out.append(self.options.date_title.as_str());
        out.append("\"\n");
        out.append("date: ");
        out.append(self.options.date_rfc3339.as_str());
        out.append("\n");
        out.append("categories: test-report\n");
        out.append("excerpt_separator: <!--more-->\n");
        out.append("---\n");
        out.append("\n");
        proof {
            assert(out@ =~= old(out)@ + spec_front_matter(self@.opts, outcome));
        }
    }

    /// Appends the one-row summary table to `out`.
    #[verifier::rlimit(90)]
    fn append_summary_table(&self, out: &mut String, s: &Summary)
        requires
            s.wf(),
        ensures
            final(out)@ == old(out)@ + spec_summary_table(*s, self@.test_count, self@.opts.precise),
    {
        out.append(
            "\n| | Total | Passed | Failed | Ignored | Filtered | Duration |\n| --- | ----- | -------| ------ | ------- | -------- | -------- |\n| ",
        );
        out.append(s.outcome.glyph());
        out.append(" | ");
        match self.test_count {
            Some(n) => {
                let total = u64_to_string(n);
                out.append(total.as_str());
            },
            None => out.append("*unknown*"),
        }
        out.append(" | ");
        let passed = u64_to_string(s.passed);
        out.append(passed.as_str());
        out.append(" | ");
        let failed = u64_to_string(s.failed);
        out.append(failed.as_str());
        out.append(" | ");
        let ignored = u64_to_string(s.ignored);
        out.append(ignored.as_str());
        out.append(" | ");
        let filtered_out = u64_to_string(s.filtered_out);
        out.append(filtered_out.as_str());
        out.append(" | ");
        let d = self.format_duration(&s.exec_time);
        out.append(d.as_str());
        out.append(" |\n");
        out.append("\n");
        out.append("\n");
        proof {
            assert(out@ =~= old(out)@ + spec_summary_table(
                *s,
                self@.test_count,
                self@.opts.precise,
            ));
        }
    }

    /// Appends the CI job link to `out`, when the environment named both a
    /// repository and a run.
    #[verifier::rlimit(60)]
    fn append_job_link(&self, out: &mut String)
        ensures
            final(out)@ == old(out)@ + spec_job_link(self@.opts),
    {
        match (&self.options.repository, &self.options.run_id) {
            (Some(repo), Some(id)) => {
                let mut url = String::from_str("https://github.com/");
                url.append(repo.as_str());
                url.append("/actions/runs/");
                url.append(id.as_str());
                out.append("**Job:** [");
                out.append(url.as_str());
                out.append("](");
                out.append(url.as_str());
                out.append(")\n");
                out.append("\n");
                proof {
                    assert(out@ =~= old(out)@ + spec_job_link(self@.opts));
                }
            },
            _ => {
                proof {
                    assert(out@ =~= out@ + spec_job_link(self@.opts));
                }
            },
        }
    }

    /// Appends the header to `out`: optional front-matter, the summary
    /// table, the addon fragments, and the optional job link.
    #[verifier::loop_isolation(false)]
    fn write_header(&self, out: &mut String, s: &Summary, fragments: &Vec<String>)
        requires
            s.wf(),
        ensures
            final(out)@ == old(out)@ + spec_header(
                self@.opts,
                self@.test_count,
                *s,
                spec_strings(fragments@),
            ),
    {
        let ghost fm = if !self@.opts.disable_front_matter {
            spec_front_matter(self@.opts, s.outcome)
        } else {
            Seq::<char>::empty()
        };
        if !self.options.disable_front_matter {
            self.append_front_matter(out, s.outcome);
        }
        proof {
            assert(out@ =~= old(out)@ + fm);
        }
        self.append_summary_table(out, s);
        let ghost b = out@;
        let ghost frag_views = spec_strings(fragments@);
        let mut i: usize = 0;
        proof {
            assert(spec_addon_block(frag_views.take(0)) =~= Seq::<char>::empty());
            assert(out@ =~= b + spec_addon_block(frag_views.take(0)));
        }
        while i < fragments.len()
            invariant
                i <= fragments@.len(),
                out@ == b + spec_addon_block(frag_views.take(i as int)),
            decreases fragments@.len() - i,
        {
            out.append(fragments[i].as_str());
            out.append("\n");
            proof {
                assert(frag_views.take(i as int + 1).drop_last() =~= frag_views.take(i as int));
                assert(frag_views[i as int] == fragments@[i as int]@);
                assert(out@ =~= b + spec_addon_block(frag_views.take(i as int + 1)));
            }
            i = i + 1;
        }
        proof {
            assert(frag_views.take(i as int) =~= frag_views);
        }
        self.append_job_link(out);
        proof {
            assert(out@ =~= old(out)@ + spec_header(
                self@.opts,
                self@.test_count,
                *s,
                spec_strings(fragments@),
            ));
        }
    }

    /// Renders the whole report from the state, given the fragments the
    /// addons produced.
    pub fn render_document(&self, fragments: &Vec<String>) -> (r: String)
        requires
            self@.wf(),
        ensures
            r@ == spec_document(self@, spec_strings(fragments@)),
    {
        let mut out = String::new();
        match &self.summary {
            Some(s) => {
                let sc: Summary = *s;
                self.write_header(&mut out, &sc, fragments);
            },
            None => {},
        }
        if !self.options.summary {
            self.render_index(&mut out);
            self.render_details(&mut out);
        }
        proof {
            assert(out@ =~= spec_document(self@, spec_strings(fragments@)));
        }
        out
    }

    /// The fragments the configured addons say they render, in order.
    pub closed spec fn addon_fragments(&self) -> Seq<Seq<char>> {
        self.options.addons@.map_values(|a: A| a.spec_fragment())
    }

    /// How many addons are configured.
    pub closed spec fn addon_count(&self) -> nat {
        self.options.addons@.len()
    }

    /// Finalizes the run: renders every addon's fragment, then the whole
    /// document.  A failing addon aborts the report with its error.
    #[verifier::loop_isolation(false)]
    pub fn finish(self) -> (r: Result<String, String>)
        requires
            self@.wf(),
        ensures
            r matches Ok(doc) ==> doc@ == spec_document(self@, self.addon_fragments()),
            self.addon_count() == 0 ==> r is Ok,
    {
        let mut frags: Vec<String> = Vec::new();
        let mut i: usize = 0;
        proof {
            assert(spec_strings(frags@) =~= self.addon_fragments().take(0));
        }
        while i < self.options.addons.len()
            invariant
                i <= self.options.addons@.len(),
                frags@.len() == i,
                spec_strings(frags@) == self.addon_fragments().take(i as int),
            decreases self.options.addons@.len() - i,
    {
            let addon = &self.options.addons[i];
            match addon.render() {
                Ok(f) => frags.push(f),
                Err(e) => return Err(e),
            }
            i = i + 1;
            proof {
                assert(spec_strings(frags@) =~= self.addon_fragments().take(i as int));
            }
        }
        proof {
            assert(self.addon_fragments().take(i as int) =~= self.addon_fragments());
        }
        let doc = self.render_document(&frags);
        Ok(doc)
    }

    /// Feeds one raw input line: a line that decodes is ingested, any other
    /// line leaves the state unchanged.
    pub fn line(&mut self, input: &str)
        requires
            old(self)@.wf(),
        ensures
            final(self)@.wf(),
            match spec_decode(json_fields(input@)) {
                Ok(rec) => final(self)@ == spec_ingest(old(self)@, rec),
                Err(_) => final(self)@ == old(self)@,
            },
    {
        match crate::event::decode(input) {
            Ok(rec) => self.record(rec),
            Err(_) => (),
        }
    }
}

} // verus!
