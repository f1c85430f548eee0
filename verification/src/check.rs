//! The result data model of a monitoring check plugin: the severity states a
//! plugin can report, performance metrics with their exact on-the-wire text,
//! and the combined check result whose rendering the monitoring system parses.

use vstd::prelude::*;

verus! {

/// A check outcome as the monitoring system knows it, ordered by ordinal:
/// OK before Warning before Critical before Unknown.
#[derive(Debug, Clone, Copy, PartialEq, Eq, Structural)]
pub enum State {
    OK,
    Warning,
    Critical,
    Unknown,
}

/// The canonical process exit code of a state: OK is 0, Warning 1,
/// Critical 2, Unknown 3.
pub open spec fn state_code(s: State) -> int {
    match s {
        State::OK => 0,
        State::Warning => 1,
        State::Critical => 2,
        State::Unknown => 3,
    }
}

/// The state a given exit code stands for. Codes other than 0, 1 and 2 fall
/// back to Unknown; the conversion is total and never fails.
pub open spec fn state_of_code(code: int) -> State {
    if code == 0 {
        State::OK
    } else if code == 1 {
        State::Warning
    } else if code == 2 {
        State::Critical
    } else {
        State::Unknown
    }
}

/// The canonical uppercase text of a state.
pub open spec fn state_text(s: State) -> Seq<char> {
    match s {
        State::OK => "OK"@,
        State::Warning => "WARNING"@,
        State::Critical => "CRITICAL"@,
        State::Unknown => "UNKNOWN"@,
    }
}

impl State {
    /// The state that a given exit status stands for; anything outside
    /// 0, 1 and 2 is taken defensively as Unknown.
    pub fn from_exit_code(code: usize) -> (r: State)
        ensures
            r == state_of_code(code as int),
    {
        match code {
            0 => State::OK,
            1 => State::Warning,
            2 => State::Critical,
            _ => State::Unknown,
        }
    }

    /// The exit code this state tells the caller's process to exit with.
    pub fn exit_code(&self) -> (r: i32)
        ensures
            r as int == state_code(*self),
    {
        match self {
            State::OK => 0,
            State::Warning => 1,
            State::Critical => 2,
            State::Unknown => 3,
        }
    }

    /// The uppercase text of this state, as it opens a rendered result.
    pub fn text(&self) -> (r: String)
        ensures
            r@ == state_text(*self),
    {
        match self {
            State::OK => String::from_str("OK"),
            State::Warning => String::from_str("WARNING"),
            State::Critical => String::from_str("CRITICAL"),
            State::Unknown => String::from_str("UNKNOWN"),
        }
    }
}

/// A single named performance measurement, with optional warning, critical,
/// minimum and maximum annotations, in a text form the monitoring system can
/// parse. Label, value and annotations are opaque text; the library does not
/// re-parse them, and callers keep delimiter characters out of the label.
#[derive(Debug, Clone, PartialEq, Eq)]
pub struct Metric {
    label: String,
    value: String,
    warning: Option<String>,
    critical: Option<String>,
    min: Option<String>,
    max: Option<String>,
}

/// The mathematical shape of a metric: its label and value texts and the
/// four optional annotation texts.
pub ghost struct MetricView {
    pub label: Seq<char>,
    pub value: Seq<char>,
    pub warning: Option<Seq<char>>,
    pub critical: Option<Seq<char>>,
    pub min: Option<Seq<char>>,
    pub max: Option<Seq<char>>,
}

impl View for Metric {
    type V = MetricView;

    closed spec fn view(&self) -> MetricView {
        MetricView {
            label: self.label@,
            value: self.value@,
            warning: match self.warning {
                Some(w) => Some(w@),
                None => None,
            },
            critical: match self.critical {
                Some(c) => Some(c@),
                None => None,
            },
            min: match self.min {
                Some(m) => Some(m@),
                None => None,
            },
            max: match self.max {
                Some(m) => Some(m@),
                None => None,
            },
        }
    }
}

/// An absent annotation renders as the empty text, never as a placeholder.
pub open spec fn opt_text(o: Option<Seq<char>>) -> Seq<char> {
    match o {
        Some(s) => s,
        None => Seq::<char>::empty(),
    }
}

/// The exact rendering of one metric: the label in single quotes, an equals
/// sign, the value, then the four annotations, each after one semicolon, so
/// exactly four semicolons follow the value however many annotations are set.
pub open spec fn metric_text(m: MetricView) -> Seq<char> {
    "'"@ + m.label + "'="@ + m.value + ";"@ + opt_text(m.warning) + ";"@ + opt_text(m.critical)
        + ";"@ + opt_text(m.min) + ";"@ + opt_text(m.max)
}

impl Metric {
    /// A metric with the given label and value and no annotations set.
    pub fn new(label: String, value: String) -> (r: Metric)
        ensures
            r@ == (MetricView {
                label: label@,
                value: value@,
                warning: None,
                critical: None,
                min: None,
                max: None,
            }),
    {
        Metric { label, value, warning: None, critical: None, min: None, max: None }
    }

    /// The same metric with its warning annotation set to the given text;
    /// a second call overwrites the first.
    pub fn warning(self, warning: String) -> (r: Metric)
        ensures
            r@ == (MetricView { warning: Some(warning@), ..self@ }),
    {
        Metric { warning: Some(warning), ..self }
    }

    /// The same metric with its critical annotation set to the given text;
    /// a second call overwrites the first.
    pub fn critical(self, critical: String) -> (r: Metric)
        ensures
            r@ == (MetricView { critical: Some(critical@), ..self@ }),
    {
        Metric { critical: Some(critical), ..self }
    }

    /// The same metric with its minimum annotation set to the given text;
    /// a second call overwrites the first.
    pub fn min(self, min: String) -> (r: Metric)
        ensures
            r@ == (MetricView { min: Some(min@), ..self@ }),
    {
        Metric { min: Some(min), ..self }
    }

    /// The same metric with its maximum annotation set to the given text;
    /// a second call overwrites the first.
    pub fn max(self, max: String) -> (r: Metric)
        ensures
            r@ == (MetricView { max: Some(max@), ..self@ }),
    {
        Metric { max: Some(max), ..self }
    }

    /// The metric's exact text form.
    pub fn render(&self) -> (r: String)
        ensures
            r@ == metric_text(self@),
    {
        let mut s = String::from_str("'");
        s.append(self.label.as_str());
        s.append("'=");
        s.append(self.value.as_str());
        s.append(";");
        match &self.warning {
            Some(w) => s.append(w.as_str()),
            None => (),
        }
        s.append(";");
        match &self.critical {
            Some(c) => s.append(c.as_str()),
            None => (),
        }
        s.append(";");
        match &self.min {
            Some(m) => s.append(m.as_str()),
            None => (),
        }
        s.append(";");
        match &self.max {
            Some(m) => s.append(m.as_str()),
            None => (),
        }
        proof {
            assert(s@ =~= metric_text(self@));
        }
        s
    }
}

/// An ordered collection of metrics, rendered in insertion order for the
/// monitoring system's performance-data channel.
#[derive(Debug, Clone, PartialEq, Eq)]
pub struct PerfData {
    metrics: Vec<Metric>,
}

impl View for PerfData {
    type V = Seq<MetricView>;

    closed spec fn view(&self) -> Seq<MetricView> {
        self.metrics@.map_values(|m: Metric| m@)
    }
}

/// The exact rendering of a metric sequence: each metric's text followed by
/// one space, in order, so the last metric too is followed by a space.
pub open spec fn perf_text(ms: Seq<MetricView>) -> Seq<char>
    decreases ms.len(),
{
    if ms.len() == 0 {
        Seq::<char>::empty()
    } else {
        perf_text(ms.drop_last()) + metric_text(ms.last()) + " "@
    }
}

impl PerfData {
    /// Performance data holding exactly the one given metric.
    pub fn from_metric(single_metric: Metric) -> (r: PerfData)
        ensures
            r@ == seq![single_metric@],
    {
        let metrics = vec![single_metric];
        let r = PerfData { metrics };
        proof {
            assert(r@ =~= seq![single_metric@]);
        }
        r
    }

    /// Performance data holding the given metrics in the caller's order;
    /// the collection may be empty.
    pub fn from_metrics(multiple_metrics: Vec<Metric>) -> (r: PerfData)
        ensures
            r@ == multiple_metrics@.map_values(|m: Metric| m@),
    {
        PerfData { metrics: multiple_metrics }
    }

    /// The exact text form of the whole collection.
    pub fn render(&self) -> (r: String)
        ensures
            r@ == perf_text(self@),
    {
        let mut s = String::new();
        let mut i: usize = 0;
        while i < self.metrics.len()
            invariant
                i <= self.metrics.len(),
                s@ == perf_text(self@.take(i as int)),
            decreases self.metrics.len() - i,
        {
            let line = self.metrics[i].render();
            s.append(line.as_str());
            s.append(" ");
            proof {
                assert(self@.take(i as int + 1).drop_last() =~= self@.take(i as int));
                assert(self@.take(i as int + 1).last() == self@[i as int]);
            }
            i = i + 1;
        }
        proof {
            assert(self@.take(self.metrics.len() as int) =~= self@);
        }
        s
    }
}

/// A complete check outcome: a state, an optional human-readable info text,
/// and optional performance data. Built once through consuming setters, then
/// rendered for the monitoring system.
#[derive(Debug, Clone, PartialEq, Eq)]
pub struct CheckResult {
    state: State,
    info: Option<String>,
    perf_data: Option<PerfData>,
}

/// The mathematical shape of a check result.
pub ghost struct CheckResultView {
    pub state: State,
    pub info: Option<Seq<char>>,
    pub perf_data: Option<Seq<MetricView>>,
}

impl View for CheckResult {
    type V = CheckResultView;

    closed spec fn view(&self) -> CheckResultView {
        CheckResultView {
            state: self.state,
            info: match self.info {
                Some(i) => Some(i@),
                None => None,
            },
            perf_data: match self.perf_data {
                Some(pd) => Some(pd@),
                None => None,
            },
        }
    }
}

/// The exact rendering of a check result, one of four templates: the state's
/// uppercase text, then ` - ` and the info text when info is present, then
/// ` | ` and the performance-data text when that is present.
pub open spec fn result_text(r: CheckResultView) -> Seq<char> {
    match (r.info, r.perf_data) {
        (Some(i), Some(p)) => state_text(r.state) + " - "@ + i + " | "@ + perf_text(p),
        (Some(i), None) => state_text(r.state) + " - "@ + i,
        (None, Some(p)) => state_text(r.state) + " | "@ + perf_text(p),
        (None, None) => state_text(r.state),
    }
}

impl CheckResult {
    /// A bare result carrying only the given state.
    pub fn new(state: State) -> (r: CheckResult)
        ensures
            r@ == (CheckResultView { state, info: None, perf_data: None }),
    {
        CheckResult { state, info: None, perf_data: None }
    }

    /// The bare result that a given exit status stands for; anything outside
    /// 0, 1 and 2 is taken defensively as Unknown.
    pub fn from_exit_code(code: usize) -> (r: CheckResult)
        ensures
            r@ == (CheckResultView { state: state_of_code(code as int), info: None, perf_data: None }),
    {
        CheckResult::new(State::from_exit_code(code))
    }

    /// The same result with its info text set; a second call overwrites the
    /// first.
    pub fn set_info(self, text: String) -> (r: CheckResult)
        ensures
            r@ == (CheckResultView { info: Some(text@), ..self@ }),
    {
        CheckResult { info: Some(text), ..self }
    }

    /// The same result with its performance data set; a second call
    /// overwrites the first.
    pub fn set_perf_data(self, pd: PerfData) -> (r: CheckResult)
        ensures
            r@ == (CheckResultView { perf_data: Some(pd@), ..self@ }),
    {
        CheckResult { perf_data: Some(pd), ..self }
    }

    /// The state this result carries.
    pub fn state(&self) -> (r: State)
        ensures
            r == self@.state,
    {
        self.state
    }

    /// The exit code this result tells the caller's process to exit with.
    pub fn exit_code(&self) -> (r: i32)
        ensures
            r as int == state_code(self@.state),
    {
        self.state.exit_code()
    }

    /// The result's exact text form, as the monitoring system parses it.
    pub fn render(&self) -> (r: String)
        ensures
            r@ == result_text(self@),
    {
        let mut s = self.state.text();
        match &self.info {
            Some(i) => {
                s.append(" - ");
                s.append(i.as_str());
            },
            None => (),
        }
        match &self.perf_data {
            Some(pd) => {
                s.append(" | ");
                let pd_text = pd.render();
                s.append(pd_text.as_str());
            },
            None => (),
        }
        proof {
            assert(s@ =~= result_text(self@));
        }
        s
    }
}

/// Converting any exit code to a state and back yields the code itself for
/// 0, 1 and 2, and 3 for every other code.
pub proof fn lemma_exit_code_round_trip(n: int)
    ensures
        0 <= n <= 2 ==> state_code(state_of_code(n)) == n,
        !(0 <= n <= 2) ==> state_code(state_of_code(n)) == 3,
{
}

} // verus!
