//! Latency metrics for an exporter: the status level of an average latency
//! and the text lines that report both.

use vstd::prelude::*;
use crate::series::{latency_level_of, packet_latency};

verus! {

#[verifier::external_type_specification]
#[verifier::external_body]
pub struct ExIoError(std::io::Error);

/// The character of a decimal digit.
pub open spec fn digit_char(digit: nat) -> char {
    (48 + digit) as u8 as char
}

/// The decimal digits of a number, without leading zeros.
pub open spec fn decimal_digits(value: nat) -> Seq<char>
    decreases value,
{
    if value < 10 {
        seq![digit_char(value)]
    } else {
        decimal_digits(value / 10).push(digit_char(value % 10))
    }
}

/// The views of a run of texts.
pub open spec fn texts_of(lines: Seq<String>) -> Seq<Seq<char>> {
    Seq::new(lines.len(), |i: int| lines[i]@)
}

/// The six lines that report a metric called `name` with its average latency
/// and its status level: a help line, a type line and a value line for the
/// latency, then the same three for the state.
pub open spec fn metric_lines(name: Seq<char>, average: u64, level: u8) -> Seq<Seq<char>> {
    seq![
        "# HELP "@ + name + " in ms\n"@,
        "# TYPE "@ + name + " gauge\n"@,
        name + "{target=\"{}\"} "@ + decimal_digits(average as nat) + "\n"@,
        "# HELP "@ + name + " state: 0 OK, 1 Warning, 2 NOK\n"@,
        "# TYPE "@ + name + " gauge\n"@,
        name + "_state"@ + "{target=\"{}\"} "@ + decimal_digits(level as nat) + "\n"@,
    ]
}

/// Appends `more` to `text`.
///
/// Calls `String::push_str` of std, which appends the given text to the end of
/// the string.
#[verifier::external_body]
fn append(text: &mut String, more: &str)
    ensures
        final(text)@ == old(text)@ + more@,
{
    text.push_str(more)
}

/// The decimal text of a number.
///
/// Calls `to_string` of std on a `u64`, which writes the number in decimal
/// digits without sign or leading zeros.
#[verifier::external_body]
fn decimal_text(value: u64) -> (text: String)
    ensures
        text@ == decimal_digits(value as nat),
{
    value.to_string()
}

/// Joins up to five pieces into one text.
fn line_of(a: &str, b: &str, c: &str, d: &str, e: &str) -> (line: String)
    ensures
        line@ == a@ + b@ + c@ + d@ + e@,
{
    let mut line: String = String::new();
    append(&mut line, a);
    append(&mut line, b);
    append(&mut line, c);
    append(&mut line, d);
    append(&mut line, e);
    assert(line@ =~= a@ + b@ + c@ + d@ + e@);
    line
}

/// Appends to `lines` the six lines that report a metric called `name` with
/// its average latency and its status level.
pub fn push_metric_lines(lines: &mut Vec<String>, name: &str, average: u64, level: u8)
    ensures
        texts_of(final(lines)@) == texts_of(old(lines)@) + metric_lines(name@, average, level),
{
    let ghost before = texts_of(lines@);
    proof {
        reveal_strlit("");
    }
    let value: String = decimal_text(average);
    let state: String = decimal_text(level as u64);
    lines.push(line_of("# HELP ", name, " in ms\n", "", ""));
    lines.push(line_of("# TYPE ", name, " gauge\n", "", ""));
    lines.push(line_of(name, "{target=\"{}\"} ", value.as_str(), "\n", ""));
    lines.push(line_of("# HELP ", name, " state: 0 OK, 1 Warning, 2 NOK\n", "", ""));
    lines.push(line_of("# TYPE ", name, " gauge\n", "", ""));
    lines.push(line_of(name, "_state", "{target=\"{}\"} ", state.as_str(), "\n"));
    proof {
        let added = metric_lines(name@, average, level);
        let after = texts_of(lines@);
        assert(after.len() == before.len() + 6);
        assert forall|i: int| 0 <= i < after.len() implies after[i] == (before + added)[i] by {
            if i >= before.len() {
                let k = i - before.len();
                assert(after[i] == lines@[i]@);
                assert(""@ =~= Seq::<char>::empty());
                assert(after[i] =~= added[k]);
            }
        }
        assert(after =~= before + added);
    }
}

/// What every latency metric offers: its name, the average latency it was
/// made from, the status level of that average, and the lines that report it.
pub trait MetricsLatency {
    /// The name of the metric.
    spec fn name_view(&self) -> Seq<char>;

    /// The average latency, in milliseconds.
    spec fn average_view(&self) -> u64;

    /// The status level: 0 is fine, 1 is a warning, 2 is critical.
    spec fn level_view(&self) -> u8;

    /// The target that was probed.
    spec fn dst_view(&self) -> Seq<char>;

    /// The lines made so far.
    spec fn lines_view(&self) -> Seq<Seq<char>>;

    /// The name of the metric.
    fn name(&self) -> (name: &'static str)
        ensures
            name@ == self.name_view(),
    ;

    /// The average latency, in milliseconds.
    fn latency_moy_sampled(&self) -> (average: u64)
        ensures
            average == self.average_view(),
    ;

    /// The status level: 0 is fine, 1 is a warning, 2 is critical.
    fn latency_level(&self) -> (level: u8)
        ensures
            level == self.level_view(),
    ;

    /// The target that was probed.
    fn dst(&self) -> (dst: String)
        ensures
            dst@ == self.dst_view(),
    ;

    /// The lines made so far.
    fn output_exporter(&self) -> (lines: &Vec<String>)
        ensures
            texts_of(lines@) == self.lines_view(),
    ;

    /// Sets the status level to that of the average latency.
    fn packet_latency(&mut self)
        ensures
            final(self).level_view() == latency_level_of(old(self).average_view()),
            final(self).name_view() == old(self).name_view(),
            final(self).average_view() == old(self).average_view(),
            final(self).dst_view() == old(self).dst_view(),
            final(self).lines_view() == old(self).lines_view(),
    ;

    /// Appends the six lines that report the average latency and the status
    /// level as they stand.
    fn output_format(&mut self)
        ensures
            final(self).lines_view() == old(self).lines_view() + metric_lines(
                old(self).name_view(),
                old(self).average_view(),
                old(self).level_view(),
            ),
            final(self).name_view() == old(self).name_view(),
            final(self).average_view() == old(self).average_view(),
            final(self).level_view() == old(self).level_view(),
            final(self).dst_view() == old(self).dst_view(),
    ;

    /// Classifies the average latency, then appends the lines that report it.
    /// It never fails.
    fn run(&mut self) -> (outcome: Result<(), std::io::Error>)
        ensures
            outcome is Ok,
            final(self).level_view() == latency_level_of(old(self).average_view()),
            final(self).lines_view() == old(self).lines_view() + metric_lines(
                old(self).name_view(),
                old(self).average_view(),
                latency_level_of(old(self).average_view()),
            ),
            final(self).name_view() == old(self).name_view(),
            final(self).average_view() == old(self).average_view(),
            final(self).dst_view() == old(self).dst_view(),
    ;
}

/// The metric of the ICMP-echo probe.
pub struct PingMetrics {
    latency_moy_sampled: u64,
    latency_level: u8,
    dst: String,
    output_exporter: Vec<String>,
}

impl PingMetrics {
    /// A metric for the average latency `latency_moy_sampled` measured to
    /// `dst`, not classified yet and without lines.
    pub fn new(latency_moy_sampled: u64, dst: String) -> (metrics: Self)
        ensures
            metrics.average_view() == latency_moy_sampled,
            metrics.dst_view() == dst@,
            metrics.level_view() == 0,
            metrics.lines_view() == Seq::<Seq<char>>::empty(),
            metrics.name_view() == "ping"@,
    {
        let metrics = Self {
            latency_moy_sampled,
            dst,
            latency_level: 0,
            output_exporter: Vec::new(),
        };
        assert(texts_of(metrics.output_exporter@) =~= Seq::<Seq<char>>::empty());
        metrics
    }
}

impl MetricsLatency for PingMetrics {
    closed spec fn name_view(&self) -> Seq<char> {
        "ping"@
    }

    closed spec fn average_view(&self) -> u64 {
        self.latency_moy_sampled
    }

    closed spec fn level_view(&self) -> u8 {
        self.latency_level
    }

    closed spec fn dst_view(&self) -> Seq<char> {
        self.dst@
    }

    closed spec fn lines_view(&self) -> Seq<Seq<char>> {
        texts_of(self.output_exporter@)
    }

    fn name(&self) -> (name: &'static str) {
        "ping"
    }

    fn latency_moy_sampled(&self) -> (average: u64) {
        self.latency_moy_sampled
    }

    fn latency_level(&self) -> (level: u8) {
        self.latency_level
    }

    fn dst(&self) -> (dst: String) {
        self.dst.clone()
    }

    fn output_exporter(&self) -> (lines: &Vec<String>) {
        &self.output_exporter
    }

    fn packet_latency(&mut self) {
        self.latency_level = packet_latency(&self.latency_moy_sampled);
    }

    fn output_format(&mut self) {
        push_metric_lines(
            &mut self.output_exporter,
            "ping",
            self.latency_moy_sampled,
            self.latency_level,
        );
    }

    fn run(&mut self) -> (outcome: Result<(), std::io::Error>) {
        self.packet_latency();
        self.output_format();
        Ok(())
    }
}

/// The metric of the TCP-flag probe.
pub struct TPingMetrics {
    latency_moy_sampled: u64,
    latency_level: u8,
    dst: String,
    output_exporter: Vec<String>,
}

impl TPingMetrics {
    /// A metric for the average latency `latency_moy_sampled` measured to
    /// `dst`, not classified yet and without lines.
    pub fn new(latency_moy_sampled: u64, dst: String) -> (metrics: Self)
        ensures
            metrics.average_view() == latency_moy_sampled,
            metrics.dst_view() == dst@,
            metrics.level_view() == 0,
            metrics.lines_view() == Seq::<Seq<char>>::empty(),
            metrics.name_view() == "tping"@,
    {
        let metrics = Self {
            latency_moy_sampled,
            dst,
            latency_level: 0,
            output_exporter: Vec::new(),
        };
        assert(texts_of(metrics.output_exporter@) =~= Seq::<Seq<char>>::empty());
        metrics
    }
}

impl MetricsLatency for TPingMetrics {
    closed spec fn name_view(&self) -> Seq<char> {
        "tping"@
    }

    closed spec fn average_view(&self) -> u64 {
        self.latency_moy_sampled
    }

    closed spec fn level_view(&self) -> u8 {
        self.latency_level
    }

    closed spec fn dst_view(&self) -> Seq<char> {
        self.dst@
    }

    closed spec fn lines_view(&self) -> Seq<Seq<char>> {
        texts_of(self.output_exporter@)
    }

    fn name(&self) -> (name: &'static str) {
        "tping"
    }

    fn latency_moy_sampled(&self) -> (average: u64) {
        self.latency_moy_sampled
    }

    fn latency_level(&self) -> (level: u8) {
        self.latency_level
    }

    fn dst(&self) -> (dst: String) {
        self.dst.clone()
    }

    fn output_exporter(&self) -> (lines: &Vec<String>) {
        &self.output_exporter
    }

    fn packet_latency(&mut self) {
        self.latency_level = packet_latency(&self.latency_moy_sampled);
    }

    fn output_format(&mut self) {
        push_metric_lines(
            &mut self.output_exporter,
            "tping",
            self.latency_moy_sampled,
            self.latency_level,
        );
    }

    fn run(&mut self) -> (outcome: Result<(), std::io::Error>) {
        self.packet_latency();
        self.output_format();
        Ok(())
    }
}

/// The metric of the name resolver.
pub struct NSLookupMetrics {
    latency_moy_sampled: u64,
    latency_level: u8,
    dst: String,
    output_exporter: Vec<String>,
}

impl NSLookupMetrics {
    /// A metric for the average latency `latency_moy_sampled` measured to
    /// `dst`, not classified yet and without lines.
    pub fn new(latency_moy_sampled: u64, dst: String) -> (metrics: Self)
        ensures
            metrics.average_view() == latency_moy_sampled,
            metrics.dst_view() == dst@,
            metrics.level_view() == 0,
            metrics.lines_view() == Seq::<Seq<char>>::empty(),
            metrics.name_view() == "resolver"@,
    {
        let metrics = Self {
            latency_moy_sampled,
            dst,
            latency_level: 0,
            output_exporter: Vec::new(),
        };
        assert(texts_of(metrics.output_exporter@) =~= Seq::<Seq<char>>::empty());
        metrics
    }
}

impl MetricsLatency for NSLookupMetrics {
    closed spec fn name_view(&self) -> Seq<char> {
        "resolver"@
    }

    closed spec fn average_view(&self) -> u64 {
        self.latency_moy_sampled
    }

    closed spec fn level_view(&self) -> u8 {
        self.latency_level
    }

    closed spec fn dst_view(&self) -> Seq<char> {
        self.dst@
    }

    closed spec fn lines_view(&self) -> Seq<Seq<char>> {
        texts_of(self.output_exporter@)
    }

    fn name(&self) -> (name: &'static str) {
        "resolver"
    }

    fn latency_moy_sampled(&self) -> (average: u64) {
        self.latency_moy_sampled
    }

    fn latency_level(&self) -> (level: u8) {
        self.latency_level
    }

    fn dst(&self) -> (dst: String) {
        self.dst.clone()
    }

    fn output_exporter(&self) -> (lines: &Vec<String>) {
        &self.output_exporter
    }

    fn packet_latency(&mut self) {
        self.latency_level = packet_latency(&self.latency_moy_sampled);
    }

    fn output_format(&mut self) {
        push_metric_lines(
            &mut self.output_exporter,
            "resolver",
            self.latency_moy_sampled,
            self.latency_level,
        );
    }

    fn run(&mut self) -> (outcome: Result<(), std::io::Error>) {
        self.packet_latency();
        self.output_format();
        Ok(())
    }
}

} // verus!
