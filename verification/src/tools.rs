//! The two probing tools: the ICMP-echo probe and the TCP-flag probe. Each
//! is one session with its target and its export file; what they share is the
//! trait `LatencyTool`.

use vstd::prelude::*;
use crate::address::IpAddress;
use crate::engine::{statistics_of, Statistics};
use crate::probe::{build_probe, probe_bytes, ProbeError};
use crate::sampling::{
    arrival_times, elapsed_of, latencies, point_column, pre_column, pre_times, Trend,
};
use crate::session::{transition, Session, SessionAction, SessionEvent};

verus! {

/// A tool that probes a target and reports latencies: one session, fed by
/// events, with read access to everything the session has measured.
pub trait LatencyTool {
    /// The session of the tool.
    spec fn session_view(&self) -> Session;

    /// The name of the tool.
    spec fn name_view(&self) -> Seq<char>;

    /// The target as it was given.
    spec fn target_view(&self) -> Seq<char>;

    /// The name of the file that results are exported to.
    spec fn output_view(&self) -> Seq<char>;

    /// The name of the tool.
    fn name(&self) -> (name: &'static str)
        ensures
            name@ == self.name_view(),
    ;

    /// The target as it was given: an address or a host name.
    fn target(&self) -> (target: &str)
        ensures
            target@ == self.target_view(),
    ;

    /// The name of the file that results are exported to.
    fn output(&self) -> (output: &str)
        ensures
            output@ == self.output_view(),
    ;

    /// The session of the tool.
    fn session(&self) -> (session: &Session)
        ensures
            *session == self.session_view(),
    ;

    /// Takes one event of the session loop: moves the session to its next
    /// state, lets the engine record and sample what the event brings, and says
    /// what to do next.
    fn advance(&mut self, event: SessionEvent) -> (action: SessionAction)
        requires
            old(self).session_view().wf(),
            old(self).session_view().accepts(event),
        ensures
            final(self).session_view().wf(),
            (final(self).session_view().state_view(), action) == transition(
                old(self).session_view().state_view(),
                event,
                old(self).session_view().sent_view(),
                old(self).session_view().nb_ping_view(),
            ),
            old(self).session_view().engine_after(
                event,
                &final(self).session_view().engine_view(),
            ),
            final(self).session_view().nb_ping_view() == old(self).session_view().nb_ping_view(),
            final(self).session_view().begin_view() == if old(self).session_view().state_view()
                is Idle && event is Started {
                event->now
            } else {
                old(self).session_view().begin_view()
            },
            final(self).target_view() == old(self).target_view(),
            final(self).output_view() == old(self).output_view(),
    ;

    /// Runs the two stages of sampling on the history as it stands.
    fn sampling(&mut self)
        requires
            old(self).session_view().wf(),
        ensures
            final(self).session_view().wf(),
            old(self).session_view().engine_view().updated_to(
                &final(self).session_view().engine_view(),
            ),
            final(self).session_view().state_view() == old(self).session_view().state_view(),
            final(self).session_view().nb_ping_view() == old(self).session_view().nb_ping_view(),
            final(self).session_view().begin_view() == old(self).session_view().begin_view(),
            final(self).target_view() == old(self).target_view(),
            final(self).output_view() == old(self).output_view(),
    ;

    /// The nominal probe count; zero means no bound.
    fn nb_ping(&self) -> (nb_ping: u16)
        ensures
            nb_ping == self.session_view().nb_ping_view(),
    {
        self.session().nb_ping()
    }

    /// The time the session began, in seconds.
    fn begin_time(&self) -> (begin: u64)
        ensures
            begin == self.session_view().begin_view(),
    {
        self.session().begin_time()
    }

    /// Seconds between the first probe and the last one.
    fn elapsed_time(&self) -> (elapsed: u64)
        requires
            self.session_view().wf(),
        ensures
            elapsed == elapsed_of(self.session_view().engine_view().raw_view()),
    {
        self.session().engine().elapsed_time()
    }

    /// The latency of every probe, oldest first.
    fn data(&self) -> (column: Vec<u16>)
        ensures
            column@ == latencies(self.session_view().engine_view().raw_view()),
    {
        self.session().engine().data()
    }

    /// The arrival time of every probe, oldest first.
    fn sys_time(&self) -> (column: Vec<u64>)
        ensures
            column@ == arrival_times(self.session_view().engine_view().raw_view()),
    {
        self.session().engine().sys_time()
    }

    /// The tag time of every pre-aggregate.
    fn latency_time(&self) -> (column: Vec<u64>)
        ensures
            column@ == pre_times(self.session_view().engine_view().pre_view()),
    {
        self.session().engine().latency_time()
    }

    /// The minimum of every pre-aggregate.
    fn latency_min(&self) -> (column: Vec<u16>)
        ensures
            column@ == pre_column(self.session_view().engine_view().pre_view(), Trend::Min),
    {
        self.session().engine().pre_aggregate_column(Trend::Min)
    }

    /// The average of every pre-aggregate.
    fn latency_moy(&self) -> (column: Vec<u16>)
        ensures
            column@ == pre_column(self.session_view().engine_view().pre_view(), Trend::Avg),
    {
        self.session().engine().pre_aggregate_column(Trend::Avg)
    }

    /// The maximum of every pre-aggregate.
    fn latency_max(&self) -> (column: Vec<u16>)
        ensures
            column@ == pre_column(self.session_view().engine_view().pre_view(), Trend::Max),
    {
        self.session().engine().pre_aggregate_column(Trend::Max)
    }

    /// The minimum of every sampled point.
    fn latency_min_sampled(&self) -> (column: Vec<u64>)
        ensures
            column@ == point_column(
                self.session_view().engine_view().sampled_view(),
                Trend::Min,
            ),
    {
        self.session().engine().sampled_column(Trend::Min)
    }

    /// The average of every sampled point.
    fn latency_moy_sampled(&self) -> (column: Vec<u64>)
        ensures
            column@ == point_column(
                self.session_view().engine_view().sampled_view(),
                Trend::Avg,
            ),
    {
        self.session().engine().sampled_column(Trend::Avg)
    }

    /// The maximum of every sampled point.
    fn latency_max_sampled(&self) -> (column: Vec<u64>)
        ensures
            column@ == point_column(
                self.session_view().engine_view().sampled_view(),
                Trend::Max,
            ),
    {
        self.session().engine().sampled_column(Trend::Max)
    }

    /// The summary of the session: probes sent, received and lost, and the
    /// minimum, truncated average and maximum latency over all of them.
    fn latency_data(&self) -> (summary: Statistics)
        requires
            self.session_view().engine_view().raw_view().len() > 0,
        ensures
            summary == statistics_of(self.session_view().engine_view().raw_view()),
            summary.received + summary.lost == summary.transmitted,
    {
        self.session().engine().statistics()
    }
}

/// The ICMP-echo probing tool.
pub struct PingTool {
    pub target: String,
    output: String,
    session: Session,
}

impl PingTool {
    /// A tool that has not started: it will probe `target`, `nb_ping` times
    /// (zero: until it is cancelled), and export to `output`.
    pub fn new(target: &str, output: &str, nb_ping: u16) -> (tool: Self)
        ensures
            tool.session_view().wf(),
            tool.target_view() == target@,
            tool.output_view() == output@,
            tool.session_view().state_view() is Idle,
            tool.session_view().nb_ping_view() == nb_ping,
            tool.session_view().begin_view() == 0,
            tool.session_view().sent_view() == 0,
            tool.session_view().engine_view().sampled_view().len() == 0,
            tool.session_view().engine_view().scale_view() == 5,
    {
        Self {
            target: target.to_owned(),
            output: output.to_owned(),
            session: Session::new(nb_ping),
        }
    }

    /// Changes the export file and the nominal probe count.
    pub fn setting(&mut self, output: &str, nb_ping: u16)
        ensures
            final(self).output_view() == output@,
            final(self).session_view().nb_ping_view() == nb_ping,
            final(self).target_view() == old(self).target_view(),
            final(self).session_view().state_view() == old(self).session_view().state_view(),
            final(self).session_view().begin_view() == old(self).session_view().begin_view(),
            final(self).session_view().engine_view() == old(self).session_view().engine_view(),
    {
        self.output = output.to_owned();
        self.session.set_nb_ping(nb_ping);
    }
}

impl LatencyTool for PingTool {
    closed spec fn session_view(&self) -> Session {
        self.session
    }

    open spec fn name_view(&self) -> Seq<char> {
        "ping"@
    }

    closed spec fn target_view(&self) -> Seq<char> {
        self.target@
    }

    closed spec fn output_view(&self) -> Seq<char> {
        self.output@
    }

    fn name(&self) -> (name: &'static str) {
        "ping"
    }

    fn target(&self) -> (target: &str) {
        self.target.as_str()
    }

    fn output(&self) -> (output: &str) {
        self.output.as_str()
    }

    fn session(&self) -> (session: &Session) {
        &self.session
    }

    fn advance(&mut self, event: SessionEvent) -> (action: SessionAction) {
        self.session.advance(event)
    }

    fn sampling(&mut self) {
        self.session.sampling();
    }
}

/// The TCP-flag probing tool.
pub struct TCPPingTool {
    pub target: String,
    output: String,
    port: u16,
    flag: u8,
    session: Session,
}

impl TCPPingTool {
    /// The port that is probed.
    pub closed spec fn port_view(&self) -> u16 {
        self.port
    }

    /// The flags byte that the probes carry.
    pub closed spec fn flag_view(&self) -> u8 {
        self.flag
    }

    /// The port that is probed.
    pub fn port(&self) -> (port: u16)
        ensures
            port == self.port_view(),
    {
        self.port
    }

    /// The flags byte that the probes carry.
    pub fn flag(&self) -> (flag: u8)
        ensures
            flag == self.flag_view(),
    {
        self.flag
    }

    /// Builds the probe of this tool from `source` to `target`. Addresses of
    /// two different IP versions are refused.
    pub fn probe_packet(&self, source: &IpAddress, target: &IpAddress) -> (probe: Result<
        Vec<u8>,
        ProbeError,
    >)
        ensures
            (source is V4) == (target is V4) ==> probe is Ok && probe->Ok_0@ == probe_bytes(
                *source,
                *target,
                self.port_view(),
                self.flag_view(),
            ),
            (source is V4) != (target is V4) ==> probe == Err::<Vec<u8>, ProbeError>(
                ProbeError::VersionMismatch,
            ),
    {
        build_probe(source, target, self.port, self.flag)
    }

    /// A tool that has not started: it will probe `target`, `nb_ping` times
    /// (zero: until it is cancelled), and export to `output`.
    pub fn new(target: &str, output: &str, nb_ping: u16, port: u16, flag: u8) -> (tool: Self)
        ensures
            tool.session_view().wf(),
            tool.target_view() == target@,
            tool.output_view() == output@,
            tool.port_view() == port,
            tool.flag_view() == flag,
            tool.session_view().state_view() is Idle,
            tool.session_view().nb_ping_view() == nb_ping,
            tool.session_view().begin_view() == 0,
            tool.session_view().sent_view() == 0,
            tool.session_view().engine_view().sampled_view().len() == 0,
            tool.session_view().engine_view().scale_view() == 5,
    {
        Self {
            target: target.to_owned(),
            output: output.to_owned(),
            port,
            flag,
            session: Session::new(nb_ping),
        }
    }

    /// Changes the export file and the nominal probe count.
    pub fn setting(&mut self, output: &str, nb_ping: u16)
        ensures
            final(self).output_view() == output@,
            final(self).session_view().nb_ping_view() == nb_ping,
            final(self).target_view() == old(self).target_view(),
            final(self).session_view().state_view() == old(self).session_view().state_view(),
            final(self).session_view().begin_view() == old(self).session_view().begin_view(),
            final(self).session_view().engine_view() == old(self).session_view().engine_view(),
    {
        self.output = output.to_owned();
        self.session.set_nb_ping(nb_ping);
    }
}

impl LatencyTool for TCPPingTool {
    closed spec fn session_view(&self) -> Session {
        self.session
    }

    open spec fn name_view(&self) -> Seq<char> {
        "tping"@
    }

    closed spec fn target_view(&self) -> Seq<char> {
        self.target@
    }

    closed spec fn output_view(&self) -> Seq<char> {
        self.output@
    }

    fn name(&self) -> (name: &'static str) {
        "tping"
    }

    fn target(&self) -> (target: &str) {
        self.target.as_str()
    }

    fn output(&self) -> (output: &str) {
        self.output.as_str()
    }

    fn session(&self) -> (session: &Session) {
        &self.session
    }

    fn advance(&mut self, event: SessionEvent) -> (action: SessionAction) {
        self.session.advance(event)
    }

    fn sampling(&mut self) {
        self.session.sampling();
    }
}

} // verus!
