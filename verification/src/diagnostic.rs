//! The verdicts of a quick diagnostic: what the lost probes and the latency
//! level of each tool say about the network.

use vstd::prelude::*;

verus! {

/// What the lost probes of one tool say.
#[derive(Clone, Copy, Debug, PartialEq, Eq, Structural)]
pub enum Connectivity {
    /// No probe was lost.
    Up,
    /// Some probes were lost, fewer than five.
    Degraded { failed: u8 },
    /// Five probes or more were lost.
    Down,
}

/// What the latency level of one tool says.
#[derive(Clone, Copy, Debug, PartialEq, Eq, Structural)]
pub enum LatencyVerdict {
    Good,
    Warning,
    Critical,
}

/// The verdicts on one tool.
#[derive(Clone, Copy, Debug, PartialEq, Eq, Structural)]
pub struct ToolVerdict {
    pub connectivity: Connectivity,
    pub latency: LatencyVerdict,
}

/// The verdicts on the three tools of a diagnostic.
#[derive(Clone, Copy, Debug, PartialEq, Eq, Structural)]
pub struct DiagnosticReport {
    pub ping: ToolVerdict,
    pub tping: ToolVerdict,
    pub resolver: ToolVerdict,
}

/// The verdict on a number of lost probes.
pub open spec fn connectivity_of(lost: u8) -> Connectivity {
    if lost == 0 {
        Connectivity::Up
    } else if lost < 5 {
        Connectivity::Degraded { failed: lost }
    } else {
        Connectivity::Down
    }
}

/// The verdict on a latency level: 1 is a warning, 2 is critical, anything
/// else is good.
pub open spec fn latency_verdict_of(level: u8) -> LatencyVerdict {
    if level == 1 {
        LatencyVerdict::Warning
    } else if level == 2 {
        LatencyVerdict::Critical
    } else {
        LatencyVerdict::Good
    }
}

/// The verdicts on a tool that lost `lost` probes and has latency level
/// `level`.
pub open spec fn tool_verdict_of(level: u8, lost: u8) -> ToolVerdict {
    ToolVerdict { connectivity: connectivity_of(lost), latency: latency_verdict_of(level) }
}

/// Judges a number of lost probes.
pub fn connectivity_verdict(lost: u8) -> (verdict: Connectivity)
    ensures
        verdict == connectivity_of(lost),
{
    if lost > 0 && lost < 5 {
        Connectivity::Degraded { failed: lost }
    } else if lost >= 5 {
        Connectivity::Down
    } else {
        Connectivity::Up
    }
}

/// Judges a latency level.
pub fn latency_verdict(level: u8) -> (verdict: LatencyVerdict)
    ensures
        verdict == latency_verdict_of(level),
{
    if level == 1 {
        LatencyVerdict::Warning
    } else if level == 2 {
        LatencyVerdict::Critical
    } else {
        LatencyVerdict::Good
    }
}

/// Judges the three tools of a diagnostic, ping first, then the TCP-flag
/// probe, then the resolver, from their latency levels and their lost probes.
pub fn output_format(latency_moy_vec: &Vec<u8>, zero_vec: &Vec<u8>) -> (report: DiagnosticReport)
    requires
        latency_moy_vec@.len() >= 3,
        zero_vec@.len() >= 3,
    ensures
        report.ping == tool_verdict_of(latency_moy_vec@[0], zero_vec@[0]),
        report.tping == tool_verdict_of(latency_moy_vec@[1], zero_vec@[1]),
        report.resolver == tool_verdict_of(latency_moy_vec@[2], zero_vec@[2]),
{
    DiagnosticReport {
        ping: ToolVerdict {
            connectivity: connectivity_verdict(zero_vec[0]),
            latency: latency_verdict(latency_moy_vec[0]),
        },
        tping: ToolVerdict {
            connectivity: connectivity_verdict(zero_vec[1]),
            latency: latency_verdict(latency_moy_vec[1]),
        },
        resolver: ToolVerdict {
            connectivity: connectivity_verdict(zero_vec[2]),
            latency: latency_verdict(latency_moy_vec[2]),
        },
    }
}

} // verus!
