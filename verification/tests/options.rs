use rndiag::diagnostic::{
    connectivity_verdict, latency_verdict, output_format, Connectivity, DiagnosticReport,
    LatencyVerdict, ToolVerdict,
};
use rndiag::graph::{bar_heights, graph_range, scale_marks, viewer_step, ViewerStep};
use rndiag::options::{
    addr_check, correct_options, flag_check, is_hostname, mode_check, output_check,
    output_verdict, same_text, tool_is_selected, useless_options, Options, OptionsError, Warning,
};
use rndiag::sampling::Trend;

fn defaults() -> Options {
    Options {
        dst: String::from("none"),
        count: 0,
        output: String::from("AjaNuP123YuL903nNNaZY"),
        port: 0,
        mode: String::from("full"),
        server: false,
        time: 30,
        bitrate: 50000,
        flag: String::from("none"),
        diagnostic: String::from("none"),
        ping: false,
        tping: false,
        resolver: false,
        sptest: false,
        nc: false,
        exporter: false,
        ws_addr: String::from("none"),
        ws_port: 0,
    }
}

#[test]
fn one_tool_is_selected() {
    let mut options = defaults();
    options.tping = true;
    assert_eq!(tool_is_selected(&options), Ok(String::from("tping")));
    let mut options = defaults();
    options.exporter = true;
    assert_eq!(tool_is_selected(&options), Ok(String::from("exporter")));
    let mut options = defaults();
    options.nc = true;
    assert_eq!(tool_is_selected(&options), Ok(String::from("nc")));
    let mut options = defaults();
    options.ping = true;
    assert_eq!(tool_is_selected(&options), Ok(String::from("ping")));
    let mut options = defaults();
    options.resolver = true;
    assert_eq!(tool_is_selected(&options), Ok(String::from("resolver")));
    let mut options = defaults();
    options.sptest = true;
    assert_eq!(tool_is_selected(&options), Ok(String::from("sptest")));
}

#[test]
fn no_tool_or_several_tools() {
    let mut options = defaults();
    assert_eq!(tool_is_selected(&options), Err(OptionsError::NoTool));
    options.diagnostic = String::from("true");
    assert_eq!(tool_is_selected(&options), Ok(String::from("diagnostic")));
    options.ping = true;
    options.nc = true;
    assert_eq!(tool_is_selected(&options), Err(OptionsError::SeveralTools));
}

#[test]
fn tools_need_their_port() {
    let mut options = defaults();
    options.dst = String::from("10.0.0.1");
    for (tool, error) in [
        ("tping", OptionsError::TpingPortMissing),
        ("diagnostic", OptionsError::TpingPortMissing),
        ("sptest", OptionsError::SptestPortMissing),
        ("nc", OptionsError::NcPortMissing),
    ] {
        options.port = 0;
        assert_eq!(correct_options(&String::from(tool), &options), Err(error));
        options.port = 80;
        assert_eq!(correct_options(&String::from(tool), &options), Ok(()));
    }
    options.port = 0;
    assert_eq!(correct_options(&String::from("ping"), &options), Ok(()));
    options.dst = String::from("none");
    assert_eq!(correct_options(&String::from("diagnostic"), &options), Ok(()));
}

#[test]
fn exporter_needs_all_its_options() {
    let mut options = defaults();
    options.exporter = true;
    options.dst = String::from("10.0.0.1");
    options.port = 443;
    options.ws_addr = String::from("127.0.0.1");
    options.ws_port = 9100;
    options.output = String::from("metrics");
    let tool = String::from("exporter");
    assert_eq!(correct_options(&tool, &options), Ok(()));
    options.ws_port = 0;
    assert_eq!(correct_options(&tool, &options), Err(OptionsError::ExporterIncomplete));
    options.ws_port = 9100;
    options.output = String::from("output.csv");
    assert_eq!(correct_options(&tool, &options), Err(OptionsError::ExporterIncomplete));
    options.output = String::from("metrics");
    options.ws_addr = String::from("none");
    assert_eq!(correct_options(&tool, &options), Err(OptionsError::ExporterIncomplete));
}

#[test]
fn options_that_a_tool_ignores() {
    let mut options = defaults();
    assert_eq!(useless_options(&String::from("sptest"), &options), vec![]);
    options.port = 80;
    options.flag = String::from("S");
    options.time = 31;
    options.server = true;
    assert_eq!(
        useless_options(&String::from("ping"), &options),
        vec![
            Warning::PortIgnored,
            Warning::FlagIgnored,
            Warning::SpeedOptionsIgnored,
            Warning::ServerIgnored
        ]
    );
    assert_eq!(
        useless_options(&String::from("tping"), &options),
        vec![Warning::SpeedOptionsIgnored, Warning::ServerIgnored]
    );
    assert_eq!(useless_options(&String::from("sptest"), &options), vec![Warning::FlagIgnored]);
    assert_eq!(
        useless_options(&String::from("nc"), &options),
        vec![Warning::FlagIgnored, Warning::SpeedOptionsIgnored]
    );
    let mut options = defaults();
    options.resolver = true;
    assert_eq!(useless_options(&String::from("diagnostic"), &options), vec![Warning::ToolIgnored]);
}

#[test]
fn host_names() {
    assert!(is_hostname("example.org"));
    assert!(is_hostname("a"));
    assert!(is_hostname("a-b.c-d.e9"));
    assert!(is_hostname("localhost"));
    assert!(is_hostname("1.1.1.1"));
    assert!(!is_hostname(""));
    assert!(!is_hostname("."));
    assert!(!is_hostname("a."));
    assert!(!is_hostname(".a"));
    assert!(!is_hostname("a..b"));
    assert!(!is_hostname("-a.b"));
    assert!(!is_hostname("a-.b"));
    assert!(!is_hostname("a.-b"));
    assert!(!is_hostname("a.b-"));
    assert!(!is_hostname("a_b"));
    assert!(!is_hostname("a b"));
    assert!(!is_hostname("caf\u{e9}.org"));
    let label63 = "a".repeat(63);
    let label64 = "a".repeat(64);
    assert!(is_hostname(&label63));
    assert!(!is_hostname(&label64));
    assert!(is_hostname(&format!("{}.{}", label63, label63)));
    assert!(!is_hostname(&format!("{}.{}", label63, label64)));
    let name253 = format!("{}.{}.{}.{}", label63, label63, label63, "a".repeat(61));
    assert_eq!(name253.len(), 253);
    assert!(is_hostname(&name253));
    let name254 = format!("{}.{}.{}.{}", label63, label63, label63, "a".repeat(62));
    assert!(!is_hostname(&name254));
}

#[test]
fn targets() {
    assert!(!addr_check(&String::from("none"), false));
    assert!(!addr_check(&String::from("none"), true));
    assert!(addr_check(&String::from("::1"), true));
    assert!(!addr_check(&String::from("::1"), false));
    assert!(addr_check(&String::from("example.org"), false));
    assert!(!addr_check(&String::from("exa mple.org"), false));
}

#[test]
fn flags_and_modes() {
    for letter in ["S", "A", "F", "R", "P", "U"] {
        assert!(flag_check(&String::from(letter)));
    }
    assert!(!flag_check(&String::from("s")));
    assert!(!flag_check(&String::from("none")));
    assert!(!flag_check(&String::from("")));
    assert!(mode_check(&String::from("full")));
    assert!(mode_check(&String::from("upload")));
    assert!(mode_check(&String::from("download")));
    assert!(!mode_check(&String::from("Full")));
    assert!(!mode_check(&String::from("")));
    assert!(same_text("abc", "abc"));
    assert!(!same_text("abc", "abd"));
}

#[test]
fn export_file_names() {
    assert!(output_check(&String::from("results.csv")));
    assert!(output_check(&String::from("dir/results-1_2.csv")));
    assert!(output_check(&String::from("")));
    for bad in ["a=b", "a:b", "a*", "a?", "a\"", "a'", "a,b", "a;b", "a!", "{a", "a}", "[a", "a]",
        "(a", "a)", "<a", "a>", "a|b"]
    {
        assert!(!output_check(&String::from(bad)), "{}", bad);
    }
    assert!(output_verdict(Some(false)));
    assert!(!output_verdict(Some(true)));
    assert!(!output_verdict(None));
}

#[test]
fn diagnostic_verdicts() {
    assert_eq!(connectivity_verdict(0), Connectivity::Up);
    assert_eq!(connectivity_verdict(1), Connectivity::Degraded { failed: 1 });
    assert_eq!(connectivity_verdict(4), Connectivity::Degraded { failed: 4 });
    assert_eq!(connectivity_verdict(5), Connectivity::Down);
    assert_eq!(connectivity_verdict(6), Connectivity::Down);
    assert_eq!(latency_verdict(0), LatencyVerdict::Good);
    assert_eq!(latency_verdict(1), LatencyVerdict::Warning);
    assert_eq!(latency_verdict(2), LatencyVerdict::Critical);
    assert_eq!(latency_verdict(3), LatencyVerdict::Good);
    assert_eq!(
        output_format(&vec![0, 1, 2], &vec![0, 3, 6]),
        DiagnosticReport {
            ping: ToolVerdict { connectivity: Connectivity::Up, latency: LatencyVerdict::Good },
            tping: ToolVerdict {
                connectivity: Connectivity::Degraded { failed: 3 },
                latency: LatencyVerdict::Warning
            },
            resolver: ToolVerdict {
                connectivity: Connectivity::Down,
                latency: LatencyVerdict::Critical
            },
        }
    );
}

#[test]
fn bars_and_marks_of_the_graph() {
    assert_eq!(graph_range(&vec![]), 1);
    assert_eq!(graph_range(&vec![0, 0]), 1);
    assert_eq!(graph_range(&vec![3, 40, 7]), 40);
    assert_eq!(bar_heights(&vec![0, 10, 20, 40], 20), vec![1, 5, 10, 20]);
    assert_eq!(bar_heights(&vec![0, 0], 20), vec![1, 1]);
    assert_eq!(bar_heights(&vec![7], 3), vec![3]);
    assert_eq!(bar_heights(&vec![u64::MAX, 1], 65535), vec![65535, 1]);
    assert_eq!(scale_marks(40, 4), vec![40, 30, 20, 10, 0]);
    assert_eq!(scale_marks(10, 3), vec![10, 6, 3, 0]);
    assert_eq!(scale_marks(u64::MAX, 1), vec![u64::MAX, 0]);
}

#[test]
fn keys_of_the_viewer() {
    assert_eq!(viewer_step('q', Trend::Avg), ViewerStep::Quit);
    assert_eq!(viewer_step('a', Trend::Avg), ViewerStep::Show(Trend::Min));
    assert_eq!(viewer_step('m', Trend::Max), ViewerStep::Show(Trend::Avg));
    assert_eq!(viewer_step('i', Trend::Avg), ViewerStep::Show(Trend::Max));
    assert_eq!(viewer_step('x', Trend::Min), ViewerStep::Show(Trend::Min));
}
