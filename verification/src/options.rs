//! The rules on what a command line may ask for: which tool is selected,
//! which options it needs, which it ignores, and what a target, a flag, a
//! mode and an export file name may look like.

use vstd::prelude::*;
use crate::flags::{flag_for_letter, flag_of_letter};

verus! {

/// The options of a command line, as plain values.
pub struct Options {
    pub dst: String,
    pub count: u16,
    pub output: String,
    pub port: u16,
    pub mode: String,
    pub server: bool,
    pub time: u64,
    pub bitrate: u64,
    pub flag: String,
    pub diagnostic: String,
    pub ping: bool,
    pub tping: bool,
    pub resolver: bool,
    pub sptest: bool,
    pub nc: bool,
    pub exporter: bool,
    pub ws_addr: String,
    pub ws_port: u16,
}

/// Why a command line is refused.
#[derive(Clone, Copy, Debug, PartialEq, Eq, Structural)]
pub enum OptionsError {
    /// No tool is selected and no diagnostic is asked for.
    NoTool,
    /// More than one tool is selected.
    SeveralTools,
    /// The exporter lacks its target, its port, its web server or its file.
    ExporterIncomplete,
    /// The TCP-flag probe lacks its port.
    TpingPortMissing,
    /// The bandwidth test lacks its port.
    SptestPortMissing,
    /// The messenger lacks its port.
    NcPortMissing,
}

/// An option that the selected tool does not use.
#[derive(Clone, Copy, Debug, PartialEq, Eq, Structural)]
pub enum Warning {
    PortIgnored,
    FlagIgnored,
    SpeedOptionsIgnored,
    ToolIgnored,
    ServerIgnored,
}

/// Whether two texts are equal.
pub fn same_text(a: &str, b: &str) -> (same: bool)
    ensures
        same == (a@ == b@),
{
    let left: String = a.to_owned();
    let right: String = b.to_owned();
    left == right
}

/// One if the switch is on, else zero.
pub open spec fn one_if(switch: bool) -> nat {
    if switch {
        1
    } else {
        0
    }
}

/// How many tools the options select.
pub open spec fn selected_count(options: Options) -> nat {
    one_if(options.exporter) + one_if(options.ping) + one_if(options.tping) + one_if(
        options.resolver,
    ) + one_if(options.sptest) + one_if(options.nc)
}

/// The name of the tool that the options select. Where several switches are
/// on it is the last of them, in the order exporter, ping, tping, resolver,
/// sptest, nc.
pub open spec fn selected_name(options: Options) -> Seq<char> {
    if options.nc {
        "nc"@
    } else if options.sptest {
        "sptest"@
    } else if options.resolver {
        "resolver"@
    } else if options.tping {
        "tping"@
    } else if options.ping {
        "ping"@
    } else {
        "exporter"@
    }
}

/// The tool to run: the one selected tool; the diagnostic where none is
/// selected and a diagnostic is asked for; an error where none or several are.
pub open spec fn tool_selection(options: Options) -> Result<Seq<char>, OptionsError> {
    if selected_count(options) == 0 {
        if options.diagnostic@ == "none"@ {
            Err(OptionsError::NoTool)
        } else {
            Ok("diagnostic"@)
        }
    } else if selected_count(options) > 1 {
        Err(OptionsError::SeveralTools)
    } else {
        Ok(selected_name(options))
    }
}

/// Gives the name of the tool to run, or says why none can run.
pub fn tool_is_selected(options: &Options) -> (selected: Result<String, OptionsError>)
    ensures
        match (selected, tool_selection(*options)) {
            (Ok(name), Ok(expected)) => name@ == expected,
            (Err(error), Err(expected)) => error == expected,
            _ => false,
        },
{
    let mut is_selected: u8 = 0;
    let mut selected_tool: &'static str = "exporter";
    if options.exporter {
        is_selected += 1;
    }
    if options.ping {
        is_selected += 1;
        selected_tool = "ping";
    }
    if options.tping {
        is_selected += 1;
        selected_tool = "tping";
    }
    if options.resolver {
        is_selected += 1;
        selected_tool = "resolver";
    }
    if options.sptest {
        is_selected += 1;
        selected_tool = "sptest";
    }
    if options.nc {
        is_selected += 1;
        selected_tool = "nc";
    }
    if is_selected == 0 {
        if same_text(options.diagnostic.as_str(), "none") {
            Err(OptionsError::NoTool)
        } else {
            Ok("diagnostic".to_owned())
        }
    } else if is_selected > 1 {
        Err(OptionsError::SeveralTools)
    } else {
        Ok(selected_tool.to_owned())
    }
}

/// Whether the exporter has all it needs: a target, a port, and a web server
/// with its port and a file of its own.
pub open spec fn exporter_complete(options: Options) -> bool {
    &&& options.port != 0
    &&& options.dst@ != "none"@
    &&& options.ws_addr@ != "none"@
    &&& options.output@ != "output.csv"@
    &&& options.ws_port != 0
}

/// What the selected tool lacks, if anything.
pub open spec fn options_verdict(selected_tool: Seq<char>, options: Options) -> Result<
    (),
    OptionsError,
> {
    if options.exporter && !exporter_complete(options) {
        Err(OptionsError::ExporterIncomplete)
    } else if (selected_tool == "tping"@ || (selected_tool == "diagnostic"@ && options.dst@
        != "none"@)) && options.port == 0 {
        Err(OptionsError::TpingPortMissing)
    } else if selected_tool == "sptest"@ && options.port == 0 {
        Err(OptionsError::SptestPortMissing)
    } else if selected_tool == "nc"@ && options.port == 0 {
        Err(OptionsError::NcPortMissing)
    } else {
        Ok(())
    }
}

/// Checks that the options hold what the selected tool needs.
pub fn correct_options(selected_tool: &String, options: &Options) -> (verdict: Result<
    (),
    OptionsError,
>)
    ensures
        verdict == options_verdict(selected_tool@, *options),
{
    let tool: &str = selected_tool.as_str();
    let no_target: bool = same_text(options.dst.as_str(), "none");
    if options.exporter && (options.port == 0 || no_target || same_text(
        options.ws_addr.as_str(),
        "none",
    ) || same_text(options.output.as_str(), "output.csv") || options.ws_port == 0) {
        return Err(OptionsError::ExporterIncomplete);
    }
    if (same_text(tool, "tping") || (same_text(tool, "diagnostic") && !no_target)) && options.port
        == 0 {
        return Err(OptionsError::TpingPortMissing);
    }
    if same_text(tool, "sptest") && options.port == 0 {
        return Err(OptionsError::SptestPortMissing);
    }
    if same_text(tool, "nc") && options.port == 0 {
        return Err(OptionsError::NcPortMissing);
    }
    Ok(())
}

/// The warning alone if it applies, else nothing.
pub open spec fn warning_if(applies: bool, warning: Warning) -> Seq<Warning> {
    if applies {
        seq![warning]
    } else {
        Seq::empty()
    }
}

/// The options that are set and that the selected tool does not use.
pub open spec fn ignored_options(selected_tool: Seq<char>, options: Options) -> Seq<Warning> {
    warning_if(
        (selected_tool == "ping"@ || selected_tool == "resolver"@) && options.port != 0,
        Warning::PortIgnored,
    ) + warning_if(
        selected_tool != "tping"@ && options.flag@ != "none"@,
        Warning::FlagIgnored,
    ) + warning_if(
        selected_tool != "sptest"@ && (options.mode@ != "full"@ || options.time != 30
            || options.bitrate != 50000),
        Warning::SpeedOptionsIgnored,
    ) + warning_if(
        selected_tool == "diagnostic"@ && (options.ping || options.resolver || options.tping
            || options.sptest || options.nc),
        Warning::ToolIgnored,
    ) + warning_if(
        selected_tool != "sptest"@ && selected_tool != "nc"@ && options.server,
        Warning::ServerIgnored,
    )
}

/// Lists the options that are set and that the selected tool does not use.
pub fn useless_options(selected_tool: &String, options: &Options) -> (warnings: Vec<Warning>)
    ensures
        warnings@ == ignored_options(selected_tool@, *options),
{
    let tool: &str = selected_tool.as_str();
    let mut warnings: Vec<Warning> = Vec::new();
    let sptest: bool = same_text(tool, "sptest");
    if (same_text(tool, "ping") || same_text(tool, "resolver")) && options.port != 0 {
        warnings.push(Warning::PortIgnored);
    }
    if !same_text(tool, "tping") && !same_text(options.flag.as_str(), "none") {
        warnings.push(Warning::FlagIgnored);
    }
    if !sptest && (!same_text(options.mode.as_str(), "full") || options.time != 30
        || options.bitrate != 50000) {
        warnings.push(Warning::SpeedOptionsIgnored);
    }
    if same_text(tool, "diagnostic") && (options.ping || options.resolver || options.tping
        || options.sptest || options.nc) {
        warnings.push(Warning::ToolIgnored);
    }
    if !sptest && !same_text(tool, "nc") && options.server {
        warnings.push(Warning::ServerIgnored);
    }
    assert(warnings@ =~= ignored_options(selected_tool@, *options));
    warnings
}

/// Whether a character may stand in a label of a host name: an ASCII letter,
/// an ASCII digit or a hyphen.
pub open spec fn label_char(c: char) -> bool {
    ('a' <= c && c <= 'z') || ('A' <= c && c <= 'Z') || ('0' <= c && c <= '9') || c == '-'
}

/// How many characters of the label that is open at position `i` lie before
/// `i`.
pub open spec fn label_run(text: Seq<char>, i: int) -> nat
    decreases i,
{
    if i <= 0 {
        0
    } else if text[i - 1] == '.' {
        0
    } else {
        label_run(text, i - 1) + 1
    }
}

/// Whether a text is a host name: 1 to 253 characters, made of labels
/// separated by dots, each label 1 to 63 letters, digits and hyphens, with no
/// hyphen at either end.
pub open spec fn hostname_ok(text: Seq<char>) -> bool {
    &&& 1 <= text.len() <= 253
    &&& forall|i: int| 0 <= i < text.len() ==> label_char(#[trigger] text[i]) || text[i] == '.'
    &&& forall|i: int| 0 <= i <= text.len() ==> #[trigger] label_run(text, i) <= 63
    &&& text[0] != '.' && text[0] != '-'
    &&& text.last() != '.' && text.last() != '-'
    &&& forall|i: int|
        0 < i < text.len() ==> !(text[i - 1] == '.' && (#[trigger] text[i] == '.' || text[i]
            == '-')) && !(text[i - 1] == '-' && text[i] == '.')
}

/// Whether a text names a target: it is not the word `none`, and it is an IP
/// address or a host name.
pub open spec fn target_ok(addr: Seq<char>, is_ip_literal: bool) -> bool {
    addr != "none"@ && (is_ip_literal || hostname_ok(addr))
}

/// Checks whether a text is a host name.
pub fn is_hostname(text: &str) -> (ok: bool)
    ensures
        ok == hostname_ok(text@),
{
    let len: usize = text.unicode_len();
    if len == 0 || len > 253 {
        return false;
    }
    let mut run: usize = 0;
    let mut previous: char = '.';
    let mut i: usize = 0;
    while i < len
        invariant
            len == text@.len(),
            1 <= len <= 253,
            i <= len,
            run == label_run(text@, i as int),
            run <= 63,
            i > 0 ==> previous == text@[i - 1],
            i == 0 ==> previous == '.',
            forall|k: int| 0 <= k < i ==> label_char(#[trigger] text@[k]) || text@[k] == '.',
            forall|k: int| 0 <= k <= i ==> #[trigger] label_run(text@, k) <= 63,
            i > 0 ==> text@[0] != '.' && text@[0] != '-',
            forall|k: int|
                0 < k < i ==> !(text@[k - 1] == '.' && (#[trigger] text@[k] == '.' || text@[k]
                    == '-')) && !(text@[k - 1] == '-' && text@[k] == '.'),
        decreases len - i,
    {
        let c: char = text.get_char(i);
        let letter: bool = ('a' <= c && c <= 'z') || ('A' <= c && c <= 'Z') || ('0' <= c && c
            <= '9') || c == '-';
        if !letter && c != '.' {
            assert(!(label_char(text@[i as int]) || text@[i as int] == '.'));
            return false;
        }
        if previous == '.' && (c == '.' || c == '-') {
            assert(i > 0 ==> text@[i - 1] == '.' && (text@[i as int] == '.' || text@[i as int]
                == '-'));
            return false;
        }
        if previous == '-' && c == '.' {
            assert(text@[i - 1] == '-' && text@[i as int] == '.');
            return false;
        }
        if c == '.' {
            run = 0;
        } else {
            if run == 63 {
                assert(label_run(text@, i + 1) == 64);
                return false;
            }
            run = run + 1;
        }
        previous = c;
        i = i + 1;
    }
    if previous == '.' || previous == '-' {
        return false;
    }
    true
}

/// Checks whether a text names a target. Whether it reads as an IP address is
/// for the caller to find out.
pub fn addr_check(addr: &String, is_ip_literal: bool) -> (ok: bool)
    ensures
        ok == target_ok(addr@, is_ip_literal),
{
    if same_text(addr.as_str(), "none") {
        false
    } else if is_ip_literal {
        true
    } else {
        is_hostname(addr.as_str())
    }
}

/// Checks whether a text is one of the six flag letters, in capitals.
pub fn flag_check(flag: &String) -> (ok: bool)
    ensures
        ok == (flag_of_letter(flag@) is Some),
{
    flag_for_letter(flag.as_str()).is_some()
}

/// Whether a text is a mode of the bandwidth test.
pub open spec fn mode_ok(mode: Seq<char>) -> bool {
    mode == "full"@ || mode == "upload"@ || mode == "download"@
}

/// Checks whether a text is a mode of the bandwidth test.
pub fn mode_check(mode: &String) -> (ok: bool)
    ensures
        ok == mode_ok(mode@),
{
    let text: &str = mode.as_str();
    same_text(text, "full") || same_text(text, "upload") || same_text(text, "download")
}

/// What a search for a pattern in a text finds: whether the text holds a
/// match, or nothing where the pattern is no regular expression.
pub uninterp spec fn regex_search(pattern: Seq<char>, text: Seq<char>) -> Option<bool>;

/// Searches `text` for a match of `pattern`.
///
/// Compiles the pattern with `regex::Regex::new` and asks `Regex::is_match`
/// whether the text holds a match anywhere. The contract gives the outcome a
/// name and claims nothing else of it.
#[verifier::external_body]
fn search(pattern: &str, text: &str) -> (found: Option<bool>)
    ensures
        found == regex_search(pattern@, text@),
{
    match regex::Regex::new(pattern) {
        Ok(compiled) => Some(compiled.is_match(text)),
        Err(_) => None,
    }
}

/// The characters that an export file name may not hold, as a pattern.
pub open spec fn unwanted_pattern() -> Seq<char> {
    "[=:*?\"',;!{}\\[\\]()'<>|]+"@
}

/// Whether a file name passes, given what the search for unwanted characters
/// found: it passes only where the search ran and found none.
pub open spec fn name_passes(found: Option<bool>) -> bool {
    found == Some(false)
}

/// Judges a file name by what the search for unwanted characters found.
pub fn output_verdict(found: Option<bool>) -> (ok: bool)
    ensures
        ok == name_passes(found),
{
    match found {
        Some(matched) => !matched,
        None => false,
    }
}

/// Checks that the name of the export file holds none of the unwanted
/// characters.
pub fn output_check(output: &String) -> (ok: bool)
    ensures
        ok == name_passes(regex_search(unwanted_pattern(), output@)),
{
    output_verdict(search("[=:*?\"',;!{}\\[\\]()'<>|]+", output.as_str()))
}

} // verus!
