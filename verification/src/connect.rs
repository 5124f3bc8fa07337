//! The settings of the two client-server tools: the bandwidth test and the
//! text messenger.

use vstd::prelude::*;
use crate::options::same_text;

verus! {

/// A tool that runs as a server or as the client of one.
pub trait ConnectTool {
    /// The name of the tool.
    spec fn name_view(&self) -> Seq<char>;

    /// The address to listen on as a server, or to connect to as a client.
    spec fn addr_view(&self) -> Seq<char>;

    /// The name of the tool.
    fn name(&self) -> (name: &'static str)
        ensures
            name@ == self.name_view(),
    ;

    /// The address to listen on as a server, or to connect to as a client.
    fn srv_addr(&self) -> (addr: &str)
        ensures
            addr@ == self.addr_view(),
    ;
}

/// The line that ends an upload: `UPLOAD_DONE` and a line feed.
pub open spec fn upload_done_marker() -> Seq<u8> {
    seq![85u8, 80, 76, 79, 65, 68, 95, 68, 79, 78, 69, 10]
}

/// Whether the marker that ends an upload stands somewhere in `received`.
pub open spec fn holds_upload_done(received: Seq<u8>) -> bool {
    exists|at: int|
        0 <= at <= received.len() - 12 && #[trigger] received.subrange(at, at + 12)
            == upload_done_marker()
}

/// Whether the marker stands in `received` at `at`, as far as its first
/// `upto` bytes go.
pub open spec fn marker_prefix_at(received: Seq<u8>, at: int, upto: int) -> bool {
    forall|k: int| 0 <= k < upto ==> #[trigger] received[at + k] == upload_done_marker()[k]
}

/// Looks for the marker that ends an upload in what was received.
pub fn has_upload_done(received: &[u8]) -> (found: bool)
    ensures
        found == holds_upload_done(received@),
{
    let marker: [u8; 12] = [85, 80, 76, 79, 65, 68, 95, 68, 79, 78, 69, 10];
    assert(marker@ =~= upload_done_marker());
    let len: usize = received.len();
    if len < 12 {
        return false;
    }
    let last: usize = len - 12;
    let mut at: usize = 0;
    while at <= last
        invariant
            len == received@.len(),
            last == len - 12,
            at <= last + 1,
            marker@ == upload_done_marker(),
            forall|j: int|
                0 <= j < at ==> #[trigger] received@.subrange(j, j + 12) != upload_done_marker(),
        decreases last + 1 - at,
    {
        let mut k: usize = 0;
        while k < 12 && received[at + k] == marker[k]
            invariant
                k <= 12,
                at + 12 <= received@.len(),
                received@.len() == len,
                marker@ == upload_done_marker(),
                marker_prefix_at(received@, at as int, k as int),
            decreases 12 - k,
        {
            k = k + 1;
        }
        if k == 12 {
            assert forall|j: int| 0 <= j < 12 implies received@.subrange(at as int, at + 12)[j]
                == upload_done_marker()[j] by {
                assert(received@[at + j] == upload_done_marker()[j]);
            }
            assert(received@.subrange(at as int, at + 12) =~= upload_done_marker());
            return true;
        }
        assert(received@.subrange(at as int, at + 12)[k as int] != upload_done_marker()[k as int]);
        at = at + 1;
    }
    false
}

/// The most that a megabit-per-second limit may be for its byte limits to fit
/// 64 bits.
pub const MAX_MBPS: u64 = 0xFFF_FFFF_FFFF;

/// The bytes per second that a server lets through at `mbps` binary megabits
/// per second.
pub open spec fn server_limit_of(mbps: u64) -> nat {
    (mbps as nat * 1024 * 1024) / 8
}

/// The bytes per second that a client sends at `mbps` megabits per second.
pub open spec fn client_limit_of(mbps: u64) -> nat {
    (mbps as nat * 1000000) / 8
}

/// The size of one chunk under a limit of `limit` bytes per second: 64 KiB,
/// or the limit where that is less.
pub open spec fn chunk_size_of(limit: u64) -> u64 {
    if limit < 65536 {
        limit
    } else {
        65536
    }
}

/// Gives the size of one chunk under a limit of `limit` bytes per second.
pub fn chunk_size(limit: u64) -> (size: u64)
    ensures
        size == chunk_size_of(limit),
{
    if limit < 65536 {
        limit
    } else {
        65536
    }
}

/// Whether a bandwidth test in `mode` uploads.
pub open spec fn mode_uploads(mode: Seq<char>) -> bool {
    mode == "full"@ || mode == "upload"@
}

/// Whether a bandwidth test in `mode` downloads.
pub open spec fn mode_downloads(mode: Seq<char>) -> bool {
    mode == "full"@ || mode == "download"@
}

/// The settings of a bandwidth test.
pub struct SpeedTest {
    srv_addr: String,
    srv_port: u16,
    is_srv: bool,
    tst_duration: u64,
    mbps: u64,
    mode: String,
}

impl SpeedTest {
    /// The port to listen on as a server, or to connect to as a client.
    pub closed spec fn port_view(&self) -> u16 {
        self.srv_port
    }

    /// Whether the tool runs as the server.
    pub closed spec fn server_view(&self) -> bool {
        self.is_srv
    }

    /// The length of the test, in seconds.
    pub closed spec fn duration_view(&self) -> u64 {
        self.tst_duration
    }

    /// The bandwidth limit, in megabits per second.
    pub closed spec fn mbps_view(&self) -> u64 {
        self.mbps
    }

    /// The mode: upload and download, upload only, or download only.
    pub closed spec fn mode_view(&self) -> Seq<char> {
        self.mode@
    }

    /// Whether the settings are exactly the given ones.
    pub open spec fn holds(
        &self,
        srv_addr: Seq<char>,
        srv_port: u16,
        mode: Seq<char>,
        is_srv: bool,
        tst_duration: u64,
        mbps: u64,
    ) -> bool {
        &&& self.addr_view() == srv_addr
        &&& self.port_view() == srv_port
        &&& self.mode_view() == mode
        &&& self.server_view() == is_srv
        &&& self.duration_view() == tst_duration
        &&& self.mbps_view() == mbps
    }

    /// A bandwidth test with the given settings.
    pub fn new(
        srv_addr: &str,
        srv_port: u16,
        mode: &str,
        is_srv: bool,
        tst_duration: u64,
        mbps: u64,
    ) -> (tool: Self)
        ensures
            tool.holds(srv_addr@, srv_port, mode@, is_srv, tst_duration, mbps),
    {
        Self {
            srv_addr: srv_addr.to_owned(),
            srv_port,
            is_srv,
            tst_duration,
            mbps,
            mode: mode.to_owned(),
        }
    }

    /// Replaces all settings.
    pub fn setting(
        &mut self,
        srv_addr: &str,
        srv_port: u16,
        mode: &str,
        is_srv: bool,
        tst_duration: u64,
        mbps: u64,
    )
        ensures
            final(self).holds(srv_addr@, srv_port, mode@, is_srv, tst_duration, mbps),
    {
        self.srv_addr = srv_addr.to_owned();
        self.srv_port = srv_port;
        self.mode = mode.to_owned();
        self.is_srv = is_srv;
        self.tst_duration = tst_duration;
        self.mbps = mbps;
    }

    /// The port to listen on as a server, or to connect to as a client.
    pub fn srv_port(&self) -> (port: u16)
        ensures
            port == self.port_view(),
    {
        self.srv_port
    }

    /// Whether the tool runs as the server.
    pub fn is_srv(&self) -> (server: bool)
        ensures
            server == self.server_view(),
    {
        self.is_srv
    }

    /// The length of the test, in seconds.
    pub fn tst_duration(&self) -> (seconds: u64)
        ensures
            seconds == self.duration_view(),
    {
        self.tst_duration
    }

    /// The bandwidth limit, in megabits per second.
    pub fn mbps(&self) -> (mbps: u64)
        ensures
            mbps == self.mbps_view(),
    {
        self.mbps
    }

    /// The mode: upload and download, upload only, or download only.
    pub fn mode(&self) -> (mode: &str)
        ensures
            mode@ == self.mode_view(),
    {
        self.mode.as_str()
    }

    /// Whether the test has an upload phase.
    pub fn uploads(&self) -> (yes: bool)
        ensures
            yes == mode_uploads(self.mode_view()),
    {
        same_text(self.mode.as_str(), "full") || same_text(self.mode.as_str(), "upload")
    }

    /// Whether the test has a download phase.
    pub fn downloads(&self) -> (yes: bool)
        ensures
            yes == mode_downloads(self.mode_view()),
    {
        same_text(self.mode.as_str(), "full") || same_text(self.mode.as_str(), "download")
    }

    /// The bytes per second that the server lets through.
    pub fn server_limit(&self) -> (limit: u64)
        requires
            self.mbps_view() <= MAX_MBPS,
        ensures
            limit == server_limit_of(self.mbps_view()),
    {
        self.mbps * 1024 * 1024 / 8
    }

    /// The bytes per second that the client sends.
    pub fn client_limit(&self) -> (limit: u64)
        requires
            self.mbps_view() <= MAX_MBPS,
        ensures
            limit == client_limit_of(self.mbps_view()),
    {
        self.mbps * 1000000 / 8
    }
}

impl ConnectTool for SpeedTest {
    open spec fn name_view(&self) -> Seq<char> {
        "SpeedTest"@
    }

    closed spec fn addr_view(&self) -> Seq<char> {
        self.srv_addr@
    }

    fn name(&self) -> (name: &'static str) {
        "SpeedTest"
    }

    fn srv_addr(&self) -> (addr: &str) {
        self.srv_addr.as_str()
    }
}

/// The settings of the text messenger.
pub struct TCPMessage {
    srv_addr: String,
    srv_port: u16,
    is_srv: bool,
}

impl TCPMessage {
    /// The port to listen on as a server, or to connect to as a client.
    pub closed spec fn port_view(&self) -> u16 {
        self.srv_port
    }

    /// Whether the tool runs as the server.
    pub closed spec fn server_view(&self) -> bool {
        self.is_srv
    }

    /// A messenger with the given settings.
    pub fn new(srv_addr: String, srv_port: u16, is_srv: bool) -> (tool: Self)
        ensures
            tool.addr_view() == srv_addr@,
            tool.port_view() == srv_port,
            tool.server_view() == is_srv,
    {
        Self { srv_addr, srv_port, is_srv }
    }

    /// The port to listen on as a server, or to connect to as a client.
    pub fn srv_port(&self) -> (port: u16)
        ensures
            port == self.port_view(),
    {
        self.srv_port
    }

    /// Whether the tool runs as the server.
    pub fn is_srv(&self) -> (server: bool)
        ensures
            server == self.server_view(),
    {
        self.is_srv
    }
}

impl ConnectTool for TCPMessage {
    open spec fn name_view(&self) -> Seq<char> {
        "TCPMessage"@
    }

    closed spec fn addr_view(&self) -> Seq<char> {
        self.srv_addr@
    }

    fn name(&self) -> (name: &'static str) {
        "TCPMessage"
    }

    fn srv_addr(&self) -> (addr: &str) {
        self.srv_addr.as_str()
    }
}

} // verus!
