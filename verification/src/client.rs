use vstd::prelude::*;
use vstd::string::*;

use crate::transport::{
    default_settings, maxed_out, maxrtt_fits, span_of_millis, set_cc, set_maxout, set_maxrtt, with_congestion_control,
    with_maxrtt, with_window, CongestionControl, TransportSettings,
};
use crate::transport::lemma_controller_names_distinct;
use crate::varint::varint_from_u32;

verus! {

/// The settings that the client's options give, applied in the order the
/// client applies them: maxed-out settings first, so that `maxrtt`, the
/// congestion controller and the window, when given, take precedence.
pub open spec fn client_settings(
    maxout: bool,
    maxrtt: Option<u64>,
    cc: Option<Seq<char>>,
    ccwin: Option<u64>,
    window: Option<u32>,
) -> TransportSettings {
    let s0 = default_settings();
    let s1 = if maxout { maxed_out(s0) } else { s0 };
    let s2 = match maxrtt {
        Some(m) => with_maxrtt(s1, m),
        None => s1,
    };
    let s3 = match cc {
        Some(name) => with_congestion_control(s2, name, ccwin),
        None => s2,
    };
    match window {
        Some(w) => with_window(s3, w),
        None => s3,
    }
}

/// The view of an optional string.
pub open spec fn opt_text(s: Option<String>) -> Option<Seq<char>> {
    match s {
        Some(t) => Some(t@),
        None => None,
    }
}

/// The client's transport settings from its options: `maxout` pushes most
/// parameters to their limits; `maxrtt` (milliseconds) sets the initial RTT and
/// the idle timeout; `cc` selects the congestion controller (started with
/// `ccwin` bytes); `window` sets both connection windows. Options after
/// `maxout` take precedence over it.
pub fn client_transport_settings(
    maxout: bool,
    maxrtt: Option<u64>,
    cc: Option<String>,
    ccwin: Option<u64>,
    window: Option<u32>,
) -> (settings: TransportSettings)
    requires
        maxrtt matches Some(m) ==> maxrtt_fits(m),
    ensures
        settings == client_settings(maxout, maxrtt, opt_text(cc), ccwin, window),
        settings.wf(),
        maxrtt matches Some(m) ==> {
            &&& settings.initial_rtt == Some(span_of_millis(m))
            &&& settings.max_idle_timeout_ms == Some(m)
        },
        window matches Some(w) ==> {
            &&& settings.receive_window == Some(w as u64)
            &&& settings.send_window == Some(w as u64)
        },
        cc is None ==> settings.max_bytes_per_second is None,
        !maxout && cc is None ==> settings.congestion == CongestionControl::Unset,
        ccwin is Some && opt_text(cc) == Some("bbr"@) ==> settings.congestion
            == (CongestionControl::Bbr { initial_window: ccwin->Some_0 }),
        opt_text(cc) == Some("bbr"@) && ccwin is None ==> settings.congestion
            == (CongestionControl::Bbr { initial_window: 100_000_000 }),
        ccwin is Some && opt_text(cc) == Some("cubic"@) ==> settings.congestion
            == (CongestionControl::Cubic { initial_window: ccwin->Some_0 }),
        opt_text(cc) == Some("cubic"@) && ccwin is None ==> settings.congestion
            == (CongestionControl::Cubic { initial_window: 100_000_000 }),
        opt_text(cc) == Some("noop"@) ==> settings.congestion == CongestionControl::Noop,
        opt_text(cc) == Some("rate-limit"@) ==> settings.congestion
            == CongestionControl::RateLimitBased,
        opt_text(cc) == Some("rate-limit"@) ==> settings.max_bytes_per_second == Some(
            3_125_000u64,
        ),
{
    proof {
        lemma_controller_names_distinct();
    }
    let mut settings = TransportSettings::new();
    if maxout {
        set_maxout(&mut settings);
    }
    if let Some(m) = maxrtt {
        set_maxrtt(&mut settings, m);
    }
    if let Some(name) = cc {
        set_cc(&mut settings, name, ccwin);
    }
    if let Some(w) = window {
        let receive = varint_from_u32(w);
        settings.receive_window = Some(receive);
        settings.send_window = Some(w as u64);
    }
    settings
}

/// The HTTP/0.9 request for `path`.
pub open spec fn request_text(path: Seq<char>) -> Seq<char> {
    "GET "@ + path + "\r\n"@
}

/// The request line the client sends: `GET <path>` and a CRLF.
pub fn request_line(path: &str) -> (request: String)
    ensures
        request@ == request_text(path@),
        request@ == seq!['G', 'E', 'T', ' '] + path@ + seq!['\r', '\n'],
        request@.len() == path@.len() + 6,
        request@.subrange(4, 4 + path@.len() as int) == path@,
{
    proof {
        reveal_strlit("GET ");
        reveal_strlit("\r\n");
        assert("GET "@ =~= seq!['G', 'E', 'T', ' ']);
        assert("\r\n"@ =~= seq!['\r', '\n']);
    }
    let mut request = String::from_str("GET ");
    request.append(path);
    request.append("\r\n");
    request
}

/// The ALPN protocol offered when none is asked for: `hq-29`.
pub open spec fn default_alpn() -> Seq<u8> {
    seq![104u8, 113u8, 45u8, 50u8, 57u8]
}

/// The ALPN protocols the client offers: the one asked for, or `hq-29`.
pub fn alpn_protocols(alpn: Option<Vec<u8>>) -> (protocols: Vec<Vec<u8>>)
    ensures
        protocols@.len() == 1,
        protocols@[0]@ == match alpn {
            Some(a) => a@,
            None => default_alpn(),
        },
{
    let protocol = match alpn {
        Some(a) => a,
        None => {
            let v = vec![104u8, 113u8, 45u8, 50u8, 57u8];
            assert(v@ =~= default_alpn());
            v
        },
    };
    let mut protocols: Vec<Vec<u8>> = Vec::new();
    protocols.push(protocol);
    protocols
}

/// The port the client connects to when the URL names none.
pub const DEFAULT_PORT: u16 = 4433;

/// The port to connect to: the URL's, or 4433.
pub fn remote_port(url_port: Option<u16>) -> (port: u16)
    ensures
        port == match url_port {
            Some(p) => p,
            None => DEFAULT_PORT,
        },
{
    match url_port {
        Some(p) => p,
        None => DEFAULT_PORT,
    }
}

/// How often a request is sent over the one connection, and how many seconds
/// apart.
#[derive(Clone, Copy, Debug, PartialEq, Eq)]
pub struct RepeatPlan {
    pub count: u32,
    pub interval_secs: u64,
}

impl RepeatPlan {
    /// Whether the client waits for the next tick after each request: only
    /// when there is more than one.
    pub fn pauses(&self) -> (pause: bool)
        ensures
            pause == (self.count > 1),
    {
        self.count > 1
    }
}

/// The repetitions asked for: one request and one second apart unless told
/// otherwise.
pub fn repeat_plan(repeat: Option<u32>, repeat_interval: Option<u64>) -> (plan: RepeatPlan)
    ensures
        plan.count == match repeat {
            Some(n) => n,
            None => 1u32,
        },
        plan.interval_secs == match repeat_interval {
            Some(s) => s,
            None => 1u64,
        },
{
    let count: u32 = match repeat {
        Some(n) => n,
        None => 1,
    };
    let interval_secs: u64 = match repeat_interval {
        Some(s) => s,
        None => 1,
    };
    RepeatPlan { count, interval_secs }
}

/// The client's congestion controller is the one that `cc` and `ccwin`
/// select, whatever the other options: the congestion window given is the one
/// BBR and CUBIC start with (100 MB when none is given), and neither maxing
/// out, the maximum RTT nor the flow-control window changes that.
pub proof fn lemma_client_controller_from_cc_alone(
    maxout: bool,
    maxrtt: Option<u64>,
    ccwin: Option<u64>,
    window: Option<u32>,
    w: u64,
)
    ensures
        client_settings(maxout, maxrtt, Some("bbr"@), Some(w), window).congestion
            == (CongestionControl::Bbr { initial_window: w }),
        client_settings(maxout, maxrtt, Some("cubic"@), Some(w), window).congestion
            == (CongestionControl::Cubic { initial_window: w }),
        client_settings(maxout, maxrtt, Some("bbr"@), None, window).congestion
            == (CongestionControl::Bbr { initial_window: 100_000_000 }),
        client_settings(maxout, maxrtt, Some("cubic"@), None, window).congestion
            == (CongestionControl::Cubic { initial_window: 100_000_000 }),
        client_settings(maxout, maxrtt, Some("rate-limit"@), ccwin, window).max_bytes_per_second
            == Some(3_125_000u64),
{
    lemma_controller_names_distinct();
}

/// The request carries the path verbatim, between `GET ` and the CRLF.
pub proof fn lemma_request_holds_path(path: Seq<char>)
    ensures
        request_text(path).len() == path.len() + 6,
        request_text(path).subrange(4, 4 + path.len() as int) == path,
        request_text(path) == seq!['G', 'E', 'T', ' '] + path + seq!['\r', '\n'],
{
    reveal_strlit("GET ");
    reveal_strlit("\r\n");
    assert("GET "@ =~= seq!['G', 'E', 'T', ' ']);
    assert("\r\n"@ =~= seq!['\r', '\n']);
    assert(request_text(path).subrange(4, 4 + path.len() as int) =~= path);
}

} // verus!
