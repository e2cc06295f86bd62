use vstd::prelude::*;

use crate::text::same_text;
use crate::varint::{varint_from_u64, varint_max, VARINT_MAX};

verus! {

/// A span of time as whole seconds and nanoseconds, the plain values of a
/// `std::time::Duration`.
#[derive(Clone, Copy, Debug, PartialEq, Eq)]
pub struct Span {
    pub secs: u64,
    pub nanos: u32,
}

impl Span {
    /// A valid span has fewer than a second's worth of nanoseconds.
    pub open spec fn wf(self) -> bool {
        self.nanos < 1_000_000_000
    }

    /// A span of whole seconds.
    pub fn from_secs(secs: u64) -> (span: Span)
        ensures
            span == (Span { secs, nanos: 0 }),
    {
        Span { secs, nanos: 0 }
    }

    /// The longest span, `Duration::MAX`.
    pub fn longest() -> (span: Span)
        ensures
            span == longest_span(),
    {
        Span { secs: u64::MAX, nanos: 999_999_999 }
    }
}

/// `Duration::MAX` as a span.
pub open spec fn longest_span() -> Span {
    Span { secs: u64::MAX, nanos: 999_999_999 }
}

/// Which congestion controller a connection is built with.
#[derive(Clone, Copy, Debug, PartialEq, Eq)]
pub enum CongestionControl {
    /// The controller that a default transport configuration comes with.
    Unset,
    /// BBR, started with the given congestion window in bytes.
    Bbr { initial_window: u64 },
    /// CUBIC, started with the given congestion window in bytes.
    Cubic { initial_window: u64 },
    /// A controller that never limits sending.
    Noop,
    /// A controller that leaves sending to the connection's rate limit.
    RateLimitBased,
}

/// Path MTU discovery settings: the discovery defaults with an upper bound and
/// an interval of their own.
#[derive(Clone, Copy, Debug, PartialEq, Eq)]
pub struct MtuDiscoverySettings {
    pub upper_bound: u16,
    pub interval: Span,
}

/// The transport parameters that this program sets on a QUIC transport
/// configuration. `None` leaves a parameter at its default.
#[derive(Clone, Copy, Debug, PartialEq, Eq)]
pub struct TransportSettings {
    /// Idle timeout, in milliseconds.
    pub max_idle_timeout_ms: Option<u64>,
    /// The round-trip time assumed before any is measured.
    pub initial_rtt: Option<Span>,
    /// Connection-wide receive window, in bytes.
    pub receive_window: Option<u64>,
    /// Connection-wide send window, in bytes.
    pub send_window: Option<u64>,
    /// Per-stream receive window, in bytes.
    pub stream_receive_window: Option<u64>,
    /// How many unidirectional streams the peer may open at once.
    pub max_concurrent_uni_streams: Option<u64>,
    /// Bytes of outgoing datagrams that may be buffered.
    pub datagram_send_buffer_size: Option<usize>,
    /// Bytes of incoming datagrams that may be buffered.
    pub datagram_receive_buffer_size: Option<usize>,
    /// Packet reordering, in packets, before a packet is declared lost.
    pub packet_threshold: Option<u32>,
    /// Reordering in time, as a whole multiple of the RTT, before a packet is
    /// declared lost.
    pub time_threshold: Option<u32>,
    /// When set, the ACK frequency extension is used with its defaults and
    /// this maximum ACK delay.
    pub ack_max_delay: Option<Span>,
    /// When set, path MTU discovery is configured this way.
    pub mtu_discovery: Option<MtuDiscoverySettings>,
    /// A cap on the sending rate, in bytes per second.
    pub max_bytes_per_second: Option<u64>,
    /// The congestion controller.
    pub congestion: CongestionControl,
}

/// The congestion window that `set_cc` starts a controller with when none is given.
pub const DEFAULT_CC_WINDOW: u64 = 100_000_000;

/// The sending rate used with the rate-limit based controller: 25 Mbit/s.
pub const RATE_LIMIT_BYTES_PER_SECOND: u64 = 3_125_000;

/// The upper bound that maxed-out settings give path MTU discovery, the initial MTU.
pub const MAXOUT_MTU_UPPER_BOUND: u16 = 1200;

/// Seconds between path MTU discovery probes in maxed-out settings.
pub const MAXOUT_MTU_INTERVAL_SECS: u64 = 1_000_000;

/// Initial RTT, in seconds, of maxed-out settings.
pub const MAXOUT_INITIAL_RTT_SECS: u64 = 100_000;

/// Time threshold of maxed-out settings: large, since the largest float
/// makes the connection fail at run time.
pub const MAXOUT_TIME_THRESHOLD: u32 = 100_000;

/// An optional value that fits in a QUIC variable-length integer when present.
pub open spec fn opt_varint(v: Option<u64>) -> bool {
    v matches Some(x) ==> x <= VARINT_MAX
}

/// An optional span that is valid when present.
pub open spec fn opt_span_wf(v: Option<Span>) -> bool {
    v matches Some(s) ==> s.wf()
}

impl TransportSettings {
    /// Every value that goes into a QUIC variable-length integer fits in one,
    /// and every span is valid.
    pub open spec fn wf(self) -> bool {
        &&& opt_varint(self.max_idle_timeout_ms)
        &&& opt_varint(self.receive_window)
        &&& opt_varint(self.stream_receive_window)
        &&& opt_varint(self.max_concurrent_uni_streams)
        &&& opt_span_wf(self.initial_rtt)
        &&& opt_span_wf(self.ack_max_delay)
        &&& (self.mtu_discovery matches Some(m) ==> m.interval.wf())
    }

    /// Settings that leave every parameter at its default.
    pub fn new() -> (settings: TransportSettings)
        ensures
            settings == default_settings(),
            settings.wf(),
    {
        TransportSettings {
            max_idle_timeout_ms: None,
            initial_rtt: None,
            receive_window: None,
            send_window: None,
            stream_receive_window: None,
            max_concurrent_uni_streams: None,
            datagram_send_buffer_size: None,
            datagram_receive_buffer_size: None,
            packet_threshold: None,
            time_threshold: None,
            ack_max_delay: None,
            mtu_discovery: None,
            max_bytes_per_second: None,
            congestion: CongestionControl::Unset,
        }
    }
}

/// The settings of a default transport configuration: nothing set.
pub open spec fn default_settings() -> TransportSettings {
    TransportSettings {
        max_idle_timeout_ms: None,
        initial_rtt: None,
        receive_window: None,
        send_window: None,
        stream_receive_window: None,
        max_concurrent_uni_streams: None,
        datagram_send_buffer_size: None,
        datagram_receive_buffer_size: None,
        packet_threshold: None,
        time_threshold: None,
        ack_max_delay: None,
        mtu_discovery: None,
        max_bytes_per_second: None,
        congestion: CongestionControl::Unset,
    }
}

/// `s` with most transport parameters pushed to their limits.
pub open spec fn maxed_out(s: TransportSettings) -> TransportSettings {
    TransportSettings {
        max_idle_timeout_ms: Some(VARINT_MAX),
        initial_rtt: Some(Span { secs: MAXOUT_INITIAL_RTT_SECS, nanos: 0 }),
        receive_window: Some(VARINT_MAX),
        datagram_send_buffer_size: Some(usize::MAX),
        send_window: Some(u64::MAX),
        datagram_receive_buffer_size: Some(usize::MAX),
        stream_receive_window: Some(VARINT_MAX),
        congestion: CongestionControl::Noop,
        ack_max_delay: Some(longest_span()),
        mtu_discovery: Some(
            MtuDiscoverySettings {
                upper_bound: MAXOUT_MTU_UPPER_BOUND,
                interval: Span { secs: MAXOUT_MTU_INTERVAL_SECS, nanos: 0 },
            },
        ),
        packet_threshold: Some(u32::MAX),
        time_threshold: Some(MAXOUT_TIME_THRESHOLD),
        ..s
    }
}

/// `ms` milliseconds as a span of seconds and nanoseconds.
pub open spec fn span_of_millis(ms: u64) -> Span {
    Span { secs: ms / 1000, nanos: ((ms % 1000) * 1_000_000) as u32 }
}

/// `s` tuned for a maximum round-trip time of `maxrtt` milliseconds: the idle
/// timeout and the initial RTT both come to `maxrtt` milliseconds.
pub open spec fn with_maxrtt(s: TransportSettings, maxrtt: u64) -> TransportSettings {
    TransportSettings {
        max_idle_timeout_ms: Some(maxrtt),
        initial_rtt: Some(span_of_millis(maxrtt)),
        ..s
    }
}

/// Whether `maxrtt` milliseconds fits in a QUIC variable-length integer, as
/// an idle timeout must.
pub open spec fn maxrtt_fits(maxrtt: u64) -> bool {
    maxrtt <= VARINT_MAX
}

/// The congestion window that `set_cc` uses.
pub open spec fn cc_window(ccwin: Option<u64>) -> u64 {
    match ccwin {
        Some(w) => w,
        None => DEFAULT_CC_WINDOW,
    }
}

/// `s` with the congestion controller that `name` selects; an unknown name
/// leaves `s` as it is.
pub open spec fn with_congestion_control(
    s: TransportSettings,
    name: Seq<char>,
    ccwin: Option<u64>,
) -> TransportSettings {
    if name == "bbr"@ {
        TransportSettings { congestion: CongestionControl::Bbr { initial_window: cc_window(ccwin) }, ..s }
    } else if name == "cubic"@ {
        TransportSettings { congestion: CongestionControl::Cubic { initial_window: cc_window(ccwin) }, ..s }
    } else if name == "noop"@ {
        TransportSettings { congestion: CongestionControl::Noop, ..s }
    } else if name == "rate-limit"@ {
        TransportSettings {
            max_bytes_per_second: Some(RATE_LIMIT_BYTES_PER_SECOND),
            congestion: CongestionControl::RateLimitBased,
            ..s
        }
    } else {
        s
    }
}

/// `s` with both flow-control windows of the connection set to `window` bytes.
pub open spec fn with_window(s: TransportSettings, window: u32) -> TransportSettings {
    TransportSettings { receive_window: Some(window as u64), send_window: Some(window as u64), ..s }
}

/// Pushes most transport parameters to their limits (for debugging and
/// testing): idle timeout, windows, buffers and loss thresholds to their
/// largest values, a no-op congestion controller, the longest ACK delay and
/// path MTU discovery held at the initial MTU.
pub fn set_maxout(transport_config: &mut TransportSettings)
    ensures
        *final(transport_config) == maxed_out(*old(transport_config)),
        old(transport_config).wf() ==> final(transport_config).wf(),
{
    let varint_limit = varint_max();
    transport_config.max_idle_timeout_ms = Some(varint_limit);
    transport_config.initial_rtt = Some(Span::from_secs(MAXOUT_INITIAL_RTT_SECS));
    transport_config.receive_window = Some(varint_limit);
    transport_config.datagram_send_buffer_size = Some(usize::MAX);
    transport_config.send_window = Some(u64::MAX);
    transport_config.datagram_receive_buffer_size = Some(usize::MAX);
    transport_config.stream_receive_window = Some(varint_limit);
    transport_config.congestion = CongestionControl::Noop;
    transport_config.ack_max_delay = Some(Span::longest());
    transport_config.mtu_discovery = Some(
        MtuDiscoverySettings {
            upper_bound: MAXOUT_MTU_UPPER_BOUND,
            interval: Span::from_secs(MAXOUT_MTU_INTERVAL_SECS),
        },
    );
    transport_config.packet_threshold = Some(u32::MAX);
    transport_config.time_threshold = Some(MAXOUT_TIME_THRESHOLD);
}

/// Tunes the settings for a maximum round-trip time of `maxrtt` milliseconds:
/// the idle timeout becomes `maxrtt` milliseconds and so does
/// the initial RTT.
pub fn set_maxrtt(transport_config: &mut TransportSettings, maxrtt: u64)
    requires
        maxrtt_fits(maxrtt),
    ensures
        *final(transport_config) == with_maxrtt(*old(transport_config), maxrtt),
        old(transport_config).wf() ==> final(transport_config).wf(),
{
    let timeout_ms = varint_from_u64(maxrtt);
    match timeout_ms {
        Ok(ms) => {
            transport_config.max_idle_timeout_ms = Some(ms);
        },
        Err(_) => {
            assert(false);
        },
    }
    let nanos: u64 = (maxrtt % 1000) * 1_000_000;
    transport_config.initial_rtt = Some(Span { secs: maxrtt / 1000, nanos: nanos as u32 });
}

/// Selects the congestion controller by name: `"bbr"` and `"cubic"` start
/// with `ccwin` bytes (100 MB when not given), `"noop"` never limits sending,
/// and `"rate-limit"` caps the sending rate at 25 Mbit/s and leaves the rest
/// to that cap. Any other name changes nothing.
pub fn set_cc(transport_config: &mut TransportSettings, cc: String, ccwin: Option<u64>)
    ensures
        *final(transport_config) == with_congestion_control(*old(transport_config), cc@, ccwin),
        old(transport_config).wf() ==> final(transport_config).wf(),
        ccwin is Some && cc@ == "bbr"@ ==> final(transport_config).congestion
            == (CongestionControl::Bbr { initial_window: ccwin->Some_0 }),
        cc@ == "bbr"@ && ccwin is None ==> final(transport_config).congestion
            == (CongestionControl::Bbr { initial_window: 100_000_000 }),
        ccwin is Some && cc@ == "cubic"@ ==> final(transport_config).congestion
            == (CongestionControl::Cubic { initial_window: ccwin->Some_0 }),
        cc@ == "cubic"@ && ccwin is None ==> final(transport_config).congestion
            == (CongestionControl::Cubic { initial_window: 100_000_000 }),
        cc@ == "noop"@ ==> final(transport_config).congestion == CongestionControl::Noop,
        cc@ == "rate-limit"@ ==> final(transport_config).congestion
            == CongestionControl::RateLimitBased,
        cc@ == "rate-limit"@ ==> final(transport_config).max_bytes_per_second == Some(
            3_125_000u64,
        ),
        cc@ != "rate-limit"@ ==> final(transport_config).max_bytes_per_second
            == old(transport_config).max_bytes_per_second,
{
    proof {
        lemma_controller_names_distinct();
    }
    let window: u64 = match ccwin {
        Some(w) => w,
        None => DEFAULT_CC_WINDOW,
    };
    let name = cc.as_str();
    if same_text(name, "bbr") {
        transport_config.congestion = CongestionControl::Bbr { initial_window: window };
    } else if same_text(name, "cubic") {
        transport_config.congestion = CongestionControl::Cubic { initial_window: window };
    } else if same_text(name, "noop") {
        transport_config.congestion = CongestionControl::Noop;
    } else if same_text(name, "rate-limit") {
        transport_config.max_bytes_per_second = Some(RATE_LIMIT_BYTES_PER_SECOND);
        transport_config.congestion = CongestionControl::RateLimitBased;
    }
}


/// The settings a server starts from: defaults, except that the peer may not
/// open unidirectional streams.
pub open spec fn server_settings() -> TransportSettings {
    TransportSettings { max_concurrent_uni_streams: Some(0), ..default_settings() }
}

/// The transport settings of the server: defaults with no unidirectional
/// streams for the peer.
pub fn server_transport_settings() -> (settings: TransportSettings)
    ensures
        settings == server_settings(),
        settings.wf(),
{
    let mut settings = TransportSettings::new();
    settings.max_concurrent_uni_streams = Some(crate::varint::varint_from_u32(0));
    settings
}


/// Tuning for a maximum RTT keeps the idle timeout and the initial RTT in
/// step: both are `maxrtt` milliseconds, the timeout counted in milliseconds
/// and the initial RTT as a valid span of whole milliseconds.
pub proof fn lemma_maxrtt_timeout_matches_rtt(s: TransportSettings, maxrtt: u64)
    requires
        maxrtt_fits(maxrtt),
    ensures
        with_maxrtt(s, maxrtt).initial_rtt matches Some(rtt) && rtt.wf()
            && with_maxrtt(s, maxrtt).max_idle_timeout_ms == Some(
            (rtt.secs * 1000 + rtt.nanos / 1_000_000) as u64,
        ) && rtt.nanos % 1_000_000 == 0,
        with_maxrtt(s, maxrtt).max_idle_timeout_ms == Some(maxrtt),
        s.wf() ==> with_maxrtt(s, maxrtt).wf(),
{
}

/// Tuning for a maximum RTT twice is the same as tuning for the second one.
pub proof fn lemma_maxrtt_last_wins(s: TransportSettings, first: u64, second: u64)
    ensures
        with_maxrtt(with_maxrtt(s, first), second) == with_maxrtt(s, second),
{
}

/// Maxing out settings that are already maxed out changes nothing.
pub proof fn lemma_maxout_idempotent(s: TransportSettings)
    ensures
        maxed_out(maxed_out(s)) == maxed_out(s),
{
}

/// A maximum RTT given after maxing out takes precedence over the maxed-out
/// idle timeout and initial RTT, and leaves the other maxed-out values alone.
pub proof fn lemma_maxrtt_overrides_maxout(s: TransportSettings, maxrtt: u64)
    ensures
        with_maxrtt(maxed_out(s), maxrtt).initial_rtt == Some(span_of_millis(maxrtt)),
        with_maxrtt(maxed_out(s), maxrtt).max_idle_timeout_ms == Some(maxrtt),
        with_maxrtt(maxed_out(s), maxrtt) == (TransportSettings {
            max_idle_timeout_ms: Some(maxrtt),
            initial_rtt: Some(span_of_millis(maxrtt)),
            ..maxed_out(s)
        }),
{
}

/// Selecting a congestion controller changes only the controller and, for
/// the rate-limit based one, the rate cap; a name that selects nothing
/// changes nothing.
pub proof fn lemma_cc_changes_only_controller(s: TransportSettings, name: Seq<char>, ccwin: Option<u64>)
    ensures
        with_congestion_control(s, name, ccwin) == (TransportSettings {
            congestion: with_congestion_control(s, name, ccwin).congestion,
            max_bytes_per_second: with_congestion_control(s, name, ccwin).max_bytes_per_second,
            ..s
        }),
        name != "bbr"@ && name != "cubic"@ && name != "noop"@ && name != "rate-limit"@
            ==> with_congestion_control(s, name, ccwin) == s,
        name != "rate-limit"@ ==> with_congestion_control(s, name, ccwin).max_bytes_per_second
            == s.max_bytes_per_second,
{
}

/// Selecting the same controller twice is the same as selecting it once.
pub proof fn lemma_cc_idempotent(s: TransportSettings, name: Seq<char>, ccwin: Option<u64>)
    ensures
        with_congestion_control(with_congestion_control(s, name, ccwin), name, ccwin)
            == with_congestion_control(s, name, ccwin),
{
}

} // verus!

verus! {

/// The four controller names are different from one another (they differ in
/// length).
pub proof fn lemma_controller_names_distinct()
    ensures
        "bbr"@ != "cubic"@,
        "bbr"@ != "noop"@,
        "bbr"@ != "rate-limit"@,
        "cubic"@ != "noop"@,
        "cubic"@ != "rate-limit"@,
        "noop"@ != "rate-limit"@,
{
    reveal_strlit("bbr");
    reveal_strlit("cubic");
    reveal_strlit("noop");
    reveal_strlit("rate-limit");
    assert("bbr"@.len() == 3);
    assert("cubic"@.len() == 5);
    assert("noop"@.len() == 4);
    assert("rate-limit"@.len() == 10);
}

/// The congestion window given with BBR or CUBIC is the window the
/// controller starts with, whatever its size; without one it starts with
/// 100 MB.
pub proof fn lemma_cc_window_is_the_given_window(s: TransportSettings, w: u64)
    ensures
        with_congestion_control(s, "bbr"@, Some(w)).congestion
            == (CongestionControl::Bbr { initial_window: w }),
        with_congestion_control(s, "cubic"@, Some(w)).congestion
            == (CongestionControl::Cubic { initial_window: w }),
        with_congestion_control(s, "bbr"@, None).congestion
            == (CongestionControl::Bbr { initial_window: 100_000_000 }),
        with_congestion_control(s, "cubic"@, None).congestion
            == (CongestionControl::Cubic { initial_window: 100_000_000 }),
{
    lemma_controller_names_distinct();
}

/// The rate-limit based controller always caps the rate at 25 Mbit/s
/// (3 125 000 bytes per second): the congestion window given has no bearing
/// on it, nor on anything else.
pub proof fn lemma_rate_limit_ignores_window(s: TransportSettings, a: Option<u64>, b: Option<u64>)
    ensures
        with_congestion_control(s, "rate-limit"@, a).max_bytes_per_second == Some(3_125_000u64),
        with_congestion_control(s, "rate-limit"@, a).congestion == CongestionControl::RateLimitBased,
        with_congestion_control(s, "rate-limit"@, a) == with_congestion_control(s, "rate-limit"@, b),
{
    lemma_controller_names_distinct();
}

} // verus!
