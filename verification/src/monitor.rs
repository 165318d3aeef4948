//! The decisions of the monitoring loop: which checks run in a cycle, how
//! a check's outcome is reported, and what is pushed to Uptime Kuma.
use vstd::prelude::*;

use crate::config::{CheckType, Config, DeviceConfig, DeviceView};
use crate::text::{
    chars_of, decimal, decimal_chars, push_chars, push_str, string_from_chars, trim, trim_chars,
};

verus! {

/// How long a device check may take, in milliseconds.
pub const DEVICE_TIMEOUT_MS: u64 = 2000;

/// How long the agent's own connectivity probe may take, in milliseconds.
pub const HEARTBEAT_TIMEOUT_MS: u32 = 2000;

/// The port a TCP check uses when the device names none (raw printing).
pub const DEFAULT_TCP_PORT: u16 = 9100;

/// The shortest pause between two monitoring cycles, in seconds.
pub const MIN_INTERVAL_SEC: u64 = 5;

/// The address that the agent pings to learn whether it is online itself.
pub fn heartbeat_probe_target() -> (s: &'static str)
    ensures
        s@ == "1.1.1.1"@,
{
    "1.1.1.1"
}

/// The low 32 bits of `n`.
pub open spec fn low_32_bits(n: u64) -> u32 {
    n as u32
}

/// The low 32 bits of `n`.
pub fn truncate_to_32_bits(n: u64) -> (r: u32)
    ensures
        r == low_32_bits(n),
{
    n as u32
}

/// `n` as a natural number.
pub open spec fn u32_nat(n: u32) -> nat {
    n as nat
}

/// `n` widened to 128 bits.
pub fn widen_u32(n: u32) -> (r: u128)
    ensures
        r == n,
{
    n as u128
}

/// A result is consistent when an online result reports a latency of at
/// least one millisecond and an offline one reports zero.
pub open spec fn is_consistent_result(online: bool, latency_ms: u128) -> bool {
    if online {
        latency_ms >= 1
    } else {
        latency_ms == 0
    }
}

/// What checking a device comes down to.
#[derive(Debug)]
pub enum CheckPlan {
    /// Nothing to check: the result is already known.
    Done { online: bool, latency_ms: u128, message: String },
    /// An ICMP echo request to `target`.
    Icmp { target: String, timeout_ms: u32 },
    /// A TCP connection to `target` on `port`.
    Tcp { target: String, port: u16, timeout: u64 },
}

/// What checking `target` with `check_type` comes down to: a blank target
/// is offline at once; an ICMP check takes the timeout truncated to 32
/// bits; a TCP check without a port uses port 9100.
pub fn plan_check(target: &str, check_type: CheckType, port: Option<u16>, timeout_ms: u64) -> (p:
    CheckPlan)
    ensures
        trim(target@).len() == 0 ==> (p matches CheckPlan::Done { online, latency_ms, message }
            && !online && latency_ms == 0 && is_consistent_result(online, latency_ms) && message@
            == "Target address is empty"@),
        trim(target@).len() > 0 && check_type == CheckType::Icmp ==> (p matches CheckPlan::Icmp {
            target: t,
            timeout_ms: ms,
        } && t@ == target@ && ms == low_32_bits(timeout_ms)),
        trim(target@).len() > 0 && check_type == CheckType::Tcp ==> (p matches CheckPlan::Tcp {
            target: t,
            port: pt,
            timeout: ms,
        } && t@ == target@ && pt == (match port {
            Some(n) => n,
            None => DEFAULT_TCP_PORT,
        }) && ms == timeout_ms),
{
    if trim_chars(&chars_of(target)).len() == 0 {
        return CheckPlan::Done {
            online: false,
            latency_ms: 0,
            message: "Target address is empty".to_string(),
        };
    }
    match check_type {
        CheckType::Icmp => CheckPlan::Icmp {
            target: target.to_string(),
            timeout_ms: truncate_to_32_bits(timeout_ms),
        },
        CheckType::Tcp => {
            let target_port = match port {
                Some(n) => n,
                None => DEFAULT_TCP_PORT,
            };
            CheckPlan::Tcp { target: target.to_string(), port: target_port, timeout: timeout_ms }
        },
    }
}

/// The socket address `<trimmed target>:<port>` that a TCP check connects to.
pub fn tcp_address(target: &str, port: u16) -> (a: String)
    ensures
        a@ == trim(target@) + ":"@ + decimal(port as nat),
{
    let mut v = trim_chars(&chars_of(target));
    push_str(&mut v, ":");
    push_chars(&mut v, &decimal_chars(port as u128));
    string_from_chars(&v)
}

/// The host part of a target, as it is looked up: the target trimmed.
pub fn lookup_host(target: &str) -> (h: String)
    ensures
        h@ == trim(target@),
{
    string_from_chars(&trim_chars(&chars_of(target)))
}

/// The address that a host name is resolved with: the trimmed target and
/// port 80.
pub fn lookup_address(target: &str) -> (a: String)
    ensures
        a@ == trim(target@) + ":80"@,
{
    let mut v = trim_chars(&chars_of(target));
    push_str(&mut v, ":80");
    string_from_chars(&v)
}

/// The first IPv4 address (as its four octets) among resolved addresses,
/// where each address is given as its octets if it is IPv4 and as `None`
/// otherwise.
pub open spec fn first_ipv4(addrs: Seq<Option<[u8; 4]>>) -> Option<[u8; 4]>
    decreases addrs.len(),
{
    if addrs.len() == 0 {
        None
    } else if addrs[0] is Some {
        addrs[0]
    } else {
        first_ipv4(addrs.drop_first())
    }
}

/// The picked address is the first IPv4 entry: where some entry is IPv4,
/// the result is the entry at the least such index; where none is, there
/// is no result.
pub proof fn first_ipv4_is_the_first_v4_entry(addrs: Seq<Option<[u8; 4]>>)
    ensures
        (forall|i: int| 0 <= i < addrs.len() ==> #[trigger] addrs[i] is None) <==> first_ipv4(
            addrs,
        ) is None,
        first_ipv4(addrs) is Some ==> exists|i: int|
            0 <= i < addrs.len() && #[trigger] addrs[i] == first_ipv4(addrs) && forall|j: int|
                0 <= j < i ==> #[trigger] addrs[j] is None,
    decreases addrs.len(),
{
    if addrs.len() > 0 {
        let rest = addrs.drop_first();
        first_ipv4_is_the_first_v4_entry(rest);
        if addrs[0] is Some {
            assert(addrs[0] == first_ipv4(addrs));
        } else {
            assert forall|i: int| 0 <= i < rest.len() implies (#[trigger] rest[i] is None) == (
            addrs[i + 1] is None) by {}
            if (forall|i: int| 0 <= i < addrs.len() ==> #[trigger] addrs[i] is None) {
                assert forall|i: int| 0 <= i < rest.len() implies #[trigger] rest[i] is None by {
                    assert(addrs[i + 1] is None);
                }
            }
            if (forall|i: int| 0 <= i < rest.len() ==> #[trigger] rest[i] is None) {
                assert forall|i: int| 0 <= i < addrs.len() implies #[trigger] addrs[i] is None by {
                    if i > 0 {
                        assert(rest[i - 1] is None);
                    }
                }
            }
            if first_ipv4(rest) is Some {
                let k = choose|i: int|
                    0 <= i < rest.len() && #[trigger] rest[i] == first_ipv4(rest) && forall|j: int|
                        0 <= j < i ==> #[trigger] rest[j] is None;
                assert(addrs[k + 1] == first_ipv4(addrs));
                assert forall|j: int| 0 <= j < k + 1 implies #[trigger] addrs[j] is None by {
                    if j > 0 {
                        assert(rest[j - 1] is None);
                    }
                }
            }
        }
    }
}

/// The address a host name is pinged at: the first IPv4 address that it
/// resolved to, if any.
pub fn pick_ipv4(addrs: &Vec<Option<[u8; 4]>>) -> (r: Option<[u8; 4]>)
    ensures
        r == first_ipv4(addrs@),
{
    let mut i: usize = 0;
    proof {
        assert(addrs@.subrange(0, addrs.len() as int) =~= addrs@);
    }
    while i < addrs.len()
        invariant
            i <= addrs.len(),
            first_ipv4(addrs@) == first_ipv4(addrs@.subrange(i as int, addrs.len() as int)),
        decreases addrs.len() - i,
    {
        let a = addrs[i];
        proof {
            let rest = addrs@.subrange(i as int, addrs.len() as int);
            assert(rest.drop_first() =~= addrs@.subrange(i + 1, addrs.len() as int));
        }
        if a.is_some() {
            return a;
        }
        i = i + 1;
    }
    None
}

/// How an ICMP echo request ended.
#[derive(Debug)]
pub enum IcmpOutcome {
    /// The target did not resolve to an IPv4 address.
    Unresolved,
    /// The system's ICMP handle could not be opened.
    HandleUnavailable,
    /// A reply arrived, with its status (0 for success) and round trip time.
    Reply { status: u32, round_trip_ms: u32 },
    /// No reply arrived in time.
    NoReply,
    /// The blocking task that sent the request failed.
    TaskFailed { detail: String },
}

/// The larger of `n` and 1.
pub open spec fn at_least_one(n: nat) -> nat {
    if n >= 1 {
        n
    } else {
        1
    }
}

/// The result that an ICMP check of `target` reports for `outcome`.
pub fn icmp_result(target: &str, outcome: IcmpOutcome) -> (r: (bool, u128, String))
    ensures
        is_consistent_result(r.0, r.1),
        outcome is Unresolved ==> !r.0 && r.2@ == "Could not resolve host '"@ + target@ + "'"@,
        outcome is HandleUnavailable ==> !r.0 && r.2@ == "Failed to initialize Windows ICMP handle"@,
        outcome matches IcmpOutcome::Reply { status, round_trip_ms } ==> (if status == 0 {
            r.0 && r.1 == at_least_one(u32_nat(round_trip_ms)) && r.2@ == "Echo reply received ("@
                + decimal(at_least_one(u32_nat(round_trip_ms))) + " ms)"@
        } else {
            !r.0 && r.2@ == "ICMP status error: "@ + decimal(u32_nat(status))
        }),
        outcome is NoReply ==> !r.0 && r.2@ == "Request timed out"@,
        outcome matches IcmpOutcome::TaskFailed { detail } ==> !r.0 && r.2@ == "Task error: "@
            + detail@,
{
    let mut v: Vec<char> = Vec::new();
    match outcome {
        IcmpOutcome::Unresolved => {
            push_str(&mut v, "Could not resolve host '");
            push_str(&mut v, target);
            push_str(&mut v, "'");
            (false, 0, string_from_chars(&v))
        },
        IcmpOutcome::HandleUnavailable => {
            (false, 0, "Failed to initialize Windows ICMP handle".to_string())
        },
        IcmpOutcome::Reply { status, round_trip_ms } => {
            if status == 0 {
                let rtt: u128 = if round_trip_ms >= 1 {
                    widen_u32(round_trip_ms)
                } else {
                    1
                };
                push_str(&mut v, "Echo reply received (");
                push_chars(&mut v, &decimal_chars(rtt));
                push_str(&mut v, " ms)");
                (true, rtt, string_from_chars(&v))
            } else {
                push_str(&mut v, "ICMP status error: ");
                push_chars(&mut v, &decimal_chars(widen_u32(status)));
                (false, 0, string_from_chars(&v))
            }
        },
        IcmpOutcome::NoReply => (false, 0, "Request timed out".to_string()),
        IcmpOutcome::TaskFailed { detail } => {
            push_str(&mut v, "Task error: ");
            push_str(&mut v, detail.as_str());
            (false, 0, string_from_chars(&v))
        },
    }
}

/// How a TCP connection attempt ended.
#[derive(Debug)]
pub enum TcpOutcome {
    /// The connection was established.
    Connected,
    /// The connection failed, for the reason given.
    Failed { detail: String },
    /// The connection did not complete in time.
    TimedOut,
}

/// The result that a TCP check of `port` reports for `outcome`, the attempt
/// having taken `elapsed_ms` milliseconds.
pub fn tcp_result(port: u16, elapsed_ms: u128, outcome: TcpOutcome) -> (r: (bool, u128, String))
    ensures
        is_consistent_result(r.0, r.1),
        outcome is Connected ==> r.0 && r.1 == at_least_one(elapsed_ms as nat) && r.2@ == "Port "@
            + decimal(port as nat) + " open ("@ + decimal(at_least_one(elapsed_ms as nat)) + " ms)"@,
        outcome matches TcpOutcome::Failed { detail } ==> !r.0 && r.2@ == "Connection refused: "@
            + detail@,
        outcome is TimedOut ==> !r.0 && r.2@ == "Connection to port "@ + decimal(port as nat)
            + " timed out"@,
{
    let latency: u128 = if elapsed_ms >= 1 {
        elapsed_ms
    } else {
        1
    };
    let mut v: Vec<char> = Vec::new();
    match outcome {
        TcpOutcome::Connected => {
            push_str(&mut v, "Port ");
            push_chars(&mut v, &decimal_chars(port as u128));
            push_str(&mut v, " open (");
            push_chars(&mut v, &decimal_chars(latency));
            push_str(&mut v, " ms)");
            (true, latency, string_from_chars(&v))
        },
        TcpOutcome::Failed { detail } => {
            push_str(&mut v, "Connection refused: ");
            push_str(&mut v, detail.as_str());
            (false, 0, string_from_chars(&v))
        },
        TcpOutcome::TimedOut => {
            push_str(&mut v, "Connection to port ");
            push_chars(&mut v, &decimal_chars(port as u128));
            push_str(&mut v, " timed out");
            (false, 0, string_from_chars(&v))
        },
    }
}

/// Whether a device takes part in a monitoring cycle: it is enabled and
/// its target is not blank.
pub open spec fn is_monitored(d: DeviceView) -> bool {
    d.enabled && trim(d.target).len() > 0
}

/// The devices that take part in a monitoring cycle, in their order.
pub open spec fn monitored_devices(devices: Seq<DeviceConfig>) -> Seq<DeviceConfig> {
    devices.filter(|d: DeviceConfig| is_monitored(d@))
}

/// A cycle checks every enabled device with a target, and only those.
pub proof fn monitored_devices_are_the_active_ones(devices: Seq<DeviceConfig>)
    ensures
        forall|i: int|
            0 <= i < monitored_devices(devices).len() ==> is_monitored(
                #[trigger] monitored_devices(devices)[i]@,
            ),
        forall|i: int|
            0 <= i < devices.len() && is_monitored(#[trigger] devices[i]@) ==> monitored_devices(
                devices,
            ).contains(devices[i]),
        monitored_devices(devices).len() <= devices.len(),
{
    let pred = |d: DeviceConfig| is_monitored(d@);
    assert forall|i: int| 0 <= i < monitored_devices(devices).len() implies is_monitored(
        #[trigger] monitored_devices(devices)[i]@,
    ) by {
        devices.lemma_filter_pred(pred, i);
    }
    assert forall|i: int| 0 <= i < devices.len() && is_monitored(#[trigger] devices[i]@) implies monitored_devices(
        devices,
    ).contains(devices[i]) by {
        devices.lemma_filter_contains(pred, i);
    }
    devices.lemma_filter_len(pred);
}

/// A device is checked in a cycle exactly when it is enabled and its
/// target is not blank, whatever its check type, port or token; and
/// everything checked is a configured device.
pub proof fn checked_devices_are_the_enabled_ones_with_targets(devices: Seq<DeviceConfig>)
    ensures
        forall|i: int|
            #![trigger devices[i]]
            0 <= i < devices.len() ==> ((devices[i].enabled && trim(devices[i].target@).len() > 0)
                <==> monitored_devices(devices).contains(devices[i])),
        forall|j: int|
            0 <= j < monitored_devices(devices).len() ==> devices.contains(
                #[trigger] monitored_devices(devices)[j],
            ),
{
    let pred = |d: DeviceConfig| is_monitored(d@);
    let out = monitored_devices(devices);
    assert forall|i: int| #![trigger devices[i]] 0 <= i < devices.len() implies ((devices[i].enabled
        && trim(devices[i].target@).len() > 0) <==> out.contains(devices[i])) by {
        if devices[i].enabled && trim(devices[i].target@).len() > 0 {
            devices.lemma_filter_contains(pred, i);
        }
        if out.contains(devices[i]) {
            let j = choose|j: int| 0 <= j < out.len() && out[j] == devices[i];
            devices.lemma_filter_pred(pred, j);
        }
    }
    assert forall|j: int| 0 <= j < out.len() implies devices.contains(#[trigger] out[j]) by {
        assert(out.contains(out[j]));
        devices.lemma_filter_contains_rev(pred, out[j]);
    }
}

/// The pause after a cycle: the configured interval, at least five seconds.
pub open spec fn pause_secs(interval_sec: u64) -> u64 {
    if interval_sec >= MIN_INTERVAL_SEC {
        interval_sec
    } else {
        MIN_INTERVAL_SEC
    }
}

/// The agent's own heartbeat in a cycle.
#[derive(Debug)]
pub struct HeartbeatPlan {
    pub token: String,
    pub branch_name: String,
}

/// What one monitoring cycle does.
#[derive(Debug)]
pub struct CyclePlan {
    /// The base URL that pushes of this cycle use.
    pub kuma_base_url: String,
    /// The agent's heartbeat, where a heartbeat token is configured.
    pub heartbeat: Option<HeartbeatPlan>,
    /// The devices to check, in their configured order.
    pub devices: Vec<DeviceConfig>,
    /// How long to wait before the next cycle, in seconds.
    pub sleep_secs: u64,
}

/// What one monitoring cycle does under `config`.
pub fn plan_cycle(config: &Config) -> (p: CyclePlan)
    ensures
        p.kuma_base_url == config.kuma_base_url,
        p.heartbeat is Some <==> trim(config.agent_push_token@).len() > 0,
        p.heartbeat matches Some(h) ==> h.token == config.agent_push_token && h.branch_name
            == config.branch_name,
        p.devices@ == monitored_devices(config.devices@),
        p.sleep_secs == pause_secs(config.interval_sec),
        p.sleep_secs >= MIN_INTERVAL_SEC,
{
    let heartbeat = if trim_chars(&chars_of(config.agent_push_token.as_str())).len() > 0 {
        Some(
            HeartbeatPlan {
                token: config.agent_push_token.clone(),
                branch_name: config.branch_name.clone(),
            },
        )
    } else {
        None
    };
    let ghost pred = |d: DeviceConfig| is_monitored(d@);
    let mut devices: Vec<DeviceConfig> = Vec::new();
    let n = config.devices.len();
    let mut i: usize = 0;
    while i < n
        invariant
            i <= n == config.devices.len(),
            pred == (|d: DeviceConfig| is_monitored(d@)),
            devices@ == config.devices@.take(i as int).filter(pred),
        decreases n - i,
    {
        let d = &config.devices[i];
        let keep = d.enabled && trim_chars(&chars_of(d.target.as_str())).len() > 0;
        if keep {
            devices.push(d.clone());
        }
        proof {
            let front = config.devices@.take(i + 1);
            assert(front.drop_last() =~= config.devices@.take(i as int));
            assert(front.last() == *d);
            assert(pred(*d) == keep);
            assert(front.filter(pred) == (if pred(front.last()) {
                front.drop_last().filter(pred).push(front.last())
            } else {
                front.drop_last().filter(pred)
            })) by {
                reveal_with_fuel(Seq::filter, 1);
            }
            assert(devices@ == front.filter(pred));
        }
        i = i + 1;
    }
    proof {
        assert(config.devices@.take(n as int) =~= config.devices@);
    }
    let sleep_secs = if config.interval_sec >= MIN_INTERVAL_SEC {
        config.interval_sec
    } else {
        MIN_INTERVAL_SEC
    };
    CyclePlan { kuma_base_url: config.kuma_base_url.clone(), heartbeat, devices, sleep_secs }
}

/// One report to push.
#[derive(Debug)]
pub struct PushReport {
    pub token: String,
    pub is_up: bool,
    pub latency_ms: u128,
    pub msg: String,
}

/// The agent's heartbeat report: always up, with the latency of its
/// connectivity probe, and a message that tells whether the probe answered.
pub fn heartbeat_report(plan: &HeartbeatPlan, probe_online: bool, probe_latency_ms: u128) -> (r:
    PushReport)
    ensures
        r.token == plan.token,
        r.is_up,
        r.latency_ms == probe_latency_ms,
        probe_online ==> r.msg@ == plan.branch_name@ + " (Agent Online)"@,
        !probe_online ==> r.msg@ == "Agent (Degraded)"@,
{
    let msg = if probe_online {
        let mut v = chars_of(plan.branch_name.as_str());
        push_str(&mut v, " (Agent Online)");
        string_from_chars(&v)
    } else {
        "Agent (Degraded)".to_string()
    };
    PushReport { token: plan.token.clone(), is_up: true, latency_ms: probe_latency_ms, msg }
}

/// The report of a device check, where the device has a push token: its
/// state and latency, with `OK` or the check's details as message.
pub fn device_report(device: &DeviceConfig, online: bool, latency_ms: u128, details: &str) -> (r:
    Option<PushReport>)
    ensures
        trim(device.token@).len() == 0 <==> r is None,
        r matches Some(rep) ==> rep.token == device.token && rep.is_up == online && rep.latency_ms
            == latency_ms && rep.msg@ == (if online {
            "OK"@
        } else {
            details@
        }),
{
    if trim_chars(&chars_of(device.token.as_str())).len() == 0 {
        return None;
    }
    let msg = if online {
        "OK".to_string()
    } else {
        details.to_string()
    };
    Some(PushReport { token: device.token.clone(), is_up: online, latency_ms, msg })
}

} // verus!
