//! DNS responsiveness, active interfaces, TCP connection count, and Wi-Fi signal.
use vstd::prelude::*;

use crate::checker::{Checker, all_sound, lemma_empty_sound, lemma_extend_sound, 
    CheckResult, CheckResultView, Finding, FindingView, Level, empty_result, extend, issue_view,
    ok_view, opt_view,
};
use crate::text::{
    before_first, chars_of, clone_chars, contains, contains_exec, count_or_zero, count_or_zero_exec,
    dec, dec_int, dec_lit, join, join_exec, lines, lit_dec_lit, parse_int, parse_i32, parse_nat,
    parse_u64, push_dec_i64, second_piece, second_piece_exec, split_lines, split_once, split_words,
    starts_with, starts_with_exec, string_of, trim, trim_exec, trim_start, trim_start_exec, views,
    words,
};

verus! {

pub const DNS_SLOW_FIX: &'static str = "Switch to a faster DNS resolver:\n→ System Settings → Network → [connection] → DNS\n→ Add 1.1.1.1 (Cloudflare) or 8.8.8.8 (Google)\n→ Remove the existing slow entries and reconnect Wi-Fi.";

pub const DNS_MODERATE_FIX: &'static str = "Consider switching DNS to 1.1.1.1 (Cloudflare) for faster resolution.";

pub const TCP_FIX: &'static str = "Run: netstat -an | grep ESTABLISHED | awk '{print $5}' | cut -d. -f1-4 | sort | uniq -c | sort -rn | head\nto see which remote hosts have the most connections.";

pub const WIFI_WEAK_FIX: &'static str = "Move closer to your router. Consider a Wi-Fi extender or mesh network.";

pub const WIFI_MODERATE_FIX: &'static str = "Move the Mac closer to the router for better throughput.";

/// What the network checker reads: `ifconfig` output, `dig` output and the
/// time the lookup took, the count of established TCP connections as
/// `netstat | grep -c` printed it, and `airport -I` output.
pub struct NetworkReadings {
    pub ifconfig: Option<String>,
    pub dig_output: Option<String>,
    pub dig_elapsed_ms: u64,
    pub established: Option<String>,
    pub wifi_info: Option<String>,
}

pub struct NetworkReadingsView {
    pub ifconfig: Option<Seq<char>>,
    pub dig_output: Option<Seq<char>>,
    pub dig_elapsed_ms: u64,
    pub established: Option<Seq<char>>,
    pub wifi_info: Option<Seq<char>>,
}

impl View for NetworkReadings {
    type V = NetworkReadingsView;

    open spec fn view(&self) -> NetworkReadingsView {
        NetworkReadingsView {
            ifconfig: opt_view(self.ifconfig),
            dig_output: opt_view(self.dig_output),
            dig_elapsed_ms: self.dig_elapsed_ms,
            established: opt_view(self.established),
            wifi_info: opt_view(self.wifi_info),
        }
    }
}

/// Interface names: lines starting `en` without `flags=`, up to the first
/// `:`, trimmed, non-empty.
pub open spec fn interfaces(ls: Seq<Seq<char>>) -> Seq<Seq<char>>
    decreases ls.len(),
{
    if ls.len() == 0 {
        seq![]
    } else {
        let l = ls.last();
        let name = trim(before_first(l, seq![':']));
        interfaces(ls.drop_last()) + if starts_with(l, "en"@) && !contains(l, "flags="@) && name.len()
            > 0 {
            seq![name]
        } else {
            seq![]
        }
    }
}

pub open spec fn interface_details(r: NetworkReadingsView) -> Seq<(Seq<char>, Seq<char>)> {
    match r.ifconfig {
        Some(o) => {
            let i = interfaces(lines(o));
            seq![(
                "Active Interfaces"@,
                if i.len() == 0 {
                    "None detected"@
                } else {
                    join(i, ", "@)
                },
            )]
        },
        None => seq![],
    }
}

/// Index of the first line, from `i` on, satisfying a prefix test after
/// leading whitespace is removed.
pub open spec fn line_starting_from(ls: Seq<Seq<char>>, p: Seq<char>, i: int) -> Option<int>
    decreases ls.len() - i,
{
    if i < 0 || i >= ls.len() {
        None
    } else if starts_with(trim_start(ls[i]), p) {
        Some(i)
    } else {
        line_starting_from(ls, p, i + 1)
    }
}

/// The value of `key: value` on the first line that begins (after
/// indentation) with `key:`, trimmed.
pub open spec fn field_value(out: Seq<char>, key: Seq<char>) -> Option<Seq<char>> {
    let ls = lines(out);
    match line_starting_from(ls, key, 0) {
        Some(i) => match second_piece(ls[i], seq![':']) {
            Some(v) => Some(trim(v)),
            None => None,
        },
        None => None,
    }
}

/// The query time `dig` reports: the fourth word of the first line that
/// contains `Query time:`.
pub open spec fn dig_query_ms(out: Seq<char>) -> Option<nat> {
    match crate::text::line_with(lines(out), "Query time:"@) {
        Some(l) => {
            let w = words(l, false);
            if w.len() > 3 {
                parse_nat(w[3], u64::MAX as nat)
            } else {
                None
            }
        },
        None => None,
    }
}

pub open spec fn dns_ms(r: NetworkReadingsView, out: Seq<char>) -> nat {
    match dig_query_ms(out) {
        Some(v) => v,
        None => r.dig_elapsed_ms as nat,
    }
}

pub open spec fn dns_details(r: NetworkReadingsView) -> Seq<(Seq<char>, Seq<char>)> {
    match r.dig_output {
        Some(o) => seq![("DNS Query Time"@, dec(dns_ms(r, o)) + " ms (google.com)"@)],
        None => seq![("DNS Test"@, "Skipped (dig not available or offline)"@)],
    }
}

pub open spec fn dns_findings(r: NetworkReadingsView) -> Seq<FindingView> {
    match r.dig_output {
        Some(o) => {
            let ms = dns_ms(r, o);
            if ms > 500 {
                seq![issue_view(Level::Warn, "DNS response is slow ("@ + dec(ms) + " ms). Web browsing will feel sluggish."@, DNS_SLOW_FIX@, 5)]
            } else if ms > 200 {
                seq![issue_view(Level::Warn, "DNS response is moderately slow ("@ + dec(ms) + " ms)."@, DNS_MODERATE_FIX@, 2)]
            } else {
                seq![ok_view("DNS response is fast ("@ + dec(ms) + " ms)."@)]
            }
        },
        None => seq![],
    }
}

pub open spec fn tcp_details(r: NetworkReadingsView) -> Seq<(Seq<char>, Seq<char>)> {
    seq![("Established TCP Connections"@, dec(count_or_zero(r.established)))]
}

pub open spec fn tcp_findings(r: NetworkReadingsView) -> Seq<FindingView> {
    let n = count_or_zero(r.established);
    if n > 200 {
        seq![issue_view(Level::Warn, "Unusually high TCP connection count: "@ + dec(n) + "."@, TCP_FIX@, 5)]
    } else {
        seq![ok_view("TCP connection count is normal ("@ + dec(n) + ")."@)]
    }
}

/// The RSSI `airport -I` reports, when it parses as an `i32`.
pub open spec fn rssi_of(info: Seq<char>) -> Option<int> {
    match field_value(info, "agrCtlRSSI:"@) {
        Some(v) => parse_int(v, i32::MIN as int, i32::MAX as int),
        None => None,
    }
}

pub open spec fn wifi_details(r: NetworkReadingsView) -> Seq<(Seq<char>, Seq<char>)> {
    match r.wifi_info {
        Some(info) => match rssi_of(info) {
            Some(rssi) => seq![
                ("Wi-Fi SSID"@, match field_value(info, "SSID:"@) {
                    Some(s) => s,
                    None => "?"@,
                }),
                ("Wi-Fi Signal"@, dec_int(rssi) + " dBm"@),
            ],
            None => seq![],
        },
        None => seq![],
    }
}

pub open spec fn wifi_findings(r: NetworkReadingsView) -> Seq<FindingView> {
    match r.wifi_info {
        Some(info) => match rssi_of(info) {
            Some(rssi) => if rssi < -80 {
                seq![issue_view(Level::Warn, "Wi-Fi signal is weak ("@ + dec_int(rssi) + " dBm). Network will feel unreliable."@, WIFI_WEAK_FIX@, 5)]
            } else if rssi < -70 {
                seq![issue_view(Level::Warn, "Wi-Fi signal is moderate ("@ + dec_int(rssi) + " dBm). Some packet loss possible."@, WIFI_MODERATE_FIX@, 2)]
            } else {
                seq![ok_view("Wi-Fi signal strength is good ("@ + dec_int(rssi) + " dBm)."@)]
            },
            None => seq![],
        },
        None => seq![],
    }
}

/// The network section for the given readings.
pub open spec fn network_report(r: NetworkReadingsView) -> CheckResultView {
    let r0 = empty_result("Network Status"@);
    let r1 = extend(r0, interface_details(r), seq![]);
    let r2 = extend(r1, dns_details(r), dns_findings(r));
    let r3 = extend(r2, tcp_details(r), tcp_findings(r));
    extend(r3, wifi_details(r), wifi_findings(r))
}

fn interfaces_exec(ls: &Vec<Vec<char>>) -> (r: Vec<String>)
    ensures
        r@.map_values(|s: String| s@) == interfaces(views(ls@)),
{
    let ghost lv = views(ls@);
    let colon: Vec<char> = vec![':'];
    assert(colon@ =~= seq![':']);
    let mut r: Vec<String> = Vec::new();
    for i in 0..ls.len()
        invariant
            lv == views(ls@),
            colon@ == seq![':'],
            r@.map_values(|s: String| s@) == interfaces(lv.take(i as int)),
    {
        assert(lv.take(i + 1).drop_last() =~= lv.take(i as int));
        assert(lv[i as int] == ls@[i as int]@);
        let l = &ls[i];
        let (head, _) = split_once(l, &colon);
        let name = trim_exec(&head);
        let ghost before = r@;
        if starts_with_exec(l, &chars_of("en")) && !contains_exec(l, &chars_of("flags=")) && name.len() > 0 {
            let s = string_of(&name);
            r.push(s);
            assert(r@.map_values(|s: String| s@) =~= before.map_values(|s: String| s@).push(s@));
        } else {
            assert(r@.map_values(|s: String| s@) =~= before.map_values(|s: String| s@) + seq![]);
        }
    }
    assert(lv.take(ls@.len() as int) =~= lv);
    r
}

fn field_value_exec(ls: &Vec<Vec<char>>, key: &str) -> (r: Option<Vec<char>>)
    ensures
        r matches Some(v) ==> (match line_starting_from(views(ls@), key@, 0) {
            Some(i) => match second_piece(views(ls@)[i], seq![':']) {
                Some(x) => Some(trim(x)),
                None => None,
            },
            None => None,
        }) == Some(v@),
        r is None ==> (match line_starting_from(views(ls@), key@, 0) {
            Some(i) => match second_piece(views(ls@)[i], seq![':']) {
                Some(x) => Some(trim(x)),
                None => None,
            },
            None => None,
        }) is None,
{
    let ghost lv = views(ls@);
    let k = chars_of(key);
    let colon: Vec<char> = vec![':'];
    assert(colon@ =~= seq![':']);
    let mut i: usize = 0;
    while i < ls.len()
        invariant
            lv == views(ls@),
            k@ == key@,
            colon@ == seq![':'],
            i <= ls@.len(),
            line_starting_from(lv, key@, 0) == line_starting_from(lv, key@, i as int),
        decreases ls@.len() - i,
    {
        assert(lv[i as int] == ls@[i as int]@);
        if starts_with_exec(&trim_start_exec(&ls[i]), &k) {
            return match second_piece_exec(&ls[i], &colon) {
                Some(v) => Some(trim_exec(&v)),
                None => None,
            };
        }
        i = i + 1;
    }
    None
}


fn add_interface_part(r: &mut CheckResult, readings: &NetworkReadings)
    ensures
        final(r)@ == extend(old(r)@, interface_details(readings@), seq![]),
{
    match &readings.ifconfig {
        Some(o) => {
            let ls = split_lines(&chars_of(o.as_str()));
            let names = interfaces_exec(&ls);
            if names.len() == 0 {
                r.add_detail("Active Interfaces", "None detected");
            } else {
                let j = join_exec(&names, ", ");
                r.add_detail("Active Interfaces", j.as_str());
            }
        },
        None => {},
    }
    assert(final(r)@.details =~= old(r)@.details + interface_details(readings@));
    assert(final(r)@.findings =~= old(r)@.findings + seq![]);
}

fn add_dns_part(r: &mut CheckResult, readings: &NetworkReadings)
    ensures
        final(r)@ == extend(old(r)@, dns_details(readings@), dns_findings(readings@)),
{
    match &readings.dig_output {
        Some(o) => {
            let ls = split_lines(&chars_of(o.as_str()));
            let q: Option<u64> = match crate::text::line_with_exec(&ls, "Query time:") {
                Some(l) => {
                    let w = split_words(&l, false);
                    if w.len() > 3 {
                        assert(views(w@)[3] == w@[3]@);
                        parse_u64(&w[3])
                    } else {
                        None
                    }
                },
                None => None,
            };
            let ms = match q {
                Some(v) => v,
                None => readings.dig_elapsed_ms,
            };
            assert(ms as nat == dns_ms(readings@, o@));
            let v = dec_lit(ms, " ms (google.com)");
            r.add_detail("DNS Query Time", v.as_str());
            if ms > 500 {
                let m = lit_dec_lit("DNS response is slow (", ms, " ms). Web browsing will feel sluggish.");
                r.add_finding(Finding::warn(m.as_str(), DNS_SLOW_FIX, 5));
            } else if ms > 200 {
                let m = lit_dec_lit("DNS response is moderately slow (", ms, " ms).");
                r.add_finding(Finding::warn(m.as_str(), DNS_MODERATE_FIX, 2));
            } else {
                let m = lit_dec_lit("DNS response is fast (", ms, " ms).");
                r.add_finding(Finding::ok(m.as_str()));
            }
        },
        None => {
            r.add_detail("DNS Test", "Skipped (dig not available or offline)");
        },
    }
    assert(final(r)@.details =~= old(r)@.details + dns_details(readings@));
    assert(final(r)@.findings =~= old(r)@.findings + dns_findings(readings@));
}

fn add_tcp_part(r: &mut CheckResult, readings: &NetworkReadings)
    ensures
        final(r)@ == extend(old(r)@, tcp_details(readings@), tcp_findings(readings@)),
{
    let n = count_or_zero_exec(&readings.established);
    let nd = crate::text::dec_string(n as u64);
    r.add_detail("Established TCP Connections", nd.as_str());
    if n > 200 {
        let m = lit_dec_lit("Unusually high TCP connection count: ", n as u64, ".");
        r.add_finding(Finding::warn(m.as_str(), TCP_FIX, 5));
    } else {
        let m = lit_dec_lit("TCP connection count is normal (", n as u64, ").");
        r.add_finding(Finding::ok(m.as_str()));
    }
    assert(final(r)@.details =~= old(r)@.details + tcp_details(readings@));
    assert(final(r)@.findings =~= old(r)@.findings + tcp_findings(readings@));
}

fn signal_text(a: &str, rv: i32, b: &str) -> (m: String)
    ensures
        m@ == a@ + dec_int(rv as int) + b@,
{
    let mut m = String::new();
    m.append(a);
    push_dec_i64(&mut m, rv as i64);
    m.append(b);
    m
}

fn add_wifi_part(r: &mut CheckResult, readings: &NetworkReadings)
    ensures
        final(r)@ == extend(old(r)@, wifi_details(readings@), wifi_findings(readings@)),
{
    match &readings.wifi_info {
        Some(info) => {
            let ls = split_lines(&chars_of(info.as_str()));
            let rssi: Option<i32> = match field_value_exec(&ls, "agrCtlRSSI:") {
                Some(v) => parse_i32(&v),
                None => None,
            };
            match rssi {
                Some(rv) => {
                    let ssid = match field_value_exec(&ls, "SSID:") {
                        Some(s) => string_of(&s),
                        None => crate::text::owned("?"),
                    };
                    r.add_detail("Wi-Fi SSID", ssid.as_str());
                    let sig = signal_text("", rv, " dBm");
                    proof {
                        reveal_strlit("");
                    }
                    assert(sig@ =~= dec_int(rv as int) + " dBm"@);
                    r.add_detail("Wi-Fi Signal", sig.as_str());
                    if rv < -80 {
                        let m = signal_text("Wi-Fi signal is weak (", rv, " dBm). Network will feel unreliable.");
                        r.add_finding(Finding::warn(m.as_str(), WIFI_WEAK_FIX, 5));
                    } else if rv < -70 {
                        let m = signal_text("Wi-Fi signal is moderate (", rv, " dBm). Some packet loss possible.");
                        r.add_finding(Finding::warn(m.as_str(), WIFI_MODERATE_FIX, 2));
                    } else {
                        let m = signal_text("Wi-Fi signal strength is good (", rv, " dBm).");
                        r.add_finding(Finding::ok(m.as_str()));
                    }
                },
                None => {},
            }
        },
        None => {},
    }
    assert(final(r)@.details =~= old(r)@.details + wifi_details(readings@));
    assert(final(r)@.findings =~= old(r)@.findings + wifi_findings(readings@));
}

/// DNS responsiveness, active interfaces, and TCP connection count.
pub struct NetworkChecker;

impl Checker for NetworkChecker {
    /// Short, unique name used in `--only <name>` filtering.
    fn name(&self) -> (r: &'static str)
        ensures
            r@ == "network"@,
    {
        "network"
    }

    /// One-line description shown in `--list` output.
    fn description(&self) -> (r: &'static str)
        ensures
            r@ == "DNS responsiveness, active interfaces, and TCP connection count"@,
    {
        "DNS responsiveness, active interfaces, and TCP connection count"
    }
}

impl NetworkChecker {

    /// The network section for the given readings.
    pub fn assess(readings: &NetworkReadings) -> (r: CheckResult)
        ensures
            r@ == network_report(readings@),
    {
        let mut r = CheckResult::new("Network Status");
        add_interface_part(&mut r, readings);
        add_dns_part(&mut r, readings);
        add_tcp_part(&mut r, readings);
        add_wifi_part(&mut r, readings);
        r
    }
}

/// Every finding of the network section is sound: exactly its warnings and
/// critical findings carry a fix and deduct points.
pub proof fn law_network_findings_sound(r: NetworkReadingsView)
    ensures
        all_sound(network_report(r).findings),
{
    lemma_empty_sound("Network Status"@);
    let r0 = empty_result("Network Status"@);
    lemma_extend_sound(r0, interface_details(r), seq![]);
    let r1 = extend(r0, interface_details(r), seq![]);
    assert(all_sound(dns_findings(r)));
    lemma_extend_sound(r1, dns_details(r), dns_findings(r));
    let r2 = extend(r1, dns_details(r), dns_findings(r));
    assert(all_sound(tcp_findings(r)));
    lemma_extend_sound(r2, tcp_details(r), tcp_findings(r));
    let r3 = extend(r2, tcp_details(r), tcp_findings(r));
    assert(all_sound(wifi_findings(r)));
    lemma_extend_sound(r3, wifi_details(r), wifi_findings(r));
}

/// When `dig` ran, the network section grades the DNS time (the query time
/// `dig` printed, else the time the lookup took): above 500 ms a slow-DNS
/// warning deducting 5 points, above 200 ms a moderately-slow warning
/// deducting 2, and otherwise a note that DNS is fast, each naming the time.
pub proof fn law_dns_grading(r: NetworkReadingsView)
    ensures
        r.dig_output matches Some(o) ==> ({
            let ms: nat = match dig_query_ms(o) {
                Some(v) => v,
                None => r.dig_elapsed_ms as nat,
            };
            let fs = network_report(r).findings;
            &&& ms > 500 ==> exists|j: int|
                0 <= j < fs.len() && #[trigger] fs[j] == issue_view(
                    Level::Warn,
                    "DNS response is slow ("@ + dec(ms) + " ms). Web browsing will feel sluggish."@,
                    DNS_SLOW_FIX@,
                    5,
                )
            &&& 200 < ms <= 500 ==> exists|j: int|
                0 <= j < fs.len() && #[trigger] fs[j] == issue_view(
                    Level::Warn,
                    "DNS response is moderately slow ("@ + dec(ms) + " ms)."@,
                    DNS_MODERATE_FIX@,
                    2,
                )
            &&& ms <= 200 ==> exists|j: int|
                0 <= j < fs.len() && #[trigger] fs[j] == ok_view("DNS response is fast ("@ + dec(ms) + " ms)."@)
        }),
{
    if let Some(o) = r.dig_output {
        let fs = network_report(r).findings;
        assert(fs =~= Seq::<FindingView>::empty() + Seq::<FindingView>::empty() + dns_findings(r) + tcp_findings(r)
            + wifi_findings(r));
        assert(fs[0] == dns_findings(r)[0]);
    }
}

} // verus!
