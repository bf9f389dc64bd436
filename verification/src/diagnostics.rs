//! One-shot diagnostics: what the `autospot status` command says, used to verify each piece
//! by hand -- Wi-Fi interfaces, adapters, and the hotspot's resolved uplink and state.
//!
//! The lines are for stdout rather than the log: it is a report the user asked for, not a
//! record of what the watchdog is doing.

use crate::adapters::{ipv4_of, Adapter};
use crate::config::Config;
use crate::hotspot::State;
use crate::text::{join, same_text, to_decimal};
use crate::uplink::{resolve_hotspot_adapter, HotspotAdapter};
use crate::wifi::{InterfaceStatus, WifiStatus};
use vstd::prelude::*;

verus! {

/// What could be found out about the hotspot once its uplink was found.
pub struct HotspotFindings {
    /// Label of the uplink.
    pub uplink_profile: String,
    pub state: Option<State>,
    pub ssid: Option<String>,
    pub clients: Option<u32>,
}

// --- Wi-Fi -----------------------------------------------------------------------

/// The line for one Wi-Fi interface.
pub open spec fn interface_text(interface: InterfaceStatus, adapters: Seq<Adapter>) -> Seq<char> {
    "  "@ + interface.description@ + " -- "@ + (if interface.connected {
        "connected"@
    } else {
        "not connected"@
    }) + " "@ + (match interface.ssid {
        Some(ssid) => "to '"@ + ssid@ + "'"@,
        None => Seq::empty(),
    }) + (match crate::adapters::address_of(adapters, interface.description@) {
        Some(ip) => ", "@ + ip,
        None => Seq::empty(),
    })
}

/// The line for one Wi-Fi interface.
pub fn interface_line(interface: &InterfaceStatus, adapters: &[Adapter]) -> (r: String)
    ensures
        r@ == interface_text(*interface, adapters@),
{
    let mut r = "  ".to_string();
    r.append(interface.description.as_str());
    r.append(" -- ");
    r.append(
        if interface.connected {
            "connected"
        } else {
            "not connected"
        },
    );
    r.append(" ");
    let ghost before = r@;
    match &interface.ssid {
        Some(ssid) => {
            r.append("to '");
            r.append(ssid.as_str());
            r.append("'");
            assert(r@ =~= before + ("to '"@ + ssid@ + "'"@));
        },
        None => {
            assert(r@ =~= before + Seq::<char>::empty());
        },
    }
    let ghost before = r@;
    match ipv4_of(adapters, interface.description.as_str()) {
        Some(ip) => {
            r.append(", ");
            r.append(ip);
            assert(r@ =~= before + (", "@ + ip@));
        },
        None => {
            assert(r@ =~= before + Seq::<char>::empty());
        },
    }
    r
}

/// The Wi-Fi section, where Wi-Fi could be read.
pub open spec fn wifi_report(
    status: WifiStatus,
    adapters: Seq<Adapter>,
    own_ssid: Seq<char>,
) -> Seq<Seq<char>> {
    if status.interfaces@.len() == 0 {
        seq!["Wi-Fi interfaces:"@, "  (none found)"@]
    } else {
        seq!["Wi-Fi interfaces:"@] + Seq::new(
            status.interfaces@.len(),
            |i: int| interface_text(status.interfaces@[i], adapters),
        ) + seq!["  => watchdog sees Wi-Fi as: "@ + (if status.active(Some(own_ssid)) is Some {
            "CONNECTED"@
        } else {
            "DISCONNECTED"@
        })]
    }
}

/// The Wi-Fi section; `wifi` is what was read, or why nothing was.
pub open spec fn wifi_lines(
    cfg: Config,
    wifi: Result<&WifiStatus, &str>,
    adapters: Seq<Adapter>,
) -> Seq<Seq<char>> {
    match wifi {
        Ok(status) => wifi_report(*status, adapters, cfg.hotspot.ssid@),
        Err(e) => seq!["Wi-Fi interfaces:"@, "  error: "@ + e@],
    }
}

/// The Wi-Fi section; `wifi` is what was read, or why nothing was.
pub fn wifi_section(
    cfg: &Config,
    wifi: Result<&WifiStatus, &str>,
    adapters: &[Adapter],
) -> (r: Vec<String>)
    ensures
        crate::text::texts(r@) == wifi_lines(*cfg, wifi, adapters@),
{
    let mut r: Vec<String> = Vec::new();
    r.push("Wi-Fi interfaces:".to_string());
    let status = match wifi {
        Ok(status) => status,
        Err(e) => {
            let mut line = "  error: ".to_string();
            line.append(e);
            r.push(line);
            assert(crate::text::texts(r@) =~= seq!["Wi-Fi interfaces:"@, "  error: "@ + e@]);
            return r;
        },
    };
    if status.interfaces.len() == 0 {
        r.push("  (none found)".to_string());
        assert(crate::text::texts(r@) =~= seq!["Wi-Fi interfaces:"@, "  (none found)"@]);
        return r;
    }
    let mut k: usize = 0;
    while k < status.interfaces.len()
        invariant
            k <= status.interfaces.len(),
            r@.len() == k + 1,
            r@[0]@ == "Wi-Fi interfaces:"@,
            forall|i: int|
                0 <= i < k ==> (#[trigger] r@[i + 1])@ == interface_text(
                    status.interfaces@[i],
                    adapters@,
                ),
        decreases status.interfaces.len() - k,
    {
        r.push(interface_line(&status.interfaces[k], adapters));
        k = k + 1;
    }
    let mut line = "  => watchdog sees Wi-Fi as: ".to_string();
    line.append(
        if status.is_connected(Some(cfg.hotspot.ssid.as_str())) {
            "CONNECTED"
        } else {
            "DISCONNECTED"
        },
    );
    r.push(line);
    proof {
        let expected = wifi_report(*status, adapters@, cfg.hotspot.ssid@);
        let got = crate::text::texts(r@);
        assert(got.len() == expected.len());
        assert forall|i: int| 0 <= i < got.len() implies got[i] == expected[i] by {
            if 1 <= i < got.len() - 1 {
                assert(r@[(i - 1) + 1]@ == interface_text(
                    status.interfaces@[i - 1],
                    adapters@,
                ));
            }
        }
        assert(got =~= expected);
    }
    r
}

// --- adapters --------------------------------------------------------------------

/// What part an adapter plays.
pub open spec fn role(
    cfg: Config,
    adapter: Adapter,
    hotspot_adapter: crate::uplink::Resolved,
    uplink_label: Option<Seq<char>>,
) -> Seq<char> {
    if hotspot_adapter.excludes(Some(adapter)) {
        " <== hotspot adapter (excluded from uplink)"@
    } else if cfg.hotspot.auto_uplink() {
        if uplink_label == Some(adapter.friendly_name@) {
            " <== auto-selected uplink"@
        } else {
            ""@
        }
    } else if adapter.answers_to(cfg.hotspot.uplink_adapter@) {
        " <== configured uplink"@
    } else {
        ""@
    }
}

/// What part this adapter plays, if any, in the configuration as it resolves right now.
pub fn role_of(
    cfg: &Config,
    adapter: &Adapter,
    hotspot_adapter: &HotspotAdapter,
    uplink_label: Option<&str>,
) -> (r: &'static str)
    ensures
        r@ == role(*cfg, *adapter, hotspot_adapter@, crate::text::text_of(uplink_label)),
{
    if hotspot_adapter.excludes(Some(adapter)) {
        return " <== hotspot adapter (excluded from uplink)";
    }
    if cfg.hotspot.is_auto_uplink() {
        return match uplink_label {
            Some(label) => if same_text(label, adapter.friendly_name.as_str()) {
                " <== auto-selected uplink"
            } else {
                ""
            },
            None => "",
        };
    }
    if adapter.matches(cfg.hotspot.uplink_adapter.as_str()) {
        return " <== configured uplink";
    }
    ""
}

/// The line for one adapter.
pub open spec fn adapter_text(adapter: Adapter, role: Seq<char>) -> Seq<char> {
    "   '"@ + adapter.friendly_name@ + "' ("@ + adapter.description@ + (if adapter.ipv4@.len()
        == 0 {
        Seq::empty()
    } else {
        ", "@ + crate::text::joined(crate::text::texts(adapter.ipv4@), ", "@)
    }) + ") "@ + role + "."@
}

/// The line for one adapter.
pub fn adapter_line(adapter: &Adapter, role: &str) -> (r: String)
    ensures
        r@ == adapter_text(*adapter, role@),
{
    let mut r = "   '".to_string();
    r.append(adapter.friendly_name.as_str());
    r.append("' (");
    r.append(adapter.description.as_str());
    let ghost before = r@;
    if adapter.ipv4.len() > 0 {
        r.append(", ");
        r.append(join(&adapter.ipv4, ", ").as_str());
        assert(r@ =~= before + (", "@ + crate::text::joined(
            crate::text::texts(adapter.ipv4@),
            ", "@,
        )));
    } else {
        assert(r@ =~= before + Seq::<char>::empty());
    }
    r.append(") ");
    r.append(role);
    r.append(".");
    r
}

/// The adapter section.
pub open spec fn adapter_report(
    cfg: Config,
    adapters: Seq<Adapter>,
    hotspot_adapter: crate::uplink::Resolved,
    uplink_label: Option<Seq<char>>,
) -> Seq<Seq<char>> {
    if adapters.len() == 0 {
        seq!["\nNetwork adapters:"@, "  (none found, or enumeration failed -- see log)"@]
    } else {
        seq!["\nNetwork adapters:"@] + Seq::new(
            adapters.len(),
            |i: int|
                adapter_text(adapters[i], role(cfg, adapters[i], hotspot_adapter, uplink_label)),
        )
    }
}

/// The adapter section.
pub fn adapter_section(
    cfg: &Config,
    adapters: &[Adapter],
    hotspot_adapter: &HotspotAdapter,
    uplink_label: Option<&str>,
) -> (r: Vec<String>)
    ensures
        crate::text::texts(r@) == adapter_report(
            *cfg,
            adapters@,
            hotspot_adapter@,
            crate::text::text_of(uplink_label),
        ),
{
    let mut r: Vec<String> = Vec::new();
    r.push("\nNetwork adapters:".to_string());
    if adapters.len() == 0 {
        r.push("  (none found, or enumeration failed -- see log)".to_string());
        assert(crate::text::texts(r@) =~= adapter_report(
            *cfg,
            adapters@,
            hotspot_adapter@,
            crate::text::text_of(uplink_label),
        ));
        return r;
    }
    let mut k: usize = 0;
    while k < adapters.len()
        invariant
            k <= adapters@.len(),
            r@.len() == k + 1,
            r@[0]@ == "\nNetwork adapters:"@,
            forall|i: int|
                0 <= i < k ==> (#[trigger] r@[i + 1])@ == adapter_text(
                    adapters@[i],
                    role(
                        *cfg,
                        adapters@[i],
                        hotspot_adapter@,
                        crate::text::text_of(uplink_label),
                    ),
                ),
        decreases adapters@.len() - k,
    {
        let adapter = &adapters[k];
        r.push(adapter_line(adapter, role_of(cfg, adapter, hotspot_adapter, uplink_label)));
        k = k + 1;
    }
    proof {
        let expected = adapter_report(
            *cfg,
            adapters@,
            hotspot_adapter@,
            crate::text::text_of(uplink_label),
        );
        let got = crate::text::texts(r@);
        assert(got.len() == expected.len());
        assert forall|i: int| 0 <= i < got.len() implies got[i] == expected[i] by {
            if i >= 1 {
                assert(r@[(i - 1) + 1]@ == got[i]);
            }
        }
        assert(got =~= expected);
    }
    r
}

// --- hotspot ---------------------------------------------------------------------

/// A value we may not have been able to read.
pub open spec fn or_question_mark(value: Option<Seq<char>>) -> Seq<char> {
    match value {
        Some(v) => v,
        None => "?"@,
    }
}

/// Render a value we may not have been able to read.
pub fn or_unknown(value: Option<&str>) -> (r: String)
    ensures
        r@ == or_question_mark(crate::text::text_of(value)),
{
    match value {
        Some(v) => v.to_string(),
        None => "?".to_string(),
    }
}

/// The headings of the hotspot section.
pub open spec fn hotspot_headings(
    cfg: Config,
    hotspot_adapter: crate::uplink::Resolved,
    uplink_label: Option<Seq<char>>,
) -> Seq<Seq<char>> {
    seq![
        "\nHotspot adapter ('"@ + cfg.hotspot.hotspot_adapter@ + "' -> "@ + (match hotspot_adapter {
            crate::uplink::Resolved::Known(Some(a)) => a.friendly_name@,
            crate::uplink::Resolved::Known(None) => "none detected"@,
            crate::uplink::Resolved::Ambiguous => "multiple Wi-Fi adapters present"@,
        }) + "):"@,
        if cfg.hotspot.auto_uplink() {
            "Hotspot (uplink 'auto' -> "@ + or_question_mark(uplink_label) + "):"@
        } else {
            "Hotspot (uplink '"@ + cfg.hotspot.uplink_adapter@ + "'):"@
        },
    ]
}

/// The hotspot section below its headings.
pub open spec fn hotspot_report(
    cfg: Config,
    findings: Result<HotspotFindings, String>,
) -> Seq<Seq<char>> {
    match findings {
        Err(e) => seq!["  error: "@ + e@],
        Ok(f) => seq![
            "  uplink profile: "@ + f.uplink_profile@,
            "  state:          "@ + or_question_mark(
                match f.state {
                    Some(state) => Some(state.text()),
                    None => None,
                },
            ),
            "  current SSID:   "@ + or_question_mark(crate::text::string_of(f.ssid)),
            "  clients:        "@ + or_question_mark(
                match f.clients {
                    Some(clients) => Some(crate::text::decimal(clients as nat)),
                    None => None,
                },
            ),
            "  configured SSID: "@ + cfg.hotspot.ssid@,
        ],
    }
}

/// The headings of the hotspot section.
pub fn hotspot_heading_lines(
    cfg: &Config,
    hotspot_adapter: &HotspotAdapter,
    uplink_label: Option<&str>,
) -> (r: Vec<String>)
    ensures
        crate::text::texts(r@) == hotspot_headings(
            *cfg,
            hotspot_adapter@,
            crate::text::text_of(uplink_label),
        ),
{
    let mut first = "\nHotspot adapter ('".to_string();
    first.append(cfg.hotspot.hotspot_adapter.as_str());
    first.append("' -> ");
    first.append(hotspot_adapter.describe().as_str());
    first.append("):");
    let second = if cfg.hotspot.is_auto_uplink() {
        let mut s = "Hotspot (uplink 'auto' -> ".to_string();
        s.append(or_unknown(uplink_label).as_str());
        s.append("):");
        s
    } else {
        let mut s = "Hotspot (uplink '".to_string();
        s.append(cfg.hotspot.uplink_adapter.as_str());
        s.append("'):");
        s
    };
    let mut r: Vec<String> = Vec::new();
    r.push(first);
    r.push(second);
    assert(crate::text::texts(r@) =~= hotspot_headings(
        *cfg,
        hotspot_adapter@,
        crate::text::text_of(uplink_label),
    ));
    r
}

/// A line made of a caption and a value.
fn captioned(caption: &str, value: &str) -> (r: String)
    ensures
        r@ == caption@ + value@,
{
    let mut r = caption.to_string();
    r.append(value);
    r
}

/// The hotspot section below its headings. Each value is rendered independently: one
/// unreadable value shouldn't hide the others.
pub fn hotspot_section(
    cfg: &Config,
    findings: &Result<HotspotFindings, String>,
) -> (r: Vec<String>)
    ensures
        crate::text::texts(r@) == hotspot_report(*cfg, *findings),
{
    let mut r: Vec<String> = Vec::new();
    let f = match findings {
        Ok(f) => f,
        Err(e) => {
            r.push(captioned("  error: ", e.as_str()));
            assert(crate::text::texts(r@) =~= hotspot_report(*cfg, *findings));
            return r;
        },
    };
    r.push(captioned("  uplink profile: ", f.uplink_profile.as_str()));
    let state = match f.state {
        Some(state) => Some(state.to_text()),
        None => None,
    };
    r.push(captioned("  state:          ", or_unknown(state).as_str()));
    let ssid = match &f.ssid {
        Some(ssid) => Some(ssid.as_str()),
        None => None,
    };
    r.push(captioned("  current SSID:   ", or_unknown(ssid).as_str()));
    let clients = match f.clients {
        Some(clients) => to_decimal(clients as u64),
        None => "?".to_string(),
    };
    r.push(captioned("  clients:        ", clients.as_str()));
    r.push(captioned("  configured SSID: ", cfg.hotspot.ssid.as_str()));
    assert(crate::text::texts(r@) =~= hotspot_report(*cfg, *findings));
    r
}

// --- everything ------------------------------------------------------------------

/// The label of the uplink, where one was found.
pub open spec fn uplink_label(findings: Result<HotspotFindings, String>) -> Option<Seq<char>> {
    match findings {
        Ok(f) => Some(f.uplink_profile@),
        Err(_) => None,
    }
}

/// Everything the status command says.
pub open spec fn full_report(
    cfg: Config,
    wifi: Result<&WifiStatus, &str>,
    adapters: Seq<Adapter>,
    findings: Result<HotspotFindings, String>,
) -> Seq<Seq<char>> {
    let hotspot_adapter = crate::uplink::Resolved::of(cfg.hotspot.hotspot_adapter@, adapters);
    wifi_lines(cfg, wifi, adapters) + adapter_report(cfg, adapters, hotspot_adapter, uplink_label(findings)) + hotspot_headings(
        cfg,
        hotspot_adapter,
        uplink_label(findings),
    ) + hotspot_report(cfg, findings)
}

/// The lines of `more` behind those of `lines`.
fn add_lines(lines: &mut Vec<String>, more: Vec<String>)
    ensures
        crate::text::texts(final(lines)@) == crate::text::texts(old(lines)@) + crate::text::texts(
            more@,
        ),
{
    let ghost all = crate::text::texts(lines@) + crate::text::texts(more@);
    let mut more = more;
    lines.append(&mut more);
    assert(crate::text::texts(lines@) =~= all);
}

/// Everything the status command says. The hotspot adapter is resolved once up front so the
/// adapter listing and the hotspot section agree on which adapter is excluded as the
/// hotspot's own, and on which one auto mode actually picked.
pub fn status_report(
    cfg: &Config,
    wifi: Result<&WifiStatus, &str>,
    adapters: &[Adapter],
    findings: &Result<HotspotFindings, String>,
) -> (r: Vec<String>)
    ensures
        crate::text::texts(r@) == full_report(*cfg, wifi, adapters@, *findings),
{
    let hotspot_adapter = resolve_hotspot_adapter(cfg.hotspot.hotspot_adapter.as_str(), adapters);
    let label = match findings {
        Ok(f) => Some(f.uplink_profile.as_str()),
        Err(_) => None,
    };
    let mut r = wifi_section(cfg, wifi, adapters);
    add_lines(&mut r, adapter_section(cfg, adapters, &hotspot_adapter, label));
    add_lines(&mut r, hotspot_heading_lines(cfg, &hotspot_adapter, label));
    add_lines(&mut r, hotspot_section(cfg, findings));
    r
}

// --- laws ------------------------------------------------------------------------

/// The Wi-Fi section ends in what the watchdog makes of the interfaces: connected if some
/// interface is on a network that is not the configured hotspot SSID, case aside, or whose
/// name is unreadable.
pub proof fn law_the_report_says_connected_on_a_real_network(
    cfg: Config,
    status: &WifiStatus,
    adapters: Seq<Adapter>,
    k: int,
)
    requires
        0 <= k < status.interfaces@.len(),
        status.interfaces@[k].connected,
        status.interfaces@[k].ssid is None || crate::text::ascii_lower(
            status.interfaces@[k].ssid->0@,
        ) != crate::text::ascii_lower(cfg.hotspot.ssid@),
    ensures
        wifi_lines(cfg, Ok(status), adapters).last()
            == "  => watchdog sees Wi-Fi as: CONNECTED"@,
{
    crate::wifi::law_a_real_network_counts(*status, cfg.hotspot.ssid@, k);
    reveal_strlit("  => watchdog sees Wi-Fi as: CONNECTED");
    reveal_strlit("  => watchdog sees Wi-Fi as: ");
    reveal_strlit("CONNECTED");
    assert("  => watchdog sees Wi-Fi as: "@ + "CONNECTED"@
        =~= "  => watchdog sees Wi-Fi as: CONNECTED"@);
}

/// The Wi-Fi section ends in what the watchdog makes of the interfaces: disconnected if there
/// are any, and each is off all networks or on one of the configured hotspot SSID, case aside.
pub proof fn law_the_report_says_disconnected_without_a_real_network(
    cfg: Config,
    status: &WifiStatus,
    adapters: Seq<Adapter>,
)
    requires
        status.interfaces@.len() > 0,
        forall|j: int|
            0 <= j < status.interfaces@.len() && (#[trigger] status.interfaces@[j]).connected ==> {
                &&& status.interfaces@[j].ssid is Some
                &&& crate::text::ascii_lower(status.interfaces@[j].ssid->0@)
                    == crate::text::ascii_lower(cfg.hotspot.ssid@)
            },
    ensures
        wifi_lines(cfg, Ok(status), adapters).last()
            == "  => watchdog sees Wi-Fi as: DISCONNECTED"@,
{
    crate::wifi::law_without_a_real_network_none_is_active(*status, Some(cfg.hotspot.ssid@));
    reveal_strlit("  => watchdog sees Wi-Fi as: DISCONNECTED");
    reveal_strlit("  => watchdog sees Wi-Fi as: ");
    reveal_strlit("DISCONNECTED");
    assert("  => watchdog sees Wi-Fi as: "@ + "DISCONNECTED"@
        =~= "  => watchdog sees Wi-Fi as: DISCONNECTED"@);
}

/// The report and the poll that feeds the policy never disagree: what the section ends in is
/// whether the policy is told of a connection.
pub proof fn law_the_report_agrees_with_the_poll(
    w: crate::watchdog::WatchdogView,
    status: &WifiStatus,
    adapters: Seq<Adapter>,
    now: nat,
)
    requires
        status.interfaces@.len() > 0,
    ensures
        wifi_lines(w.cfg, Ok(status), adapters).last()
            == "  => watchdog sees Wi-Fi as: CONNECTED"@ <==> !(w.tick_intent(now, Some(*status))
            == Some(w.policy.intent(now, false))),
{
    let own = w.cfg.hotspot.ssid@;
    reveal_strlit("  => watchdog sees Wi-Fi as: CONNECTED");
    reveal_strlit("  => watchdog sees Wi-Fi as: DISCONNECTED");
    assert("  => watchdog sees Wi-Fi as: CONNECTED"@[29] == 'C');
    assert("  => watchdog sees Wi-Fi as: DISCONNECTED"@[29] == 'D');
    if exists|k: int|
        0 <= k < status.interfaces@.len() && (#[trigger] status.interfaces@[k]).connected && (
        status.interfaces@[k].ssid is None || crate::text::ascii_lower(
            status.interfaces@[k].ssid->0@,
        ) != crate::text::ascii_lower(own)) {
        let k = choose|k: int|
            0 <= k < status.interfaces@.len() && (#[trigger] status.interfaces@[k]).connected && (
            status.interfaces@[k].ssid is None || crate::text::ascii_lower(
                status.interfaces@[k].ssid->0@,
            ) != crate::text::ascii_lower(own));
        law_the_report_says_connected_on_a_real_network(w.cfg, status, adapters, k);
        crate::wifi::law_a_real_network_counts(*status, own, k);
        assert(w.policy.intent(now, true) != w.policy.intent(now, false));
    } else {
        law_the_report_says_disconnected_without_a_real_network(w.cfg, status, adapters);
        crate::wifi::law_without_a_real_network_none_is_active(*status, Some(own));
    }
}

/// Each interface has its line, in order, which names it and says whether it is connected.
pub proof fn law_every_interface_has_its_line(
    cfg: Config,
    status: &WifiStatus,
    adapters: Seq<Adapter>,
    i: int,
)
    requires
        0 <= i < status.interfaces@.len(),
    ensures
        ({
            let lines = wifi_lines(cfg, Ok(status), adapters);
            let interface = status.interfaces@[i];
            &&& lines.len() == status.interfaces@.len() + 2
            &&& lines[0] == "Wi-Fi interfaces:"@
            &&& crate::text::has_prefix(
                lines[i + 1],
                "  "@ + interface.description@ + (if interface.connected {
                    " -- connected "@
                } else {
                    " -- not connected "@
                }) + (match interface.ssid {
                    Some(ssid) => "to '"@ + ssid@ + "'"@,
                    None => Seq::empty(),
                }),
            )
            &&& match crate::adapters::address_of(adapters, interface.description@) {
                Some(ip) => lines[i + 1].len() >= ip.len() && lines[i + 1].skip(
                    lines[i + 1].len() - ip.len(),
                ) == ip,
                None => true,
            }
        }),
{
    reveal_strlit(" -- connected ");
    reveal_strlit(" -- not connected ");
    reveal_strlit(" -- ");
    reveal_strlit("connected");
    reveal_strlit("not connected");
    reveal_strlit(" ");
    assert(" -- "@ + "connected"@ + " "@ =~= " -- connected "@);
    assert(" -- "@ + "not connected"@ + " "@ =~= " -- not connected "@);
    let lines = wifi_lines(cfg, Ok(status), adapters);
    let interface = status.interfaces@[i];
    let line = lines[i + 1];
    assert(line == interface_text(interface, adapters));
    let head = "  "@ + interface.description@ + (if interface.connected {
        " -- connected "@
    } else {
        " -- not connected "@
    }) + (match interface.ssid {
        Some(ssid) => "to '"@ + ssid@ + "'"@,
        None => Seq::empty(),
    });
    assert(line.take(head.len() as int) =~= head);
    if let Some(ip) = crate::adapters::address_of(adapters, interface.description@) {
        assert(line.skip(line.len() - ip.len()) =~= ip);
    }
}

/// Without interfaces, or without a reading, the section says so in one line.
pub proof fn law_nothing_to_report_is_reported(
    cfg: Config,
    status: &WifiStatus,
    e: &str,
    adapters: Seq<Adapter>,
)
    requires
        status.interfaces@.len() == 0,
    ensures
        wifi_lines(cfg, Ok(status), adapters).len() == 2,
        wifi_lines(cfg, Ok(status), adapters)[1] == "  (none found)"@,
        wifi_lines(cfg, Err(e), adapters).len() == 2,
        crate::text::has_prefix(wifi_lines(cfg, Err(e), adapters)[1], "  error: "@),
        wifi_lines(cfg, Err(e), adapters)[1].skip("  error: "@.len() as int) == e@,
{
    let line = "  error: "@ + e@;
    assert(line.take("  error: "@.len() as int) =~= "  error: "@);
    assert(line.skip("  error: "@.len() as int) =~= e@);
}

/// An adapter that the hotspot may be broadcast on is marked as that, whatever else it is; of
/// the others the one that the automatic choice fell on is marked, or those that the config
/// names; and no other is.
pub proof fn law_what_an_adapter_is_marked_as(
    cfg: Config,
    adapter: Adapter,
    hotspot_adapter: crate::uplink::Resolved,
    label: Option<Seq<char>>,
)
    ensures
        ({
            let own = match hotspot_adapter {
                crate::uplink::Resolved::Known(Some(h)) => h.guid == adapter.guid,
                crate::uplink::Resolved::Known(None) => false,
                crate::uplink::Resolved::Ambiguous => adapter.is_wifi,
            };
            let auto = crate::text::ascii_lower(
                crate::text::trimmed(cfg.hotspot.uplink_adapter@),
            ) == "auto"@;
            let mark = role(cfg, adapter, hotspot_adapter, label);
            &&& mark == " <== hotspot adapter (excluded from uplink)"@ <==> own
            &&& mark == " <== auto-selected uplink"@ <==> !own && auto && label == Some(
                adapter.friendly_name@,
            )
            &&& mark == " <== configured uplink"@ <==> !own && !auto && adapter.answers_to(
                cfg.hotspot.uplink_adapter@,
            )
            &&& mark.len() == 0 || mark == " <== hotspot adapter (excluded from uplink)"@ || mark
                == " <== auto-selected uplink"@ || mark == " <== configured uplink"@
        }),
{
    crate::config::law_auto_is_a_word(cfg.hotspot);
    reveal_strlit(" <== hotspot adapter (excluded from uplink)");
    reveal_strlit(" <== auto-selected uplink");
    reveal_strlit(" <== configured uplink");
    reveal_strlit("");
    assert(" <== hotspot adapter (excluded from uplink)"@[5] == 'h');
    assert(" <== auto-selected uplink"@[5] == 'a');
    assert(" <== configured uplink"@[5] == 'c');
    assert(""@.len() == 0);
    assert(" <== hotspot adapter (excluded from uplink)"@.len() > 0);
    assert(" <== auto-selected uplink"@.len() > 0);
    assert(" <== configured uplink"@.len() > 0);
}

/// Each adapter has its line, in order, which begins with its name and its description, shows
/// its addresses, and ends with its mark.
pub proof fn law_every_adapter_has_its_line(
    cfg: Config,
    adapters: Seq<Adapter>,
    hotspot_adapter: crate::uplink::Resolved,
    label: Option<Seq<char>>,
    i: int,
)
    requires
        0 <= i < adapters.len(),
    ensures
        ({
            let lines = adapter_report(cfg, adapters, hotspot_adapter, label);
            let line = lines[i + 1];
            let head = "   '"@ + adapters[i].friendly_name@ + "' ("@ + adapters[i].description@;
            let ips = crate::text::joined(crate::text::texts(adapters[i].ipv4@), ", "@);
            let tail = ") "@ + role(cfg, adapters[i], hotspot_adapter, label) + "."@;
            &&& lines.len() == adapters.len() + 1
            &&& lines[0] == "\nNetwork adapters:"@
            &&& line == if adapters[i].ipv4@.len() == 0 {
                head + tail
            } else {
                head + ", "@ + ips + tail
            }
        }),
{
    let lines = adapter_report(cfg, adapters, hotspot_adapter, label);
    let line = lines[i + 1];
    let head = "   '"@ + adapters[i].friendly_name@ + "' ("@ + adapters[i].description@;
    let ips = crate::text::joined(crate::text::texts(adapters[i].ipv4@), ", "@);
    let tail = ") "@ + role(cfg, adapters[i], hotspot_adapter, label) + "."@;
    if adapters[i].ipv4@.len() == 0 {
        assert(line =~= head + tail);
    } else {
        assert(line =~= head + ", "@ + ips + tail);
    }
}

/// What could be read of the hotspot is shown, each value on a line of its own, and a question
/// mark stands for what could not be; why the hotspot was not found is shown instead if it was
/// not.
pub proof fn law_the_hotspot_section_shows_what_was_read(
    cfg: Config,
    found: HotspotFindings,
    e: String,
)
    ensures
        ({
            let lines = hotspot_report(cfg, Ok::<HotspotFindings, String>(found));
            let failed = hotspot_report(cfg, Err::<HotspotFindings, String>(e));
            let ends = |line: Seq<char>, value: Seq<char>|
                line.len() >= value.len() && line.skip(line.len() - value.len()) == value;
            &&& lines.len() == 5
            &&& ends(lines[0], found.uplink_profile@)
            &&& ends(lines[1], if found.state is Some { found.state->0.text() } else { "?"@ })
            &&& ends(lines[2], if found.ssid is Some { found.ssid->0@ } else { "?"@ })
            &&& ends(
                lines[3],
                if found.clients is Some {
                    crate::text::decimal(found.clients->0 as nat)
                } else {
                    "?"@
                },
            )
            &&& ends(lines[4], cfg.hotspot.ssid@)
            &&& failed.len() == 1
            &&& ends(failed[0], e@)
        }),
{
    let lines = hotspot_report(cfg, Ok::<HotspotFindings, String>(found));
    let failed = hotspot_report(cfg, Err::<HotspotFindings, String>(e));
    let a = found.uplink_profile@;
    assert(lines[0].skip(lines[0].len() - a.len()) =~= a);
    let b = if found.state is Some {
        found.state->0.text()
    } else {
        "?"@
    };
    assert(lines[1].skip(lines[1].len() - b.len()) =~= b);
    let c = if found.ssid is Some {
        found.ssid->0@
    } else {
        "?"@
    };
    assert(lines[2].skip(lines[2].len() - c.len()) =~= c);
    let d = if found.clients is Some {
        crate::text::decimal(found.clients->0 as nat)
    } else {
        "?"@
    };
    assert(lines[3].skip(lines[3].len() - d.len()) =~= d);
    assert(lines[4].skip(lines[4].len() - cfg.hotspot.ssid@.len()) =~= cfg.hotspot.ssid@);
    assert(failed[0].skip(failed[0].len() - e@.len()) =~= e@);
}

/// The report is the Wi-Fi section, then the adapters, then the hotspot; all of it goes by the
/// hotspot adapter that the config resolves to.
pub proof fn law_the_report_has_its_sections_in_order(
    cfg: Config,
    wifi: Result<&WifiStatus, &str>,
    adapters: Seq<Adapter>,
    findings: Result<HotspotFindings, String>,
)
    ensures
        ({
            let all = full_report(cfg, wifi, adapters, findings);
            let first = wifi_lines(cfg, wifi, adapters);
            let own = crate::uplink::Resolved::of(cfg.hotspot.hotspot_adapter@, adapters);
            let label = match findings {
                Ok(f) => Some(f.uplink_profile@),
                Err(_) => None,
            };
            let second = adapter_report(cfg, adapters, own, label);
            let last = hotspot_report(cfg, findings);
            &&& all.take(first.len() as int) == first
            &&& all.subrange(first.len() as int, (first.len() + second.len()) as int) == second
            &&& all.len() == first.len() + second.len() + 2 + last.len()
            &&& all.skip(all.len() - last.len()) == last
        }),
{
    let all = full_report(cfg, wifi, adapters, findings);
    let first = wifi_lines(cfg, wifi, adapters);
    let own = crate::uplink::Resolved::of(cfg.hotspot.hotspot_adapter@, adapters);
    let second = adapter_report(cfg, adapters, own, uplink_label(findings));
    let last = hotspot_report(cfg, findings);
    assert(all.take(first.len() as int) =~= first);
    assert(all.subrange(first.len() as int, (first.len() + second.len()) as int) =~= second);
    assert(all.skip(all.len() - last.len()) =~= last);
}

/// The headings name what is configured, and what it resolves to: the hotspot adapter, and the
/// uplink that was chosen where it is left to automatic choice.
pub proof fn law_the_headings_show_what_is_resolved(
    cfg: Config,
    hotspot_adapter: crate::uplink::Resolved,
    label: Option<Seq<char>>,
)
    ensures
        ({
            let lines = hotspot_headings(cfg, hotspot_adapter, label);
            let auto = crate::text::ascii_lower(
                crate::text::trimmed(cfg.hotspot.uplink_adapter@),
            ) == "auto"@;
            let own = match hotspot_adapter {
                crate::uplink::Resolved::Known(Some(a)) => a.friendly_name@,
                crate::uplink::Resolved::Known(None) => "none detected"@,
                crate::uplink::Resolved::Ambiguous => "multiple Wi-Fi adapters present"@,
            };
            let chosen = if label is Some {
                label->0
            } else {
                "?"@
            };
            let first = "\nHotspot adapter ('"@ + cfg.hotspot.hotspot_adapter@ + "' -> "@ + own;
            let second = if auto {
                "Hotspot (uplink 'auto' -> "@ + chosen
            } else {
                "Hotspot (uplink '"@ + cfg.hotspot.uplink_adapter@ + "'"@
            };
            &&& lines.len() == 2
            &&& crate::text::has_prefix(lines[0], first)
            &&& crate::text::has_prefix(lines[1], second)
        }),
{
    crate::config::law_auto_is_a_word(cfg.hotspot);
    reveal_strlit("'):");
    reveal_strlit("'");
    let lines = hotspot_headings(cfg, hotspot_adapter, label);
    let own = match hotspot_adapter {
        crate::uplink::Resolved::Known(Some(a)) => a.friendly_name@,
        crate::uplink::Resolved::Known(None) => "none detected"@,
        crate::uplink::Resolved::Ambiguous => "multiple Wi-Fi adapters present"@,
    };
    let first = "\nHotspot adapter ('"@ + cfg.hotspot.hotspot_adapter@ + "' -> "@ + own;
    assert(lines[0].take(first.len() as int) =~= first);
    let chosen = "Hotspot (uplink 'auto' -> "@ + or_question_mark(label);
    let named = "Hotspot (uplink '"@ + cfg.hotspot.uplink_adapter@ + "'"@;
    if cfg.hotspot.auto_uplink() {
        assert(lines[1].take(chosen.len() as int) =~= chosen);
    } else {
        assert(lines[1].take(named.len() as int) =~= named);
    }
}

} // verus!
