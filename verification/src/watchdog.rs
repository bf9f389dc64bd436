//! The watchdog: takes what was read each tick, says what to report, and drives the hotspot
//! on and off in response.
//!
//! Reading Windows, waiting, and switching the hotspot are the caller's. A tick goes like
//! this: gather [`Readings`], hand them to [`Watchdog::tick`], deliver what comes back, and do
//! what [`action_for`] says of the intent. To start the hotspot, look for it if
//! [`Watchdog::may_start`] allows, follow [`Watchdog::start_decision`], and tell
//! [`Watchdog::finish_start`] what [`start_result`] makes of how it went; to stop it, follow
//! [`stop_decision`] and tell [`Watchdog::finish_stop`] what [`stop_result`] makes of that.

use crate::adapters::{hotspot_ip, ipv4_of, Adapter};
use crate::companion::{CompanionSession, Delivery, PortInfo};
use crate::config::Config;
use crate::hotspot::State;
use crate::policy::{Intent, OnReconnect, Policy};
use crate::status::{HotspotSnapshot, Status, WifiSnapshot};
use crate::text::{same_text, to_decimal};
use crate::time::Instant;
use crate::wifi::WifiStatus;
use vstd::prelude::*;

verus! {

// --- the live hotspot ------------------------------------------------------------

/// Live hotspot state, queried once per tick and shared by the console status line and
/// the companion status update so neither reads Windows twice.
#[derive(Debug, Clone, PartialEq, Eq)]
pub struct LiveHotspot {
    pub state: State,
    pub ssid: String,
    pub clients: u32,
}

/// What could be read of a hotspot whose uplink was found.
#[derive(Debug, Clone, PartialEq, Eq)]
pub struct HotspotReading {
    pub state: Option<State>,
    pub ssid: Option<String>,
    pub clients: Option<u32>,
}

/// What a reading of the hotspot comes down to: its state, its SSID and how many clients it
/// has, if its state could be read -- see [`query_hotspot`].
pub open spec fn live_facts(cfg: Config, reading: Option<HotspotReading>) -> Option<
    (State, Seq<char>, u32),
> {
    match reading {
        Some(reading) => match reading.state {
            Some(state) => Some(
                (
                    state,
                    match reading.ssid {
                        Some(ssid) => ssid@,
                        None => cfg.hotspot.ssid@,
                    },
                    match reading.clients {
                        Some(clients) => clients,
                        None => 0,
                    },
                ),
            ),
            None => None,
        },
        None => None,
    }
}

/// Best-effort live hotspot query. `None` collapses to "off" everywhere it is used,
/// since the most common cause -- the uplink has no connection profile right now, and so
/// there is no reading -- is routine, not worth alarming over every few seconds. An SSID that
/// cannot be read counts as the configured one.
pub fn query_hotspot(cfg: &Config, reading: Option<HotspotReading>) -> (r: Option<LiveHotspot>)
    ensures
        match r {
            Some(live) => live_facts(*cfg, reading) == Some((live.state, live.ssid@, live.clients)),
            None => live_facts(*cfg, reading) is None,
        },
{
    let reading = match reading {
        Some(reading) => reading,
        None => return None,
    };
    let state = match reading.state {
        Some(state) => state,
        None => return None,
    };
    let ssid = match reading.ssid {
        Some(ssid) => ssid,
        None => cfg.hotspot.ssid.as_str().to_string(),
    };
    let clients: u32 = match reading.clients {
        Some(clients) => clients,
        None => 0,
    };
    Some(LiveHotspot { state, ssid, clients })
}

// --- the status line -------------------------------------------------------------

/// The countdown that an intent adds to the status line.
pub open spec fn countdown(intent: Intent) -> Seq<char> {
    match intent {
        Intent::Waiting { remaining } => " (hotspot in "@ + crate::text::decimal(
            remaining@ / crate::time::NANOS_PER_SEC as nat,
        ) + "s)"@,
        Intent::HoldingForRetry { retry_in } => " (retrying hotspot start in "@
            + crate::text::decimal(retry_in@ / crate::time::NANOS_PER_SEC as nat) + "s)"@,
        _ => Seq::empty(),
    }
}

/// The Wi-Fi half of the status line.
pub open spec fn wifi_text(
    status: WifiStatus,
    adapters: Seq<Adapter>,
    ignore_ssid: Option<Seq<char>>,
    intent: Intent,
) -> Seq<char> {
    (match status.active(ignore_ssid) {
        Some(interface) => "Wi-Fi: connected to '"@ + (match interface.ssid {
            Some(ssid) => ssid@,
            None => "?"@,
        }) + "' ("@ + (match crate::adapters::address_of(adapters, interface.description@) {
            Some(ip) => ip,
            None => "no IP yet"@,
        }) + ")"@,
        None => "Wi-Fi: disconnected"@,
    }) + countdown(intent)
}

/// The Wi-Fi half of the status line: connection, IP, and (while waiting) a countdown.
pub fn wifi_status_text(
    status: &WifiStatus,
    adapters: &[Adapter],
    ignore_ssid: Option<&str>,
    intent: &Intent,
) -> (r: String)
    ensures
        r@ == wifi_text(*status, adapters@, crate::text::text_of(ignore_ssid), *intent),
{
    let mut r = match status.active_interface(ignore_ssid) {
        Some(interface) => {
            let mut r = "Wi-Fi: connected to '".to_string();
            match &interface.ssid {
                Some(ssid) => {
                    r.append(ssid.as_str());
                },
                None => {
                    r.append("?");
                },
            }
            r.append("' (");
            match ipv4_of(adapters, interface.description.as_str()) {
                Some(ip) => {
                    r.append(ip);
                },
                None => {
                    r.append("no IP yet");
                },
            }
            r.append(")");
            r
        },
        None => "Wi-Fi: disconnected".to_string(),
    };
    let ghost wifi = r@;
    match intent {
        Intent::Waiting { remaining } => {
            r.append(" (hotspot in ");
            r.append(to_decimal(remaining.as_secs()).as_str());
            r.append("s)");
        },
        Intent::HoldingForRetry { retry_in } => {
            r.append(" (retrying hotspot start in ");
            r.append(to_decimal(retry_in.as_secs()).as_str());
            r.append("s)");
        },
        _ => {},
    }
    assert(r@ =~= wifi + countdown(*intent));
    r
}

/// The hotspot half of the status line.
pub open spec fn hotspot_text(live: Option<LiveHotspot>, adapters: Seq<Adapter>) -> Seq<char> {
    match live {
        None => "off"@,
        Some(hotspot) => match hotspot.state {
            State::On => match crate::adapters::hotspot_address(adapters) {
                Some(ip) => "on (ssid='"@ + hotspot.ssid@ + "', ip="@ + ip + ", clients="@
                    + crate::text::decimal(hotspot.clients as nat) + ")"@,
                None => "on (ssid='"@ + hotspot.ssid@ + "', clients="@ + crate::text::decimal(
                    hotspot.clients as nat,
                ) + ")"@,
            },
            State::InTransition => "starting/stopping"@,
            State::Off => "off"@,
            State::Unknown => "unknown"@,
        },
    }
}

/// The hotspot half of the status line.
pub fn hotspot_summary_text(live: Option<&LiveHotspot>, adapters: &[Adapter]) -> (r: String)
    ensures
        r@ == hotspot_text(
            match live {
                Some(hotspot) => Some(*hotspot),
                None => None,
            },
            adapters@,
        ),
{
    let hotspot = match live {
        Some(hotspot) => hotspot,
        None => return "off".to_string(),
    };
    match hotspot.state {
        State::On => {
            let mut r = "on (ssid='".to_string();
            r.append(hotspot.ssid.as_str());
            match hotspot_ip(adapters) {
                Some(ip) => {
                    r.append("', ip=");
                    r.append(ip);
                    r.append(", clients=");
                },
                None => {
                    r.append("', clients=");
                },
            }
            r.append(to_decimal(hotspot.clients as u64).as_str());
            r.append(")");
            r
        },
        State::InTransition => "starting/stopping".to_string(),
        State::Off => "off".to_string(),
        State::Unknown => "unknown".to_string(),
    }
}

/// The status line.
pub open spec fn line_text(
    status: WifiStatus,
    adapters: Seq<Adapter>,
    ignore_ssid: Option<Seq<char>>,
    intent: Intent,
    live: Option<LiveHotspot>,
) -> Seq<char> {
    wifi_text(status, adapters, ignore_ssid, intent) + " | Hotspot: "@ + hotspot_text(
        live,
        adapters,
    )
}

/// One readable line summarising what is true right now: Wi-Fi state and IP, hotspot
/// state and IP, and (while waiting) a countdown -- for the console, every tick.
pub fn status_line(
    status: &WifiStatus,
    adapters: &[Adapter],
    ignore_ssid: Option<&str>,
    intent: &Intent,
    live: Option<&LiveHotspot>,
) -> (r: String)
    ensures
        r@ == line_text(
            *status,
            adapters@,
            crate::text::text_of(ignore_ssid),
            *intent,
            match live {
                Some(hotspot) => Some(*hotspot),
                None => None,
            },
        ),
{
    let mut r = wifi_status_text(status, adapters, ignore_ssid, intent);
    r.append(" | Hotspot: ");
    r.append(hotspot_summary_text(live, adapters).as_str());
    r
}

// --- the watchdog ----------------------------------------------------------------

/// The watchdog's persistent state, carried across ticks.
pub struct Watchdog<'a> {
    cfg: &'a Config,
    policy: Policy,
    companion: CompanionSession,
}

/// What a [`Watchdog`] remembers.
pub ghost struct WatchdogView {
    pub cfg: Config,
    pub policy: crate::policy::PolicyView,
    pub companion: crate::companion::SessionView,
}

impl<'a> View for Watchdog<'a> {
    type V = WatchdogView;

    closed spec fn view(&self) -> WatchdogView {
        WatchdogView { cfg: *self.cfg, policy: self.policy@, companion: self.companion@ }
    }
}

/// What was read this tick.
pub struct Readings<'r> {
    /// `None` if the Wi-Fi stack could not be read.
    pub wifi: Option<&'r WifiStatus>,
    pub adapters: &'r [Adapter],
    pub hotspot: Option<&'r LiveHotspot>,
    pub ports: &'r [PortInfo],
}

/// What a tick calls for.
pub struct Tick {
    /// What to do about the companion, where one is enabled.
    pub delivery: Option<Delivery>,
    /// The status line for the console, where Wi-Fi could be read.
    pub line: Option<String>,
    /// What the policy decided, where Wi-Fi could be read.
    pub intent: Option<Intent>,
}

impl<'r> Readings<'r> {
    /// The Wi-Fi status, if it could be read.
    pub open spec fn wifi_status(self) -> Option<WifiStatus> {
        match self.wifi {
            Some(status) => Some(*status),
            None => None,
        }
    }

    /// The live hotspot, if there is one.
    pub open spec fn live_hotspot(self) -> Option<LiveHotspot> {
        match self.hotspot {
            Some(hotspot) => Some(*hotspot),
            None => None,
        }
    }
}

impl WatchdogView {
    /// A watchdog that has seen nothing yet, made at `now`.
    pub open spec fn fresh(cfg: Config, now: nat) -> WatchdogView {
        WatchdogView {
            cfg,
            policy: crate::policy::PolicyView::fresh(
                (cfg.monitor.disconnect_threshold_secs * crate::time::NANOS_PER_SEC) as nat,
                if cfg.monitor.auto_disable_on_reconnect {
                    OnReconnect::StopHotspot
                } else {
                    OnReconnect::LeaveHotspotOn
                },
                (crate::policy::RETRY_BACKOFF_SECS * crate::time::NANOS_PER_SEC) as nat,
            ),
            companion: crate::companion::SessionView {
                cfg: cfg.companion,
                last_status: Map::empty(),
                last_state_change: now,
                log_missing_companion: true,
            },
        }
    }

    /// What the policy makes of a tick, where Wi-Fi could be read.
    pub open spec fn tick_intent(self, now: nat, wifi: Option<WifiStatus>) -> Option<
        crate::policy::IntentView,
    > {
        match wifi {
            Some(status) => Some(
                self.policy.intent(now, status.active(self.ignore_ssid()) is Some),
            ),
            None => None,
        }
    }

    /// Our own hotspot's SSID, which never counts as Wi-Fi being back -- see
    /// [`WifiStatus::active_interface`].
    pub open spec fn ignore_ssid(self) -> Option<Seq<char>> {
        Some(self.cfg.hotspot.ssid@)
    }

    /// What the companion is told of Wi-Fi.
    pub open spec fn wifi_facts(
        self,
        wifi: Option<WifiStatus>,
        adapters: Seq<Adapter>,
    ) -> crate::status::WifiFacts {
        match wifi {
            Some(status) => crate::status::WifiFacts {
                wifi_ok: true,
                radio_enabled: status.usable(),
                connected: status.active(self.ignore_ssid()) is Some,
                ssid: match status.active(self.ignore_ssid()) {
                    Some(interface) => crate::text::string_of(interface.ssid),
                    None => None,
                },
                ip_address: match status.active(self.ignore_ssid()) {
                    Some(interface) => crate::adapters::address_of(
                        adapters,
                        interface.description@,
                    ),
                    None => None,
                },
            },
            None => crate::status::WifiFacts {
                wifi_ok: false,
                radio_enabled: true,
                connected: false,
                ssid: None,
                ip_address: None,
            },
        }
    }

    /// What the companion is told of the hotspot.
    pub open spec fn hotspot_facts(
        self,
        live: Option<LiveHotspot>,
        adapters: Seq<Adapter>,
    ) -> Option<crate::status::HotspotFacts> {
        match live {
            Some(hotspot) => Some(
                crate::status::HotspotFacts {
                    on: hotspot.state == State::On,
                    ssid: self.cfg.hotspot.ssid@,
                    password: self.cfg.hotspot.passphrase@,
                    ip_address: crate::adapters::hotspot_address(adapters),
                },
            ),
            None => None,
        }
    }

    /// This tick's status for the companion.
    pub open spec fn companion_report(
        self,
        wifi: Option<WifiStatus>,
        adapters: Seq<Adapter>,
        live: Option<LiveHotspot>,
    ) -> Map<Seq<char>, Seq<char>> {
        crate::status::report(
            self.wifi_facts(wifi, adapters),
            self.hotspot_facts(live, adapters),
        )
    }

    /// What is sent to a companion at a tick.
    pub open spec fn companion_update(
        self,
        now: nat,
        wifi: Option<WifiStatus>,
        adapters: Seq<Adapter>,
        live: Option<LiveHotspot>,
    ) -> Map<Seq<char>, Seq<char>> {
        self.companion.update(now, self.companion_report(wifi, adapters, live))
    }

    /// The watchdog after a tick.
    pub open spec fn after_tick(
        self,
        now: nat,
        wifi: Option<WifiStatus>,
        adapters: Seq<Adapter>,
        live: Option<LiveHotspot>,
        ports: Seq<PortInfo>,
    ) -> WatchdogView {
        WatchdogView {
            cfg: self.cfg,
            policy: match wifi {
                Some(status) => self.policy.after_poll(
                    now,
                    status.active(self.ignore_ssid()) is Some,
                ),
                None => self.policy,
            },
            companion: if self.cfg.companion.enabled {
                self.companion.after(
                    now,
                    self.companion_report(wifi, adapters, live),
                    crate::companion::companion_port(self.companion.cfg, ports) is Some,
                )
            } else {
                self.companion
            },
        }
    }
}

impl<'a> Watchdog<'a> {
    /// A watchdog that has seen nothing yet.
    pub fn new(cfg: &'a Config, now: Instant) -> (w: Self)
        ensures
            w@ == WatchdogView::fresh(*cfg, now@),
    {
        let on_reconnect = if cfg.monitor.auto_disable_on_reconnect {
            OnReconnect::StopHotspot
        } else {
            OnReconnect::LeaveHotspotOn
        };
        Self {
            cfg,
            policy: Policy::new(cfg.monitor.disconnect_threshold(), on_reconnect),
            companion: CompanionSession::new(cfg.companion, now),
        }
    }

    /// Build this tick's status for the companion, from the wifi/adapter/hotspot
    /// snapshots already gathered for the console status line.
    pub fn companion_status(&self, readings: &Readings) -> (s: Status)
        ensures
            s@ == self@.companion_report(
                readings.wifi_status(),
                readings.adapters@,
                readings.live_hotspot(),
            ),
    {
        let ignore_ssid = Some(self.cfg.hotspot.ssid.as_str());
        let wifi = match readings.wifi {
            Some(status) => match status.active_interface(ignore_ssid) {
                Some(interface) => WifiSnapshot {
                    wifi_ok: true,
                    radio_enabled: status.radio_enabled(),
                    connected: true,
                    ssid: match &interface.ssid {
                        Some(ssid) => Some(ssid.as_str()),
                        None => None,
                    },
                    ip_address: ipv4_of(readings.adapters, interface.description.as_str()),
                },
                None => WifiSnapshot {
                    wifi_ok: true,
                    radio_enabled: status.radio_enabled(),
                    connected: false,
                    ssid: None,
                    ip_address: None,
                },
            },
            // An unreadable Wi-Fi stack is "state unknown": still worth reporting.
            None => WifiSnapshot {
                wifi_ok: false,
                radio_enabled: true,
                connected: false,
                ssid: None,
                ip_address: None,
            },
        };
        match readings.hotspot {
            Some(live) => {
                let hotspot = HotspotSnapshot {
                    on: live.state == State::On,
                    ssid: self.cfg.hotspot.ssid.as_str(),
                    password: self.cfg.hotspot.passphrase.as_str(),
                    ip_address: hotspot_ip(readings.adapters),
                };
                Status::new(&wifi, Some(&hotspot))
            },
            None => Status::new(&wifi, None),
        }
    }

    /// One poll: work out what to report, and what to do.
    ///
    /// An unreadable Wi-Fi stack is worth a companion status update, but not worth feeding a
    /// guess into the policy.
    pub fn tick(&mut self, now: Instant, readings: &Readings) -> (r: Tick)
        ensures
            final(self)@ == old(self)@.after_tick(
                now@,
                readings.wifi_status(),
                readings.adapters@,
                readings.live_hotspot(),
                readings.ports@,
            ),
            r.delivery is Some == old(self)@.cfg.companion.enabled,
            r.delivery matches Some(delivery) ==> ({
                let update = old(self)@.companion_update(
                    now@,
                    readings.wifi_status(),
                    readings.adapters@,
                    readings.live_hotspot(),
                );
                let port = crate::companion::companion_port(
                    old(self)@.companion.cfg,
                    readings.ports@,
                );
                match delivery {
                    Delivery::Send { companion, status } => {
                        &&& port is Some
                        &&& companion.port_name@ == port->0.name@
                        &&& status@ == update
                    },
                    Delivery::Missing { warn } => {
                        &&& port is None
                        &&& warn == old(self)@.companion.log_missing_companion
                    },
                }
            }),
            match r.intent {
                Some(intent) => old(self)@.tick_intent(now@, readings.wifi_status()) == Some(
                    intent@,
                ),
                None => old(self)@.tick_intent(now@, readings.wifi_status()) is None,
            },
            match readings.wifi_status() {
                Some(status) => {
                    &&& r.intent is Some
                    &&& r.line is Some
                    &&& r.line->0@ == line_text(
                        status,
                        readings.adapters@,
                        old(self)@.ignore_ssid(),
                        r.intent->0,
                        readings.live_hotspot(),
                    )
                },
                None => r.intent is None && r.line is None,
            },
    {
        let delivery = if self.cfg.companion.enabled {
            let report = self.companion_status(readings);
            Some(self.companion.report(now, report, readings.ports))
        } else {
            None
        };
        let status = match readings.wifi {
            Some(status) => status,
            None => return Tick { delivery, line: None, intent: None },
        };
        let ignore_ssid = Some(self.cfg.hotspot.ssid.as_str());
        let intent = self.policy.evaluate(now, status.is_connected(ignore_ssid));
        let line = status_line(
            status,
            readings.adapters,
            ignore_ssid,
            &intent,
            readings.hotspot,
        );
        Tick { delivery, line: Some(line), intent: Some(intent) }
    }

    /// May the hotspot be started at all, as far as Wi-Fi goes?
    pub fn may_start(&self, status: &WifiStatus) -> (r: Result<(), &'static str>)
        ensures
            match r {
                Ok(()) => start_refusal(*status) is None,
                Err(e) => start_refusal(*status) == Some(e@),
            },
    {
        if status.radio_enabled() {
            Ok(())
        } else {
            Err(
                "Wi-Fi is turned off; not starting the hotspot (Mobile Hotspot needs the Wi-Fi radio on to broadcast)",
            )
        }
    }

    /// How to bring the hotspot up, given what Wi-Fi is like, and the state the hotspot is in
    /// and the SSID it has, as far as they could be read: not at all if it is already up or
    /// mid-transition. There is no way while the Wi-Fi radio is off, nor for a hotspot whose
    /// state could not be read.
    pub fn start_decision(
        &self,
        status: &WifiStatus,
        state: Option<State>,
        current_ssid: Option<&str>,
    ) -> (r: Option<StartDecision>)
        ensures
            r == start_plan(
                status.usable(),
                state,
                crate::text::text_of(current_ssid),
                self@.cfg.hotspot.ssid@,
            ),
    {
        if !status.radio_enabled() {
            return None;
        }
        let state = match state {
            Some(state) => state,
            None => {
                return None;
            },
        };
        let decision = match state {
            State::On => {
                // Only worth mentioning if it's broadcasting an SSID we didn't configure
                // -- if it matches ours, this is just our own hotspot, started on an
                // earlier tick, still running. Somebody else's stays under manual
                // control, including on reconnect.
                let is_ours = match current_ssid {
                    Some(ssid) => same_text(ssid, self.cfg.hotspot.ssid.as_str()),
                    None => false,
                };
                StartDecision::LeaveOn { mention: !is_ours }
            },
            State::InTransition => StartDecision::Wait,
            State::Off => StartDecision::Start,
            State::Unknown => StartDecision::Start,
        };
        Some(decision)
    }

    /// Record how an attempt to start the hotspot at `now` went.
    pub fn finish_start(&mut self, now: Instant, result: StartResult)
        requires
            result == StartResult::Failed ==> now@ + old(self)@.policy.retry_backoff
                <= crate::time::MAX_NANOS,
        ensures
            final(self)@ == old(self)@.after_start(now@, result),
    {
        match result {
            StartResult::Started => self.policy.record_started(),
            StartResult::NotNeeded => {},
            StartResult::Failed => self.policy.record_start_failure(now),
        }
    }

    /// Record how an attempt to stop the hotspot went.
    pub fn finish_stop(&mut self, result: StopResult)
        ensures
            final(self)@ == old(self)@.after_stop(result),
    {
        match result {
            StopResult::Stopped => self.policy.record_stopped(),
            StopResult::NotYet => {},
            // Keep ownership on failure so the next reconnect tries again.
            StopResult::Failed => {},
        }
    }
}

/// Why the hotspot may not be started, as far as Wi-Fi goes, if it may not.
pub open spec fn start_refusal(status: WifiStatus) -> Option<Seq<char>> {
    if status.usable() {
        None
    } else {
        Some(
            "Wi-Fi is turned off; not starting the hotspot (Mobile Hotspot needs the Wi-Fi radio on to broadcast)"@,
        )
    }
}

/// What an intent asks to be done to the hotspot.
#[derive(Debug, Clone, Copy, PartialEq, Eq, Structural)]
pub enum Action {
    Nothing,
    StartHotspot,
    StopHotspot,
}

/// What an intent asks to be done to the hotspot.
pub open spec fn asked_for(intent: crate::policy::IntentView) -> Action {
    match intent {
        crate::policy::IntentView::StartHotspot { .. } => Action::StartHotspot,
        crate::policy::IntentView::WifiRestored { stop_hotspot, .. } => if stop_hotspot {
            Action::StopHotspot
        } else {
            Action::Nothing
        },
        _ => Action::Nothing,
    }
}

/// What an intent asks to be done to the hotspot.
pub fn action_for(intent: &Intent) -> (r: Action)
    ensures
        r == asked_for(intent@),
{
    match intent {
        Intent::StartHotspot { .. } => Action::StartHotspot,
        Intent::WifiRestored { stop_hotspot, .. } => if *stop_hotspot {
            Action::StopHotspot
        } else {
            Action::Nothing
        },
        _ => Action::Nothing,
    }
}

/// What is worth telling the user about an intent, if anything.
pub open spec fn announced(intent: crate::policy::IntentView) -> Option<Seq<char>> {
    match intent {
        crate::policy::IntentView::WifiLost => Some("Wi-Fi disconnected; starting countdown"@),
        crate::policy::IntentView::StartHotspot { .. } => Some(
            "Wi-Fi has been down past the threshold; bringing the hotspot up"@,
        ),
        crate::policy::IntentView::WifiRestored { .. } => Some("Wi-Fi reconnected"@),
        _ => None,
    }
}

/// What is worth telling the user about an intent, if anything.
pub fn announcement(intent: &Intent) -> (r: Option<&'static str>)
    ensures
        crate::text::text_of(r) == announced(intent@),
{
    match intent {
        Intent::WifiLost => Some("Wi-Fi disconnected; starting countdown"),
        Intent::StartHotspot { .. } => Some(
            "Wi-Fi has been down past the threshold; bringing the hotspot up",
        ),
        Intent::WifiRestored { .. } => Some("Wi-Fi reconnected"),
        _ => None,
    }
}

/// How to bring the hotspot up.
#[derive(Debug, Clone, Copy, PartialEq, Eq, Structural)]
pub enum StartDecision {
    /// It is already on. `mention` it if it isn't ours.
    LeaveOn { mention: bool },
    /// It is mid-transition; wait for it to settle.
    Wait,
    /// Switch it on.
    Start,
}

/// How to bring the hotspot up, if the Wi-Fi radio is on and the hotspot's state was read.
pub open spec fn start_plan(
    radio_on: bool,
    state: Option<State>,
    current_ssid: Option<Seq<char>>,
    ssid: Seq<char>,
) -> Option<StartDecision> {
    if !radio_on {
        None
    } else {
        match state {
            None => None,
            Some(State::On) => Some(
                StartDecision::LeaveOn { mention: current_ssid != Some(ssid) },
            ),
            Some(State::InTransition) => Some(StartDecision::Wait),
            Some(State::Off) => Some(StartDecision::Start),
            Some(State::Unknown) => Some(StartDecision::Start),
        }
    }
}

/// How an attempt to start the hotspot went.
#[derive(Debug, Clone, Copy, PartialEq, Eq, Structural)]
pub enum StartResult {
    /// We switched it on.
    Started,
    /// There was nothing to do, or nothing to do yet.
    NotNeeded,
    /// It could not be switched on, or it could not be found out whether it should be.
    Failed,
}

/// What an attempt to start the hotspot came to. One that no decision could be made about has
/// failed. Only a hotspot that was off and that we switched on was started by us.
pub open spec fn result_of_start(
    decision: Option<StartDecision>,
    switched_on: bool,
) -> StartResult {
    match decision {
        None => StartResult::Failed,
        Some(StartDecision::Start) => if switched_on {
            StartResult::Started
        } else {
            StartResult::Failed
        },
        Some(_) => StartResult::NotNeeded,
    }
}

/// What an attempt to start the hotspot came to, given what was decided, if anything;
/// `switched_on` is whether switching the hotspot on worked, where that was to be done.
pub fn start_result(decision: Option<StartDecision>, switched_on: bool) -> (r: StartResult)
    ensures
        r == result_of_start(decision, switched_on),
{
    match decision {
        None => StartResult::Failed,
        Some(StartDecision::Start) => if switched_on {
            StartResult::Started
        } else {
            StartResult::Failed
        },
        Some(_) => StartResult::NotNeeded,
    }
}

/// How to take the hotspot down.
#[derive(Debug, Clone, Copy, PartialEq, Eq, Structural)]
pub enum StopDecision {
    /// It is already off.
    AlreadyOff,
    /// It is mid-transition; wait for it to settle.
    Wait,
    /// Switch it off.
    Stop,
}

/// How an attempt to stop the hotspot went.
#[derive(Debug, Clone, Copy, PartialEq, Eq, Structural)]
pub enum StopResult {
    /// It is off.
    Stopped,
    /// It is mid-transition.
    NotYet,
    /// It could not be switched off, or it could not be found out whether it should be.
    Failed,
}

/// How to take the hotspot down, if its state was read.
pub open spec fn stop_plan(state: Option<State>) -> Option<StopDecision> {
    match state {
        None => None,
        Some(State::Off) => Some(StopDecision::AlreadyOff),
        Some(State::InTransition) => Some(StopDecision::Wait),
        Some(State::On) => Some(StopDecision::Stop),
        Some(State::Unknown) => Some(StopDecision::Stop),
    }
}

/// How to take the hotspot back down after Wi-Fi returns, given the state it is in, as far as
/// that could be read. There is no way for a hotspot whose state could not be.
pub fn stop_decision(state: Option<State>) -> (r: Option<StopDecision>)
    ensures
        r == stop_plan(state),
{
    match state {
        None => None,
        Some(State::Off) => Some(StopDecision::AlreadyOff),
        Some(State::InTransition) => Some(StopDecision::Wait),
        Some(State::On) => Some(StopDecision::Stop),
        Some(State::Unknown) => Some(StopDecision::Stop),
    }
}

/// What an attempt to stop the hotspot came to. One that no decision could be made about has
/// failed.
pub open spec fn result_of_stop(decision: Option<StopDecision>, switched_off: bool) -> StopResult {
    match decision {
        None => StopResult::Failed,
        Some(StopDecision::AlreadyOff) => StopResult::Stopped,
        Some(StopDecision::Wait) => StopResult::NotYet,
        Some(StopDecision::Stop) => if switched_off {
            StopResult::Stopped
        } else {
            StopResult::Failed
        },
    }
}

/// What an attempt to stop the hotspot came to, given what was decided, if anything;
/// `switched_off` is whether switching the hotspot off worked, where that was to be done.
pub fn stop_result(decision: Option<StopDecision>, switched_off: bool) -> (r: StopResult)
    ensures
        r == result_of_stop(decision, switched_off),
{
    match decision {
        None => StopResult::Failed,
        Some(StopDecision::AlreadyOff) => StopResult::Stopped,
        Some(StopDecision::Wait) => StopResult::NotYet,
        Some(StopDecision::Stop) => if switched_off {
            StopResult::Stopped
        } else {
            StopResult::Failed
        },
    }
}

impl WatchdogView {
    /// The watchdog after an attempt to start the hotspot.
    pub open spec fn after_start(self, now: nat, result: StartResult) -> WatchdogView {
        WatchdogView {
            policy: match result {
                StartResult::Started => self.policy.after_started(),
                StartResult::NotNeeded => self.policy,
                StartResult::Failed => self.policy.after_start_failure(now),
            },
            ..self
        }
    }

    /// The watchdog after an attempt to stop the hotspot.
    pub open spec fn after_stop(self, result: StopResult) -> WatchdogView {
        WatchdogView {
            policy: match result {
                StopResult::Stopped => self.policy.after_stopped(),
                StopResult::NotYet => self.policy,
                StopResult::Failed => self.policy,
            },
            ..self
        }
    }

    /// The watchdog after the whole of an attempt to start the hotspot: what was found was
    /// decided about, the decision was followed, and how that went was recorded.
    pub open spec fn after_start_attempt(
        self,
        now: nat,
        radio_on: bool,
        state: Option<State>,
        current_ssid: Option<Seq<char>>,
        switched_on: bool,
    ) -> WatchdogView {
        self.after_start(
            now,
            result_of_start(
                start_plan(radio_on, state, current_ssid, self.cfg.hotspot.ssid@),
                switched_on,
            ),
        )
    }

    /// The watchdog after the whole of an attempt to stop the hotspot.
    pub open spec fn after_stop_attempt(
        self,
        state: Option<State>,
        switched_off: bool,
    ) -> WatchdogView {
        self.after_stop(result_of_stop(stop_plan(state), switched_off))
    }
}

// --- laws ------------------------------------------------------------------------

/// A Wi-Fi stack that cannot be read changes nothing about the hotspot: the policy hears
/// nothing, and so neither the countdown nor the ownership of the hotspot moves.
pub proof fn law_an_unreadable_wifi_decides_nothing(
    w: WatchdogView,
    now: nat,
    adapters: Seq<Adapter>,
    live: Option<LiveHotspot>,
    ports: Seq<PortInfo>,
)
    ensures
        w.after_tick(now, None, adapters, live, ports).policy == w.policy,
        w.companion_report(None, adapters, live) == Map::<Seq<char>, Seq<char>>::empty().insert(
            crate::status::STATE@,
            "unknown"@,
        ),
{
}

/// What is read at one tick of a run.
pub ghost struct Moment {
    pub now: nat,
    pub wifi: Option<WifiStatus>,
    pub adapters: Seq<Adapter>,
    pub live: Option<LiveHotspot>,
    pub ports: Seq<PortInfo>,
}

impl WatchdogView {
    /// The watchdog after several ticks.
    pub open spec fn run(self, moments: Seq<Moment>) -> WatchdogView
        decreases moments.len(),
    {
        if moments.len() == 0 {
            self
        } else {
            let m = moments.last();
            self.run(moments.drop_last()).after_tick(m.now, m.wifi, m.adapters, m.live, m.ports)
        }
    }

    /// Does a tick find no Wi-Fi: is it unreadable, or on no network but our own hotspot's?
    pub open spec fn finds_no_wifi(self, moment: Moment) -> bool {
        moment.wifi matches Some(status) ==> status.active(self.ignore_ssid()) is None
    }
}

/// Losing Wi-Fi brings the hotspot up: from the first tick that finds Wi-Fi disconnected on,
/// and while no later one finds it connected, the hotspot is not asked for until the
/// configured threshold has passed, and is asked for at every readable tick after that. What
/// is read of adapters, ports and the hotspot makes no difference, nor do ticks at which Wi-Fi
/// is unreadable.
pub proof fn law_losing_wifi_brings_the_hotspot_up(
    w: WatchdogView,
    lost: Moment,
    later: Seq<Moment>,
    now: nat,
)
    requires
        w.policy.threshold == w.cfg.monitor.disconnect_threshold_secs
            * crate::time::NANOS_PER_SEC,
        w.policy.disconnected_since is None,
        w.policy.retry_after is None,
        lost.wifi is Some,
        w.finds_no_wifi(lost),
        forall|i: int| 0 <= i < later.len() ==> w.finds_no_wifi(#[trigger] later[i]),
        lost.now <= now,
    ensures
        ({
            let after = w.after_tick(
                lost.now,
                lost.wifi,
                lost.adapters,
                lost.live,
                lost.ports,
            ).run(later);
            &&& after.cfg == w.cfg
            &&& after.policy == w.policy.after_poll(lost.now, false)
            &&& asked_for(after.policy.intent(now, false)) == if now - lost.now
                < w.cfg.monitor.disconnect_threshold_secs * crate::time::NANOS_PER_SEC {
                Action::Nothing
            } else {
                Action::StartHotspot
            }
        }),
    decreases later.len(),
{
    if later.len() > 0 {
        let rest = later.drop_last();
        assert forall|i: int| 0 <= i < rest.len() implies w.finds_no_wifi(
            #[trigger] rest[i],
        ) by {
            assert(rest[i] == later[i]);
        }
        law_losing_wifi_brings_the_hotspot_up(w, lost, rest, now);
        assert(w.finds_no_wifi(later[later.len() - 1]));
        assert(later.last() == later[later.len() - 1]);
    }
}

/// Being connected to nothing but our own hotspot is being disconnected: it never asks for
/// the hotspot to be stopped.
pub proof fn law_our_own_hotspot_does_not_stop_itself(
    w: WatchdogView,
    now: nat,
    status: WifiStatus,
)
    requires
        forall|i: int|
            0 <= i < status.interfaces@.len() && (
            #[trigger] status.interfaces@[i]).connected ==> status.interfaces@[i].ssid is Some
                && crate::text::ascii_lower(status.interfaces@[i].ssid->0@)
                == crate::text::ascii_lower(w.cfg.hotspot.ssid@),
    ensures
        status.active(w.ignore_ssid()) is None,
        asked_for(w.policy.intent(now, status.active(w.ignore_ssid()) is Some))
            != Action::StopHotspot,
{
    crate::lists::lemma_first_missing(
        status.interfaces@,
        |i: crate::wifi::InterfaceStatus| i.counts(w.ignore_ssid()),
    );
}

/// A hotspot that was found already on stays under manual control: it is left on, following
/// that decision does not make it ours, and unless an earlier one was, no reconnection asks
/// for it to be stopped.
pub proof fn law_a_foreign_hotspot_is_left_alone(
    w: WatchdogView,
    started_at: nat,
    radio_on: bool,
    current_ssid: Option<Seq<char>>,
    switched_on: bool,
    now: nat,
    wifi_connected: bool,
)
    requires
        !w.policy.started_by_us,
    ensures
        ({
            let state = Some(State::On);
            let decision = start_plan(radio_on, state, current_ssid, w.cfg.hotspot.ssid@);
            let after = w.after_start_attempt(
                started_at,
                radio_on,
                state,
                current_ssid,
                switched_on,
            );
            &&& decision matches Some(how) ==> how is LeaveOn
            &&& decision is Some == radio_on
            &&& !after.policy.started_by_us
            &&& asked_for(after.policy.intent(now, wifi_connected)) != Action::StopHotspot
        }),
{
}

/// What we started is ours until it is known to be off: a stop that failed, be it that the
/// hotspot was not found, or that found the hotspot mid-transition, is asked for again at the
/// next reconnection.
pub proof fn law_ownership_outlives_a_failed_stop(
    w: WatchdogView,
    state: Option<State>,
    switched_off: bool,
    lost_at: nat,
    back_at: nat,
)
    requires
        w.policy.started_by_us,
        w.policy.on_reconnect == OnReconnect::StopHotspot,
        w.policy.disconnected_since is None,
        result_of_stop(stop_plan(state), switched_off) != StopResult::Stopped,
    ensures
        asked_for(
            w.after_stop_attempt(state, switched_off).policy.after_poll(lost_at, false).intent(
                back_at,
                true,
            ),
        ) == Action::StopHotspot,
{
}

/// A hotspot ceases to be ours by being found off, or by being switched off by us, and by
/// nothing else; one whose state cannot be read, or that is mid-transition, is not switched
/// off.
pub proof fn law_only_what_is_off_is_given_up(
    w: WatchdogView,
    state: Option<State>,
    switched_off: bool,
)
    ensures
        stop_plan(state) == Some(StopDecision::Stop) <==> state == Some(State::On) || state == Some(
            State::Unknown,
        ),
        w.after_stop_attempt(state, switched_off).policy.started_by_us == (w.policy.started_by_us
            && state != Some(State::Off) && !(switched_off && stop_plan(state) == Some(
            StopDecision::Stop,
        ))),
{
}

/// The hotspot is switched on only while the Wi-Fi radio is on, and only if it is known to be
/// neither on nor mid-transition.
pub proof fn law_nothing_is_switched_on_without_the_radio(
    radio_on: bool,
    state: Option<State>,
    current_ssid: Option<Seq<char>>,
    ssid: Seq<char>,
)
    ensures
        start_plan(radio_on, state, current_ssid, ssid) == Some(StartDecision::Start) <==> radio_on
            && (state == Some(State::Off) || state == Some(State::Unknown)),
{
}

/// An attempt to start the hotspot while the Wi-Fi radio is off, or without knowing the
/// hotspot's state, decides nothing and has failed: whose hotspot it is stays as it was, the
/// hotspot is not asked for again until the backoff is over, and it is then, in an outage that
/// has lasted for the threshold.
pub proof fn law_an_attempt_that_cannot_be_made_backs_off(
    w: WatchdogView,
    tried_at: nat,
    radio_on: bool,
    state: Option<State>,
    current_ssid: Option<Seq<char>>,
    switched_on: bool,
    now: nat,
)
    requires
        !radio_on || state is None,
    ensures
        ({
            let after = w.after_start_attempt(
                tried_at,
                radio_on,
                state,
                current_ssid,
                switched_on,
            );
            &&& start_plan(radio_on, state, current_ssid, w.cfg.hotspot.ssid@) is None
            &&& after == w.after_start(tried_at, StartResult::Failed)
            &&& after.policy.started_by_us == w.policy.started_by_us
            &&& now < tried_at + w.policy.retry_backoff ==> asked_for(
                after.policy.intent(now, false),
            ) != Action::StartHotspot
            &&& now >= tried_at + w.policy.retry_backoff && w.policy.disconnected_since is Some
                && crate::time::elapsed(w.policy.disconnected_since->0, now)
                >= w.policy.threshold ==> asked_for(after.policy.intent(now, false))
                == Action::StartHotspot
        }),
{
}

/// A hotspot becomes ours by being switched on by us, with the Wi-Fi radio on and when it was
/// not on before, and by nothing else.
pub proof fn law_only_what_we_switched_on_is_ours(
    w: WatchdogView,
    started_at: nat,
    radio_on: bool,
    state: Option<State>,
    current_ssid: Option<Seq<char>>,
    switched_on: bool,
)
    ensures
        w.after_start_attempt(
            started_at,
            radio_on,
            state,
            current_ssid,
            switched_on,
        ).policy.started_by_us == (w.policy.started_by_us || (radio_on && switched_on && (state
            == Some(State::Off) || state == Some(State::Unknown)))),
{
}

/// A hotspot that we started is asked to stop as Wi-Fi comes back, if so configured, and not
/// otherwise.
pub proof fn law_what_we_started_is_stopped_on_reconnect(
    w: WatchdogView,
    started_at: nat,
    back_at: nat,
)
    requires
        w.policy.disconnected_since is Some,
    ensures
        asked_for(w.after_start(started_at, StartResult::Started).policy.intent(back_at, true))
            == if w.policy.on_reconnect == OnReconnect::StopHotspot {
            Action::StopHotspot
        } else {
            Action::Nothing
        },
{
}

/// After a start that failed, the hotspot is not asked for again until the backoff is over.
pub proof fn law_a_failed_start_is_not_repeated_at_once(w: WatchdogView, failed_at: nat, now: nat)
    requires
        now < failed_at + w.policy.retry_backoff,
    ensures
        asked_for(w.after_start(failed_at, StartResult::Failed).policy.intent(now, false))
            != Action::StartHotspot,
{
}

/// The companion is told that Wi-Fi is off if and only if Wi-Fi could be read, there are
/// interfaces, and the radio of every one of them is off; it is then told nothing else.
pub proof fn law_the_companion_is_told_when_wifi_is_switched_off(
    w: WatchdogView,
    wifi: Option<WifiStatus>,
    adapters: Seq<Adapter>,
    live: Option<LiveHotspot>,
)
    ensures
        ({
            let report = w.companion_report(wifi, adapters, live);
            let off = wifi matches Some(status) && status.interfaces@.len() > 0 && forall|k: int|
                0 <= k < status.interfaces@.len() ==> !(
                #[trigger] status.interfaces@[k]).radio_enabled;
            &&& report.contains_key("s"@)
            &&& report["s"@] == "wifi-off"@ <==> off
            &&& off ==> report == Map::<Seq<char>, Seq<char>>::empty().insert(
                "s"@,
                "wifi-off"@,
            )
        }),
{
    lemma_words();
    if let Some(status) = wifi {
        if !status.usable() {
            assert forall|k: int| 0 <= k < status.interfaces@.len() implies !(
            #[trigger] status.interfaces@[k]).radio_enabled by {}
        }
    }
}

/// The keys and states of a report are told apart.
proof fn lemma_words()
    ensures
        "s"@ != "i"@,
        "s"@ != "p"@,
        "s"@ != "a"@,
        "i"@ != "p"@,
        "i"@ != "a"@,
        "p"@ != "a"@,
        "unknown"@[0] == 'u',
        "wifi-off"@[0] == 'w',
        "connected"@[0] == 'c',
        "hotspot"@[0] == 'h',
        "disconnected"@[0] == 'd',
{
    reveal_strlit("s");
    reveal_strlit("i");
    reveal_strlit("p");
    reveal_strlit("a");
    reveal_strlit("unknown");
    reveal_strlit("wifi-off");
    reveal_strlit("connected");
    reveal_strlit("hotspot");
    reveal_strlit("disconnected");
    assert("s"@[0] == 's');
    assert("i"@[0] == 'i');
    assert("p"@[0] == 'p');
    assert("a"@[0] == 'a');
}

/// The companion is told that the state is unknown if and only if Wi-Fi could not be read.
pub proof fn law_the_companion_is_told_when_wifi_is_unreadable(
    w: WatchdogView,
    wifi: Option<WifiStatus>,
    adapters: Seq<Adapter>,
    live: Option<LiveHotspot>,
)
    ensures
        w.companion_report(wifi, adapters, live)["s"@] == "unknown"@ <==> wifi is None,
{
    lemma_words();
}

/// While a radio is on, the companion is told of the first interface on a network that is not
/// our own hotspot, or whose name is unreadable: that we are connected, to which network, and
/// with which address. The hotspot makes no difference.
pub proof fn law_the_companion_is_told_of_the_connection(
    w: WatchdogView,
    status: WifiStatus,
    adapters: Seq<Adapter>,
    live: Option<LiveHotspot>,
    k: int,
    on: int,
)
    requires
        0 <= on < status.interfaces@.len(),
        status.interfaces@[on].radio_enabled,
        0 <= k < status.interfaces@.len(),
        status.interfaces@[k].connected,
        status.interfaces@[k].ssid is None || crate::text::ascii_lower(
            status.interfaces@[k].ssid->0@,
        ) != crate::text::ascii_lower(w.cfg.hotspot.ssid@),
        forall|j: int|
            0 <= j < k && (#[trigger] status.interfaces@[j]).connected ==> {
                &&& status.interfaces@[j].ssid is Some
                &&& crate::text::ascii_lower(status.interfaces@[j].ssid->0@)
                    == crate::text::ascii_lower(w.cfg.hotspot.ssid@)
            },
    ensures
        ({
            let report = w.companion_report(Some(status), adapters, live);
            let address = crate::adapters::address_of(
                adapters,
                status.interfaces@[k].description@,
            );
            &&& report.dom() == set!["s"@, "i"@, "a"@]
            &&& report["s"@] == "connected"@
            &&& match status.interfaces@[k].ssid {
                Some(ssid) => report["i"@] == ssid@,
                None => report["i"@] == "N/A"@,
            }
            &&& match address {
                Some(ip) => report["a"@] == ip,
                None => report["a"@] == "N/A"@,
            }
        }),
{
    lemma_words();
    crate::wifi::law_the_first_real_network_is_the_active_one(status, w.ignore_ssid(), k);
    assert(status.usable());
    let report = w.companion_report(Some(status), adapters, live);
    assert(report.dom() =~= set!["s"@, "i"@, "a"@]);
}

/// Without a network, and unless every radio is off, the companion is told of the hotspot if
/// it is on: its SSID, its password and its address. Otherwise it is told that there is no
/// connection, and nothing else.
pub proof fn law_the_companion_is_told_of_the_hotspot(
    w: WatchdogView,
    status: WifiStatus,
    adapters: Seq<Adapter>,
    live: Option<LiveHotspot>,
)
    requires
        status.interfaces@.len() == 0 || exists|k: int|
            0 <= k < status.interfaces@.len() && (#[trigger] status.interfaces@[k]).radio_enabled,
        forall|j: int|
            0 <= j < status.interfaces@.len() && (#[trigger] status.interfaces@[j]).connected ==> {
                &&& status.interfaces@[j].ssid is Some
                &&& crate::text::ascii_lower(status.interfaces@[j].ssid->0@)
                    == crate::text::ascii_lower(w.cfg.hotspot.ssid@)
            },
    ensures
        ({
            let report = w.companion_report(Some(status), adapters, live);
            if live matches Some(hotspot) && hotspot.state == State::On {
                &&& report.dom() == set!["s"@, "i"@, "p"@, "a"@]
                &&& report["s"@] == "hotspot"@
                &&& report["i"@] == w.cfg.hotspot.ssid@
                &&& report["p"@] == w.cfg.hotspot.passphrase@
                &&& match crate::adapters::hotspot_address(adapters) {
                    Some(ip) => report["a"@] == ip,
                    None => report["a"@] == "N/A"@,
                }
            } else {
                &&& report.dom() == set!["s"@]
                &&& report["s"@] == "disconnected"@
            }
        }),
{
    lemma_words();
    crate::wifi::law_without_a_real_network_none_is_active(status, w.ignore_ssid());
    let report = w.companion_report(Some(status), adapters, live);
    if live matches Some(hotspot) && hotspot.state == State::On {
        assert(report.dom() =~= set!["s"@, "i"@, "p"@, "a"@]);
    } else {
        assert(report.dom() =~= set!["s"@]);
    }
}

/// A tick that finds an interface on a network, other than our own hotspot, or on one whose
/// name is unreadable, ends an outage and the backoff it brought; and the policy answers as it
/// does to a connection.
pub proof fn law_a_real_network_ends_the_outage(
    w: WatchdogView,
    now: nat,
    status: WifiStatus,
    adapters: Seq<Adapter>,
    live: Option<LiveHotspot>,
    ports: Seq<PortInfo>,
    k: int,
)
    requires
        0 <= k < status.interfaces@.len(),
        status.interfaces@[k].connected,
        status.interfaces@[k].ssid is None || crate::text::ascii_lower(
            status.interfaces@[k].ssid->0@,
        ) != crate::text::ascii_lower(w.cfg.hotspot.ssid@),
    ensures
        w.after_tick(now, Some(status), adapters, live, ports).policy.disconnected_since is None,
        w.policy.disconnected_since is Some ==> w.after_tick(
            now,
            Some(status),
            adapters,
            live,
            ports,
        ).policy.retry_after is None,
        w.tick_intent(now, Some(status)) == Some(w.policy.intent(now, true)),
{
    crate::wifi::law_a_real_network_counts(status, w.cfg.hotspot.ssid@, k);
}

/// A tick that finds no interface on a network, other than our own hotspot, begins an outage
/// or goes on with it; and the policy answers as it does to no connection. A tick that could
/// not read Wi-Fi asks the policy nothing.
pub proof fn law_without_a_real_network_there_is_an_outage(
    w: WatchdogView,
    now: nat,
    status: WifiStatus,
    adapters: Seq<Adapter>,
    live: Option<LiveHotspot>,
    ports: Seq<PortInfo>,
)
    requires
        forall|j: int|
            0 <= j < status.interfaces@.len() && (#[trigger] status.interfaces@[j]).connected ==> {
                &&& status.interfaces@[j].ssid is Some
                &&& crate::text::ascii_lower(status.interfaces@[j].ssid->0@)
                    == crate::text::ascii_lower(w.cfg.hotspot.ssid@)
            },
    ensures
        w.after_tick(now, Some(status), adapters, live, ports).policy.disconnected_since == Some(
            match w.policy.disconnected_since {
                Some(since) => since,
                None => now,
            },
        ),
        w.tick_intent(now, Some(status)) == Some(w.policy.intent(now, false)),
        w.tick_intent(now, None) is None,
{
    crate::wifi::law_without_a_real_network_none_is_active(status, w.ignore_ssid());
}

/// A new watchdog does what its config says: from the first tick that finds Wi-Fi
/// disconnected on, the hotspot is asked for once the configured number of seconds has passed,
/// and not before; one that we then start is asked to stop as Wi-Fi comes back, if so
/// configured; and after a start that fails, the next is asked for a minute later.
pub proof fn law_a_new_watchdog_follows_its_config(
    cfg: Config,
    made_at: nat,
    lost_at: nat,
    now: nat,
    failed_at: nat,
)
    requires
        lost_at <= failed_at <= now,
    ensures
        ({
            let fresh = WatchdogView::fresh(cfg, made_at);
            let lost = fresh.policy.after_poll(lost_at, false);
            let second: int = 1_000_000_000;
            let due = now >= lost_at + cfg.monitor.disconnect_threshold_secs * second;
            &&& fresh.cfg == cfg
            &&& fresh.companion.cfg == cfg.companion
            &&& asked_for(fresh.policy.intent(lost_at, false)) == Action::Nothing
            &&& asked_for(lost.intent(now, false)) == Action::StartHotspot <==> due
            &&& asked_for(lost.after_started().intent(now, true)) == Action::StopHotspot
                <==> cfg.monitor.auto_disable_on_reconnect
            &&& asked_for(lost.intent(now, true)) == Action::Nothing
            &&& asked_for(lost.after_start_failure(failed_at).intent(now, false))
                == Action::StartHotspot <==> due && now >= failed_at + 60 * second
        }),
{
}

/// Only an intent to start asks for a start, and only a reconnection that says so asks for a
/// stop.
pub proof fn law_what_an_intent_asks_for(intent: crate::policy::IntentView)
    ensures
        asked_for(intent) == Action::StartHotspot <==> intent is StartHotspot,
        asked_for(intent) == Action::StopHotspot <==> (
        intent matches crate::policy::IntentView::WifiRestored { stop_hotspot, .. }
            && stop_hotspot),
{
}

/// While a failed start is waited out, the status line shows the whole seconds that are left
/// until the hotspot is asked for again.
pub proof fn law_the_line_counts_down_to_the_next_attempt(
    p: crate::policy::PolicyView,
    since: nat,
    failed_at: nat,
    now: nat,
    intent: Intent,
) -> (secs: nat)
    requires
        p.disconnected_since == Some(since),
        since + p.threshold <= now,
        failed_at <= now < failed_at + p.retry_backoff,
        intent@ == p.after_start_failure(failed_at).intent(now, false),
    ensures
        countdown(intent) == " (retrying hotspot start in "@ + crate::text::decimal(secs)
            + "s)"@,
        now + secs * 1_000_000_000 <= failed_at + p.retry_backoff,
        failed_at + p.retry_backoff < now + (secs + 1) * 1_000_000_000,
{
    let left = (failed_at + p.retry_backoff - now) as nat;
    assert(intent is HoldingForRetry);
    assert(intent->HoldingForRetry_retry_in@ == left);
    left / 1_000_000_000
}

/// While the threshold is waited out, the status line shows the whole seconds that are left
/// until it has passed.
pub proof fn law_the_line_counts_down_to_the_threshold(
    p: crate::policy::PolicyView,
    since: nat,
    now: nat,
    intent: Intent,
) -> (secs: nat)
    requires
        p.disconnected_since == Some(since),
        since <= now < since + p.threshold,
        intent@ == p.intent(now, false),
    ensures
        countdown(intent) == " (hotspot in "@ + crate::text::decimal(secs) + "s)"@,
        now + secs * 1_000_000_000 <= since + p.threshold,
        since + p.threshold < now + (secs + 1) * 1_000_000_000,
{
    let left = (since + p.threshold - now) as nat;
    assert(intent is Waiting);
    assert(intent->Waiting_remaining@ == left);
    left / 1_000_000_000
}

/// Nothing is counted down unless something is waited out.
pub proof fn law_nothing_else_is_counted_down(intent: Intent)
    ensures
        countdown(intent).len() > 0 <==> intent@ is Waiting || intent@ is HoldingForRetry,
{
    reveal_strlit(" (hotspot in ");
    reveal_strlit(" (retrying hotspot start in ");
}

/// The status line says that Wi-Fi is connected, to which network and with which address, of
/// the first interface on a network that is not the ignored one, or whose name is unreadable.
pub proof fn law_the_line_shows_the_connection(
    status: WifiStatus,
    adapters: Seq<Adapter>,
    own_ssid: Seq<char>,
    intent: Intent,
    k: int,
)
    requires
        0 <= k < status.interfaces@.len(),
        status.interfaces@[k].connected,
        status.interfaces@[k].ssid is None || crate::text::ascii_lower(
            status.interfaces@[k].ssid->0@,
        ) != crate::text::ascii_lower(own_ssid),
        forall|j: int|
            0 <= j < k && (#[trigger] status.interfaces@[j]).connected ==> {
                &&& status.interfaces@[j].ssid is Some
                &&& crate::text::ascii_lower(status.interfaces@[j].ssid->0@)
                    == crate::text::ascii_lower(own_ssid)
            },
    ensures
        ({
            let interface = status.interfaces@[k];
            let name = if interface.ssid is Some {
                interface.ssid->0@
            } else {
                "?"@
            };
            let address = crate::adapters::address_of(adapters, interface.description@);
            let ip = if address is Some {
                address->0
            } else {
                "no IP yet"@
            };
            wifi_text(status, adapters, Some(own_ssid), intent) == "Wi-Fi: connected to '"@ + name
                + "' ("@ + ip + ")"@ + countdown(intent)
        }),
{
    crate::wifi::law_the_first_real_network_is_the_active_one(status, Some(own_ssid), k);
}

/// The status line says that Wi-Fi is disconnected if every interface is off all networks, or
/// on our own hotspot.
pub proof fn law_the_line_shows_a_disconnection(
    status: WifiStatus,
    adapters: Seq<Adapter>,
    own_ssid: Seq<char>,
    intent: Intent,
)
    requires
        forall|j: int|
            0 <= j < status.interfaces@.len() && (#[trigger] status.interfaces@[j]).connected ==> {
                &&& status.interfaces@[j].ssid is Some
                &&& crate::text::ascii_lower(status.interfaces@[j].ssid->0@)
                    == crate::text::ascii_lower(own_ssid)
            },
    ensures
        wifi_text(status, adapters, Some(own_ssid), intent) == "Wi-Fi: disconnected"@ + countdown(
            intent,
        ),
{
    crate::wifi::law_without_a_real_network_none_is_active(status, Some(own_ssid));
}

/// The hotspot's half of the status line says on, with what it is on with, only while it is
/// on; and a hotspot that could not be queried reads like one that is off.
pub proof fn law_the_line_shows_the_hotspot(
    live: Option<LiveHotspot>,
    adapters: Seq<Adapter>,
)
    ensures
        ({
            let text = hotspot_text(live, adapters);
            let on = live matches Some(hotspot) && hotspot.state == State::On;
            &&& crate::text::has_prefix(text, "on (ssid='"@) <==> on
            &&& on ==> {
                let tail = "clients="@ + crate::text::decimal(live->0.clients as nat) + ")"@;
                &&& crate::text::has_prefix(text, "on (ssid='"@ + live->0.ssid@ + "', "@)
                &&& text.len() >= tail.len()
                &&& text.skip(text.len() - tail.len()) == tail
                &&& crate::adapters::hotspot_address(adapters) matches Some(ip)
                    ==> crate::text::has_prefix(
                    text,
                    "on (ssid='"@ + live->0.ssid@ + "', ip="@ + ip + ", "@,
                )
            }
            &&& text == "off"@ <==> (live matches Some(hotspot) ==> hotspot.state == State::Off)
            &&& text == "starting/stopping"@ <==> (live matches Some(hotspot) && hotspot.state
                == State::InTransition)
            &&& text == "unknown"@ <==> (live matches Some(hotspot) && hotspot.state
                == State::Unknown)
        }),
{
    reveal_strlit("on (ssid='");
    reveal_strlit("off");
    reveal_strlit("starting/stopping");
    reveal_strlit("unknown");
    reveal_strlit("', ip=");
    reveal_strlit("', clients=");
    reveal_strlit(", clients=");
    reveal_strlit("clients=");
    reveal_strlit("', ");
    reveal_strlit(", ");
    reveal_strlit(")");
    let text = hotspot_text(live, adapters);
    assert("off"@[0] == 'o' && "off"@[1] == 'f');
    assert("starting/stopping"@[0] == 's');
    assert("unknown"@[0] == 'u');
    let opening = "on (ssid='"@;
    if live matches Some(hotspot) && hotspot.state == State::On {
        let ssid = live->0.ssid@;
        let number = crate::text::decimal(live->0.clients as nat);
        let tail = "clients="@ + number + ")"@;
        assert(text.take(opening.len() as int) =~= opening);
        assert(text[0] == 'o' && text[1] == 'n');
        let head = opening + ssid + "', "@;
        assert(text.take(head.len() as int) =~= head);
        assert(text.skip(text.len() - tail.len()) =~= tail);
        if let Some(ip) = crate::adapters::hotspot_address(adapters) {
            let longer = opening + ssid + "', ip="@ + ip + ", "@;
            assert(text.take(longer.len() as int) =~= longer);
        }
    } else {
        if crate::text::has_prefix(text, opening) {
            assert(text.take(opening.len() as int)[1] == 'n');
        }
    }
}

/// The status line is the Wi-Fi half, then the hotspot half.
pub proof fn law_the_line_has_two_halves(
    status: WifiStatus,
    adapters: Seq<Adapter>,
    ignore_ssid: Option<Seq<char>>,
    intent: Intent,
    live: Option<LiveHotspot>,
)
    ensures
        ({
            let line = line_text(status, adapters, ignore_ssid, intent, live);
            let wifi = wifi_text(status, adapters, ignore_ssid, intent);
            let hotspot = hotspot_text(live, adapters);
            &&& crate::text::has_prefix(line, wifi)
            &&& line.len() > wifi.len() + hotspot.len()
            &&& line.skip(line.len() - hotspot.len()) == hotspot
        }),
{
    reveal_strlit(" | Hotspot: ");
    let line = line_text(status, adapters, ignore_ssid, intent, live);
    let wifi = wifi_text(status, adapters, ignore_ssid, intent);
    let hotspot = hotspot_text(live, adapters);
    assert(line.take(wifi.len() as int) =~= wifi);
    assert(line.skip(line.len() - hotspot.len()) =~= hotspot);
}

/// A hotspot counts as live if and only if its state could be read; an SSID that could not be
/// is taken to be the configured one, and clients that could not be counted to be none.
pub proof fn law_a_hotspot_is_live_if_its_state_was_read(
    cfg: Config,
    reading: Option<HotspotReading>,
)
    ensures
        live_facts(cfg, reading) is Some <==> reading is Some && reading->0.state is Some,
        live_facts(cfg, reading) matches Some((state, ssid, clients)) ==> {
            &&& reading->0.state == Some(state)
            &&& reading->0.ssid is Some ==> ssid == reading->0.ssid->0@
            &&& reading->0.ssid is None ==> ssid == cfg.hotspot.ssid@
            &&& reading->0.clients is Some ==> clients == reading->0.clients->0
            &&& reading->0.clients is None ==> clients == 0
        },
{
}

/// A start is refused on account of Wi-Fi if and only if there are interfaces and the radio of
/// every one of them is off.
pub proof fn law_a_start_needs_a_radio(status: WifiStatus)
    ensures
        start_refusal(status) is Some <==> status.interfaces@.len() > 0 && forall|k: int|
            0 <= k < status.interfaces@.len() ==> !(
            #[trigger] status.interfaces@[k]).radio_enabled,
{
}

/// The user is told when Wi-Fi is lost, when it comes back, and when the hotspot is asked for,
/// each in its own words, and of nothing else.
pub proof fn law_what_is_announced(
    intent: crate::policy::IntentView,
    other: crate::policy::IntentView,
)
    ensures
        announced(intent) is Some <==> intent is WifiLost || intent is StartHotspot
            || intent is WifiRestored,
        announced(intent) is Some && announced(intent) == announced(other) ==> (intent is WifiLost
            <==> other is WifiLost) && (intent is StartHotspot <==> other is StartHotspot) && (
        intent is WifiRestored <==> other is WifiRestored),
{
    reveal_strlit("Wi-Fi disconnected; starting countdown");
    reveal_strlit("Wi-Fi has been down past the threshold; bringing the hotspot up");
    reveal_strlit("Wi-Fi reconnected");
    assert("Wi-Fi disconnected; starting countdown"@[6] == 'd');
    assert("Wi-Fi has been down past the threshold; bringing the hotspot up"@[6] == 'h');
    assert("Wi-Fi reconnected"@[6] == 'r');
}

/// What is sent to the companion at a tick are the fields of the report that changed since the
/// last, and how long the state has held; nothing of what stayed the same is sent.
pub proof fn law_a_tick_sends_the_changes_of_its_report(
    w: WatchdogView,
    now: nat,
    wifi: Option<WifiStatus>,
    adapters: Seq<Adapter>,
    live: Option<LiveHotspot>,
    key: Seq<char>,
)
    requires
        key != "t"@,
    ensures
        ({
            let report = w.companion_report(wifi, adapters, live);
            let sent = w.companion_update(now, wifi, adapters, live);
            let known = w.companion.last_status;
            &&& sent.contains_key(key) <==> report.contains_key(key) && !(known.contains_key(key)
                && known[key] == report[key])
            &&& sent.contains_key(key) ==> sent[key] == report[key]
            &&& sent.contains_key("t"@)
        }),
{
}

/// After a tick, what the companion is compared with is the report of that tick, where a
/// companion is enabled; otherwise nothing of it changes.
pub proof fn law_a_tick_remembers_its_report(
    w: WatchdogView,
    now: nat,
    wifi: Option<WifiStatus>,
    adapters: Seq<Adapter>,
    live: Option<LiveHotspot>,
    ports: Seq<PortInfo>,
)
    ensures
        ({
            let after = w.after_tick(now, wifi, adapters, live, ports);
            &&& after.cfg == w.cfg
            &&& w.cfg.companion.enabled ==> after.companion.last_status == w.companion_report(
                wifi,
                adapters,
                live,
            )
            &&& !w.cfg.companion.enabled ==> after.companion == w.companion
        }),
{
}

/// A hotspot that is on is left on, and mentioned unless it is known to have the configured
/// SSID; one in transition is waited for; and neither attempt changes what is remembered.
pub proof fn law_a_hotspot_that_is_on_needs_no_start(
    w: WatchdogView,
    now: nat,
    current_ssid: Option<Seq<char>>,
    switched_on: bool,
)
    ensures
        start_plan(true, Some(State::On), current_ssid, w.cfg.hotspot.ssid@) matches Some(
            StartDecision::LeaveOn { mention },
        ) && (mention <==> current_ssid is None || current_ssid->0 != w.cfg.hotspot.ssid@),
        start_plan(true, Some(State::InTransition), current_ssid, w.cfg.hotspot.ssid@) == Some(
            StartDecision::Wait,
        ),
        w.after_start_attempt(now, true, Some(State::On), current_ssid, switched_on) == w,
        w.after_start_attempt(now, true, Some(State::InTransition), current_ssid, switched_on)
            == w,
{
}

/// A hotspot that could not be switched on is tried again after the backoff, and one that was
/// is ours, with no attempt pending.
pub proof fn law_what_a_switch_comes_to(
    w: WatchdogView,
    now: nat,
    state: State,
    current_ssid: Option<Seq<char>>,
)
    requires
        state == State::Off || state == State::Unknown,
    ensures
        ({
            let failed = w.after_start_attempt(now, true, Some(state), current_ssid, false).policy;
            let worked = w.after_start_attempt(now, true, Some(state), current_ssid, true).policy;
            &&& failed.retry_after == Some(now + w.policy.retry_backoff)
            &&& failed.started_by_us == w.policy.started_by_us
            &&& worked.started_by_us
            &&& worked.retry_after is None
            &&& failed.disconnected_since == w.policy.disconnected_since
            &&& worked.disconnected_since == w.policy.disconnected_since
        }),
{
}

/// An attempt to stop changes nothing but whose the hotspot is.
pub proof fn law_a_stop_changes_nothing_else(
    w: WatchdogView,
    state: Option<State>,
    switched_off: bool,
)
    ensures
        ({
            let after = w.after_stop_attempt(state, switched_off);
            &&& after.cfg == w.cfg
            &&& after.companion == w.companion
            &&& after.policy.disconnected_since == w.policy.disconnected_since
            &&& after.policy.retry_after == w.policy.retry_after
            &&& after.policy.threshold == w.policy.threshold
        }),
{
}

} // verus!
