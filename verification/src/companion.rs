//! The companion: a DIY USB dongle with a display that shows the network status. This module
//! finds it among the serial ports and decides what to tell it.

use crate::config::CompanionConfig;
use crate::status::{Status, PASSWORD, STATE};
use crate::text::{same_text, starts_with, to_decimal};
use crate::time::Instant;
use vstd::prelude::*;

verus! {

/// The manufacturer a companion may report.
pub const VENDOR: &'static str = "autoport";

/// The product a companion may report.
pub const PRODUCT: &'static str = "companion";

/// The USB vendor a companion has unless configured otherwise.
pub const DEFAULT_VID: u16 = 0x1209;

/// The USB product a companion has unless configured otherwise.
pub const DEFAULT_PID: u16 = 0x3a01;

/// The speed at which a companion listens.
pub const BAUD_RATE: u32 = 9600;

/// Field key for the seconds since the state last changed.
pub const SINCE: &'static str = "t";

/// What a USB device says of itself.
#[derive(Debug, Clone, PartialEq, Eq)]
pub struct UsbInfo {
    pub vid: u16,
    pub pid: u16,
    pub manufacturer: Option<String>,
    pub product: Option<String>,
}

/// A serial port.
#[derive(Debug, Clone, PartialEq, Eq)]
pub struct PortInfo {
    pub name: String,
    /// The USB device behind the port, if there is one.
    pub usb: Option<UsbInfo>,
}

impl UsbInfo {
    /// Is this device a companion: by the configured ids, by the default ones, or by name?
    pub open spec fn is_companion(self, config: CompanionConfig) -> bool {
        ||| config.vid == Some(self.vid) && config.pid == Some(self.pid)
        ||| self.vid == DEFAULT_VID && self.pid == DEFAULT_PID
        ||| crate::text::string_of(self.manufacturer) == Some(VENDOR@) && crate::text::string_of(
            self.product,
        ) == Some(PRODUCT@)
    }

    /// Is this device a companion -- see [`UsbInfo::is_companion`].
    pub fn matches(&self, config: &CompanionConfig) -> (r: bool)
        ensures
            r == self.is_companion(*config),
    {
        let configured = match (config.vid, config.pid) {
            (Some(vid), Some(pid)) => self.vid == vid && self.pid == pid,
            _ => false,
        };
        configured || (self.vid == DEFAULT_VID && self.pid == DEFAULT_PID) || (reads(
            &self.manufacturer,
            VENDOR,
        ) && reads(&self.product, PRODUCT))
    }
}

/// Is there a text, and is it this one?
fn reads(text: &Option<String>, wanted: &str) -> (r: bool)
    ensures
        r == (crate::text::string_of(*text) == Some(wanted@)),
{
    match text {
        Some(t) => same_text(t.as_str(), wanted),
        None => false,
    }
}

/// A companion that was found.
#[derive(Debug, Clone, PartialEq, Eq)]
pub struct CompanionConn {
    /// The serial port it is on.
    pub port_name: String,
}

/// The first of the ports with a companion behind it.
pub open spec fn companion_port(config: CompanionConfig, ports: Seq<PortInfo>) -> Option<PortInfo> {
    crate::lists::first(
        ports,
        |p: PortInfo| p.usb is Some && p.usb->0.is_companion(config),
    )
}

impl CompanionConn {
    /// Look for the companion microcontroller among the currently attached serial
    /// devices. `None` covers both "not plugged in" and a failure to enumerate ports at
    /// all, which leaves no `ports` -- neither is worth crashing the watchdog loop over.
    pub fn new(config: CompanionConfig, ports: &[PortInfo]) -> (r: Option<Self>)
        ensures
            match r {
                Some(conn) => companion_port(config, ports@) is Some && conn.port_name@
                    == companion_port(config, ports@)->0.name@,
                None => companion_port(config, ports@) is None,
            },
    {
        let ghost wanted = |p: PortInfo| p.usb is Some && p.usb->0.is_companion(config);
        let mut k: usize = 0;
        while k < ports.len()
            invariant
                k <= ports@.len(),
                wanted == (|p: PortInfo| p.usb is Some && p.usb->0.is_companion(config)),
                forall|j: int| 0 <= j < k ==> !wanted(#[trigger] ports@[j]),
            decreases ports@.len() - k,
        {
            let is_companion = match &ports[k].usb {
                Some(usb) => usb.matches(&config),
                None => false,
            };
            if is_companion {
                proof {
                    crate::lists::lemma_first_found(ports@, wanted, k as int);
                }
                return Some(CompanionConn { port_name: ports[k].name.as_str().to_string() });
            }
            k = k + 1;
        }
        proof {
            crate::lists::lemma_first_missing(ports@, wanted);
        }
        None
    }

    /// What to write to the port, at [`BAUD_RATE`], to tell the companion `status`: a line
    /// per field, in order.
    pub fn write_status(&self, status: &Status) -> (r: Vec<String>)
        ensures
            crate::status::in_order(status@, status.keys()),
            crate::text::texts(r@) == terminated(
                crate::status::lines(status@, status.keys()),
            ),
    {
        let elements = status.as_elements();
        let ghost lines = crate::status::lines(status@, status.keys());
        let mut r: Vec<String> = Vec::new();
        let mut k: usize = 0;
        while k < elements.len()
            invariant
                k <= elements.len(),
                r@.len() == k,
                crate::text::texts(elements@) == lines,
                forall|i: int| 0 <= i < k ==> (#[trigger] r@[i])@ == lines[i] + "\n"@,
            decreases elements.len() - k,
        {
            let mut line = elements[k].as_str().to_string();
            assert(line@ == crate::text::texts(elements@)[k as int]);
            line.append("\n");
            r.push(line);
            k = k + 1;
        }
        assert(elements@.len() == lines.len());
        assert(crate::text::texts(r@) =~= terminated(lines));
        r
    }
}

/// The lines, each with its end.
pub open spec fn terminated(lines: Seq<Seq<char>>) -> Seq<Seq<char>> {
    Seq::new(lines.len(), |i: int| lines[i] + "\n"@)
}

/// What may be logged of a line sent to the companion: all of it, but for the password.
pub open spec fn redacted(line: Seq<char>) -> Seq<char> {
    if crate::text::has_prefix(line, "p:"@) {
        "p:<redacted>"@
    } else {
        line
    }
}

/// Mask the password field before logging -- everything else here is either public
/// (SSID) or transient (IP address), but the Wi-Fi/hotspot passphrase should never end
/// up in a log file.
pub fn redact_for_log<'a>(elements: &'a [String]) -> (r: Vec<&'a str>)
    ensures
        r@.len() == elements@.len(),
        forall|i: int| 0 <= i < elements@.len() ==> (#[trigger] r@[i])@ == redacted(elements@[i]@),
{
    let mut r: Vec<&'a str> = Vec::new();
    let mut k: usize = 0;
    while k < elements.len()
        invariant
            k <= elements@.len(),
            r@.len() == k,
            forall|i: int| 0 <= i < k ==> (#[trigger] r@[i])@ == redacted(elements@[i]@),
        decreases elements@.len() - k,
    {
        let element = elements[k].as_str();
        r.push(
            if starts_with(element, "p:") {
                "p:<redacted>"
            } else {
                element
            },
        );
        k = k + 1;
    }
    r
}

// --- the session -----------------------------------------------------------------

/// A companion connection's outgoing state: what was last reported, and since when the
/// "s" field has held its current value. Owning this in one place (rather than in the
/// caller) keeps "what is there to tell the companion" in one place.
pub struct CompanionSession {
    cfg: CompanionConfig,
    /// What was last reported, whether or not there was a companion to send it to, so only
    /// the fields that changed since need sending. A companion that shows up later is told
    /// only what changes from then on.
    last_status: Status,
    /// When the "s" field last actually changed, so outgoing updates can tell the
    /// companion how long the current state has held.
    last_state_change: Instant,
    log_missing_companion: bool,
}

/// What a [`CompanionSession`] remembers, with its time in nanoseconds.
pub ghost struct SessionView {
    pub cfg: CompanionConfig,
    pub last_status: Map<Seq<char>, Seq<char>>,
    pub last_state_change: nat,
    pub log_missing_companion: bool,
}

impl View for CompanionSession {
    type V = SessionView;

    closed spec fn view(&self) -> SessionView {
        SessionView {
            cfg: self.cfg,
            last_status: self.last_status@,
            last_state_change: self.last_state_change@,
            log_missing_companion: self.log_missing_companion,
        }
    }
}

/// What to do about a status report.
pub enum Delivery {
    /// Send this to this companion.
    Send { companion: CompanionConn, status: Status },
    /// There is no companion; say so in the log if `warn` is set.
    Missing { warn: bool },
}

impl SessionView {
    /// When the state took its current value, if `status` is reported at `now`.
    pub open spec fn state_change(self, now: nat, status: Map<Seq<char>, Seq<char>>) -> nat {
        if crate::status::changes(status, self.last_status).contains_key(STATE@) {
            now
        } else {
            self.last_state_change
        }
    }

    /// What is to be sent when `status` is reported at `now`: the fields that changed, and
    /// for how many seconds the state has held.
    pub open spec fn update(self, now: nat, status: Map<Seq<char>, Seq<char>>) -> Map<
        Seq<char>,
        Seq<char>,
    > {
        crate::status::changes(status, self.last_status).insert(
            SINCE@,
            crate::text::decimal(
                crate::time::elapsed(self.state_change(now, status), now)
                    / crate::time::NANOS_PER_SEC as nat,
            ),
        )
    }

    /// The session once `status` was reported at `now`, with or without a companion there.
    pub open spec fn after(
        self,
        now: nat,
        status: Map<Seq<char>, Seq<char>>,
        found: bool,
    ) -> SessionView {
        SessionView {
            cfg: self.cfg,
            last_status: status,
            last_state_change: self.state_change(now, status),
            log_missing_companion: found,
        }
    }
}

impl CompanionSession {
    /// A session that has sent nothing yet.
    pub fn new(cfg: CompanionConfig, now: Instant) -> (s: Self)
        ensures
            s@ == (SessionView {
                cfg,
                last_status: Map::empty(),
                last_state_change: now@,
                log_missing_companion: true,
            }),
    {
        Self {
            cfg,
            last_status: Status::default(),
            last_state_change: now,
            log_missing_companion: true,
        }
    }

    /// Diff `status` against what was last reported and forward only the changed fields to
    /// the companion microcontroller, tagged with "t": seconds since the "s" field
    /// itself last changed -- e.g. how long Wi-Fi has been disconnected. Looks for the
    /// companion among `ports` afresh on every call (see [`CompanionConn::new`]) so one that
    /// is unplugged and replugged -- possibly under a different COM port -- is still found.
    /// Remembers the status and the time of the last state change on every call, even when
    /// there is no companion to send to, so both stay accurate for whenever one shows up: it
    /// is then told what changes from there on, and nothing of what held before.
    pub fn report(&mut self, now: Instant, status: Status, ports: &[PortInfo]) -> (r: Delivery)
        ensures
            final(self)@ == old(self)@.after(
                now@,
                status@,
                companion_port(old(self)@.cfg, ports@) is Some,
            ),
            match r {
                Delivery::Send { companion, status: to_send } => {
                    &&& companion_port(old(self)@.cfg, ports@) is Some
                    &&& companion.port_name@ == companion_port(old(self)@.cfg, ports@)->0.name@
                    &&& to_send@ == old(self)@.update(now@, status@)
                },
                Delivery::Missing { warn } => {
                    &&& companion_port(old(self)@.cfg, ports@) is None
                    &&& warn == old(self)@.log_missing_companion
                },
            },
    {
        let changed = status.diff(&self.last_status);
        self.last_status = status;
        if changed.state().is_some() {
            self.last_state_change = now;
        }
        let since_state_change: u64 = now.saturating_duration_since(
            self.last_state_change,
        ).as_secs();
        let to_send = changed.with_field(SINCE, to_decimal(since_state_change).as_str());

        match CompanionConn::new(self.cfg, ports) {
            Some(companion) => {
                self.log_missing_companion = true;
                Delivery::Send { companion, status: to_send }
            },
            None => {
                let warn = self.log_missing_companion;
                self.log_missing_companion = false;
                Delivery::Missing { warn }
            },
        }
    }
}

// --- laws ------------------------------------------------------------------------

/// The password never shows in the log: whatever it is, the same is logged of each line of a
/// report.
pub proof fn law_the_password_is_never_logged(
    report: Map<Seq<char>, Seq<char>>,
    keys: Seq<Seq<char>>,
    i: int,
    one: Seq<char>,
    other: Seq<char>,
)
    requires
        0 <= i < keys.len(),
    ensures
        redacted(crate::status::lines(report.insert(PASSWORD@, one), keys)[i]) == redacted(
            crate::status::lines(report.insert(PASSWORD@, other), keys)[i],
        ),
        keys[i] == PASSWORD@ ==> redacted(
            crate::status::lines(report.insert(PASSWORD@, one), keys)[i],
        ) == "p:<redacted>"@,
{
    if keys[i] == PASSWORD@ {
        lemma_password_line_is_redacted(one);
        lemma_password_line_is_redacted(other);
    }
}

/// The line for the password is masked.
proof fn lemma_password_line_is_redacted(password: Seq<char>)
    ensures
        redacted(PASSWORD@ + ":"@ + password) == "p:<redacted>"@,
{
    reveal_strlit("p");
    reveal_strlit(":");
    reveal_strlit("p:");
    let line = PASSWORD@ + ":"@ + password;
    assert(line.take(2) =~= "p:"@);
}

/// Only what changed is sent, but for the time the state has held.
pub proof fn law_only_changes_are_sent(
    session: SessionView,
    now: nat,
    status: Map<Seq<char>, Seq<char>>,
    key: Seq<char>,
)
    requires
        key != SINCE@,
        session.update(now, status).contains_key(key),
    ensures
        status.contains_key(key),
        session.update(now, status)[key] == status[key],
        !session.last_status.contains_key(key) || session.last_status[key] != status[key],
{
}

/// Whether a companion was there for a report makes no difference to what is sent at the next:
/// one that shows up late is told only what changed since the report before, and of a status
/// that did not change, only for how long its state has held.
pub proof fn law_a_late_companion_is_told_only_what_changes(
    session: SessionView,
    before: nat,
    known: Map<Seq<char>, Seq<char>>,
    found: bool,
    now: nat,
    status: Map<Seq<char>, Seq<char>>,
)
    ensures
        session.after(before, known, found).update(now, status) == session.after(
            before,
            known,
            !found,
        ).update(now, status),
        session.after(before, known, found).update(now, known) == Map::<
            Seq<char>,
            Seq<char>,
        >::empty().insert(
            SINCE@,
            crate::text::decimal(
                crate::time::elapsed(session.state_change(before, known), now)
                    / crate::time::NANOS_PER_SEC as nat,
            ),
        ),
{
    assert(crate::status::changes(known, known) =~= Map::<Seq<char>, Seq<char>>::empty());
}

/// One report of a session's life.
pub ghost struct Report {
    pub now: nat,
    pub status: Map<Seq<char>, Seq<char>>,
    pub found: bool,
}

impl SessionView {
    /// The session after several reports.
    pub open spec fn run(self, reports: Seq<Report>) -> SessionView
        decreases reports.len(),
    {
        if reports.len() == 0 {
            self
        } else {
            self.run(reports.drop_last()).after(
                reports.last().now,
                reports.last().status,
                reports.last().found,
            )
        }
    }
}

/// The time sent along counts from the report that brought the state: while later reports
/// give the same state, whatever else in them changes, it goes on counting from there.
pub proof fn law_the_time_counts_from_the_state_change(
    session: SessionView,
    first: Report,
    later: Seq<Report>,
)
    requires
        first.status.contains_key(STATE@),
        !session.last_status.contains_key(STATE@) || session.last_status[STATE@]
            != first.status[STATE@],
        forall|i: int|
            0 <= i < later.len() ==> (#[trigger] later[i]).status.contains_key(STATE@)
                && later[i].status[STATE@] == first.status[STATE@],
    ensures
        session.after(first.now, first.status, first.found).run(later).last_state_change
            == first.now,
        session.after(first.now, first.status, first.found).run(later).last_status.contains_key(
            STATE@,
        ),
        session.after(first.now, first.status, first.found).run(later).last_status[STATE@]
            == first.status[STATE@],
    decreases later.len(),
{
    if later.len() > 0 {
        let rest = later.drop_last();
        assert forall|i: int| 0 <= i < rest.len() implies (
        #[trigger] rest[i]).status.contains_key(STATE@) && rest[i].status[STATE@]
            == first.status[STATE@] by {
            assert(rest[i] == later[i]);
        }
        law_the_time_counts_from_the_state_change(session, first, rest);
        assert(later.last() == later[later.len() - 1]);
    }
}

/// A missing companion is mentioned once, and again only after it was there in between.
pub proof fn law_a_missing_companion_is_mentioned_once(
    session: SessionView,
    before: Report,
    reports: Seq<Report>,
)
    requires
        forall|i: int| 0 <= i < reports.len() ==> !(#[trigger] reports[i]).found,
    ensures
        session.after(before.now, before.status, before.found).run(reports).log_missing_companion
            == (before.found && reports.len() == 0),
    decreases reports.len(),
{
    if reports.len() > 0 {
        assert(reports.last() == reports[reports.len() - 1]);
    }
}

/// A device is a companion by both of the configured ids, by both of the default ones, or by
/// both of its names; no part of any of these is enough.
pub proof fn law_what_makes_a_companion(usb: UsbInfo, config: CompanionConfig)
    ensures
        ({
            let configured = config.vid == Some(usb.vid) && config.pid == Some(usb.pid);
            let default = usb.vid == 0x1209 && usb.pid == 0x3a01;
            let named = usb.manufacturer is Some && usb.manufacturer->0@ == "autoport"@
                && usb.product is Some && usb.product->0@ == "companion"@;
            usb.is_companion(config) <==> configured || default || named
        }),
{
}

/// The companion is the first port with one behind it; a port without a USB device never is.
pub proof fn law_the_first_companion_is_talked_to(
    config: CompanionConfig,
    ports: Seq<PortInfo>,
    k: int,
)
    ensures
        (forall|j: int|
            0 <= j < ports.len() && (#[trigger] ports[j]).usb is Some
                ==> !ports[j].usb->0.is_companion(config)) ==> companion_port(
            config,
            ports,
        ) is None,
        0 <= k < ports.len() && ports[k].usb is Some && ports[k].usb->0.is_companion(config) && (
        forall|j: int|
            0 <= j < k && (#[trigger] ports[j]).usb is Some ==> !ports[j].usb->0.is_companion(
                config,
            )) ==> companion_port(config, ports) == Some(ports[k]),
{
    let wanted = |p: PortInfo| p.usb is Some && p.usb->0.is_companion(config);
    if forall|j: int|
        0 <= j < ports.len() && (#[trigger] ports[j]).usb is Some ==> !ports[j].usb->0.is_companion(
            config,
        ) {
        crate::lists::lemma_first_missing(ports, wanted);
    }
    if 0 <= k < ports.len() && ports[k].usb is Some && ports[k].usb->0.is_companion(config) && (
    forall|j: int|
        0 <= j < k && (#[trigger] ports[j]).usb is Some ==> !ports[j].usb->0.is_companion(
            config,
        )) {
        crate::lists::lemma_first_found(ports, wanted, k);
    }
}

/// Everything that changed is sent, with its new value.
pub proof fn law_every_change_is_sent(
    session: SessionView,
    now: nat,
    status: Map<Seq<char>, Seq<char>>,
    key: Seq<char>,
)
    requires
        key != "t"@,
        status.contains_key(key),
        !session.last_status.contains_key(key) || session.last_status[key] != status[key],
    ensures
        session.update(now, status).contains_key(key),
        session.update(now, status)[key] == status[key],
{
}

/// What is sent along is for how many whole seconds the state has held: since the report that
/// brought it, whatever else changed meanwhile.
pub proof fn law_the_age_of_the_state_is_sent(
    session: SessionView,
    first: Report,
    later: Seq<Report>,
    now: nat,
    status: Map<Seq<char>, Seq<char>>,
) -> (secs: nat)
    requires
        first.status.contains_key(STATE@),
        !session.last_status.contains_key(STATE@) || session.last_status[STATE@]
            != first.status[STATE@],
        forall|i: int|
            0 <= i < later.len() ==> (#[trigger] later[i]).status.contains_key(STATE@)
                && later[i].status[STATE@] == first.status[STATE@],
        status.contains_key(STATE@),
        status[STATE@] == first.status[STATE@],
        first.now <= now,
    ensures
        session.after(first.now, first.status, first.found).run(later).update(now, status)["t"@]
            == crate::text::decimal(secs),
        first.now + secs * 1_000_000_000 <= now < first.now + (secs + 1) * 1_000_000_000,
        session.update(first.now, first.status)["t"@] == crate::text::decimal(0),
{
    law_the_time_counts_from_the_state_change(session, first, later);
    ((now - first.now) / 1_000_000_000) as nat
}

/// All but the password is logged as it is.
pub proof fn law_everything_else_is_logged_as_it_is(line: Seq<char>)
    ensures
        line.len() >= 2 && line[0] == 'p' && line[1] == ':' ==> redacted(line) == "p:<redacted>"@,
        !(line.len() >= 2 && line[0] == 'p' && line[1] == ':') ==> redacted(line) == line,
{
    reveal_strlit("p:");
    if line.len() >= 2 && line[0] == 'p' && line[1] == ':' {
        assert(line.take(2) =~= "p:"@);
    } else if line.len() >= 2 {
        assert(line.take(2)[0] == line[0] && line.take(2)[1] == line[1]);
    }
}

/// Every line is sent whole, and ends in a line feed of its own.
pub proof fn law_every_line_is_terminated(lines: Seq<Seq<char>>, i: int)
    requires
        0 <= i < lines.len(),
    ensures
        terminated(lines).len() == lines.len(),
        terminated(lines)[i].last() == '\n',
        terminated(lines)[i].drop_last() == lines[i],
{
    reveal_strlit("\n");
    assert(terminated(lines)[i].drop_last() =~= lines[i]);
}

} // verus!
