//! The decision logic: when should the hotspot go on, and when should it go off?
//!
//! This module is pure: it takes the current time and whether Wi-Fi is up, and returns an
//! intent. It never touches Wi-Fi or the hotspot itself; `watchdog` works out what an
//! intent asks for.

use crate::time::{Duration, Instant};
use vstd::prelude::*;

verus! {

/// How long to wait after a failed start before trying again, in seconds, so a hotspot that
/// cannot come up doesn't get hammered once per poll.
pub const RETRY_BACKOFF_SECS: u64 = 60;

/// What the caller should do about the current tick.
#[derive(Debug, Clone, Copy, PartialEq, Eq, Structural)]
pub enum Intent {
    /// Nothing to do.
    Idle,
    /// Wi-Fi just dropped; the countdown starts now.
    WifiLost,
    /// Wi-Fi is down but the threshold has not elapsed yet.
    Waiting { remaining: Duration },
    /// Wi-Fi has been down long enough: bring the hotspot up if it is not already.
    StartHotspot { down_for: Duration },
    /// A previous start attempt failed; holding off before trying again.
    HoldingForRetry { retry_in: Duration },
    /// Wi-Fi came back.
    WifiRestored {
        down_for: Duration,
        /// True when we started the hotspot and are configured to turn it back off.
        stop_hotspot: bool,
    },
}

/// An intent with its spans of time in nanoseconds.
pub ghost enum IntentView {
    Idle,
    WifiLost,
    Waiting { remaining: nat },
    StartHotspot { down_for: nat },
    HoldingForRetry { retry_in: nat },
    WifiRestored { down_for: nat, stop_hotspot: bool },
}

impl View for Intent {
    type V = IntentView;

    open spec fn view(&self) -> IntentView {
        match *self {
            Intent::Idle => IntentView::Idle,
            Intent::WifiLost => IntentView::WifiLost,
            Intent::Waiting { remaining } => IntentView::Waiting { remaining: remaining@ },
            Intent::StartHotspot { down_for } => IntentView::StartHotspot { down_for: down_for@ },
            Intent::HoldingForRetry { retry_in } => IntentView::HoldingForRetry {
                retry_in: retry_in@,
            },
            Intent::WifiRestored { down_for, stop_hotspot } => IntentView::WifiRestored {
                down_for: down_for@,
                stop_hotspot,
            },
        }
    }
}

/// What to do with a hotspot we started once Wi-Fi comes back, from
/// `monitor.auto_disable_on_reconnect`.
#[derive(Debug, Clone, Copy, PartialEq, Eq, Structural)]
pub enum OnReconnect {
    StopHotspot,
    LeaveHotspotOn,
}

/// The rules, and what they remember from one poll to the next.
pub struct Policy {
    threshold: Duration,
    on_reconnect: OnReconnect,
    retry_backoff: Duration,
    /// When the current run of disconnection began; `None` while Wi-Fi is up.
    disconnected_since: Option<Instant>,
    /// Only hotspots this process switched on are switched back off automatically.
    started_by_us: bool,
    /// Set after a failed start so we do not retry on every poll.
    retry_after: Option<Instant>,
}

/// A policy with its times in nanoseconds.
pub ghost struct PolicyView {
    pub threshold: nat,
    pub on_reconnect: OnReconnect,
    pub retry_backoff: nat,
    pub disconnected_since: Option<nat>,
    pub started_by_us: bool,
    pub retry_after: Option<nat>,
}

/// A point in time that may be missing, in nanoseconds.
pub open spec fn nanos_of(t: Option<Instant>) -> Option<nat> {
    match t {
        Some(t) => Some(t@),
        None => None,
    }
}

impl View for Policy {
    type V = PolicyView;

    closed spec fn view(&self) -> PolicyView {
        PolicyView {
            threshold: self.threshold@,
            on_reconnect: self.on_reconnect,
            retry_backoff: self.retry_backoff@,
            disconnected_since: nanos_of(self.disconnected_since),
            started_by_us: self.started_by_us,
            retry_after: nanos_of(self.retry_after),
        }
    }
}

impl PolicyView {
    /// A policy that has seen nothing yet.
    pub open spec fn fresh(threshold: nat, on_reconnect: OnReconnect, retry_backoff: nat) -> Self {
        PolicyView {
            threshold,
            on_reconnect,
            retry_backoff,
            disconnected_since: None,
            started_by_us: false,
            retry_after: None,
        }
    }

    /// Must a start attempt still wait out the backoff of an earlier, failed one?
    pub open spec fn holding_at(self, now: nat) -> bool {
        self.retry_after is Some && now < self.retry_after->0
    }

    /// What a poll at `now` calls for.
    pub open spec fn intent(self, now: nat, wifi_connected: bool) -> IntentView {
        match self.disconnected_since {
            None => if wifi_connected {
                IntentView::Idle
            } else {
                IntentView::WifiLost
            },
            Some(since) => if wifi_connected {
                IntentView::WifiRestored {
                    down_for: crate::time::elapsed(since, now),
                    stop_hotspot: self.started_by_us && self.on_reconnect
                        == OnReconnect::StopHotspot,
                }
            } else if crate::time::elapsed(since, now) < self.threshold {
                IntentView::Waiting {
                    remaining: (self.threshold - crate::time::elapsed(since, now)) as nat,
                }
            } else if self.holding_at(now) {
                IntentView::HoldingForRetry {
                    retry_in: crate::time::elapsed(now, self.retry_after->0),
                }
            } else {
                IntentView::StartHotspot { down_for: crate::time::elapsed(since, now) }
            },
        }
    }

    /// What a poll at `now` leaves behind: a connection ends an outage and whatever backoff
    /// it brought, the first poll without one begins an outage, and nothing else is touched.
    pub open spec fn after_poll(self, now: nat, wifi_connected: bool) -> PolicyView {
        match self.disconnected_since {
            Some(_) if wifi_connected => PolicyView {
                disconnected_since: None,
                retry_after: None,
                ..self
            },
            None if !wifi_connected => PolicyView { disconnected_since: Some(now), ..self },
            _ => self,
        }
    }

    /// After hearing that the hotspot is up because of us.
    pub open spec fn after_started(self) -> PolicyView {
        PolicyView { started_by_us: true, retry_after: None, ..self }
    }

    /// After hearing that the hotspot is no longer our responsibility.
    pub open spec fn after_stopped(self) -> PolicyView {
        PolicyView { started_by_us: false, ..self }
    }

    /// After hearing that a start attempt at `now` failed.
    pub open spec fn after_start_failure(self, now: nat) -> PolicyView {
        PolicyView { retry_after: Some(now + self.retry_backoff), ..self }
    }
}

impl Policy {
    /// A policy that waits [`RETRY_BACKOFF_SECS`] between start attempts.
    pub fn new(threshold: Duration, on_reconnect: OnReconnect) -> (p: Self)
        ensures
            p@ == PolicyView::fresh(
                threshold@,
                on_reconnect,
                (RETRY_BACKOFF_SECS * crate::time::NANOS_PER_SEC) as nat,
            ),
    {
        Self::with_backoff(threshold, on_reconnect, Duration::from_secs(RETRY_BACKOFF_SECS))
    }

    /// A policy that waits `retry_backoff` between start attempts.
    pub fn with_backoff(
        threshold: Duration,
        on_reconnect: OnReconnect,
        retry_backoff: Duration,
    ) -> (p: Self)
        ensures
            p@ == PolicyView::fresh(threshold@, on_reconnect, retry_backoff@),
    {
        Self {
            threshold,
            on_reconnect,
            retry_backoff,
            disconnected_since: None,
            started_by_us: false,
            retry_after: None,
        }
    }

    /// Feed one poll result in and get back what to do.
    pub fn evaluate(&mut self, now: Instant, wifi_connected: bool) -> (intent: Intent)
        ensures
            intent@ == old(self)@.intent(now@, wifi_connected),
            final(self)@ == old(self)@.after_poll(now@, wifi_connected),
    {
        if wifi_connected {
            return match self.disconnected_since {
                None => Intent::Idle,
                Some(since) => {
                    self.disconnected_since = None;
                    self.retry_after = None;
                    Intent::WifiRestored {
                        down_for: now.saturating_duration_since(since),
                        stop_hotspot: self.started_by_us && self.on_reconnect
                            == OnReconnect::StopHotspot,
                    }
                },
            };
        }
        let since = match self.disconnected_since {
            Some(since) => since,
            None => {
                self.disconnected_since = Some(now);
                return Intent::WifiLost;
            },
        };

        let down_for = now.saturating_duration_since(since);
        if down_for.shorter_than(&self.threshold) {
            return Intent::Waiting { remaining: self.threshold.saturating_sub(down_for) };
        }
        if let Some(retry_after) = self.retry_after {
            if now.before(&retry_after) {
                return Intent::HoldingForRetry {
                    retry_in: retry_after.saturating_duration_since(now),
                };
            }
        }
        Intent::StartHotspot { down_for }
    }

    /// Record that the hotspot is up because of us.
    pub fn record_started(&mut self)
        ensures
            final(self)@ == old(self)@.after_started(),
    {
        self.started_by_us = true;
        self.retry_after = None;
    }

    /// Record that the hotspot is no longer our responsibility.
    pub fn record_stopped(&mut self)
        ensures
            final(self)@ == old(self)@.after_stopped(),
    {
        self.started_by_us = false;
    }

    /// Record a failed start so the next attempt waits out the backoff.
    pub fn record_start_failure(&mut self, now: Instant)
        requires
            now@ + old(self)@.retry_backoff <= crate::time::MAX_NANOS,
        ensures
            final(self)@ == old(self)@.after_start_failure(now@),
    {
        self.retry_after = Some(now.plus(self.retry_backoff));
    }
}

// --- runs ------------------------------------------------------------------------

/// Something a policy is told, with times in nanoseconds.
pub ghost enum Event {
    Poll { now: nat, wifi_connected: bool },
    Started,
    Stopped,
    StartFailed { now: nat },
}

impl PolicyView {
    /// The policy after one event.
    pub open spec fn step(self, event: Event) -> PolicyView {
        match event {
            Event::Poll { now, wifi_connected } => self.after_poll(now, wifi_connected),
            Event::Started => self.after_started(),
            Event::Stopped => self.after_stopped(),
            Event::StartFailed { now } => self.after_start_failure(now),
        }
    }

    /// The policy after a run of events.
    pub open spec fn run(self, events: Seq<Event>) -> PolicyView
        decreases events.len(),
    {
        if events.len() == 0 {
            self
        } else {
            self.run(events.drop_last()).step(events.last())
        }
    }
}

/// When the outage that `events` end in began: at the first poll without a connection since
/// the last one with, if they end in one.
pub open spec fn outage_start(events: Seq<Event>) -> Option<nat>
    decreases events.len(),
{
    if events.len() == 0 {
        None
    } else {
        match events.last() {
            Event::Poll { now, wifi_connected } => if wifi_connected {
                None
            } else {
                match outage_start(events.drop_last()) {
                    Some(since) => Some(since),
                    None => Some(now),
                }
            },
            _ => outage_start(events.drop_last()),
        }
    }
}

/// Is the hotspot ours after `events`: was it started by us, and not stopped since?
pub open spec fn ours(events: Seq<Event>) -> bool
    decreases events.len(),
{
    events.len() > 0 && match events.last() {
        Event::Started => true,
        Event::Stopped => false,
        _ => ours(events.drop_last()),
    }
}

/// Is every event a poll without a connection?
pub open spec fn all_down(events: Seq<Event>) -> bool {
    forall|i: int|
        0 <= i < events.len() ==> (#[trigger] events[i] matches Event::Poll { wifi_connected, .. }
            && !wifi_connected)
}

/// What a policy remembers is a matter of the run alone: the outage it is in, and whose the
/// hotspot is. Its settings never change.
pub proof fn law_memory(
    threshold: nat,
    on_reconnect: OnReconnect,
    retry_backoff: nat,
    events: Seq<Event>,
)
    ensures
        ({
            let p = PolicyView::fresh(threshold, on_reconnect, retry_backoff).run(events);
            &&& p.threshold == threshold
            &&& p.on_reconnect == on_reconnect
            &&& p.retry_backoff == retry_backoff
            &&& p.disconnected_since == outage_start(events)
            &&& p.started_by_us == ours(events)
        }),
    decreases events.len(),
{
    if events.len() > 0 {
        law_memory(threshold, on_reconnect, retry_backoff, events.drop_last());
    }
}

/// The hotspot is asked for only at a poll without a connection, in an outage that has
/// lasted for the whole threshold.
pub proof fn law_no_start_before_the_threshold(
    threshold: nat,
    on_reconnect: OnReconnect,
    retry_backoff: nat,
    events: Seq<Event>,
    now: nat,
    wifi_connected: bool,
)
    ensures
        PolicyView::fresh(threshold, on_reconnect, retry_backoff).run(events).intent(
            now,
            wifi_connected,
        ) matches IntentView::StartHotspot { down_for } ==> {
            &&& !wifi_connected
            &&& outage_start(events) is Some
            &&& down_for == crate::time::elapsed(outage_start(events)->0, now)
            &&& down_for >= threshold
        },
{
    law_memory(threshold, on_reconnect, retry_backoff, events);
}

/// Once an outage has lasted for the threshold, and no failed attempt is being waited out,
/// the hotspot is asked for.
pub proof fn law_start_once_the_threshold_has_passed(
    threshold: nat,
    on_reconnect: OnReconnect,
    retry_backoff: nat,
    events: Seq<Event>,
    now: nat,
)
    requires
        outage_start(events) is Some,
        crate::time::elapsed(outage_start(events)->0, now) >= threshold,
        !PolicyView::fresh(threshold, on_reconnect, retry_backoff).run(events).holding_at(now),
    ensures
        PolicyView::fresh(threshold, on_reconnect, retry_backoff).run(events).intent(now, false)
            == (IntentView::StartHotspot {
            down_for: crate::time::elapsed(outage_start(events)->0, now),
        }),
{
    law_memory(threshold, on_reconnect, retry_backoff, events);
}

/// The course of an outage in which nothing is reported back: Wi-Fi is noticed to be lost,
/// then every poll waits until the threshold has passed, and every later one asks for the
/// hotspot.
pub proof fn law_an_outage_brings_the_hotspot_up(
    threshold: nat,
    on_reconnect: OnReconnect,
    retry_backoff: nat,
    lost_at: nat,
    polls: Seq<Event>,
    now: nat,
)
    requires
        all_down(polls),
        lost_at <= now,
    ensures
        ({
            let fresh = PolicyView::fresh(threshold, on_reconnect, retry_backoff);
            let lost = fresh.after_poll(lost_at, false);
            &&& fresh.intent(lost_at, false) == IntentView::WifiLost
            &&& lost.run(polls) == lost
            &&& lost.run(polls).intent(now, false) == if now - lost_at < threshold {
                IntentView::Waiting { remaining: (threshold - (now - lost_at)) as nat }
            } else {
                IntentView::StartHotspot { down_for: (now - lost_at) as nat }
            }
        }),
    decreases polls.len(),
{
    if polls.len() > 0 {
        assert(all_down(polls.drop_last()));
        assert(polls.last() == polls[polls.len() - 1]);
        law_an_outage_brings_the_hotspot_up(
            threshold,
            on_reconnect,
            retry_backoff,
            lost_at,
            polls.drop_last(),
            now,
        );
    }
}

/// Only a hotspot that is ours is ever asked to stop, and only where that is configured, as
/// Wi-Fi comes back.
pub proof fn law_stops_only_its_own_hotspot(
    threshold: nat,
    on_reconnect: OnReconnect,
    retry_backoff: nat,
    events: Seq<Event>,
    now: nat,
    wifi_connected: bool,
)
    ensures
        PolicyView::fresh(threshold, on_reconnect, retry_backoff).run(events).intent(
            now,
            wifi_connected,
        ) matches IntentView::WifiRestored { stop_hotspot, .. } ==> {
            &&& wifi_connected
            &&& outage_start(events) is Some
            &&& stop_hotspot == (ours(events) && on_reconnect == OnReconnect::StopHotspot)
        },
{
    law_memory(threshold, on_reconnect, retry_backoff, events);
}

/// A connection, however brief, resets the countdown: the next poll without one is the start
/// of a new outage, which waits for the whole threshold again.
pub proof fn law_a_blip_resets_the_countdown(p: PolicyView, up_at: nat, lost_at: nat, now: nat)
    requires
        lost_at <= now < lost_at + p.threshold,
    ensures
        ({
            let up = p.after_poll(up_at, true);
            let lost = up.after_poll(lost_at, false);
            &&& up.intent(lost_at, false) == IntentView::WifiLost
            &&& lost.intent(now, false) == (IntentView::Waiting {
                remaining: (p.threshold - (now - lost_at)) as nat,
            })
        }),
{
}

/// After a failed start, no poll of the same outage asks for the hotspot until the backoff
/// is over.
pub proof fn law_backs_off_after_a_failed_start(
    p: PolicyView,
    failed_at: nat,
    polls: Seq<Event>,
    now: nat,
)
    requires
        all_down(polls),
        now < failed_at + p.retry_backoff,
    ensures
        !(p.after_start_failure(failed_at).run(polls).intent(now, false) is StartHotspot),
        p.after_start_failure(failed_at).run(polls).retry_after == Some(
            failed_at + p.retry_backoff,
        ),
    decreases polls.len(),
{
    if polls.len() > 0 {
        assert(all_down(polls.drop_last()));
        assert(polls.last() == polls[polls.len() - 1]);
        law_backs_off_after_a_failed_start(p, failed_at, polls.drop_last(), now);
    }
}

/// A reconnection clears a pending backoff: the attempt of the next outage is made as soon
/// as its own threshold has passed.
pub proof fn law_a_reconnect_clears_the_backoff(p: PolicyView, up_at: nat, lost_at: nat, now: nat)
    requires
        p.disconnected_since is Some,
        now >= lost_at + p.threshold,
    ensures
        p.after_poll(up_at, true).after_poll(lost_at, false).intent(now, false)
            == (IntentView::StartHotspot { down_for: (now - lost_at) as nat }),
{
}

/// The hotspot keeps being asked for at every later poll of the outage, for as long as
/// nothing is reported back.
pub proof fn law_keeps_asking(p: PolicyView, now: nat, polls: Seq<Event>, later: nat)
    requires
        p.intent(now, false) is StartHotspot,
        now <= later,
        all_down(polls),
    ensures
        p.run(polls) == p,
        p.run(polls).intent(later, false) is StartHotspot,
    decreases polls.len(),
{
    if polls.len() > 0 {
        assert(all_down(polls.drop_last()));
        assert(polls.last() == polls[polls.len() - 1]);
        law_keeps_asking(p, now, polls.drop_last(), later);
    }
}

/// While Wi-Fi stays up there is nothing to do, and nothing changes.
pub proof fn law_idle_while_wifi_is_up(p: PolicyView, now: nat)
    requires
        p.disconnected_since is None,
    ensures
        p.intent(now, true) == IntentView::Idle,
        p.after_poll(now, true) == p,
{
}

/// After a start that failed, every poll of the outage counts down to the end of the backoff,
/// which runs from that failure, whatever failed before: the time it names leads to the first
/// moment at which the hotspot is asked for again.
pub proof fn law_the_retry_countdown_runs_from_the_last_failure(
    p: PolicyView,
    since: nat,
    failed_at: nat,
    polls: Seq<Event>,
    now: nat,
    later: nat,
)
    requires
        p.disconnected_since == Some(since),
        all_down(polls),
        since + p.threshold <= now,
        failed_at <= now < failed_at + p.retry_backoff,
        now <= later,
    ensures
        ({
            let after = p.after_start_failure(failed_at).run(polls);
            &&& after.intent(now, false) matches IntentView::HoldingForRetry { retry_in } && {
                &&& now + retry_in == failed_at + p.retry_backoff
                &&& after.intent(later, false) is StartHotspot <==> later >= now + retry_in
                &&& after.intent(later, false) is HoldingForRetry <==> later < now + retry_in
            }
        }),
    decreases polls.len(),
{
    if polls.len() > 0 {
        assert(all_down(polls.drop_last()));
        assert(polls.last() == polls[polls.len() - 1]);
        law_the_retry_countdown_runs_from_the_last_failure(
            p,
            since,
            failed_at,
            polls.drop_last(),
            now,
            later,
        );
    }
}

/// While the threshold is waited out, the time named leads to the first moment at which the
/// wait is over, which is the threshold after the outage was noticed.
pub proof fn law_the_countdown_leads_to_the_threshold(p: PolicyView, since: nat, now: nat, later: nat)
    requires
        p.disconnected_since == Some(since),
        since <= now < since + p.threshold,
        now <= later,
    ensures
        p.intent(now, false) matches IntentView::Waiting { remaining } && {
            &&& now + remaining == since + p.threshold
            &&& p.intent(later, false) is Waiting <==> later < now + remaining
        },
{
}

/// Until when a failed start is being waited out after `events`: for `backoff` from the last
/// that failed, unless the hotspot was started or an outage ended since.
pub open spec fn held_until(events: Seq<Event>, backoff: nat) -> Option<nat>
    decreases events.len(),
{
    if events.len() == 0 {
        None
    } else {
        match events.last() {
            Event::StartFailed { now } => Some(now + backoff),
            Event::Started => None,
            Event::Stopped => held_until(events.drop_last(), backoff),
            Event::Poll { wifi_connected, .. } => if wifi_connected && outage_start(
                events.drop_last(),
            ) is Some {
                None
            } else {
                held_until(events.drop_last(), backoff)
            },
        }
    }
}

/// Every answer is a matter of what was heard before: when the outage began, whose the hotspot
/// is, and until when a failed start is waited out.
pub proof fn law_every_answer_follows_from_the_run(
    threshold: nat,
    on_reconnect: OnReconnect,
    retry_backoff: nat,
    events: Seq<Event>,
    now: nat,
)
    ensures
        ({
            let p = PolicyView::fresh(threshold, on_reconnect, retry_backoff).run(events);
            let held = held_until(events, retry_backoff);
            match outage_start(events) {
                None => {
                    &&& p.intent(now, true) is Idle
                    &&& p.intent(now, false) is WifiLost
                },
                Some(since) => {
                    &&& p.intent(now, true) matches IntentView::WifiRestored {
                        down_for,
                        stop_hotspot,
                    } && {
                        &&& now >= since ==> since + down_for == now
                        &&& now < since ==> down_for == 0
                        &&& stop_hotspot <==> ours(events) && on_reconnect
                            == OnReconnect::StopHotspot
                    }
                    &&& match p.intent(now, false) {
                        IntentView::Waiting { remaining } => {
                            &&& threshold > 0
                            &&& now < since + threshold
                            &&& now >= since ==> now + remaining == since + threshold
                            &&& now < since ==> remaining == threshold
                        },
                        IntentView::HoldingForRetry { retry_in } => {
                            &&& threshold == 0 || now >= since + threshold
                            &&& held is Some
                            &&& now < held->0
                            &&& now + retry_in == held->0
                        },
                        IntentView::StartHotspot { down_for } => {
                            &&& threshold == 0 || now >= since + threshold
                            &&& held is None || now >= held->0
                            &&& now >= since ==> since + down_for == now
                            &&& now < since ==> down_for == 0
                        },
                        _ => false,
                    }
                },
            }
        }),
{
    law_memory(threshold, on_reconnect, retry_backoff, events);
    lemma_held(threshold, on_reconnect, retry_backoff, events);
}

/// What a policy remembers of a failed start is a matter of the run.
proof fn lemma_held(
    threshold: nat,
    on_reconnect: OnReconnect,
    retry_backoff: nat,
    events: Seq<Event>,
)
    ensures
        PolicyView::fresh(threshold, on_reconnect, retry_backoff).run(events).retry_after
            == held_until(events, retry_backoff),
    decreases events.len(),
{
    if events.len() > 0 {
        law_memory(threshold, on_reconnect, retry_backoff, events.drop_last());
        lemma_held(threshold, on_reconnect, retry_backoff, events.drop_last());
    }
}

} // verus!
