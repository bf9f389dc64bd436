//! Mobile Hotspot control: what Windows' tethering states, capabilities and outcomes mean,
//! and which connection a hotspot shares.

use crate::adapters::{Adapter, Guid};
use crate::config::{Band, HotspotConfig};
use crate::text::{eq_ignore_ascii_case, trim};
use crate::uplink::{
    candidates, choose_uplink, resolve_hotspot_adapter, Candidate, Profile, UplinkError,
    LEVEL_CONSTRAINED_INTERNET_ACCESS, LEVEL_INTERNET_ACCESS, LEVEL_LOCAL_ACCESS,
};
use vstd::prelude::*;

verus! {

/// Tethering operations talk to the Wi-Fi driver and can take a few seconds; this many
/// seconds are a backstop so a wedged driver cannot hang the watchdog loop forever.
pub const OPERATION_TIMEOUT_SECS: u64 = 45;

/// What the user is told of an operation that took longer than [`OPERATION_TIMEOUT_SECS`].
pub open spec fn timed_out(what: Seq<char>) -> Seq<char> {
    what + " did not complete within 45s"@
}

/// What the user is told of an operation that took longer than [`OPERATION_TIMEOUT_SECS`].
pub fn timeout_message(what: &str) -> (r: String)
    ensures
        r@ == timed_out(what@),
{
    let mut r = what.to_string();
    r.append(" did not complete within 45s");
    r
}

// --- states and bands ------------------------------------------------------------

/// Windows' tethering state for a hotspot that is on.
pub const TETHERING_ON: i32 = 1;

/// Windows' tethering state for a hotspot that is off.
pub const TETHERING_OFF: i32 = 2;

/// Windows' tethering state for a hotspot that is being switched on or off.
pub const TETHERING_IN_TRANSITION: i32 = 3;

/// High-level hotspot state.
#[derive(Debug, Clone, Copy, PartialEq, Eq, Structural)]
pub enum State {
    On,
    Off,
    InTransition,
    Unknown,
}

impl State {
    /// The state that a number Windows reports stands for.
    pub open spec fn numbered(state: i32) -> State {
        if state == TETHERING_ON {
            State::On
        } else if state == TETHERING_OFF {
            State::Off
        } else if state == TETHERING_IN_TRANSITION {
            State::InTransition
        } else {
            State::Unknown
        }
    }

    /// The state that a number Windows reports stands for.
    pub fn from_winrt(state: i32) -> (r: State)
        ensures
            r == State::numbered(state),
    {
        if state == TETHERING_ON {
            State::On
        } else if state == TETHERING_OFF {
            State::Off
        } else if state == TETHERING_IN_TRANSITION {
            State::InTransition
        } else {
            State::Unknown
        }
    }

    /// How a state is called.
    pub open spec fn text(self) -> Seq<char> {
        match self {
            State::On => "on"@,
            State::Off => "off"@,
            State::InTransition => "in-transition"@,
            State::Unknown => "unknown"@,
        }
    }

    /// How this state is called in logs.
    pub fn to_text(&self) -> (r: &'static str)
        ensures
            r@ == self.text(),
    {
        match self {
            State::On => "on",
            State::Off => "off",
            State::InTransition => "in-transition",
            State::Unknown => "unknown",
        }
    }
}

impl Band {
    /// The number Windows knows this band by.
    pub open spec fn number(self) -> i32 {
        match self {
            Band::Auto => 0i32,
            Band::TwoPointFourGigahertz => 1i32,
            Band::FiveGigahertz => 2i32,
            Band::SixGigahertz => 3i32,
        }
    }

    /// The number Windows knows this band by.
    pub fn to_winrt(self) -> (r: i32)
        ensures
            r == self.number(),
    {
        match self {
            Band::Auto => 0,
            Band::TwoPointFourGigahertz => 1,
            Band::FiveGigahertz => 2,
            Band::SixGigahertz => 3,
        }
    }
}

// --- capability ------------------------------------------------------------------

/// Windows' tethering capability for a connection that can be shared.
pub const CAPABILITY_ENABLED: i32 = 0;

/// How a tethering capability is called.
pub open spec fn capability_text(capability: i32) -> Seq<char> {
    if capability == CAPABILITY_ENABLED {
        "enabled"@
    } else if capability == 1 {
        "disabled by group policy"@
    } else if capability == 2 {
        "disabled by a hardware limitation"@
    } else if capability == 3 {
        "disabled by the mobile operator"@
    } else if capability == 4 {
        "disabled by this Windows edition"@
    } else if capability == 5 {
        "disabled because a required app is not installed"@
    } else if capability == 6 {
        "disabled for an unknown reason"@
    } else if capability == 7 {
        "disabled by a system capability"@
    } else {
        "unrecognised capability"@
    }
}

/// How a tethering capability is called.
pub fn describe_capability(capability: i32) -> (r: &'static str)
    ensures
        r@ == capability_text(capability),
{
    if capability == CAPABILITY_ENABLED {
        "enabled"
    } else if capability == 1 {
        "disabled by group policy"
    } else if capability == 2 {
        "disabled by a hardware limitation"
    } else if capability == 3 {
        "disabled by the mobile operator"
    } else if capability == 4 {
        "disabled by this Windows edition"
    } else if capability == 5 {
        "disabled because a required app is not installed"
    } else if capability == 6 {
        "disabled for an unknown reason"
    } else if capability == 7 {
        "disabled by a system capability"
    } else {
        "unrecognised capability"
    }
}

/// Why the connection called `profile_name` may not be shared, if it may not -- see
/// [`check_capability`].
pub open spec fn capability_fault(profile_name: Seq<char>, probed: Option<i32>) -> Option<
    Seq<char>,
> {
    if probed is None || probed == Some(CAPABILITY_ENABLED) {
        None
    } else {
        Some(
            "Windows reports tethering is not available on '"@ + profile_name + "': "@
                + capability_text(probed->0),
        )
    }
}

/// May the connection called `profile_name` be shared? `probed` is the capability Windows
/// reports for it, where it does; otherwise that is not fatal on its own, the probe being
/// advisory.
pub fn check_capability(profile_name: &str, probed: Option<i32>) -> (r: Result<(), String>)
    ensures
        match r {
            Ok(()) => capability_fault(profile_name@, probed) is None,
            Err(message) => capability_fault(profile_name@, probed) == Some(message@),
        },
{
    match probed {
        Some(capability) => if capability == CAPABILITY_ENABLED {
            Ok(())
        } else {
            let mut message = "Windows reports tethering is not available on '".to_string();
            message.append(profile_name);
            message.append("': ");
            message.append(describe_capability(capability));
            Err(message)
        },
        None => Ok(()),
    }
}

// --- outcomes --------------------------------------------------------------------

/// Windows' status for a tethering operation that worked.
pub const STATUS_SUCCESS: i32 = 0;

/// Windows' status for starting a hotspot that is already on.
pub const STATUS_ALREADY_ON: i32 = 9;

/// How the status of a tethering operation is called.
pub open spec fn status_text(status: i32) -> Seq<char> {
    if status == STATUS_SUCCESS {
        "success"@
    } else if status == 1 {
        "unknown error"@
    } else if status == 2 {
        "the mobile broadband device is off"@
    } else if status == 3 {
        "the Wi-Fi device is off"@
    } else if status == 4 {
        "the entitlement check timed out"@
    } else if status == 5 {
        "the entitlement check failed"@
    } else if status == 6 {
        "another tethering operation is in progress"@
    } else if status == 7 {
        "the Bluetooth device is off"@
    } else if status == 8 {
        "the uplink network has limited connectivity"@
    } else if status == STATUS_ALREADY_ON {
        "the hotspot is already on"@
    } else if status == 10 {
        "a radio restriction is in effect"@
    } else if status == 11 {
        "band interference was detected"@
    } else {
        "unrecognised status"@
    }
}

/// How the status of a tethering operation is called.
pub fn describe_status(status: i32) -> (r: &'static str)
    ensures
        r@ == status_text(status),
{
    if status == STATUS_SUCCESS {
        "success"
    } else if status == 1 {
        "unknown error"
    } else if status == 2 {
        "the mobile broadband device is off"
    } else if status == 3 {
        "the Wi-Fi device is off"
    } else if status == 4 {
        "the entitlement check timed out"
    } else if status == 5 {
        "the entitlement check failed"
    } else if status == 6 {
        "another tethering operation is in progress"
    } else if status == 7 {
        "the Bluetooth device is off"
    } else if status == 8 {
        "the uplink network has limited connectivity"
    } else if status == STATUS_ALREADY_ON {
        "the hotspot is already on"
    } else if status == 10 {
        "a radio restriction is in effect"
    } else if status == 11 {
        "band interference was detected"
    } else {
        "unrecognised status"
    }
}

/// The driver's own message in brackets, where there is one.
pub open spec fn bracketed(message: Option<Seq<char>>) -> Seq<char> {
    match message {
        Some(m) if m.len() > 0 => " ("@ + m + ")"@,
        _ => Seq::<char>::empty(),
    }
}

/// The driver's own message in brackets, where there is one.
pub fn additional_message(message: Option<&str>) -> (r: String)
    ensures
        r@ == bracketed(crate::text::text_of(message)),
{
    match message {
        Some(m) => if m.unicode_len() > 0 {
            let mut r = " (".to_string();
            r.append(m);
            r.append(")");
            r
        } else {
            String::new()
        },
        None => String::new(),
    }
}

/// How switching the hotspot on came out.
#[derive(Debug, Clone, PartialEq, Eq)]
pub enum Started {
    /// It was switched on.
    Now,
    /// It was on already.
    Already,
}

/// How switching the hotspot on came out, and what the user is told where it failed.
pub open spec fn start_judged(status: i32, message: Option<Seq<char>>) -> Result<
    Started,
    Seq<char>,
> {
    if status == STATUS_SUCCESS {
        Ok(Started::Now)
    } else if status == STATUS_ALREADY_ON {
        Ok(Started::Already)
    } else {
        Err("starting the hotspot failed: "@ + status_text(status) + bracketed(message))
    }
}

/// What the user is told of switching the hotspot off, where it failed.
pub open spec fn stop_fault(status: i32, message: Option<Seq<char>>) -> Option<Seq<char>> {
    if status == STATUS_SUCCESS {
        None
    } else {
        Some("stopping the hotspot failed: "@ + status_text(status) + bracketed(message))
    }
}

/// Judge the status that switching the hotspot on came back with.
pub fn start_outcome(status: i32, message: Option<&str>) -> (r: Result<Started, String>)
    ensures
        match r {
            Ok(how) => start_judged(status, crate::text::text_of(message)) == Ok::<
                Started,
                Seq<char>,
            >(how),
            Err(e) => start_judged(status, crate::text::text_of(message)) == Err::<
                Started,
                Seq<char>,
            >(e@),
        },
{
    if status == STATUS_SUCCESS {
        Ok(Started::Now)
    } else if status == STATUS_ALREADY_ON {
        Ok(Started::Already)
    } else {
        let mut e = "starting the hotspot failed: ".to_string();
        e.append(describe_status(status));
        e.append(additional_message(message).as_str());
        Err(e)
    }
}

/// Judge the status that switching the hotspot off came back with.
pub fn stop_outcome(status: i32, message: Option<&str>) -> (r: Result<(), String>)
    ensures
        match r {
            Ok(()) => stop_fault(status, crate::text::text_of(message)) is None,
            Err(e) => stop_fault(status, crate::text::text_of(message)) == Some(e@),
        },
{
    if status == STATUS_SUCCESS {
        Ok(())
    } else {
        let mut e = "stopping the hotspot failed: ".to_string();
        e.append(describe_status(status));
        e.append(additional_message(message).as_str());
        Err(e)
    }
}

// --- setting up the access point -------------------------------------------------

/// The steps of pushing the configuration into the access point and switching it on, in
/// order.
#[derive(Debug, Clone, Copy, PartialEq, Eq, Structural)]
pub enum SetupStep {
    ReadAccessPoint,
    SetSsid,
    SetPassphrase,
    SetBand,
    Configure,
    StartTethering,
}

/// What follows a step.
#[derive(Debug, Clone, Copy, PartialEq, Eq, Structural)]
pub enum AfterStep {
    /// Take this step next.
    Take(SetupStep),
    /// That was the last one.
    Done,
    /// The setup has failed.
    Fail,
}

impl SetupStep {
    /// The step after this one.
    pub open spec fn next(self) -> AfterStep {
        match self {
            SetupStep::ReadAccessPoint => AfterStep::Take(SetupStep::SetSsid),
            SetupStep::SetSsid => AfterStep::Take(SetupStep::SetPassphrase),
            SetupStep::SetPassphrase => AfterStep::Take(SetupStep::SetBand),
            SetupStep::SetBand => AfterStep::Take(SetupStep::Configure),
            SetupStep::Configure => AfterStep::Take(SetupStep::StartTethering),
            SetupStep::StartTethering => AfterStep::Done,
        }
    }

    /// What follows this step, depending on how it went -- see [`SetupStep::after`].
    pub open spec fn following(self, succeeded: bool) -> AfterStep {
        if succeeded || self == SetupStep::SetBand {
            self.next()
        } else {
            AfterStep::Fail
        }
    }

    /// What follows this step. Band control arrived later than the rest of the API and is not
    /// implemented by every Wi-Fi driver: a band we cannot set is worth a warning, not a
    /// failed hotspot. Any other failure ends the setup.
    pub fn after(&self, succeeded: bool) -> (r: AfterStep)
        ensures
            r == self.following(succeeded),
    {
        if !succeeded && *self != SetupStep::SetBand {
            return AfterStep::Fail;
        }
        match self {
            SetupStep::ReadAccessPoint => AfterStep::Take(SetupStep::SetSsid),
            SetupStep::SetSsid => AfterStep::Take(SetupStep::SetPassphrase),
            SetupStep::SetPassphrase => AfterStep::Take(SetupStep::SetBand),
            SetupStep::SetBand => AfterStep::Take(SetupStep::Configure),
            SetupStep::Configure => AfterStep::Take(SetupStep::StartTethering),
            SetupStep::StartTethering => AfterStep::Done,
        }
    }

    /// What a failure of this step is reported as.
    pub fn context(&self) -> (r: &'static str)
        ensures
            r@ == match *self {
                SetupStep::ReadAccessPoint => "reading access point configuration"@,
                SetupStep::SetSsid => "setting hotspot SSID"@,
                SetupStep::SetPassphrase => "setting hotspot passphrase"@,
                SetupStep::SetBand =>
                    "could not set the hotspot band, leaving the driver default"@,
                SetupStep::Configure => "ConfigureAccessPointAsync"@,
                SetupStep::StartTethering => "StartTetheringAsync"@,
            },
    {
        match self {
            SetupStep::ReadAccessPoint => "reading access point configuration",
            SetupStep::SetSsid => "setting hotspot SSID",
            SetupStep::SetPassphrase => "setting hotspot passphrase",
            SetupStep::SetBand => "could not set the hotspot band, leaving the driver default",
            SetupStep::Configure => "ConfigureAccessPointAsync",
            SetupStep::StartTethering => "StartTetheringAsync",
        }
    }
}

// --- the uplink ------------------------------------------------------------------

/// The rank of a network with internet access.
pub const RANK_INTERNET: u8 = 3;

/// The rank of a connectivity level.
pub open spec fn rank(level: Option<i32>) -> u8 {
    match level {
        Some(l) => if l == LEVEL_INTERNET_ACCESS {
            RANK_INTERNET
        } else if l == LEVEL_CONSTRAINED_INTERNET_ACCESS {
            2
        } else if l == LEVEL_LOCAL_ACCESS {
            1
        } else {
            0
        },
        None => 0,
    }
}

/// Rank profiles so the one actually carrying internet is preferred as the uplink.
pub fn rank_connectivity(level: Option<i32>) -> (r: u8)
    ensures
        r == rank(level),
{
    match level {
        Some(l) => if l == LEVEL_INTERNET_ACCESS {
            RANK_INTERNET
        } else if l == LEVEL_CONSTRAINED_INTERNET_ACCESS {
            2
        } else if l == LEVEL_LOCAL_ACCESS {
            1
        } else {
            0
        },
        None => 0,
    }
}

/// Prefer a wired Ethernet adapter over any other adapter type outright -- a wired link
/// is the predictable, always-safe choice to share, unlike Wi-Fi (which can't reliably
/// also host the hotspot) or anything else. Connectivity rank only breaks a tie between
/// candidates that are equally Ethernet, or equally not. Tuple comparison is
/// lexicographic and `false < true`, so `is_ethernet` dominates and connectivity rank
/// only decides ties within the same Ethernet-ness.
pub fn uplink_score(level: Option<i32>, is_ethernet: bool) -> (r: (bool, u8))
    ensures
        r == (is_ethernet, rank(level)),
{
    (is_ethernet, rank_connectivity(level))
}

/// Does one of the adapters answer to `name` and have this GUID?
pub open spec fn named_guid(adapters: Seq<Adapter>, name: Seq<char>, guid: Guid) -> bool {
    exists|k: int|
        0 <= k < adapters.len() && (#[trigger] adapters[k]).answers_to(name) && adapters[k].guid
            == guid
}

/// Does an adapter that answers to `name` carry this profile?
pub open spec fn carried_by_name(
    profile: Profile,
    name: Seq<char>,
    adapters: Seq<Adapter>,
) -> bool {
    profile.adapter_guid is Some && named_guid(adapters, name, profile.adapter_guid->0)
}

/// Does the config ask for this profile? "auto" asks for every profile whose adapter can be
/// identified; a name for those of any adapter, or any network, that it names. The hotspot's
/// own virtual adapter is never asked for.
pub open spec fn wanted(profile: Profile, cfg: HotspotConfig, adapters: Seq<Adapter>) -> bool {
    &&& !profile.is_hotspots_own(adapters)
    &&& if cfg.auto_uplink() {
        profile.carrier(adapters) is Some
    } else {
        ||| carried_by_name(profile, cfg.uplink_adapter@, adapters)
        ||| crate::text::reads_like(cfg.uplink_adapter@, profile.network_name@)
    }
}

/// Which profiles the config asks for.
pub open spec fn wanted_among(
    cfg: HotspotConfig,
    profiles: Seq<Profile>,
    adapters: Seq<Adapter>,
) -> Seq<bool> {
    Seq::new(profiles.len(), |i: int| wanted(profiles[i], cfg, adapters))
}

/// The GUIDs of the adapters that answer to `name`.
fn guids_named(name: &str, adapters: &[Adapter]) -> (r: Vec<Guid>)
    ensures
        forall|g: Guid| r@.contains(g) == named_guid(adapters@, name@, g),
{
    let mut r: Vec<Guid> = Vec::new();
    let mut k: usize = 0;
    while k < adapters.len()
        invariant
            k <= adapters@.len(),
            forall|g: Guid| r@.contains(g) == named_guid(adapters@.take(k as int), name@, g),
        decreases adapters@.len() - k,
    {
        let ghost before = r@;
        let ghost seen = adapters@.take(k as int);
        let ghost now = adapters@.take(k + 1);
        if adapters[k].matches(name) {
            r.push(adapters[k].guid);
        }
        assert forall|g: Guid| r@.contains(g) == named_guid(now, name@, g) by {
            if named_guid(seen, name@, g) {
                let m = choose|m: int|
                    0 <= m < seen.len() && (#[trigger] seen[m]).answers_to(name@) && seen[m].guid
                        == g;
                assert(now[m] == seen[m]);
                let i = choose|i: int| 0 <= i < before.len() && before[i] == g;
                assert(before.contains(g));
                assert(r@[i] == g);
            } else if named_guid(now, name@, g) {
                let m = choose|m: int|
                    0 <= m < now.len() && (#[trigger] now[m]).answers_to(name@) && now[m].guid
                        == g;
                if m < k {
                    assert(seen[m] == now[m]);
                }
                assert(r@[before.len() as int] == g);
            } else if r@.contains(g) {
                let i = choose|i: int| 0 <= i < r@.len() && r@[i] == g;
                assert(!before.contains(g));
                if i < before.len() {
                    assert(before[i] == g);
                }
                assert(now[k as int].answers_to(name@) && now[k as int].guid == g);
            }
        }
        k = k + 1;
    }
    assert(adapters@.take(adapters@.len() as int) =~= adapters@);
    r
}

/// Is `guid` one of `guids`?
fn is_among(guid: &Guid, guids: &Vec<Guid>) -> (r: bool)
    ensures
        r == guids@.contains(*guid),
{
    let mut k: usize = 0;
    while k < guids.len()
        invariant
            k <= guids.len(),
            forall|j: int| 0 <= j < k ==> guids@[j] != *guid,
        decreases guids.len() - k,
    {
        if guids[k].same(guid) {
            assert(guids@[k as int] == *guid);
            return true;
        }
        k = k + 1;
    }
    false
}

/// Does the config ask for this candidate? `named` are the GUIDs of the adapters that answer
/// to the configured name.
fn is_wanted(
    candidate: &Candidate,
    cfg: &HotspotConfig,
    auto: bool,
    named: &Vec<Guid>,
    Ghost(adapters): Ghost<Seq<Adapter>>,
) -> (r: bool)
    requires
        candidate.stands_for(*candidate.profile, adapters),
        auto == cfg.auto_uplink(),
        !auto ==> forall|g: Guid|
            named@.contains(g) == named_guid(adapters, cfg.uplink_adapter@, g),
    ensures
        r == wanted(*candidate.profile, *cfg, adapters),
{
    if auto {
        return candidate.is_auto_candidate();
    }
    if candidate.is_hotspots_own() {
        return false;
    }
    let carried = match &candidate.profile.adapter_guid {
        Some(guid) => is_among(guid, named),
        None => false,
    };
    carried || eq_ignore_ascii_case(
        candidate.profile.network_name.as_str(),
        trim(cfg.uplink_adapter.as_str()),
    )
}

/// Locate the connection profile to use as the hotspot's uplink: its place in `profiles`,
/// and a label for it.
///
/// `cfg.uplink_adapter` is either a specific adapter -- matched against its friendly
/// name or hardware description, then the network profile name as a fallback, so either
/// spelling in the config works -- or the literal [`crate::config::AUTO_ADAPTER`]
/// (`"auto"`), which instead considers every currently connected network. The hotspot's own
/// virtual adapter, and whatever `cfg.hotspot_adapter` resolves to (see
/// [`resolve_hotspot_adapter`]), are always excluded: an adapter can't be both its own uplink
/// and its own hotspot.
///
/// It differs from [`crate::uplink::find_profile`] where several adapters share one GUID:
/// there the first of them has to answer to the configured name, here any of them may.
pub fn find_uplink_profile(
    cfg: &HotspotConfig,
    profiles: &[Profile],
    adapters: &[Adapter],
) -> (r: Result<(usize, String), UplinkError>)
    ensures
        match r {
            Ok((i, label)) => {
                &&& crate::uplink::is_best(
                    crate::uplink::usable_among(
                        wanted_among(*cfg, profiles@, adapters@),
                        *cfg,
                        profiles@,
                        adapters@,
                    ),
                    crate::uplink::scores(profiles@, adapters@),
                    i as int,
                )
                &&& label@ == profiles@[i as int].label(adapters@)
            },
            Err(e) => {
                &&& forall|i: int|
                    0 <= i < profiles@.len() ==> !#[trigger] crate::uplink::usable_among(
                        wanted_among(*cfg, profiles@, adapters@),
                        *cfg,
                        profiles@,
                        adapters@,
                    )[i]
                &&& e@ == crate::uplink::UplinkFault::of(
                    wanted_among(*cfg, profiles@, adapters@),
                    *cfg,
                    profiles@,
                    adapters@,
                )
            },
        },
{
    let candidates = candidates(profiles, adapters);
    let auto = cfg.is_auto_uplink();
    let named: Vec<Guid> = if auto {
        Vec::new()
    } else {
        guids_named(cfg.uplink_adapter.as_str(), adapters)
    };
    let hotspot_adapter = resolve_hotspot_adapter(cfg.hotspot_adapter.as_str(), adapters);
    let mut wanted: Vec<bool> = Vec::new();
    let mut k: usize = 0;
    while k < candidates.len()
        invariant
            k <= candidates.len(),
            auto == cfg.auto_uplink(),
            !auto ==> forall|g: Guid|
                named@.contains(g) == named_guid(adapters@, cfg.uplink_adapter@, g),
            crate::uplink::stand_for(candidates@, profiles@, adapters@),
            wanted@.len() == k,
            forall|i: int|
                0 <= i < k ==> #[trigger] wanted@[i] == self::wanted(
                    profiles@[i],
                    *cfg,
                    adapters@,
                ),
        decreases candidates.len() - k,
    {
        assert(candidates@[k as int].stands_for(profiles@[k as int], adapters@));
        wanted.push(is_wanted(&candidates[k], cfg, auto, &named, Ghost(adapters@)));
        k = k + 1;
    }
    assert(wanted@ =~= wanted_among(*cfg, profiles@, adapters@));
    choose_uplink(
        cfg,
        &candidates,
        &wanted,
        &hotspot_adapter,
        Ghost(profiles@),
        Ghost(adapters@),
    )
}

// --- laws ------------------------------------------------------------------------

/// The rank of a level is the place of what it is worth.
pub proof fn law_ranks_agree(level: Option<i32>)
    ensures
        rank(level) == crate::uplink::Connectivity::worth(level).rank(),
{
}

/// Where no two adapters share a GUID, the two ways of locating the uplink ask for the same
/// profiles.
pub proof fn law_both_lookups_want_the_same(
    cfg: HotspotConfig,
    profiles: Seq<Profile>,
    adapters: Seq<Adapter>,
)
    requires
        forall|i: int, j: int|
            0 <= i < j < adapters.len() ==> (#[trigger] adapters[i]).guid != (
            #[trigger] adapters[j]).guid,
    ensures
        wanted_among(cfg, profiles, adapters) == crate::uplink::wanted_among(
            cfg,
            profiles,
            adapters,
        ),
{
    let name = cfg.uplink_adapter@;
    assert forall|i: int| 0 <= i < profiles.len() implies wanted(
        #[trigger] profiles[i],
        cfg,
        adapters,
    ) == profiles[i].wanted(cfg, adapters) by {
        let p = profiles[i];
        if p.adapter_guid is Some {
            let guid = p.adapter_guid->0;
            let has = |a: Adapter| a.guid == guid;
            crate::lists::lemma_first(adapters, has);
            match crate::lists::first(adapters, has) {
                Some(a) => {
                    let m = choose|m: int| 0 <= m < adapters.len() && adapters[m] == a;
                    if carried_by_name(p, name, adapters) {
                        let k = choose|k: int|
                            0 <= k < adapters.len() && (#[trigger] adapters[k]).answers_to(name)
                                && adapters[k].guid == guid;
                        if k < m {
                            assert(adapters[k].guid != adapters[m].guid);
                        } else if m < k {
                            assert(adapters[m].guid != adapters[k].guid);
                        }
                    }
                    if a.answers_to(name) {
                        assert(adapters[m].answers_to(name) && adapters[m].guid == guid);
                    }
                },
                None => {
                    if carried_by_name(p, name, adapters) {
                        let k = choose|k: int|
                            0 <= k < adapters.len() && (#[trigger] adapters[k]).answers_to(name)
                                && adapters[k].guid == guid;
                        assert(has(adapters[k]));
                    }
                },
            }
        }
    }
    assert(wanted_among(cfg, profiles, adapters) =~= crate::uplink::wanted_among(
        cfg,
        profiles,
        adapters,
    ));
}

/// The states that Windows numbers one to three are told apart, and every other number is a
/// state that is not known.
pub proof fn law_states_are_told_apart(a: i32, b: i32)
    ensures
        State::numbered(a) == State::On <==> a == 1,
        State::numbered(a) == State::Off <==> a == 2,
        State::numbered(a) == State::InTransition <==> a == 3,
        State::numbered(a) == State::numbered(b) ==> a == b || (!(1 <= a <= 3) && !(1 <= b <= 3)),
{
}

/// No two bands have the same number, and the choice of none is the least.
pub proof fn law_bands_are_told_apart(a: Band, b: Band)
    ensures
        a.number() == b.number() ==> a == b,
        0 <= a.number() <= 3,
        a.number() == 0 <==> a == Band::Auto,
        a == Band::TwoPointFourGigahertz && b == Band::FiveGigahertz ==> a.number() < b.number(),
        a == Band::FiveGigahertz && b == Band::SixGigahertz ==> a.number() < b.number(),
{
}

/// Sharing a connection is refused only where Windows says that it cannot be done: a failed
/// probe is no reason. The refusal names the connection, and ends with the reason.
pub proof fn law_only_a_reported_limit_forbids_sharing(name: Seq<char>, probed: Option<i32>)
    ensures
        capability_fault(name, probed) is None <==> (probed matches Some(c) ==> c == 0),
        capability_fault(name, probed) matches Some(message) ==> {
            let reason = capability_text(probed->0);
            &&& message.len() >= reason.len()
            &&& message.skip(message.len() - reason.len()) == reason
            &&& exists|at: int|
                0 <= at && at + name.len() <= message.len() && #[trigger] message.subrange(
                    at,
                    at + name.len(),
                ) == name
        },
{
    if capability_fault(name, probed) is Some {
        let message = capability_fault(name, probed)->0;
        let reason = capability_text(probed->0);
        assert(message.skip(message.len() - reason.len()) =~= reason);
        let at = "Windows reports tethering is not available on '"@.len() as int;
        assert(message.subrange(at, at + name.len()) =~= name);
    }
}

/// Starting succeeds if the hotspot was switched on or was on already, and stopping if it was
/// switched off; every other status is a failure, and the user is told what it means and what
/// the driver has to say.
pub proof fn law_only_success_is_a_success(status: i32, message: Option<Seq<char>>)
    ensures
        start_judged(status, message) == Ok::<Started, Seq<char>>(Started::Now) <==> status == 0,
        start_judged(status, message) == Ok::<Started, Seq<char>>(Started::Already) <==> status
            == 9,
        stop_fault(status, message) is None <==> status == 0,
        start_judged(status, message) matches Err(e) ==> {
            let told = status_text(status) + bracketed(message);
            e.len() >= told.len() && e.skip(e.len() - told.len()) == told
        },
        stop_fault(status, message) matches Some(e) ==> {
            let told = status_text(status) + bracketed(message);
            e.len() >= told.len() && e.skip(e.len() - told.len()) == told
        },
{
    let told = status_text(status) + bracketed(message);
    if let Err(e) = start_judged(status, message) {
        assert(e.skip(e.len() - told.len()) =~= told);
    }
    if let Some(e) = stop_fault(status, message) {
        assert(e.skip(e.len() - told.len()) =~= told);
    }
}

/// The driver's message is passed on whole, and nothing is said where there is none.
pub proof fn law_the_drivers_message_is_passed_on(message: Seq<char>)
    ensures
        bracketed(None).len() == 0,
        message.len() == 0 ==> bracketed(Some(message)).len() == 0,
        message.len() > 0 ==> bracketed(Some(message)).len() == message.len() + 3 && bracketed(
            Some(message),
        ).subrange(2, 2 + message.len() as int) == message,
{
    reveal_strlit(" (");
    reveal_strlit(")");
    if message.len() > 0 {
        assert(bracketed(Some(message)).subrange(2, 2 + message.len() as int) =~= message);
    }
}

/// The steps of a setup up to `count` of them, as long as each leads to another.
pub open spec fn setup_after(count: nat, succeeded: spec_fn(SetupStep) -> bool) -> AfterStep
    decreases count,
{
    if count == 0 {
        AfterStep::Take(SetupStep::ReadAccessPoint)
    } else {
        match setup_after((count - 1) as nat, succeeded) {
            AfterStep::Take(step) => step.following(succeeded(step)),
            end => end,
        }
    }
}

/// A setup reads the access point, sets the SSID, the passphrase and the band, applies them,
/// and only then switches the hotspot on. It is done after these six steps, each taken once,
/// if all went well, but for the band, whose failure is no reason to give up; any other
/// failure is, at once.
pub proof fn law_the_course_of_a_setup(succeeded: spec_fn(SetupStep) -> bool)
    ensures
        ({
            let well = succeeded(SetupStep::ReadAccessPoint) && succeeded(SetupStep::SetSsid)
                && succeeded(SetupStep::SetPassphrase) && succeeded(SetupStep::Configure);
            &&& setup_after(5, succeeded) == AfterStep::Take(SetupStep::StartTethering) <==> well
            &&& setup_after(6, succeeded) == AfterStep::Done <==> well && succeeded(
                SetupStep::StartTethering,
            )
            &&& setup_after(6, succeeded) == AfterStep::Fail <==> !(well && succeeded(
                SetupStep::StartTethering,
            ))
            &&& setup_after(1, succeeded) == AfterStep::Take(SetupStep::SetSsid) || setup_after(
                1,
                succeeded,
            ) == AfterStep::Fail
            &&& setup_after(2, succeeded) == AfterStep::Take(SetupStep::SetPassphrase)
                || setup_after(2, succeeded) == AfterStep::Fail
            &&& setup_after(3, succeeded) == AfterStep::Take(SetupStep::SetBand) || setup_after(
                3,
                succeeded,
            ) == AfterStep::Fail
            &&& setup_after(4, succeeded) == AfterStep::Take(SetupStep::Configure)
                || setup_after(4, succeeded) == AfterStep::Fail
            &&& setup_after(3, succeeded) == AfterStep::Take(SetupStep::SetBand) ==> setup_after(
                4,
                succeeded,
            ) == AfterStep::Take(SetupStep::Configure)
        }),
{
    reveal_with_fuel(setup_after, 7);
}

/// A profile can be used if the config asks for it and its carrier is neither the hotspot's
/// own virtual adapter nor one that the hotspot may be broadcast on. A name asks for every
/// profile with the GUID of an adapter that answers to it, and for the network of that name.
/// Nothing else counts.
pub proof fn law_what_can_be_shared(
    cfg: HotspotConfig,
    profiles: Seq<Profile>,
    adapters: Seq<Adapter>,
    i: int,
)
    requires
        0 <= i < profiles.len(),
    ensures
        ({
            let name = crate::text::ascii_lower(crate::text::trimmed(cfg.uplink_adapter@));
            let network = crate::text::ascii_lower(profiles[i].network_name@);
            let named = name != "auto"@ && (network == name || exists|k: int|
                0 <= k < adapters.len() && profiles[i].adapter_guid == Some(
                    (#[trigger] adapters[k]).guid,
                ) && (crate::text::ascii_lower(adapters[k].friendly_name@) == name
                    || crate::text::ascii_lower(adapters[k].description@) == name));
            crate::uplink::usable_among(
                wanted_among(cfg, profiles, adapters),
                cfg,
                profiles,
                adapters,
            )[i] == match profiles[i].carrier(adapters) {
                None => named,
                Some(a) => {
                    &&& name == "auto"@ || named
                    &&& forall|k: int|
                        0 <= k < a.ipv4@.len() ==> !crate::text::has_prefix(
                            (#[trigger] a.ipv4@[k])@,
                            "192.168.137."@,
                        )
                    &&& match crate::uplink::Resolved::of(cfg.hotspot_adapter@, adapters) {
                        crate::uplink::Resolved::Known(Some(own)) => a.guid != own.guid,
                        crate::uplink::Resolved::Known(None) => true,
                        crate::uplink::Resolved::Ambiguous => !a.is_wifi,
                    }
                },
            }
        }),
{
    crate::config::law_auto_is_a_word(cfg);
    let p = profiles[i];
    let name = crate::text::ascii_lower(crate::text::trimmed(cfg.uplink_adapter@));
    if carried_by_name(p, cfg.uplink_adapter@, adapters) {
        let k = choose|k: int|
            0 <= k < adapters.len() && (#[trigger] adapters[k]).answers_to(cfg.uplink_adapter@)
                && adapters[k].guid == p.adapter_guid->0;
        assert(p.adapter_guid == Some(adapters[k].guid));
    }
    if exists|k: int|
        0 <= k < adapters.len() && p.adapter_guid == Some((#[trigger] adapters[k]).guid) && (
        crate::text::ascii_lower(adapters[k].friendly_name@) == name || crate::text::ascii_lower(
            adapters[k].description@,
        ) == name) {
        let k = choose|k: int|
            0 <= k < adapters.len() && p.adapter_guid == Some((#[trigger] adapters[k]).guid) && (
            crate::text::ascii_lower(adapters[k].friendly_name@) == name
                || crate::text::ascii_lower(adapters[k].description@) == name);
        assert(adapters[k].answers_to(cfg.uplink_adapter@) && adapters[k].guid
            == p.adapter_guid->0);
    }
    if p.carrier(adapters) is Some {
        let a = p.carrier(adapters)->0;
        if !a.is_virtual() {
            assert forall|k: int| 0 <= k < a.ipv4@.len() implies !crate::text::has_prefix(
                (#[trigger] a.ipv4@[k])@,
                "192.168.137."@,
            ) by {
                assert(!crate::adapters::on_hotspot_subnet(a.ipv4@[k]));
            }
        } else {
            let k = choose|k: int|
                0 <= k < a.ipv4@.len() && crate::adapters::on_hotspot_subnet(
                    #[trigger] a.ipv4@[k],
                );
            assert(crate::text::has_prefix(a.ipv4@[k]@, "192.168.137."@));
        }
    }
}

/// Whether a profile can be shared does not depend on connectivity: with other levels, the
/// same profiles can be.
pub proof fn law_connectivity_does_not_decide_what_can_be_shared(
    cfg: HotspotConfig,
    profiles: Seq<Profile>,
    others: Seq<Profile>,
    adapters: Seq<Adapter>,
)
    requires
        profiles.len() == others.len(),
        forall|i: int|
            0 <= i < profiles.len() ==> (#[trigger] profiles[i]).network_name
                == others[i].network_name && profiles[i].adapter_guid == others[i].adapter_guid,
    ensures
        crate::uplink::usable_among(
            wanted_among(cfg, profiles, adapters),
            cfg,
            profiles,
            adapters,
        ) == crate::uplink::usable_among(
            wanted_among(cfg, others, adapters),
            cfg,
            others,
            adapters,
        ),
{
    let a = crate::uplink::usable_among(
        wanted_among(cfg, profiles, adapters),
        cfg,
        profiles,
        adapters,
    );
    let b = crate::uplink::usable_among(
        wanted_among(cfg, others, adapters),
        cfg,
        others,
        adapters,
    );
    assert forall|i: int| 0 <= i < profiles.len() implies a[i] == b[i] by {
        assert(profiles[i].carrier(adapters) == others[i].carrier(adapters));
    }
    assert(a =~= b);
}

/// There is a profile to share as soon as one can be, and if one that can be is on a wired
/// adapter, then so is every one that may be chosen, whatever the connectivity.
pub proof fn law_there_is_a_profile_to_share_unless_none_can_be(
    cfg: HotspotConfig,
    profiles: Seq<Profile>,
    adapters: Seq<Adapter>,
    k: int,
)
    requires
        0 <= k < profiles.len(),
        crate::uplink::usable_among(
            wanted_among(cfg, profiles, adapters),
            cfg,
            profiles,
            adapters,
        )[k],
    ensures
        ({
            let usable = crate::uplink::usable_among(
                wanted_among(cfg, profiles, adapters),
                cfg,
                profiles,
                adapters,
            );
            let scored = crate::uplink::scores(profiles, adapters);
            &&& exists|i: int| crate::uplink::is_best(usable, scored, i)
            &&& (profiles[k].carrier(adapters) matches Some(a) && a.is_ethernet) ==> forall|i: int|
                #[trigger] crate::uplink::is_best(usable, scored, i) ==> (profiles[i].carrier(
                    adapters,
                ) matches Some(b) && b.is_ethernet)
        }),
{
    let usable = crate::uplink::usable_among(
        wanted_among(cfg, profiles, adapters),
        cfg,
        profiles,
        adapters,
    );
    let scored = crate::uplink::scores(profiles, adapters);
    crate::uplink::lemma_best_among(usable, scored, usable.len() as int);
    assert forall|i: int|
        #[trigger] crate::uplink::is_best(usable, scored, i) && (profiles[k].carrier(
            adapters,
        ) matches Some(a) && a.is_ethernet) implies (profiles[i].carrier(adapters) matches Some(b)
        && b.is_ethernet) by {
        crate::uplink::law_ethernet_wins(usable, profiles, adapters, i, k);
    }
}

/// The rank of a level is the level itself, if it is one that carries something.
pub proof fn law_a_rank_is_its_level(level: Option<i32>)
    ensures
        level matches Some(l) && 1 <= l <= 3 ==> rank(level) == level->0,
        !(level matches Some(l) && 1 <= l <= 3) ==> rank(level) == 0,
{
}

/// What timed out is named, and so is the time it had.
pub proof fn law_a_timeout_names_its_operation(what: Seq<char>, other: Seq<char>)
    ensures
        crate::text::has_prefix(timed_out(what), what),
        timed_out(what).skip(what.len() as int) == timed_out(other).skip(other.len() as int),
        timed_out(what).skip(what.len() as int) == " did not complete within "@
            + crate::text::decimal(OPERATION_TIMEOUT_SECS as nat) + "s"@,
{
    reveal_strlit(" did not complete within 45s");
    reveal_strlit(" did not complete within ");
    reveal_strlit("s");
    reveal_with_fuel(crate::text::decimal, 2);
    assert(timed_out(what).take(what.len() as int) =~= what);
    assert(timed_out(what).skip(what.len() as int) =~= " did not complete within 45s"@);
    assert(timed_out(other).skip(other.len() as int) =~= " did not complete within 45s"@);
    assert(crate::text::decimal(45) =~= seq!['4', '5']);
    assert(" did not complete within "@ + crate::text::decimal(45) + "s"@
        =~= " did not complete within 45s"@);
}

/// Every state has a name of its own.
pub proof fn law_each_state_has_its_name(state: State)
    ensures
        state.text() == "on"@ <==> state == State::On,
        state.text() == "off"@ <==> state == State::Off,
        state.text() == "in-transition"@ <==> state == State::InTransition,
        state.text() == "unknown"@ <==> state == State::Unknown,
{
    reveal_strlit("on");
    reveal_strlit("off");
    reveal_strlit("in-transition");
    reveal_strlit("unknown");
    assert("on"@.len() == 2);
    assert("off"@.len() == 3);
    assert("in-transition"@.len() == 13);
    assert("unknown"@.len() == 7);
}

/// Every capability that Windows knows is called by what it means, and no other is called so.
pub proof fn law_each_capability_has_its_words(capability: i32)
    ensures
        capability_text(capability) == "enabled"@ <==> capability == 0,
        capability_text(capability) == "disabled by group policy"@ <==> capability == 1,
        capability_text(capability) == "disabled by a hardware limitation"@ <==> capability == 2,
        capability_text(capability) == "disabled by the mobile operator"@ <==> capability == 3,
        capability_text(capability) == "disabled by this Windows edition"@ <==> capability == 4,
        capability_text(capability) == "disabled because a required app is not installed"@
            <==> capability == 5,
        capability_text(capability) == "disabled for an unknown reason"@ <==> capability == 6,
        capability_text(capability) == "disabled by a system capability"@ <==> capability == 7,
        capability_text(capability) == "unrecognised capability"@ <==> !(0 <= capability <= 7),
{
    reveal_strlit("enabled");
    reveal_strlit("disabled by group policy");
    reveal_strlit("disabled by a hardware limitation");
    reveal_strlit("disabled by the mobile operator");
    reveal_strlit("disabled by this Windows edition");
    reveal_strlit("disabled because a required app is not installed");
    reveal_strlit("disabled for an unknown reason");
    reveal_strlit("disabled by a system capability");
    reveal_strlit("unrecognised capability");
    assert("enabled"@.len() == 7);
    assert("disabled by group policy"@.len() == 24);
    assert("disabled by a hardware limitation"@.len() == 33);
    assert("disabled by the mobile operator"@.len() == 31);
    assert("disabled by the mobile operator"@[12] == 't');
    assert("disabled by this Windows edition"@.len() == 32);
    assert("disabled because a required app is not installed"@.len() == 48);
    assert("disabled for an unknown reason"@.len() == 30);
    assert("disabled by a system capability"@.len() == 31);
    assert("disabled by a system capability"@[12] == 'a');
    assert("unrecognised capability"@.len() == 23);
}

/// Every status that Windows knows is called by what it means, and no other is called so.
pub proof fn law_each_status_has_its_words(status: i32)
    ensures
        status_text(status) == "success"@ <==> status == 0,
        status_text(status) == "unknown error"@ <==> status == 1,
        status_text(status) == "the mobile broadband device is off"@ <==> status == 2,
        status_text(status) == "the Wi-Fi device is off"@ <==> status == 3,
        status_text(status) == "the entitlement check timed out"@ <==> status == 4,
        status_text(status) == "the entitlement check failed"@ <==> status == 5,
        status_text(status) == "another tethering operation is in progress"@ <==> status == 6,
        status_text(status) == "the Bluetooth device is off"@ <==> status == 7,
        status_text(status) == "the uplink network has limited connectivity"@ <==> status == 8,
        status_text(status) == "the hotspot is already on"@ <==> status == 9,
        status_text(status) == "a radio restriction is in effect"@ <==> status == 10,
        status_text(status) == "band interference was detected"@ <==> status == 11,
        status_text(status) == "unrecognised status"@ <==> !(0 <= status <= 11),
{
    reveal_strlit("success");
    reveal_strlit("unknown error");
    reveal_strlit("the mobile broadband device is off");
    reveal_strlit("the Wi-Fi device is off");
    reveal_strlit("the entitlement check timed out");
    reveal_strlit("the entitlement check failed");
    reveal_strlit("another tethering operation is in progress");
    reveal_strlit("the Bluetooth device is off");
    reveal_strlit("the uplink network has limited connectivity");
    reveal_strlit("the hotspot is already on");
    reveal_strlit("a radio restriction is in effect");
    reveal_strlit("band interference was detected");
    reveal_strlit("unrecognised status");
    assert("success"@.len() == 7);
    assert("unknown error"@.len() == 13);
    assert("the mobile broadband device is off"@.len() == 34);
    assert("the Wi-Fi device is off"@.len() == 23);
    assert("the entitlement check timed out"@.len() == 31);
    assert("the entitlement check failed"@.len() == 28);
    assert("another tethering operation is in progress"@.len() == 42);
    assert("the Bluetooth device is off"@.len() == 27);
    assert("the uplink network has limited connectivity"@.len() == 43);
    assert("the hotspot is already on"@.len() == 25);
    assert("a radio restriction is in effect"@.len() == 32);
    assert("band interference was detected"@.len() == 30);
    assert("unrecognised status"@.len() == 19);
}

} // verus!
