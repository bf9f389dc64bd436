//! Choosing which network connection Windows should share as the hotspot's uplink.
//!
//! Windows keeps one connection profile per network it knows about, and tethering is
//! configured against exactly one of them. This module picks that one from the config and
//! from what is actually connected right now -- see [`find_profile`] for the rules.

use crate::adapters::{Adapter, Guid};
use crate::config::{is_auto, HotspotConfig};
use crate::text::{eq_ignore_ascii_case, join, trim};
use vstd::prelude::*;

verus! {

// --- connectivity ----------------------------------------------------------------

/// Windows' connectivity level for a network that carries nothing.
pub const LEVEL_NONE: i32 = 0;

/// Windows' connectivity level for a network that reaches local hosts only.
pub const LEVEL_LOCAL_ACCESS: i32 = 1;

/// Windows' connectivity level for a network with restricted internet access.
pub const LEVEL_CONSTRAINED_INTERNET_ACCESS: i32 = 2;

/// Windows' connectivity level for a network with internet access.
pub const LEVEL_INTERNET_ACCESS: i32 = 3;

/// How useful a network's connectivity level makes it as an uplink, worst to best in
/// declaration order.
#[derive(Debug, Clone, Copy, PartialEq, Eq, PartialOrd, Ord, Structural)]
pub enum Connectivity {
    /// Unknown, or known to carry nothing -- which is what a merely-remembered profile,
    /// not actually connected, looks like.
    Nothing,
    LocalOnly,
    ConstrainedInternet,
    Internet,
}

impl Connectivity {
    /// The place of each in the order, worst first.
    pub open spec fn rank(self) -> int {
        match self {
            Connectivity::Nothing => 0,
            Connectivity::LocalOnly => 1,
            Connectivity::ConstrainedInternet => 2,
            Connectivity::Internet => 3,
        }
    }

    /// What a level that Windows reports, or fails to report, is worth.
    pub open spec fn worth(level: Option<i32>) -> Connectivity {
        match level {
            Some(l) => if l == LEVEL_INTERNET_ACCESS {
                Connectivity::Internet
            } else if l == LEVEL_CONSTRAINED_INTERNET_ACCESS {
                Connectivity::ConstrainedInternet
            } else if l == LEVEL_LOCAL_ACCESS {
                Connectivity::LocalOnly
            } else {
                Connectivity::Nothing
            },
            None => Connectivity::Nothing,
        }
    }

    /// What a level that Windows reports, or fails to report, is worth.
    pub fn of(level: Option<i32>) -> (r: Connectivity)
        ensures
            r == Connectivity::worth(level),
    {
        match level {
            Some(l) => if l == LEVEL_INTERNET_ACCESS {
                Connectivity::Internet
            } else if l == LEVEL_CONSTRAINED_INTERNET_ACCESS {
                Connectivity::ConstrainedInternet
            } else if l == LEVEL_LOCAL_ACCESS {
                Connectivity::LocalOnly
            } else {
                Connectivity::Nothing
            },
            None => Connectivity::Nothing,
        }
    }

    /// Is this better than `other`?
    pub fn better_than(&self, other: &Connectivity) -> (r: bool)
        ensures
            r == (self.rank() > other.rank()),
    {
        match self {
            Connectivity::Nothing => false,
            Connectivity::LocalOnly => *other == Connectivity::Nothing,
            Connectivity::ConstrainedInternet => *other == Connectivity::Nothing || *other
                == Connectivity::LocalOnly,
            Connectivity::Internet => *other != Connectivity::Internet,
        }
    }
}

/// Prefer a wired Ethernet adapter over any other adapter type outright -- a wired link
/// is the predictable, always-safe choice to share, unlike Wi-Fi (which can't reliably
/// also host the hotspot) or anything else. This app does not care whether the uplink
/// itself has internet access, only that connecting to it works, so connectivity merely
/// breaks a tie between candidates that are equally Ethernet, or equally not.
pub open spec fn outranks(a: (bool, Connectivity), b: (bool, Connectivity)) -> bool {
    ||| a.0 && !b.0
    ||| a.0 == b.0 && a.1.rank() > b.1.rank()
}

/// The score of an uplink -- see [`outranks`] for how scores compare. As a tuple it compares
/// lexicographically, and `false < true`, so `is_ethernet` dominates.
pub fn uplink_score(level: Option<i32>, is_ethernet: bool) -> (r: (bool, Connectivity))
    ensures
        r == (is_ethernet, Connectivity::worth(level)),
{
    (is_ethernet, Connectivity::of(level))
}

/// Is the score `a` better than the score `b`?
pub fn score_outranks(a: (bool, Connectivity), b: (bool, Connectivity)) -> (r: bool)
    ensures
        r == outranks(a, b),
{
    if a.0 != b.0 {
        a.0
    } else {
        a.1.better_than(&b.1)
    }
}

/// How a connectivity level is called.
pub open spec fn connectivity_text(level: Option<i32>) -> Seq<char> {
    match level {
        Some(l) => if l == LEVEL_INTERNET_ACCESS {
            "internet access"@
        } else if l == LEVEL_CONSTRAINED_INTERNET_ACCESS {
            "constrained internet"@
        } else if l == LEVEL_LOCAL_ACCESS {
            "local access only"@
        } else if l == LEVEL_NONE {
            "no connectivity"@
        } else {
            "connectivity unknown"@
        },
        None => "connectivity unknown"@,
    }
}

/// How a connectivity level is called.
pub fn describe_connectivity(level: Option<i32>) -> (r: &'static str)
    ensures
        r@ == connectivity_text(level),
{
    match level {
        Some(l) => if l == LEVEL_INTERNET_ACCESS {
            "internet access"
        } else if l == LEVEL_CONSTRAINED_INTERNET_ACCESS {
            "constrained internet"
        } else if l == LEVEL_LOCAL_ACCESS {
            "local access only"
        } else if l == LEVEL_NONE {
            "no connectivity"
        } else {
            "connectivity unknown"
        },
        None => "connectivity unknown",
    }
}

// --- the hotspot's own adapter ---------------------------------------------------

/// Which adapter (if any) Windows will use to broadcast the hotspot's own Wi-Fi access
/// point, resolved from `hotspot_adapter` config so it can be excluded from uplink
/// candidacy.
pub enum HotspotAdapter<'a> {
    /// Confidently resolved, possibly to "no such adapter is currently present".
    Known(Option<&'a Adapter>),
    /// `hotspot_adapter = "auto"` and more than one Wi-Fi adapter is present, so which
    /// one Windows would actually use can't be determined. Every Wi-Fi adapter is
    /// treated as a potential hotspot adapter (and excluded) until this is configured
    /// explicitly.
    Ambiguous,
}

/// A [`HotspotAdapter`] with the adapter itself in place of a reference to it.
pub ghost enum Resolved {
    Known(Option<Adapter>),
    Ambiguous,
}

/// The adapter behind a reference that may be missing.
pub open spec fn adapter_of(a: Option<&Adapter>) -> Option<Adapter> {
    match a {
        Some(a) => Some(*a),
        None => None,
    }
}

impl<'a> View for HotspotAdapter<'a> {
    type V = Resolved;

    open spec fn view(&self) -> Resolved {
        match *self {
            HotspotAdapter::Known(a) => Resolved::Known(adapter_of(a)),
            HotspotAdapter::Ambiguous => Resolved::Ambiguous,
        }
    }
}

impl Resolved {
    /// Is `candidate` the hotspot adapter, or possibly it? A missing adapter never is.
    pub open spec fn excludes(self, candidate: Option<Adapter>) -> bool {
        match (self, candidate) {
            (Resolved::Known(Some(hotspot)), Some(a)) => a.guid == hotspot.guid,
            (Resolved::Ambiguous, Some(a)) => a.is_wifi,
            _ => false,
        }
    }

    /// What the `hotspot_adapter` setting means with these adapters present: a name means the
    /// first adapter that answers to it, and "auto" the only Wi-Fi adapter there is.
    pub open spec fn of(hotspot_adapter: Seq<char>, adapters: Seq<Adapter>) -> Resolved {
        if !crate::text::reads_like(hotspot_adapter, crate::config::AUTO_ADAPTER@) {
            Resolved::Known(
                crate::lists::first(adapters, |a: Adapter| a.answers_to(hotspot_adapter)),
            )
        } else {
            let wifi = adapters.filter(|a: Adapter| a.is_wifi);
            if wifi.len() == 0 {
                Resolved::Known(None)
            } else if wifi.len() == 1 {
                Resolved::Known(Some(wifi[0]))
            } else {
                Resolved::Ambiguous
            }
        }
    }
}

impl<'a> HotspotAdapter<'a> {
    /// Should `candidate` be excluded from uplink candidacy because it's the (or a
    /// possible) hotspot adapter?
    pub fn excludes(&self, candidate: Option<&Adapter>) -> (r: bool)
        ensures
            r == self@.excludes(adapter_of(candidate)),
    {
        match (self, candidate) {
            (HotspotAdapter::Known(Some(hotspot)), Some(a)) => a.guid.same(&hotspot.guid),
            (HotspotAdapter::Ambiguous, Some(a)) => a.is_wifi,
            _ => false,
        }
    }

    /// A short human-readable description, for diagnostics output.
    pub fn describe(&self) -> (r: String)
        ensures
            r@ == match self@ {
                Resolved::Known(Some(a)) => a.friendly_name@,
                Resolved::Known(None) => "none detected"@,
                Resolved::Ambiguous => "multiple Wi-Fi adapters present"@,
            },
    {
        match self {
            HotspotAdapter::Known(Some(a)) => a.friendly_name.as_str().to_string(),
            HotspotAdapter::Known(None) => "none detected".to_string(),
            HotspotAdapter::Ambiguous => "multiple Wi-Fi adapters present".to_string(),
        }
    }
}

/// Resolve `hotspot_adapter` (see its doc comment in [`HotspotConfig`]) against the
/// currently present adapters.
pub fn resolve_hotspot_adapter<'a>(
    hotspot_adapter: &str,
    adapters: &'a [Adapter],
) -> (r: HotspotAdapter<'a>)
    ensures
        r@ == Resolved::of(hotspot_adapter@, adapters@),
{
    if !is_auto(hotspot_adapter) {
        return HotspotAdapter::Known(find_named(hotspot_adapter, adapters));
    }
    // "auto" only works out when exactly one Wi-Fi adapter could host the hotspot.
    let ghost is_wifi = |a: Adapter| a.is_wifi;
    let mut only: Option<&'a Adapter> = None;
    let mut k: usize = 0;
    proof {
        reveal(Seq::filter);
        assert(adapters@.take(0).filter(is_wifi) =~= Seq::<Adapter>::empty());
    }
    while k < adapters.len()
        invariant
            k <= adapters@.len(),
            is_wifi == (|a: Adapter| a.is_wifi),
            crate::text::reads_like(hotspot_adapter@, crate::config::AUTO_ADAPTER@),
            match only {
                Some(a) => adapters@.take(k as int).filter(is_wifi) == seq![*a],
                None => adapters@.take(k as int).filter(is_wifi) == Seq::<Adapter>::empty(),
            },
        decreases adapters@.len() - k,
    {
        let ghost before = adapters@.take(k as int).filter(is_wifi);
        proof {
            reveal(Seq::filter);
            assert(adapters@.take(k + 1).drop_last() =~= adapters@.take(k as int));
            assert(adapters@.take(k + 1).last() == adapters@[k as int]);
        }
        if adapters[k].is_wifi {
            assert(adapters@.take(k + 1).filter(is_wifi) == before.push(adapters@[k as int]));
            match only {
                Some(_) => {
                    proof {
                        lemma_filter_of_prefix(adapters@, is_wifi, k + 1);
                    }
                    return HotspotAdapter::Ambiguous;
                },
                None => {
                    only = Some(&adapters[k]);
                    assert(before.push(adapters@[k as int]) =~= seq![adapters@[k as int]]);
                },
            }
        }
        k = k + 1;
    }
    assert(adapters@.take(adapters@.len() as int) =~= adapters@);
    HotspotAdapter::Known(only)
}

/// A prefix has no more wanted elements than the whole.
proof fn lemma_filter_of_prefix<T>(s: Seq<T>, wanted: spec_fn(T) -> bool, k: int)
    requires
        0 <= k <= s.len(),
    ensures
        s.take(k).filter(wanted).len() <= s.filter(wanted).len(),
    decreases s.len() - k,
{
    if k < s.len() {
        reveal(Seq::filter);
        assert(s.take(k + 1).drop_last() =~= s.take(k));
        lemma_filter_of_prefix(s, wanted, k + 1);
    } else {
        assert(s.take(k) =~= s);
    }
}

/// The first adapter that answers to `name`.
fn find_named<'a>(name: &str, adapters: &'a [Adapter]) -> (r: Option<&'a Adapter>)
    ensures
        adapter_of(r) == crate::lists::first(adapters@, |a: Adapter| a.answers_to(name@)),
{
    let ghost wanted = |a: Adapter| a.answers_to(name@);
    let mut k: usize = 0;
    while k < adapters.len()
        invariant
            k <= adapters@.len(),
            wanted == (|a: Adapter| a.answers_to(name@)),
            forall|j: int| 0 <= j < k ==> !wanted(#[trigger] adapters@[j]),
        decreases adapters@.len() - k,
    {
        if adapters[k].matches(name) {
            proof {
                crate::lists::lemma_first_found(adapters@, wanted, k as int);
            }
            return Some(&adapters[k]);
        }
        k = k + 1;
    }
    proof {
        crate::lists::lemma_first_missing(adapters@, wanted);
    }
    None
}

// --- candidates ------------------------------------------------------------------

/// One connection profile, as far as the choice of an uplink goes.
#[derive(Debug, Clone)]
pub struct Profile {
    /// The network's name, e.g. "my-ssid" -- not the adapter's; empty if it has none.
    pub network_name: String,
    /// GUID of the adapter carrying this profile, when it could be read.
    pub adapter_guid: Option<Guid>,
    /// Connectivity level, when it could be read.
    pub connectivity: Option<i32>,
}

impl Profile {
    /// The adapter carrying this profile, when it can be identified at all.
    pub open spec fn carrier(self, adapters: Seq<Adapter>) -> Option<Adapter> {
        match self.adapter_guid {
            Some(guid) => crate::lists::first(adapters, |a: Adapter| a.guid == guid),
            None => None,
        }
    }

    /// What to call this uplink: the adapter's name as Windows shows it, falling back to the
    /// network's name when the adapter is unknown.
    pub open spec fn label(self, adapters: Seq<Adapter>) -> Seq<char> {
        match self.carrier(adapters) {
            Some(a) => a.friendly_name@,
            None => self.network_name@,
        }
    }

    /// How good an uplink this is -- see [`outranks`].
    pub open spec fn score(self, adapters: Seq<Adapter>) -> (bool, Connectivity) {
        (
            self.carrier(adapters) is Some && self.carrier(adapters)->0.is_ethernet,
            Connectivity::worth(self.connectivity),
        )
    }

    /// How this profile is listed back to the user, e.g.
    /// `'my-ssid' (on Wi-Fi, internet access)`.
    pub open spec fn listing(self, adapters: Seq<Adapter>) -> Seq<char> {
        "'"@ + self.network_name@ + "' (on "@ + (match self.carrier(adapters) {
            Some(a) => a.friendly_name@,
            None => "unknown adapter"@,
        }) + ", "@ + connectivity_text(self.connectivity) + ")"@
    }

    /// Is this carried by the hotspot's own virtual adapter? Sharing that would make the
    /// hotspot its own uplink.
    pub open spec fn is_hotspots_own(self, adapters: Seq<Adapter>) -> bool {
        self.carrier(adapters) is Some && self.carrier(adapters)->0.is_virtual()
    }

    /// Does this profile answer to `uplink_adapter` as spelled in the config? Its adapter
    /// may, or the network's own name may.
    pub open spec fn answers_to(self, uplink_adapter: Seq<char>, adapters: Seq<Adapter>) -> bool {
        ||| self.carrier(adapters) is Some && self.carrier(adapters)->0.answers_to(uplink_adapter)
        ||| crate::text::reads_like(uplink_adapter, self.network_name@)
    }

    /// Does the config ask for this profile? "auto" asks for every profile whose adapter can
    /// be identified. The hotspot's own virtual adapter is never asked for.
    pub open spec fn wanted(self, cfg: HotspotConfig, adapters: Seq<Adapter>) -> bool {
        &&& !self.is_hotspots_own(adapters)
        &&& if cfg.auto_uplink() {
            self.carrier(adapters) is Some
        } else {
            self.answers_to(cfg.uplink_adapter@, adapters)
        }
    }

    /// Must this profile's adapter be left to the hotspot itself?
    pub open spec fn hosts_hotspot(self, cfg: HotspotConfig, adapters: Seq<Adapter>) -> bool {
        Resolved::of(cfg.hotspot_adapter@, adapters).excludes(self.carrier(adapters))
    }
}

/// One connection profile, plus the adapter carrying it: everything the choice of an uplink
/// needs to know about it.
pub struct Candidate<'a> {
    pub profile: &'a Profile,
    /// The adapter carrying this profile, when it could be identified at all.
    pub adapter: Option<&'a Adapter>,
}

impl<'a> Candidate<'a> {
    /// Is this `profile` with the adapter that carries it?
    pub open spec fn stands_for(self, profile: Profile, adapters: Seq<Adapter>) -> bool {
        &&& *self.profile == profile
        &&& adapter_of(self.adapter) == profile.carrier(adapters)
    }

    /// Pair a profile with the adapter carrying it.
    pub fn new(profile: &'a Profile, adapters: &'a [Adapter]) -> (r: Self)
        ensures
            r.stands_for(*profile, adapters@),
    {
        let guid = match profile.adapter_guid {
            Some(guid) => guid,
            None => return Candidate { profile, adapter: None },
        };
        let ghost wanted = |a: Adapter| a.guid == guid;
        let mut k: usize = 0;
        while k < adapters.len()
            invariant
                k <= adapters@.len(),
                profile.adapter_guid == Some(guid),
                wanted == (|a: Adapter| a.guid == guid),
                forall|j: int| 0 <= j < k ==> !wanted(#[trigger] adapters@[j]),
            decreases adapters@.len() - k,
        {
            if adapters[k].guid.same(&guid) {
                proof {
                    crate::lists::lemma_first_found(adapters@, wanted, k as int);
                }
                return Candidate { profile, adapter: Some(&adapters[k]) };
            }
            k = k + 1;
        }
        proof {
            crate::lists::lemma_first_missing(adapters@, wanted);
        }
        Candidate { profile, adapter: None }
    }

    /// Is this carried by the hotspot's own virtual adapter?
    pub fn is_hotspots_own(&self) -> (r: bool)
        ensures
            r == (self.adapter is Some && self.adapter->0.is_virtual()),
    {
        match self.adapter {
            Some(a) => a.is_hotspot_virtual_adapter(),
            None => false,
        }
    }

    /// Does this profile answer to `uplink_adapter` as spelled in the config? Its adapter
    /// may, or the network's own name may.
    pub fn answers_to(&self, uplink_adapter: &str) -> (r: bool)
        ensures
            r == ((self.adapter is Some && self.adapter->0.answers_to(uplink_adapter@))
                || crate::text::reads_like(uplink_adapter@, self.profile.network_name@)),
    {
        let by_adapter = match self.adapter {
            Some(a) => a.matches(uplink_adapter),
            None => false,
        };
        by_adapter || eq_ignore_ascii_case(
            self.profile.network_name.as_str(),
            trim(uplink_adapter),
        )
    }

    /// Is this profile eligible for automatic selection? Every adapter we can identify is,
    /// except the hotspot's own virtual one -- sharing that would make the hotspot its own
    /// uplink.
    pub fn is_auto_candidate(&self) -> (r: bool)
        ensures
            r == (self.adapter is Some && !self.adapter->0.is_virtual()),
    {
        match self.adapter {
            Some(a) => !a.is_hotspot_virtual_adapter(),
            None => false,
        }
    }

    /// How good an uplink this is.
    pub fn score(&self) -> (r: (bool, Connectivity))
        ensures
            r == (
                self.adapter is Some && self.adapter->0.is_ethernet,
                Connectivity::worth(self.profile.connectivity),
            ),
    {
        let is_ethernet = match self.adapter {
            Some(a) => a.is_ethernet,
            None => false,
        };
        uplink_score(self.profile.connectivity, is_ethernet)
    }

    /// What to call this uplink in logs and errors: the adapter's name as Windows shows
    /// it, falling back to the network's name when the adapter is unknown.
    pub fn label(&self) -> (r: String)
        ensures
            r@ == match self.adapter {
                Some(a) => a.friendly_name@,
                None => self.profile.network_name@,
            },
    {
        match self.adapter {
            Some(a) => a.friendly_name.as_str().to_string(),
            None => self.profile.network_name.as_str().to_string(),
        }
    }

    /// How this candidate is listed back to the user.
    pub fn listing(&self) -> (r: String)
        ensures
            r@ == "'"@ + self.profile.network_name@ + "' (on "@ + (match self.adapter {
                Some(a) => a.friendly_name@,
                None => "unknown adapter"@,
            }) + ", "@ + connectivity_text(self.profile.connectivity) + ")"@,
    {
        let mut r = "'".to_string();
        r.append(self.profile.network_name.as_str());
        r.append("' (on ");
        match self.adapter {
            Some(a) => {
                r.append(a.friendly_name.as_str());
            },
            None => {
                r.append("unknown adapter");
            },
        }
        r.append(", ");
        r.append(describe_connectivity(self.profile.connectivity));
        r.append(")");
        r
    }
}

/// Do the candidates stand for these profiles, one each?
pub open spec fn stand_for(
    candidates: Seq<Candidate>,
    profiles: Seq<Profile>,
    adapters: Seq<Adapter>,
) -> bool {
    &&& candidates.len() == profiles.len()
    &&& forall|i: int|
        0 <= i < profiles.len() ==> (#[trigger] candidates[i]).stands_for(profiles[i], adapters)
}

/// Every connection profile Windows currently knows about, paired with its adapter.
pub fn candidates<'a>(profiles: &'a [Profile], adapters: &'a [Adapter]) -> (r: Vec<Candidate<'a>>)
    ensures
        stand_for(r@, profiles@, adapters@),
{
    let mut r: Vec<Candidate<'a>> = Vec::new();
    let mut k: usize = 0;
    while k < profiles.len()
        invariant
            k <= profiles@.len(),
            r@.len() == k,
            forall|i: int|
                0 <= i < k ==> (#[trigger] r@[i]).stands_for(profiles@[i], adapters@),
        decreases profiles@.len() - k,
    {
        r.push(Candidate::new(&profiles[k], adapters));
        k = k + 1;
    }
    r
}

// --- the choice ------------------------------------------------------------------

/// Is the `i`th uplink the one to choose: a usable one that no usable one outranks, and the
/// first of those?
pub open spec fn is_best(usable: Seq<bool>, scores: Seq<(bool, Connectivity)>, i: int) -> bool {
    &&& 0 <= i < usable.len()
    &&& usable[i]
    &&& forall|j: int|
        #![trigger usable[j]]
        0 <= j < usable.len() && usable[j] ==> !outranks(scores[j], scores[i]) && (j < i
            ==> outranks(scores[i], scores[j]))
}

/// The scores of the profiles.
pub open spec fn scores(profiles: Seq<Profile>, adapters: Seq<Adapter>) -> Seq<
    (bool, Connectivity),
> {
    Seq::new(profiles.len(), |i: int| profiles[i].score(adapters))
}

/// Which of the `wanted` profiles can be used, their adapter not being the hotspot's.
pub open spec fn usable_among(
    wanted: Seq<bool>,
    cfg: HotspotConfig,
    profiles: Seq<Profile>,
    adapters: Seq<Adapter>,
) -> Seq<bool> {
    Seq::new(
        profiles.len(),
        |i: int| wanted[i] && !profiles[i].hosts_hotspot(cfg, adapters),
    )
}

/// Which profiles the config asks for.
pub open spec fn wanted_among(
    cfg: HotspotConfig,
    profiles: Seq<Profile>,
    adapters: Seq<Adapter>,
) -> Seq<bool> {
    Seq::new(profiles.len(), |i: int| profiles[i].wanted(cfg, adapters))
}

/// Which profiles the config asks for and can be used.
pub open spec fn usable_uplinks(
    cfg: HotspotConfig,
    profiles: Seq<Profile>,
    adapters: Seq<Adapter>,
) -> Seq<bool> {
    usable_among(wanted_among(cfg, profiles, adapters), cfg, profiles, adapters)
}

/// The networks on offer, as the user is told of them.
pub open spec fn networks(profiles: Seq<Profile>, adapters: Seq<Adapter>) -> Seq<char> {
    if profiles.len() == 0 {
        "none"@
    } else {
        crate::text::joined(
            Seq::new(profiles.len(), |i: int| profiles[i].listing(adapters)),
            ", "@,
        )
    }
}

/// Why there is no uplink to share. Each says what was on offer, since that is what the user
/// has to change.
#[derive(Debug, Clone, PartialEq, Eq)]
pub enum UplinkError {
    /// Every network that was asked for is on an adapter that the hotspot needs.
    NeededForHotspot { networks: String },
    /// Automatic selection found nothing.
    NothingToShare { networks: String },
    /// Nothing answers to the configured name.
    NotConnected { uplink_adapter: String, networks: String },
}

/// What an [`UplinkError`] says.
pub ghost enum UplinkFault {
    NeededForHotspot { networks: Seq<char> },
    NothingToShare { networks: Seq<char> },
    NotConnected { uplink_adapter: Seq<char>, networks: Seq<char> },
}

impl View for UplinkError {
    type V = UplinkFault;

    open spec fn view(&self) -> UplinkFault {
        match *self {
            UplinkError::NeededForHotspot { networks } => UplinkFault::NeededForHotspot {
                networks: networks@,
            },
            UplinkError::NothingToShare { networks } => UplinkFault::NothingToShare {
                networks: networks@,
            },
            UplinkError::NotConnected { uplink_adapter, networks } => UplinkFault::NotConnected {
                uplink_adapter: uplink_adapter@,
                networks: networks@,
            },
        }
    }
}

impl UplinkFault {
    /// Why none of the `wanted` profiles could be used: either one of them was kept for the
    /// hotspot, or there were none.
    pub open spec fn of(
        wanted: Seq<bool>,
        cfg: HotspotConfig,
        profiles: Seq<Profile>,
        adapters: Seq<Adapter>,
    ) -> UplinkFault {
        let networks = networks(profiles, adapters);
        if exists|i: int| 0 <= i < wanted.len() && #[trigger] wanted[i] {
            UplinkFault::NeededForHotspot { networks }
        } else if cfg.auto_uplink() {
            UplinkFault::NothingToShare { networks }
        } else {
            UplinkFault::NotConnected { uplink_adapter: cfg.uplink_adapter@, networks }
        }
    }

    /// What the user is told.
    pub open spec fn message(self) -> Seq<char> {
        match self {
            UplinkFault::NeededForHotspot { networks } =>
                "the only usable network(s) found are also needed to host the hotspot itself, so none of them can be used as its uplink too (one Wi-Fi radio can't reliably act as both a client and an access point at once). Connect a wired Ethernet uplink, add another Wi-Fi adapter, or set hotspot.hotspot_adapter and hotspot.uplink_adapter explicitly in "@
                + crate::config::DEFAULT_FILE_NAME@ + ". Connected networks right now: "@
                + networks + "."@,
            UplinkFault::NothingToShare { networks } =>
                "auto uplink selection found no usable connected network to share. Connected networks right now: "@
                + networks + "."@,
            UplinkFault::NotConnected { uplink_adapter, networks } =>
                "no connected network found for uplink adapter '"@ + uplink_adapter
                + "'. Connected networks right now: "@ + networks
                + ". Note that an adapter only has a connection profile while it is plugged in and up."@,
        }
    }
}

impl UplinkError {
    /// What to tell the user.
    pub fn message(&self) -> (r: String)
        ensures
            r@ == self@.message(),
    {
        match self {
            UplinkError::NeededForHotspot { networks } => {
                let mut r =
                    "the only usable network(s) found are also needed to host the hotspot itself, so none of them can be used as its uplink too (one Wi-Fi radio can't reliably act as both a client and an access point at once). Connect a wired Ethernet uplink, add another Wi-Fi adapter, or set hotspot.hotspot_adapter and hotspot.uplink_adapter explicitly in ".to_string();
                r.append(crate::config::DEFAULT_FILE_NAME);
                r.append(". Connected networks right now: ");
                r.append(networks.as_str());
                r.append(".");
                r
            },
            UplinkError::NothingToShare { networks } => {
                let mut r =
                    "auto uplink selection found no usable connected network to share. Connected networks right now: ".to_string();
                r.append(networks.as_str());
                r.append(".");
                r
            },
            UplinkError::NotConnected { uplink_adapter, networks } => {
                let mut r = "no connected network found for uplink adapter '".to_string();
                r.append(uplink_adapter.as_str());
                r.append("'. Connected networks right now: ");
                r.append(networks.as_str());
                r.append(
                    ". Note that an adapter only has a connection profile while it is plugged in and up.",
                );
                r
            },
        }
    }
}

/// The networks on offer, as the user is told of them.
fn list_networks(
    candidates: &Vec<Candidate>,
    Ghost(profiles): Ghost<Seq<Profile>>,
    Ghost(adapters): Ghost<Seq<Adapter>>,
) -> (r: String)
    requires
        stand_for(candidates@, profiles, adapters),
    ensures
        r@ == networks(profiles, adapters),
{
    if candidates.len() == 0 {
        return "none".to_string();
    }
    let mut listings: Vec<String> = Vec::new();
    let mut k: usize = 0;
    while k < candidates.len()
        invariant
            k <= candidates.len(),
            stand_for(candidates@, profiles, adapters),
            listings@.len() == k,
            forall|i: int|
                0 <= i < k ==> (#[trigger] listings@[i])@ == profiles[i].listing(adapters),
        decreases candidates.len() - k,
    {
        assert(candidates@[k as int].stands_for(profiles[k as int], adapters));
        listings.push(candidates[k].listing());
        k = k + 1;
    }
    assert(crate::text::texts(listings@) =~= Seq::new(
        profiles.len(),
        |i: int| profiles[i].listing(adapters),
    ));
    join(&listings, ", ")
}

/// Choose among the `wanted` candidates, or say why none of them will do.
pub(crate) fn choose_uplink(
    cfg: &HotspotConfig,
    candidates: &Vec<Candidate>,
    wanted: &Vec<bool>,
    hotspot_adapter: &HotspotAdapter,
    Ghost(profiles): Ghost<Seq<Profile>>,
    Ghost(adapters): Ghost<Seq<Adapter>>,
) -> (r: Result<(usize, String), UplinkError>)
    requires
        stand_for(candidates@, profiles, adapters),
        wanted@.len() == profiles.len(),
        hotspot_adapter@ == Resolved::of(cfg.hotspot_adapter@, adapters),
    ensures
        match r {
            Ok((i, label)) => {
                &&& is_best(
                    usable_among(wanted@, *cfg, profiles, adapters),
                    scores(profiles, adapters),
                    i as int,
                )
                &&& label@ == profiles[i as int].label(adapters)
            },
            Err(e) => {
                &&& forall|i: int|
                    0 <= i < profiles.len() ==> !#[trigger] usable_among(
                        wanted@,
                        *cfg,
                        profiles,
                        adapters,
                    )[i]
                &&& e@ == UplinkFault::of(wanted@, *cfg, profiles, adapters)
            },
        },
{
    let ghost usable = usable_among(wanted@, *cfg, profiles, adapters);
    let ghost scored = scores(profiles, adapters);
    let mut best: Option<usize> = None;
    let mut excluded_as_hotspot_adapter = false;
    let mut k: usize = 0;
    while k < candidates.len()
        invariant
            k <= candidates.len(),
            stand_for(candidates@, profiles, adapters),
            wanted@.len() == profiles.len(),
            hotspot_adapter@ == Resolved::of(cfg.hotspot_adapter@, adapters),
            usable == usable_among(wanted@, *cfg, profiles, adapters),
            scored == scores(profiles, adapters),
            excluded_as_hotspot_adapter == exists|j: int|
                0 <= j < k && #[trigger] wanted@[j] && !usable[j],
            match best {
                Some(b) => {
                    &&& b < k
                    &&& usable[b as int]
                    &&& forall|j: int|
                        #![trigger usable[j]]
                        0 <= j < k && usable[j] ==> !outranks(scored[j], scored[b as int]) && (j < b
                            ==> outranks(scored[b as int], scored[j]))
                },
                None => forall|j: int| 0 <= j < k ==> !#[trigger] usable[j],
            },
        decreases candidates.len() - k,
    {
        let candidate = &candidates[k];
        assert(candidates@[k as int].stands_for(profiles[k as int], adapters));
        assert(usable[k as int] == (wanted@[k as int] && !profiles[k as int].hosts_hotspot(
            *cfg,
            adapters,
        )));
        if wanted[k] {
            if hotspot_adapter.excludes(candidate.adapter) {
                assert(wanted@[k as int] && !usable[k as int]);
                excluded_as_hotspot_adapter = true;
            } else {
                let better = match best {
                    Some(b) => {
                        assert(candidates@[b as int].stands_for(profiles[b as int], adapters));
                        score_outranks(candidate.score(), candidates[b].score())
                    },
                    None => true,
                };
                if better {
                    best = Some(k);
                }
            }
        }
        k = k + 1;
    }
    if let Some(b) = best {
        assert(candidates@[b as int].stands_for(profiles[b as int], adapters));
        return Ok((b, candidates[b].label()));
    }
    let networks = list_networks(candidates, Ghost(profiles), Ghost(adapters));
    assert(excluded_as_hotspot_adapter == exists|i: int|
        0 <= i < wanted@.len() && #[trigger] wanted@[i]);
    Err(
        if excluded_as_hotspot_adapter {
            UplinkError::NeededForHotspot { networks }
        } else if cfg.is_auto_uplink() {
            UplinkError::NothingToShare { networks }
        } else {
            UplinkError::NotConnected {
                uplink_adapter: cfg.uplink_adapter.as_str().to_string(),
                networks,
            }
        },
    )
}

/// Locate the connection profile to use as the hotspot's uplink: its place in `profiles`,
/// and a label for it.
///
/// `cfg.uplink_adapter` is either a specific adapter -- matched against its friendly
/// name or hardware description, then the network profile name as a fallback, so either
/// spelling in the config works -- or the literal [`crate::config::AUTO_ADAPTER`]
/// (`"auto"`), which instead considers every currently connected network. The hotspot's own
/// virtual adapter, and whatever `cfg.hotspot_adapter` resolves to (see
/// [`resolve_hotspot_adapter`]), are always excluded: an adapter can't be both its own uplink
/// and its own hotspot -- one Wi-Fi radio can't reliably act as both a client and an access
/// point at once, which is why that combination tends to let clients associate but never
/// receive an IP address.
///
/// One adapter can carry several profiles -- remembered networks it is not currently
/// using still show up -- so among the matches the best score wins (see [`outranks`]): a
/// wired Ethernet adapter outright, with connectivity only breaking ties.
pub fn find_profile(
    cfg: &HotspotConfig,
    profiles: &[Profile],
    adapters: &[Adapter],
) -> (r: Result<(usize, String), UplinkError>)
    ensures
        match r {
            Ok((i, label)) => {
                &&& is_best(
                    usable_uplinks(*cfg, profiles@, adapters@),
                    scores(profiles@, adapters@),
                    i as int,
                )
                &&& label@ == profiles@[i as int].label(adapters@)
            },
            Err(e) => {
                &&& forall|i: int|
                    0 <= i < profiles@.len() ==> !#[trigger] usable_uplinks(
                        *cfg,
                        profiles@,
                        adapters@,
                    )[i]
                &&& e@ == UplinkFault::of(
                    wanted_among(*cfg, profiles@, adapters@),
                    *cfg,
                    profiles@,
                    adapters@,
                )
            },
        },
{
    let candidates = candidates(profiles, adapters);
    let hotspot_adapter = resolve_hotspot_adapter(cfg.hotspot_adapter.as_str(), adapters);
    let auto = cfg.is_auto_uplink();
    let mut wanted: Vec<bool> = Vec::new();
    let mut k: usize = 0;
    while k < candidates.len()
        invariant
            k <= candidates.len(),
            auto == cfg.auto_uplink(),
            stand_for(candidates@, profiles@, adapters@),
            wanted@.len() == k,
            forall|i: int|
                0 <= i < k ==> #[trigger] wanted@[i] == profiles@[i].wanted(*cfg, adapters@),
        decreases candidates.len() - k,
    {
        let candidate = &candidates[k];
        assert(candidates@[k as int].stands_for(profiles@[k as int], adapters@));
        wanted.push(
            if auto {
                candidate.is_auto_candidate()
            } else {
                !candidate.is_hotspots_own() && candidate.answers_to(cfg.uplink_adapter.as_str())
            },
        );
        k = k + 1;
    }
    assert(wanted@ =~= wanted_among(*cfg, profiles@, adapters@));
    choose_uplink(
        cfg,
        &candidates,
        &wanted,
        &hotspot_adapter,
        Ghost(profiles@),
        Ghost(adapters@),
    )
}

// --- laws ------------------------------------------------------------------------

/// The uplink is never the hotspot's own virtual adapter, nor an adapter that the hotspot
/// may be broadcast on.
pub proof fn law_the_uplink_is_not_the_hotspot(
    cfg: HotspotConfig,
    profiles: Seq<Profile>,
    adapters: Seq<Adapter>,
    i: int,
)
    requires
        is_best(usable_uplinks(cfg, profiles, adapters), scores(profiles, adapters), i),
    ensures
        profiles[i].carrier(adapters) matches Some(a) ==> {
            &&& !a.is_virtual()
            &&& match Resolved::of(cfg.hotspot_adapter@, adapters) {
                Resolved::Known(Some(hotspot)) => a.guid != hotspot.guid,
                Resolved::Known(None) => true,
                Resolved::Ambiguous => !a.is_wifi,
            }
        },
{
    assert(usable_uplinks(cfg, profiles, adapters)[i]);
}

/// A wired Ethernet uplink wins over any other outright, whatever its connectivity.
pub proof fn law_ethernet_wins(
    usable: Seq<bool>,
    profiles: Seq<Profile>,
    adapters: Seq<Adapter>,
    i: int,
    j: int,
)
    requires
        usable.len() == profiles.len(),
        is_best(usable, scores(profiles, adapters), i),
        0 <= j < profiles.len(),
        usable[j],
        profiles[j].carrier(adapters) is Some,
        profiles[j].carrier(adapters)->0.is_ethernet,
    ensures
        profiles[i].carrier(adapters) is Some,
        profiles[i].carrier(adapters)->0.is_ethernet,
{
    assert(!outranks(scores(profiles, adapters)[j], scores(profiles, adapters)[i]));
}

/// Between uplinks that are equally Ethernet, or equally not, the better connectivity wins,
/// and the earlier profile where that is the same too.
pub proof fn law_connectivity_breaks_ties(
    usable: Seq<bool>,
    profiles: Seq<Profile>,
    adapters: Seq<Adapter>,
    i: int,
    j: int,
)
    requires
        usable.len() == profiles.len(),
        is_best(usable, scores(profiles, adapters), i),
        0 <= j < profiles.len(),
        usable[j],
        profiles[j].score(adapters).0 == profiles[i].score(adapters).0,
    ensures
        profiles[i].score(adapters).1.rank() >= profiles[j].score(adapters).1.rank(),
        profiles[i].score(adapters).1.rank() == profiles[j].score(adapters).1.rank() ==> i <= j,
{
    assert(!outranks(scores(profiles, adapters)[j], scores(profiles, adapters)[i]));
}

/// There is at most one uplink to choose.
pub proof fn law_the_choice_is_unique(
    usable: Seq<bool>,
    scores: Seq<(bool, Connectivity)>,
    i: int,
    j: int,
)
    requires
        is_best(usable, scores, i),
        is_best(usable, scores, j),
    ensures
        i == j,
{
    assert(usable[i]);
    assert(usable[j]);
}

/// Scores compare like places in a row: of two, one outranks the other or they are equal, and
/// outranking chains.
pub proof fn law_scores_are_ordered(
    a: (bool, Connectivity),
    b: (bool, Connectivity),
    c: (bool, Connectivity),
)
    ensures
        outranks(a, b) || outranks(b, a) || a == b,
        !(outranks(a, b) && outranks(b, a)),
        outranks(a, b) && outranks(b, c) ==> outranks(a, c),
{
}

/// The adapter that carries a profile is the first with the GUID that the profile names; a
/// profile that names none, or one that no adapter has, has no known carrier.
pub proof fn law_the_carrier_is_the_first_with_the_guid(
    profile: Profile,
    adapters: Seq<Adapter>,
    k: int,
)
    ensures
        profile.adapter_guid is None ==> profile.carrier(adapters) is None,
        (forall|j: int|
            0 <= j < adapters.len() ==> profile.adapter_guid != Some(
                (#[trigger] adapters[j]).guid,
            )) ==> profile.carrier(adapters) is None,
        0 <= k < adapters.len() && profile.adapter_guid == Some(adapters[k].guid) && (forall|
            j: int,
        |
            0 <= j < k ==> profile.adapter_guid != Some((#[trigger] adapters[j]).guid))
            ==> profile.carrier(adapters) == Some(adapters[k]),
{
    if profile.adapter_guid is Some {
        let guid = profile.adapter_guid->0;
        let has = |a: Adapter| a.guid == guid;
        if forall|j: int|
            0 <= j < adapters.len() ==> profile.adapter_guid != Some(
                (#[trigger] adapters[j]).guid,
            ) {
            crate::lists::lemma_first_missing(adapters, has);
        }
        if 0 <= k < adapters.len() && profile.adapter_guid == Some(adapters[k].guid) && (forall|
            j: int,
        |
            0 <= j < k ==> profile.adapter_guid != Some((#[trigger] adapters[j]).guid)) {
            crate::lists::lemma_first_found(adapters, has, k);
        }
    }
}

/// A hotspot adapter that is named is the first that answers to the name, if any does.
pub proof fn law_a_named_hotspot_adapter_is_the_first_that_answers(
    name: Seq<char>,
    adapters: Seq<Adapter>,
    k: int,
)
    requires
        crate::text::ascii_lower(crate::text::trimmed(name)) != "auto"@,
    ensures
        (forall|j: int| 0 <= j < adapters.len() ==> !(#[trigger] adapters[j]).answers_to(name))
            ==> Resolved::of(name, adapters) == Resolved::Known(None),
        0 <= k < adapters.len() && adapters[k].answers_to(name) && (forall|j: int|
            0 <= j < k ==> !(#[trigger] adapters[j]).answers_to(name)) ==> Resolved::of(
            name,
            adapters,
        ) == Resolved::Known(Some(adapters[k])),
{
    lemma_auto();
    let answers = |a: Adapter| a.answers_to(name);
    if forall|j: int| 0 <= j < adapters.len() ==> !(#[trigger] adapters[j]).answers_to(name) {
        crate::lists::lemma_first_missing(adapters, answers);
    }
    if 0 <= k < adapters.len() && adapters[k].answers_to(name) && (forall|j: int|
        0 <= j < k ==> !(#[trigger] adapters[j]).answers_to(name)) {
        crate::lists::lemma_first_found(adapters, answers, k);
    }
}

/// "auto" has only small letters.
proof fn lemma_auto()
    ensures
        crate::text::ascii_lower(crate::config::AUTO_ADAPTER@) == "auto"@,
{
    reveal_strlit("auto");
    crate::text::lemma_small_letters_stay("auto"@);
}

/// A hotspot adapter that is left to automatic detection is the only Wi-Fi adapter there is;
/// without one there is none, and with more it is open which.
pub proof fn law_the_only_wifi_adapter_hosts_the_hotspot(
    setting: Seq<char>,
    adapters: Seq<Adapter>,
    j: int,
    k: int,
)
    requires
        crate::text::ascii_lower(crate::text::trimmed(setting)) == "auto"@,
    ensures
        (forall|i: int| 0 <= i < adapters.len() ==> !(#[trigger] adapters[i]).is_wifi)
            ==> Resolved::of(setting, adapters) == Resolved::Known(None),
        0 <= k < adapters.len() && adapters[k].is_wifi && (forall|i: int|
            0 <= i < adapters.len() && i != k ==> !(#[trigger] adapters[i]).is_wifi)
            ==> Resolved::of(setting, adapters) == Resolved::Known(Some(adapters[k])),
        0 <= j < k < adapters.len() && adapters[j].is_wifi && adapters[k].is_wifi ==> Resolved::of(
            setting,
            adapters,
        ) == Resolved::Ambiguous,
{
    lemma_auto();
    let is_wifi = |a: Adapter| a.is_wifi;
    if forall|i: int| 0 <= i < adapters.len() ==> !(#[trigger] adapters[i]).is_wifi {
        crate::lists::lemma_filter_none(adapters, is_wifi);
    }
    if 0 <= k < adapters.len() && adapters[k].is_wifi && (forall|i: int|
        0 <= i < adapters.len() && i != k ==> !(#[trigger] adapters[i]).is_wifi) {
        crate::lists::lemma_filter_one(adapters, is_wifi, k);
    }
    if 0 <= j < k < adapters.len() && adapters[j].is_wifi && adapters[k].is_wifi {
        crate::lists::lemma_filter_two(adapters, is_wifi, j, k);
    }
}

/// A profile can be used if the config asks for it and its carrier is neither the hotspot's
/// own virtual adapter nor one that the hotspot may be broadcast on. Nothing else counts, and
/// a carrier that is not known is none of these.
pub proof fn law_what_can_be_used_as_uplink(
    cfg: HotspotConfig,
    profiles: Seq<Profile>,
    adapters: Seq<Adapter>,
    i: int,
)
    requires
        0 <= i < profiles.len(),
    ensures
        ({
            let name = crate::text::ascii_lower(crate::text::trimmed(cfg.uplink_adapter@));
            let network = crate::text::ascii_lower(profiles[i].network_name@);
            usable_uplinks(cfg, profiles, adapters)[i] == match profiles[i].carrier(adapters) {
                None => name != "auto"@ && network == name,
                Some(a) => {
                    &&& {
                        ||| name == "auto"@
                        ||| network == name
                        ||| crate::text::ascii_lower(a.friendly_name@) == name
                        ||| crate::text::ascii_lower(a.description@) == name
                    }
                    &&& forall|k: int|
                        0 <= k < a.ipv4@.len() ==> !crate::text::has_prefix(
                            (#[trigger] a.ipv4@[k])@,
                            "192.168.137."@,
                        )
                    &&& match Resolved::of(cfg.hotspot_adapter@, adapters) {
                        Resolved::Known(Some(own)) => a.guid != own.guid,
                        Resolved::Known(None) => true,
                        Resolved::Ambiguous => !a.is_wifi,
                    }
                },
            }
        }),
{
    lemma_auto();
    if profiles[i].carrier(adapters) is Some {
        let a = profiles[i].carrier(adapters)->0;
        if !a.is_virtual() {
            assert forall|k: int| 0 <= k < a.ipv4@.len() implies !crate::text::has_prefix(
                (#[trigger] a.ipv4@[k])@,
                "192.168.137."@,
            ) by {
                assert(!crate::adapters::on_hotspot_subnet(a.ipv4@[k]));
            }
        } else {
            let k = choose|k: int|
                0 <= k < a.ipv4@.len() && crate::adapters::on_hotspot_subnet(
                    #[trigger] a.ipv4@[k],
                );
            assert(crate::text::has_prefix(a.ipv4@[k]@, "192.168.137."@));
        }
    }
}

/// Whether a profile can be used does not depend on connectivity: with other levels, the same
/// profiles can be.
pub proof fn law_connectivity_does_not_decide_what_can_be_used(
    cfg: HotspotConfig,
    profiles: Seq<Profile>,
    others: Seq<Profile>,
    adapters: Seq<Adapter>,
)
    requires
        profiles.len() == others.len(),
        forall|i: int|
            0 <= i < profiles.len() ==> (#[trigger] profiles[i]).network_name
                == others[i].network_name && profiles[i].adapter_guid == others[i].adapter_guid,
    ensures
        usable_uplinks(cfg, profiles, adapters) == usable_uplinks(cfg, others, adapters),
{
    let a = usable_uplinks(cfg, profiles, adapters);
    let b = usable_uplinks(cfg, others, adapters);
    assert forall|i: int| 0 <= i < profiles.len() implies a[i] == b[i] by {
        assert(profiles[i].carrier(adapters) == others[i].carrier(adapters));
    }
    assert(a =~= b);
}

/// There is an uplink to choose as soon as one profile can be used, and none otherwise: the
/// lookup fails only if nothing can be used.
pub proof fn law_there_is_a_choice_unless_nothing_can_be_used(
    cfg: HotspotConfig,
    profiles: Seq<Profile>,
    adapters: Seq<Adapter>,
    k: int,
)
    requires
        0 <= k < profiles.len(),
        usable_uplinks(cfg, profiles, adapters)[k],
    ensures
        exists|i: int|
            is_best(
                usable_uplinks(cfg, profiles, adapters),
                scores(profiles, adapters),
                i,
            ),
{
    let usable = usable_uplinks(cfg, profiles, adapters);
    lemma_best_among(usable, scores(profiles, adapters), usable.len() as int);
}

/// Among the first `n` uplinks there is a best, if one of them can be used.
pub(crate) proof fn lemma_best_among(
    usable: Seq<bool>,
    scored: Seq<(bool, Connectivity)>,
    n: int,
) -> (best: int)
    requires
        0 <= n <= usable.len(),
    ensures
        (exists|j: int| 0 <= j < n && #[trigger] usable[j]) ==> {
            &&& 0 <= best < n
            &&& usable[best]
            &&& forall|j: int|
                #![trigger usable[j]]
                0 <= j < n && usable[j] ==> !outranks(scored[j], scored[best]) && (j < best
                    ==> outranks(scored[best], scored[j]))
            &&& n == usable.len() ==> is_best(usable, scored, best)
        },
    decreases n,
{
    if n == 0 {
        0
    } else {
        let before = lemma_best_among(usable, scored, n - 1);
        let last = n - 1;
        if exists|j: int| 0 <= j < n - 1 && #[trigger] usable[j] {
            if usable[last] && outranks(scored[last], scored[before]) {
                last
            } else {
                before
            }
        } else {
            last
        }
    }
}

/// If a profile on a wired adapter can be used, the one chosen is on a wired adapter,
/// whatever the connectivity of any of them.
pub proof fn law_a_wired_uplink_is_chosen_whatever_it_reaches(
    cfg: HotspotConfig,
    profiles: Seq<Profile>,
    adapters: Seq<Adapter>,
    i: int,
    j: int,
)
    requires
        is_best(usable_uplinks(cfg, profiles, adapters), scores(profiles, adapters), i),
        0 <= j < profiles.len(),
        usable_uplinks(cfg, profiles, adapters)[j],
        profiles[j].carrier(adapters) is Some,
        profiles[j].carrier(adapters)->0.is_ethernet,
    ensures
        profiles[i].carrier(adapters) is Some,
        profiles[i].carrier(adapters)->0.is_ethernet,
{
    law_ethernet_wins(usable_uplinks(cfg, profiles, adapters), profiles, adapters, i, j);
}

/// Among uplinks that are equally wired, one with internet access is chosen over one whose
/// access is constrained, that over one that reaches local hosts only, and that over one that
/// carries nothing or whose level is not known; of equal ones the first is.
pub proof fn law_the_better_level_is_chosen(
    usable: Seq<bool>,
    profiles: Seq<Profile>,
    adapters: Seq<Adapter>,
    i: int,
    j: int,
)
    requires
        usable.len() == profiles.len(),
        is_best(usable, scores(profiles, adapters), i),
        0 <= j < profiles.len(),
        usable[j],
        (profiles[i].carrier(adapters) matches Some(a) && a.is_ethernet) == (
        profiles[j].carrier(adapters) matches Some(b) && b.is_ethernet),
    ensures
        ({
            let chosen = profiles[i].connectivity;
            let other = profiles[j].connectivity;
            let known = |level: Option<i32>| level is Some && 1 <= level->0 <= 3;
            &&& known(other) ==> known(chosen) && chosen->0 >= other->0
            &&& chosen == other || (!known(chosen) && !known(other)) ==> i <= j
        }),
{
    assert(!outranks(scores(profiles, adapters)[j], scores(profiles, adapters)[i]));
    assert(j < i ==> outranks(scores(profiles, adapters)[i], scores(profiles, adapters)[j]));
}

/// An uplink is called by its adapter's name, or by its network's where no adapter is known.
pub proof fn law_an_uplink_is_called_by_its_adapter(profile: Profile, adapters: Seq<Adapter>)
    ensures
        profile.carrier(adapters) is None ==> profile.label(adapters) == profile.network_name@,
        profile.carrier(adapters) matches Some(a) ==> profile.label(adapters) == a.friendly_name@,
{
}

/// The user is told of every network on offer, in order.
pub proof fn law_every_network_is_listed(
    profiles: Seq<Profile>,
    one_more: Profile,
    adapters: Seq<Adapter>,
)
    ensures
        networks(Seq::empty(), adapters) == "none"@,
        networks(profiles.push(one_more), adapters) == if profiles.len() == 0 {
            one_more.listing(adapters)
        } else {
            networks(profiles, adapters) + ", "@ + one_more.listing(adapters)
        },
        crate::text::has_prefix(one_more.listing(adapters), "'"@ + one_more.network_name@),
{
    let more = profiles.push(one_more);
    let listings = Seq::new(profiles.len(), |i: int| profiles[i].listing(adapters));
    assert(Seq::new(more.len(), |i: int| more[i].listing(adapters)) =~= listings.push(
        one_more.listing(adapters),
    ));
    crate::text::law_joining_keeps_every_text(listings, one_more.listing(adapters), ", "@);
    let start = "'"@ + one_more.network_name@;
    assert(one_more.listing(adapters).take(start.len() as int) =~= start);
}

/// A lookup that found nothing says so: that the hotspot needs what was asked for, if anything
/// was, and otherwise that there is nothing to share, or that nothing goes by the name.
pub proof fn law_a_failed_lookup_says_why(
    cfg: HotspotConfig,
    wanted: Seq<bool>,
    profiles: Seq<Profile>,
    adapters: Seq<Adapter>,
)
    ensures
        ({
            let auto = crate::text::ascii_lower(crate::text::trimmed(cfg.uplink_adapter@))
                == "auto"@;
            let asked = wanted.contains(true);
            match UplinkFault::of(wanted, cfg, profiles, adapters) {
                UplinkFault::NeededForHotspot { networks: n } => asked && n == networks(
                    profiles,
                    adapters,
                ),
                UplinkFault::NothingToShare { networks: n } => !asked && auto && n == networks(
                    profiles,
                    adapters,
                ),
                UplinkFault::NotConnected { uplink_adapter, networks: n } => !asked && !auto
                    && uplink_adapter == cfg.uplink_adapter@ && n == networks(
                    profiles,
                    adapters,
                ),
            }
        }),
{
    lemma_auto();
    if exists|i: int| 0 <= i < wanted.len() && #[trigger] wanted[i] {
        let i = choose|i: int| 0 <= i < wanted.len() && #[trigger] wanted[i];
        assert(wanted[i] == true);
    }
    if wanted.contains(true) {
        let i = choose|i: int| 0 <= i < wanted.len() && wanted[i] == true;
        assert(wanted[i]);
    }
}

/// Every level of connectivity has a name of its own.
pub proof fn law_each_level_has_its_name(level: Option<i32>)
    ensures
        connectivity_text(level) == "internet access"@ <==> level == Some(3i32),
        connectivity_text(level) == "constrained internet"@ <==> level == Some(2i32),
        connectivity_text(level) == "local access only"@ <==> level == Some(1i32),
        connectivity_text(level) == "no connectivity"@ <==> level == Some(0i32),
        connectivity_text(level) == "connectivity unknown"@ <==> level is None || !(0 <= level->0
            <= 3),
{
    reveal_strlit("internet access");
    reveal_strlit("constrained internet");
    reveal_strlit("local access only");
    reveal_strlit("no connectivity");
    reveal_strlit("connectivity unknown");
    assert("internet access"@[0] == 'i');
    assert("constrained internet"@[0] == 'c' && "constrained internet"@[3] == 's');
    assert("local access only"@[0] == 'l');
    assert("no connectivity"@[0] == 'n');
    assert("connectivity unknown"@[0] == 'c' && "connectivity unknown"@[3] == 'n');
}

/// What the user is told of a failed lookup holds the networks on offer, and the name that
/// nothing answered to.
pub proof fn law_the_user_is_told_what_is_on_offer(networks: Seq<char>, name: Seq<char>)
    ensures
        ({
            let needed = (UplinkFault::NeededForHotspot { networks }).message();
            let nothing = (UplinkFault::NothingToShare { networks }).message();
            let missing = (UplinkFault::NotConnected { uplink_adapter: name, networks }).message();
            &&& needed.len() > networks.len() && needed.drop_last().skip(
                needed.len() - 1 - networks.len(),
            ) == networks
            &&& nothing.len() > networks.len() && nothing.drop_last().skip(
                nothing.len() - 1 - networks.len(),
            ) == networks
            &&& exists|at: int|
                0 <= at && at + networks.len() <= missing.len() && #[trigger] missing.subrange(
                    at,
                    at + networks.len(),
                ) == networks
            &&& exists|at: int|
                0 <= at && at + name.len() <= missing.len() && #[trigger] missing.subrange(
                    at,
                    at + name.len(),
                ) == name
        }),
{
    reveal_strlit(".");
    let needed = (UplinkFault::NeededForHotspot { networks }).message();
    let nothing = (UplinkFault::NothingToShare { networks }).message();
    let missing = (UplinkFault::NotConnected { uplink_adapter: name, networks }).message();
    assert(needed.drop_last().skip(needed.len() - 1 - networks.len()) =~= networks);
    assert(nothing.drop_last().skip(nothing.len() - 1 - networks.len()) =~= networks);
    let opening = "no connected network found for uplink adapter '"@.len() as int;
    assert(missing.subrange(opening, opening + name.len()) =~= name);
    let at = opening + name.len() + "'. Connected networks right now: "@.len();
    assert(missing.subrange(at as int, at + networks.len()) =~= networks);
}

} // verus!
