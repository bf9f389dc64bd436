//! Wi-Fi connection status, as read off the machine's Wi-Fi adapters.

use crate::text::{eq_ignore_ascii_case, from_utf8_lossy, wide_to_string};
use vstd::prelude::*;

verus! {

/// The interface state that Windows reports for an adapter associated with a network.
pub const INTERFACE_STATE_CONNECTED: i32 = 1;

/// The software radio state that Windows reports for a radio that is switched on.
pub const RADIO_STATE_ON: i32 = 1;

/// What a single Wi-Fi adapter is currently doing.
#[derive(Debug, Clone)]
pub struct InterfaceStatus {
    pub description: String,
    pub connected: bool,
    /// SSID of the current connection, when connected and readable.
    pub ssid: Option<String>,
    /// True unless the adapter's software radio is known to be off (the Wi-Fi toggle in
    /// Windows Settings / Action Center). Defaults to `true` when the state can't be
    /// read, so a query failure never falsely blocks a legitimate hotspot start.
    pub radio_enabled: bool,
}

/// Snapshot of every Wi-Fi adapter on the machine.
#[derive(Debug, Clone)]
pub struct WifiStatus {
    pub interfaces: Vec<InterfaceStatus>,
}

impl Default for WifiStatus {
    /// A machine without Wi-Fi adapters.
    fn default() -> (s: Self)
        ensures
            s.interfaces@ == Seq::<InterfaceStatus>::empty(),
    {
        WifiStatus { interfaces: Vec::new() }
    }
}

impl InterfaceStatus {
    /// Is this adapter on a network, other than one named `ignore_ssid`? A network whose name
    /// could not be read counts.
    pub open spec fn counts(self, ignore_ssid: Option<Seq<char>>) -> bool {
        self.connected && !(self.ssid is Some && ignore_ssid is Some && crate::text::ascii_lower(
            self.ssid->0@,
        ) == crate::text::ascii_lower(ignore_ssid->0))
    }
}

impl WifiStatus {
    /// The first adapter on a network other than `ignore_ssid`.
    pub open spec fn active(self, ignore_ssid: Option<Seq<char>>) -> Option<InterfaceStatus> {
        crate::lists::first(self.interfaces@, |i: InterfaceStatus| i.counts(ignore_ssid))
    }

    /// The adapter, if any, that counts as our real Wi-Fi connection.
    ///
    /// `ignore_ssid` exists because switching on Mobile Hotspot can make the Wi-Fi
    /// adapter (or a virtual AP interface) report itself as "connected" to our own
    /// hotspot SSID. Counting that as Wi-Fi being back would make the watchdog turn the
    /// hotspot straight off again, and flap.
    pub fn active_interface(&self, ignore_ssid: Option<&str>) -> (r: Option<&InterfaceStatus>)
        ensures
            match r {
                Some(i) => self.active(crate::text::text_of(ignore_ssid)) == Some(*i),
                None => self.active(crate::text::text_of(ignore_ssid)) is None,
            },
    {
        let ghost ignored = crate::text::text_of(ignore_ssid);
        let ghost wanted = |i: InterfaceStatus| i.counts(ignored);
        let mut k: usize = 0;
        while k < self.interfaces.len()
            invariant
                k <= self.interfaces.len(),
                ignored == crate::text::text_of(ignore_ssid),
                wanted == (|i: InterfaceStatus| i.counts(ignored)),
                forall|j: int| 0 <= j < k ==> !wanted(#[trigger] self.interfaces@[j]),
            decreases self.interfaces.len() - k,
        {
            let interface = &self.interfaces[k];
            let ours = match (&interface.ssid, ignore_ssid) {
                (Some(ssid), Some(ignore)) => eq_ignore_ascii_case(ssid.as_str(), ignore),
                _ => false,
            };
            if interface.connected && !ours {
                proof {
                    crate::lists::lemma_first_found(self.interfaces@, wanted, k as int);
                }
                return Some(interface);
            }
            k = k + 1;
        }
        proof {
            crate::lists::lemma_first_missing(self.interfaces@, wanted);
        }
        None
    }

    /// True when at least one adapter is associated with a real network.
    pub fn is_connected(&self, ignore_ssid: Option<&str>) -> (r: bool)
        ensures
            r == self.active(crate::text::text_of(ignore_ssid)) is Some,
    {
        self.active_interface(ignore_ssid).is_some()
    }

    /// SSID of the active adapter, for logging.
    pub fn connected_ssid(&self, ignore_ssid: Option<&str>) -> (r: Option<&str>)
        ensures
            crate::text::text_of(r) == match self.active(crate::text::text_of(ignore_ssid)) {
                Some(i) => crate::text::string_of(i.ssid),
                None => None,
            },
    {
        match self.active_interface(ignore_ssid) {
            Some(interface) => match &interface.ssid {
                Some(ssid) => Some(ssid.as_str()),
                None => None,
            },
            None => None,
        }
    }

    /// True when Wi-Fi can plausibly be used at all -- i.e. at least one adapter's radio
    /// is on. An empty interface list (nothing to read) counts as "unknown", not
    /// "disabled", for the same fail-open reason as `InterfaceStatus::radio_enabled`.
    pub open spec fn usable(self) -> bool {
        self.interfaces@.len() == 0 || exists|k: int|
            0 <= k < self.interfaces@.len() && (#[trigger] self.interfaces@[k]).radio_enabled
    }

    /// True when Wi-Fi can plausibly be used at all -- see [`WifiStatus::usable`].
    pub fn radio_enabled(&self) -> (r: bool)
        ensures
            r == self.usable(),
    {
        if self.interfaces.len() == 0 {
            return true;
        }
        let mut k: usize = 0;
        while k < self.interfaces.len()
            invariant
                k <= self.interfaces.len(),
                forall|j: int| 0 <= j < k ==> !(#[trigger] self.interfaces@[j]).radio_enabled,
            decreases self.interfaces.len() - k,
        {
            if self.interfaces[k].radio_enabled {
                return true;
            }
            k = k + 1;
        }
        false
    }
}

// --- reading an adapter ----------------------------------------------------------

/// The name of the current network as the driver reports it: a buffer, and how many of its
/// bytes to use.
pub struct SsidReading<'a> {
    pub length: u32,
    pub bytes: &'a [u8],
}

/// The software radio states of an adapter as the driver reports them: a buffer, and how
/// many of its entries to use.
pub struct RadioReading<'a> {
    pub phys: u32,
    pub states: &'a [i32],
}

/// How many entries of a buffer of `capacity` are in use, when the driver says `count`.
pub open spec fn in_use(count: u32, capacity: nat) -> int {
    if count < capacity {
        count as int
    } else {
        capacity as int
    }
}

/// An SSID that reads as nothing is no SSID.
pub open spec fn named(name: Seq<char>) -> Option<Seq<char>> {
    if name.len() == 0 {
        None
    } else {
        Some(name)
    }
}

/// An SSID that reads as nothing is no SSID.
pub fn ssid_from(name: String) -> (r: Option<String>)
    ensures
        crate::text::string_of(r) == named(name@),
{
    if name.as_str().unicode_len() == 0 {
        None
    } else {
        Some(name)
    }
}

/// The name in a reading: the bytes in use, read as UTF-8.
pub open spec fn ssid_in(reading: SsidReading) -> Option<Seq<char>> {
    named(
        crate::text::utf8_lossy(
            reading.bytes@.take(in_use(reading.length, reading.bytes@.len())),
        ),
    )
}

/// Is this what the driver's reports of an adapter come down to -- see [`read_interface`]?
pub open spec fn reads_as(
    r: InterfaceStatus,
    description: Seq<u16>,
    state: i32,
    connection: Option<SsidReading>,
    radio: Option<RadioReading>,
) -> bool {
    &&& r.description@ == crate::text::utf16_lossy(crate::text::up_to_nul(description))
    &&& r.connected == (state == INTERFACE_STATE_CONNECTED)
    &&& crate::text::string_of(r.ssid) == match connection {
        Some(c) if state == INTERFACE_STATE_CONNECTED => ssid_in(c),
        _ => None,
    }
    &&& r.radio_enabled == radio_on(radio)
}

/// The name in a reading: the bytes in use, read as UTF-8.
pub fn current_ssid(reading: &SsidReading) -> (r: Option<String>)
    ensures
        crate::text::string_of(r) == ssid_in(*reading),
        vstd::utf8::valid_utf8(
            reading.bytes@.take(in_use(reading.length, reading.bytes@.len())),
        ) ==> crate::text::string_of(r) == named(
            vstd::utf8::decode_utf8(
                reading.bytes@.take(in_use(reading.length, reading.bytes@.len())),
            ),
        ),
{
    let len: usize = if (reading.length as usize) < reading.bytes.len() {
        reading.length as usize
    } else {
        reading.bytes.len()
    };
    let used = vstd::slice::slice_subrange(reading.bytes, 0, len);
    assert(used@ =~= reading.bytes@.take(in_use(reading.length, reading.bytes@.len())));
    ssid_from(from_utf8_lossy(used))
}

/// Does a reading show a radio that is on? No reading at all counts as yes.
pub open spec fn radio_on(reading: Option<RadioReading>) -> bool {
    match reading {
        None => true,
        Some(r) => exists|k: int|
            0 <= k < in_use(r.phys, r.states@.len()) && #[trigger] r.states@[k] == RADIO_STATE_ON,
    }
}

/// Whether the adapter's software radio is on.
///
/// Unlike the SSID this feeds a real decision (whether to attempt a hotspot start), so a
/// reading that could not be had counts as `true` rather than `false`, to avoid ever
/// blocking a legitimate start on a read we couldn't perform.
pub fn radio_enabled(reading: &Option<RadioReading>) -> (r: bool)
    ensures
        r == radio_on(*reading),
{
    match reading {
        None => true,
        Some(radio) => {
            let count: usize = if (radio.phys as usize) < radio.states.len() {
                radio.phys as usize
            } else {
                radio.states.len()
            };
            let mut k: usize = 0;
            while k < count
                invariant
                    k <= count,
                    *reading == Some(*radio),
                    count == in_use(radio.phys, radio.states@.len()),
                    forall|j: int| 0 <= j < k ==> #[trigger] radio.states@[j] != RADIO_STATE_ON,
                decreases count - k,
            {
                if radio.states[k] == RADIO_STATE_ON {
                    assert(reading->0.states@[k as int] == RADIO_STATE_ON);
                    assert(0 <= k < in_use(reading->0.phys, reading->0.states@.len()));
                    assert(reading is Some);
                    return true;
                }
                k = k + 1;
            }
            false
        },
    }
}

/// Does Windows report this interface state for an adapter that is on a network?
pub fn is_connected_state(state: i32) -> (r: bool)
    ensures
        r == (state == INTERFACE_STATE_CONNECTED),
{
    state == INTERFACE_STATE_CONNECTED
}

/// What one adapter is doing, from what the driver reports of it. The SSID only exists while
/// associated, so a reading of it is ignored otherwise; the radio state is independent of
/// association.
pub fn read_interface(
    description: &[u16],
    state: i32,
    connection: Option<SsidReading>,
    radio: Option<RadioReading>,
) -> (r: InterfaceStatus)
    ensures
        reads_as(r, description@, state, connection, radio),
{
    let connected = is_connected_state(state);
    let ssid = match connection {
        Some(reading) => if connected {
            current_ssid(&reading)
        } else {
            None
        },
        None => None,
    };
    InterfaceStatus {
        description: wide_to_string(description),
        connected,
        ssid,
        radio_enabled: radio_enabled(&radio),
    }
}

// --- laws ------------------------------------------------------------------------

/// An adapter that reports itself on our own hotspot never counts as Wi-Fi being back,
/// whatever the case the name is reported in.
pub proof fn law_our_own_hotspot_is_not_wifi(status: WifiStatus, ignore_ssid: Seq<char>)
    ensures
        status.active(Some(ignore_ssid)) matches Some(i) ==> {
            &&& i.connected
            &&& status.interfaces@.contains(i)
            &&& i.ssid is Some ==> crate::text::ascii_lower(i.ssid->0@)
                != crate::text::ascii_lower(ignore_ssid)
        },
{
    crate::lists::lemma_first(
        status.interfaces@,
        |i: InterfaceStatus| i.counts(Some(ignore_ssid)),
    );
}

/// A real network still counts while our own hotspot runs: any adapter on another network,
/// or on one whose name cannot be read, makes Wi-Fi connected.
pub proof fn law_a_real_network_counts(status: WifiStatus, ignore_ssid: Seq<char>, k: int)
    requires
        0 <= k < status.interfaces@.len(),
        status.interfaces@[k].connected,
        status.interfaces@[k].ssid is None || crate::text::ascii_lower(
            status.interfaces@[k].ssid->0@,
        ) != crate::text::ascii_lower(ignore_ssid),
    ensures
        status.active(Some(ignore_ssid)) is Some,
{
    let wanted = |i: InterfaceStatus| i.counts(Some(ignore_ssid));
    crate::lists::lemma_first(status.interfaces@, wanted);
    assert(wanted(status.interfaces@[k]));
}

/// The adapter that counts as our Wi-Fi connection is the first that is on a network with an
/// unreadable name, or with one that is not the ignored name in some other case.
pub proof fn law_the_first_real_network_is_the_active_one(
    status: WifiStatus,
    ignore_ssid: Option<Seq<char>>,
    k: int,
)
    requires
        0 <= k < status.interfaces@.len(),
        forall|j: int|
            0 <= j < k && (#[trigger] status.interfaces@[j]).connected ==> {
                &&& status.interfaces@[j].ssid is Some
                &&& ignore_ssid is Some
                &&& crate::text::ascii_lower(status.interfaces@[j].ssid->0@)
                    == crate::text::ascii_lower(ignore_ssid->0)
            },
        status.interfaces@[k].connected,
        status.interfaces@[k].ssid is None || ignore_ssid is None || crate::text::ascii_lower(
            status.interfaces@[k].ssid->0@,
        ) != crate::text::ascii_lower(ignore_ssid->0),
    ensures
        status.active(ignore_ssid) == Some(status.interfaces@[k]),
{
    let wanted = |i: InterfaceStatus| i.counts(ignore_ssid);
    assert forall|j: int| 0 <= j < k implies !wanted(#[trigger] status.interfaces@[j]) by {
        assert(status.interfaces@[j].connected ==> status.interfaces@[j].ssid is Some);
    }
    crate::lists::lemma_first_found(status.interfaces@, wanted, k);
}

/// Where every adapter is off all networks, or on the ignored one, none counts.
pub proof fn law_without_a_real_network_none_is_active(
    status: WifiStatus,
    ignore_ssid: Option<Seq<char>>,
)
    requires
        forall|j: int|
            0 <= j < status.interfaces@.len() && (#[trigger] status.interfaces@[j]).connected ==> {
                &&& status.interfaces@[j].ssid is Some
                &&& ignore_ssid is Some
                &&& crate::text::ascii_lower(status.interfaces@[j].ssid->0@)
                    == crate::text::ascii_lower(ignore_ssid->0)
            },
    ensures
        status.active(ignore_ssid) is None,
{
    let wanted = |i: InterfaceStatus| i.counts(ignore_ssid);
    assert forall|j: int| 0 <= j < status.interfaces@.len() implies !wanted(
        #[trigger] status.interfaces@[j],
    ) by {
        assert(status.interfaces@[j].connected ==> status.interfaces@[j].ssid is Some);
    }
    crate::lists::lemma_first_missing(status.interfaces@, wanted);
}

/// Wi-Fi is out of use only where there are adapters and the radio of each of them is off: one
/// more adapter whose radio is on always makes it usable, and one whose radio is off never
/// makes a difference among others.
pub proof fn law_wifi_is_off_only_if_every_radio_is(status: WifiStatus, more: WifiStatus)
    requires
        more.interfaces@.len() > 0,
        more.interfaces@.drop_last() == status.interfaces@,
    ensures
        status.interfaces@.len() == 0 ==> status.usable(),
        more.interfaces@.last().radio_enabled ==> more.usable(),
        !more.interfaces@.last().radio_enabled && status.interfaces@.len() > 0 ==> (more.usable()
            <==> status.usable()),
        !more.interfaces@.last().radio_enabled && status.interfaces@.len() == 0 ==> !more.usable(),
{
    let n = status.interfaces@.len() as int;
    assert(more.interfaces@[n] == more.interfaces@.last());
    assert forall|k: int| 0 <= k < n implies #[trigger] more.interfaces@[k]
        == status.interfaces@[k] by {
        assert(more.interfaces@.drop_last()[k] == more.interfaces@[k]);
    }
    if n > 0 && status.usable() {
        let k = choose|k: int|
            0 <= k < n && (#[trigger] status.interfaces@[k]).radio_enabled;
        assert(more.interfaces@[k].radio_enabled);
    }
    if more.usable() && !more.interfaces@.last().radio_enabled {
        let k = choose|k: int|
            0 <= k < more.interfaces@.len() && (#[trigger] more.interfaces@[k]).radio_enabled;
        if k < n {
            assert(status.interfaces@[k].radio_enabled);
        }
    }
}

/// A radio counts as off only if it was read and none of the states in use says on; what the
/// buffer holds beyond them makes no difference.
pub proof fn law_a_radio_is_off_only_if_read_so(reading: RadioReading, k: int)
    ensures
        radio_on(None),
        0 <= k < reading.phys && k < reading.states@.len() && reading.states@[k] == 1 ==> radio_on(
            Some(reading),
        ),
        (forall|j: int|
            0 <= j < reading.phys && j < reading.states@.len() ==> #[trigger] reading.states@[j]
                != 1) ==> !radio_on(Some(reading)),
{
    if 0 <= k < reading.phys && k < reading.states@.len() && reading.states@[k] == 1 {
        let read = Some(reading);
        assert(0 <= k < in_use(read->0.phys, read->0.states@.len()) && read->0.states@[k]
            == RADIO_STATE_ON);
    }
}

/// A driver never makes us read beyond the buffer, nor beyond what it says is in use.
pub proof fn law_only_what_is_in_use_is_read(count: u32, capacity: nat)
    ensures
        in_use(count, capacity) <= count,
        in_use(count, capacity) <= capacity,
        in_use(count, capacity) == count || in_use(count, capacity) == capacity,
{
}

/// An SSID is read as it is, unless there is nothing in it.
pub proof fn law_a_name_is_kept(name: Seq<char>)
    ensures
        named(name) is Some <==> name.len() > 0,
        named(name) matches Some(n) ==> n == name,
{
}

/// An adapter is connected in one state only, and has no SSID in any other; it is then the one
/// that was read, if one was. The radio has no part in it, nor it in the radio.
pub proof fn law_an_ssid_needs_a_connection(
    r: InterfaceStatus,
    description: Seq<u16>,
    state: i32,
    connection: Option<SsidReading>,
    radio: Option<RadioReading>,
)
    requires
        reads_as(r, description, state, connection, radio),
    ensures
        r.connected <==> state == 1,
        state != 1 || connection is None ==> r.ssid is None,
        state == 1 && connection is Some ==> crate::text::string_of(r.ssid) == ssid_in(
            connection->0,
        ),
        radio is None ==> r.radio_enabled,
        r.radio_enabled == radio_on(radio),
{
}

/// The bytes beyond those in use make no difference to the name that is read.
pub proof fn law_only_the_bytes_in_use_are_read(a: SsidReading, b: SsidReading, used: Seq<u8>)
    requires
        a.length == used.len(),
        b.length == used.len(),
        a.bytes@.len() >= used.len(),
        b.bytes@.len() >= used.len(),
        a.bytes@.take(used.len() as int) == used,
        b.bytes@.take(used.len() as int) == used,
    ensures
        ssid_in(a) == ssid_in(b),
        ssid_in(a) is Some ==> ssid_in(a)->0 == crate::text::utf8_lossy(used),
        ssid_in(a) is None <==> crate::text::utf8_lossy(used).len() == 0,
{
}

} // verus!
