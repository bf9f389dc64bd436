//! The status report sent to the companion microcontroller: a handful of single-letter
//! fields, derived from what the watchdog saw this tick.
//!
//! Pure data assembly, so the rules for what gets reported stand on their own. `companion`
//! decides what is sent.

use crate::text::{comes_before, same_text};
use vstd::prelude::*;

verus! {

/// Field key for the overall state, the one field every report carries.
pub const STATE: &'static str = "s";

/// Field key for the network's name.
pub const SSID: &'static str = "i";

/// Field key for the hotspot's password.
pub const PASSWORD: &'static str = "p";

/// Field key for the machine's address.
pub const ADDRESS: &'static str = "a";

/// The Wi-Fi half of what [`Status::new`] needs, already resolved by the caller.
pub struct WifiSnapshot<'a> {
    pub wifi_ok: bool,
    /// False when the adapter's radio itself is off (the Wi-Fi toggle), as opposed to
    /// merely being disconnected from a network.
    pub radio_enabled: bool,
    pub connected: bool,
    pub ssid: Option<&'a str>,
    pub ip_address: Option<&'a str>,
}

/// The hotspot half of what [`Status::new`] needs, already resolved by the caller.
pub struct HotspotSnapshot<'a> {
    pub on: bool,
    pub ssid: &'a str,
    pub password: &'a str,
    pub ip_address: Option<&'a str>,
}

/// What a [`WifiSnapshot`] says.
pub ghost struct WifiFacts {
    pub wifi_ok: bool,
    pub radio_enabled: bool,
    pub connected: bool,
    pub ssid: Option<Seq<char>>,
    pub ip_address: Option<Seq<char>>,
}

/// What a [`HotspotSnapshot`] says.
pub ghost struct HotspotFacts {
    pub on: bool,
    pub ssid: Seq<char>,
    pub password: Seq<char>,
    pub ip_address: Option<Seq<char>>,
}

impl<'a> View for WifiSnapshot<'a> {
    type V = WifiFacts;

    open spec fn view(&self) -> WifiFacts {
        WifiFacts {
            wifi_ok: self.wifi_ok,
            radio_enabled: self.radio_enabled,
            connected: self.connected,
            ssid: crate::text::text_of(self.ssid),
            ip_address: crate::text::text_of(self.ip_address),
        }
    }
}

impl<'a> View for HotspotSnapshot<'a> {
    type V = HotspotFacts;

    open spec fn view(&self) -> HotspotFacts {
        HotspotFacts {
            on: self.on,
            ssid: self.ssid@,
            password: self.password@,
            ip_address: crate::text::text_of(self.ip_address),
        }
    }
}

/// One field of a report.
#[derive(Debug, PartialEq, Eq)]
struct Field {
    key: &'static str,
    value: String,
}

/// A companion status report, keyed by single-letter fields ("s" for state, "i" for the
/// SSID, "a" for the address, "p" for the password). Owns its values (rather than
/// borrowing, as `WifiSnapshot`/`HotspotSnapshot` do) so a status can be held onto across
/// polling ticks and compared against the next one. Its view maps keys to values.
#[derive(Debug, PartialEq, Eq)]
pub struct Status {
    /// In the order of their keys, each key once.
    elements: Vec<Field>,
}

/// What a run of fields says, key by key.
spec fn field_map(fields: Seq<Field>) -> Map<Seq<char>, Seq<char>>
    decreases fields.len(),
{
    if fields.len() == 0 {
        Map::empty()
    } else {
        field_map(fields.drop_last()).insert(fields.last().key@, fields.last().value@)
    }
}

/// Are the fields in the order of their keys, each key once?
spec fn ordered(fields: Seq<Field>) -> bool {
    forall|i: int, j: int|
        0 <= i < j < fields.len() ==> crate::text::text_before(
            (#[trigger] fields[i]).key@,
            (#[trigger] fields[j]).key@,
        )
}

/// Are these all the keys of `report`, in order?
pub open spec fn in_order(report: Map<Seq<char>, Seq<char>>, keys: Seq<Seq<char>>) -> bool {
    &&& forall|i: int, j: int|
        0 <= i < j < keys.len() ==> crate::text::text_before(
            #[trigger] keys[i],
            #[trigger] keys[j],
        )
    &&& forall|k: Seq<char>| keys.contains(k) <==> #[trigger] report.contains_key(k)
}

/// The lines `key:value` for these keys.
pub open spec fn lines(report: Map<Seq<char>, Seq<char>>, keys: Seq<Seq<char>>) -> Seq<Seq<char>> {
    Seq::new(keys.len(), |i: int| keys[i] + ":"@ + report[keys[i]])
}

/// `value`, or "N/A" where there is none.
pub open spec fn or_na(value: Option<Seq<char>>) -> Seq<char> {
    match value {
        Some(v) => v,
        None => "N/A"@,
    }
}

/// The report for one tick. Wi-Fi comes first: the hotspot is only reported when
/// there is no Wi-Fi connection to report instead, since that is the whole point of
/// it being on.
pub open spec fn report(wifi: WifiFacts, hotspot: Option<HotspotFacts>) -> Map<
    Seq<char>,
    Seq<char>,
> {
    let nothing = Map::<Seq<char>, Seq<char>>::empty();
    if !wifi.wifi_ok {
        nothing.insert(STATE@, "unknown"@)
    } else if !wifi.radio_enabled {
        nothing.insert(STATE@, "wifi-off"@)
    } else if wifi.connected {
        nothing.insert(STATE@, "connected"@).insert(SSID@, or_na(wifi.ssid)).insert(
            ADDRESS@,
            or_na(wifi.ip_address),
        )
    } else {
        match hotspot {
            Some(h) if h.on => nothing.insert(STATE@, "hotspot"@).insert(SSID@, h.ssid).insert(
                PASSWORD@,
                h.password,
            ).insert(ADDRESS@, or_na(h.ip_address)),
            _ => nothing.insert(STATE@, "disconnected"@),
        }
    }
}

/// The fields of `now` that `before` lacks, or has with another value.
pub open spec fn changes(
    now: Map<Seq<char>, Seq<char>>,
    before: Map<Seq<char>, Seq<char>>,
) -> Map<Seq<char>, Seq<char>> {
    Map::new(
        |k: Seq<char>| now.contains_key(k) && !(before.contains_key(k) && before[k] == now[k]),
        |k: Seq<char>| now[k],
    )
}

impl View for Status {
    type V = Map<Seq<char>, Seq<char>>;

    closed spec fn view(&self) -> Map<Seq<char>, Seq<char>> {
        field_map(self.elements@)
    }
}

/// The field at `i` is what the map says of its key; and the keys are those of the fields.
proof fn lemma_field_map(fields: Seq<Field>)
    requires
        ordered(fields),
    ensures
        forall|i: int|
            0 <= i < fields.len() ==> field_map(fields).contains_key((#[trigger] fields[i]).key@)
                && field_map(fields)[fields[i].key@] == fields[i].value@,
        forall|k: Seq<char>| #[trigger]
            field_map(fields).contains_key(k) ==> exists|i: int|
                0 <= i < fields.len() && (#[trigger] fields[i]).key@ == k,
    decreases fields.len(),
{
    if fields.len() > 0 {
        let rest = fields.drop_last();
        assert forall|i: int, j: int| 0 <= i < j < rest.len() implies crate::text::text_before(
            (#[trigger] rest[i]).key@,
            (#[trigger] rest[j]).key@,
        ) by {
            assert(rest[i] == fields[i] && rest[j] == fields[j]);
        }
        lemma_field_map(rest);
        assert forall|i: int| 0 <= i < fields.len() implies field_map(fields).contains_key(
            (#[trigger] fields[i]).key@,
        ) && field_map(fields)[fields[i].key@] == fields[i].value@ by {
            if i < rest.len() {
                assert(rest[i] == fields[i]);
                assert(crate::text::text_before(fields[i].key@, fields[fields.len() - 1].key@));
                if fields[i].key@ == fields.last().key@ {
                    crate::text::lemma_text_before_irreflexive(fields[i].key@);
                }
            }
        }
        assert forall|k: Seq<char>| #[trigger] field_map(fields).contains_key(k) implies exists|
            i: int,
        |
            0 <= i < fields.len() && (#[trigger] fields[i]).key@ == k by {
            if k == fields.last().key@ {
                assert(fields[fields.len() - 1].key@ == k);
            } else {
                assert(field_map(rest).contains_key(k));
                let i = choose|i: int| 0 <= i < rest.len() && (#[trigger] rest[i]).key@ == k;
                assert(fields[i].key@ == k);
            }
        }
    }
}

impl Field {
    /// The same field again.
    fn copy(&self) -> (r: Field)
        ensures
            r.key@ == self.key@,
            r.value@ == self.value@,
    {
        Field { key: self.key, value: self.value.as_str().to_string() }
    }
}

/// The place in an order: does every field of `left` come before every field of `right`?
spec fn all_before(left: Seq<Field>, right: Seq<Field>) -> bool {
    forall|i: int, j: int|
        0 <= i < left.len() && 0 <= j < right.len() ==> crate::text::text_before(
            (#[trigger] left[i]).key@,
            (#[trigger] right[j]).key@,
        )
}

/// `fields` with `key` set to `value`.
fn set_field(fields: &Vec<Field>, key: &'static str, value: &str) -> (r: Vec<Field>)
    requires
        ordered(fields@),
    ensures
        ordered(r@),
        field_map(r@) == field_map(fields@).insert(key@, value@),
{
    let mut r: Vec<Field> = Vec::new();
    let mut placed = false;
    let mut k: usize = 0;
    assert(fields@.take(0) =~= Seq::<Field>::empty());
    while k < fields.len()
        invariant
            k <= fields.len(),
            ordered(fields@),
            ordered(r@),
            all_before(r@, fields@.skip(k as int)),
            placed ==> forall|j: int|
                k <= j < fields@.len() ==> crate::text::text_before(
                    key@,
                    (#[trigger] fields@[j]).key@,
                ),
            !placed ==> forall|i: int|
                0 <= i < r@.len() ==> crate::text::text_before((#[trigger] r@[i]).key@, key@),
            field_map(r@) == if placed {
                field_map(fields@.take(k as int)).insert(key@, value@)
            } else {
                field_map(fields@.take(k as int))
            },
        decreases fields.len() - k,
    {
        let ghost before = r@;
        let ghost was_placed = placed;
        let ghost here = fields@[k as int];
        assert(fields@.take(k + 1).drop_last() =~= fields@.take(k as int));
        assert(fields@.take(k + 1).last() == here);
        assert(fields@.skip(k as int)[0] == here);
        assert forall|i: int| 0 <= i < before.len() implies crate::text::text_before(
            (#[trigger] before[i]).key@,
            here.key@,
        ) by {
            assert(fields@.skip(k as int)[0] == here);
        }
        assert forall|j: int| k < j < fields@.len() implies crate::text::text_before(
            here.key@,
            (#[trigger] fields@[j]).key@,
        ) by {}
        let ghost seen = field_map(fields@.take(k as int));
        if !placed && same_text(fields[k].key, key) {
            r.push(Field { key, value: value.to_string() });
            placed = true;
            assert(r@.drop_last() =~= before);
            assert(field_map(r@) =~= seen.insert(here.key@, here.value@).insert(key@, value@));
        } else {
            if !placed && comes_before(key, fields[k].key) {
                r.push(Field { key, value: value.to_string() });
                placed = true;
                assert(r@.drop_last() =~= before);
                proof {
                    lemma_key_before_rest(fields@, key@, k as int);
                }
            } else if !placed {
                proof {
                    crate::text::lemma_text_before_total(key@, here.key@);
                }
            }
            let ghost middle = r@;
            assert(placed ==> field_map(middle) =~= seen.insert(key@, value@));
            r.push(fields[k].copy());
            assert(r@.drop_last() =~= middle);
            proof {
                if placed {
                    if here.key@ == key@ {
                        crate::text::lemma_text_before_irreflexive(key@);
                    }
                    assert(field_map(r@) =~= seen.insert(here.key@, here.value@).insert(
                        key@,
                        value@,
                    ));
                }
            }
        }
        proof {
            lemma_rest_after(r@, fields@, k as int);
        }
        k = k + 1;
    }
    assert(fields@.take(fields@.len() as int) =~= fields@);
    if !placed {
        let ghost before = r@;
        r.push(Field { key, value: value.to_string() });
        assert(r@.drop_last() =~= before);
    }
    r
}

/// A key before the field at `k` is before every later field too.
proof fn lemma_key_before_rest(fields: Seq<Field>, key: Seq<char>, k: int)
    requires
        ordered(fields),
        0 <= k < fields.len(),
        crate::text::text_before(key, fields[k].key@),
    ensures
        forall|j: int|
            k <= j < fields.len() ==> crate::text::text_before(
                key,
                (#[trigger] fields[j]).key@,
            ),
{
    assert forall|j: int| k <= j < fields.len() implies crate::text::text_before(
        key,
        (#[trigger] fields[j]).key@,
    ) by {
        if j > k {
            crate::text::lemma_text_before_transitive(key, fields[k].key@, fields[j].key@);
        }
    }
}

/// What is no later than the field at `k` is before every later field.
proof fn lemma_rest_after(done: Seq<Field>, fields: Seq<Field>, k: int)
    requires
        ordered(fields),
        0 <= k < fields.len(),
        forall|i: int|
            0 <= i < done.len() ==> (#[trigger] done[i]).key@ == fields[k].key@
                || crate::text::text_before(done[i].key@, fields[k].key@),
    ensures
        all_before(done, fields.skip(k + 1)),
{
    let rest = fields.skip(k + 1);
    assert forall|i: int, j: int|
        0 <= i < done.len() && 0 <= j < rest.len() implies crate::text::text_before(
        (#[trigger] done[i]).key@,
        (#[trigger] rest[j]).key@,
    ) by {
        assert(rest[j] == fields[k + 1 + j]);
        assert(crate::text::text_before(fields[k].key@, fields[k + 1 + j].key@));
        if done[i].key@ != fields[k].key@ {
            crate::text::lemma_text_before_transitive(
                done[i].key@,
                fields[k].key@,
                rest[j].key@,
            );
        }
    }
}

impl Default for Status {
    /// A status in which nothing has been reported.
    fn default() -> (s: Self)
        ensures
            s@ == Map::<Seq<char>, Seq<char>>::empty(),
    {
        Status { elements: Vec::new() }
    }
}

impl Clone for Status {
    fn clone(&self) -> (r: Self)
        ensures
            r@ == self@,
    {
        // Compared with a status in which nothing has been reported, every field is news.
        let r = self.diff(&Status::default());
        assert(r@ =~= self@);
        r
    }
}

impl Status {
    #[verifier::type_invariant]
    spec fn well_formed(self) -> bool {
        ordered(self.elements@)
    }

    /// The keys of this report, in order.
    pub closed spec fn keys(self) -> Seq<Seq<char>> {
        self.elements@.map_values(|f: Field| f.key@)
    }

    /// The report for one tick -- see [`report`].
    pub fn new(wifi: &WifiSnapshot, hotspot: Option<&HotspotSnapshot>) -> (s: Self)
        ensures
            s@ == report(
                wifi@,
                match hotspot {
                    Some(h) => Some(h@),
                    None => None,
                },
            ),
    {
        let nothing = Status::default();
        if !wifi.wifi_ok {
            return nothing.with_field(STATE, "unknown");
        }
        if !wifi.radio_enabled {
            return nothing.with_field(STATE, "wifi-off");
        }
        if wifi.connected {
            return nothing.with_field(STATE, "connected").with_field(
                SSID,
                value_or_na(wifi.ssid),
            ).with_field(ADDRESS, value_or_na(wifi.ip_address));
        }
        match hotspot {
            Some(h) => if h.on {
                return nothing.with_field(STATE, "hotspot").with_field(SSID, h.ssid).with_field(
                    PASSWORD,
                    h.password,
                ).with_field(ADDRESS, value_or_na(h.ip_address));
            },
            None => {},
        }
        nothing.with_field(STATE, "disconnected")
    }

    /// The value of a field.
    pub fn get(&self, key: &str) -> (r: Option<&str>)
        ensures
            crate::text::text_of(r) == if self@.contains_key(key@) {
                Some(self@[key@])
            } else {
                None
            },
    {
        proof {
            use_type_invariant(self);
            lemma_field_map(self.elements@);
        }
        let mut k: usize = 0;
        while k < self.elements.len()
            invariant
                k <= self.elements.len(),
                forall|j: int| 0 <= j < k ==> (#[trigger] self.elements@[j]).key@ != key@,
                forall|i: int|
                    0 <= i < self.elements@.len() ==> self@.contains_key(
                        (#[trigger] self.elements@[i]).key@,
                    ) && self@[self.elements@[i].key@] == self.elements@[i].value@,
            decreases self.elements.len() - k,
        {
            if same_text(self.elements[k].key, key) {
                return Some(self.elements[k].value.as_str());
            }
            k = k + 1;
        }
        None
    }

    /// The overall state field, e.g. `"connected"`. `None` only for a default (never
    /// reported) status, which is what the first tick is compared against.
    pub fn state(&self) -> (r: Option<&str>)
        ensures
            crate::text::text_of(r) == if self@.contains_key(STATE@) {
                Some(self@[STATE@])
            } else {
                None
            },
    {
        self.get(STATE)
    }

    /// A copy of this status with `key` set to `value` -- for attaching a side-channel
    /// field (like time since the last state change) that isn't part of the state itself,
    /// just before sending.
    pub fn with_field(&self, key: &'static str, value: &str) -> (r: Status)
        ensures
            r@ == self@.insert(key@, value@),
    {
        proof {
            use_type_invariant(self);
        }
        Status { elements: set_field(&self.elements, key, value) }
    }

    /// The fields of this status that `before` lacks, or has with another value.
    pub fn diff(&self, before: &Status) -> (r: Status)
        ensures
            r@ == changes(self@, before@),
    {
        proof {
            use_type_invariant(self);
            lemma_field_map(self.elements@);
        }
        let mut r: Vec<Field> = Vec::new();
        let mut k: usize = 0;
        while k < self.elements.len()
            invariant
                k <= self.elements.len(),
                ordered(self.elements@),
                ordered(r@),
                all_before(r@, self.elements@.skip(k as int)),
                field_map(r@) == changes(field_map(self.elements@.take(k as int)), before@),
            decreases self.elements.len() - k,
        {
            let ghost done = r@;
            let ghost here = self.elements@[k as int];
            let ghost seen = self.elements@.take(k as int);
            assert(self.elements@.take(k + 1).drop_last() =~= seen);
            assert(self.elements@.take(k + 1).last() == here);
            assert(self.elements@.skip(k as int)[0] == here);
            proof {
                lemma_later_key_is_new(self.elements@, k as int);
            }
            let field = &self.elements[k];
            let same = match before.get(field.key) {
                Some(value) => same_text(value, field.value.as_str()),
                None => false,
            };
            if !same {
                r.push(field.copy());
                assert(r@.drop_last() =~= done);
            }
            assert(field_map(r@) =~= changes(
                field_map(self.elements@.take(k + 1)),
                before@,
            ));
            proof {
                lemma_rest_after(r@, self.elements@, k as int);
            }
            k = k + 1;
        }
        assert(self.elements@.take(self.elements@.len() as int) =~= self.elements@);
        Status { elements: r }
    }

    /// The report as `key:value` lines, in a stable order: that of the keys.
    pub fn as_elements(&self) -> (r: Vec<String>)
        ensures
            in_order(self@, self.keys()),
            crate::text::texts(r@) == lines(self@, self.keys()),
    {
        proof {
            use_type_invariant(self);
            lemma_field_map(self.elements@);
        }
        let ghost keys = self.keys();
        assert(in_order(self@, keys)) by {
            assert forall|k: Seq<char>| keys.contains(k) <==> #[trigger] self@.contains_key(
                k,
            ) by {
                if self@.contains_key(k) {
                    let i = choose|i: int|
                        0 <= i < self.elements@.len() && (#[trigger] self.elements@[i]).key@ == k;
                    assert(keys[i] == k);
                }
                if keys.contains(k) {
                    let i = choose|i: int| 0 <= i < keys.len() && keys[i] == k;
                    assert(self.elements@[i].key@ == k);
                }
            }
        }
        let mut r: Vec<String> = Vec::new();
        let mut k: usize = 0;
        while k < self.elements.len()
            invariant
                k <= self.elements.len(),
                keys == self.keys(),
                r@.len() == k,
                forall|i: int|
                    0 <= i < self.elements@.len() ==> self@[(
                    #[trigger] self.elements@[i]).key@] == self.elements@[i].value@,
                forall|i: int|
                    0 <= i < k ==> (#[trigger] r@[i])@ == keys[i] + ":"@ + self@[keys[i]],
            decreases self.elements.len() - k,
        {
            let field = &self.elements[k];
            assert(keys[k as int] == field.key@);
            let mut line = field.key.to_string();
            line.append(":");
            line.append(field.value.as_str());
            r.push(line);
            k = k + 1;
        }
        assert(crate::text::texts(r@) =~= lines(self@, keys));
        r
    }
}

/// The key of the field at `k` is none of those before it.
proof fn lemma_later_key_is_new(fields: Seq<Field>, k: int)
    requires
        ordered(fields),
        0 <= k < fields.len(),
    ensures
        !field_map(fields.take(k)).contains_key(fields[k].key@),
{
    let seen = fields.take(k);
    assert(ordered(seen));
    lemma_field_map(seen);
    if field_map(seen).contains_key(fields[k].key@) {
        let i = choose|i: int| 0 <= i < seen.len() && (#[trigger] seen[i]).key@ == fields[k].key@;
        assert(crate::text::text_before(fields[i].key@, fields[k].key@));
        crate::text::lemma_text_before_irreflexive(fields[k].key@);
    }
}

/// `value`, or "N/A" where there is none.
fn value_or_na<'a>(value: Option<&'a str>) -> (r: &'a str)
    ensures
        r@ == or_na(crate::text::text_of(value)),
{
    match value {
        Some(v) => v,
        None => "N/A",
    }
}

// --- laws ------------------------------------------------------------------------

/// The single-letter keys are different.
proof fn lemma_keys_differ()
    ensures
        STATE@ != SSID@,
        STATE@ != PASSWORD@,
        STATE@ != ADDRESS@,
        SSID@ != PASSWORD@,
        SSID@ != ADDRESS@,
        PASSWORD@ != ADDRESS@,
{
    reveal_strlit("s");
    reveal_strlit("i");
    reveal_strlit("p");
    reveal_strlit("a");
    assert(STATE@[0] == 's');
    assert(SSID@[0] == 'i');
    assert(PASSWORD@[0] == 'p');
    assert(ADDRESS@[0] == 'a');
}

/// Every report carries the state.
pub proof fn law_every_report_has_a_state(wifi: WifiFacts, hotspot: Option<HotspotFacts>)
    ensures
        report(wifi, hotspot).contains_key(STATE@),
{
}

/// The password is reported only while the hotspot is: Wi-Fi is readable, its radio is on, it
/// is not connected, and the hotspot is on.
pub proof fn law_the_password_is_only_reported_with_the_hotspot(
    wifi: WifiFacts,
    hotspot: Option<HotspotFacts>,
)
    ensures
        report(wifi, hotspot).contains_key(PASSWORD@) <==> {
            &&& wifi.wifi_ok
            &&& wifi.radio_enabled
            &&& !wifi.connected
            &&& hotspot is Some
            &&& hotspot->0.on
        },
        report(wifi, hotspot).contains_key(PASSWORD@) ==> report(wifi, hotspot)[STATE@]
            == "hotspot"@ && report(wifi, hotspot)[PASSWORD@] == hotspot->0.password,
{
    lemma_keys_differ();
}

/// Wi-Fi comes first: unless Wi-Fi is readable, on and disconnected, the report is the same
/// whatever the hotspot does.
pub proof fn law_wifi_comes_first(
    wifi: WifiFacts,
    one: Option<HotspotFacts>,
    other: Option<HotspotFacts>,
)
    requires
        !wifi.wifi_ok || !wifi.radio_enabled || wifi.connected,
    ensures
        report(wifi, one) == report(wifi, other),
{
}

/// There is only one order of a report's keys, so the lines of equal reports are equal.
pub proof fn law_the_order_is_stable(
    report: Map<Seq<char>, Seq<char>>,
    a: Seq<Seq<char>>,
    b: Seq<Seq<char>>,
)
    requires
        in_order(report, a),
        in_order(report, b),
    ensures
        a == b,
    decreases a.len(),
{
    if a.len() == 0 {
        if b.len() > 0 {
            assert(b.contains(b[0]));
            assert(report.contains_key(b[0]));
            assert(a.contains(b[0]));
        }
        assert(a =~= b);
    } else {
        assert(a.contains(a.last()));
        assert(report.contains_key(a.last()));
        assert(b.contains(a.last()));
        assert(b.contains(b.last()));
        assert(report.contains_key(b.last()));
        assert(a.contains(b.last()));
        lemma_last_is_greatest(a, b.last());
        lemma_last_is_greatest(b, a.last());
        if a.last() != b.last() {
            crate::text::lemma_text_before_transitive(a.last(), b.last(), a.last());
            crate::text::lemma_text_before_irreflexive(a.last());
        }
        let rest = report.remove(a.last());
        lemma_drop_last_in_order(report, a);
        lemma_drop_last_in_order(report, b);
        law_the_order_is_stable(rest, a.drop_last(), b.drop_last());
        assert(a =~= a.drop_last().push(a.last()));
        assert(b =~= b.drop_last().push(b.last()));
    }
}

/// The last of an order is the greatest.
proof fn lemma_last_is_greatest(keys: Seq<Seq<char>>, key: Seq<char>)
    requires
        keys.contains(key),
        forall|i: int, j: int|
            0 <= i < j < keys.len() ==> crate::text::text_before(
                #[trigger] keys[i],
                #[trigger] keys[j],
            ),
    ensures
        key == keys.last() || crate::text::text_before(key, keys.last()),
{
    let i = choose|i: int| 0 <= i < keys.len() && keys[i] == key;
    if i < keys.len() - 1 {
        assert(crate::text::text_before(keys[i], keys[keys.len() - 1]));
    }
}

/// Without its last key an order is one of the report without that key.
proof fn lemma_drop_last_in_order(report: Map<Seq<char>, Seq<char>>, keys: Seq<Seq<char>>)
    requires
        keys.len() > 0,
        in_order(report, keys),
    ensures
        in_order(report.remove(keys.last()), keys.drop_last()),
{
    let rest = keys.drop_last();
    let less = report.remove(keys.last());
    assert forall|k: Seq<char>| rest.contains(k) <==> #[trigger] less.contains_key(k) by {
        if rest.contains(k) {
            let i = choose|i: int| 0 <= i < rest.len() && rest[i] == k;
            assert(keys[i] == k);
            assert(keys.contains(k));
            assert(report.contains_key(k));
            assert(crate::text::text_before(keys[i], keys[keys.len() - 1]));
            if k == keys.last() {
                crate::text::lemma_text_before_irreflexive(k);
            }
        }
        if less.contains_key(k) {
            assert(report.contains_key(k));
            let i = choose|i: int| 0 <= i < keys.len() && keys[i] == k;
            assert(rest[i] == k);
        }
    }
}

/// What changed is all there is to tell: with the changes on top of what was known before,
/// every field of the new report is known.
pub proof fn law_the_changes_tell_everything(
    now: Map<Seq<char>, Seq<char>>,
    before: Map<Seq<char>, Seq<char>>,
    key: Seq<char>,
)
    requires
        now.contains_key(key),
    ensures
        before.union_prefer_right(changes(now, before)).contains_key(key),
        before.union_prefer_right(changes(now, before))[key] == now[key],
{
}

/// A report that has not changed has no changes, and no field is among the changes that the
/// new report does not have.
pub proof fn law_no_change_no_news(
    now: Map<Seq<char>, Seq<char>>,
    before: Map<Seq<char>, Seq<char>>,
)
    ensures
        changes(now, now) == Map::<Seq<char>, Seq<char>>::empty(),
        forall|k: Seq<char>| #[trigger]
            changes(now, before).contains_key(k) ==> now.contains_key(k),
{
    assert(changes(now, now) =~= Map::<Seq<char>, Seq<char>>::empty());
}

/// What a report says follows from what it is told: the state, and the fields that go with it,
/// and no others. "N/A" stands for what is not known.
pub proof fn law_a_report_says_what_it_is_told(wifi: WifiFacts, hotspot: Option<HotspotFacts>)
    ensures
        ({
            let told = report(wifi, hotspot);
            let connected = wifi.wifi_ok && wifi.radio_enabled && wifi.connected;
            let shared = wifi.wifi_ok && wifi.radio_enabled && !wifi.connected && hotspot is Some
                && hotspot->0.on;
            &&& told["s"@] == "unknown"@ <==> !wifi.wifi_ok
            &&& told["s"@] == "wifi-off"@ <==> wifi.wifi_ok && !wifi.radio_enabled
            &&& told["s"@] == "connected"@ <==> connected
            &&& told["s"@] == "hotspot"@ <==> shared
            &&& told["s"@] == "disconnected"@ <==> wifi.wifi_ok && wifi.radio_enabled && !connected
                && !shared
            &&& told.contains_key("i"@) <==> connected || shared
            &&& told.contains_key("a"@) <==> connected || shared
            &&& connected && wifi.ssid is Some ==> told["i"@] == wifi.ssid->0
            &&& connected && wifi.ssid is None ==> told["i"@] == "N/A"@
            &&& connected && wifi.ip_address is Some ==> told["a"@] == wifi.ip_address->0
            &&& connected && wifi.ip_address is None ==> told["a"@] == "N/A"@
            &&& shared ==> told["i"@] == hotspot->0.ssid
            &&& shared && hotspot->0.ip_address is Some ==> told["a"@] == hotspot->0.ip_address->0
            &&& shared && hotspot->0.ip_address is None ==> told["a"@] == "N/A"@
        }),
{
    lemma_keys_differ();
    reveal_strlit("unknown");
    reveal_strlit("wifi-off");
    reveal_strlit("connected");
    reveal_strlit("hotspot");
    reveal_strlit("disconnected");
    assert("unknown"@[0] == 'u');
    assert("wifi-off"@[0] == 'w');
    assert("connected"@[0] == 'c');
    assert("hotspot"@[0] == 'h');
    assert("disconnected"@[0] == 'd');
}

/// Every field of a report has its line, and no line is without a field.
pub proof fn law_every_field_has_its_line(
    report: Map<Seq<char>, Seq<char>>,
    keys: Seq<Seq<char>>,
    key: Seq<char>,
    i: int,
)
    requires
        in_order(report, keys),
    ensures
        report.contains_key(key) ==> lines(report, keys).contains(key + ":"@ + report[key]),
        lines(report, keys).len() == keys.len(),
        0 <= i < keys.len() ==> report.contains_key(keys[i]) && crate::text::has_prefix(
            lines(report, keys)[i],
            keys[i] + ":"@,
        ) && lines(report, keys)[i].skip((keys[i] + ":"@).len() as int) == report[keys[i]],
{
    if report.contains_key(key) {
        assert(keys.contains(key));
        let k = choose|k: int| 0 <= k < keys.len() && keys[k] == key;
        assert(lines(report, keys)[k] == key + ":"@ + report[key]);
    }
    if 0 <= i < keys.len() {
        assert(keys.contains(keys[i]));
        let head = keys[i] + ":"@;
        let line = lines(report, keys)[i];
        assert(line.take(head.len() as int) =~= head);
        assert(line.skip(head.len() as int) =~= report[keys[i]]);
    }
}

} // verus!
