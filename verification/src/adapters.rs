//! Network adapter inventory.
//!
//! A connection profile only names the adapter that carries it by an interface GUID, but
//! the config names the uplink the way the user sees it in Windows ("Ethernet"). This module
//! bridges the two.

use crate::text::{
    chars_of, eq_ignore_ascii_case, parse_hex, split, starts_with, to_decimal, trim,
};
use vstd::prelude::*;

verus! {

/// An interface GUID.
#[derive(Debug, Clone, Copy, PartialEq, Eq)]
pub struct Guid {
    pub data1: u32,
    pub data2: u16,
    pub data3: u16,
    pub data4: [u8; 8],
}

/// One network adapter as Windows describes it.
#[derive(Debug, Clone)]
pub struct Adapter {
    /// Interface GUID; the one a connection profile names its adapter by.
    pub guid: Guid,
    /// User-visible name, e.g. "Ethernet" or "Wi-Fi".
    pub friendly_name: String,
    /// Hardware description, e.g. "Realtek PCIe GbE Family Controller".
    pub description: String,
    /// Is this a wired Ethernet adapter?
    pub is_ethernet: bool,
    /// Is this a Wi-Fi adapter?
    pub is_wifi: bool,
    /// IPv4 addresses currently assigned to this adapter, in dotted-decimal form.
    pub ipv4: Vec<String>,
}

/// The default ICS subnet Windows hands the Mobile Hotspot's own virtual adapter. Used as
/// a heuristic to identify that adapter -- there is no direct API for it -- so it is
/// never picked as its own uplink and so its IP can be reported as the hotspot's address.
/// Not a documented guarantee, but observed consistently in testing and cheap to fall
/// back away from if it ever changes.
pub const HOTSPOT_SUBNET_PREFIX: &'static str = "192.168.137.";

impl Guid {
    /// The GUID whose every bit is zero.
    pub fn zeroed() -> (g: Guid)
        ensures
            is_zero(g),
    {
        Guid { data1: 0, data2: 0, data3: 0, data4: [0; 8] }
    }

    /// Are the two the same GUID?
    pub fn same(&self, other: &Guid) -> (r: bool)
        ensures
            r == (*self == *other),
    {
        if self.data1 != other.data1 || self.data2 != other.data2 || self.data3 != other.data3 {
            return false;
        }
        let mut i: usize = 0;
        while i < 8
            invariant
                i <= 8,
                forall|j: int| 0 <= j < i ==> self.data4@[j] == other.data4@[j],
            decreases 8 - i,
        {
            if self.data4[i] != other.data4[i] {
                return false;
            }
            i = i + 1;
        }
        assert(self.data4@ =~= other.data4@);
        assert(self.data4 == other.data4);
        true
    }
}

/// Is every bit of `g` zero?
pub open spec fn is_zero(g: Guid) -> bool {
    &&& g.data1 == 0
    &&& g.data2 == 0
    &&& g.data3 == 0
    &&& forall|i: int| 0 <= i < 8 ==> #[trigger] g.data4@[i] == 0
}

impl Adapter {
    /// Does this adapter's friendly name or its description read like `name`, blanks around
    /// it and the case of letters aside?
    pub open spec fn answers_to(self, name: Seq<char>) -> bool {
        ||| crate::text::ascii_lower(self.friendly_name@) == crate::text::ascii_lower(
            crate::text::trimmed(name),
        )
        ||| crate::text::ascii_lower(self.description@) == crate::text::ascii_lower(
            crate::text::trimmed(name),
        )
    }

    /// Does this adapter answer to `name`, as written in the config?
    pub fn matches(&self, name: &str) -> (r: bool)
        ensures
            r == self.answers_to(name@),
    {
        let name = trim(name);
        eq_ignore_ascii_case(self.friendly_name.as_str(), name) || eq_ignore_ascii_case(
            self.description.as_str(),
            name,
        )
    }

    /// Is one of this adapter's addresses on the Mobile Hotspot's own subnet?
    pub open spec fn is_virtual(self) -> bool {
        exists|k: int| 0 <= k < self.ipv4@.len() && on_hotspot_subnet(#[trigger] self.ipv4@[k])
    }

    /// Is this the virtual adapter Windows creates for the Mobile Hotspot's own network?
    pub fn is_hotspot_virtual_adapter(&self) -> (r: bool)
        ensures
            r == self.is_virtual(),
    {
        let mut k: usize = 0;
        while k < self.ipv4.len()
            invariant
                k <= self.ipv4.len(),
                forall|j: int| 0 <= j < k ==> !on_hotspot_subnet(#[trigger] self.ipv4@[j]),
            decreases self.ipv4.len() - k,
        {
            if starts_with(self.ipv4[k].as_str(), HOTSPOT_SUBNET_PREFIX) {
                assert(on_hotspot_subnet(self.ipv4@[k as int]));
                return true;
            }
            k = k + 1;
        }
        false
    }
}

/// Is this address on the Mobile Hotspot's own ICS subnet?
pub open spec fn on_hotspot_subnet(ip: String) -> bool {
    crate::text::has_prefix(ip@, HOTSPOT_SUBNET_PREFIX@)
}

/// The first address of the first adapter described as `description`, case aside.
pub open spec fn address_of(adapters: Seq<Adapter>, description: Seq<char>) -> Option<Seq<char>> {
    match crate::lists::first(
        adapters,
        |a: Adapter|
            crate::text::ascii_lower(a.description@) == crate::text::ascii_lower(description),
    ) {
        Some(a) if a.ipv4@.len() > 0 => Some(a.ipv4@[0]@),
        _ => None,
    }
}

/// IP address of the adapter with the given hardware description, if it has one.
///
/// The Wi-Fi interface's description and the adapter's description are both the driver's own
/// text, so they match directly without needing to cross-reference GUIDs.
pub fn ipv4_of<'a>(adapters: &'a [Adapter], description: &str) -> (r: Option<&'a str>)
    ensures
        crate::text::text_of(r) == address_of(adapters@, description@),
{
    let ghost wanted = |a: Adapter|
        crate::text::ascii_lower(a.description@) == crate::text::ascii_lower(description@);
    let mut k: usize = 0;
    while k < adapters.len()
        invariant
            k <= adapters@.len(),
            wanted == (|a: Adapter|
                crate::text::ascii_lower(a.description@) == crate::text::ascii_lower(description@)),
            forall|j: int| 0 <= j < k ==> !wanted(#[trigger] adapters@[j]),
        decreases adapters@.len() - k,
    {
        let adapter = &adapters[k];
        if eq_ignore_ascii_case(adapter.description.as_str(), description) {
            proof {
                crate::lists::lemma_first_found(adapters@, wanted, k as int);
            }
            return if adapter.ipv4.len() > 0 {
                Some(adapter.ipv4[0].as_str())
            } else {
                None
            };
        }
        k = k + 1;
    }
    proof {
        crate::lists::lemma_first_missing(adapters@, wanted);
    }
    None
}

/// The first address on the hotspot's subnet, looking through the adapters in order and
/// through each one's addresses in order.
pub open spec fn hotspot_address(adapters: Seq<Adapter>) -> Option<Seq<char>> {
    match crate::lists::first(adapters, |a: Adapter| a.is_virtual()) {
        Some(a) => match crate::lists::first(a.ipv4@, |ip: String| on_hotspot_subnet(ip)) {
            Some(ip) => Some(ip@),
            None => None,
        },
        None => None,
    }
}

/// IP address of whichever adapter sits on the Mobile Hotspot's own ICS subnet.
pub fn hotspot_ip<'a>(adapters: &'a [Adapter]) -> (r: Option<&'a str>)
    ensures
        crate::text::text_of(r) == hotspot_address(adapters@),
{
    let ghost is_virtual = |a: Adapter| a.is_virtual();
    let ghost on_subnet = |ip: String| on_hotspot_subnet(ip);
    let mut k: usize = 0;
    while k < adapters.len()
        invariant
            k <= adapters@.len(),
            is_virtual == (|a: Adapter| a.is_virtual()),
            on_subnet == (|ip: String| on_hotspot_subnet(ip)),
            forall|j: int| 0 <= j < k ==> !is_virtual(#[trigger] adapters@[j]),
        decreases adapters@.len() - k,
    {
        let ips = &adapters[k].ipv4;
        let mut m: usize = 0;
        while m < ips.len()
            invariant
                k < adapters@.len(),
                m <= ips.len(),
                *ips == adapters@[k as int].ipv4,
                is_virtual == (|a: Adapter| a.is_virtual()),
                on_subnet == (|ip: String| on_hotspot_subnet(ip)),
                forall|j: int| 0 <= j < k ==> !is_virtual(#[trigger] adapters@[j]),
                forall|j: int| 0 <= j < m ==> !on_subnet(#[trigger] ips@[j]),
            decreases ips.len() - m,
        {
            if starts_with(ips[m].as_str(), HOTSPOT_SUBNET_PREFIX) {
                proof {
                    assert(on_hotspot_subnet(adapters@[k as int].ipv4@[m as int]));
                    assert(is_virtual(adapters@[k as int]));
                    crate::lists::lemma_first_found(adapters@, is_virtual, k as int);
                    crate::lists::lemma_first_found(ips@, on_subnet, m as int);
                }
                return Some(ips[m].as_str());
            }
            m = m + 1;
        }
        assert forall|j: int| 0 <= j < ips@.len() implies !on_hotspot_subnet(
            #[trigger] ips@[j],
        ) by {
            assert(!on_subnet(ips@[j]));
        }
        assert(!is_virtual(adapters@[k as int]));
        k = k + 1;
    }
    proof {
        crate::lists::lemma_first_missing(adapters@, is_virtual);
    }
    None
}

// --- enumerating -----------------------------------------------------------------

/// How often the adapter list is asked for: the list can grow between learning the buffer
/// size and filling the buffer, so a few attempts are made before giving up.
pub const LIST_ATTEMPTS: u32 = 4;

/// Windows' code for a call that worked.
pub const ERROR_SUCCESS: u32 = 0;

/// Windows' code for "there are no adapters".
pub const ERROR_NO_DATA: u32 = 232;

/// Windows' code for a buffer that is too small.
pub const ERROR_BUFFER_OVERFLOW: u32 = 111;

/// Why the adapters could not be enumerated.
#[derive(Debug, Clone, Copy, PartialEq, Eq, Structural)]
pub enum ListError {
    /// The call failed with this code.
    Failed(u32),
    /// The buffer was too small at every attempt.
    KeptGrowing,
}

/// What to do about the outcome of asking for the adapters.
#[derive(Debug, Clone, Copy, PartialEq, Eq, Structural)]
pub enum ListStep {
    /// The buffer holds the adapters.
    Collect,
    /// There are none.
    NoAdapters,
    /// Ask again, with the larger buffer that was called for.
    Retry,
    /// Give up.
    Fail(ListError),
}

impl ListError {
    /// What to tell the user.
    pub fn message(&self) -> (r: String)
        ensures
            r@ == match *self {
                ListError::Failed(rc) => "GetAdaptersAddresses failed with error "@
                    + crate::text::decimal(rc as nat),
                ListError::KeptGrowing =>
                    "GetAdaptersAddresses kept reporting a too-small buffer"@,
            },
    {
        match self {
            ListError::Failed(rc) => {
                let mut r = "GetAdaptersAddresses failed with error ".to_string();
                r.append(to_decimal(*rc as u64).as_str());
                r
            },
            ListError::KeptGrowing =>
                "GetAdaptersAddresses kept reporting a too-small buffer".to_string(),
        }
    }
}

/// What to do once the `attempt`th request for the adapters (counting from one) came back
/// with `rc`. No adapters at all is an empty list, not an error.
pub open spec fn step_after(rc: u32, attempt: u32) -> ListStep {
    if rc == ERROR_SUCCESS {
        ListStep::Collect
    } else if rc == ERROR_NO_DATA {
        ListStep::NoAdapters
    } else if rc != ERROR_BUFFER_OVERFLOW {
        ListStep::Fail(ListError::Failed(rc))
    } else if attempt < LIST_ATTEMPTS {
        ListStep::Retry
    } else {
        ListStep::Fail(ListError::KeptGrowing)
    }
}

/// What to do once the `attempt`th request for the adapters (counting from one) came back
/// with `rc`.
pub fn list_step(rc: u32, attempt: u32) -> (r: ListStep)
    ensures
        r == step_after(rc, attempt),
{
    if rc == ERROR_SUCCESS {
        ListStep::Collect
    } else if rc == ERROR_NO_DATA {
        ListStep::NoAdapters
    } else if rc != ERROR_BUFFER_OVERFLOW {
        ListStep::Fail(ListError::Failed(rc))
    } else if attempt < LIST_ATTEMPTS {
        ListStep::Retry
    } else {
        ListStep::Fail(ListError::KeptGrowing)
    }
}

/// The address family of IPv4.
pub const AF_INET: u16 = 2;

/// A socket address, as far as IPv4 goes: its family, and the four bytes where an IPv4
/// address has its octets.
#[derive(Debug, Clone, Copy, PartialEq, Eq)]
pub struct SocketAddress {
    pub family: u16,
    pub octets: [u8; 4],
}

impl SocketAddress {
    /// The address in dotted-decimal form, or `None` if it is IPv6 (or otherwise not IPv4).
    pub open spec fn ipv4(self) -> Option<Seq<char>> {
        if self.family == AF_INET {
            Some(
                crate::text::decimal(self.octets@[0] as nat) + "."@ + crate::text::decimal(
                    self.octets@[1] as nat,
                ) + "."@ + crate::text::decimal(self.octets@[2] as nat) + "."@
                    + crate::text::decimal(self.octets@[3] as nat),
            )
        } else {
            None
        }
    }
}

/// Read a socket address as an IPv4 dotted-decimal string, or `None` if it is IPv6 (or
/// otherwise not IPv4).
pub fn sockaddr_to_ipv4(addr: &SocketAddress) -> (r: Option<String>)
    ensures
        crate::text::string_of(r) == addr.ipv4(),
{
    if addr.family != AF_INET {
        return None;
    }
    let mut r = to_decimal(addr.octets[0] as u64);
    r.append(".");
    r.append(to_decimal(addr.octets[1] as u64).as_str());
    r.append(".");
    r.append(to_decimal(addr.octets[2] as u64).as_str());
    r.append(".");
    r.append(to_decimal(addr.octets[3] as u64).as_str());
    Some(r)
}

/// The IPv4 addresses among `addresses`, in order.
pub open spec fn ipv4_among(addresses: Seq<SocketAddress>) -> Seq<Seq<char>>
    decreases addresses.len(),
{
    if addresses.len() == 0 {
        Seq::empty()
    } else {
        match addresses.last().ipv4() {
            Some(ip) => ipv4_among(addresses.drop_last()).push(ip),
            None => ipv4_among(addresses.drop_last()),
        }
    }
}

/// Collect every IPv4 address assigned to an adapter, in order.
pub fn ipv4_addresses(addresses: &[SocketAddress]) -> (r: Vec<String>)
    ensures
        crate::text::texts(r@) == ipv4_among(addresses@),
{
    let mut r: Vec<String> = Vec::new();
    let mut k: usize = 0;
    assert(crate::text::texts(r@) =~= ipv4_among(addresses@.take(0)));
    while k < addresses.len()
        invariant
            k <= addresses@.len(),
            crate::text::texts(r@) == ipv4_among(addresses@.take(k as int)),
        decreases addresses@.len() - k,
    {
        let ghost before = crate::text::texts(r@);
        assert(addresses@.take(k + 1).drop_last() =~= addresses@.take(k as int));
        match sockaddr_to_ipv4(&addresses[k]) {
            Some(ip) => {
                r.push(ip);
                assert(crate::text::texts(r@) =~= before.push(ip@));
            },
            None => {},
        }
        k = k + 1;
    }
    assert(addresses@.take(addresses@.len() as int) =~= addresses@);
    r
}

// --- GUIDs -----------------------------------------------------------------------

/// `text` without the blanks around it, and without the braces around what is left.
pub open spec fn unbraced(text: Seq<char>) -> Seq<char> {
    crate::text::trim_end_by(
        crate::text::trim_start_by(crate::text::trimmed(text), |c: char| c == '{'),
        |c: char| c == '}',
    )
}

/// The eight bytes that sixteen characters spell, two each.
pub open spec fn byte_pairs(tail: Seq<char>) -> Option<Seq<nat>> {
    if tail.len() == 16 && forall|i: int|
        0 <= i < 8 ==> #[trigger] byte_at(tail, i) is Some {
        Some(Seq::new(8, |i: int| byte_at(tail, i)->0))
    } else {
        None
    }
}

/// The byte that the `i`th pair of characters spells.
pub open spec fn byte_at(tail: Seq<char>, i: int) -> Option<nat> {
    crate::text::hex_number(tail.subrange(2 * i, 2 * i + 2), 0xff)
}

/// Is `g` what the five groups of a GUID's text spell?
pub open spec fn spelled_by(g: Guid, parts: Seq<Seq<char>>) -> bool {
    &&& parts.len() == 5
    &&& parts[0].len() == 8
    &&& parts[4].len() == 12
    &&& crate::text::hex_number(parts[0], 0xffff_ffff) == Some(g.data1 as nat)
    &&& crate::text::hex_number(parts[1], 0xffff) == Some(g.data2 as nat)
    &&& crate::text::hex_number(parts[2], 0xffff) == Some(g.data3 as nat)
    &&& byte_pairs(parts[3] + parts[4]) == Some(Seq::new(8, |i: int| g.data4@[i] as nat))
}

/// Is `g` the GUID that `text` spells?
pub open spec fn spells(text: Seq<char>, g: Guid) -> bool {
    spelled_by(g, crate::text::split_on(unbraced(text), '-'))
}

/// `s` without the braces around it.
fn strip_braces(s: &Vec<char>) -> (r: Vec<char>)
    ensures
        r@ == crate::text::trim_end_by(
            crate::text::trim_start_by(s@, |c: char| c == '{'),
            |c: char| c == '}',
        ),
{
    let ghost opening = |c: char| c == '{';
    let ghost closing = |c: char| c == '}';
    let mut from: usize = 0;
    assert(s@.skip(0) =~= s@);
    while from < s.len() && s[from] == '{'
        invariant
            opening == (|c: char| c == '{'),
            from <= s.len(),
            crate::text::trim_start_by(s@, opening) == crate::text::trim_start_by(
                s@.skip(from as int),
                opening,
            ),
        decreases s.len() - from,
    {
        assert(s@.skip(from as int).drop_first() =~= s@.skip(from + 1));
        from = from + 1;
    }
    let ghost rest = s@.skip(from as int);
    let mut to: usize = s.len();
    assert(rest =~= s@.subrange(from as int, to as int));
    while to > from && s[to - 1] == '}'
        invariant
            closing == (|c: char| c == '}'),
            from <= to <= s.len(),
            crate::text::trim_end_by(rest, closing) == crate::text::trim_end_by(
                s@.subrange(from as int, to as int),
                closing,
            ),
        decreases to,
    {
        assert(s@.subrange(from as int, to as int).drop_last() =~= s@.subrange(
            from as int,
            to - 1,
        ));
        to = to - 1;
    }
    let kept = vstd::slice::slice_subrange(s.as_slice(), from, to);
    let mut r: Vec<char> = Vec::new();
    r.extend_from_slice(kept);
    assert(r@ =~= s@.subrange(from as int, to as int));
    r
}

/// Parse `{xxxxxxxx-xxxx-xxxx-xxxx-xxxxxxxxxxxx}` into a [`Guid`].
pub fn parse_guid(text: &str) -> (r: Option<Guid>)
    ensures
        match r {
            Some(g) => spells(text@, g),
            None => forall|g: Guid| !spells(text@, g),
        },
{
    let t = strip_braces(&chars_of(trim(text)));
    let parts = split(t.as_slice(), '-');
    let ghost spelled = crate::text::split_on(unbraced(text@), '-');
    assert(crate::text::char_pieces(parts@) == spelled);
    if parts.len() != 5 {
        return None;
    }
    assert(parts@[0]@ == spelled[0]);
    assert(parts@[1]@ == spelled[1]);
    assert(parts@[2]@ == spelled[2]);
    assert(parts@[3]@ == spelled[3]);
    assert(parts@[4]@ == spelled[4]);
    if parts[0].len() != 8 || parts[4].len() != 12 {
        return None;
    }
    let data1 = match parse_hex(parts[0].as_slice(), 0xffff_ffff) {
        Some(n) => n,
        None => return None,
    };
    let data2 = match parse_hex(parts[1].as_slice(), 0xffff) {
        Some(n) => n as u16,
        None => return None,
    };
    let data3 = match parse_hex(parts[2].as_slice(), 0xffff) {
        Some(n) => n as u16,
        None => return None,
    };
    if parts[3].len() != 4 {
        return None;
    }
    let mut tail: Vec<char> = Vec::new();
    tail.extend_from_slice(parts[3].as_slice());
    tail.extend_from_slice(parts[4].as_slice());
    assert(tail@ =~= spelled[3] + spelled[4]);

    let mut data4: [u8; 8] = [0; 8];
    let mut i: usize = 0;
    while i < 8
        invariant
            i <= 8,
            tail@.len() == 16,
            tail@ == spelled[3] + spelled[4],
            spelled == crate::text::split_on(unbraced(text@), '-'),
            forall|j: int|
                0 <= j < i ==> #[trigger] byte_at(tail@, j) == Some(data4@[j] as nat),
        decreases 8 - i,
    {
        let pair = vstd::slice::slice_subrange(tail.as_slice(), 2 * i, 2 * i + 2);
        match parse_hex(pair, 0xff) {
            Some(n) => {
                data4[i] = n as u8;
                assert(byte_at(tail@, i as int) == Some(data4@[i as int] as nat));
            },
            None => {
                assert(byte_at(tail@, i as int) is None);
                assert(byte_pairs(tail@) is None);
                return None;
            },
        }
        i = i + 1;
    }
    let g = Guid { data1, data2, data3, data4 };
    assert(byte_pairs(tail@)->0 =~= Seq::new(8, |i: int| g.data4@[i] as nat));
    Some(g)
}

/// An adapter's name, where it has one, is its interface GUID in `{8-4-4-4-12}` text form;
/// any other name counts as the zero GUID.
pub fn guid_from_adapter_name(name: Option<&str>) -> (r: Guid)
    ensures
        match name {
            Some(text) => spells(text@, r) || (is_zero(r) && forall|g: Guid|
                !spells(text@, g)),
            None => is_zero(r),
        },
{
    match name {
        Some(text) => match parse_guid(text) {
            Some(g) => g,
            None => Guid::zeroed(),
        },
        None => Guid::zeroed(),
    }
}

// --- laws ------------------------------------------------------------------------

/// A text spells at most one GUID.
pub proof fn law_a_text_spells_at_most_one_guid(text: Seq<char>, a: Guid, b: Guid)
    requires
        spells(text, a),
        spells(text, b),
    ensures
        a == b,
{
    let x = Seq::new(8, |i: int| a.data4@[i] as nat);
    let y = Seq::new(8, |i: int| b.data4@[i] as nat);
    assert(x == y);
    assert forall|i: int| 0 <= i < 8 implies a.data4@[i] == b.data4@[i] by {
        assert(x[i] == y[i]);
    }
    assert(a.data4@ =~= b.data4@);
    assert(a.data4 == b.data4);
}

/// Braces around the text of a GUID make no difference.
pub proof fn law_braces_make_no_difference(text: Seq<char>, g: Guid)
    requires
        crate::text::trimmed(text) == text,
    ensures
        spells(seq!['{'] + text + seq!['}'], g) == spells(text, g),
{
    let opening = |c: char| c == '{';
    let closing = |c: char| c == '}';
    let ws = |c: char| crate::text::is_white_space(c);
    let braced = seq!['{'] + text + seq!['}'];
    assert(!ws(braced.first()));
    assert(!ws(braced.last()));
    assert(crate::text::trimmed(braced) == braced);

    assert(braced.drop_first() =~= text.push('}'));
    lemma_trim_start_then_push(text, '}', opening);
    let inner = crate::text::trim_start_by(text, opening);
    assert(crate::text::trim_start_by(braced, opening) == inner.push('}'));
    assert(inner.push('}').drop_last() =~= inner);
    assert(crate::text::trim_end_by(inner.push('}'), closing) == crate::text::trim_end_by(
        inner,
        closing,
    ));
}

/// Trimming the front does not reach a last character that is kept.
proof fn lemma_trim_start_then_push(s: Seq<char>, last: char, drop: spec_fn(char) -> bool)
    requires
        !drop(last),
    ensures
        crate::text::trim_start_by(s.push(last), drop) == crate::text::trim_start_by(
            s,
            drop,
        ).push(last),
    decreases s.len(),
{
    if s.len() > 0 && drop(s.first()) {
        assert(s.push(last).drop_first() =~= s.drop_first().push(last));
        lemma_trim_start_then_push(s.drop_first(), last, drop);
    }
}

/// The case of the letters in the text of a GUID makes no difference.
pub proof fn law_case_makes_no_difference(text: Seq<char>, g: Guid)
    ensures
        spells(crate::text::ascii_lower(text), g) == spells(text, g),
{
    let ws = |c: char| crate::text::is_white_space(c);
    let opening = |c: char| c == '{';
    let closing = |c: char| c == '}';
    let low = crate::text::ascii_lower(text);

    let a = crate::text::trim_start_by(text, ws);
    let b = crate::text::trim_end_by(a, ws);
    let c = crate::text::trim_start_by(b, opening);
    let d = crate::text::trim_end_by(c, closing);
    crate::text::lemma_trim_start_ignores_case(text, ws);
    crate::text::lemma_trim_end_ignores_case(a, ws);
    crate::text::lemma_trim_start_ignores_case(b, opening);
    crate::text::lemma_trim_end_ignores_case(c, closing);
    assert(unbraced(text) == d);
    assert(unbraced(low) == crate::text::ascii_lower(d));

    crate::text::lemma_split_ignores_case(d, '-');
    let parts = crate::text::split_on(d, '-');
    let lows = crate::text::split_on(crate::text::ascii_lower(d), '-');
    assert(lows.len() == parts.len());
    if parts.len() == 5 {
        assert(lows[0] == crate::text::ascii_lower(parts[0]));
        assert(lows[1] == crate::text::ascii_lower(parts[1]));
        assert(lows[2] == crate::text::ascii_lower(parts[2]));
        assert(lows[3] == crate::text::ascii_lower(parts[3]));
        assert(lows[4] == crate::text::ascii_lower(parts[4]));
        crate::text::lemma_hex_number_ignores_case(parts[0], 0xffff_ffff);
        crate::text::lemma_hex_number_ignores_case(parts[1], 0xffff);
        crate::text::lemma_hex_number_ignores_case(parts[2], 0xffff);
        let tail = parts[3] + parts[4];
        let low_tail = lows[3] + lows[4];
        if tail.len() == 16 {
            assert forall|i: int| 0 <= i < 8 implies #[trigger] byte_at(low_tail, i) == byte_at(
                tail,
                i,
            ) by {
                let pair = tail.subrange(2 * i, 2 * i + 2);
                assert(low_tail.subrange(2 * i, 2 * i + 2) =~= crate::text::ascii_lower(pair));
                crate::text::lemma_hex_number_ignores_case(pair, 0xff);
            }
            assert(byte_pairs(low_tail) == byte_pairs(tail)) by {
                if byte_pairs(tail) is Some {
                    assert forall|i: int| 0 <= i < 8 implies #[trigger] byte_at(
                        low_tail,
                        i,
                    ) is Some by {
                        assert(byte_at(tail, i) is Some);
                    }
                    assert(Seq::new(8, |i: int| byte_at(low_tail, i)->0) =~= Seq::new(
                        8,
                        |i: int| byte_at(tail, i)->0,
                    ));
                } else {
                    let i = choose|i: int| 0 <= i < 8 && !(#[trigger] byte_at(tail, i) is Some);
                    assert(!(byte_at(low_tail, i) is Some));
                }
            }
        }
    }
}

/// An adapter answers to its friendly name and to its description, in any case and with any
/// blanks around them, and to nothing else.
pub proof fn law_what_an_adapter_answers_to(
    adapter: Adapter,
    front: Seq<char>,
    name: Seq<char>,
    back: Seq<char>,
)
    requires
        forall|i: int| 0 <= i < front.len() ==> crate::text::is_white_space(#[trigger] front[i]),
        forall|i: int| 0 <= i < back.len() ==> crate::text::is_white_space(#[trigger] back[i]),
        name.len() > 0 ==> !crate::text::is_white_space(name.first())
            && !crate::text::is_white_space(name.last()),
    ensures
        crate::text::ascii_lower(name) == crate::text::ascii_lower(adapter.friendly_name@)
            ==> adapter.answers_to(front + name + back),
        crate::text::ascii_lower(name) == crate::text::ascii_lower(adapter.description@)
            ==> adapter.answers_to(front + name + back),
        crate::text::ascii_lower(name) != crate::text::ascii_lower(adapter.friendly_name@)
            && crate::text::ascii_lower(name) != crate::text::ascii_lower(adapter.description@)
            ==> !adapter.answers_to(front + name + back),
{
    crate::text::law_trimming_takes_off_what_is_around(front, name, back);
}

/// A list of adapters is asked for again only while the buffer is too small, and no more than
/// four times in all; having none is no failure, and a failure is told by its code.
pub proof fn law_listing_comes_to_an_end(rc: u32, attempt: u32)
    ensures
        step_after(rc, attempt) == ListStep::Collect <==> rc == 0,
        step_after(rc, attempt) == ListStep::NoAdapters <==> rc == 232,
        step_after(rc, attempt) == ListStep::Retry <==> rc == 111 && attempt < 4,
        step_after(rc, attempt) == ListStep::Fail(ListError::KeptGrowing) <==> rc == 111
            && attempt >= 4,
        rc != 0 && rc != 232 && rc != 111 ==> step_after(rc, attempt) == ListStep::Fail(
            ListError::Failed(rc),
        ),
{
}

/// The address of an interface is the first of the first adapter with its description, case
/// aside; that adapter may have none, and there may be no such adapter.
pub proof fn law_the_address_is_that_of_the_description(
    adapters: Seq<Adapter>,
    description: Seq<char>,
    k: int,
)
    ensures
        ({
            let wanted = crate::text::ascii_lower(description);
            &&& (forall|j: int|
                0 <= j < adapters.len() ==> crate::text::ascii_lower(
                    (#[trigger] adapters[j]).description@,
                ) != wanted) ==> address_of(adapters, description) is None
            &&& 0 <= k < adapters.len() && crate::text::ascii_lower(adapters[k].description@)
                == wanted && (forall|j: int|
                0 <= j < k ==> crate::text::ascii_lower((#[trigger] adapters[j]).description@)
                    != wanted) ==> address_of(adapters, description) == (
            if adapters[k].ipv4@.len() > 0 {
                Some(adapters[k].ipv4@[0]@)
            } else {
                None
            })
        }),
{
    let wanted = crate::text::ascii_lower(description);
    let described = |a: Adapter|
        crate::text::ascii_lower(a.description@) == crate::text::ascii_lower(description);
    if forall|j: int|
        0 <= j < adapters.len() ==> crate::text::ascii_lower((#[trigger] adapters[j]).description@)
            != wanted {
        crate::lists::lemma_first_missing(adapters, described);
    }
    if 0 <= k < adapters.len() && crate::text::ascii_lower(adapters[k].description@) == wanted && (
    forall|j: int|
        0 <= j < k ==> crate::text::ascii_lower((#[trigger] adapters[j]).description@) != wanted) {
        crate::lists::lemma_first_found(adapters, described, k);
    }
}

/// The hotspot's address is the first on its subnet: no address of an earlier adapter is on
/// it, nor an earlier one of the same adapter. Where none is, the hotspot has no address.
pub proof fn law_the_hotspots_address_is_the_first_on_its_subnet(
    adapters: Seq<Adapter>,
    k: int,
    m: int,
)
    ensures
        (forall|j: int, n: int|
            0 <= j < adapters.len() && 0 <= n < adapters[j].ipv4@.len()
                ==> !crate::text::has_prefix(
                (#[trigger] adapters[j].ipv4@[n])@,
                "192.168.137."@,
            )) ==> hotspot_address(adapters) is None,
        0 <= k < adapters.len() && 0 <= m < adapters[k].ipv4@.len() && crate::text::has_prefix(
            adapters[k].ipv4@[m]@,
            "192.168.137."@,
        ) && (forall|j: int, n: int|
            0 <= j < k && 0 <= n < adapters[j].ipv4@.len() ==> !crate::text::has_prefix(
                (#[trigger] adapters[j].ipv4@[n])@,
                "192.168.137."@,
            )) && (forall|n: int|
            0 <= n < m ==> !crate::text::has_prefix(
                (#[trigger] adapters[k].ipv4@[n])@,
                "192.168.137."@,
            )) ==> hotspot_address(adapters) == Some(adapters[k].ipv4@[m]@),
{
    let is_virtual = |a: Adapter| a.is_virtual();
    let on_subnet = |ip: String| on_hotspot_subnet(ip);
    if forall|j: int, n: int|
        0 <= j < adapters.len() && 0 <= n < adapters[j].ipv4@.len() ==> !crate::text::has_prefix(
            (#[trigger] adapters[j].ipv4@[n])@,
            "192.168.137."@,
        ) {
        assert forall|j: int| 0 <= j < adapters.len() implies !is_virtual(
            #[trigger] adapters[j],
        ) by {
            if adapters[j].is_virtual() {
                let n = choose|n: int|
                    0 <= n < adapters[j].ipv4@.len() && on_hotspot_subnet(
                        #[trigger] adapters[j].ipv4@[n],
                    );
                assert(crate::text::has_prefix(adapters[j].ipv4@[n]@, "192.168.137."@));
            }
        }
        crate::lists::lemma_first_missing(adapters, is_virtual);
    }
    if 0 <= k < adapters.len() && 0 <= m < adapters[k].ipv4@.len() && crate::text::has_prefix(
        adapters[k].ipv4@[m]@,
        "192.168.137."@,
    ) && (forall|j: int, n: int|
        0 <= j < k && 0 <= n < adapters[j].ipv4@.len() ==> !crate::text::has_prefix(
            (#[trigger] adapters[j].ipv4@[n])@,
            "192.168.137."@,
        )) && (forall|n: int|
        0 <= n < m ==> !crate::text::has_prefix(
            (#[trigger] adapters[k].ipv4@[n])@,
            "192.168.137."@,
        )) {
        assert(on_hotspot_subnet(adapters[k].ipv4@[m]));
        assert(is_virtual(adapters[k]));
        assert forall|j: int| 0 <= j < k implies !is_virtual(#[trigger] adapters[j]) by {
            if adapters[j].is_virtual() {
                let n = choose|n: int|
                    0 <= n < adapters[j].ipv4@.len() && on_hotspot_subnet(
                        #[trigger] adapters[j].ipv4@[n],
                    );
                assert(crate::text::has_prefix(adapters[j].ipv4@[n]@, "192.168.137."@));
            }
        }
        crate::lists::lemma_first_found(adapters, is_virtual, k);
        crate::lists::lemma_first_found(adapters[k].ipv4@, on_subnet, m);
    }
}

/// The addresses collected are those of IPv4, each in its place, whatever stands between them.
pub proof fn law_only_ipv4_is_collected(
    before: Seq<SocketAddress>,
    address: SocketAddress,
)
    ensures
        ipv4_among(Seq::empty()).len() == 0,
        address.family != 2 ==> ipv4_among(before.push(address)) == ipv4_among(before),
        address.family == 2 ==> address.ipv4() is Some && ipv4_among(before.push(address))
            == ipv4_among(before).push(address.ipv4()->0),
{
    assert(before.push(address).drop_last() =~= before);
}

/// An IPv4 address is its four bytes in order, in decimal, with dots between them: taken apart
/// at the dots it is these four again.
pub proof fn law_an_address_reads_back(address: SocketAddress)
    requires
        address.family == 2,
    ensures
        address.ipv4() is Some,
        crate::text::split_on(address.ipv4()->0, '.') == Seq::new(
            4,
            |i: int| crate::text::decimal(address.octets@[i] as nat),
        ),
        address.ipv4()->0 == crate::text::joined(
            Seq::new(4, |i: int| crate::text::decimal(address.octets@[i] as nat)),
            seq!['.'],
        ),
{
    reveal_strlit(".");
    let parts = Seq::new(4, |i: int| crate::text::decimal(address.octets@[i] as nat));
    assert("."@ =~= seq!['.']);
    let three = parts.drop_last();
    let two = three.drop_last();
    let one = two.drop_last();
    assert(crate::text::joined(one, seq!['.']) == parts[0]);
    assert(crate::text::joined(two, seq!['.']) == parts[0] + seq!['.'] + parts[1]);
    assert(crate::text::joined(three, seq!['.']) == parts[0] + seq!['.'] + parts[1] + seq!['.']
        + parts[2]);
    assert(crate::text::joined(parts, seq!['.']) == address.ipv4()->0);
    assert forall|i: int| 0 <= i < parts.len() implies !(#[trigger] parts[i]).contains('.') by {
        lemma_no_dot(address.octets@[i] as nat);
    }
    crate::text::law_splitting_undoes_joining(parts, '.');
}

/// A number in decimal has no dot in it.
proof fn lemma_no_dot(n: nat)
    ensures
        !crate::text::decimal(n).contains('.'),
{
    crate::text::law_a_decimal_reads_back(n);
    if crate::text::decimal(n).contains('.') {
        let i = choose|i: int|
            0 <= i < crate::text::decimal(n).len() && crate::text::decimal(n)[i] == '.';
        assert('0' <= crate::text::decimal(n)[i]);
    }
}

/// An address is on the hotspot's subnet if and only if its first three bytes are 192, 168
/// and 137.
pub proof fn law_the_hotspots_subnet(address: SocketAddress, ip: String)
    requires
        address.ipv4() == Some(ip@),
    ensures
        on_hotspot_subnet(ip) <==> address.octets@[0] == 192 && address.octets@[1] == 168
            && address.octets@[2] == 137,
{
    reveal_strlit(".");
    reveal_strlit("192.168.137.");
    let a = crate::text::decimal(address.octets@[0] as nat);
    let b = crate::text::decimal(address.octets@[1] as nat);
    let c = crate::text::decimal(address.octets@[2] as nat);
    let d = crate::text::decimal(address.octets@[3] as nat);
    let x = crate::text::decimal(192);
    let y = crate::text::decimal(168);
    let z = crate::text::decimal(137);
    lemma_three_digits(192);
    lemma_three_digits(168);
    lemma_three_digits(137);
    let dot = seq!['.'];
    let prefix = "192.168.137."@;
    assert(prefix =~= x + dot + y + dot + z + dot);
    assert("."@ =~= dot);
    assert(ip@ == a + dot + b + dot + c + dot + d);
    if on_hotspot_subnet(ip) {
        let rest = ip@.skip(prefix.len() as int);
        crate::text::law_a_prefix_is_what_comes_first(ip@, prefix, rest);
        assert(ip@ == prefix + rest);
        lemma_no_dot(address.octets@[0] as nat);
        lemma_no_dot(address.octets@[1] as nat);
        lemma_no_dot(address.octets@[2] as nat);
        lemma_no_dot(192);
        lemma_no_dot(168);
        lemma_no_dot(137);
        let a_rest = b + dot + c + dot + d;
        let x_rest = y + dot + z + dot + rest;
        assert(a + dot + a_rest =~= ip@);
        assert(x + dot + x_rest =~= ip@);
        lemma_up_to_the_dot(a, a_rest, x, x_rest);
        let b_rest = c + dot + d;
        let y_rest = z + dot + rest;
        assert(a_rest =~= b + dot + b_rest);
        assert(x_rest =~= y + dot + y_rest);
        lemma_up_to_the_dot(b, b_rest, y, y_rest);
        lemma_up_to_the_dot(c, d, z, rest);
        crate::text::law_decimals_are_not_confused(address.octets@[0] as nat, 192);
        crate::text::law_decimals_are_not_confused(address.octets@[1] as nat, 168);
        crate::text::law_decimals_are_not_confused(address.octets@[2] as nat, 137);
    }
    if address.octets@[0] == 192 && address.octets@[1] == 168 && address.octets@[2] == 137 {
        crate::text::law_a_prefix_is_what_comes_first(ip@, prefix, d);
        assert(ip@ =~= prefix + d);
    }
}

/// What comes before the first dot of a text is no matter of how it is put together.
proof fn lemma_up_to_the_dot(a: Seq<char>, a_rest: Seq<char>, b: Seq<char>, b_rest: Seq<char>)
    requires
        !a.contains('.'),
        !b.contains('.'),
        a + seq!['.'] + a_rest == b + seq!['.'] + b_rest,
    ensures
        a == b,
        a_rest == b_rest,
{
    let s = a + seq!['.'] + a_rest;
    let t = b + seq!['.'] + b_rest;
    assert(s[a.len() as int] == '.');
    assert(t[b.len() as int] == '.');
    if a.len() < b.len() {
        assert(t[a.len() as int] == b[a.len() as int]);
        assert(b.contains('.'));
    } else if b.len() < a.len() {
        assert(s[b.len() as int] == a[b.len() as int]);
        assert(a.contains('.'));
    }
    assert(a =~= s.take(a.len() as int));
    assert(b =~= t.take(b.len() as int));
    assert(a_rest =~= s.skip(a.len() as int + 1));
    assert(b_rest =~= t.skip(b.len() as int + 1));
}

/// The digits of a number of three.
proof fn lemma_three_digits(n: nat)
    requires
        100 <= n < 1000,
    ensures
        crate::text::decimal(n) == seq![
            crate::text::digit(n / 100),
            crate::text::digit(n / 10 % 10),
            crate::text::digit(n % 10),
        ],
{
    reveal_with_fuel(crate::text::decimal, 3);
    assert(n / 10 / 10 == n / 100);
    assert(crate::text::decimal(n) =~= seq![
        crate::text::digit(n / 100),
        crate::text::digit(n / 10 % 10),
        crate::text::digit(n % 10),
    ]);
}

/// Bytes in hexadecimal, two digits each.
pub open spec fn bytes_text(bytes: Seq<u8>) -> Seq<char> {
    Seq::new(
        2 * bytes.len(),
        |i: int| crate::text::hexadecimal(bytes[i / 2] as nat, 2)[i % 2],
    )
}

/// The five groups of a GUID's text.
pub open spec fn groups(g: Guid) -> Seq<Seq<char>> {
    seq![
        crate::text::hexadecimal(g.data1 as nat, 8),
        crate::text::hexadecimal(g.data2 as nat, 4),
        crate::text::hexadecimal(g.data3 as nat, 4),
        bytes_text(g.data4@.take(2)),
        bytes_text(g.data4@.skip(2)),
    ]
}

/// A GUID written out, in groups of eight, four, four, four and twelve hexadecimal digits with
/// hyphens between them, is read as that GUID, and as no other; in braces too.
pub proof fn law_a_guid_reads_back(g: Guid, other: Guid)
    ensures
        ({
            let text = crate::text::joined(groups(g), seq!['-']);
            &&& spells(text, g)
            &&& spells(text, other) ==> other == g
            &&& spells(seq!['{'] + text + seq!['}'], g)
        }),
{
    let parts = groups(g);
    let text = crate::text::joined(parts, seq!['-']);
    reveal_with_fuel(crate::text::hex_limit, 9);
    crate::text::law_a_hexadecimal_number_reads_back(g.data1 as nat, 8, 0xffff_ffff);
    crate::text::law_a_hexadecimal_number_reads_back(g.data2 as nat, 4, 0xffff);
    crate::text::law_a_hexadecimal_number_reads_back(g.data3 as nat, 4, 0xffff);
    crate::text::lemma_hexadecimal(g.data1 as nat, 8);
    crate::text::lemma_hexadecimal(g.data2 as nat, 4);
    crate::text::lemma_hexadecimal(g.data3 as nat, 4);
    lemma_bytes_text(g.data4@.take(2));
    lemma_bytes_text(g.data4@.skip(2));
    lemma_bytes_text(g.data4@);
    assert forall|i: int| 0 <= i < parts.len() implies !(#[trigger] parts[i]).contains('-') by {
        if parts[i].contains('-') {
            let k = choose|k: int| 0 <= k < parts[i].len() && parts[i][k] == '-';
            assert(crate::text::hex_digit(parts[i][k]) is Some);
        }
    }
    crate::text::law_splitting_undoes_joining(parts, '-');

    let tail = bytes_text(g.data4@);
    assert(parts[3] + parts[4] =~= tail) by {
        assert forall|i: int| 0 <= i < 16 implies #[trigger] (parts[3] + parts[4])[i]
            == tail[i] by {
            if i < 4 {
                assert(g.data4@.take(2)[i / 2] == g.data4@[i / 2]);
            } else {
                assert(g.data4@.skip(2)[(i - 4) / 2] == g.data4@[i / 2]);
            }
        }
    }
    assert forall|i: int| 0 <= i < 8 implies #[trigger] byte_at(tail, i) == Some(
        g.data4@[i] as nat,
    ) by {
        crate::text::law_a_hexadecimal_number_reads_back(g.data4@[i] as nat, 2, 0xff);
        assert(tail.subrange(2 * i, 2 * i + 2) =~= crate::text::hexadecimal(
            g.data4@[i] as nat,
            2,
        ));
    }
    assert(byte_pairs(tail)->0 =~= Seq::new(8, |i: int| g.data4@[i] as nat));

    // There is nothing to take off.
    let four = parts.drop_last();
    let before = crate::text::joined(four, seq!['-']);
    assert(text == before + seq!['-'] + parts[4]);
    assert(text.last() == parts[4].last());
    lemma_joined_first(parts);
    assert(text.first() == parts[0].first());
    assert(crate::text::hex_digit(parts[0][0]) is Some);
    assert(crate::text::hex_digit(parts[4][11]) is Some);
    crate::text::lemma_plain_word_is_trimmed(text);
    let opening = |c: char| c == '{';
    let closing = |c: char| c == '}';
    assert(crate::text::trim_start_by(text, opening) == text);
    assert(crate::text::trim_end_by(text, closing) == text);
    assert(unbraced(text) == text);
    law_braces_make_no_difference(text, g);
    if spells(text, other) {
        law_a_text_spells_at_most_one_guid(text, g, other);
    }
}

/// Texts that are joined begin like the first of them.
proof fn lemma_joined_first(list: Seq<Seq<char>>)
    requires
        list.len() > 0,
        list[0].len() > 0,
    ensures
        crate::text::joined(list, seq!['-']).len() > 0,
        crate::text::joined(list, seq!['-'])[0] == list[0][0],
    decreases list.len(),
{
    if list.len() > 1 {
        lemma_joined_first(list.drop_last());
    }
}

/// Bytes are written in hexadecimal digits, two each.
proof fn lemma_bytes_text(bytes: Seq<u8>)
    ensures
        bytes_text(bytes).len() == 2 * bytes.len(),
        forall|i: int|
            0 <= i < 2 * bytes.len() ==> crate::text::hex_digit(
                #[trigger] bytes_text(bytes)[i],
            ) is Some,
{
    reveal_with_fuel(crate::text::hex_limit, 3);
    assert forall|i: int| 0 <= i < 2 * bytes.len() implies crate::text::hex_digit(
        #[trigger] bytes_text(bytes)[i],
    ) is Some by {
        crate::text::lemma_hexadecimal(bytes[i / 2] as nat, 2);
        assert(crate::text::hex_digit(
            crate::text::hexadecimal(bytes[i / 2] as nat, 2)[i % 2],
        ) is Some);
    }
}

} // verus!
