//! The live `status.json` for something else to read -- a microcontroller polling it from an
//! attached drive is the motivating case.
//!
//! What the document says, when it has to be written again, and which disk it belongs on.

use crate::text::{eq_ignore_ascii_case, same_text, trim, wide_to_string};
use vstd::prelude::*;

verus! {

/// SSID placeholder for a "connected" report that is not backed by a readable Wi-Fi
/// SSID. Autospot only ever monitors Wi-Fi, so in practice this fires only when a Wi-Fi
/// adapter reports itself connected but the SSID query failed -- there is no other code path
/// that produces "connected" without an SSID at all.
pub const NON_WIFI_SSID: &'static str = "<ethernet>";

/// The document written to disk.
#[derive(Debug, PartialEq)]
pub struct StatusDump {
    pub status: &'static str,
    pub connected: Option<ConnectedInfo>,
    pub hotspot: Option<HotspotInfo>,
}

/// The connection that is reported.
#[derive(Debug, PartialEq)]
pub struct ConnectedInfo {
    pub ssid: String,
    pub ip_address: String,
}

/// The hotspot that is reported.
#[derive(Debug, PartialEq)]
pub struct HotspotInfo {
    pub ssid: String,
    pub password: String,
    pub ip_address: String,
}

/// What a [`ConnectedInfo`] says.
pub ghost struct ConnectedView {
    pub ssid: Seq<char>,
    pub ip_address: Seq<char>,
}

/// What a [`HotspotInfo`] says.
pub ghost struct HotspotView {
    pub ssid: Seq<char>,
    pub password: Seq<char>,
    pub ip_address: Seq<char>,
}

/// What a [`StatusDump`] says.
pub ghost struct DumpView {
    pub status: Seq<char>,
    pub connected: Option<ConnectedView>,
    pub hotspot: Option<HotspotView>,
}

impl View for ConnectedInfo {
    type V = ConnectedView;

    open spec fn view(&self) -> ConnectedView {
        ConnectedView { ssid: self.ssid@, ip_address: self.ip_address@ }
    }
}

impl View for HotspotInfo {
    type V = HotspotView;

    open spec fn view(&self) -> HotspotView {
        HotspotView {
            ssid: self.ssid@,
            password: self.password@,
            ip_address: self.ip_address@,
        }
    }
}

impl View for StatusDump {
    type V = DumpView;

    open spec fn view(&self) -> DumpView {
        DumpView {
            status: self.status@,
            connected: match self.connected {
                Some(c) => Some(c@),
                None => None,
            },
            hotspot: match self.hotspot {
                Some(h) => Some(h@),
                None => None,
            },
        }
    }
}

impl Clone for ConnectedInfo {
    fn clone(&self) -> (r: Self)
        ensures
            r@ == self@,
    {
        ConnectedInfo {
            ssid: self.ssid.as_str().to_string(),
            ip_address: self.ip_address.as_str().to_string(),
        }
    }
}

impl Clone for HotspotInfo {
    fn clone(&self) -> (r: Self)
        ensures
            r@ == self@,
    {
        HotspotInfo {
            ssid: self.ssid.as_str().to_string(),
            password: self.password.as_str().to_string(),
            ip_address: self.ip_address.as_str().to_string(),
        }
    }
}

impl Clone for StatusDump {
    fn clone(&self) -> (r: Self)
        ensures
            r@ == self@,
    {
        let connected = match &self.connected {
            Some(c) => Some(c.clone()),
            None => None,
        };
        let hotspot = match &self.hotspot {
            Some(h) => Some(h.clone()),
            None => None,
        };
        StatusDump { status: self.status, connected, hotspot }
    }
}

impl DumpView {
    /// The document for a machine on this network.
    pub open spec fn connected(ssid: Option<Seq<char>>, ip_address: Option<Seq<char>>) -> DumpView {
        DumpView {
            status: "connected"@,
            connected: Some(
                ConnectedView {
                    ssid: match ssid {
                        Some(s) => s,
                        None => NON_WIFI_SSID@,
                    },
                    ip_address: or_empty(ip_address),
                },
            ),
            hotspot: None,
        }
    }

    /// The document for a machine that is a hotspot.
    pub open spec fn hotspot(
        ssid: Seq<char>,
        password: Seq<char>,
        ip_address: Option<Seq<char>>,
    ) -> DumpView {
        DumpView {
            status: "hotspot"@,
            connected: None,
            hotspot: Some(HotspotView { ssid, password, ip_address: or_empty(ip_address) }),
        }
    }

    /// A document that is only a word.
    pub open spec fn bare(status: Seq<char>) -> DumpView {
        DumpView { status, connected: None, hotspot: None }
    }
}

/// `text`, or nothing where there is none.
pub open spec fn or_empty(text: Option<Seq<char>>) -> Seq<char> {
    match text {
        Some(t) => t,
        None => Seq::empty(),
    }
}

/// `text`, or nothing where there is none.
fn to_string_or_empty(text: Option<&str>) -> (r: String)
    ensures
        r@ == or_empty(crate::text::text_of(text)),
{
    match text {
        Some(t) => t.to_string(),
        None => String::new(),
    }
}

impl StatusDump {
    /// The document for a machine on this network.
    pub fn connected(ssid: Option<&str>, ip_address: Option<&str>) -> (d: Self)
        ensures
            d@ == DumpView::connected(
                crate::text::text_of(ssid),
                crate::text::text_of(ip_address),
            ),
    {
        let ssid = match ssid {
            Some(s) => s.to_string(),
            None => NON_WIFI_SSID.to_string(),
        };
        Self {
            status: "connected",
            connected: Some(ConnectedInfo { ssid, ip_address: to_string_or_empty(ip_address) }),
            hotspot: None,
        }
    }

    /// The document for a machine that is a hotspot.
    pub fn hotspot(ssid: &str, password: &str, ip_address: Option<&str>) -> (d: Self)
        ensures
            d@ == DumpView::hotspot(ssid@, password@, crate::text::text_of(ip_address)),
    {
        Self {
            status: "hotspot",
            connected: None,
            hotspot: Some(
                HotspotInfo {
                    ssid: ssid.to_string(),
                    password: password.to_string(),
                    ip_address: to_string_or_empty(ip_address),
                },
            ),
        }
    }

    /// The document for a machine without a network.
    pub fn disconnected() -> (d: Self)
        ensures
            d@ == DumpView::bare("disconnected"@),
    {
        Self { status: "disconnected", connected: None, hotspot: None }
    }

    /// The document for a machine whose state could not be read.
    pub fn unknown() -> (d: Self)
        ensures
            d@ == DumpView::bare("unknown"@),
    {
        Self { status: "unknown", connected: None, hotspot: None }
    }

    /// Do the two documents say the same?
    pub fn same_as(&self, other: &StatusDump) -> (r: bool)
        ensures
            r == (self@ == other@),
    {
        let same_connection = match (&self.connected, &other.connected) {
            (Some(a), Some(b)) => same_text(a.ssid.as_str(), b.ssid.as_str()) && same_text(
                a.ip_address.as_str(),
                b.ip_address.as_str(),
            ),
            (None, None) => true,
            _ => false,
        };
        let same_hotspot = match (&self.hotspot, &other.hotspot) {
            (Some(a), Some(b)) => same_text(a.ssid.as_str(), b.ssid.as_str()) && same_text(
                a.password.as_str(),
                b.password.as_str(),
            ) && same_text(a.ip_address.as_str(), b.ip_address.as_str()),
            (None, None) => true,
            _ => false,
        };
        same_text(self.status, other.status) && same_connection && same_hotspot
    }
}

/// The Wi-Fi half of what `compute()` needs, already resolved by the caller.
pub struct WifiSnapshot<'a> {
    pub connected: bool,
    pub ssid: Option<&'a str>,
    pub ip_address: Option<&'a str>,
}

/// The hotspot half of what `compute()` needs, already resolved by the caller.
pub struct HotspotSnapshot<'a> {
    pub on: bool,
    pub ssid: &'a str,
    pub password: &'a str,
    pub ip_address: Option<&'a str>,
}

/// What the dump should say.
pub open spec fn dump_for(
    wifi_ok: bool,
    wifi: WifiSnapshot,
    hotspot: Option<HotspotSnapshot>,
) -> DumpView {
    if !wifi_ok {
        DumpView::bare("unknown"@)
    } else if wifi.connected {
        DumpView::connected(
            crate::text::text_of(wifi.ssid),
            crate::text::text_of(wifi.ip_address),
        )
    } else {
        match hotspot {
            Some(h) if h.on => DumpView::hotspot(
                h.ssid@,
                h.password@,
                crate::text::text_of(h.ip_address),
            ),
            _ => DumpView::bare("disconnected"@),
        }
    }
}

/// Decide what the dump should say this tick.
///
/// Priority when both could apply: a real Wi-Fi connection always wins over a hotspot
/// that has not been torn down yet (mirrors the watchdog's own reconnect handling).
pub fn compute(
    wifi_ok: bool,
    wifi: &WifiSnapshot,
    hotspot: Option<&HotspotSnapshot>,
) -> (d: StatusDump)
    ensures
        d@ == dump_for(
            wifi_ok,
            *wifi,
            match hotspot {
                Some(h) => Some(*h),
                None => None,
            },
        ),
{
    if !wifi_ok {
        return StatusDump::unknown();
    }
    if wifi.connected {
        return StatusDump::connected(wifi.ssid, wifi.ip_address);
    }
    match hotspot {
        Some(h) => if h.on {
            return StatusDump::hotspot(h.ssid, h.password, h.ip_address);
        },
        None => {},
    }
    StatusDump::disconnected()
}

// --- writing ---------------------------------------------------------------------

/// Does the document that was written last say the same as this one?
pub open spec fn already_written(last: Option<StatusDump>, dump: StatusDump) -> bool {
    last is Some && last->0@ == dump@
}

/// Have `dump` written by `write` if it differs from `last`, updating `last` on success.
/// Returns `Ok(true)` when a write happened, `Ok(false)` when nothing changed.
///
/// Where nothing changed, `write` is not run, and nothing is asked of it. So the call after
/// a successful write of the same document writes nothing, and the call after a failed one
/// tries again.
pub fn write_if_changed<E, W: FnOnce(&StatusDump) -> Result<(), E>>(
    dump: &StatusDump,
    last: &mut Option<StatusDump>,
    write: W,
) -> (r: Result<bool, E>)
    requires
        !already_written(*old(last), *dump) ==> write.requires((dump,)),
    ensures
        already_written(*old(last), *dump) ==> r == Ok::<bool, E>(false) && *final(last) == *old(
            last,
        ),
        !already_written(*old(last), *dump) ==> match r {
            Ok(wrote) => {
                &&& wrote
                &&& exists|outcome: Result<(), E>| #[trigger]
                    write.ensures((dump,), outcome) && outcome is Ok
                &&& already_written(*final(last), *dump)
            },
            Err(e) => write.ensures((dump,), Err(e)) && *final(last) == *old(last),
        },
{
    let unchanged = match &*last {
        Some(written) => written.same_as(dump),
        None => false,
    };
    if unchanged {
        return Ok(false);
    }
    match write(dump) {
        Ok(()) => {
            *last = Some(dump.clone());
            Ok(true)
        },
        Err(e) => Err(e),
    }
}

/// The name of the file that is written first -- see [`tmp_name`].
pub open spec fn temporary(file_name: Option<Seq<char>>) -> Seq<char> {
    (match file_name {
        Some(n) => n,
        None => "status.json"@,
    }) + ".tmp"@
}

/// The name of the file that is written first and then renamed, so a reader polling the
/// document never sees a partial write.
pub fn tmp_name(file_name: Option<&str>) -> (r: String)
    ensures
        r@ == temporary(crate::text::text_of(file_name)),
{
    let mut r = match file_name {
        Some(n) => n.to_string(),
        None => "status.json".to_string(),
    };
    r.append(".tmp");
    r
}

// --- finding the disk ------------------------------------------------------------

/// Where the document goes: a directory, or the disk with a label.
#[derive(Debug, Clone, PartialEq, Eq)]
pub struct DumpConfig {
    pub enabled: bool,
    pub disk_label: Option<String>,
    pub disk_path: Option<String>,
    pub file_name: String,
}

/// Windows' type of a drive whose medium can be taken out.
pub const DRIVE_REMOVABLE: u32 = 2;

/// Windows' type of a drive whose medium is fixed.
pub const DRIVE_FIXED: u32 = 3;

/// A drive, as far as looking for a label goes.
#[derive(Debug, Clone, PartialEq, Eq)]
pub struct Volume {
    /// Its root, e.g. `E:\`.
    pub root: String,
    pub drive_type: u32,
    /// Its label as Windows hands it out, when it could be read. A removable bay with no
    /// media in it, or a drive that vanished mid-scan, has none; that's routine, not a
    /// reason to abort the whole search.
    pub label: Option<Vec<u16>>,
}

/// Why there is nowhere to write to.
#[derive(Debug, Clone, PartialEq, Eq)]
pub enum DumpError {
    /// Windows knows no drive at all.
    NoDrives,
    /// No disk has this label.
    NoSuchDisk { label: String },
    /// Neither a label nor a path is configured.
    NotConfigured,
}

impl DumpError {
    /// What to tell the user.
    pub fn message(&self) -> (r: String)
        ensures
            r@ == match *self {
                DumpError::NoDrives => "GetLogicalDrives reported no drives at all"@,
                DumpError::NoSuchDisk { label } => "no disk labeled '"@ + label@
                    + "' is currently present"@,
                DumpError::NotConfigured =>
                    "status-dump is enabled but has neither disk_label nor disk_path"@,
            },
    {
        match self {
            DumpError::NoDrives => "GetLogicalDrives reported no drives at all".to_string(),
            DumpError::NoSuchDisk { label } => {
                let mut r = "no disk labeled '".to_string();
                r.append(label.as_str());
                r.append("' is currently present");
                r
            },
            DumpError::NotConfigured =>
                "status-dump is enabled but has neither disk_label nor disk_path".to_string(),
        }
    }
}

/// What is left of a setting once blanks are taken off it, if anything is.
pub open spec fn filled_in(setting: Option<Seq<char>>) -> Option<Seq<char>> {
    match setting {
        Some(s) if crate::text::trimmed(s).len() > 0 => Some(crate::text::trimmed(s)),
        _ => None,
    }
}

/// What is left of a setting once blanks are taken off it, if anything is.
pub fn non_empty<'a>(setting: Option<&'a str>) -> (r: Option<&'a str>)
    ensures
        crate::text::text_of(r) == filled_in(crate::text::text_of(setting)),
{
    match setting {
        Some(s) => {
            let s = trim(s);
            if s.unicode_len() == 0 {
                None
            } else {
                Some(s)
            }
        },
        None => None,
    }
}

/// An owned setting as a borrowed one.
fn borrowed<'a>(setting: &'a Option<String>) -> (r: Option<&'a str>)
    ensures
        crate::text::text_of(r) == crate::text::string_of(*setting),
{
    match setting {
        Some(s) => Some(s.as_str()),
        None => None,
    }
}

/// Is the drive with this number (0 for `A:`) among those in the mask?
pub open spec fn in_mask(mask: u32, drive: u32) -> bool {
    (mask >> drive) & 1 == 1
}

/// The root of the drive with this number.
pub open spec fn root_of(drive: nat) -> Seq<char> {
    seq![((0x41 + drive) as u32) as char] + ":\\"@
}

/// The roots of the first `count` drives, as far as they are in the mask.
pub open spec fn roots_among(mask: u32, count: nat) -> Seq<Seq<char>>
    decreases count,
{
    if count == 0 {
        Seq::empty()
    } else if in_mask(mask, (count - 1) as u32) {
        roots_among(mask, (count - 1) as nat).push(root_of((count - 1) as nat))
    } else {
        roots_among(mask, (count - 1) as nat)
    }
}

/// The roots of the drives that exist, in the order of their letters. `mask` has a bit for
/// each letter; no bit at all is an error.
pub fn drive_roots(mask: u32) -> (r: Result<Vec<String>, DumpError>)
    ensures
        match r {
            Ok(roots) => mask != 0 && crate::text::texts(roots@) == roots_among(mask, 26),
            Err(e) => mask == 0 && e == DumpError::NoDrives,
        },
{
    if mask == 0 {
        return Err(DumpError::NoDrives);
    }
    let mut roots: Vec<String> = Vec::new();
    let mut i: u32 = 0;
    assert(crate::text::texts(roots@) =~= roots_among(mask, 0));
    while i < 26
        invariant
            i <= 26,
            crate::text::texts(roots@) == roots_among(mask, i as nat),
        decreases 26 - i,
    {
        if (mask >> i) & 1 == 1 {
            let ghost before = crate::text::texts(roots@);
            let mut root = String::new();
            root.push((0x41u8 + i as u8) as char);
            root.append(":\\");
            assert(root@ =~= root_of(i as nat));
            roots.push(root);
            assert(crate::text::texts(roots@) =~= before.push(root_of(i as nat)));
        }
        i = i + 1;
    }
    Ok(roots)
}

/// Is a drive of this type worth looking at? Network, optical and RAM drives are not:
/// querying an empty optical drive in particular can be slow, and neither is a sensible place
/// for a status file anyway.
pub fn is_disk(drive_type: u32) -> (r: bool)
    ensures
        r == (drive_type == DRIVE_FIXED || drive_type == DRIVE_REMOVABLE),
{
    drive_type == DRIVE_FIXED || drive_type == DRIVE_REMOVABLE
}

impl Volume {
    /// Is this a fixed or removable disk with this label, case aside?
    pub open spec fn is_labelled(self, label: Seq<char>) -> bool {
        &&& self.drive_type == DRIVE_FIXED || self.drive_type == DRIVE_REMOVABLE
        &&& self.label is Some
        &&& crate::text::ascii_lower(
            crate::text::utf16_lossy(crate::text::up_to_nul(self.label->0@)),
        ) == crate::text::ascii_lower(label)
    }
}

/// The first of the disks with this label, blanks around it aside.
pub open spec fn labelled_disk(label: Seq<char>, volumes: Seq<Volume>) -> Option<Volume> {
    crate::lists::first(volumes, |v: Volume| v.is_labelled(crate::text::trimmed(label)))
}

/// Search every fixed or removable drive for one whose volume label matches.
pub fn find_disk_by_label<'a>(label: &str, volumes: &'a [Volume]) -> (r: Option<&'a str>)
    ensures
        crate::text::text_of(r) == match labelled_disk(label@, volumes@) {
            Some(v) => Some(v.root@),
            None => None,
        },
{
    let wanted_label = trim(label);
    let ghost wanted = |v: Volume| v.is_labelled(crate::text::trimmed(label@));
    let mut k: usize = 0;
    while k < volumes.len()
        invariant
            k <= volumes@.len(),
            wanted_label@ == crate::text::trimmed(label@),
            wanted == (|v: Volume| v.is_labelled(crate::text::trimmed(label@))),
            forall|j: int| 0 <= j < k ==> !wanted(#[trigger] volumes@[j]),
        decreases volumes@.len() - k,
    {
        let volume = &volumes[k];
        let matches = match &volume.label {
            Some(name) => is_disk(volume.drive_type) && eq_ignore_ascii_case(
                wide_to_string(name.as_slice()).as_str(),
                wanted_label,
            ),
            None => false,
        };
        if matches {
            proof {
                crate::lists::lemma_first_found(volumes@, wanted, k as int);
            }
            return Some(volume.root.as_str());
        }
        k = k + 1;
    }
    proof {
        crate::lists::lemma_first_missing(volumes@, wanted);
    }
    None
}

/// Where the document goes.
pub ghost enum Destination {
    /// Into this directory.
    Directory { path: Seq<char> },
    /// Nowhere: no disk has this label.
    NoSuchDisk { label: Seq<char> },
    /// Nowhere: nothing is configured.
    NotConfigured,
}

impl DumpConfig {
    /// Where the document goes, with these disks present.
    pub open spec fn destination(self, volumes: Seq<Volume>) -> Destination {
        match filled_in(crate::text::string_of(self.disk_path)) {
            Some(path) => Destination::Directory { path },
            None => match filled_in(crate::text::string_of(self.disk_label)) {
                Some(label) => match labelled_disk(label, volumes) {
                    Some(volume) => Destination::Directory { path: volume.root@ },
                    None => Destination::NoSuchDisk { label },
                },
                None => Destination::NotConfigured,
            },
        }
    }

    /// Does it depend on the disks where the document goes?
    pub open spec fn goes_by_disk(self) -> bool {
        filled_in(crate::text::string_of(self.disk_path)) is None && filled_in(
            crate::text::string_of(self.disk_label),
        ) is Some
    }
}

/// Must the disks be looked through to find where the document goes? Only where a label is
/// configured and no path is.
pub fn needs_disks(cfg: &DumpConfig) -> (r: bool)
    ensures
        r == cfg.goes_by_disk(),
{
    non_empty(borrowed(&cfg.disk_path)).is_none() && non_empty(
        borrowed(&cfg.disk_label),
    ).is_some()
}

/// Resolve `disk_path` or else `disk_label` to a root directory to write into. Done afresh
/// for every write, so a drive that was unplugged and replugged -- possibly under a different
/// letter -- is still found.
pub fn resolve_root(cfg: &DumpConfig, volumes: &[Volume]) -> (r: Result<String, DumpError>)
    ensures
        match r {
            Ok(root) => cfg.destination(volumes@) == (Destination::Directory { path: root@ }),
            Err(DumpError::NoSuchDisk { label }) => cfg.destination(volumes@) == (
            Destination::NoSuchDisk { label: label@ }),
            Err(DumpError::NotConfigured) => cfg.destination(volumes@)
                == Destination::NotConfigured,
            Err(DumpError::NoDrives) => false,
        },
{
    if let Some(path) = non_empty(borrowed(&cfg.disk_path)) {
        return Ok(path.to_string());
    }
    if let Some(label) = non_empty(borrowed(&cfg.disk_label)) {
        return match find_disk_by_label(label, volumes) {
            Some(root) => Ok(root.to_string()),
            None => Err(DumpError::NoSuchDisk { label: label.to_string() }),
        };
    }
    Err(DumpError::NotConfigured)
}

// --- laws ------------------------------------------------------------------------

/// At most one of the connection and the hotspot is ever in the document, and its status says
/// which.
pub proof fn law_at_most_one_section(
    wifi_ok: bool,
    wifi: WifiSnapshot,
    hotspot: Option<HotspotSnapshot>,
)
    ensures
        ({
            let dump = dump_for(wifi_ok, wifi, hotspot);
            &&& dump.connected is None || dump.hotspot is None
            &&& dump.connected is Some <==> dump.status == "connected"@
            &&& dump.hotspot is Some <==> dump.status == "hotspot"@
        }),
{
    reveal_strlit("connected");
    reveal_strlit("hotspot");
    reveal_strlit("disconnected");
    reveal_strlit("unknown");
    assert("connected"@[0] == 'c');
    assert("hotspot"@[0] == 'h');
    assert("disconnected"@[0] == 'd');
    assert("unknown"@[0] == 'u');
}

/// A real Wi-Fi connection always wins over a hotspot that has not been torn down yet.
pub proof fn law_wifi_wins_over_the_hotspot(
    wifi: WifiSnapshot,
    one: Option<HotspotSnapshot>,
    other: Option<HotspotSnapshot>,
)
    requires
        wifi.connected,
    ensures
        dump_for(true, wifi, one) == dump_for(true, wifi, other),
        dump_for(true, wifi, one).status == "connected"@,
{
}

/// What the document says follows from what it is told: which status, and what goes with it.
pub proof fn law_the_document_says_what_it_is_told(
    wifi_ok: bool,
    wifi: WifiSnapshot,
    hotspot: Option<HotspotSnapshot>,
)
    ensures
        ({
            let dump = dump_for(wifi_ok, wifi, hotspot);
            let connected = wifi_ok && wifi.connected;
            let shared = wifi_ok && !wifi.connected && hotspot is Some && hotspot->0.on;
            &&& dump.status == "unknown"@ <==> !wifi_ok
            &&& dump.status == "connected"@ <==> connected
            &&& dump.status == "hotspot"@ <==> shared
            &&& dump.status == "disconnected"@ <==> wifi_ok && !connected && !shared
            &&& connected ==> dump.connected is Some && dump.connected->0.ssid == (
            match wifi.ssid {
                Some(ssid) => ssid@,
                None => "<ethernet>"@,
            }) && (match wifi.ip_address {
                Some(ip) => dump.connected->0.ip_address == ip@,
                None => dump.connected->0.ip_address.len() == 0,
            })
            &&& shared ==> dump.hotspot is Some && dump.hotspot->0.ssid == hotspot->0.ssid@
                && dump.hotspot->0.password == hotspot->0.password@ && (
            match hotspot->0.ip_address {
                Some(ip) => dump.hotspot->0.ip_address == ip@,
                None => dump.hotspot->0.ip_address.len() == 0,
            })
        }),
{
    law_at_most_one_section(wifi_ok, wifi, hotspot);
    reveal_strlit("connected");
    reveal_strlit("hotspot");
    reveal_strlit("disconnected");
    reveal_strlit("unknown");
    assert("connected"@[0] == 'c');
    assert("hotspot"@[0] == 'h');
    assert("disconnected"@[0] == 'd');
    assert("unknown"@[0] == 'u');
}

/// A setting counts without the blanks around it, and not at all if there is nothing else.
pub proof fn law_blanks_are_no_setting(front: Seq<char>, s: Seq<char>, back: Seq<char>)
    requires
        forall|i: int| 0 <= i < front.len() ==> crate::text::is_white_space(#[trigger] front[i]),
        forall|i: int| 0 <= i < back.len() ==> crate::text::is_white_space(#[trigger] back[i]),
        s.len() > 0 ==> !crate::text::is_white_space(s.first()) && !crate::text::is_white_space(
            s.last(),
        ),
    ensures
        filled_in(None) is None,
        s.len() == 0 ==> filled_in(Some(front + s + back)) is None,
        s.len() > 0 ==> filled_in(Some(front + s + back)) == Some(s),
{
    crate::text::law_trimming_takes_off_what_is_around(front, s, back);
}

/// A configured path is where the document goes, whatever the label and the disks; without a
/// path it goes to the disk with the label; and unless that is so, the disks make no
/// difference.
pub proof fn law_the_path_comes_before_the_label(
    cfg: DumpConfig,
    other: DumpConfig,
    volumes: Seq<Volume>,
    other_volumes: Seq<Volume>,
)
    requires
        cfg.disk_path == other.disk_path,
    ensures
        filled_in(crate::text::string_of(cfg.disk_path)) matches Some(path) ==> cfg.destination(
            volumes,
        ) == (Destination::Directory { path }) && cfg.destination(volumes) == other.destination(
            other_volumes,
        ),
        !cfg.goes_by_disk() ==> cfg.destination(volumes) == cfg.destination(other_volumes),
        cfg.goes_by_disk() ==> (match cfg.destination(volumes) {
            Destination::Directory { path } => exists|k: int|
                0 <= k < volumes.len() && (#[trigger] volumes[k]).root@ == path,
            Destination::NoSuchDisk { label } => Some(label) == filled_in(
                crate::text::string_of(cfg.disk_label),
            ),
            Destination::NotConfigured => false,
        }),
        cfg.destination(volumes) is NotConfigured <==> filled_in(
            crate::text::string_of(cfg.disk_path),
        ) is None && filled_in(crate::text::string_of(cfg.disk_label)) is None,
{
    if cfg.goes_by_disk() {
        let label = filled_in(crate::text::string_of(cfg.disk_label))->0;
        let wanted = |v: Volume| v.is_labelled(crate::text::trimmed(label));
        crate::lists::lemma_first(volumes, wanted);
        if let Some(v) = labelled_disk(label, volumes) {
            let k = choose|k: int| 0 <= k < volumes.len() && volumes[k] == v;
            assert(volumes[k].root@ == v.root@);
        }
    }
}

/// The disk with a label is the first fixed or removable one whose label reads the same, case
/// and blanks around the wanted label aside; no other drive counts, nor one whose label could
/// not be read.
pub proof fn law_the_first_disk_with_the_label_is_found(
    label: Seq<char>,
    volumes: Seq<Volume>,
    k: int,
)
    ensures
        ({
            let wanted = crate::text::ascii_lower(crate::text::trimmed(label));
            let fits = |v: Volume|
                (v.drive_type == 2 || v.drive_type == 3) && v.label is Some
                    && crate::text::ascii_lower(
                    crate::text::utf16_lossy(crate::text::up_to_nul(v.label->0@)),
                ) == wanted;
            &&& (forall|j: int| 0 <= j < volumes.len() ==> !fits(#[trigger] volumes[j]))
                ==> labelled_disk(label, volumes) is None
            &&& 0 <= k < volumes.len() && fits(volumes[k]) && (forall|j: int|
                0 <= j < k ==> !fits(#[trigger] volumes[j])) ==> labelled_disk(label, volumes)
                == Some(volumes[k])
        }),
{
    let lowered = crate::text::ascii_lower(crate::text::trimmed(label));
    let fits = |v: Volume|
        (v.drive_type == 2 || v.drive_type == 3) && v.label is Some && crate::text::ascii_lower(
            crate::text::utf16_lossy(crate::text::up_to_nul(v.label->0@)),
        ) == lowered;
    let wanted = |v: Volume| v.is_labelled(crate::text::trimmed(label));
    assert forall|v: Volume| #[trigger] wanted(v) == fits(v) by {}
    if forall|j: int| 0 <= j < volumes.len() ==> !fits(#[trigger] volumes[j]) {
        assert forall|j: int| 0 <= j < volumes.len() implies !wanted(#[trigger] volumes[j]) by {
            assert(!fits(volumes[j]));
        }
        crate::lists::lemma_first_missing(volumes, wanted);
    }
    if 0 <= k < volumes.len() && fits(volumes[k]) && (forall|j: int|
        0 <= j < k ==> !fits(#[trigger] volumes[j])) {
        assert(wanted(volumes[k]));
        assert forall|j: int| 0 <= j < k implies !wanted(#[trigger] volumes[j]) by {
            assert(!fits(volumes[j]));
        }
        crate::lists::lemma_first_found(volumes, wanted, k);
    }
}

/// A drive is looked at if and only if its letter is in the mask, and the drives come in the
/// order of their letters.
pub proof fn law_the_drives_in_the_mask_are_looked_at(mask: u32, count: nat, drive: u32)
    requires
        count <= 26,
    ensures
        drive < count ==> (roots_among(mask, count).contains(root_of(drive as nat)) <==> mask & (
        1u32 << drive) != 0),
        forall|i: int|
            0 <= i < roots_among(mask, count).len() ==> (#[trigger] roots_among(
                mask,
                count,
            )[i]).len() == 3 && 0 <= roots_among(mask, count)[i][0] as int - 'A' as int && (
            roots_among(mask, count)[i][0] as int - 'A' as int) < count,
        forall|i: int, j: int|
            0 <= i < j < roots_among(mask, count).len() ==> (#[trigger] roots_among(
                mask,
                count,
            )[i])[0] < (#[trigger] roots_among(mask, count)[j])[0],
    decreases count,
{
    reveal_strlit(":\\");
    if count > 0 {
        let less = (count - 1) as nat;
        law_the_drives_in_the_mask_are_looked_at(mask, less, drive);
        let before = roots_among(mask, less);
        let all = roots_among(mask, count);
        assert(root_of(less)[0] as int == 'A' as int + less);
        assert(root_of(less).len() == 3);
        if drive < count {
            assert(((mask >> drive) & 1 == 1) <==> mask & (1u32 << drive) != 0) by (bit_vector)
                requires
                    drive < 32,
            ;
            assert(root_of(drive as nat)[0] as int == 'A' as int + drive);
        }
        if in_mask(mask, less as u32) {
            assert(all == before.push(root_of(less)));
            assert(all[before.len() as int] == root_of(less));
            if drive < less {
                if all.contains(root_of(drive as nat)) {
                    let i = choose|i: int| 0 <= i < all.len() && all[i] == root_of(drive as nat);
                    assert(root_of(less)[0] != root_of(drive as nat)[0]);
                    assert(i < before.len());
                    assert(before[i] == root_of(drive as nat));
                }
                if before.contains(root_of(drive as nat)) {
                    let i = choose|i: int|
                        0 <= i < before.len() && before[i] == root_of(drive as nat);
                    assert(all[i] == root_of(drive as nat));
                }
            }
            assert forall|i: int| 0 <= i < all.len() implies (#[trigger] all[i]).len() == 3
                && 0 <= all[i][0] as int - 'A' as int && (all[i][0] as int - 'A' as int)
                < count by {
                if i < before.len() {
                    assert(all[i] == before[i]);
                }
            }
            assert forall|i: int, j: int| 0 <= i < j < all.len() implies (#[trigger] all[i])[0] < (
            #[trigger] all[j])[0] by {
                assert(all[i] == before[i]);
                if j < before.len() {
                    assert(all[j] == before[j]);
                }
            }
        } else {
            assert(all == before);
            if drive == less && before.contains(root_of(drive as nat)) {
                let i = choose|i: int| 0 <= i < before.len() && before[i] == root_of(drive as nat);
                assert(before[i][0] as int == 'A' as int + less);
            }
        }
    }
}

/// The file that is written first is never the document itself, and no two documents share
/// one.
pub proof fn law_the_temporary_file_is_another(name: Seq<char>, other: Seq<char>)
    ensures
        temporary(Some(name)) != name,
        crate::text::has_prefix(temporary(Some(name)), name),
        temporary(Some(name)) == temporary(Some(other)) ==> name == other,
        temporary(None) == temporary(Some("status.json"@)),
{
    reveal_strlit(".tmp");
    let one = temporary(Some(name));
    let two = temporary(Some(other));
    assert(one.take(name.len() as int) =~= name);
    assert(one.len() == name.len() + 4);
    assert(two.take(other.len() as int) =~= other);
    assert(two.len() == other.len() + 4);
}

} // verus!
