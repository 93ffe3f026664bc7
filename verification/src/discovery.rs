//! Discovery results: device records and the deduplicated device list.
//!
//! A discovery pass first records the already-connected heart-rate devices and
//! then the actively scanned ones. `DeviceList` accumulates both phases and
//! keeps only the first record pushed for each identifier, so a connected
//! record is never displaced by a scanned one with the same identifier.

use vstd::prelude::*;

use crate::mac::after_hash;
use crate::mac::extract_mac_address;
use crate::mac::hex_digits_of;
use crate::mac::mac_format;
use crate::mac::MAC_ADDRESS_LENGTH;

verus! {

/// Wall-clock window for one advertisement scan, in milliseconds.
pub const SCAN_TIMEOUT_MS: u64 = 5000;

/// Per-poll timeout inside the scan loop, in milliseconds.
pub const SCAN_INTERVAL_MS: u64 = 100;

/// Most scanned devices accepted during one discovery pass.
pub const MAX_DEVICES: usize = 100;

/// One discovered device: an immutable snapshot taken during discovery.
#[derive(Debug, Clone)]
pub struct DeviceInfo {
    /// Opaque platform identifier of the device.
    pub id: String,
    /// Hardware address derived from the identifier, when one could be.
    pub mac_address: Option<String>,
    /// Advertised device name, when the platform reported one.
    pub name: Option<String>,
    /// Whether the device was already connected when enumerated.
    pub connected: bool,
}

impl DeviceInfo {
    /// Builds the snapshot taken for one enumerated device: the hardware
    /// address is derived from the identifier.
    pub fn from_parts(id: String, name: Option<String>, connected: bool) -> (r: DeviceInfo)
        ensures
            r.id == id,
            r.name == name,
            r.connected == connected,
            r.mac_address is Some <==> hex_digits_of(after_hash(id@)).len()
                >= MAC_ADDRESS_LENGTH,
            r.mac_address is Some ==> r.mac_address->0@ == mac_format(
                hex_digits_of(after_hash(id@)).take(MAC_ADDRESS_LENGTH as int),
            ),
    {
        let mac_address = extract_mac_address(id.as_str());
        DeviceInfo { id, mac_address, name, connected }
    }
}

/// Whether some record in `s` carries the identifier `id`.
pub open spec fn has_id(s: Seq<DeviceInfo>, id: Seq<char>) -> bool {
    exists|i: int| 0 <= i < s.len() && s[i].id@ == id
}

/// No two records in `s` carry the same identifier.
pub open spec fn unique_ids(s: Seq<DeviceInfo>) -> bool {
    forall|i: int, j: int| 0 <= i < j < s.len() ==> s[i].id@ != s[j].id@
}

/// `s` extended by `d`, unless `d`'s identifier is already present.
pub open spec fn push_if_new(s: Seq<DeviceInfo>, d: DeviceInfo) -> Seq<DeviceInfo> {
    if has_id(s, d.id@) {
        s
    } else {
        s.push(d)
    }
}

/// The list obtained by pushing each record of `pushed` in order, keeping only
/// the first record for each identifier.
pub open spec fn accumulated(pushed: Seq<DeviceInfo>) -> Seq<DeviceInfo>
    decreases pushed.len(),
{
    if pushed.len() == 0 {
        Seq::empty()
    } else {
        push_if_new(accumulated(pushed.drop_last()), pushed.last())
    }
}

/// The earliest record in `s` carrying the identifier `id`.
pub open spec fn first_with_id(s: Seq<DeviceInfo>, id: Seq<char>) -> DeviceInfo
    recommends
        has_id(s, id),
    decreases s.len(),
{
    if s.len() == 0 {
        arbitrary()
    } else if s[0].id@ == id {
        s[0]
    } else {
        first_with_id(s.drop_first(), id)
    }
}

proof fn lemma_has_id_push(s: Seq<DeviceInfo>, d: DeviceInfo, id: Seq<char>)
    ensures
        has_id(s.push(d), id) <==> (has_id(s, id) || d.id@ == id),
{
    if has_id(s, id) {
        let i = choose|i: int| 0 <= i < s.len() && s[i].id@ == id;
        assert(s.push(d)[i].id@ == id);
    }
    if d.id@ == id {
        assert(s.push(d)[s.len() as int].id@ == id);
    }
    if has_id(s.push(d), id) && !has_id(s, id) && d.id@ != id {
        let i = choose|i: int| 0 <= i < s.push(d).len() && s.push(d)[i].id@ == id;
        if i < s.len() {
            assert(s[i].id@ == id);
        } else {
            assert(s.push(d)[i] == d);
        }
    }
}

proof fn lemma_has_id_unfold(s: Seq<DeviceInfo>, id: Seq<char>)
    requires
        s.len() > 0,
    ensures
        has_id(s, id) <==> (s[0].id@ == id || has_id(s.drop_first(), id)),
{
    if has_id(s, id) && s[0].id@ != id {
        let i = choose|i: int| 0 <= i < s.len() && s[i].id@ == id;
        assert(s.drop_first()[i - 1].id@ == id);
    }
    if has_id(s.drop_first(), id) {
        let i = choose|i: int| 0 <= i < s.drop_first().len() && s.drop_first()[i].id@ == id;
        assert(s[i + 1].id@ == id);
    }
}

proof fn lemma_first_with_id_push(s: Seq<DeviceInfo>, d: DeviceInfo, id: Seq<char>)
    ensures
        has_id(s, id) ==> first_with_id(s.push(d), id) == first_with_id(s, id),
        !has_id(s, id) && d.id@ == id ==> first_with_id(s.push(d), id) == d,
    decreases s.len(),
{
    lemma_has_id_push(s, d, id);
    if s.len() == 0 {
        assert(s.push(d)[0] == d);
        if d.id@ == id {
            assert(first_with_id(s.push(d), id) == d);
        }
    } else {
        assert(s.push(d)[0] == s[0]);
        if s[0].id@ == id {
            assert(has_id(s, id));
        } else {
            assert(s.push(d).drop_first() =~= s.drop_first().push(d));
            lemma_first_with_id_push(s.drop_first(), d, id);
            lemma_has_id_unfold(s, id);
        }
    }
}

/// The law of the deduplicated device list: however the two discovery phases
/// interleave their pushes, the accumulated list holds an identifier exactly
/// when some pushed record carried it, holds no identifier twice, and keeps
/// for each identifier the earliest record pushed with it. Pushing the
/// connected records before the scanned ones therefore lets a connected
/// record win over a scanned record with the same identifier.
pub proof fn lemma_accumulated_device_list(pushed: Seq<DeviceInfo>)
    ensures
        unique_ids(accumulated(pushed)),
        forall|id: Seq<char>| #[trigger] has_id(accumulated(pushed), id) <==> has_id(pushed, id),
        forall|id: Seq<char>| #[trigger]
            has_id(pushed, id) ==> first_with_id(accumulated(pushed), id) == first_with_id(
                pushed,
                id,
            ),
    decreases pushed.len(),
{
    if pushed.len() == 0 {
    } else {
        let p = pushed.drop_last();
        let d = pushed.last();
        lemma_accumulated_device_list(p);
        assert(pushed =~= p.push(d));
        let acc = accumulated(p);
        let accp = accumulated(pushed);
        assert(accp == push_if_new(acc, d));
        assert forall|id: Seq<char>| #[trigger]
            has_id(accp, id) <==> has_id(pushed, id) by {
            lemma_has_id_push(p, d, id);
            lemma_has_id_push(acc, d, id);
        }
        assert forall|id: Seq<char>| #[trigger]
            has_id(pushed, id) implies first_with_id(accp, id) == first_with_id(pushed, id) by {
            lemma_has_id_push(p, d, id);
            lemma_has_id_push(acc, d, id);
            lemma_first_with_id_push(p, d, id);
            lemma_first_with_id_push(acc, d, id);
        }
        if !has_id(acc, d.id@) {
            assert forall|i: int, j: int|
                0 <= i < j < accp.len() implies accp[i].id@ != accp[j].id@ by {
                if j < acc.len() {
                } else {
                    assert(accp[j] == d);
                    if accp[i].id@ == d.id@ {
                        assert(acc[i].id@ == d.id@);
                        assert(has_id(acc, d.id@));
                    }
                }
            }
        }
    }
}

/// The deduplicated result of one discovery pass.
pub struct DeviceList {
    devices: Vec<DeviceInfo>,
}

impl View for DeviceList {
    type V = Seq<DeviceInfo>;

    closed spec fn view(&self) -> Seq<DeviceInfo> {
        self.devices@
    }
}

impl DeviceList {
    /// The list never holds two records with the same identifier.
    pub open spec fn wf(&self) -> bool {
        unique_ids(self@)
    }

    /// An empty list.
    pub fn new() -> (r: DeviceList)
        ensures
            r.wf(),
            r@ == Seq::<DeviceInfo>::empty(),
    {
        DeviceList { devices: Vec::new() }
    }

    /// How many records were kept.
    pub fn len(&self) -> (r: usize)
        ensures
            r == self@.len(),
    {
        self.devices.len()
    }

    /// Whether a record with this identifier was already kept.
    pub fn contains_id(&self, id: &String) -> (r: bool)
        ensures
            r == has_id(self@, id@),
    {
        let n = self.devices.len();
        let mut i: usize = 0;
        while i < n
            invariant
                n == self@.len(),
                0 <= i <= n,
                forall|k: int| 0 <= k < i ==> self@[k].id@ != id@,
            decreases n - i,
        {
            if self.devices[i].id == *id {
                assert(self@[i as int].id@ == id@);
                return true;
            }
            i += 1;
        }
        false
    }

    /// Keeps the record unless its identifier is already present; reports
    /// whether it was kept. An earlier record is never displaced.
    pub fn push_new(&mut self, dev: DeviceInfo) -> (added: bool)
        requires
            old(self).wf(),
        ensures
            final(self).wf(),
            final(self)@ == push_if_new(old(self)@, dev),
            added == !has_id(old(self)@, dev.id@),
    {
        if self.contains_id(&dev.id) {
            false
        } else {
            proof {
                let s = self@;
                assert forall|i: int, j: int|
                    0 <= i < j < s.push(dev).len() implies s.push(dev)[i].id@ != s.push(
                    dev,
                )[j].id@ by {
                    if j < s.len() {
                    } else {
                        assert(s.push(dev)[j] == dev);
                        if s.push(dev)[i].id@ == dev.id@ {
                            assert(has_id(s, dev.id@));
                        }
                    }
                }
            }
            self.devices.push(dev);
            true
        }
    }

    /// Hands the kept records out in the order they were accepted.
    pub fn into_vec(self) -> (r: Vec<DeviceInfo>)
        ensures
            r@ == self@,
    {
        self.devices
    }
}

/// Whether the scan loop should poll again: the wall-clock window is open and
/// the acceptance cap is not reached.
pub fn scan_should_continue(elapsed_ms: u64, accepted: usize) -> (r: bool)
    ensures
        r == (elapsed_ms < SCAN_TIMEOUT_MS && accepted < MAX_DEVICES),
{
    elapsed_ms < SCAN_TIMEOUT_MS && accepted < MAX_DEVICES
}

} // verus!
