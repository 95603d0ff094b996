use std::collections::HashMap;
use vstd::prelude::*;
use crate::protocol::address::{Address, AddressView};
use crate::protocol::packet::{Packet, PacketView};
use crate::protocol::wire::push_all;

verus! {

broadcast use vstd::std_specs::hash::group_hash_axioms;

/// Why a fragment was not taken into the reassembly table.
#[derive(Clone, Copy, Debug, PartialEq, Eq, Structural)]
pub enum AssembleError {
    /// The fragment's index is not below the fragment count.
    InvalidFragmentId,
    /// The payload is not as long as the header announces.
    InvalidSize,
    /// A fragment other than the first carries an address.
    InvalidAddress,
    /// The fragment count differs from that of the fragments already held.
    FragmentTotalMismatch,
}

/// One packet under reassembly, as the contracts see it.
pub struct SlotView {
    /// Into how many fragments the packet was split.
    pub frag_total: u8,
    /// The address that fragment 0 brought, absent until it arrives.
    pub addr: AddressView,
    /// The payload of each fragment that has arrived, by index.
    pub frags: Seq<Option<Seq<u8>>>,
    /// When a fragment was last put in.
    pub touched: u64,
}

/// The payload that a fragment holds; nothing, where it has not arrived.
pub open spec fn held(f: Option<Seq<u8>>) -> Seq<u8> {
    match f {
        Some(bytes) => bytes,
        None => Seq::empty(),
    }
}

impl SlotView {
    /// A slot for `frag_total` fragments, none of which has arrived.
    pub open spec fn fresh(frag_total: u8, now: u64) -> SlotView {
        SlotView {
            frag_total,
            addr: AddressView::Absent,
            frags: Seq::new(frag_total as nat, |i: int| None),
            touched: now,
        }
    }

    /// The slot with fragment `frag_id` put in, in place of an earlier
    /// copy if there was one. Fragment 0 brings the address.
    pub open spec fn put(self, frag_id: u8, addr: AddressView, payload: Seq<u8>, now: u64) -> SlotView {
        SlotView {
            frag_total: self.frag_total,
            addr: if frag_id == 0 {
                addr
            } else {
                self.addr
            },
            frags: self.frags.update(frag_id as int, Some(payload)),
            touched: now,
        }
    }

    /// Whether every fragment has arrived.
    pub open spec fn complete(self) -> bool {
        forall|i: int| 0 <= i < self.frags.len() ==> (#[trigger] self.frags[i]) is Some
    }

    /// The fragments' payloads, glued together in the order of their index.
    pub open spec fn payload(self) -> Seq<u8> {
        self.frags.map_values(|f: Option<Seq<u8>>| held(f)).flatten()
    }

    /// What holds of every slot in the table: it has room for each of its
    /// fragments, and at least one is still missing.
    pub open spec fn wf(self) -> bool {
        self.frags.len() == self.frag_total && !self.complete()
    }
}

/// The reason for which the table refuses a fragment, if it does.
pub open spec fn rejects(table: Map<(u16, u16), SlotView>, h: PacketView, payload_len: nat) -> Option<
    AssembleError,
> {
    let key = (h.assoc_id, h.pkt_id);
    if h.frag_id >= h.frag_total {
        Some(AssembleError::InvalidFragmentId)
    } else if h.size != payload_len {
        Some(AssembleError::InvalidSize)
    } else if h.frag_id != 0 && h.addr != AddressView::Absent {
        Some(AssembleError::InvalidAddress)
    } else if table.contains_key(key) && table[key].frag_total != h.frag_total {
        Some(AssembleError::FragmentTotalMismatch)
    } else {
        None
    }
}

/// The packet's slot once the fragment is in: the slot that the table
/// held, or a fresh one, with the fragment put in.
pub open spec fn slot_after(
    table: Map<(u16, u16), SlotView>,
    h: PacketView,
    payload: Seq<u8>,
    now: u64,
) -> SlotView {
    let key = (h.assoc_id, h.pkt_id);
    let slot = if table.contains_key(key) {
        table[key]
    } else {
        SlotView::fresh(h.frag_total, now)
    };
    slot.put(h.frag_id, h.addr, payload, now)
}

/// The table once an accepted fragment is in: a slot that became complete
/// has left it, any other is kept.
pub open spec fn table_after(
    table: Map<(u16, u16), SlotView>,
    h: PacketView,
    payload: Seq<u8>,
    now: u64,
) -> Map<(u16, u16), SlotView> {
    let key = (h.assoc_id, h.pkt_id);
    let slot = slot_after(table, h, payload, now);
    if slot.complete() {
        table.remove(key)
    } else {
        table.insert(key, slot)
    }
}

/// What an accepted fragment completes: the whole payload and the address
/// of fragment 0, if it was the last one missing.
pub open spec fn completed(
    table: Map<(u16, u16), SlotView>,
    h: PacketView,
    payload: Seq<u8>,
    now: u64,
) -> Option<(Seq<u8>, AddressView)> {
    let slot = slot_after(table, h, payload, now);
    if slot.complete() {
        Some((slot.payload(), slot.addr))
    } else {
        None
    }
}

/// A reassembled packet as the contracts see it.
pub open spec fn packet_view(out: Option<(Vec<u8>, Address)>) -> Option<(Seq<u8>, AddressView)> {
    match out {
        Some((payload, addr)) => Some((payload@, addr@)),
        None => None,
    }
}

spec fn filled_count(frags: Seq<Option<Seq<u8>>>) -> nat
    decreases frags.len(),
{
    if frags.len() == 0 {
        0
    } else {
        filled_count(frags.drop_last()) + if frags.last() is Some {
            1nat
        } else {
            0nat
        }
    }
}

proof fn filled_count_bounds(frags: Seq<Option<Seq<u8>>>)
    ensures
        filled_count(frags) <= frags.len(),
        filled_count(frags) == frags.len() <==> forall|i: int|
            0 <= i < frags.len() ==> (#[trigger] frags[i]) is Some,
    decreases frags.len(),
{
    if frags.len() > 0 {
        let front = frags.drop_last();
        filled_count_bounds(front);
        if filled_count(frags) == frags.len() {
            assert forall|i: int| 0 <= i < frags.len() implies (#[trigger] frags[i]) is Some by {
                if i < front.len() {
                    assert(front[i] is Some);
                }
            }
        }
    }
}

proof fn filled_count_update(frags: Seq<Option<Seq<u8>>>, at: int, payload: Seq<u8>)
    requires
        0 <= at < frags.len(),
    ensures
        filled_count(frags.update(at, Some(payload))) == filled_count(frags) + if frags[at] is Some {
            0nat
        } else {
            1nat
        },
    decreases frags.len(),
{
    let after = frags.update(at, Some(payload));
    if at == frags.len() - 1 {
        assert(after.drop_last() =~= frags.drop_last());
    } else {
        filled_count_update(frags.drop_last(), at, payload);
        assert(after.drop_last() =~= frags.drop_last().update(at, Some(payload)));
    }
}

proof fn filled_count_fresh(n: nat)
    ensures
        filled_count(Seq::new(n, |i: int| None::<Seq<u8>>)) == 0,
    decreases n,
{
    if n > 0 {
        filled_count_fresh((n - 1) as nat);
        assert(Seq::new(n, |i: int| None::<Seq<u8>>).drop_last() =~= Seq::new(
            (n - 1) as nat,
            |i: int| None::<Seq<u8>>,
        ));
    }
}

struct Slot {
    frag_total: u8,
    addr: Address,
    frags: Vec<Option<Vec<u8>>>,
    filled: usize,
    touched: u64,
}

spec fn frag_view(f: Option<Vec<u8>>) -> Option<Seq<u8>> {
    match f {
        Some(bytes) => Some(bytes@),
        None => None,
    }
}

impl View for Slot {
    type V = SlotView;

    closed spec fn view(&self) -> SlotView {
        SlotView {
            frag_total: self.frag_total,
            addr: self.addr@,
            frags: self.frags@.map_values(|f: Option<Vec<u8>>| frag_view(f)),
            touched: self.touched,
        }
    }
}

impl Slot {
    spec fn counted(&self) -> bool {
        &&& self.frags@.len() == self.frag_total
        &&& self.filled == filled_count(self@.frags)
        &&& forall|i: int|
            0 <= i < self.frags@.len() ==> held(#[trigger] self@.frags[i]).len() <= u16::MAX
    }

    fn fresh(frag_total: u8, now: u64) -> (slot: Self)
        ensures
            slot.counted(),
            slot@ == SlotView::fresh(frag_total, now),
    {
        let mut frags: Vec<Option<Vec<u8>>> = Vec::with_capacity(frag_total as usize);
        let mut i: u8 = 0;
        while i < frag_total
            invariant
                i <= frag_total,
                frags@.len() == i,
                forall|j: int| 0 <= j < i ==> (#[trigger] frags@[j]) is None,
            decreases frag_total - i,
        {
            frags.push(None);
            i += 1;
        }
        let slot = Slot { frag_total, addr: Address::Absent, frags, filled: 0 , touched: now };
        proof {
            assert(slot@.frags =~= Seq::new(frag_total as nat, |i: int| None::<Seq<u8>>));
            filled_count_fresh(frag_total as nat);
        }
        slot
    }

    fn put(&mut self, frag_id: u8, addr: Address, payload: Vec<u8>, now: u64)
        requires
            old(self).counted(),
            frag_id < old(self).frag_total,
            payload@.len() <= u16::MAX,
        ensures
            final(self).counted(),
            final(self)@ == old(self)@.put(frag_id, addr@, payload@, now),
    {
        proof {
            filled_count_update(self@.frags, frag_id as int, payload@);
            filled_count_bounds(self@.frags);
        }
        let at = frag_id as usize;
        if self.frags[at].is_none() {
            self.filled = self.filled + 1;
        }
        self.frags[at] = Some(payload);
        if frag_id == 0 {
            self.addr = addr;
        }
        self.touched = now;
        assert(self@.frags =~= old(self)@.frags.update(frag_id as int, Some(payload@)));
    }

    fn is_complete(&self) -> (done: bool)
        requires
            self.counted(),
        ensures
            done == self@.complete(),
    {
        proof {
            filled_count_bounds(self@.frags);
        }
        self.filled == self.frag_total as usize
    }

    fn held_bytes(&self) -> (n: usize)
        requires
            self.counted(),
        ensures
            n == self@.payload().len(),
    {
        let ghost parts = self@.frags.map_values(|f: Option<Seq<u8>>| held(f));
        let mut n: usize = 0;
        let mut i: usize = 0;
        while i < self.frags.len()
            invariant
                self.counted(),
                i <= self.frags@.len(),
                parts == self@.frags.map_values(|f: Option<Seq<u8>>| held(f)),
                n == parts.take(i as int).flatten().len(),
                n <= i * u16::MAX,
            decreases self.frags@.len() - i,
        {
            proof {
                let before = parts.take(i as int);
                let after = parts.take(i + 1);
                assert(after.drop_last() =~= before);
                before.lemma_flatten_and_flatten_alt_are_equivalent();
                after.lemma_flatten_and_flatten_alt_are_equivalent();
                assert(held(self@.frags[i as int]).len() <= u16::MAX);
            }
            match &self.frags[i] {
                Some(bytes) => {
                    n = n + bytes.len();
                },
                None => {},
            }
            i += 1;
        }
        assert(parts.take(i as int) =~= parts);
        n
    }

    fn assemble(self) -> (out: (Vec<u8>, Address))
        requires
            self.counted(),
        ensures
            out.0@ == self@.payload(),
            out.1@ == self@.addr,
    {
        let ghost parts = self@.frags.map_values(|f: Option<Seq<u8>>| held(f));
        let mut payload: Vec<u8> = Vec::new();
        let mut i: usize = 0;
        while i < self.frags.len()
            invariant
                i <= self.frags@.len(),
                parts == self@.frags.map_values(|f: Option<Seq<u8>>| held(f)),
                payload@ == parts.take(i as int).flatten(),
            decreases self.frags@.len() - i,
        {
            proof {
                let before = parts.take(i as int);
                let after = parts.take(i + 1);
                assert(after.drop_last() =~= before);
                before.lemma_flatten_and_flatten_alt_are_equivalent();
                after.lemma_flatten_and_flatten_alt_are_equivalent();
            }
            match &self.frags[i] {
                Some(bytes) => {
                    push_all(&mut payload, bytes.as_slice());
                },
                None => {
                },
            }
            i += 1;
        }
        assert(parts.take(i as int) =~= parts);
        (payload, self.addr)
    }
}

/// The reassembly table of one connection: for each packet of which some
/// but not all fragments have arrived, what has arrived so far.
pub struct PacketBuffer {
    slots: HashMap<u16, HashMap<u16, Slot>>,
}

impl View for PacketBuffer {
    type V = Map<(u16, u16), SlotView>;

    /// The open slots, by association and packet number.
    closed spec fn view(&self) -> Map<(u16, u16), SlotView> {
        Map::new(
            |k: (u16, u16)| self.slots@.contains_key(k.0) && self.slots@[k.0]@.contains_key(k.1),
            |k: (u16, u16)| self.slots@[k.0]@[k.1]@,
        )
    }
}

impl PacketBuffer {
    /// The table's invariant: every slot in it is still open.
    pub closed spec fn wf(&self) -> bool {
        forall|a: u16, p: u16|
            self.slots@.contains_key(a) && (#[trigger] self.slots@[a]@.contains_key(p)) ==> {
                &&& self.slots@[a]@[p].counted()
                &&& self.slots@[a]@[p]@.wf()
            }
    }

    /// In a table that holds its invariant every slot is open.
    pub proof fn slots_are_open(&self, key: (u16, u16))
        requires
            self.wf(),
            self@.contains_key(key),
        ensures
            self@[key].wf(),
    {
    }

    /// An empty table.
    pub fn new() -> (buf: Self)
        ensures
            buf.wf(),
            buf@ == Map::<(u16, u16), SlotView>::empty(),
    {
        let buf = PacketBuffer { slots: HashMap::new() };
        buf
    }

    fn held_total(&self, assoc_id: u16, pkt_id: u16) -> (total: Option<u8>)
        requires
            self.wf(),
        ensures
            match total {
                Some(n) => self@.contains_key((assoc_id, pkt_id)) && self@[(
                    assoc_id,
                    pkt_id,
                )].frag_total == n,
                None => !self@.contains_key((assoc_id, pkt_id)),
            },
    {
        match self.slots.get(&assoc_id) {
            Some(packets) => match packets.get(&pkt_id) {
                Some(slot) => Some(slot.frag_total),
                None => None,
            },
            None => None,
        }
    }

    /// Takes in one fragment.
    ///
    /// A fragment that breaks the rules of fragmentation is refused and the
    /// table stays as it was. Any other goes into its packet's slot, where
    /// it takes the place of an earlier copy of itself. When that fills the
    /// slot, the slot leaves the table and the packet comes out: its
    /// fragments' payloads in the order of their index, and the address that
    /// fragment 0 brought.
    pub fn insert(&mut self, header: &Packet, payload: Vec<u8>, now: u64) -> (r: Result<
        Option<(Vec<u8>, Address)>,
        AssembleError,
    >)
        requires
            old(self).wf(),
        ensures
            final(self).wf(),
            match r {
                Ok(out) => {
                    &&& rejects(old(self)@, header@, payload@.len()) is None
                    &&& final(self)@ == table_after(old(self)@, header@, payload@, now)
                    &&& packet_view(out) == completed(old(self)@, header@, payload@, now)
                },
                Err(e) => {
                    &&& rejects(old(self)@, header@, payload@.len()) == Some(e)
                    &&& final(self)@ == old(self)@
                },
            },
    {
        let assoc_id = header.assoc_id();
        let pkt_id = header.pkt_id();
        let frag_total = header.frag_total();
        let frag_id = header.frag_id();
        if frag_id >= frag_total {
            return Err(AssembleError::InvalidFragmentId);
        }
        if header.size() as usize != payload.len() {
            return Err(AssembleError::InvalidSize);
        }
        if frag_id != 0 && !header.addr().is_absent() {
            return Err(AssembleError::InvalidAddress);
        }
        match self.held_total(assoc_id, pkt_id) {
            Some(total) => {
                if total != frag_total {
                    return Err(AssembleError::FragmentTotalMismatch);
                }
            },
            None => {},
        }
        let mut packets = match self.slots.remove(&assoc_id) {
            Some(packets) => packets,
            None => HashMap::new(),
        };
        let mut slot = match packets.remove(&pkt_id) {
            Some(slot) => slot,
            None => Slot::fresh(frag_total, now),
        };
        slot.put(frag_id, header.addr().clone(), payload, now);
        let out = if slot.is_complete() {
            Some(slot.assemble())
        } else {
            packets.insert(pkt_id, slot);
            None
        };
        self.slots.insert(assoc_id, packets);
        Ok(out)
    }

    /// Forgets every packet of the association `assoc_id`.
    pub fn drop_assoc(&mut self, assoc_id: u16)
        requires
            old(self).wf(),
        ensures
            final(self).wf(),
            final(self)@ == old(self)@.restrict(Set::new(|k: (u16, u16)| k.0 != assoc_id)),
    {
        self.slots.remove(&assoc_id);
    }

    /// Forgets every packet.
    pub fn clear(&mut self)
        requires
            old(self).wf(),
        ensures
            final(self).wf(),
            final(self)@ == Map::<(u16, u16), SlotView>::empty(),
    {
        self.slots.clear();
    }

    /// Whether some fragments of the packet `(assoc_id, pkt_id)` are held.
    pub fn contains(&self, assoc_id: u16, pkt_id: u16) -> (held: bool)
        requires
            self.wf(),
        ensures
            held == self@.contains_key((assoc_id, pkt_id)),
    {
        self.held_total(assoc_id, pkt_id).is_some()
    }

    /// How many bytes of the packet `(assoc_id, pkt_id)` are held, if any
    /// fragment of it is.
    pub fn held_bytes(&self, assoc_id: u16, pkt_id: u16) -> (bytes: Option<usize>)
        requires
            self.wf(),
        ensures
            match bytes {
                Some(n) => self@.contains_key((assoc_id, pkt_id)) && self@[(
                    assoc_id,
                    pkt_id,
                )].payload().len() == n,
                None => !self@.contains_key((assoc_id, pkt_id)),
            },
    {
        match self.slots.get(&assoc_id) {
            Some(packets) => match packets.get(&pkt_id) {
                Some(slot) => Some(slot.held_bytes()),
                None => None,
            },
            None => None,
        }
    }

    /// When a fragment of the packet `(assoc_id, pkt_id)` was last put in,
    /// if any is held.
    pub fn last_touched(&self, assoc_id: u16, pkt_id: u16) -> (at: Option<u64>)
        requires
            self.wf(),
        ensures
            match at {
                Some(t) => self@.contains_key((assoc_id, pkt_id)) && self@[(assoc_id, pkt_id)].touched
                    == t,
                None => !self@.contains_key((assoc_id, pkt_id)),
            },
    {
        match self.slots.get(&assoc_id) {
            Some(packets) => match packets.get(&pkt_id) {
                Some(slot) => Some(slot.touched),
                None => None,
            },
            None => None,
        }
    }

    /// Whether any packet of the association `assoc_id` is under
    /// reassembly.
    pub fn holds_assoc(&self, assoc_id: u16) -> (held: bool)
        requires
            self.wf(),
        ensures
            held == exists|pkt_id: u16| self@.contains_key((assoc_id, pkt_id)),
    {
        match self.slots.get(&assoc_id) {
            Some(packets) => {
                let empty = packets.is_empty();
                proof {
                    if !empty {
                        let pkt_id = choose|pkt_id: u16| packets@.contains_key(pkt_id);
                        assert(self@.contains_key((assoc_id, pkt_id)));
                    }
                }
                !empty
            },
            None => false,
        }
    }
}

} // verus!
