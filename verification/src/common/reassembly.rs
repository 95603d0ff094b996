//! What holds of the fragment splitter and the reassembly table together.

use vstd::prelude::*;
use crate::common::packet::{
    completed,
    held,
    rejects,
    slot_after,
    table_after,
    SlotView,
};
use crate::common::udp::{
    first_capacity,
    headers,
    rest_capacity,
    split,
    split_flatten,
    HEADER_LEN,
    MAX_FRAGMENTS,
    MAX_FRAGMENT_SIZE,
};
use crate::protocol::address::AddressView;
use crate::protocol::packet::PacketView;

verus! {

/// The table after the fragments of one packet have arrived as `arrivals`
/// tells: each entry names a fragment by its index and gives the time of
/// its arrival. A fragment may be named more than once.
pub open spec fn feed(
    table: Map<(u16, u16), SlotView>,
    hs: Seq<PacketView>,
    frags: Seq<Seq<u8>>,
    arrivals: Seq<(int, u64)>,
) -> Map<(u16, u16), SlotView>
    decreases arrivals.len(),
{
    if arrivals.len() == 0 {
        table
    } else {
        let (i, now) = arrivals.last();
        table_after(feed(table, hs, frags, arrivals.drop_last()), hs[i], frags[i], now)
    }
}

/// Whether fragment `i` is among the arrivals.
pub open spec fn arrived(arrivals: Seq<(int, u64)>, i: int) -> bool {
    exists|k: int| 0 <= k < arrivals.len() && (#[trigger] arrivals[k]).0 == i
}

/// Whether each of the `n` fragments is among the arrivals.
pub open spec fn all_arrived(arrivals: Seq<(int, u64)>, n: int) -> bool {
    forall|i: int| 0 <= i < n ==> #[trigger] arrived(arrivals, i)
}

/// Whether the fragments `frags` can be announced by headers: there are
/// at most 255 of them, and none holds more than 65535 bytes.
pub open spec fn announceable(frags: Seq<Seq<u8>>) -> bool {
    &&& frags.len() <= MAX_FRAGMENTS
    &&& forall|i: int| 0 <= i < frags.len() ==> (#[trigger] frags[i]).len() <= MAX_FRAGMENT_SIZE
}

spec fn partial(addr: AddressView, frags: Seq<Seq<u8>>, arrivals: Seq<(int, u64)>) -> SlotView {
    SlotView {
        frag_total: frags.len() as u8,
        addr: if arrived(arrivals, 0) {
            addr
        } else {
            AddressView::Absent
        },
        frags: Seq::new(
            frags.len(),
            |i: int|
                if arrived(arrivals, i) {
                    Some(frags[i])
                } else {
                    None
                },
        ),
        touched: arrivals.last().1,
    }
}

proof fn arrived_grows(arrivals: Seq<(int, u64)>, k: int, i: int)
    requires
        0 <= k <= arrivals.len(),
        arrived(arrivals.take(k), i),
    ensures
        arrived(arrivals, i),
{
}

proof fn arrived_step(arrivals: Seq<(int, u64)>, i: int)
    requires
        arrivals.len() >= 1,
    ensures
        arrived(arrivals, i) <==> arrived(arrivals.drop_last(), i) || arrivals.last().0 == i,
{
    let front = arrivals.drop_last();
    if arrived(arrivals, i) {
        let j = choose|j: int| 0 <= j < arrivals.len() && (#[trigger] arrivals[j]).0 == i;
        if j < front.len() {
            assert(front[j].0 == i);
        }
    }
}

proof fn partial_is_complete_iff(addr: AddressView, frags: Seq<Seq<u8>>, arrivals: Seq<(int, u64)>)
    ensures
        partial(addr, frags, arrivals).complete() <==> all_arrived(arrivals, frags.len() as int),
{
    let slot = partial(addr, frags, arrivals);
    if slot.complete() {
        assert forall|i: int| 0 <= i < frags.len() implies #[trigger] arrived(arrivals, i) by {
            assert(slot.frags[i] is Some);
        }
    }
}

proof fn feed_step(
    table: Map<(u16, u16), SlotView>,
    assoc_id: u16,
    pkt_id: u16,
    addr: AddressView,
    frags: Seq<Seq<u8>>,
    arrivals: Seq<(int, u64)>,
)
    requires
        announceable(frags),
        !table.contains_key((assoc_id, pkt_id)),
        arrivals.len() >= 1,
        forall|k: int| 0 <= k < arrivals.len() ==> 0 <= (#[trigger] arrivals[k]).0 < frags.len(),
        !all_arrived(arrivals.drop_last(), frags.len() as int),
    ensures
        ({
            let hs = headers(assoc_id, pkt_id, addr, frags);
            let before = feed(table, hs, frags, arrivals.drop_last());
            let (i, now) = arrivals.last();
            &&& before == if arrivals.len() == 1 {
                table
            } else {
                table.insert((assoc_id, pkt_id), partial(addr, frags, arrivals.drop_last()))
            }
            &&& rejects(before, hs[i], frags[i].len()) is None
            &&& slot_after(before, hs[i], frags[i], now) == partial(addr, frags, arrivals)
        }),
    decreases arrivals.len(),
{
    let hs = headers(assoc_id, pkt_id, addr, frags);
    let front = arrivals.drop_last();
    let before = feed(table, hs, frags, front);
    let (i, now) = arrivals.last();
    if front.len() >= 1 {
        if all_arrived(front.drop_last(), frags.len() as int) {
            assert forall|j: int| 0 <= j < frags.len() implies #[trigger] arrived(front, j) by {
                arrived_step(front, j);
            }
        }
        feed_step(table, assoc_id, pkt_id, addr, frags, front);
        partial_is_complete_iff(addr, frags, front);
    }
    let got = slot_after(before, hs[i], frags[i], now);
    let want = partial(addr, frags, arrivals);
    assert forall|j: int| 0 <= j < frags.len() implies #[trigger] got.frags[j] == want.frags[j] by {
        arrived_step(arrivals, j);
    }
    assert(got.frags =~= want.frags);
    arrived_step(arrivals, 0);
}

/// Reassembly does not depend on the order of arrival, and copies do no
/// harm.
///
/// A payload `p` for `addr` is cut into fragments that headers can
/// announce, and the fragments arrive in any order, some perhaps more
/// than once, at a table that holds nothing of the packet. Then every
/// arrival is accepted, none before the one that brings the last missing
/// fragment lets a packet out, that one lets out `p` and `addr`, and the
/// table is left as it was found.
pub proof fn reassembly_restores_packet(
    table: Map<(u16, u16), SlotView>,
    assoc_id: u16,
    pkt_id: u16,
    addr: AddressView,
    p: Seq<u8>,
    cap: int,
    rest: int,
    arrivals: Seq<(int, u64)>,
)
    requires
        cap >= 1,
        rest >= 1,
        announceable(split(p, cap, rest)),
        !table.contains_key((assoc_id, pkt_id)),
        arrivals.len() >= 1,
        forall|k: int|
            0 <= k < arrivals.len() ==> 0 <= (#[trigger] arrivals[k]).0 < split(p, cap, rest).len(),
        !all_arrived(arrivals.drop_last(), split(p, cap, rest).len() as int),
        all_arrived(arrivals, split(p, cap, rest).len() as int),
    ensures
        ({
            let frags = split(p, cap, rest);
            let hs = headers(assoc_id, pkt_id, addr, frags);
            &&& forall|k: int|
                0 <= k < arrivals.len() ==> {
                    let before = feed(table, hs, frags, arrivals.take(k));
                    let (i, now) = #[trigger] arrivals[k];
                    &&& rejects(before, hs[i], frags[i].len()) is None
                    &&& completed(before, hs[i], frags[i], now) == if k == arrivals.len() - 1 {
                        Some((p, addr))
                    } else {
                        None
                    }
                }
            &&& feed(table, hs, frags, arrivals) == table
        }),
{
    let frags = split(p, cap, rest);
    let n = frags.len() as int;
    let hs = headers(assoc_id, pkt_id, addr, frags);
    assert forall|k: int| 0 <= k < arrivals.len() implies ({
        let before = feed(table, hs, frags, arrivals.take(k));
        let (i, now) = #[trigger] arrivals[k];
        &&& rejects(before, hs[i], frags[i].len()) is None
        &&& completed(before, hs[i], frags[i], now) == if k == arrivals.len() - 1 {
            Some((p, addr))
        } else {
            None
        }
    }) by {
        let upto = arrivals.take(k + 1);
        assert(upto.drop_last() =~= arrivals.take(k));
        if all_arrived(arrivals.take(k), n) {
            assert forall|j: int| 0 <= j < n implies #[trigger] arrived(arrivals.drop_last(), j) by {
                assert(arrivals.take(k) =~= arrivals.drop_last().take(k));
                arrived_grows(arrivals.drop_last(), k, j);
            }
        }
        feed_step(table, assoc_id, pkt_id, addr, frags, upto);
        partial_is_complete_iff(addr, frags, upto);
        if k == arrivals.len() - 1 {
            assert(upto =~= arrivals);
            let slot = partial(addr, frags, arrivals);
            assert(slot.frags.map_values(|f: Option<Seq<u8>>| held(f)) =~= frags);
            split_flatten(p, cap, rest);
        } else {
            assert(upto =~= arrivals.drop_last().take(k + 1));
            if all_arrived(upto, n) {
                assert forall|j: int| 0 <= j < n implies #[trigger] arrived(
                    arrivals.drop_last(),
                    j,
                ) by {
                    arrived_grows(arrivals.drop_last(), k + 1, j);
                }
            }
        }
    }
    feed_step(table, assoc_id, pkt_id, addr, frags, arrivals);
}

/// Fragmentation loses nothing.
///
/// A payload `p` for `addr` is cut for datagrams of at most `max` bytes,
/// which have room for the header, the address and one byte of payload.
/// If headers can announce the fragments, then whatever the order in
/// which they arrive, reassembly gives back `p` and `addr`, once, with the
/// arrival of the last fragment that was missing.
pub proof fn split_then_reassemble(
    table: Map<(u16, u16), SlotView>,
    assoc_id: u16,
    pkt_id: u16,
    addr: AddressView,
    p: Seq<u8>,
    max: int,
    arrivals: Seq<(int, u64)>,
)
    requires
        addr.wf(),
        max >= HEADER_LEN + addr.wire_len() + 1,
        announceable(split(p, first_capacity(max, addr.wire_len()), rest_capacity(max))),
        !table.contains_key((assoc_id, pkt_id)),
        arrivals.len() >= 1,
        forall|k: int|
            0 <= k < arrivals.len() ==> 0 <= (#[trigger] arrivals[k]).0 < split(
                p,
                first_capacity(max, addr.wire_len()),
                rest_capacity(max),
            ).len(),
        !all_arrived(
            arrivals.drop_last(),
            split(p, first_capacity(max, addr.wire_len()), rest_capacity(max)).len() as int,
        ),
        all_arrived(
            arrivals,
            split(p, first_capacity(max, addr.wire_len()), rest_capacity(max)).len() as int,
        ),
    ensures
        ({
            let frags = split(p, first_capacity(max, addr.wire_len()), rest_capacity(max));
            let hs = headers(assoc_id, pkt_id, addr, frags);
            let last = arrivals.last();
            &&& frags.flatten() == p
            &&& completed(
                feed(table, hs, frags, arrivals.drop_last()),
                hs[last.0],
                frags[last.0],
                last.1,
            ) == Some((p, addr))
            &&& forall|k: int|
                0 <= k < arrivals.len() - 1 ==> completed(
                    feed(table, hs, frags, arrivals.take(k)),
                    hs[(#[trigger] arrivals[k]).0],
                    frags[arrivals[k].0],
                    arrivals[k].1,
                ) is None
            &&& feed(table, hs, frags, arrivals) == table
        }),
{
    let first = first_capacity(max, addr.wire_len());
    let rest = rest_capacity(max);
    reassembly_restores_packet(table, assoc_id, pkt_id, addr, p, first, rest, arrivals);
    split_flatten(p, first, rest);
}

/// A copy of a fragment that is already held changes nothing but the time
/// of the last arrival, and lets no packet out.
///
/// Of a packet that has a single fragment nothing is ever held, so this
/// says nothing of it: each copy of that fragment is a whole packet.
pub proof fn held_fragment_is_replaced(
    table: Map<(u16, u16), SlotView>,
    h: PacketView,
    payload: Seq<u8>,
    first: u64,
    again: u64,
)
    requires
        rejects(table, h, payload.len()) is None,
        table.contains_key((h.assoc_id, h.pkt_id)) ==> table[(h.assoc_id, h.pkt_id)].frags.len()
            == h.frag_total,
        completed(table, h, payload, first) is None,
    ensures
        ({
            let once = table_after(table, h, payload, first);
            &&& rejects(once, h, payload.len()) is None
            &&& completed(once, h, payload, again) is None
            &&& table_after(once, h, payload, again) == table_after(table, h, payload, again)
        }),
{
    let once = table_after(table, h, payload, first);
    let slot1 = slot_after(table, h, payload, first);
    let slot2 = slot_after(once, h, payload, again);
    assert(slot2.frags =~= slot1.frags);
}

/// After an association is dropped the table holds nothing of it, and what
/// it holds of the others is untouched.
pub proof fn dropped_assoc_leaves_nothing(table: Map<(u16, u16), SlotView>, assoc_id: u16)
    ensures
        ({
            let after = table.restrict(Set::new(|k: (u16, u16)| k.0 != assoc_id));
            &&& forall|pkt_id: u16| !after.contains_key((assoc_id, pkt_id))
            &&& forall|k: (u16, u16)|
                k.0 != assoc_id ==> after.contains_key(k) == table.contains_key(k) && (
                table.contains_key(k) ==> after[k] == table[k])
        }),
{
}

} // verus!
