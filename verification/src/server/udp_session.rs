use std::collections::HashMap;
use vstd::prelude::*;

verus! {

broadcast use vstd::std_specs::hash::group_hash_axioms;

/// The UDP sessions of one connection, by association. `S` is the driver's
/// handle on a session: what it sends a packet through, and what it drops
/// to end the session.
pub struct UdpSessionMap<S> {
    map: HashMap<u16, S>,
}

impl<S> View for UdpSessionMap<S> {
    type V = Map<u16, S>;

    /// The session of each association that has one.
    closed spec fn view(&self) -> Map<u16, S> {
        self.map@
    }
}

impl<S> UdpSessionMap<S> {
    /// A map without sessions.
    pub fn new() -> (sessions: Self)
        ensures
            sessions@ == Map::<u16, S>::empty(),
    {
        Self { map: HashMap::new() }
    }

    /// The session through which a packet of the association `assoc_id` is
    /// to be sent. Where there is none yet, the driver opens one, hands it
    /// to `open` and sends through it.
    pub fn send(&self, assoc_id: u16) -> (session: Option<&S>)
        ensures
            match session {
                Some(s) => self@.contains_key(assoc_id) && *s == self@[assoc_id],
                None => !self@.contains_key(assoc_id),
            },
    {
        self.map.get(&assoc_id)
    }

    /// Records the session that was opened for the association `assoc_id`,
    /// and hands back the one that it replaces, if any.
    pub fn open(&mut self, assoc_id: u16, session: S) -> (replaced: Option<S>)
        ensures
            final(self)@ == old(self)@.insert(assoc_id, session),
            match replaced {
                Some(s) => old(self)@.contains_key(assoc_id) && s == old(self)@[assoc_id],
                None => !old(self)@.contains_key(assoc_id),
            },
    {
        self.map.insert(assoc_id, session)
    }

    /// Ends the association `assoc_id`: its session leaves the map and is
    /// handed to the caller, who drops it.
    pub fn dissociate(&mut self, assoc_id: u16) -> (session: Option<S>)
        ensures
            final(self)@ == old(self)@.remove(assoc_id),
            match session {
                Some(s) => old(self)@.contains_key(assoc_id) && s == old(self)@[assoc_id],
                None => !old(self)@.contains_key(assoc_id),
            },
    {
        self.map.remove(&assoc_id)
    }

    /// Ends every association.
    pub fn clear(&mut self)
        ensures
            final(self)@ == Map::<u16, S>::empty(),
    {
        self.map.clear();
    }

    /// Whether no association has a session.
    pub fn is_drained(&self) -> (drained: bool)
        ensures
            drained == (self@ == Map::<u16, S>::empty()),
    {
        let empty = self.map.is_empty();
        proof {
            if empty {
                assert(self@ =~= Map::<u16, S>::empty());
            }
        }
        empty
    }
}

} // verus!
