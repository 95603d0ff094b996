use std::collections::{HashMap, HashSet, VecDeque};
use vstd::prelude::*;
use crate::common::buf::{bytes_as_slice, bytes_len, contents};
use crate::common::incoming::{RawIncomingTask, TaskView};
use crate::common::packet::{
    completed,
    rejects,
    slot_after,
    table_after,
    PacketBuffer,
    SlotView,
};
use crate::common::token::tokens_match;
use crate::common::udp::{fragment_packet, fragmented, UdpRelayMode};
use crate::protocol::address::{Address, AddressView};
use crate::protocol::packet::{Packet, PacketView};
use crate::server::error::Error;

verus! {

broadcast use vstd::std_specs::hash::group_hash_axioms;

/// Where a connection stands in its life.
#[derive(Clone, Copy, Debug, PartialEq, Eq, Structural)]
pub enum State {
    /// The peer has not authenticated yet; its tasks are held back.
    Pending,
    /// The peer has authenticated; its tasks are carried out.
    Authenticated,
    /// The connection is on its way down and carries out nothing more.
    Closing,
    /// Every stream handler has finished and every UDP session is gone.
    Closed,
}

/// How far a closing connection has come.
#[derive(Clone, Copy, Debug, PartialEq, Eq, Structural)]
pub enum Drain {
    /// The connection is not closing.
    Open,
    /// Stream handlers or UDP sessions are left, and there is time to wait
    /// for them.
    Waiting,
    /// The time to wait is over: the driver closes the streams that are
    /// left with the code of `Error::Closed` and ends the sessions.
    Forced,
    /// Nothing is left: the connection is closed.
    Closed,
}

/// How far a connection in `state` has come on its way down, with
/// `live_streams` handlers at work, after `waited` of at most `grace`
/// milliseconds.
pub open spec fn drain_of(
    state: State,
    live_streams: nat,
    sessions_drained: bool,
    waited: u64,
    grace: u64,
) -> Drain {
    match state {
        State::Pending => Drain::Open,
        State::Authenticated => Drain::Open,
        State::Closed => Drain::Closed,
        State::Closing => if live_streams == 0 && sessions_drained {
            Drain::Closed
        } else if waited >= grace {
            Drain::Forced
        } else {
            Drain::Waiting
        },
    }
}

/// What the driver is to do for the connection. `H` is its handle on a
/// stream.
pub enum Action<H> {
    /// Open a TCP connection to the address and bridge it with the stream.
    Connect(Address, H),
    /// Read as many bytes of payload from the stream as the header
    /// announces, and hand both to `fragment`.
    ReadPayload(Packet, H),
    /// Send a reassembled packet to the address through the UDP session of
    /// the association, and answer in the mode that it came in.
    Forward { assoc_id: u16, payload: Vec<u8>, addr: Address, mode: UdpRelayMode },
    /// End the UDP session of the association.
    Dissociate(u16),
    /// Give up a task. Where a stream comes with it, close that stream
    /// with the error's code.
    Reject(Error, Option<H>),
    /// Close the connection with the error's code.
    Close(Error),
}

/// What an action stands for.
pub enum ActionView<H> {
    Connect(AddressView, H),
    ReadPayload(PacketView, H),
    Forward { assoc_id: u16, payload: Seq<u8>, addr: AddressView, mode: UdpRelayMode },
    Dissociate(u16),
    Reject(Error, Option<H>),
    Close(Error),
}

impl<H> View for Action<H> {
    type V = ActionView<H>;

    open spec fn view(&self) -> ActionView<H> {
        match *self {
            Action::Connect(addr, stream) => ActionView::Connect(addr@, stream),
            Action::ReadPayload(pkt, stream) => ActionView::ReadPayload(pkt@, stream),
            Action::Forward { assoc_id, payload, addr, mode } => ActionView::Forward {
                assoc_id,
                payload: payload@,
                addr: addr@,
                mode,
            },
            Action::Dissociate(assoc_id) => ActionView::Dissociate(assoc_id),
            Action::Reject(e, stream) => ActionView::Reject(e, stream),
            Action::Close(e) => ActionView::Close(e),
        }
    }
}

impl<H> ActionView<H> {
    /// Whether the action relays anything for the peer or changes what is
    /// relayed: everything but giving up a task and closing the connection.
    pub open spec fn relays(self) -> bool {
        !(self is Reject) && !(self is Close)
    }
}

/// What a list of actions stands for.
pub open spec fn action_views<H>(actions: Seq<Action<H>>) -> Seq<ActionView<H>> {
    actions.map_values(|a: Action<H>| a@)
}

/// One connection, as the contracts see it.
pub struct ConnectionView<H> {
    /// Where the connection stands.
    pub state: State,
    /// The digest of the token that the peer must present.
    pub token: Seq<u8>,
    /// How many tasks can be held back before authentication.
    pub capacity: nat,
    /// The largest UDP packet that is relayed, in bytes.
    pub max_packet_size: nat,
    /// Whether packets are relayed to IPv6 addresses.
    pub relay_ipv6: bool,
    /// The tasks held back, in the order of their arrival.
    pub held: Seq<TaskView<H>>,
    /// The reassembly table.
    pub table: Map<(u16, u16), SlotView>,
    /// The associations that the peer has ended.
    pub dissociated: Set<u16>,
    /// The mode in which each association sent its last fragment.
    pub modes: Map<u16, UdpRelayMode>,
    /// The number of the next packet that is sent back to each
    /// association that has been sent one.
    pub next_ids: Map<u16, u16>,
}

impl<H> ConnectionView<H> {
    /// The connection once it has begun to close: nothing is held back any
    /// longer, and nothing is under reassembly.
    pub open spec fn closing(self) -> Self {
        ConnectionView {
            state: State::Closing,
            held: Seq::empty(),
            table: Map::empty(),
            modes: Map::empty(),
            next_ids: Map::empty(),
            ..self
        }
    }

    /// What holds of a connection at all times: only a pending connection
    /// holds tasks back, and never more than it has room for; a connection
    /// that does no relaying has nothing under reassembly; and nothing is
    /// under reassembly for an association that has been ended.
    pub open spec fn inv(self) -> bool {
        &&& self.held.len() <= self.capacity
        &&& self.state != State::Pending ==> self.held.len() == 0
        &&& self.state != State::Authenticated ==> self.table == Map::<(u16, u16), SlotView>::empty()
        &&& self.state == State::Pending ==> self.dissociated == Set::<u16>::empty()
        &&& forall|k: (u16, u16)| #[trigger]
            self.table.contains_key(k) ==> !self.dissociated.contains(k.0)
    }
}

/// The largest frame that goes back to the peer over a stream.
pub const STREAM_FRAME_LIMIT: usize = 65535;

/// What one fragment with its payload does to an authenticated
/// connection. A fragment of an association that has been ended is given
/// up, and so is one that the reassembly table refuses. A fragment that
/// brings its packet over the size that the relay carries closes the
/// connection. Any other goes into the table and sets the mode in which
/// the association is answered, and the packet that it completes is
/// forwarded, unless it is bound for an IPv6 address and the relay does
/// not serve those.
pub open spec fn assemble<H>(
    c: ConnectionView<H>,
    header: PacketView,
    payload: Seq<u8>,
    mode: UdpRelayMode,
    now: u64,
) -> (ConnectionView<H>, Seq<ActionView<H>>) {
    if c.dissociated.contains(header.assoc_id) {
        (c, seq![ActionView::Reject(Error::Dissociated, None)])
    } else {
        match rejects(c.table, header, payload.len()) {
            Some(e) => (c, seq![ActionView::Reject(Error::Assemble(e), None)]),
            None => if slot_after(c.table, header, payload, now).payload().len()
                > c.max_packet_size {
                (c.closing(), seq![ActionView::Close(Error::OversizedReassembly)])
            } else {
                (
                    ConnectionView {
                        table: table_after(c.table, header, payload, now),
                        modes: c.modes.insert(header.assoc_id, mode),
                        ..c
                    },
                    match completed(c.table, header, payload, now) {
                        Some((whole, addr)) => if addr is Ipv6 && !c.relay_ipv6 {
                            seq![ActionView::Reject(Error::UdpRelayIpv6Disabled, None)]
                        } else {
                            seq![
                                ActionView::Forward {
                                    assoc_id: header.assoc_id,
                                    payload: whole,
                                    addr,
                                    mode,
                                },
                            ]
                        },
                        None => Seq::empty(),
                    },
                )
            },
        }
    }
}

/// Why a packet is not sent back to the association `assoc_id`, if it is
/// not: the connection does no relaying, the association has been ended,
/// or the packet is larger than the relay carries.
pub open spec fn reply_fault<H>(c: ConnectionView<H>, assoc_id: u16, len: nat) -> Option<Error> {
    if c.state != State::Authenticated {
        Some(Error::Closed)
    } else if c.dissociated.contains(assoc_id) {
        Some(Error::Dissociated)
    } else if len > c.max_packet_size {
        Some(Error::PacketTooLarge)
    } else {
        None
    }
}

/// The mode in which the association `assoc_id` is answered: the one in
/// which it sent its last fragment, or over streams if it sent none.
pub open spec fn reply_mode<H>(c: ConnectionView<H>, assoc_id: u16) -> UdpRelayMode {
    if c.modes.contains_key(assoc_id) {
        c.modes[assoc_id]
    } else {
        UdpRelayMode::Native
    }
}

/// The number of the next packet that is sent back to the association
/// `assoc_id`: they are counted from zero.
pub open spec fn reply_id<H>(c: ConnectionView<H>, assoc_id: u16) -> u16 {
    if c.next_ids.contains_key(assoc_id) {
        c.next_ids[assoc_id]
    } else {
        0
    }
}

/// The largest frame that goes back to the peer in `mode`: what the
/// transport takes as a datagram, which is nothing where it takes none,
/// or the limit for a stream.
pub open spec fn frame_limit(mode: UdpRelayMode, datagram_limit: Option<usize>) -> int {
    match mode {
        UdpRelayMode::Quic => match datagram_limit {
            Some(limit) => limit as int,
            None => 0,
        },
        UdpRelayMode::Native => STREAM_FRAME_LIMIT as int,
    }
}

/// What one task does to an authenticated connection.
pub open spec fn relay<H>(c: ConnectionView<H>, task: TaskView<H>, now: u64) -> (
    ConnectionView<H>,
    Seq<ActionView<H>>,
) {
    match task {
        TaskView::Authenticate(_) => (c.closing(), seq![ActionView::Close(Error::DuplicatedAuth)]),
        TaskView::Connect(addr, stream) => (c, seq![ActionView::Connect(addr, stream)]),
        TaskView::PacketFromDatagram(header, payload) => assemble(
            c,
            header,
            payload,
            UdpRelayMode::Quic,
            now,
        ),
        TaskView::PacketFromUniStream(header, stream) => if c.dissociated.contains(
            header.assoc_id,
        ) {
            (c, seq![ActionView::Reject(Error::Dissociated, Some(stream))])
        } else {
            (c, seq![ActionView::ReadPayload(header, stream)])
        },
        TaskView::Dissociate(assoc_id) => (
            ConnectionView {
                table: c.table.restrict(Set::new(|k: (u16, u16)| k.0 != assoc_id)),
                dissociated: c.dissociated.insert(assoc_id),
                modes: c.modes.remove(assoc_id),
                next_ids: c.next_ids.remove(assoc_id),
                ..c
            },
            seq![ActionView::Dissociate(assoc_id)],
        ),
        TaskView::Heartbeat => (c, Seq::empty()),
    }
}

/// What one task does to a connection that is past authentication: it is
/// carried out while the connection relays, and given up once the
/// connection closes.
pub open spec fn settle<H>(c: ConnectionView<H>, task: TaskView<H>, now: u64) -> (
    ConnectionView<H>,
    Seq<ActionView<H>>,
) {
    if c.state == State::Authenticated {
        relay(c, task, now)
    } else {
        (c, seq![ActionView::Reject(Error::Closed, task.stream())])
    }
}

/// What a run of tasks does, taken one after the other.
pub open spec fn settle_all<H>(c: ConnectionView<H>, tasks: Seq<TaskView<H>>, now: u64) -> (
    ConnectionView<H>,
    Seq<ActionView<H>>,
)
    decreases tasks.len(),
{
    if tasks.len() == 0 {
        (c, Seq::empty())
    } else {
        let (c1, first) = settle(c, tasks.first(), now);
        let (c2, more) = settle_all(c1, tasks.drop_first(), now);
        (c2, first + more)
    }
}

/// What one task does to a connection, whatever its state.
///
/// While the connection is pending, the right token authenticates it and
/// sets free the tasks held back, in the order of their arrival; a wrong
/// token closes it; any other task is held back, or given up where there
/// is no room left.
pub open spec fn step<H>(c: ConnectionView<H>, task: TaskView<H>, now: u64) -> (
    ConnectionView<H>,
    Seq<ActionView<H>>,
) {
    match c.state {
        State::Pending => match task {
            TaskView::Authenticate(token) => if token == c.token {
                settle_all(
                    ConnectionView { state: State::Authenticated, held: Seq::empty(), ..c },
                    c.held,
                    now,
                )
            } else {
                (c.closing(), seq![ActionView::Close(Error::AuthFailed)])
            },
            _ => if c.held.len() < c.capacity {
                (ConnectionView { held: c.held.push(task), ..c }, Seq::empty())
            } else {
                (c, seq![ActionView::Reject(Error::Backlog, task.stream())])
            },
        },
        _ => settle(c, task, now),
    }
}

/// Whether a list of actions relays nothing.
pub open spec fn relays_nothing<H>(actions: Seq<ActionView<H>>) -> bool {
    forall|i: int| 0 <= i < actions.len() ==> !(#[trigger] actions[i]).relays()
}

/// Whether an action serves the association `assoc_id`: forwards one of
/// its packets, or asks for the payload of one of its fragments.
pub open spec fn serves<H>(action: ActionView<H>, assoc_id: u16) -> bool {
    match action {
        ActionView::Forward { assoc_id: id, .. } => id == assoc_id,
        ActionView::ReadPayload(header, _) => header.assoc_id == assoc_id,
        _ => false,
    }
}

/// Whether the association `assoc_id` is ended for good: the peer has
/// ended it, and nothing of it is under reassembly.
pub open spec fn sealed<H>(c: ConnectionView<H>, assoc_id: u16) -> bool {
    &&& c.dissociated.contains(assoc_id)
    &&& forall|pkt_id: u16| !c.table.contains_key((assoc_id, pkt_id))
}

proof fn settle_all_keeps_invariant<H>(c: ConnectionView<H>, tasks: Seq<TaskView<H>>, now: u64)
    requires
        c.inv(),
        c.state != State::Pending,
    ensures
        settle_all(c, tasks, now).0.inv(),
        settle_all(c, tasks, now).0.state != State::Pending,
    decreases tasks.len(),
{
    if tasks.len() > 0 {
        settle_all_keeps_invariant(settle(c, tasks.first(), now).0, tasks.drop_first(), now);
    }
}

/// Whatever the peer sends, the connection keeps its invariant.
pub proof fn step_keeps_invariant<H>(c: ConnectionView<H>, task: TaskView<H>, now: u64)
    requires
        c.inv(),
    ensures
        step(c, task, now).0.inv(),
{
    if c.state == State::Pending {
        match task {
            TaskView::Authenticate(token) => {
                if token == c.token {
                    let opened = ConnectionView {
                        state: State::Authenticated,
                        held: Seq::empty(),
                        ..c
                    };
                    settle_all_keeps_invariant(opened, c.held, now);
                }
            },
            _ => {},
        }
    }
}

/// A fragment that comes with its payload keeps the invariant too.
pub proof fn fragment_keeps_invariant<H>(
    c: ConnectionView<H>,
    header: PacketView,
    payload: Seq<u8>,
    mode: UdpRelayMode,
    now: u64,
)
    requires
        c.inv(),
        c.state == State::Authenticated,
    ensures
        assemble(c, header, payload, mode, now).0.inv(),
{
}

/// Nothing is relayed before authentication: while the connection is
/// pending, a task other than the right token is held back or given up,
/// and a wrong token closes the connection. Nor is anything relayed once
/// the connection closes.
pub proof fn relay_needs_authentication<H>(c: ConnectionView<H>, task: TaskView<H>, now: u64)
    requires
        c.inv(),
        c.state != State::Authenticated,
        !(c.state == State::Pending && task == TaskView::<H>::Authenticate(c.token)),
    ensures
        relays_nothing(step(c, task, now).1),
        step(c, task, now).0.state != State::Authenticated,
        step(c, task, now).0.table == c.table,
{
}

/// The connection becomes authenticated in one way only: while pending,
/// by the right token.
pub proof fn authentication_needs_token<H>(c: ConnectionView<H>, task: TaskView<H>, now: u64)
    requires
        c.inv(),
        c.state != State::Authenticated,
        step(c, task, now).0.state == State::Authenticated,
    ensures
        c.state == State::Pending,
        task == TaskView::<H>::Authenticate(c.token),
{
}

/// A second authentication closes the connection, whatever token it
/// brings, and what was under reassembly is gone.
pub proof fn second_authentication_closes<H>(c: ConnectionView<H>, token: Seq<u8>, now: u64)
    requires
        c.state == State::Authenticated,
    ensures
        step(c, TaskView::<H>::Authenticate(token), now) == (
            c.closing(),
            seq![ActionView::<H>::Close(Error::DuplicatedAuth)],
        ),
{
}

/// Ending an association seals it: it counts as ended, and nothing of it
/// is left under reassembly.
pub proof fn dissociate_seals<H>(c: ConnectionView<H>, assoc_id: u16, now: u64)
    requires
        c.state == State::Authenticated,
    ensures
        sealed(step(c, TaskView::<H>::Dissociate(assoc_id), now).0, assoc_id),
        step(c, TaskView::<H>::Dissociate(assoc_id), now).1 == seq![
            ActionView::<H>::Dissociate(assoc_id),
        ],
{
}

/// Nor does any run of later tasks do anything for a sealed association.
pub proof fn sealed_outlasts_tasks<H>(
    c: ConnectionView<H>,
    tasks: Seq<TaskView<H>>,
    now: u64,
    assoc_id: u16,
)
    requires
        sealed(c, assoc_id),
    ensures
        sealed(settle_all(c, tasks, now).0, assoc_id),
        forall|i: int|
            0 <= i < settle_all(c, tasks, now).1.len() ==> !serves(
                #[trigger] settle_all(c, tasks, now).1[i],
                assoc_id,
            ),
    decreases tasks.len(),
{
    if tasks.len() > 0 {
        let (c1, first) = settle(c, tasks.first(), now);
        sealed_outlasts_tasks(c1, tasks.drop_first(), now, assoc_id);
    }
}

/// A sealed association stays sealed, and nothing is done for it any
/// more: whatever task comes later, none of its packets is forwarded, no
/// payload is asked for, and nothing of it goes under reassembly.
pub proof fn sealed_is_final<H>(c: ConnectionView<H>, task: TaskView<H>, now: u64, assoc_id: u16)
    requires
        c.inv(),
        sealed(c, assoc_id),
    ensures
        sealed(step(c, task, now).0, assoc_id),
        forall|i: int|
            0 <= i < step(c, task, now).1.len() ==> !serves(
                #[trigger] step(c, task, now).1[i],
                assoc_id,
            ),
{
}

/// A late fragment of a sealed association is given up, whatever payload
/// comes with it, and the connection stays as it was.
pub proof fn late_fragment_is_discarded<H>(
    c: ConnectionView<H>,
    header: PacketView,
    payload: Seq<u8>,
    mode: UdpRelayMode,
    now: u64,
)
    requires
        sealed(c, header.assoc_id),
    ensures
        assemble(c, header, payload, mode, now) == (
            c,
            seq![ActionView::<H>::Reject(Error::Dissociated, None)],
        ),
{
}

/// A fragment of another association leaves a sealed one sealed.
pub proof fn fragment_leaves_sealed<H>(
    c: ConnectionView<H>,
    header: PacketView,
    payload: Seq<u8>,
    mode: UdpRelayMode,
    now: u64,
    assoc_id: u16,
)
    requires
        sealed(c, assoc_id),
    ensures
        sealed(assemble(c, header, payload, mode, now).0, assoc_id),
        forall|i: int|
            0 <= i < assemble(c, header, payload, mode, now).1.len() ==> !serves(
                #[trigger] assemble(c, header, payload, mode, now).1[i],
                assoc_id,
            ),
{
}

/// The rules of one relay connection, on the server's side: which tasks
/// of the peer are carried out, when, and what the driver is to do for
/// them.
pub struct Connection<H> {
    state: State,
    token: [u8; 32],
    capacity: usize,
    max_packet_size: usize,
    relay_ipv6: bool,
    held: VecDeque<RawIncomingTask<H>>,
    buffer: PacketBuffer,
    dissociated: HashSet<u16>,
    modes: HashMap<u16, UdpRelayMode>,
    next_ids: HashMap<u16, u16>,
}

impl<H> View for Connection<H> {
    type V = ConnectionView<H>;

    closed spec fn view(&self) -> ConnectionView<H> {
        ConnectionView {
            state: self.state,
            token: self.token@,
            capacity: self.capacity as nat,
            max_packet_size: self.max_packet_size as nat,
            relay_ipv6: self.relay_ipv6,
            held: self.held@.map_values(|t: RawIncomingTask<H>| t@),
            table: self.buffer@,
            dissociated: self.dissociated@,
            modes: self.modes@,
            next_ids: self.next_ids@,
        }
    }
}

impl<H> Connection<H> {
    /// The connection's invariant.
    pub closed spec fn wf(&self) -> bool {
        &&& self.buffer.wf()
        &&& self@.inv()
    }

    /// In a connection that holds its invariant, what the contracts see
    /// holds theirs.
    pub proof fn view_holds_invariant(&self)
        requires
            self.wf(),
        ensures
            self@.inv(),
    {
    }

    /// A pending connection whose peer must present `token`, with room to
    /// hold back `capacity` tasks until it does, which relays UDP packets
    /// of at most `max_packet_size` bytes, to IPv6 addresses only where
    /// `relay_ipv6` is set.
    pub fn new(token: [u8; 32], capacity: usize, max_packet_size: usize, relay_ipv6: bool) -> (c:
        Self)
        ensures
            c.wf(),
            c@ == (ConnectionView::<H> {
                state: State::Pending,
                token: token@,
                capacity: capacity as nat,
                max_packet_size: max_packet_size as nat,
                relay_ipv6,
                held: Seq::empty(),
                table: Map::empty(),
                dissociated: Set::empty(),
                modes: Map::empty(),
                next_ids: Map::empty(),
            }),
    {
        let c = Connection {
            state: State::Pending,
            token,
            capacity,
            max_packet_size,
            relay_ipv6,
            held: VecDeque::new(),
            buffer: PacketBuffer::new(),
            dissociated: HashSet::new(),
            modes: HashMap::new(),
            next_ids: HashMap::new(),
        };
        assert(c@.held =~= Seq::<TaskView<H>>::empty());
        c
    }

    /// Where the connection stands.
    pub fn state(&self) -> (s: State)
        ensures
            s == self@.state,
    {
        self.state
    }

    /// Whether the peer has ended the association `assoc_id`.
    pub fn is_dissociated(&self, assoc_id: u16) -> (ended: bool)
        ensures
            ended == self@.dissociated.contains(assoc_id),
    {
        self.dissociated.contains(&assoc_id)
    }

    /// Whether any packet of the association `assoc_id` is under
    /// reassembly.
    pub fn holds_fragments_of(&self, assoc_id: u16) -> (held: bool)
        requires
            self.wf(),
        ensures
            held == exists|pkt_id: u16| self@.table.contains_key((assoc_id, pkt_id)),
    {
        self.buffer.holds_assoc(assoc_id)
    }

    fn begin_close(&mut self)
        requires
            old(self).wf(),
        ensures
            final(self).wf(),
            final(self)@ == old(self)@.closing(),
    {
        self.state = State::Closing;
        self.held.clear();
        self.buffer.clear();
        self.modes.clear();
        self.next_ids.clear();
        assert(self@.held =~= Seq::<TaskView<H>>::empty());
    }

    /// Takes in one fragment of an association together with its payload:
    /// what the driver calls once it has read the payload that a
    /// `ReadPayload` action asked for. `mode` says how the fragment came.
    pub fn fragment(&mut self, header: &Packet, payload: Vec<u8>, mode: UdpRelayMode, now: u64) -> (actions:
        Vec<Action<H>>)
        requires
            old(self).wf(),
        ensures
            final(self).wf(),
            (final(self)@, action_views(actions@)) == if old(self)@.state == State::Authenticated {
                assemble(old(self)@, header@, payload@, mode, now)
            } else {
                (old(self)@, seq![ActionView::Reject(Error::Closed, None)])
            },
    {
        let mut actions: Vec<Action<H>> = Vec::new();
        if !matches!(self.state, State::Authenticated) {
            actions.push(Action::Reject(Error::Closed, None));
            return actions;
        }
        let assoc_id = header.assoc_id();
        if self.dissociated.contains(&assoc_id) {
            actions.push(Action::Reject(Error::Dissociated, None));
            return actions;
        }
        match self.buffer.insert(header, payload, now) {
            Err(e) => {
                actions.push(Action::Reject(Error::Assemble(e), None));
            },
            Ok(None) => {
                let held = match self.buffer.held_bytes(assoc_id, header.pkt_id()) {
                    Some(held) => held,
                    None => 0,
                };
                if held > self.max_packet_size {
                    self.begin_close();
                    actions.push(Action::Close(Error::OversizedReassembly));
                } else {
                    self.modes.insert(assoc_id, mode);
                }
            },
            Ok(Some((whole, addr))) => {
                if whole.len() > self.max_packet_size {
                    self.begin_close();
                    actions.push(Action::Close(Error::OversizedReassembly));
                } else {
                    self.modes.insert(assoc_id, mode);
                    if addr.is_ipv6() && !self.relay_ipv6 {
                        actions.push(Action::Reject(Error::UdpRelayIpv6Disabled, None));
                    } else {
                        actions.push(Action::Forward { assoc_id, payload: whole, addr, mode });
                    }
                }
            },
        }
        actions
    }

    /// Makes ready a packet that goes back to the association `assoc_id`
    /// from `addr`: says in which mode to send it, and cuts it into the
    /// frames to send. `datagram_limit` is the largest datagram that the
    /// transport takes, if it takes any.
    ///
    /// The packet is given up where the connection does no relaying,
    /// where the association has been ended, and where the packet is
    /// larger than the relay carries. Any other packet takes the next
    /// number of its association, whether or not it can be cut to fit.
    pub fn reply(
        &mut self,
        assoc_id: u16,
        payload: bytes::Bytes,
        addr: &Address,
        datagram_limit: Option<usize>,
    ) -> (r: Result<(UdpRelayMode, Vec<(Packet, bytes::Bytes)>), Error>)
        requires
            old(self).wf(),
            addr@.wf(),
        ensures
            final(self).wf(),
            match reply_fault(old(self)@, assoc_id, contents(payload).len()) {
                Some(e) => r matches Err(fault) && fault == e && final(self)@ == old(self)@,
                None => {
                    let mode = reply_mode(old(self)@, assoc_id);
                    let id = reply_id(old(self)@, assoc_id);
                    let limit = frame_limit(mode, datagram_limit);
                    &&& final(self)@ == ConnectionView {
                        next_ids: old(self)@.next_ids.insert(
                            assoc_id,
                            if id == u16::MAX {
                                0u16
                            } else {
                                (id + 1) as u16
                            },
                        ),
                        ..old(self)@
                    }
                    &&& match r {
                        Ok((sent_in, parts)) => sent_in == mode && fragmented(
                            Ok(parts),
                            assoc_id,
                            id,
                            contents(payload),
                            addr@,
                            limit,
                        ),
                        Err(Error::Fragment(e)) => fragmented(
                            Err(e),
                            assoc_id,
                            id,
                            contents(payload),
                            addr@,
                            limit,
                        ),
                        Err(_) => false,
                    }
                },
            },
    {
        if !matches!(self.state, State::Authenticated) {
            return Err(Error::Closed);
        }
        if self.dissociated.contains(&assoc_id) {
            return Err(Error::Dissociated);
        }
        if bytes_len(&payload) > self.max_packet_size {
            return Err(Error::PacketTooLarge);
        }
        let mode = match self.modes.get(&assoc_id) {
            Some(mode) => *mode,
            None => UdpRelayMode::Native,
        };
        let id = match self.next_ids.get(&assoc_id) {
            Some(id) => *id,
            None => 0,
        };
        let next = if id == u16::MAX {
            0
        } else {
            id + 1
        };
        self.next_ids.insert(assoc_id, next);
        let limit = match mode {
            UdpRelayMode::Quic => match datagram_limit {
                Some(limit) => limit,
                None => 0,
            },
            UdpRelayMode::Native => STREAM_FRAME_LIMIT,
        };
        match fragment_packet(assoc_id, id, payload, addr, limit) {
            Ok(parts) => Ok((mode, parts)),
            Err(e) => Err(Error::Fragment(e)),
        }
    }

    fn relay(&mut self, task: RawIncomingTask<H>, now: u64) -> (actions: Vec<Action<H>>)
        requires
            old(self).wf(),
        ensures
            final(self).wf(),
            (final(self)@, action_views(actions@)) == settle(old(self)@, task@, now),
    {
        let mut actions: Vec<Action<H>> = Vec::new();
        if !matches!(self.state, State::Authenticated) {
            let stream = task.into_stream();
            actions.push(Action::Reject(Error::Closed, stream));
            return actions;
        }
        match task {
            RawIncomingTask::Authenticate(_) => {
                self.begin_close();
                actions.push(Action::Close(Error::DuplicatedAuth));
            },
            RawIncomingTask::Connect(addr, stream) => {
                actions.push(Action::Connect(addr, stream));
            },
            RawIncomingTask::PacketFromDatagram(header, payload) => {
                let bytes = vstd::slice::slice_to_vec(bytes_as_slice(&payload));
                return self.fragment(&header, bytes, UdpRelayMode::Quic, now);
            },
            RawIncomingTask::PacketFromUniStream(header, stream) => {
                if self.dissociated.contains(&header.assoc_id()) {
                    actions.push(Action::Reject(Error::Dissociated, Some(stream)));
                } else {
                    actions.push(Action::ReadPayload(header, stream));
                }
            },
            RawIncomingTask::Dissociate(assoc_id) => {
                self.buffer.drop_assoc(assoc_id);
                self.dissociated.insert(assoc_id);
                self.modes.remove(&assoc_id);
                self.next_ids.remove(&assoc_id);
                actions.push(Action::Dissociate(assoc_id));
            },
            RawIncomingTask::Heartbeat => {
            },
        }
        actions
    }

    /// Takes in one task of the peer and says what the driver is to do.
    pub fn handle(&mut self, task: RawIncomingTask<H>, now: u64) -> (actions: Vec<Action<H>>)
        requires
            old(self).wf(),
        ensures
            final(self).wf(),
            (final(self)@, action_views(actions@)) == step(old(self)@, task@, now),
    {
        if !matches!(self.state, State::Pending) {
            return self.relay(task, now);
        }
        match task {
            RawIncomingTask::Authenticate(token) => {
                if tokens_match(&token, &self.token) {
                    self.release(now)
                } else {
                    self.begin_close();
                    let mut actions: Vec<Action<H>> = Vec::new();
                    actions.push(Action::Close(Error::AuthFailed));
                    actions
                }
            },
            task => {
                let mut actions: Vec<Action<H>> = Vec::new();
                if self.held.len() < self.capacity {
                    self.held.push_back(task);
                    assert(self@.held =~= old(self)@.held.push(task@));
                } else {
                    let stream = task.into_stream();
                    actions.push(Action::Reject(Error::Backlog, stream));
                }
                actions
            },
        }
    }

    fn release(&mut self, now: u64) -> (actions: Vec<Action<H>>)
        requires
            old(self).wf(),
            old(self)@.state == State::Pending,
        ensures
            final(self).wf(),
            (final(self)@, action_views(actions@)) == settle_all(
                ConnectionView { state: State::Authenticated, held: Seq::empty(), ..old(self)@ },
                old(self)@.held,
                now,
            ),
    {
        let mut queue: VecDeque<RawIncomingTask<H>> = VecDeque::new();
        std::mem::swap(&mut queue, &mut self.held);
        self.state = State::Authenticated;
        let mut actions: Vec<Action<H>> = Vec::new();
        let ghost start = self@;
        let ghost tasks = queue@.map_values(|t: RawIncomingTask<H>| t@);
        assert(self@.held =~= Seq::<TaskView<H>>::empty());
        while queue.len() > 0
            invariant
                self.wf(),
                settle_all(start, tasks, now) == ({
                    let (c, more) = settle_all(
                        self@,
                        queue@.map_values(|t: RawIncomingTask<H>| t@),
                        now,
                    );
                    (c, action_views(actions@) + more)
                }),
            decreases queue@.len(),
        {
            let ghost left = queue@.map_values(|t: RawIncomingTask<H>| t@);
            let task = match queue.pop_front() {
                Some(task) => task,
                None => {
                    assert(false);
                    return actions;
                },
            };
            assert(queue@.map_values(|t: RawIncomingTask<H>| t@) =~= left.drop_first());
            let mut more = self.relay(task, now);
            actions.append(&mut more);
        }
        actions
    }

    /// The peer did not authenticate in time: a pending connection closes
    /// as after a wrong token. At any later time nothing happens.
    pub fn auth_timeout(&mut self) -> (actions: Vec<Action<H>>)
        requires
            old(self).wf(),
        ensures
            final(self).wf(),
            (final(self)@, action_views(actions@)) == if old(self)@.state == State::Pending {
                (old(self)@.closing(), seq![ActionView::<H>::Close(Error::AuthFailed)])
            } else {
                (old(self)@, Seq::<ActionView<H>>::empty())
            },
    {
        let mut actions: Vec<Action<H>> = Vec::new();
        if matches!(self.state, State::Pending) {
            self.begin_close();
            actions.push(Action::Close(Error::AuthFailed));
        }
        actions
    }

    /// The peer closed the connection, the relay shuts down, or an error
    /// proved fatal: a connection that is up begins to close. A connection
    /// that is closing or closed stays as it is.
    pub fn close(&mut self)
        requires
            old(self).wf(),
        ensures
            final(self).wf(),
            final(self)@ == if old(self)@.state == State::Pending || old(self)@.state
                == State::Authenticated {
                old(self)@.closing()
            } else {
                old(self)@
            },
    {
        if matches!(self.state, State::Pending) || matches!(self.state, State::Authenticated) {
            self.begin_close();
        }
    }

    /// Says how far a closing connection has come. It is closed once no
    /// stream handler is at work any more and no UDP session is left.
    /// Until then the driver waits, and once it has waited for `grace`
    /// milliseconds it closes what is left by force and asks again.
    pub fn finish(&mut self, live_streams: usize, sessions_drained: bool, waited: u64, grace: u64) -> (drain:
        Drain)
        requires
            old(self).wf(),
        ensures
            final(self).wf(),
            drain == drain_of(old(self)@.state, live_streams as nat, sessions_drained, waited, grace),
            final(self)@ == if drain == Drain::Closed {
                ConnectionView { state: State::Closed, ..old(self)@ }
            } else {
                old(self)@
            },
    {
        match self.state {
            State::Pending => Drain::Open,
            State::Authenticated => Drain::Open,
            State::Closed => Drain::Closed,
            State::Closing => {
                if live_streams == 0 && sessions_drained {
                    self.state = State::Closed;
                    Drain::Closed
                } else if waited >= grace {
                    Drain::Forced
                } else {
                    Drain::Waiting
                }
            },
        }
    }
}

} // verus!
