use vstd::prelude::*;

verus! {

/// Whether the client has a connection to the server.
#[derive(Clone, Copy, Debug, PartialEq, Eq, Structural)]
pub enum LinkState {
    /// There is none: the next request opens one.
    Down,
    /// There is one, and the token has been sent over it.
    Up,
}

/// What the driver is to do for a request, in this order.
#[derive(Clone, Copy, Debug, PartialEq, Eq)]
pub enum LinkAction {
    /// Connect to the server and complete the handshake.
    Connect,
    /// Send the token's digest.
    Authenticate([u8; 32]),
    /// Send the request itself.
    Relay,
}

/// What a link action stands for.
pub enum LinkActionView {
    Connect,
    Authenticate(Seq<u8>),
    Relay,
}

impl View for LinkAction {
    type V = LinkActionView;

    open spec fn view(&self) -> LinkActionView {
        match *self {
            LinkAction::Connect => LinkActionView::Connect,
            LinkAction::Authenticate(token) => LinkActionView::Authenticate(token@),
            LinkAction::Relay => LinkActionView::Relay,
        }
    }
}

/// What a request asks of the driver: on a link that is down, to
/// connect and to authenticate first.
pub open spec fn plan(state: LinkState, token: Seq<u8>) -> Seq<LinkActionView> {
    match state {
        LinkState::Down => seq![
            LinkActionView::Connect,
            LinkActionView::Authenticate(token),
            LinkActionView::Relay,
        ],
        LinkState::Up => seq![LinkActionView::Relay],
    }
}

/// The client's view of its connection to the server: it is opened when
/// the first request needs it, authenticated once and before anything is
/// relayed, and opened anew after it was lost.
pub struct Link {
    state: LinkState,
    token: [u8; 32],
}

impl Link {
    /// Whether the link is up.
    pub closed spec fn state(&self) -> LinkState {
        self.state
    }

    /// The digest that authenticates the client.
    pub closed spec fn token(&self) -> Seq<u8> {
        self.token@
    }

    /// A link that is down.
    pub fn new(token: [u8; 32]) -> (link: Self)
        ensures
            link.state() == LinkState::Down,
            link.token() == token@,
    {
        Self { state: LinkState::Down, token }
    }

    /// Whether the link is up.
    pub fn is_up(&self) -> (up: bool)
        ensures
            up == (self.state() == LinkState::Up),
    {
        matches!(self.state, LinkState::Up)
    }

    /// A request is to be relayed: says what the driver is to do, and
    /// counts the link as up from now on.
    pub fn request(&mut self) -> (actions: Vec<LinkAction>)
        ensures
            actions@.map_values(|a: LinkAction| a@) == plan(old(self).state(), old(self).token()),
            final(self).state() == LinkState::Up,
            final(self).token() == old(self).token(),
    {
        let mut actions: Vec<LinkAction> = Vec::new();
        if matches!(self.state, LinkState::Down) {
            actions.push(LinkAction::Connect);
            actions.push(LinkAction::Authenticate(self.token));
        }
        actions.push(LinkAction::Relay);
        self.state = LinkState::Up;
        actions
    }

    /// The connection was lost, or could not be opened: the link is down.
    pub fn lost(&mut self)
        ensures
            final(self).state() == LinkState::Down,
            final(self).token() == old(self).token(),
    {
        self.state = LinkState::Down;
    }
}

} // verus!
