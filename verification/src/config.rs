//! Socket builders: what a socket is to be made of (its type, identity,
//! addresses to bind and connect, subscription filters) and the ordered plan
//! of socket calls that makes it.
use vstd::prelude::*;

verus! {

/// The type of a socket.
#[derive(Clone, Copy, PartialEq, Eq, Structural, Debug)]
pub enum SocketType {
    Pair,
    Pub,
    Sub,
    Req,
    Rep,
    Dealer,
    Router,
    Pull,
    Push,
    Xpub,
    Xsub,
}

/// One call in the making of a socket.
pub enum SocketOp {
    /// Create the socket.
    Create(SocketType),
    /// Give it an identity.
    SetIdentity(Vec<u8>),
    /// Run the builder's customizer on it.
    Customize,
    /// Bind it to an address.
    Bind(String),
    /// Connect it to an address.
    Connect(String),
    /// Subscribe it to messages starting with a prefix.
    Subscribe(Vec<u8>),
}

/// The first step of building a socket of type `kind`: an optional identity
/// and a customizer `C` run on the new socket.
pub struct SocketBuilder<C> {
    kind: SocketType,
    identity: Option<Vec<u8>>,
    custom: C,
}

/// A socket's make-up once it has an address: binds, connects, identity and
/// customizer.
pub struct SockConfig<C> {
    pub kind: SocketType,
    pub bind: Vec<String>,
    pub connect: Vec<String>,
    pub identity: Option<Vec<u8>>,
    pub customize: C,
}

/// A subscriber socket's make-up: binds, connects, filters and identity.
pub struct SubConfig {
    pub bind: Vec<String>,
    pub connect: Vec<String>,
    pub filter: Vec<Vec<u8>>,
    pub identity: Option<Vec<u8>>,
}

/// A pair socket's make-up: one address, bound or connected, and identity.
pub struct PairConfig {
    addr: String,
    bind: bool,
    identity: Option<Vec<u8>>,
}

/// The identity call, if there is an identity.
pub open spec fn identity_ops(identity: Option<Vec<u8>>) -> Seq<SocketOp> {
    match identity {
        Some(i) => seq![SocketOp::SetIdentity(i)],
        None => Seq::empty(),
    }
}

/// A bind call for each address, in order.
pub open spec fn bind_ops(addrs: Seq<String>) -> Seq<SocketOp> {
    Seq::new(addrs.len(), |i: int| SocketOp::Bind(addrs[i]))
}

/// A connect call for each address, in order.
pub open spec fn connect_ops(addrs: Seq<String>) -> Seq<SocketOp> {
    Seq::new(addrs.len(), |i: int| SocketOp::Connect(addrs[i]))
}

/// A subscribe call for each filter, in order.
pub open spec fn subscribe_ops(filters: Seq<Vec<u8>>) -> Seq<SocketOp> {
    Seq::new(filters.len(), |i: int| SocketOp::Subscribe(filters[i]))
}

fn push_binds(ops: &mut Vec<SocketOp>, addrs: Vec<String>)
    ensures
        final(ops)@ == old(ops)@ + bind_ops(addrs@),
{
    let mut addrs = addrs;
    let ghost all = addrs@;
    let ghost start = ops@;
    let n = addrs.len();
    let mut taken: usize = 0;
    while addrs.len() > 0
        invariant
            n == all.len(),
            taken + addrs@.len() == all.len(),
            addrs@ == all.subrange(taken as int, all.len() as int),
            ops@ == start + bind_ops(all.subrange(0, taken as int)),
        decreases addrs@.len(),
    {
        let a = addrs.remove(0);
        ops.push(SocketOp::Bind(a));
        proof {
            assert(bind_ops(all.subrange(0, taken + 1)) =~= bind_ops(all.subrange(0, taken as int)).push(SocketOp::Bind(a)));
        }
        taken = taken + 1;
        assert(addrs@ =~= all.subrange(taken as int, all.len() as int));
    }
    assert(all.subrange(0, all.len() as int) =~= all);
}

fn push_connects(ops: &mut Vec<SocketOp>, addrs: Vec<String>)
    ensures
        final(ops)@ == old(ops)@ + connect_ops(addrs@),
{
    let mut addrs = addrs;
    let ghost all = addrs@;
    let ghost start = ops@;
    let n = addrs.len();
    let mut taken: usize = 0;
    while addrs.len() > 0
        invariant
            n == all.len(),
            taken + addrs@.len() == all.len(),
            addrs@ == all.subrange(taken as int, all.len() as int),
            ops@ == start + connect_ops(all.subrange(0, taken as int)),
        decreases addrs@.len(),
    {
        let a = addrs.remove(0);
        ops.push(SocketOp::Connect(a));
        proof {
            assert(connect_ops(all.subrange(0, taken + 1)) =~= connect_ops(all.subrange(0, taken as int)).push(SocketOp::Connect(a)));
        }
        taken = taken + 1;
        assert(addrs@ =~= all.subrange(taken as int, all.len() as int));
    }
    assert(all.subrange(0, all.len() as int) =~= all);
}

fn push_subscribes(ops: &mut Vec<SocketOp>, filters: Vec<Vec<u8>>)
    ensures
        final(ops)@ == old(ops)@ + subscribe_ops(filters@),
{
    let mut filters = filters;
    let ghost all = filters@;
    let ghost start = ops@;
    let n = filters.len();
    let mut taken: usize = 0;
    while filters.len() > 0
        invariant
            n == all.len(),
            taken + filters@.len() == all.len(),
            filters@ == all.subrange(taken as int, all.len() as int),
            ops@ == start + subscribe_ops(all.subrange(0, taken as int)),
        decreases filters@.len(),
    {
        let f = filters.remove(0);
        ops.push(SocketOp::Subscribe(f));
        proof {
            assert(subscribe_ops(all.subrange(0, taken + 1)) =~= subscribe_ops(all.subrange(0, taken as int)).push(SocketOp::Subscribe(f)));
        }
        taken = taken + 1;
        assert(filters@ =~= all.subrange(taken as int, all.len() as int));
    }
    assert(all.subrange(0, all.len() as int) =~= all);
}

fn push_identity(ops: &mut Vec<SocketOp>, identity: Option<Vec<u8>>)
    ensures
        final(ops)@ == old(ops)@ + identity_ops(identity),
{
    match identity {
        Some(i) => {
            ops.push(SocketOp::SetIdentity(i));
        },
        None => {
            assert(old(ops)@ + identity_ops(identity) =~= old(ops)@);
        },
    }
}

impl<C> SocketBuilder<C> {
    /// The type of socket being built.
    pub closed spec fn socket_type(&self) -> SocketType {
        self.kind
    }

    /// The identity given so far.
    pub closed spec fn given_identity(&self) -> Option<Vec<u8>> {
        self.identity
    }

    /// The customizer.
    pub closed spec fn customizer(&self) -> C {
        self.custom
    }

    /// Start building a socket of type `kind` with customizer `custom` (the
    /// builder's default customizer does nothing).
    pub fn new(kind: SocketType, custom: C) -> (b: Self)
        ensures
            b.socket_type() == kind,
            b.given_identity() is None,
            b.customizer() == custom,
    {
        SocketBuilder { kind, identity: None, custom }
    }

    /// Give the socket an identity.
    pub fn identity(self, identity: Vec<u8>) -> (b: Self)
        ensures
            b.socket_type() == self.socket_type(),
            b.given_identity() == Some(identity),
            b.customizer() == self.customizer(),
    {
        SocketBuilder { kind: self.kind, identity: Some(identity), custom: self.custom }
    }

    /// Replace the customizer.
    pub fn customize<D>(self, f: D) -> (b: SocketBuilder<D>)
        ensures
            b.socket_type() == self.socket_type(),
            b.given_identity() == self.given_identity(),
            b.customizer() == f,
    {
        SocketBuilder { kind: self.kind, identity: self.identity, custom: f }
    }

    /// Bind the socket to `addr`.
    pub fn bind(self, addr: String) -> (c: SockConfig<C>)
        ensures
            c.kind == self.socket_type(),
            c.bind@ == seq![addr],
            c.connect@ == Seq::<String>::empty(),
            c.identity == self.given_identity(),
            c.customizer() == self.customizer(),
    {
        let mut bind: Vec<String> = Vec::new();
        bind.push(addr);
        SockConfig { kind: self.kind, bind, connect: Vec::new(), identity: self.identity, customize: self.custom }
    }

    /// Connect the socket to `addr`.
    pub fn connect(self, addr: String) -> (c: SockConfig<C>)
        ensures
            c.kind == self.socket_type(),
            c.bind@ == Seq::<String>::empty(),
            c.connect@ == seq![addr],
            c.identity == self.given_identity(),
            c.customizer() == self.customizer(),
    {
        let mut connect: Vec<String> = Vec::new();
        connect.push(addr);
        SockConfig { kind: self.kind, bind: Vec::new(), connect, identity: self.identity, customize: self.custom }
    }
}

impl<C> SockConfig<C> {
    /// The customizer.
    pub closed spec fn customizer(&self) -> C {
        self.customize
    }

    /// Bind the socket to one more address (not for pair sockets).
    pub fn bind(self, addr: String) -> (c: Self)
        requires
            self.kind != SocketType::Pair,
        ensures
            c.kind == self.kind,
            c.bind@ == self.bind@.push(addr),
            c.connect@ == self.connect@,
            c.identity == self.identity,
            c.customizer() == self.customizer(),
    {
        let mut c = self;
        c.bind.push(addr);
        c
    }

    /// Connect the socket to one more address (not for pair sockets).
    pub fn connect(self, addr: String) -> (c: Self)
        requires
            self.kind != SocketType::Pair,
        ensures
            c.kind == self.kind,
            c.bind@ == self.bind@,
            c.connect@ == self.connect@.push(addr),
            c.identity == self.identity,
            c.customizer() == self.customizer(),
    {
        let mut c = self;
        c.connect.push(addr);
        c
    }

    /// The calls that make the socket, in order: create it, give it its
    /// identity if it has one, run the customizer, bind each address, then
    /// connect each address (not for pair sockets). The customizer is handed
    /// back with the plan.
    pub fn do_build(self) -> (r: (Vec<SocketOp>, C))
        requires
            self.kind != SocketType::Pair,
        ensures
            r.0@ == seq![SocketOp::Create(self.kind)] + identity_ops(self.identity) + seq![SocketOp::Customize]
                + bind_ops(self.bind@) + connect_ops(self.connect@),
            r.1 == self.customizer(),
    {
        let mut ops: Vec<SocketOp> = Vec::new();
        ops.push(SocketOp::Create(self.kind));
        push_identity(&mut ops, self.identity);
        ops.push(SocketOp::Customize);
        push_binds(&mut ops, self.bind);
        push_connects(&mut ops, self.connect);
        (ops, self.customize)
    }

    /// Turn a pair socket's make-up into a `PairConfig` with one address,
    /// bound or connected (only for pair sockets).
    pub fn pair(self, addr: String, bind: bool) -> (p: PairConfig)
        requires
            self.kind == SocketType::Pair,
        ensures
            p.address() == addr,
            p.binds() == bind,
            p.given_identity() == self.identity,
    {
        PairConfig { addr, bind, identity: self.identity }
    }

    /// Turn a subscriber socket's make-up into a `SubConfig` with one filter
    /// (only for subscriber sockets; the customizer is dropped).
    pub fn filter(self, pattern: Vec<u8>) -> (s: SubConfig)
        requires
            self.kind == SocketType::Sub,
        ensures
            s.bind@ == self.bind@,
            s.connect@ == self.connect@,
            s.filter@ == seq![pattern],
            s.identity == self.identity,
    {
        let mut filter: Vec<Vec<u8>> = Vec::new();
        filter.push(pattern);
        SubConfig { bind: self.bind, connect: self.connect, filter, identity: self.identity }
    }
}

impl SubConfig {
    /// Subscribe to one more prefix.
    pub fn filter(self, pattern: Vec<u8>) -> (s: SubConfig)
        ensures
            s.bind@ == self.bind@,
            s.connect@ == self.connect@,
            s.filter@ == self.filter@.push(pattern),
            s.identity == self.identity,
    {
        let mut s = self;
        s.filter.push(pattern);
        s
    }

    /// The calls that make the subscriber socket, in order: create it, give
    /// it its identity if it has one, bind each address, connect each
    /// address, then subscribe to each filter.
    pub fn do_build(self) -> (ops: Vec<SocketOp>)
        ensures
            ops@ == seq![SocketOp::Create(SocketType::Sub)] + identity_ops(self.identity) + bind_ops(self.bind@)
                + connect_ops(self.connect@) + subscribe_ops(self.filter@),
    {
        let mut ops: Vec<SocketOp> = Vec::new();
        ops.push(SocketOp::Create(SocketType::Sub));
        push_identity(&mut ops, self.identity);
        push_binds(&mut ops, self.bind);
        push_connects(&mut ops, self.connect);
        push_subscribes(&mut ops, self.filter);
        ops
    }
}

impl PairConfig {
    /// The address.
    pub closed spec fn address(&self) -> String {
        self.addr
    }

    /// Whether the address is bound (else connected).
    pub closed spec fn binds(&self) -> bool {
        self.bind
    }

    /// The identity, if any.
    pub closed spec fn given_identity(&self) -> Option<Vec<u8>> {
        self.identity
    }

    /// The calls that make the pair socket, in order: create it, give it its
    /// identity if it has one, then bind or connect its address.
    pub fn do_build(self) -> (ops: Vec<SocketOp>)
        ensures
            ops@ == seq![SocketOp::Create(SocketType::Pair)] + identity_ops(self.given_identity()) + if self.binds() {
                seq![SocketOp::Bind(self.address())]
            } else {
                seq![SocketOp::Connect(self.address())]
            },
    {
        let mut ops: Vec<SocketOp> = Vec::new();
        ops.push(SocketOp::Create(SocketType::Pair));
        push_identity(&mut ops, self.identity);
        if self.bind {
            ops.push(SocketOp::Bind(self.addr));
        } else {
            ops.push(SocketOp::Connect(self.addr));
        }
        ops
    }
}

/// How many calls an identity takes: one when there is an identity.
pub open spec fn identity_calls(identity: Option<Vec<u8>>) -> int {
    if identity is Some {
        1
    } else {
        0
    }
}

/// The identity part of a plan: one call giving the identity, when there
/// is one, and none otherwise.
pub proof fn law_identity_call(identity: Option<Vec<u8>>)
    ensures
        identity_ops(identity).len() == identity_calls(identity),
        identity matches Some(i) ==> identity_ops(identity)[0] == SocketOp::SetIdentity(i),
{
}

/// A non-pair socket's plan: it creates the socket first, gives it its
/// identity if it has one, runs the customizer, then binds every bind
/// address in order and connects every connect address in order: one call
/// per address, the `i`-th bind call binding the `i`-th bind address and
/// the `i`-th connect call connecting the `i`-th connect address, and
/// nothing else.
pub proof fn law_sock_config_plan(
    plan: Seq<SocketOp>,
    kind: SocketType,
    identity: Option<Vec<u8>>,
    binds: Seq<String>,
    connects: Seq<String>,
)
    requires
        plan == seq![SocketOp::Create(kind)] + identity_ops(identity) + seq![SocketOp::Customize] + bind_ops(binds)
            + connect_ops(connects),
    ensures
        plan.len() == 2 + identity_calls(identity) + binds.len() + connects.len(),
        plan[0] == SocketOp::Create(kind),
        identity matches Some(i) ==> plan[1] == SocketOp::SetIdentity(i),
        plan[1 + identity_calls(identity)] == SocketOp::Customize,
        forall|i: int| 0 <= i < binds.len() ==> plan[2 + identity_calls(identity) + i] == SocketOp::Bind(#[trigger] binds[i]),
        forall|i: int| 0 <= i < connects.len() ==> plan[2 + identity_calls(identity) + binds.len() + i]
            == SocketOp::Connect(#[trigger] connects[i]),
{
    let n = identity_calls(identity);
    assert forall|i: int| 0 <= i < binds.len() implies plan[2 + n + i] == SocketOp::Bind(#[trigger] binds[i]) by {
        assert(bind_ops(binds)[i] == SocketOp::Bind(binds[i]));
    }
    assert forall|i: int| 0 <= i < connects.len() implies plan[2 + n + binds.len() + i] == SocketOp::Connect(
        #[trigger] connects[i],
    ) by {
        assert(connect_ops(connects)[i] == SocketOp::Connect(connects[i]));
    }
}

/// A subscriber socket's plan: it creates the socket first, gives it its
/// identity if it has one, then binds every bind address, connects every
/// connect address and subscribes to every filter, each in order, one call
/// per address or filter, and nothing else.
pub proof fn law_sub_config_plan(
    plan: Seq<SocketOp>,
    identity: Option<Vec<u8>>,
    binds: Seq<String>,
    connects: Seq<String>,
    filters: Seq<Vec<u8>>,
)
    requires
        plan == seq![SocketOp::Create(SocketType::Sub)] + identity_ops(identity) + bind_ops(binds) + connect_ops(
            connects,
        ) + subscribe_ops(filters),
    ensures
        plan.len() == 1 + identity_calls(identity) + binds.len() + connects.len() + filters.len(),
        plan[0] == SocketOp::Create(SocketType::Sub),
        identity matches Some(i) ==> plan[1] == SocketOp::SetIdentity(i),
        forall|i: int| 0 <= i < binds.len() ==> plan[1 + identity_calls(identity) + i] == SocketOp::Bind(#[trigger] binds[i]),
        forall|i: int| 0 <= i < connects.len() ==> plan[1 + identity_calls(identity) + binds.len() + i]
            == SocketOp::Connect(#[trigger] connects[i]),
        forall|i: int| 0 <= i < filters.len() ==> plan[1 + identity_calls(identity) + binds.len() + connects.len() + i]
            == SocketOp::Subscribe(#[trigger] filters[i]),
{
    let n = identity_calls(identity);
    assert forall|i: int| 0 <= i < binds.len() implies plan[1 + n + i] == SocketOp::Bind(#[trigger] binds[i]) by {
        assert(bind_ops(binds)[i] == SocketOp::Bind(binds[i]));
    }
    assert forall|i: int| 0 <= i < connects.len() implies plan[1 + n + binds.len() + i] == SocketOp::Connect(
        #[trigger] connects[i],
    ) by {
        assert(connect_ops(connects)[i] == SocketOp::Connect(connects[i]));
    }
    assert forall|i: int| 0 <= i < filters.len() implies plan[1 + n + binds.len() + connects.len() + i]
        == SocketOp::Subscribe(#[trigger] filters[i]) by {
        assert(subscribe_ops(filters)[i] == SocketOp::Subscribe(filters[i]));
    }
}

} // verus!
