//! The reactor core: the keyed session collection and the per-tick protocol
//! (dispatch readiness events, drain each ready listener to would-block,
//! then materialize every queued connection into a session).

use vstd::prelude::*;

use std::collections::HashMap;

use crate::http::{
    HttpListener, HttpProxy, HttpSession, default_session, has_listener_token,
    lemma_listener_index_is, listener_index,
};
use crate::net::{NetEnv, SocketAddress};

verus! {

broadcast use vstd::std_specs::hash::group_hash_axioms;

/// What can go wrong while constructing the reactor.
#[derive(Debug, PartialEq, Eq, Structural)]
pub enum ServerError {
    /// The OS-level poller could not be created.
    CreatePoll,
}

/// The token of a listening socket, as carried through the accept path.
#[derive(Copy, Clone, Debug, PartialEq, Eq, PartialOrd, Ord, Hash, Structural)]
pub struct ListenToken(pub usize);

/// The session standing for one listening socket in the session collection.
#[derive(Debug)]
pub struct ListenSession {}

/// One entry of the session collection: listening sockets and accepted
/// connections share the token namespace, told apart by this closed union.
#[derive(Debug)]
pub enum SessionHandle {
    Listen(ListenSession),
    Http(HttpSession),
}

/// The keyed collection of all live session handles, from token to handle.
/// Insertion overwrites unconditionally and no removal path exists: sessions
/// and listeners are never evicted by this core.
pub struct SessionManager {
    sessions: HashMap<usize, SessionHandle>,
}

impl View for SessionManager {
    type V = Map<usize, SessionHandle>;

    closed spec fn view(&self) -> Map<usize, SessionHandle> {
        self.sessions@
    }
}

impl SessionManager {
    /// An empty collection.
    pub fn new() -> (r: SessionManager)
        ensures
            r@ == Map::<usize, SessionHandle>::empty(),
    {
        SessionManager { sessions: HashMap::new() }
    }

    /// Inserts `handle` under `token`, overwriting any prior entry. The
    /// collection grows by one entry exactly when the token was absent.
    pub fn insert(&mut self, token: usize, handle: SessionHandle)
        ensures
            final(self)@ == old(self)@.insert(token, handle),
            final(self)@.len() == old(self)@.len() + (if old(self)@.contains_key(token) {
                0int
            } else {
                1
            }),
    {
        proof {
            broadcast use vstd::map::group_map_axioms;
            broadcast use vstd::set::group_set_axioms;

            vstd::map::axiom_map_insert_domain(old(self)@, token, handle);
            vstd::set::axiom_set_insert_len(old(self)@.dom(), token);
        }
        self.sessions.insert(token, handle);
    }

    /// Whether a handle is present under `token`.
    pub fn contains(&self, token: usize) -> (r: bool)
        ensures
            r == self@.contains_key(token),
    {
        self.sessions.contains_key(&token)
    }

    /// The handle under `token`, when one is present.
    pub fn get(&self, token: usize) -> (r: Option<&SessionHandle>)
        ensures
            match r {
                Some(h) => self@.contains_key(token) && *h == self@[token],
                None => !self@.contains_key(token),
            },
    {
        self.sessions.get(&token)
    }

    /// How many handles the collection holds.
    pub fn len(&self) -> (r: usize)
        ensures
            r == self@.len(),
    {
        self.sessions.len()
    }
}

/// The accept backlog length of one listener's socket (zero while inert).
pub open spec fn pending_count(l: HttpListener) -> nat {
    match l.socket {
        Some(s) => s.pending@.len(),
        None => 0,
    }
}

/// The total number of connections the kernel holds ready across all
/// listeners.
pub open spec fn total_pending(ls: Seq<HttpListener>) -> nat
    decreases ls.len(),
{
    if ls.len() == 0 {
        0
    } else {
        pending_count(ls[0]) + total_pending(ls.drop_first())
    }
}

proof fn lemma_total_pending_update(ls: Seq<HttpListener>, i: int, l2: HttpListener)
    requires
        0 <= i < ls.len(),
    ensures
        total_pending(ls.update(i, l2)) == total_pending(ls) - pending_count(ls[i]) + pending_count(
            l2,
        ),
    decreases ls.len(),
{
    if i == 0 {
        assert(ls.update(0, l2).drop_first() =~= ls.drop_first());
    } else {
        assert(ls.update(i, l2).drop_first() =~= ls.drop_first().update(i - 1, l2));
        lemma_total_pending_update(ls.drop_first(), i - 1, l2);
    }
}

/// The accept backlog length of the listener keyed by `t` (zero when no
/// listener holds `t`, or when it was never activated).
pub open spec fn backlog_of(ls: Seq<HttpListener>, t: usize) -> nat {
    if has_listener_token(ls, t) {
        pending_count(ls[listener_index(ls, t)])
    } else {
        0
    }
}

/// The sessions created by draining `k` queued connections starting from
/// allocator value `c`: one default session per fresh token `c`, `c + 1`, ...
pub open spec fn sessions_created(c: int, k: int) -> Map<usize, SessionHandle> {
    Map::new(
        |t: usize| c <= t < c + k,
        |t: usize| SessionHandle::Http(default_session(t)),
    )
}

/// The reactor: owns the registry (and through it all shared state) and the
/// transient pending-accept queue that decouples readiness-driven accepting
/// from session construction within one tick.
pub struct Server {
    pub http: HttpProxy,
    /// Drained FIFO: connections accepted during dispatch wait here, paired
    /// with their originating listener token, until the tick materializes
    /// them. FIFO draining is a deliberate choice, for fairness across
    /// competing accept bursts.
    pub accept_queue: Vec<(usize, ListenToken)>,
}

impl Server {
    /// Well-formedness: the registry is well-formed and every queued
    /// connection names a listener that exists.
    pub open spec fn wf(self) -> bool {
        &&& self.http.wf()
        &&& forall|k: int| 0 <= k < self.accept_queue@.len() ==> has_listener_token(
            self.http.listeners@,
            (#[trigger] self.accept_queue@[k]).1.0,
        )
    }

    /// The effect of one full accept-drain on the listener keyed by `t`,
    /// relating the reactor state before (`pre`) and after (`post`):
    /// an unknown or inert listener changes nothing; an active one has its
    /// whole backlog moved onto the pending queue in arrival order, with
    /// exactly one accept call per connection plus the final one that
    /// reported would-block — after which no further call is made.
    pub open spec fn drain_effect(pre: Server, post: Server, t: ListenToken) -> bool {
        &&& post.http.sessions == pre.http.sessions
        &&& post.http.token_counter == pre.http.token_counter
        &&& !has_listener_token(pre.http.listeners@, t.0) ==> post == pre
        &&& has_listener_token(pre.http.listeners@, t.0) ==> {
            let i = listener_index(pre.http.listeners@, t.0);
            let l = pre.http.listeners@[i];
            &&& post.http.listeners@.len() == pre.http.listeners@.len()
            &&& forall|j: int|
                0 <= j < pre.http.listeners@.len() && j != i
                    ==> post.http.listeners@[j] == pre.http.listeners@[j]
            &&& post.http.listeners@[i].address == l.address
            &&& post.http.listeners@[i].token == l.token
            &&& l.socket is None ==> post.http.listeners@ == pre.http.listeners@
                && post.accept_queue@ == pre.accept_queue@
            &&& l.socket matches Some(s) ==> {
                &&& post.http.listeners@[i].socket matches Some(s2)
                &&& s2.pending@.len() == 0
                &&& s2.accepts@ == s.accepts@ + s.pending@.len() + 1
                &&& post.accept_queue@ == pre.accept_queue@ + s.pending@.map_values(
                    |c: usize| (c, t),
                )
            }
        }
    }

    /// The listener layout (how many listeners there are, and each one's
    /// token and address) relating two reactor states: everything a tick may
    /// change is confined to the sockets and the collections.
    pub open spec fn layout_preserved(pre: Server, post: Server) -> bool {
        &&& post.http.listeners@.len() == pre.http.listeners@.len()
        &&& forall|j: int|
            0 <= j < pre.http.listeners@.len() ==> (#[trigger] post.http.listeners@[j]).token
                == pre.http.listeners@[j].token && post.http.listeners@[j].address
                == pre.http.listeners@[j].address
    }

    /// Constructs the reactor core: one fresh allocator, an empty session
    /// collection, and the fixed listener added and activated. The listen
    /// token (the first the allocator issues) is entered into the session
    /// collection as a listen session before the listener is registered, and
    /// exactly one bind attempt is made. Activation failure is tolerated at
    /// construction: the listener then stays inert, exactly as when the OS
    /// rejects the bind at startup.
    pub fn new(env: &mut NetEnv) -> (r: Result<Server, ServerError>)
        ensures
            final(env).bind_calls@ == old(env).bind_calls@ + 1,
            final(env).bind_fail == old(env).bind_fail,
            final(env).register_fail == old(env).register_fail,
            final(env).nodelay_fail == old(env).nodelay_fail,
            r matches Ok(s) && {
                &&& s.wf()
                &&& s.accept_queue@.len() == 0
                &&& s.http.token_counter.counter == 1
                &&& s.http.sessions@ == Map::<usize, SessionHandle>::empty().insert(
                    0usize,
                    SessionHandle::Listen(ListenSession {}),
                )
                &&& s.http.listeners@.len() == 1
                &&& s.http.listeners@[0].token == 0
                &&& s.http.listeners@[0].address == (SocketAddress {
                    a: 127,
                    b: 0,
                    c: 0,
                    d: 0,
                    port: 8080,
                })
                &&& !old(env).bind_fail && !old(env).register_fail ==> (
                s.http.listeners@[0].socket matches Some(sk) && sk.pending@.len() == 0)
                &&& old(env).bind_fail || old(env).register_fail ==> s.http.listeners@[0].socket
                    is None
            },
    {
        let mut server = Server { http: HttpProxy::new(), accept_queue: Vec::new() };
        server.add_listeners(env);
        Ok(server)
    }

    /// Installs the fixed listener: allocates its token, enters it into the
    /// session collection as a listen session, adds the listener for the
    /// configured address, and attempts to activate it.
    fn add_listeners(&mut self, env: &mut NetEnv)
        requires
            old(self).wf(),
            old(self).http.listeners@.len() == 0,
            old(self).http.token_counter.counter < usize::MAX,
        ensures
            final(self).wf(),
            final(self).accept_queue == old(self).accept_queue,
            final(env).bind_calls@ == old(env).bind_calls@ + 1,
            final(env).bind_fail == old(env).bind_fail,
            final(env).register_fail == old(env).register_fail,
            final(env).nodelay_fail == old(env).nodelay_fail,
            ({
                let t = old(self).http.token_counter.counter;
                &&& final(self).http.token_counter.counter == t + 1
                &&& final(self).http.sessions@ == old(self).http.sessions@.insert(
                    t,
                    SessionHandle::Listen(ListenSession {}),
                )
                &&& final(self).http.listeners@.len() == 1
                &&& final(self).http.listeners@[0].token == t
                &&& final(self).http.listeners@[0].address == (SocketAddress {
                    a: 127,
                    b: 0,
                    c: 0,
                    d: 0,
                    port: 8080,
                })
                &&& !old(env).bind_fail && !old(env).register_fail ==> (
                final(self).http.listeners@[0].socket matches Some(sk) && sk.pending@.len() == 0)
                &&& old(env).bind_fail || old(env).register_fail ==> final(self).http.listeners@[0].socket is None
            }),
    {
        let token = self.http.token_counter.next();
        self.http.sessions.insert(token, SessionHandle::Listen(ListenSession {}));
        self.http.add_listener(token);
        let addr = SocketAddress::loopback_8080();
        let _ = self.http.activate_listener(&addr, env);
    }

    /// Dispatches one readiness event. Only an event whose token resolves to
    /// a listen session and which reports readability starts an accept-drain;
    /// every other event — an unknown token, a data session's readiness, a
    /// non-readable event — is ignored.
    pub fn ready(&mut self, token: usize, readable: bool)
        requires
            old(self).wf(),
        ensures
            final(self).wf(),
            Server::layout_preserved(*old(self), *final(self)),
            final(self).http.sessions == old(self).http.sessions,
            final(self).http.token_counter == old(self).http.token_counter,
            final(self).accept_queue@.len() + total_pending(final(self).http.listeners@) == old(self).accept_queue@.len() + total_pending(old(self).http.listeners@),
            (old(self).http.sessions@.contains_key(token) && old(self).http.sessions@[token]
                is Listen && readable) ==> Server::drain_effect(
                *old(self),
                *final(self),
                ListenToken(token),
            ),
            !(old(self).http.sessions@.contains_key(token) && old(self).http.sessions@[token]
                is Listen && readable) ==> *final(self) == *old(self),
    {
        let should_drain = readable && match self.http.sessions.get(token) {
            Some(SessionHandle::Listen(_)) => true,
            _ => false,
        };
        if should_drain {
            self.accept(ListenToken(token));
        }
    }

    /// Drains the listener keyed by `token`: accepts repeatedly, pushing each
    /// connection onto the pending queue paired with the listen token, until
    /// the listener reports that nothing is ready. Every error ends the drain
    /// — `WouldBlock` is the expected exhaustion signal, and any other error
    /// must break the loop too, or a misbehaving listener would hang the
    /// whole tick. A backlog of K connections is drained by exactly K + 1
    /// accept calls: K that yield a connection and the one that reports
    /// would-block, after which no further call is made.
    pub fn accept(&mut self, token: ListenToken)
        requires
            old(self).wf(),
        ensures
            final(self).wf(),
            Server::layout_preserved(*old(self), *final(self)),
            final(self).http.sessions == old(self).http.sessions,
            final(self).http.token_counter == old(self).http.token_counter,
            final(self).accept_queue@.len() + total_pending(final(self).http.listeners@) == old(self).accept_queue@.len() + total_pending(old(self).http.listeners@),
            Server::drain_effect(*old(self), *final(self), token),
    {
        let ghost pre = *self;
        let ghost mut k: int = 0;
        loop
            invariant_except_break
                self.wf(),
                pre.wf(),
                self.http.sessions == pre.http.sessions,
                self.http.token_counter == pre.http.token_counter,
                !has_listener_token(pre.http.listeners@, token.0) ==> *self == pre,
                has_listener_token(pre.http.listeners@, token.0) ==> ({
                    let i = listener_index(pre.http.listeners@, token.0);
                    let l = pre.http.listeners@[i];
                    &&& self.http.listeners@.len() == pre.http.listeners@.len()
                    &&& forall|j: int|
                        0 <= j < pre.http.listeners@.len() && j != i
                            ==> self.http.listeners@[j] == pre.http.listeners@[j]
                    &&& self.http.listeners@[i].address == l.address
                    &&& self.http.listeners@[i].token == l.token
                    &&& l.socket is None ==> self.http.listeners@ == pre.http.listeners@
                        && self.accept_queue@ == pre.accept_queue@
                    &&& l.socket matches Some(s) ==> {
                        &&& 0 <= k <= s.pending@.len()
                        &&& self.http.listeners@[i].socket matches Some(cs)
                        &&& cs.pending@ == s.pending@.skip(k)
                        &&& cs.accepts@ == s.accepts@ + k
                        &&& self.accept_queue@ == pre.accept_queue@ + s.pending@.take(
                            k,
                        ).map_values(|c: usize| (c, token))
                    }
                }),
            ensures
                self.wf(),
                self.http.sessions == pre.http.sessions,
                self.http.token_counter == pre.http.token_counter,
                !has_listener_token(pre.http.listeners@, token.0) ==> *self == pre,
                has_listener_token(pre.http.listeners@, token.0) ==> ({
                    let i = listener_index(pre.http.listeners@, token.0);
                    let l = pre.http.listeners@[i];
                    &&& self.http.listeners@.len() == pre.http.listeners@.len()
                    &&& forall|j: int|
                        0 <= j < pre.http.listeners@.len() && j != i
                            ==> self.http.listeners@[j] == pre.http.listeners@[j]
                    &&& self.http.listeners@[i].address == l.address
                    &&& self.http.listeners@[i].token == l.token
                    &&& l.socket is None ==> self.http.listeners@ == pre.http.listeners@
                        && self.accept_queue@ == pre.accept_queue@
                    &&& l.socket matches Some(s) ==> {
                        &&& self.http.listeners@[i].socket matches Some(cs)
                        &&& cs.pending@.len() == 0
                        &&& cs.accepts@ == s.accepts@ + s.pending@.len() + 1
                        &&& self.accept_queue@ == pre.accept_queue@ + s.pending@.map_values(
                            |c: usize| (c, token),
                        )
                    }
                }),
            decreases (if has_listener_token(pre.http.listeners@, token.0) {
                let i = listener_index(pre.http.listeners@, token.0);
                match pre.http.listeners@[i].socket {
                    Some(s) => s.pending@.len() - k,
                    None => 0,
                }
            } else {
                0
            }),
        {
            let ghost snap = *self;
            match self.http.accept(token) {
                Ok(conn) => {
                    self.accept_queue.push((conn, token));
                    proof {
                        let i = listener_index(pre.http.listeners@, token.0);
                        lemma_listener_index_is(snap.http.listeners@, token.0, i);
                        let l = pre.http.listeners@[i];
                        let s = l.socket.unwrap();
                        assert(s.pending@.skip(k).len() > 0);
                        assert(conn == s.pending@.skip(k)[0]);
                        assert(conn == s.pending@[k]);
                        assert(self.http.listeners@[i].socket.unwrap().pending@ =~= s.pending@.skip(
                            k + 1,
                        ));
                        assert(s.pending@.take(k + 1) =~= s.pending@.take(k).push(s.pending@[k]));
                        assert(s.pending@.take(k + 1).map_values(|c: usize| (c, token)) =~= s.pending@.take(
                            k,
                        ).map_values(|c: usize| (c, token)).push((s.pending@[k], token)));
                        assert(self.accept_queue@ =~= pre.accept_queue@ + s.pending@.take(
                            k + 1,
                        ).map_values(|c: usize| (c, token)));
                        k = k + 1;
                    }
                },
                Err(_) => {
                    proof {
                        if has_listener_token(pre.http.listeners@, token.0) {
                            let i = listener_index(pre.http.listeners@, token.0);
                            lemma_listener_index_is(snap.http.listeners@, token.0, i);
                            if pre.http.listeners@[i].socket is Some {
                                let s = pre.http.listeners@[i].socket.unwrap();
                                assert(s.pending@.skip(k).len() == 0);
                                assert(k == s.pending@.len());
                                assert(s.pending@.take(k) =~= s.pending@);
                                assert(self.accept_queue@ == pre.accept_queue@
                                    + s.pending@.map_values(|c: usize| (c, token)));
                            }
                        }
                    }
                    break;
                },
            }
        }
        proof {
            if has_listener_token(pre.http.listeners@, token.0) {
                let i = listener_index(pre.http.listeners@, token.0);
                let l = pre.http.listeners@[i];
                assert(Server::layout_preserved(pre, *self));
                if l.socket is Some {
                    let s = l.socket.unwrap();
                    let l2 = self.http.listeners@[i];
                    assert(self.http.listeners@ =~= pre.http.listeners@.update(i, l2));
                    lemma_total_pending_update(pre.http.listeners@, i, l2);
                    assert(pending_count(l2) == 0);
                    assert(s.pending@.map_values(|c: usize| (c, token)).len()
                        == s.pending@.len());
                    assert(self.accept_queue@.len() == pre.accept_queue@.len()
                        + s.pending@.len());
                } else {
                    assert(self.http.listeners@ == pre.http.listeners@);
                }
            }
        }
    }

    /// Materializes the whole pending queue: pops the oldest entry and
    /// promotes it into a session, repeatedly, until the queue is empty —
    /// every connection enqueued during dispatch is converted before the next
    /// reactor wait begins. Draining is FIFO, a deliberate choice for
    /// fairness across competing accept bursts. A connection whose promotion
    /// fails is dropped, not retried. When the OS cooperates, the session
    /// collection ends exactly one entry larger per queued connection, each
    /// under the next fresh token, with the default timeouts.
    pub fn create_sessions(&mut self, env: &NetEnv)
        requires
            old(self).wf(),
            old(self).http.token_counter.counter + old(self).accept_queue@.len() <= usize::MAX,
        ensures
            final(self).wf(),
            final(self).accept_queue@.len() == 0,
            final(self).http.listeners == old(self).http.listeners,
            old(self).http.token_counter.counter <= final(self).http.token_counter.counter,
            final(self).http.token_counter.counter <= old(self).http.token_counter.counter + old(self).accept_queue@.len(),
            forall|t: usize|
                old(self).http.sessions@.contains_key(t) ==> final(self).http.sessions@.contains_key(t) && final(self).http.sessions@[t] == old(self).http.sessions@[t],
            env.nodelay_fail ==> final(self).http.sessions@ == old(self).http.sessions@ && final(self).http.token_counter == old(self).http.token_counter,
            !env.nodelay_fail && env.register_fail ==> final(self).http.sessions@ == old(self).http.sessions@ && final(self).http.token_counter.counter == old(self).http.token_counter.counter + old(self).accept_queue@.len(),
            !env.nodelay_fail && !env.register_fail ==> ({
                let c = old(self).http.token_counter.counter;
                let n = old(self).accept_queue@.len();
                &&& final(self).http.token_counter.counter == c + n
                &&& final(self).http.sessions@ == old(self).http.sessions@.union_prefer_right(
                    sessions_created(c as int, n as int),
                )
                &&& final(self).http.sessions@.len() == old(self).http.sessions@.len() + n
            }),
    {
        let ghost pre = *self;
        let ghost mut j: int = 0;
        loop
            invariant
                self.wf(),
                pre.wf(),
                0 <= j <= pre.accept_queue@.len(),
                pre.http.token_counter.counter + pre.accept_queue@.len() <= usize::MAX,
                self.accept_queue@ == pre.accept_queue@.skip(j),
                self.http.listeners == pre.http.listeners,
                forall|t: usize|
                    pre.http.sessions@.contains_key(t) ==> self.http.sessions@.contains_key(t)
                        && self.http.sessions@[t] == pre.http.sessions@[t],
                env.nodelay_fail ==> self.http.sessions@ == pre.http.sessions@
                    && self.http.token_counter == pre.http.token_counter,
                !env.nodelay_fail && env.register_fail ==> self.http.sessions@
                    == pre.http.sessions@ && self.http.token_counter.counter
                    == pre.http.token_counter.counter + j,
                !env.nodelay_fail && !env.register_fail ==> ({
                    let c = pre.http.token_counter.counter;
                    &&& self.http.token_counter.counter == c + j
                    &&& self.http.sessions@ == pre.http.sessions@.union_prefer_right(
                        sessions_created(c as int, j),
                    )
                    &&& self.http.sessions@.len() == pre.http.sessions@.len() + j
                }),
            ensures
                self.accept_queue@.len() == 0,
            decreases self.accept_queue@.len(),
        {
            if self.accept_queue.len() == 0 {
                break;
            }
            let ghost snap = *self;
            let (sock, token) = self.accept_queue.remove(0);
            let _ = self.http.create_session(sock, token, env);
            proof {
                assert(snap.accept_queue@[0] == pre.accept_queue@[j]);
                assert(self.accept_queue@ =~= pre.accept_queue@.skip(j + 1));
                assert(has_listener_token(snap.http.listeners@, token.0));
                if !env.nodelay_fail && !env.register_fail {
                    let c = pre.http.token_counter.counter;
                    let t = snap.http.token_counter.counter;
                    assert(t == c + j);
                    assert(self.http.sessions@ =~= pre.http.sessions@.union_prefer_right(
                        sessions_created(c as int, j + 1),
                    ));
                }
                j = j + 1;
            }
        }
        proof {
            assert(pre.accept_queue@.skip(j).len() == 0);
            assert(j == pre.accept_queue@.len());
        }
    }

    /// One reactor tick, after the blocking wait has produced its events:
    /// dispatch every readiness event (draining each ready listener), then
    /// materialize the whole pending queue into sessions. The queue is empty
    /// when a tick begins and empty again when it ends, so nothing accepted
    /// in one tick ever waits past it. Every listener named by a readable
    /// listen-session event ends the tick with an empty backlog; listener
    /// layout and prior sessions survive unchanged; and when the OS
    /// cooperates, exactly the drained connections become sessions — one new
    /// entry per token allocated this tick.
    pub fn run_tick(&mut self, events: &Vec<(usize, bool)>, env: &NetEnv)
        requires
            old(self).wf(),
            old(self).accept_queue@.len() == 0,
            old(self).http.token_counter.counter + total_pending(old(self).http.listeners@)
                <= usize::MAX,
        ensures
            final(self).wf(),
            final(self).accept_queue@.len() == 0,
            Server::layout_preserved(*old(self), *final(self)),
            old(self).http.token_counter.counter <= final(self).http.token_counter.counter,
            forall|t: usize|
                old(self).http.sessions@.contains_key(t) ==> final(self).http.sessions@.contains_key(t) && final(self).http.sessions@[t] == old(self).http.sessions@[t],
            forall|e: int|
                0 <= e < events@.len() && (#[trigger] events@[e]).1
                    && old(self).http.sessions@.contains_key(events@[e].0) && old(self).http.sessions@[events@[e].0] is Listen ==> backlog_of(
                    final(self).http.listeners@,
                    events@[e].0,
                ) == 0,
            !env.nodelay_fail && !env.register_fail ==> final(self).http.sessions@.len() == old(self).http.sessions@.len() + (final(self).http.token_counter.counter - old(self).http.token_counter.counter),
            !env.nodelay_fail && !env.register_fail ==> total_pending(final(self).http.listeners@)
                == total_pending(old(self).http.listeners@) - (final(self).http.token_counter.counter - old(self).http.token_counter.counter),
    {
        let ghost pre = *self;
        let mut idx: usize = 0;
        while idx < events.len()
            invariant
                self.wf(),
                pre.wf(),
                idx <= events@.len(),
                Server::layout_preserved(pre, *self),
                self.http.sessions == pre.http.sessions,
                self.http.token_counter == pre.http.token_counter,
                self.accept_queue@.len() + total_pending(self.http.listeners@) == pre.accept_queue@.len()
                    + total_pending(pre.http.listeners@),
                forall|e: int|
                    0 <= e < idx && (#[trigger] events@[e]).1
                        && pre.http.sessions@.contains_key(events@[e].0)
                        && pre.http.sessions@[events@[e].0] is Listen ==> backlog_of(
                        self.http.listeners@,
                        events@[e].0,
                    ) == 0,
            decreases events@.len() - idx,
        {
            let ghost snap = *self;
            let (t, readable) = events[idx];
            self.ready(t, readable);
            proof {
                let cur = *self;
                assert forall|e: int|
                    0 <= e < idx + 1 && (#[trigger] events@[e]).1
                        && pre.http.sessions@.contains_key(events@[e].0)
                        && pre.http.sessions@[events@[e].0] is Listen implies backlog_of(
                    cur.http.listeners@,
                    events@[e].0,
                ) == 0 by {
                    let te = events@[e].0;
                    let dispatched = snap.http.sessions@.contains_key(t)
                        && snap.http.sessions@[t] is Listen && readable;
                    if !dispatched {
                        // Nothing moved: the event was ignored.
                        assert(cur == snap);
                    }
                    if !has_listener_token(snap.http.listeners@, te) {
                        // No listener holds this token, before or after: the
                        // layout is preserved pointwise.
                        if has_listener_token(cur.http.listeners@, te) {
                            let w = choose|w: int|
                                0 <= w < cur.http.listeners@.len()
                                    && cur.http.listeners@[w].token == te;
                            assert(snap.http.listeners@[w].token == te);
                        }
                        assert(backlog_of(cur.http.listeners@, te) == 0);
                    } else {
                        let jdx = listener_index(snap.http.listeners@, te);
                        assert(snap.http.listeners@[jdx].token == te);
                        if dispatched && has_listener_token(snap.http.listeners@, t) {
                            let i = listener_index(snap.http.listeners@, t);
                            assert(cur.http.listeners@[i].token == t);
                            lemma_listener_index_is(cur.http.listeners@, te, jdx);
                            if jdx == i {
                                // This listener was just drained (or is inert).
                                assert(pending_count(cur.http.listeners@[i]) == 0);
                            } else {
                                assert(cur.http.listeners@[jdx] == snap.http.listeners@[jdx]);
                            }
                        } else {
                            // The dispatched event named no listener (or was
                            // ignored): nothing changed.
                            lemma_listener_index_is(cur.http.listeners@, te, jdx);
                            assert(cur.http.listeners@[jdx] == snap.http.listeners@[jdx]);
                        }
                        if e < idx {
                            assert(backlog_of(snap.http.listeners@, te) == 0);
                        }
                    }
                }
            }
            idx = idx + 1;
        }
        self.create_sessions(env);
    }
}

} // verus!
