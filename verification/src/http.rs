//! The listener registry and session construction: listeners are keyed by
//! token, activated against the modeled OS, drained of ready connections, and
//! each accepted connection is promoted into a tracked session.

use vstd::prelude::*;

use crate::net::{ListenSocket, NetEnv, ServerBindError, SocketAddress, server_bind};
use crate::server::{ListenToken, SessionHandle, SessionManager};
use crate::token_counter::TokenCounter;

verus! {

/// Timeout, in seconds, configured on every session this core constructs.
pub const DEFAULT_TIMEOUT_SECS: u64 = 10;

/// What can go wrong while activating one listener.
#[derive(Debug, PartialEq, Eq)]
pub enum ListenerError {
    /// A TLS context could not be built. No TLS listener exists in this core;
    /// the variant is part of the surface the protocol logic plugs into.
    BuildRustls(String),
    /// The bind-and-configure primitive failed for this address.
    Activation { address: SocketAddress, error: ServerBindError },
    /// The listening socket could not be registered with the reactor.
    SocketRegistration,
}

/// What can go wrong while activating a listener through the registry.
#[derive(Debug, PartialEq, Eq)]
pub enum ProxyError {
    /// A listener was found for the address but could not be activated.
    ListenerActivation { address: SocketAddress, listener_error: ListenerError },
    /// No listener was pre-added for the address.
    NoListenerFound(SocketAddress),
}

/// What can go wrong while accepting a connection or promoting it into a
/// session. `WouldBlock` is not a failure: it is the expected signal that a
/// drain loop has exhausted the backlog.
#[derive(Debug, PartialEq, Eq, Structural)]
pub enum AcceptError {
    IoError,
    TooManySessions,
    WouldBlock,
    RegisterError,
    WrongSocketAddress,
    BufferCapacityReached,
}

/// One configured network endpoint: its bind address, its token, and the OS
/// listening socket, absent until the listener is activated.
pub struct HttpListener {
    pub address: SocketAddress,
    pub socket: Option<ListenSocket>,
    pub token: usize,
}

impl HttpListener {
    /// Whether this listener has been activated (owns a listening socket).
    pub open spec fn is_active(self) -> bool {
        self.socket is Some
    }

    /// Binds and configures a socket for this listener's address and
    /// registers it with the reactor for readability; on success the socket
    /// becomes present, replacing any prior one — activation is not
    /// idempotent, and a re-bind starts from an empty backlog. On failure the
    /// listener is left as it was. Exactly one bind attempt is made;
    /// registration follows the bind.
    fn activate(&mut self, env: &mut NetEnv) -> (r: Result<usize, ListenerError>)
        ensures
            final(env).bind_calls@ == old(env).bind_calls@ + 1,
            final(env).bind_fail == old(env).bind_fail,
            final(env).register_fail == old(env).register_fail,
            final(env).nodelay_fail == old(env).nodelay_fail,
            old(env).bind_fail ==> {
                &&& r == Err::<usize, ListenerError>((ListenerError::Activation {
                    address: old(self).address,
                    error: ServerBindError::BindError,
                }))
                &&& *final(self) == *old(self)
            },
            !old(env).bind_fail && old(env).register_fail ==> {
                &&& r == Err::<usize, ListenerError>(ListenerError::SocketRegistration)
                &&& *final(self) == *old(self)
            },
            !old(env).bind_fail && !old(env).register_fail ==> {
                &&& r == Ok::<usize, ListenerError>(old(self).token)
                &&& final(self).address == old(self).address
                &&& final(self).token == old(self).token
                &&& final(self).socket matches Some(s) && s.pending@.len() == 0
            },
    {
        let listener = match server_bind(self.address, env) {
            Ok(l) => l,
            Err(error) => {
                return Err(ListenerError::Activation { address: self.address, error });
            },
        };
        if env.register_fail {
            return Err(ListenerError::SocketRegistration);
        }
        self.socket = Some(listener);
        Ok(self.token)
    }

    /// One non-blocking accept on this listener: the oldest pending
    /// connection, `WouldBlock` when the kernel has none ready, or `IoError`
    /// when no listening socket is available (the listener was never
    /// activated).
    fn accept(&mut self) -> (r: Result<usize, AcceptError>)
        ensures
            final(self).address == old(self).address,
            final(self).token == old(self).token,
            old(self).socket is None ==> r == Err::<usize, AcceptError>(AcceptError::IoError)
                && *final(self) == *old(self),
            old(self).socket matches Some(s) ==> {
                &&& final(self).socket matches Some(s2)
                &&& s2.accepts@ == s.accepts@ + 1
                &&& s.pending@.len() > 0 ==> r == Ok::<usize, AcceptError>(s.pending@[0])
                    && s2.pending@ == s.pending@.drop_first()
                &&& s.pending@.len() == 0 ==> r == Err::<usize, AcceptError>(
                    AcceptError::WouldBlock,
                ) && s2.pending@ == s.pending@
            },
    {
        match &mut self.socket {
            Some(sock) => match sock.accept_one() {
                Some(conn) => Ok(conn),
                None => Err(AcceptError::WouldBlock),
            },
            None => Err(AcceptError::IoError),
        }
    }
}

/// The tracked state of one accepted connection: four configured timeouts
/// and the token under which its frontend socket is registered. A placeholder
/// for the protocol logic that plugs into this core.
#[derive(Debug)]
pub struct HttpSession {
    pub configured_backend_timeout: u64,
    pub configured_connect_timeout: u64,
    pub configured_frontend_timeout: u64,
    pub configured_request_timeout: u64,
    pub frontend_token: usize,
}

impl HttpSession {
    /// A session with the given timeouts (in seconds) and frontend token.
    /// Construction cannot fail today; the `Result` is the seam where
    /// admission control (session limits, buffer capacity) will report.
    pub fn new(
        configured_backend_timeout: u64,
        configured_connect_timeout: u64,
        configured_frontend_timeout: u64,
        configured_request_timeout: u64,
        token: usize,
    ) -> (r: Result<HttpSession, AcceptError>)
        ensures
            r == Ok::<HttpSession, AcceptError>((HttpSession {
                configured_backend_timeout,
                configured_connect_timeout,
                configured_frontend_timeout,
                configured_request_timeout,
                frontend_token: token,
            })),
    {
        Ok(HttpSession {
            configured_backend_timeout,
            configured_connect_timeout,
            configured_frontend_timeout,
            configured_request_timeout,
            frontend_token: token,
        })
    }
}

/// The session a successful [`HttpProxy::create_session`] call constructs for
/// a given frontend token: all four timeouts at the configured default.
pub open spec fn default_session(token: usize) -> HttpSession {
    HttpSession {
        configured_backend_timeout: DEFAULT_TIMEOUT_SECS,
        configured_connect_timeout: DEFAULT_TIMEOUT_SECS,
        configured_frontend_timeout: DEFAULT_TIMEOUT_SECS,
        configured_request_timeout: DEFAULT_TIMEOUT_SECS,
        frontend_token: token,
    }
}

/// No two listeners share a token.
pub open spec fn listener_tokens_distinct(ls: Seq<HttpListener>) -> bool {
    forall|i: int, j: int| 0 <= i < j < ls.len() ==> ls[i].token != ls[j].token
}

/// Some listener is keyed by `t`.
pub open spec fn has_listener_token(ls: Seq<HttpListener>, t: usize) -> bool {
    exists|i: int| 0 <= i < ls.len() && ls[i].token == t
}

/// The index of the listener keyed by `t` (unique while tokens are distinct).
pub open spec fn listener_index(ls: Seq<HttpListener>, t: usize) -> int {
    choose|i: int| 0 <= i < ls.len() && ls[i].token == t
}

/// Some listener is configured for address `a`.
pub open spec fn has_listener_addr(ls: Seq<HttpListener>, a: SocketAddress) -> bool {
    exists|i: int| 0 <= i < ls.len() && ls[i].address == a
}

/// The first index whose listener is configured for address `a`.
pub open spec fn first_listener_with_addr(ls: Seq<HttpListener>, a: SocketAddress) -> int {
    choose|i: int|
        0 <= i < ls.len() && ls[i].address == a && (forall|j: int|
            0 <= j < i ==> ls[j].address != a)
}

/// With pairwise distinct tokens, an index whose listener carries `t` is the
/// index `listener_index` denotes.
pub proof fn lemma_listener_index_is(ls: Seq<HttpListener>, t: usize, i: int)
    requires
        listener_tokens_distinct(ls),
        0 <= i < ls.len(),
        ls[i].token == t,
    ensures
        has_listener_token(ls, t),
        listener_index(ls, t) == i,
{
    assert(has_listener_token(ls, t));
    let w = listener_index(ls, t);
    assert(0 <= w < ls.len() && ls[w].token == t);
    if w < i {
        assert(ls[w].token != ls[i].token);
    } else if i < w {
        assert(ls[i].token != ls[w].token);
    }
}

/// An index whose listener carries `a`, with no earlier match, is the index
/// `first_listener_with_addr` denotes.
pub proof fn lemma_first_addr_index_is(ls: Seq<HttpListener>, a: SocketAddress, i: int)
    requires
        0 <= i < ls.len(),
        ls[i].address == a,
        forall|j: int| 0 <= j < i ==> ls[j].address != a,
    ensures
        has_listener_addr(ls, a),
        first_listener_with_addr(ls, a) == i,
{
    assert(has_listener_addr(ls, a));
    let w = first_listener_with_addr(ls, a);
    assert(0 <= w < ls.len() && ls[w].address == a && (forall|j: int|
        0 <= j < w ==> ls[j].address != a));
    if w < i {
        assert(ls[w].address != a);
    } else if i < w {
        assert(ls[i].address != a);
    }
}

/// The index of the listener keyed by `token`, scanning front to back.
fn find_by_token(ls: &Vec<HttpListener>, token: usize) -> (r: Option<usize>)
    ensures
        match r {
            Some(i) => 0 <= i < ls@.len() && ls@[i as int].token == token,
            None => !has_listener_token(ls@, token),
        },
{
    let mut i: usize = 0;
    while i < ls.len()
        invariant
            i <= ls@.len(),
            forall|j: int| 0 <= j < i ==> ls@[j].token != token,
        decreases ls@.len() - i,
    {
        if ls[i].token == token {
            return Some(i);
        }
        i = i + 1;
    }
    None
}

/// The index of the first listener configured for `addr`.
fn find_first_by_addr(ls: &Vec<HttpListener>, addr: &SocketAddress) -> (r: Option<usize>)
    ensures
        match r {
            Some(i) => 0 <= i < ls@.len() && ls@[i as int].address == *addr && (forall|j: int|
                0 <= j < i ==> ls@[j].address != *addr),
            None => !has_listener_addr(ls@, *addr),
        },
{
    let mut i: usize = 0;
    while i < ls.len()
        invariant
            i <= ls@.len(),
            forall|j: int| 0 <= j < i ==> ls@[j].address != *addr,
        decreases ls@.len() - i,
    {
        if ls[i].address == *addr {
            return Some(i);
        }
        i = i + 1;
    }
    None
}

/// The listener registry: owns every listener, the session collection, and
/// the token allocator both draw from. All shared state is reached through
/// this single owner — the whole core runs on one logical thread.
pub struct HttpProxy {
    pub listeners: Vec<HttpListener>,
    pub sessions: SessionManager,
    pub token_counter: TokenCounter,
}

impl HttpProxy {
    /// Well-formedness: listener tokens are pairwise distinct, and every
    /// token already handed out — listener or session — lies below the
    /// allocator's counter, so the next allocation is always fresh.
    pub open spec fn wf(self) -> bool {
        &&& listener_tokens_distinct(self.listeners@)
        &&& forall|i: int|
            0 <= i < self.listeners@.len() ==> (#[trigger] self.listeners@[i]).token
                < self.token_counter.counter
        &&& forall|t: usize| self.sessions@.contains_key(t) ==> t < self.token_counter.counter
    }

    /// An empty registry with a fresh allocator and an empty session
    /// collection.
    pub fn new() -> (r: HttpProxy)
        ensures
            r.wf(),
            r.listeners@.len() == 0,
            r.sessions@ == Map::<usize, SessionHandle>::empty(),
            r.token_counter.counter == 0,
    {
        HttpProxy {
            listeners: Vec::new(),
            sessions: SessionManager::new(),
            token_counter: TokenCounter::new(),
        }
    }

    /// Registers an inert listener for the fixed configured address, keyed by
    /// the given token. The token must be one the shared allocator issued and
    /// no other listener holds: listener and session keys share one namespace
    /// and must never collide.
    pub fn add_listener(&mut self, token: usize)
        requires
            old(self).wf(),
            !has_listener_token(old(self).listeners@, token),
            token < old(self).token_counter.counter,
        ensures
            final(self).wf(),
            final(self).listeners@ == old(self).listeners@.push((HttpListener {
                address: SocketAddress { a: 127, b: 0, c: 0, d: 0, port: 8080 },
                socket: None::<ListenSocket>,
                token: token,
            })),
            final(self).sessions == old(self).sessions,
            final(self).token_counter == old(self).token_counter,
    {
        let address = SocketAddress::loopback_8080();
        self.listeners.push(HttpListener { address, socket: None, token });
    }

    /// Looks up the listener configured for `addr` and activates it: binds a
    /// non-blocking listening socket there and registers it with the reactor
    /// for readability. When no listener was pre-added for `addr` the call
    /// fails with `NoListenerFound`, changes nothing, and in particular never
    /// attempts a bind. An OS-level failure surfaces as `ListenerActivation`,
    /// naming the stage that failed, and leaves the listener as it was.
    pub fn activate_listener(&mut self, addr: &SocketAddress, env: &mut NetEnv) -> (r: Result<
        usize,
        ProxyError,
    >)
        requires
            old(self).wf(),
        ensures
            final(self).wf(),
            final(self).sessions == old(self).sessions,
            final(self).token_counter == old(self).token_counter,
            final(env).bind_fail == old(env).bind_fail,
            final(env).register_fail == old(env).register_fail,
            final(env).nodelay_fail == old(env).nodelay_fail,
            !has_listener_addr(old(self).listeners@, *addr) ==> {
                &&& r == Err::<usize, ProxyError>(ProxyError::NoListenerFound(*addr))
                &&& *final(self) == *old(self)
                &&& final(env).bind_calls@ == old(env).bind_calls@
            },
            has_listener_addr(old(self).listeners@, *addr) ==> {
                let i = first_listener_with_addr(old(self).listeners@, *addr);
                &&& final(env).bind_calls@ == old(env).bind_calls@ + 1
                &&& old(env).bind_fail ==> {
                    &&& r == Err::<usize, ProxyError>((ProxyError::ListenerActivation {
                        address: *addr,
                        listener_error: ListenerError::Activation {
                            address: *addr,
                            error: ServerBindError::BindError,
                        },
                    }))
                    &&& final(self).listeners@ == old(self).listeners@
                }
                &&& !old(env).bind_fail && old(env).register_fail ==> {
                    &&& r == Err::<usize, ProxyError>((ProxyError::ListenerActivation {
                        address: *addr,
                        listener_error: ListenerError::SocketRegistration,
                    }))
                    &&& final(self).listeners@ == old(self).listeners@
                }
                &&& !old(env).bind_fail && !old(env).register_fail ==> {
                    &&& r == Ok::<usize, ProxyError>(old(self).listeners@[i].token)
                    &&& final(self).listeners@.len() == old(self).listeners@.len()
                    &&& final(self).listeners@[i].socket matches Some(s) && s.pending@.len() == 0
                    &&& final(self).listeners@[i].address == old(self).listeners@[i].address
                    &&& final(self).listeners@[i].token == old(self).listeners@[i].token
                    &&& forall|j: int|
                        0 <= j < old(self).listeners@.len() && j != i
                            ==> final(self).listeners@[j] == old(self).listeners@[j]
                }
            },
    {
        let i = match find_first_by_addr(&self.listeners, addr) {
            Some(i) => i,
            None => {
                return Err(ProxyError::NoListenerFound(*addr));
            },
        };
        proof {
            lemma_first_addr_index_is(self.listeners@, *addr, i as int);
        }
        let res = {
            let listener = &mut self.listeners[i];
            listener.activate(env)
        };
        match res {
            Ok(token) => Ok(token),
            Err(listener_error) => {
                proof {
                    assert(self.listeners@ =~= old(self).listeners@);
                }
                Err(ProxyError::ListenerActivation { address: *addr, listener_error })
            },
        }
    }

    /// One non-blocking accept on the listener keyed by `token`: the oldest
    /// pending connection, `WouldBlock` when the backlog is empty, or
    /// `IoError` when the token names no listener or one that was never
    /// activated.
    pub fn accept(&mut self, token: ListenToken) -> (r: Result<usize, AcceptError>)
        requires
            old(self).wf(),
        ensures
            final(self).wf(),
            final(self).sessions == old(self).sessions,
            final(self).token_counter == old(self).token_counter,
            !has_listener_token(old(self).listeners@, token.0) ==> {
                &&& r == Err::<usize, AcceptError>(AcceptError::IoError)
                &&& *final(self) == *old(self)
            },
            has_listener_token(old(self).listeners@, token.0) ==> {
                let i = listener_index(old(self).listeners@, token.0);
                let l = old(self).listeners@[i];
                &&& final(self).listeners@.len() == old(self).listeners@.len()
                &&& forall|j: int|
                    0 <= j < old(self).listeners@.len() && j != i ==> final(self).listeners@[j]
                        == old(self).listeners@[j]
                &&& final(self).listeners@[i].address == l.address
                &&& final(self).listeners@[i].token == l.token
                &&& l.socket is None ==> r == Err::<usize, AcceptError>(AcceptError::IoError)
                    && final(self).listeners@ == old(self).listeners@
                &&& l.socket matches Some(s) ==> {
                    &&& final(self).listeners@[i].socket matches Some(s2)
                    &&& s2.accepts@ == s.accepts@ + 1
                    &&& s.pending@.len() > 0 ==> r == Ok::<usize, AcceptError>(s.pending@[0])
                        && s2.pending@ == s.pending@.drop_first()
                    &&& s.pending@.len() == 0 ==> r == Err::<usize, AcceptError>(
                        AcceptError::WouldBlock,
                    ) && s2.pending@ == s.pending@
                }
            },
    {
        let i = match find_by_token(&self.listeners, token.0) {
            Some(i) => i,
            None => {
                return Err(AcceptError::IoError);
            },
        };
        proof {
            lemma_listener_index_is(self.listeners@, token.0, i as int);
        }
        let r = {
            let listener = &mut self.listeners[i];
            listener.accept()
        };
        proof {
            if old(self).listeners@[i as int].socket is None {
                assert(self.listeners@ =~= old(self).listeners@);
            }
        }
        r
    }

    /// Promotes one accepted connection into a tracked session: resolves the
    /// originating listener, configures nodelay on the connection, allocates
    /// a fresh token, registers the connection with the reactor for read and
    /// write interest, and inserts a session with the default timeouts under
    /// the new token.
    ///
    /// The step is atomic with respect to allocation and registration: when
    /// registration fails, the freshly allocated token is wasted (never
    /// reused) but no session is left half-registered — the collection is
    /// untouched. On success the collection grows by exactly one entry, under
    /// a key that was absent before the call.
    pub fn create_session(
        &mut self,
        frontend_sock: usize,
        listener_token: ListenToken,
        env: &NetEnv,
    ) -> (r: Result<(), AcceptError>)
        requires
            old(self).wf(),
            old(self).token_counter.counter < usize::MAX,
        ensures
            final(self).wf(),
            final(self).listeners == old(self).listeners,
            old(self).token_counter.counter <= final(self).token_counter.counter,
            !has_listener_token(old(self).listeners@, listener_token.0) ==> {
                &&& r == Err::<(), AcceptError>(AcceptError::IoError)
                &&& *final(self) == *old(self)
            },
            has_listener_token(old(self).listeners@, listener_token.0) && env.nodelay_fail ==> {
                &&& r == Err::<(), AcceptError>(AcceptError::IoError)
                &&& *final(self) == *old(self)
            },
            has_listener_token(old(self).listeners@, listener_token.0) && !env.nodelay_fail ==> {
                &&& final(self).token_counter.counter == old(self).token_counter.counter + 1
                &&& env.register_fail ==> r == Err::<(), AcceptError>(AcceptError::RegisterError)
                    && final(self).sessions == old(self).sessions
                &&& !env.register_fail ==> {
                    let t = old(self).token_counter.counter;
                    &&& r == Ok::<(), AcceptError>(())
                    &&& !old(self).sessions@.contains_key(t)
                    &&& final(self).sessions@ == old(self).sessions@.insert(
                        t,
                        SessionHandle::Http(default_session(t)),
                    )
                    &&& final(self).sessions@.len() == old(self).sessions@.len() + 1
                }
            },
    {
        // The session placeholder stores no connection state yet: the
        // connection is identified, configured, registered, and dropped here.
        let _ = frontend_sock;
        if find_by_token(&self.listeners, listener_token.0).is_none() {
            return Err(AcceptError::IoError);
        }

        // Configure the connection before anything is allocated: a nodelay
        // failure drops it with no token spent.
        if env.nodelay_fail {
            return Err(AcceptError::IoError);
        }

        let session_token = self.token_counter.next();

        if env.register_fail {
            return Err(AcceptError::RegisterError);
        }

        let session = match HttpSession::new(
            DEFAULT_TIMEOUT_SECS,
            DEFAULT_TIMEOUT_SECS,
            DEFAULT_TIMEOUT_SECS,
            DEFAULT_TIMEOUT_SECS,
            session_token,
        ) {
            Ok(s) => s,
            Err(e) => {
                return Err(e);
            },
        };

        self.sessions.insert(session_token, SessionHandle::Http(session));
        Ok(())
    }

    /// A client connection arriving at the listener keyed by `token`: it
    /// joins that listener's kernel accept backlog, to be picked up by the
    /// next drain. Reports whether the token named an activated listener;
    /// otherwise there is no socket the connection could reach and nothing
    /// changes.
    pub fn deliver_connection(&mut self, token: ListenToken, conn: usize) -> (r: bool)
        requires
            old(self).wf(),
        ensures
            final(self).wf(),
            final(self).sessions == old(self).sessions,
            final(self).token_counter == old(self).token_counter,
            r == (has_listener_token(old(self).listeners@, token.0)
                && old(self).listeners@[listener_index(old(self).listeners@, token.0)].is_active()),
            !r ==> final(self).listeners@ == old(self).listeners@,
            r ==> {
                let i = listener_index(old(self).listeners@, token.0);
                let l = old(self).listeners@[i];
                &&& final(self).listeners@.len() == old(self).listeners@.len()
                &&& forall|j: int|
                    0 <= j < old(self).listeners@.len() && j != i
                        ==> final(self).listeners@[j] == old(self).listeners@[j]
                &&& final(self).listeners@[i].address == l.address
                &&& final(self).listeners@[i].token == l.token
                &&& l.socket matches Some(s)
                &&& final(self).listeners@[i].socket matches Some(s2)
                &&& s2.pending@ == s.pending@.push(conn)
                &&& s2.accepts@ == s.accepts@
            },
    {
        let i = match find_by_token(&self.listeners, token.0) {
            Some(i) => i,
            None => {
                return false;
            },
        };
        proof {
            lemma_listener_index_is(self.listeners@, token.0, i as int);
        }
        let r = {
            let listener = &mut self.listeners[i];
            match &mut listener.socket {
                Some(s) => {
                    s.push_pending(conn);
                    true
                },
                None => false,
            }
        };
        proof {
            if !r {
                assert(self.listeners@ =~= old(self).listeners@);
            }
        }
        r
    }
}

} // verus!
