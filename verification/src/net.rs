//! Model of the socket layer that the reactor core drives.
//!
//! The core never performs a system call itself: every OS interaction it
//! depends on (bind, reactor registration, `accept`, nodelay configuration)
//! is represented here as plain data. [`NetEnv`] carries the outcomes the OS
//! will report for the calls the core is about to make, and [`ListenSocket`]
//! carries the kernel-side accept backlog of one listening socket. An
//! embedder performs the real calls and mirrors their outcomes into these
//! values; tests drive them directly.

use vstd::prelude::*;

verus! {

/// An IPv4 socket address: four octets and a port.
#[derive(Clone, Copy, Debug, PartialEq, Eq, Structural)]
pub struct SocketAddress {
    pub a: u8,
    pub b: u8,
    pub c: u8,
    pub d: u8,
    pub port: u16,
}

impl SocketAddress {
    /// The fixed listening endpoint of this core: loopback, port 8080.
    /// Parameterization is an external collaborator's responsibility.
    pub fn loopback_8080() -> (r: SocketAddress)
        ensures
            r == (SocketAddress { a: 127, b: 0, c: 0, d: 0, port: 8080 }),
    {
        SocketAddress { a: 127, b: 0, c: 0, d: 0, port: 8080 }
    }
}

/// One bound, listening, non-blocking OS socket, reduced to the part of its
/// state the core's logic reads: the queue of connections the kernel holds
/// ready to be accepted. Connections are opaque identifiers assigned by the
/// embedder. The ghost counter records how many `accept` calls were issued on
/// this socket, so contracts can pin down exactly when the draining stops.
pub struct ListenSocket {
    /// Kernel accept backlog, front at index 0 (FIFO).
    pub pending: Vec<usize>,
    /// Number of `accept` calls made on this socket (specification only).
    pub accepts: Ghost<nat>,
}

impl ListenSocket {
    /// One non-blocking `accept` on this socket: pops the oldest pending
    /// connection, or yields nothing when the kernel has none ready (the
    /// would-block outcome of the real call).
    pub fn accept_one(&mut self) -> (r: Option<usize>)
        ensures
            final(self).accepts@ == old(self).accepts@ + 1,
            old(self).pending@.len() > 0 ==> {
                &&& r == Some(old(self).pending@[0])
                &&& final(self).pending@ == old(self).pending@.drop_first()
            },
            old(self).pending@.len() == 0 ==> {
                &&& r is None
                &&& final(self).pending@ == old(self).pending@
            },
    {
        proof {
            self.accepts@ = self.accepts@ + 1;
        }
        if self.pending.len() > 0 {
            let c = self.pending.remove(0);
            Some(c)
        } else {
            None
        }
    }

    /// A client connection reaching the kernel: it joins the back of this
    /// socket's accept backlog.
    pub fn push_pending(&mut self, conn: usize)
        ensures
            final(self).pending@ == old(self).pending@.push(conn),
            final(self).accepts@ == old(self).accepts@,
    {
        self.pending.push(conn);
    }
}

/// The OS responses for the calls the core is about to make. The embedder
/// sets each flag from the real call's outcome (or leaves all clear when the
/// OS cooperates); tests set them to exercise the error paths. The ghost
/// counter records how many bind attempts were made, so contracts can state
/// that a failed lookup never reaches the OS.
pub struct NetEnv {
    /// The next bind attempt fails at the OS level.
    pub bind_fail: bool,
    /// The next reactor registration fails at the OS level.
    pub register_fail: bool,
    /// The next nodelay configuration fails at the OS level.
    pub nodelay_fail: bool,
    /// Number of bind attempts issued (specification only).
    pub bind_calls: Ghost<nat>,
}

impl NetEnv {
    /// An environment in which every OS call succeeds.
    pub fn all_succeed() -> (r: NetEnv)
        ensures
            !r.bind_fail,
            !r.register_fail,
            !r.nodelay_fail,
            r.bind_calls@ == 0,
    {
        NetEnv { bind_fail: false, register_fail: false, nodelay_fail: false, bind_calls: Ghost(0) }
    }
}

/// The stages at which the "bind and configure" primitive can fail: socket
/// creation, address-reuse configuration, bind, non-blocking configuration,
/// and listen, plus a malformed address.
#[derive(Debug, PartialEq, Eq)]
pub enum ServerBindError {
    BindError,
    Listen,
    SetNonBlocking,
    SetReuseAddress,
    SetReusePort,
    SocketCreationError,
    InvalidSocketAddress { address: String, error: String },
}

/// The "bind and configure" primitive: given an address, yields a bound,
/// listening (backlog 1024), non-blocking, address-reusable socket, or the
/// stage that failed. In the model the outcome is whatever [`NetEnv`] says
/// the OS will report for this bind attempt; a fresh socket starts with an
/// empty accept backlog.
pub fn server_bind(addr: SocketAddress, env: &mut NetEnv) -> (r: Result<ListenSocket, ServerBindError>)
    ensures
        final(env).bind_calls@ == old(env).bind_calls@ + 1,
        final(env).bind_fail == old(env).bind_fail,
        final(env).register_fail == old(env).register_fail,
        final(env).nodelay_fail == old(env).nodelay_fail,
        old(env).bind_fail ==> (r matches Err(e) && e == ServerBindError::BindError),
        !old(env).bind_fail ==> (r matches Ok(s) && s.pending@.len() == 0 && s.accepts@ == 0),
{
    // The modeled OS binds any address; which one was asked for does not
    // change what the model can say about the socket that comes back.
    let _ = addr;
    proof {
        env.bind_calls@ = env.bind_calls@ + 1;
    }
    if env.bind_fail {
        Err(ServerBindError::BindError)
    } else {
        Ok(ListenSocket { pending: Vec::new(), accepts: Ghost(0) })
    }
}

} // verus!
