use proxy_core::http::{AcceptError, HttpProxy, HttpSession, ListenerError, ProxyError};
use proxy_core::net::{NetEnv, ServerBindError, SocketAddress, server_bind};
use proxy_core::server::{ListenToken, SessionHandle};

fn loopback(port: u16) -> SocketAddress {
    SocketAddress { a: 127, b: 0, c: 0, d: 0, port }
}

fn proxy_with_active_listener(env: &mut NetEnv) -> HttpProxy {
    let mut proxy = HttpProxy::new();
    let token = proxy.token_counter.next();
    proxy.add_listener(token);
    let activated = proxy.activate_listener(&loopback(8080), env);
    assert_eq!(activated, Ok(token));
    proxy
}

#[test]
fn activation_without_matching_listener_fails_and_binds_nothing() {
    let mut env = NetEnv::all_succeed();
    let mut proxy = HttpProxy::new();
    let addr = loopback(8080);
    let result = proxy.activate_listener(&addr, &mut env);
    assert_eq!(result, Err(ProxyError::NoListenerFound(addr)));
    assert_eq!(proxy.listeners.len(), 0);
    assert_eq!(proxy.sessions.len(), 0);
    assert_eq!(proxy.token_counter.counter, 0);
}

#[test]
fn activation_with_wrong_address_leaves_registry_unmodified() {
    let mut env = NetEnv::all_succeed();
    let mut proxy = proxy_with_active_listener(&mut env);
    let other = loopback(9090);
    let result = proxy.activate_listener(&other, &mut env);
    assert_eq!(result, Err(ProxyError::NoListenerFound(other)));
    assert_eq!(proxy.listeners.len(), 1);
    assert_eq!(proxy.sessions.len(), 0);
    assert_eq!(proxy.token_counter.counter, 1);
}

#[test]
fn activation_surfaces_bind_failure() {
    let mut env = NetEnv::all_succeed();
    let mut proxy = HttpProxy::new();
    let token = proxy.token_counter.next();
    proxy.add_listener(token);
    env.bind_fail = true;
    let addr = loopback(8080);
    let result = proxy.activate_listener(&addr, &mut env);
    assert_eq!(
        result,
        Err(ProxyError::ListenerActivation {
            address: addr,
            listener_error: ListenerError::Activation {
                address: addr,
                error: ServerBindError::BindError,
            },
        })
    );
}

#[test]
fn activation_surfaces_registration_failure() {
    let mut env = NetEnv::all_succeed();
    let mut proxy = HttpProxy::new();
    let token = proxy.token_counter.next();
    proxy.add_listener(token);
    env.register_fail = true;
    let addr = loopback(8080);
    let result = proxy.activate_listener(&addr, &mut env);
    assert_eq!(
        result,
        Err(ProxyError::ListenerActivation {
            address: addr,
            listener_error: ListenerError::SocketRegistration,
        })
    );
}

#[test]
fn accept_on_unknown_token_is_an_io_error() {
    let mut env = NetEnv::all_succeed();
    let mut proxy = proxy_with_active_listener(&mut env);
    assert_eq!(proxy.accept(ListenToken(99)), Err(AcceptError::IoError));
}

#[test]
fn accept_on_inert_listener_is_an_io_error() {
    let mut proxy = HttpProxy::new();
    let token = proxy.token_counter.next();
    proxy.add_listener(token);
    assert_eq!(proxy.accept(ListenToken(token)), Err(AcceptError::IoError));
}

#[test]
fn accept_on_empty_backlog_would_block() {
    let mut env = NetEnv::all_succeed();
    let mut proxy = proxy_with_active_listener(&mut env);
    assert_eq!(proxy.accept(ListenToken(0)), Err(AcceptError::WouldBlock));
}

#[test]
fn accept_pops_pending_connections_in_arrival_order() {
    let mut env = NetEnv::all_succeed();
    let mut proxy = proxy_with_active_listener(&mut env);
    assert!(proxy.deliver_connection(ListenToken(0), 101));
    assert!(proxy.deliver_connection(ListenToken(0), 102));
    assert_eq!(proxy.accept(ListenToken(0)), Ok(101));
    assert_eq!(proxy.accept(ListenToken(0)), Ok(102));
    assert_eq!(proxy.accept(ListenToken(0)), Err(AcceptError::WouldBlock));
}

#[test]
fn deliver_connection_needs_an_activated_listener() {
    let mut proxy = HttpProxy::new();
    let token = proxy.token_counter.next();
    proxy.add_listener(token);
    assert!(!proxy.deliver_connection(ListenToken(token), 7));
    assert!(!proxy.deliver_connection(ListenToken(42), 7));
}

#[test]
fn create_session_adds_exactly_one_entry_under_a_fresh_key() {
    let mut env = NetEnv::all_succeed();
    let mut proxy = proxy_with_active_listener(&mut env);
    let new_token = proxy.token_counter.counter;
    assert!(proxy.sessions.get(new_token).is_none());
    let before = proxy.sessions.len();
    let result = proxy.create_session(7, ListenToken(0), &env);
    assert_eq!(result, Ok(()));
    assert_eq!(proxy.sessions.len(), before + 1);
    assert!(proxy.sessions.contains(new_token));
}

#[test]
fn create_session_configures_the_default_timeouts() {
    let mut env = NetEnv::all_succeed();
    let mut proxy = proxy_with_active_listener(&mut env);
    proxy.create_session(7, ListenToken(0), &env).unwrap();
    match proxy.sessions.get(1) {
        Some(SessionHandle::Http(session)) => {
            assert_eq!(session.configured_backend_timeout, 10);
            assert_eq!(session.configured_connect_timeout, 10);
            assert_eq!(session.configured_frontend_timeout, 10);
            assert_eq!(session.configured_request_timeout, 10);
            assert_eq!(session.frontend_token, 1);
        },
        other => panic!("expected a data session, got {:?}", other),
    }
}

#[test]
fn create_session_with_unknown_listener_is_an_io_error() {
    let mut env = NetEnv::all_succeed();
    let mut proxy = proxy_with_active_listener(&mut env);
    let result = proxy.create_session(7, ListenToken(42), &env);
    assert_eq!(result, Err(AcceptError::IoError));
    assert_eq!(proxy.sessions.len(), 0);
    assert_eq!(proxy.token_counter.counter, 1);
}

#[test]
fn create_session_nodelay_failure_spends_no_token() {
    let mut env = NetEnv::all_succeed();
    let mut proxy = proxy_with_active_listener(&mut env);
    env.nodelay_fail = true;
    let result = proxy.create_session(7, ListenToken(0), &env);
    assert_eq!(result, Err(AcceptError::IoError));
    assert_eq!(proxy.sessions.len(), 0);
    assert_eq!(proxy.token_counter.counter, 1);
}

#[test]
fn create_session_registration_failure_wastes_the_token() {
    let mut env = NetEnv::all_succeed();
    let mut proxy = proxy_with_active_listener(&mut env);
    env.register_fail = true;
    let result = proxy.create_session(7, ListenToken(0), &env);
    assert_eq!(result, Err(AcceptError::RegisterError));
    assert_eq!(proxy.sessions.len(), 0);
    // The allocated token is never reused: the counter moved past it.
    assert_eq!(proxy.token_counter.counter, 2);
}

#[test]
fn session_new_carries_its_arguments() {
    let session = HttpSession::new(1, 2, 3, 4, 9).unwrap();
    assert_eq!(session.configured_backend_timeout, 1);
    assert_eq!(session.configured_connect_timeout, 2);
    assert_eq!(session.configured_frontend_timeout, 3);
    assert_eq!(session.configured_request_timeout, 4);
    assert_eq!(session.frontend_token, 9);
}

#[test]
fn server_bind_yields_an_empty_backlog_or_the_failed_stage() {
    let mut env = NetEnv::all_succeed();
    let bound = server_bind(loopback(8080), &mut env);
    assert!(bound.is_ok());
    assert_eq!(bound.unwrap().pending.len(), 0);
    env.bind_fail = true;
    let failed = server_bind(loopback(8080), &mut env);
    match failed {
        Err(stage) => assert_eq!(stage, ServerBindError::BindError),
        Ok(_) => panic!("bind was told to fail"),
    }
}
