use proxy_core::http::AcceptError;
use proxy_core::net::NetEnv;
use proxy_core::server::{ListenToken, Server, SessionHandle, SessionManager};

fn server_with_active_listener(env: &mut NetEnv) -> Server {
    let server = Server::new(env).unwrap();
    assert_eq!(server.http.sessions.len(), 1);
    assert!(matches!(
        server.http.sessions.get(0),
        Some(SessionHandle::Listen(_))
    ));
    server
}

#[test]
fn drain_yields_every_pending_connection_then_would_block() {
    let mut env = NetEnv::all_succeed();
    let mut server = server_with_active_listener(&mut env);
    for conn in [101, 102, 103] {
        assert!(server.http.deliver_connection(ListenToken(0), conn));
    }
    server.accept(ListenToken(0));
    assert_eq!(
        server.accept_queue,
        vec![(101, ListenToken(0)), (102, ListenToken(0)), (103, ListenToken(0))]
    );
    // The backlog is exhausted: the next accept reports would-block.
    assert_eq!(server.http.accept(ListenToken(0)), Err(AcceptError::WouldBlock));
}

#[test]
fn drain_on_an_empty_backlog_enqueues_nothing() {
    let mut env = NetEnv::all_succeed();
    let mut server = server_with_active_listener(&mut env);
    server.accept(ListenToken(0));
    assert!(server.accept_queue.is_empty());
}

#[test]
fn one_client_becomes_one_session_after_one_tick() {
    let mut env = NetEnv::all_succeed();
    let mut server = server_with_active_listener(&mut env);
    assert!(server.http.deliver_connection(ListenToken(0), 7));
    server.run_tick(&vec![(0, true)], &env);
    assert_eq!(server.http.sessions.len(), 2);
    assert!(matches!(server.http.sessions.get(0), Some(SessionHandle::Listen(_))));
    match server.http.sessions.get(1) {
        Some(SessionHandle::Http(session)) => {
            assert_eq!(session.configured_backend_timeout, 10);
            assert_eq!(session.configured_connect_timeout, 10);
            assert_eq!(session.configured_frontend_timeout, 10);
            assert_eq!(session.configured_request_timeout, 10);
        },
        other => panic!("expected a data session under the new token, got {:?}", other),
    }
}

#[test]
fn two_clients_become_two_sessions_with_distinct_tokens() {
    let mut env = NetEnv::all_succeed();
    let mut server = server_with_active_listener(&mut env);
    assert!(server.http.deliver_connection(ListenToken(0), 201));
    assert!(server.http.deliver_connection(ListenToken(0), 202));
    server.run_tick(&vec![(0, true)], &env);
    assert_eq!(server.http.sessions.len(), 3);
    // The listen token is unchanged and still names the listen session.
    assert!(matches!(server.http.sessions.get(0), Some(SessionHandle::Listen(_))));
    // Both connections were promoted, under two distinct fresh tokens.
    assert!(matches!(server.http.sessions.get(1), Some(SessionHandle::Http(_))));
    assert!(matches!(server.http.sessions.get(2), Some(SessionHandle::Http(_))));
}

#[test]
fn queue_is_empty_before_and_after_every_tick() {
    let mut env = NetEnv::all_succeed();
    let mut server = server_with_active_listener(&mut env);
    assert!(server.accept_queue.is_empty());
    assert!(server.http.deliver_connection(ListenToken(0), 5));
    server.run_tick(&vec![(0, true)], &env);
    assert!(server.accept_queue.is_empty());
    server.run_tick(&vec![(0, true)], &env);
    assert!(server.accept_queue.is_empty());
}

#[test]
fn events_for_unknown_tokens_are_ignored() {
    let mut env = NetEnv::all_succeed();
    let mut server = server_with_active_listener(&mut env);
    server.run_tick(&vec![(42, true)], &env);
    assert_eq!(server.http.sessions.len(), 1);
    assert!(server.accept_queue.is_empty());
}

#[test]
fn readiness_of_a_data_session_starts_no_drain() {
    let mut env = NetEnv::all_succeed();
    let mut server = server_with_active_listener(&mut env);
    assert!(server.http.deliver_connection(ListenToken(0), 7));
    server.run_tick(&vec![(0, true)], &env);
    assert_eq!(server.http.sessions.len(), 2);
    // Token 1 names a data session: its readiness must not drain anything.
    assert!(server.http.deliver_connection(ListenToken(0), 8));
    server.run_tick(&vec![(1, true)], &env);
    assert_eq!(server.http.sessions.len(), 2);
}

#[test]
fn non_readable_events_are_ignored() {
    let mut env = NetEnv::all_succeed();
    let mut server = server_with_active_listener(&mut env);
    assert!(server.http.deliver_connection(ListenToken(0), 9));
    server.run_tick(&vec![(0, false)], &env);
    assert_eq!(server.http.sessions.len(), 1);
    // The connection is still pending; a readable event picks it up.
    server.run_tick(&vec![(0, true)], &env);
    assert_eq!(server.http.sessions.len(), 2);
}

#[test]
fn dropped_connections_do_not_block_later_ticks() {
    let mut env = NetEnv::all_succeed();
    let mut server = server_with_active_listener(&mut env);
    assert!(server.http.deliver_connection(ListenToken(0), 11));
    env.register_fail = true;
    server.run_tick(&vec![(0, true)], &env);
    // The connection was dropped, its token wasted, no session created.
    assert_eq!(server.http.sessions.len(), 1);
    assert!(server.accept_queue.is_empty());
    assert_eq!(server.http.token_counter.counter, 2);
    env.register_fail = false;
    assert!(server.http.deliver_connection(ListenToken(0), 12));
    server.run_tick(&vec![(0, true)], &env);
    assert_eq!(server.http.sessions.len(), 2);
    assert!(server.http.sessions.contains(2));
}

#[test]
fn session_manager_insert_overwrites_and_counts() {
    let mut manager = SessionManager::new();
    assert_eq!(manager.len(), 0);
    assert!(!manager.contains(3));
    manager.insert(3, SessionHandle::Http(proxy_core::http::HttpSession::new(1, 1, 1, 1, 3).unwrap()));
    assert_eq!(manager.len(), 1);
    assert!(manager.contains(3));
    manager.insert(3, SessionHandle::Http(proxy_core::http::HttpSession::new(2, 2, 2, 2, 3).unwrap()));
    assert_eq!(manager.len(), 1);
    match manager.get(3) {
        Some(SessionHandle::Http(session)) => assert_eq!(session.configured_backend_timeout, 2),
        other => panic!("expected the overwritten session, got {:?}", other),
    }
}

#[test]
fn startup_with_failing_bind_leaves_the_listener_inert() {
    let mut env = NetEnv::all_succeed();
    env.bind_fail = true;
    let mut server = Server::new(&mut env).unwrap();
    assert_eq!(server.http.sessions.len(), 1);
    // The inert listener accepts nothing and a tick changes nothing.
    assert!(!server.http.deliver_connection(ListenToken(0), 7));
    env.bind_fail = false;
    server.run_tick(&vec![(0, true)], &env);
    assert_eq!(server.http.sessions.len(), 1);
}
