use siranga::input::Input;
use siranga::registry::Registry;
use siranga::session::{terminal_text, Args, Handler, Reaction, SessionError};
use siranga::tunnel::TunnelAccess;

fn session_with(registry: &mut Registry, user: &str, forwards: &[&str]) -> Handler {
    let mut handler = Handler::new();
    handler.set_user(user);
    for address in forwards {
        assert_eq!(handler.tcpip_forward(registry, 1, address, 8080), Ok(true));
    }
    handler
}

fn type_text(handler: &mut Handler, registry: &mut Registry, text: &str) {
    for c in text.chars() {
        handler.handle_input(registry, Input::Char(c));
    }
}

fn address_of(handler: &Handler, registry: &Registry, row: usize) -> Option<String> {
    handler.tunnels()[row].get_address(registry)
}

#[test]
fn new_session_owns_nothing() {
    let handler = Handler::new();
    assert!(handler.tunnels().is_empty());
    assert_eq!(handler.selected(), None);
    assert_eq!(handler.pty_channel(), None);
    assert!(handler.user().is_none());
    assert!(handler.rename_buffer().is_none());
    assert!(handler.channel_open_session());
}

#[test]
fn forward_before_authentication_is_inconsistent() {
    let mut registry = Registry::new("tunnel.example.com");
    let mut handler = Handler::new();
    assert_eq!(
        handler.tcpip_forward(&mut registry, 1, "custom", 80),
        Err(SessionError::Inconsistent)
    );
    assert!(handler.tunnels().is_empty());
    assert_eq!(registry.len(), 0);
}

#[test]
fn forward_creates_a_private_tunnel_of_the_user() {
    let mut registry = Registry::new("tunnel.example.com");
    let handler = session_with(&mut registry, "alice", &["custom"]);
    assert_eq!(handler.tunnels().len(), 1);
    let inner = registry.get("custom.tunnel.example.com").unwrap();
    assert!(matches!(inner.access, TunnelAccess::Private(ref owner) if owner == "alice"));
    assert_eq!(inner.port, 8080);
    assert_eq!(inner.handle, 1);
}

#[test]
fn forward_succeeds_even_when_the_name_is_taken() {
    let mut registry = Registry::new("tunnel.example.com");
    let a = session_with(&mut registry, "alice", &["custom"]);
    let mut b = Handler::new();
    b.set_user("bob");
    assert_eq!(b.tcpip_forward(&mut registry, 2, "custom", 80), Ok(true));
    assert_eq!(address_of(&b, &registry, 0), None);
    assert_eq!(address_of(&a, &registry, 0), Some("custom.tunnel.example.com".to_string()));
    assert_eq!(registry.get("custom.tunnel.example.com").unwrap().handle, 1);
}

#[test]
fn key_is_accepted_only_if_listed() {
    let mut handler = Handler::new();
    let keys = vec![vec![1u8, 2, 3], vec![4u8, 5]];
    assert!(handler.auth_publickey("alice", &keys, &vec![4u8, 5]));
    assert_eq!(handler.user().map(|u| u.as_str()), Some("alice"));
    assert!(!handler.auth_publickey("bob", &keys, &vec![4u8]));
    assert_eq!(handler.user().map(|u| u.as_str()), Some("bob"));
    assert!(!handler.auth_publickey("bob", &keys, &vec![4u8, 5, 6]));
    assert!(!handler.auth_publickey("bob", &Vec::new(), &vec![1u8, 2, 3]));
    assert!(!handler.auth_publickey("bob", &keys, &vec![3u8, 2, 1]));
}

#[test]
fn selection_moves_down_and_stops_at_the_last_row() {
    let mut registry = Registry::new("apex");
    let mut handler = session_with(&mut registry, "alice", &["a", "b", "c"]);
    assert_eq!(handler.handle_input(&mut registry, Input::Down), Reaction::Redraw);
    assert_eq!(handler.selected(), Some(0));
    handler.handle_input(&mut registry, Input::Char('j'));
    assert_eq!(handler.selected(), Some(1));
    handler.handle_input(&mut registry, Input::Down);
    handler.handle_input(&mut registry, Input::Down);
    assert_eq!(handler.selected(), Some(2));
}

#[test]
fn selection_moves_up_and_stops_at_the_first_row() {
    let mut registry = Registry::new("apex");
    let mut handler = session_with(&mut registry, "alice", &["a", "b", "c"]);
    assert_eq!(handler.handle_input(&mut registry, Input::Up), Reaction::Redraw);
    assert_eq!(handler.selected(), Some(2));
    handler.handle_input(&mut registry, Input::Char('k'));
    assert_eq!(handler.selected(), Some(1));
    handler.handle_input(&mut registry, Input::Up);
    handler.handle_input(&mut registry, Input::Up);
    assert_eq!(handler.selected(), Some(0));
}

#[test]
fn an_empty_table_has_no_selection() {
    let mut registry = Registry::new("apex");
    let mut handler = session_with(&mut registry, "alice", &[]);
    assert_eq!(handler.handle_input(&mut registry, Input::Down), Reaction::Redraw);
    assert_eq!(handler.selected(), None);
    handler.handle_input(&mut registry, Input::Up);
    assert_eq!(handler.selected(), None);
    handler.next_row();
    handler.previous_row();
    assert_eq!(handler.selected(), None);
}

#[test]
fn escape_clears_the_selection() {
    let mut registry = Registry::new("apex");
    let mut handler = session_with(&mut registry, "alice", &["a"]);
    handler.handle_input(&mut registry, Input::Down);
    assert_eq!(handler.handle_input(&mut registry, Input::Esc), Reaction::Redraw);
    assert_eq!(handler.selected(), None);
}

#[test]
fn q_closes() {
    let mut registry = Registry::new("apex");
    let mut handler = session_with(&mut registry, "alice", &["a"]);
    assert_eq!(handler.handle_input(&mut registry, Input::Char('q')), Reaction::Close);
    assert_eq!(handler.tunnels().len(), 1);
}

#[test]
fn unknown_keys_are_ignored() {
    let mut registry = Registry::new("apex");
    let mut handler = session_with(&mut registry, "alice", &["a"]);
    assert_eq!(handler.handle_input(&mut registry, Input::Char('x')), Reaction::Ignore);
    assert_eq!(handler.handle_input(&mut registry, Input::Other), Reaction::Ignore);
    assert_eq!(handler.handle_input(&mut registry, Input::Enter), Reaction::Ignore);
    assert_eq!(handler.handle_input(&mut registry, Input::Backspace), Reaction::Ignore);
    assert_eq!(handler.handle_input(&mut registry, Input::Delete), Reaction::Ignore);
    assert_eq!(handler.handle_input(&mut registry, Input::Char('R')), Reaction::Ignore);
}

#[test]
fn access_keys_act_on_all_without_a_selection() {
    let mut registry = Registry::new("apex");
    let mut handler = session_with(&mut registry, "alice", &["a", "b"]);
    assert_eq!(handler.handle_input(&mut registry, Input::Char('P')), Reaction::Redraw);
    assert!(handler.tunnels()[0].is_public(&registry));
    assert!(handler.tunnels()[1].is_public(&registry));
    assert_eq!(handler.handle_input(&mut registry, Input::CtrlP), Reaction::Redraw);
    assert!(matches!(handler.tunnels()[0].access(&registry), Some(TunnelAccess::Protected)));
    assert!(matches!(handler.tunnels()[1].access(&registry), Some(TunnelAccess::Protected)));
    assert_eq!(handler.handle_input(&mut registry, Input::Char('p')), Reaction::Redraw);
    assert!(matches!(
        handler.tunnels()[1].access(&registry),
        Some(TunnelAccess::Private(ref owner)) if owner == "alice"
    ));
}

#[test]
fn access_keys_act_on_the_selected_row_only() {
    let mut registry = Registry::new("apex");
    let mut handler = session_with(&mut registry, "alice", &["a", "b"]);
    handler.handle_input(&mut registry, Input::Down);
    handler.handle_input(&mut registry, Input::Down);
    handler.handle_input(&mut registry, Input::Char('P'));
    assert!(!handler.tunnels()[0].is_public(&registry));
    assert!(handler.tunnels()[1].is_public(&registry));
}

#[test]
fn access_of_other_sessions_is_not_touched() {
    let mut registry = Registry::new("apex");
    let other = session_with(&mut registry, "bob", &["x"]);
    let mut handler = session_with(&mut registry, "alice", &["a"]);
    handler.handle_input(&mut registry, Input::Char('P'));
    assert!(!other.tunnels()[0].is_public(&registry));
    handler.set_access_all(&mut registry, TunnelAccess::Protected);
    assert!(matches!(
        other.tunnels()[0].access(&registry),
        Some(TunnelAccess::Private(ref owner)) if owner == "bob"
    ));
}

#[test]
fn rename_by_keys() {
    let mut registry = Registry::new("tunnel.example.com");
    let mut handler = Handler::new();
    handler.set_user("alice");
    assert_eq!(handler.tcpip_forward(&mut registry, 1, "kitten", 8080), Ok(true));
    assert!(registry.get("kitten.tunnel.example.com").is_some());
    handler.handle_input(&mut registry, Input::Down);
    assert_eq!(handler.handle_input(&mut registry, Input::Char('r')), Reaction::Redraw);
    assert_eq!(handler.rename_buffer().map(|b| b.as_str()), Some(""));
    type_text(&mut handler, &mut registry, "puppy");
    assert_eq!(handler.rename_buffer().map(|b| b.as_str()), Some("puppy"));
    assert_eq!(handler.handle_input(&mut registry, Input::Enter), Reaction::Redraw);
    assert!(handler.rename_buffer().is_none());
    assert!(registry.get("kitten.tunnel.example.com").is_none());
    assert!(registry.get("puppy.tunnel.example.com").is_some());
    assert_eq!(address_of(&handler, &registry, 0), Some("puppy.tunnel.example.com".to_string()));
}

#[test]
fn rename_needs_a_selection() {
    let mut registry = Registry::new("apex");
    let mut handler = session_with(&mut registry, "alice", &["a"]);
    assert_eq!(handler.handle_input(&mut registry, Input::Char('r')), Reaction::Redraw);
    assert!(handler.rename_buffer().is_none());
}

#[test]
fn rename_input_is_lowercase_alphanumeric() {
    let mut registry = Registry::new("apex");
    let mut handler = session_with(&mut registry, "alice", &["a"]);
    handler.handle_input(&mut registry, Input::Down);
    handler.handle_input(&mut registry, Input::Char('r'));
    assert_eq!(handler.handle_input(&mut registry, Input::Char('A')), Reaction::Redraw);
    assert_eq!(handler.handle_input(&mut registry, Input::Char('-')), Reaction::Ignore);
    assert_eq!(handler.handle_input(&mut registry, Input::Char('.')), Reaction::Ignore);
    assert_eq!(handler.handle_input(&mut registry, Input::Char('7')), Reaction::Redraw);
    assert_eq!(handler.handle_input(&mut registry, Input::Char('q')), Reaction::Redraw);
    assert_eq!(handler.handle_input(&mut registry, Input::Up), Reaction::Ignore);
    assert_eq!(handler.rename_buffer().map(|b| b.as_str()), Some("a7q"));
    assert_eq!(handler.selected(), Some(0));
}

#[test]
fn backspace_removes_the_last_character() {
    let mut registry = Registry::new("apex");
    let mut handler = session_with(&mut registry, "alice", &["a"]);
    handler.handle_input(&mut registry, Input::Down);
    handler.handle_input(&mut registry, Input::Char('r'));
    type_text(&mut handler, &mut registry, "ab");
    assert_eq!(handler.handle_input(&mut registry, Input::Backspace), Reaction::Redraw);
    assert_eq!(handler.rename_buffer().map(|b| b.as_str()), Some("a"));
    handler.handle_input(&mut registry, Input::Backspace);
    assert_eq!(handler.handle_input(&mut registry, Input::Backspace), Reaction::Redraw);
    assert_eq!(handler.rename_buffer().map(|b| b.as_str()), Some(""));
}

#[test]
fn escape_discards_the_rename() {
    let mut registry = Registry::new("apex");
    let mut handler = session_with(&mut registry, "alice", &["a"]);
    handler.handle_input(&mut registry, Input::Down);
    handler.handle_input(&mut registry, Input::Char('r'));
    type_text(&mut handler, &mut registry, "zzz");
    assert_eq!(handler.handle_input(&mut registry, Input::Esc), Reaction::Redraw);
    assert!(handler.rename_buffer().is_none());
    assert_eq!(handler.selected(), Some(0));
    assert_eq!(address_of(&handler, &registry, 0), Some("a.apex".to_string()));
}

#[test]
fn retry_by_key_attaches_once_free() {
    let mut registry = Registry::new("apex");
    let mut first = session_with(&mut registry, "alice", &["same"]);
    let mut second = session_with(&mut registry, "bob", &["same"]);
    second.handle_input(&mut registry, Input::Down);
    assert_eq!(second.handle_input(&mut registry, Input::Char('R')), Reaction::Redraw);
    assert_eq!(address_of(&second, &registry, 0), None);
    first.handle_input(&mut registry, Input::Down);
    assert_eq!(first.handle_input(&mut registry, Input::Delete), Reaction::Redraw);
    second.handle_input(&mut registry, Input::Char('R'));
    assert_eq!(address_of(&second, &registry, 0), Some("same.apex".to_string()));
}

#[test]
fn delete_removes_the_row_and_clamps_the_selection() {
    let mut registry = Registry::new("apex");
    let mut handler = session_with(&mut registry, "alice", &["a", "b", "c"]);
    handler.handle_input(&mut registry, Input::Up);
    assert_eq!(handler.selected(), Some(2));
    assert_eq!(handler.handle_input(&mut registry, Input::Delete), Reaction::Redraw);
    assert_eq!(handler.tunnels().len(), 2);
    assert_eq!(handler.selected(), Some(1));
    assert!(registry.get("c.apex").is_none());
    assert!(registry.get("b.apex").is_some());
    handler.handle_input(&mut registry, Input::Up);
    handler.handle_input(&mut registry, Input::Delete);
    assert_eq!(handler.selected(), Some(0));
    assert!(registry.get("a.apex").is_none());
    handler.handle_input(&mut registry, Input::Delete);
    assert_eq!(handler.selected(), None);
    assert!(handler.tunnels().is_empty());
    assert_eq!(registry.len(), 0);
}

#[test]
fn data_on_another_channel_is_ignored() {
    let mut registry = Registry::new("apex");
    let mut handler = session_with(&mut registry, "alice", &["a"]);
    assert_eq!(handler.data(&mut registry, 3, b"j"), Reaction::Ignore);
    handler.pty_request(3);
    assert_eq!(handler.pty_channel(), Some(3));
    assert_eq!(handler.data(&mut registry, 4, b"j"), Reaction::Ignore);
    assert_eq!(handler.selected(), None);
    assert_eq!(handler.data(&mut registry, 3, b"j"), Reaction::Redraw);
    assert_eq!(handler.selected(), Some(0));
    assert_eq!(handler.data(&mut registry, 3, &[27]), Reaction::Redraw);
    assert_eq!(handler.selected(), None);
    assert_eq!(handler.data(&mut registry, 3, b"q"), Reaction::Close);
}

#[test]
fn exec_public_makes_all_tunnels_public() {
    let mut registry = Registry::new("apex");
    let handler = session_with(&mut registry, "alice", &["a", "b"]);
    let reply =
        handler.exec_request(&mut registry, Some(Args { public: true, protected: false }), "");
    assert!(reply.redraw);
    assert!(reply.help.is_none());
    assert!(handler.tunnels()[0].is_public(&registry));
    assert!(handler.tunnels()[1].is_public(&registry));
}

#[test]
fn exec_protected_makes_all_tunnels_protected() {
    let mut registry = Registry::new("apex");
    let handler = session_with(&mut registry, "alice", &["a"]);
    let args = Args { public: false, protected: true };
    assert!(!args.make_public());
    assert!(args.make_protected());
    let reply = handler.exec_request(&mut registry, Some(args), "");
    assert!(reply.redraw);
    assert!(matches!(handler.tunnels()[0].access(&registry), Some(TunnelAccess::Protected)));
}

#[test]
fn exec_without_flags_changes_nothing() {
    let mut registry = Registry::new("apex");
    let handler = session_with(&mut registry, "alice", &["a"]);
    let reply =
        handler.exec_request(&mut registry, Some(Args { public: false, protected: false }), "");
    assert!(!reply.redraw);
    assert!(reply.help.is_none());
    assert!(!handler.tunnels()[0].is_public(&registry));
}

#[test]
fn exec_that_cannot_be_parsed_shows_the_usage() {
    let mut registry = Registry::new("apex");
    let handler = session_with(&mut registry, "alice", &["a"]);
    let reply = handler.exec_request(&mut registry, None, "error: unexpected\n\nUsage: x\n");
    assert!(!reply.redraw);
    assert_eq!(reply.help, Some("error: unexpected\n\r\n\rUsage: x\n\r".to_string()));
    assert!(!handler.tunnels()[0].is_public(&registry));
}

#[test]
fn terminal_text_adds_carriage_returns() {
    assert_eq!(terminal_text(""), "");
    assert_eq!(terminal_text("plain"), "plain");
    assert_eq!(terminal_text("a\nb"), "a\n\rb");
    assert_eq!(terminal_text("\n\n"), "\n\r\n\r");
    assert_eq!(terminal_text("\u{2193}\n"), "\u{2193}\n\r");
}

#[test]
fn closing_the_session_drops_its_tunnels() {
    let mut registry = Registry::new("apex");
    let other = session_with(&mut registry, "bob", &["x"]);
    let handler = session_with(&mut registry, "alice", &["a", "b"]);
    assert_eq!(registry.len(), 3);
    handler.drop_tunnels(&mut registry);
    assert_eq!(registry.len(), 1);
    assert!(registry.get("a.apex").is_none());
    assert!(registry.get("b.apex").is_none());
    assert!(registry.get("x.apex").is_some());
    assert_eq!(address_of(&other, &registry, 0), Some("x.apex".to_string()));
}
