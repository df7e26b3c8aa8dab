use siranga::registry::Registry;
use siranga::renderer::{
    compute_column_skip, compute_widths, footer_commands, wrap_commands, Effect, Message,
    Renderer, RendererInner, Tint, TunnelRow,
};
use siranga::stats::Stats;
use siranga::tunnel::{Tunnel, TunnelAccess};

fn row(name: &str, access: &str, port: &str, address: &str, stats: Stats) -> TunnelRow {
    TunnelRow {
        id: 0,
        name: name.to_string(),
        access: access.to_string(),
        access_tint: Tint::Plain,
        port: port.to_string(),
        address: address.to_string(),
        address_tint: Tint::Plain,
        stats,
    }
}

fn no_traffic() -> Stats {
    Stats { connections: 0, rx: 0, tx: 0 }
}

#[test]
fn header_names_the_columns() {
    assert_eq!(Tunnel::header(), vec!["Name", "Access", "Port", "Address", "Conn", "Rx", "Tx"]);
}

#[test]
fn row_of_an_attached_private_tunnel() {
    let mut registry = Registry::new("tunnel.example.com");
    let tunnel = Tunnel::create_as(
        &mut registry,
        1,
        "localhost",
        8080,
        TunnelAccess::Private("alice".to_string()),
        "kitten",
    );
    tunnel.open(&mut registry);
    let row = Tunnel::to_row(&tunnel, &registry).unwrap();
    assert_eq!(row.name, "kitten");
    assert_eq!(row.access, "alice");
    assert_eq!(row.access_tint, Tint::Yellow);
    assert_eq!(row.port, "8080");
    assert_eq!(row.address, "http://kitten.tunnel.example.com");
    assert_eq!(row.address_tint, Tint::Plain);
    assert_eq!(row.stats, Stats { connections: 1, rx: 0, tx: 0 });
    assert_eq!(
        row.cells(),
        vec!["kitten", "alice", "8080", "http://kitten.tunnel.example.com", "1", "0 B", "0 B"]
    );
}

#[test]
fn row_of_a_detached_tunnel_says_failed() {
    let mut registry = Registry::new("tunnel.example.com");
    let _a = Tunnel::create(&mut registry, 1, "custom", 80, TunnelAccess::Public);
    let b = Tunnel::create(&mut registry, 2, "custom", 4_000_000_000, TunnelAccess::Protected);
    let row = Tunnel::to_row(&b, &registry).unwrap();
    assert_eq!(row.name, "custom");
    assert_eq!(row.address, "FAILED");
    assert_eq!(row.address_tint, Tint::Red);
    assert_eq!(row.access, "PROTECTED");
    assert_eq!(row.access_tint, Tint::Blue);
    assert_eq!(row.port, "4000000000");
}

#[test]
fn row_of_a_public_tunnel_is_green() {
    let mut registry = Registry::new("tunnel.example.com");
    let a = Tunnel::create(&mut registry, 1, "custom", 0, TunnelAccess::Public);
    let row = Tunnel::to_row(&a, &registry).unwrap();
    assert_eq!(row.access, "PUBLIC");
    assert_eq!(row.access_tint, Tint::Green);
    assert_eq!(row.port, "0");
}

#[test]
fn cells_show_the_counters_with_prefixes() {
    let stats = Stats { connections: 12, rx: 123_456, tx: 50_000_000_000 };
    let cells = row("n", "a", "1", "x", stats).cells();
    assert_eq!(cells, vec!["n", "a", "1", "x", "12", "123 kB", "50 GB"]);
}

#[test]
fn widths_of_an_empty_table_are_those_of_the_header() {
    assert_eq!(compute_widths(&Vec::new()), vec![4, 6, 4, 7, 4, 2, 2]);
}

#[test]
fn widths_are_those_of_the_widest_cells() {
    let rows = vec![
        row("kitten", "alice", "8080", "http://kitten.tunnel.example.com", no_traffic()),
        row("a", "bartholomew", "80", "FAILED", Stats { connections: 123_456, rx: 0, tx: 1 }),
    ];
    assert_eq!(compute_widths(&rows), vec![6, 11, 4, 32, 6, 3, 3]);
}

#[test]
fn wide_characters_take_two_columns() {
    let rows = vec![row("\u{65e5}\u{672c}\u{8a9e}", "a\u{0301}", "1", "x", no_traffic())];
    let widths = compute_widths(&rows);
    assert_eq!(widths[0], 6);
    assert_eq!(widths[1], 6);
}

#[test]
fn all_columns_are_shown_when_they_fit() {
    let widths = vec![6, 11, 4, 32, 6, 3, 3];
    assert_eq!(compute_column_skip(&widths, 3, 2, 85), (7, 0));
    assert_eq!(compute_column_skip(&widths, 3, 2, 200), (7, 0));
}

#[test]
fn columns_are_hidden_step_by_step() {
    let widths = vec![6, 11, 4, 32, 6, 3, 3];
    assert_eq!(compute_column_skip(&widths, 3, 2, 84), (4, 0));
    assert_eq!(compute_column_skip(&widths, 3, 2, 64), (4, 0));
    assert_eq!(compute_column_skip(&widths, 3, 2, 63), (4, 1));
    assert_eq!(compute_column_skip(&widths, 3, 2, 55), (4, 1));
    assert_eq!(compute_column_skip(&widths, 3, 2, 54), (4, 2));
    assert_eq!(compute_column_skip(&widths, 3, 2, 41), (4, 2));
    assert_eq!(compute_column_skip(&widths, 3, 2, 40), (4, 3));
    assert_eq!(compute_column_skip(&widths, 3, 2, 0), (4, 3));
}

#[test]
fn large_widths_do_not_overflow() {
    let widths = vec![65535u16; 7];
    assert_eq!(compute_column_skip(&widths, 65535, 70000, 65535), (4, 3));
    assert_eq!(compute_column_skip(&Vec::new(), 3, 2, 1), (4, 3));
    assert_eq!(compute_column_skip(&Vec::new(), 3, 2, 2), (7, 0));
    assert_eq!(compute_column_skip(&vec![5u16], 3, 0, 5), (7, 0));
    assert_eq!(compute_column_skip(&vec![5u16], 3, 0, 4), (4, 1));
}

#[test]
fn footer_lists_other_keys_when_a_row_is_selected() {
    let without = footer_commands(false);
    let with = footer_commands(true);
    assert_eq!(without.len(), 7);
    assert_eq!(with.len(), 12);
    assert_eq!(without[0].map(|c| (c.key, c.text)), Some(("q", "quit")));
    assert_eq!(without[1].map(|c| (c.key, c.text)), Some(("\u{2193}/j", "select first")));
    assert!(without[3].is_none());
    assert_eq!(without[6].map(|c| (c.key, c.text)), Some(("shift-p", "make all public")));
    assert_eq!(with[1].map(|c| (c.key, c.text)), Some(("esc", "deselect")));
    assert!(with[4].is_none());
    assert_eq!(with[7].map(|c| (c.key, c.text)), Some(("shift-r", "retry")));
    assert!(with[8].is_none());
    assert_eq!(with[11].map(|c| (c.key, c.text)), Some(("shift-p", "make public")));
}

#[test]
fn footer_breaks_only_at_the_marks_when_wide() {
    let lines = wrap_commands(&footer_commands(false), 200);
    assert_eq!(lines, vec![vec![0, 1, 2], vec![4, 5, 6]]);
    let lines = wrap_commands(&footer_commands(true), 200);
    assert_eq!(lines, vec![vec![0, 1, 2, 3], vec![5, 6, 7], vec![9, 10, 11]]);
}

#[test]
fn footer_wraps_when_narrow() {
    let lines = wrap_commands(&footer_commands(false), 25);
    assert_eq!(lines, vec![vec![0, 1], vec![2], vec![4], vec![5], vec![6]]);
    let lines = wrap_commands(&footer_commands(false), 24);
    assert_eq!(lines[0], vec![0]);
    let lines = wrap_commands(&footer_commands(false), 0);
    assert_eq!(lines, vec![vec![0], vec![1], vec![2], vec![4], vec![5], vec![6]]);
}

#[test]
fn footer_height_counts_the_border() {
    let mut inner = RendererInner::new();
    let footer = inner.compute_footer_text(202);
    assert_eq!(footer.lines.len(), 2);
    assert_eq!(footer.height, 4);
    assert_eq!(footer.commands.len(), 7);
    inner.apply(Message::Select(Some(0)));
    let footer = inner.compute_footer_text(202);
    assert_eq!(footer.lines.len(), 3);
    assert_eq!(footer.height, 5);
    let footer = inner.compute_footer_text(2);
    assert_eq!(footer.height as usize, footer.lines.len() + 2);
}

#[test]
fn messages_change_what_is_shown() {
    let mut inner = RendererInner::new();
    assert_eq!(inner.selected(), None);
    assert!(inner.rows().is_empty());
    assert!(inner.input().is_none());
    assert!(matches!(inner.apply(Message::Select(Some(2))), Effect::Nothing));
    assert_eq!(inner.selected(), Some(2));
    assert!(matches!(inner.apply(Message::Rename(Some("pup".to_string()))), Effect::Nothing));
    assert_eq!(inner.input().map(|s| s.as_str()), Some("pup"));
    let rows = vec![row("a", "b", "1", "x", no_traffic())];
    assert!(matches!(inner.apply(Message::Rows(rows)), Effect::Nothing));
    assert_eq!(inner.rows().len(), 1);
    assert_eq!(inner.rows()[0].name, "a");
    assert!(matches!(inner.apply(Message::Rename(None)), Effect::Nothing));
    assert!(inner.input().is_none());
    assert_eq!(inner.selected(), Some(2));
}

#[test]
fn messages_say_what_to_do_to_the_terminal() {
    let mut inner = RendererInner::new();
    assert!(matches!(
        inner.apply(Message::Resize { width: 80, height: 24 }),
        Effect::Resize { width: 80, height: 24 }
    ));
    assert!(matches!(inner.apply(Message::Redraw), Effect::Draw));
    assert!(matches!(inner.apply(Message::Help("usage".to_string())), Effect::Leave(ref t) if t == "usage"));
    assert!(matches!(inner.apply(Message::Close), Effect::Stop));
    assert_eq!(inner.selected(), None);
}

#[test]
fn renderer_sends_nothing_before_it_is_started() {
    let renderer = Renderer::new();
    let registry = Registry::new("apex");
    assert!(renderer.select(Some(1)).is_empty());
    assert!(renderer.rename(None).is_empty());
    assert!(renderer.help("x").is_empty());
    assert!(renderer.close().is_empty());
    assert!(renderer.resize(1, 2).is_empty());
    assert!(renderer.rows(&Vec::new(), &registry).is_empty());
    assert!(renderer.redraw().is_empty());
}

#[test]
fn renderer_messages_are_followed_by_a_redraw() {
    let mut renderer = Renderer::new();
    renderer.start();
    let sent = renderer.select(Some(1));
    assert!(matches!(sent[..], [Message::Select(Some(1)), Message::Redraw]));
    let buffer = "pup".to_string();
    let sent = renderer.rename(Some(&buffer));
    assert!(matches!(sent[..], [Message::Rename(Some(ref t)), Message::Redraw] if t == "pup"));
    let sent = renderer.resize(80, 24);
    assert!(matches!(sent[..], [Message::Resize { width: 80, height: 24 }, Message::Redraw]));
    let sent = renderer.redraw();
    assert!(matches!(sent[..], [Message::Redraw]));
}

#[test]
fn help_and_close_are_sent_alone() {
    let mut renderer = Renderer::new();
    renderer.start();
    let sent = renderer.help("a\nb");
    assert!(matches!(sent[..], [Message::Help(ref t)] if t == "a\n\rb"));
    let sent = renderer.close();
    assert!(matches!(sent[..], [Message::Close]));
}

#[test]
fn rows_message_holds_a_row_for_each_live_tunnel() {
    let mut registry = Registry::new("apex");
    let a = Tunnel::create(&mut registry, 1, "a", 1, TunnelAccess::Public);
    let b = Tunnel::create(&mut registry, 1, "b", 2, TunnelAccess::Public);
    let c = Tunnel::create(&mut registry, 1, "c", 3, TunnelAccess::Public);
    registry.release(b.number());
    let mut renderer = Renderer::new();
    renderer.start();
    let sent = renderer.rows(&vec![a, b, c], &registry);
    assert_eq!(sent.len(), 2);
    assert!(matches!(sent[1], Message::Redraw));
    match &sent[0] {
        Message::Rows(rows) => {
            assert_eq!(rows.len(), 2);
            assert_eq!(rows[0].name, "a");
            assert_eq!(rows[1].name, "c");
            assert_eq!(rows[1].address, "http://c.apex");
        }
        other => panic!("expected rows, got {other:?}"),
    }
}

#[test]
fn refresh_reads_the_counters_again() {
    let mut registry = Registry::new("apex");
    let a = Tunnel::create(&mut registry, 1, "a", 1, TunnelAccess::Public);
    let b = Tunnel::create(&mut registry, 1, "b", 2, TunnelAccess::Public);
    let mut renderer = Renderer::new();
    renderer.start();
    let mut inner = RendererInner::new();
    let ids = (a.number(), b.number());
    for message in renderer.rows(&vec![a, b], &registry) {
        inner.apply(message);
    }
    assert_eq!(inner.rows()[0].id, ids.0);
    assert_eq!(inner.rows()[0].stats, Stats { connections: 0, rx: 0, tx: 0 });
    registry.open(ids.0);
    registry.record_write(ids.0, siranga::stats::Polled::Ready(9));
    registry.release(ids.1);
    inner.refresh(&registry);
    assert_eq!(inner.rows().len(), 2);
    assert_eq!(inner.rows()[0].stats, Stats { connections: 1, rx: 9, tx: 0 });
    assert_eq!(inner.rows()[0].name, "a");
    assert_eq!(inner.rows()[1].name, "b");
    assert_eq!(inner.rows()[1].stats, Stats { connections: 0, rx: 0, tx: 0 });
}
