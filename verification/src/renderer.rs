//! The table of the terminal interface: its rows, the widths of its
//! columns, which columns fit, the key bindings below it, and the messages
//! that drive the renderer.
use vstd::prelude::*;
use vstd::string::*;
use unicode_width::UnicodeWidthStr;
use crate::registry::{Registry, RegistryView, SlotView};
use crate::session::{terminal_text, with_carriage_returns};
use crate::stats::Stats;
use crate::text::{decimal, decimal_digits, join};
use crate::tunnel::{optional_text, Access, Tunnel, TunnelAccess};
use crate::units::quantity_text;

verus! {

/// How many columns a text takes on a terminal, as `UnicodeWidthStr::width`
/// of unicode-width counts them.
pub uninterp spec fn text_width(text: Seq<char>) -> nat;

/// Calls `UnicodeWidthStr::width` of unicode-width. Trusted: the width
/// depends on the text alone.
#[verifier::external_body]
fn width_of(text: &str) -> (r: usize)
    ensures
        r == text_width(text@),
{
    UnicodeWidthStr::width(text)
}

/// A width as the table keeps it: in sixteen bits, wrapped.
pub open spec fn narrowed(width: nat) -> u16 {
    (width % 65536) as u16
}

fn narrow(width: usize) -> (r: u16)
    ensures
        r == narrowed(width as nat),
{
    (width % 65536) as u16
}

/// The colour of a cell.
#[derive(Clone, Copy, Debug, PartialEq, Eq, Structural)]
pub enum Tint {
    Plain,
    Yellow,
    Blue,
    Green,
    Red,
}

/// One row of the table: a tunnel as it was when the row was made.
#[derive(Debug)]
pub struct TunnelRow {
    /// The number under which the registry keeps the tunnel.
    pub id: u64,
    pub name: String,
    pub access: String,
    pub access_tint: Tint,
    pub port: String,
    pub address: String,
    pub address_tint: Tint,
    pub stats: Stats,
}

/// `TunnelRow` as a mathematical value.
pub ghost struct TunnelRowView {
    pub id: u64,
    pub name: Seq<char>,
    pub access: Seq<char>,
    pub access_tint: Tint,
    pub port: Seq<char>,
    pub address: Seq<char>,
    pub address_tint: Tint,
    pub stats: Stats,
}

impl View for TunnelRow {
    type V = TunnelRowView;

    open spec fn view(&self) -> TunnelRowView {
        TunnelRowView {
            id: self.id,
            name: self.name@,
            access: self.access@,
            access_tint: self.access_tint,
            port: self.port@,
            address: self.address@,
            address_tint: self.address_tint,
            stats: self.stats,
        }
    }
}

impl DeepView for TunnelRow {
    type V = TunnelRowView;

    open spec fn deep_view(&self) -> TunnelRowView {
        self@
    }
}

impl TunnelRowView {
    /// The texts of the row's seven cells: name, access, port, address,
    /// connections, bytes received, bytes transmitted.
    pub open spec fn cells(self) -> Seq<Seq<char>> {
        seq![
            self.name,
            self.access,
            self.port,
            self.address,
            decimal_digits(self.stats.connections as nat),
            quantity_text(self.stats.rx as nat, "B"@),
            quantity_text(self.stats.tx as nat, "B"@),
        ]
    }
}

/// The titles of the table's seven columns.
pub open spec fn header_texts() -> Seq<Seq<char>> {
    seq!["Name"@, "Access"@, "Port"@, "Address"@, "Conn"@, "Rx"@, "Tx"@]
}

/// The row that shows a tunnel. The access cell names the owner of a
/// private tunnel in yellow and says `PROTECTED` in blue or `PUBLIC` in
/// green; the address cell gives the URL of an attached tunnel and says
/// `FAILED` in red for a detached one.
pub open spec fn row_of(slot: SlotView) -> TunnelRowView {
    TunnelRowView {
        id: slot.inner.id,
        name: slot.entry.name,
        access: match slot.inner.access {
            Access::Private(owner) => owner,
            Access::Protected => "PROTECTED"@,
            Access::Public => "PUBLIC"@,
        },
        access_tint: match slot.inner.access {
            Access::Private(_) => Tint::Yellow,
            Access::Protected => Tint::Blue,
            Access::Public => Tint::Green,
        },
        port: decimal_digits(slot.inner.port as nat),
        address: match slot.entry.address {
            Some(address) => "http://"@ + address,
            None => "FAILED"@,
        },
        address_tint: match slot.entry.address {
            Some(_) => Tint::Plain,
            None => Tint::Red,
        },
        stats: slot.inner.stats,
    }
}

impl TunnelRow {
    /// The texts of the row's cells.
    pub fn cells(&self) -> (r: Vec<String>)
        ensures
            r@.len() == 7,
            r.deep_view() == self@.cells(),
    {
        let mut r: Vec<String> = Vec::new();
        r.push(self.name.clone());
        r.push(self.access.clone());
        r.push(self.port.clone());
        r.push(self.address.clone());
        r.push(decimal(self.stats.connections as u64));
        r.push(self.stats.rx().to_string());
        r.push(self.stats.tx().to_string());
        assert(r.deep_view() =~= self@.cells());
        r
    }
}

impl Tunnel {
    /// The titles of the table's columns.
    pub fn header() -> (r: Vec<String>)
        ensures
            r@.len() == 7,
            r.deep_view() == header_texts(),
    {
        let mut r: Vec<String> = Vec::new();
        r.push(String::from_str("Name"));
        r.push(String::from_str("Access"));
        r.push(String::from_str("Port"));
        r.push(String::from_str("Address"));
        r.push(String::from_str("Conn"));
        r.push(String::from_str("Rx"));
        r.push(String::from_str("Tx"));
        assert(r.deep_view() =~= header_texts());
        r
    }

    /// The row that shows the tunnel; nothing once it was dropped.
    pub fn to_row(tunnel: &Tunnel, registry: &Registry) -> (r: Option<TunnelRow>)
        requires
            registry.wf(),
        ensures
            r.is_some() == registry@.holds(tunnel.id()),
            r.is_some() ==> r.unwrap()@ == row_of(registry@.tunnel(tunnel.id())),
    {
        let id = tunnel.number();
        let Some(inner) = registry.inner(id) else {
            return None;
        };
        let Some(entry) = registry.entry(id) else {
            return None;
        };
        let (access, access_tint) = match inner.access {
            TunnelAccess::Private(owner) => (owner, Tint::Yellow),
            TunnelAccess::Protected => (String::from_str("PROTECTED"), Tint::Blue),
            TunnelAccess::Public => (String::from_str("PUBLIC"), Tint::Green),
        };
        let (address, address_tint) = match entry.address {
            Some(address) => (join("http://", address.as_str()), Tint::Plain),
            None => (String::from_str("FAILED"), Tint::Red),
        };
        Some(
            TunnelRow {
                id: inner.id,
                name: entry.name,
                access,
                access_tint,
                port: decimal(inner.port as u64),
                address,
                address_tint,
                stats: inner.stats,
            },
        )
    }
}

/// The table as texts: the header, then the rows.
pub open spec fn table_texts(rows: Seq<TunnelRowView>) -> Seq<Seq<Seq<char>>> {
    seq![header_texts()] + rows.map_values(|row: TunnelRowView| row.cells())
}

/// The width of the widest cell in column `column` of `table`; 0 for a
/// table without lines.
pub open spec fn column_width(table: Seq<Seq<Seq<char>>>, column: int) -> u16
    decreases table.len(),
{
    if table.len() == 0 {
        0
    } else {
        let above = column_width(table.drop_last(), column);
        let here = narrowed(text_width(table.last()[column]));
        if here > above {
            here
        } else {
            above
        }
    }
}

/// The width of each of the seven columns: that of its widest cell, the
/// header counted in.
pub fn compute_widths(rows: &Vec<TunnelRow>) -> (r: Vec<u16>)
    ensures
        r@.len() == 7,
        forall|column: int|
            0 <= column < 7 ==> r@[column] == column_width(
                table_texts(rows.deep_view()),
                column,
            ),
{
    let ghost table = table_texts(rows.deep_view());
    let header = Tunnel::header();
    let mut r: Vec<u16> = Vec::new();
    let mut column: usize = 0;
    while column < 7
        invariant
            column <= 7,
            r@.len() == column,
            header@.len() == 7,
            header.deep_view() == header_texts(),
            forall|c: int| 0 <= c < column ==> r@[c] == column_width(seq![header_texts()], c),
        decreases 7 - column,
    {
        proof {
            assert(header.deep_view()[column as int] == header[column as int]@);
            assert(seq![header_texts()].drop_last() =~= Seq::<Seq<Seq<char>>>::empty());
            assert(column_width(Seq::<Seq<Seq<char>>>::empty(), column as int) == 0);
        }
        r.push(narrow(width_of(header[column].as_str())));
        column += 1;
    }
    proof {
        assert(table.take(1) =~= seq![header_texts()]);
    }
    let mut i: usize = 0;
    while i < rows.len()
        invariant
            i <= rows.len(),
            r@.len() == 7,
            table == table_texts(rows.deep_view()),
            forall|c: int| 0 <= c < 7 ==> r@[c] == column_width(table.take(i + 1), c),
        decreases rows.len() - i,
    {
        let cells = rows[i].cells();
        let ghost line = table.take(i + 2);
        proof {
            assert(rows.deep_view()[i as int] == rows[i as int]@);
            assert(line.drop_last() =~= table.take(i + 1));
            assert(line.last() == cells.deep_view());
        }
        let mut column: usize = 0;
        while column < 7
            invariant
                column <= 7,
                r@.len() == 7,
                cells@.len() == 7,
                line.len() > 0,
                line.last() == cells.deep_view(),
                forall|c: int| 0 <= c < column ==> r@[c] == column_width(line, c),
                forall|c: int| column <= c < 7 ==> r@[c] == column_width(line.drop_last(), c),
            decreases 7 - column,
        {
            proof {
                assert(cells.deep_view()[column as int] == cells[column as int]@);
            }
            let here = narrow(width_of(cells[column].as_str()));
            if here > r[column] {
                r.set(column, here);
            }
            column += 1;
        }
        i += 1;
    }
    proof {
        assert(table.take(i + 1) =~= table);
    }
    r
}

/// The sum of some widths.
pub open spec fn total(widths: Seq<u16>) -> int
    decreases widths.len(),
{
    if widths.len() == 0 {
        0
    } else {
        total(widths.drop_last()) + widths.last()
    }
}

/// The columns that are shown when the first `take` columns are kept and
/// of those the first `skip` are hidden.
pub open spec fn shown(widths: Seq<u16>, take: int, skip: int) -> Seq<u16> {
    let kept = if take < widths.len() {
        take
    } else {
        widths.len() as int
    };
    if skip < kept {
        widths.subrange(skip, kept)
    } else {
        Seq::empty()
    }
}

/// The width that the shown columns need: their widths, the spacing
/// between each two of them, and the highlight symbol.
pub open spec fn window_width(
    widths: Seq<u16>,
    take: int,
    skip: int,
    column_spacing: u16,
    highlight_symbol: usize,
) -> int {
    let columns = shown(widths, take, skip);
    total(columns) + (if columns.len() > 0 {
        (columns.len() - 1) * column_spacing
    } else {
        0
    }) + narrowed(highlight_symbol as nat)
}

/// Which columns are shown in a table `max_width` wide: all seven if they
/// fit; else the first four; else the first four without the first, the
/// first two or, at last, the first three of them, so that the address is
/// always shown.
pub open spec fn column_window(
    widths: Seq<u16>,
    column_spacing: u16,
    highlight_symbol: usize,
    max_width: u16,
) -> (usize, usize) {
    if window_width(widths, 7, 0, column_spacing, highlight_symbol) <= max_width {
        (7, 0)
    } else if window_width(widths, 4, 0, column_spacing, highlight_symbol) <= max_width {
        (4, 0)
    } else if window_width(widths, 4, 1, column_spacing, highlight_symbol) <= max_width {
        (4, 1)
    } else if window_width(widths, 4, 2, column_spacing, highlight_symbol) <= max_width {
        (4, 2)
    } else {
        (4, 3)
    }
}

fn measure_window(
    widths: &Vec<u16>,
    take: usize,
    skip: usize,
    column_spacing: u16,
    highlight_symbol: usize,
) -> (r: u64)
    requires
        take <= 7,
    ensures
        r == window_width(widths@, take as int, skip as int, column_spacing, highlight_symbol),
{
    let kept = if take < widths.len() {
        take
    } else {
        widths.len()
    };
    let symbol: u64 = narrow(highlight_symbol) as u64;
    if skip < kept {
        let ghost columns = widths@.subrange(skip as int, kept as int);
        let mut sum: u64 = 0;
        let mut i: usize = skip;
        while i < kept
            invariant
                skip <= i <= kept,
                kept <= 7,
                kept <= widths.len(),
                columns == widths@.subrange(skip as int, kept as int),
                sum == total(columns.take(i - skip)),
                sum <= (i - skip) * 65535,
            decreases kept - i,
        {
            proof {
                assert(columns.take(i - skip + 1).drop_last() =~= columns.take(i - skip));
                assert(columns.take(i - skip + 1).last() == widths@[i as int]);
            }
            sum = sum + widths[i] as u64;
            i += 1;
        }
        let gaps: u64 = (kept - skip - 1) as u64;
        proof {
            assert(columns.take(kept - skip) =~= columns);
            assert(gaps * column_spacing <= 6 * 65535) by (nonlinear_arith)
                requires
                    gaps <= 6,
                    column_spacing <= 65535,
            ;
        }
        sum + gaps * (column_spacing as u64) + symbol
    } else {
        symbol
    }
}

pub fn compute_column_skip(
    widths: &Vec<u16>,
    column_spacing: u16,
    highlight_symbol: usize,
    max_width: u16,
) -> (r: (usize, usize))
    ensures
        r == column_window(widths@, column_spacing, highlight_symbol, max_width),
{
    if measure_window(widths, 7, 0, column_spacing, highlight_symbol) <= max_width as u64 {
        (7, 0)
    } else if measure_window(widths, 4, 0, column_spacing, highlight_symbol) <= max_width as u64 {
        (4, 0)
    } else if measure_window(widths, 4, 1, column_spacing, highlight_symbol) <= max_width as u64 {
        (4, 1)
    } else if measure_window(widths, 4, 2, column_spacing, highlight_symbol) <= max_width as u64 {
        (4, 2)
    } else {
        (4, 3)
    }
}

/// Whichever columns are hidden, the address, which is the fourth column,
/// is among those shown.
pub proof fn address_is_always_shown(
    widths: Seq<u16>,
    column_spacing: u16,
    highlight_symbol: usize,
    max_width: u16,
)
    ensures
        column_window(widths, column_spacing, highlight_symbol, max_width).1 <= 3,
        column_window(widths, column_spacing, highlight_symbol, max_width).0 >= 4,
{
}

/// A key binding as the footer shows it: the key and what it does.
#[derive(Clone, Copy, Debug)]
pub struct Command {
    pub key: &'static str,
    pub text: &'static str,
}

/// `Command` as a mathematical value.
pub ghost struct CommandView {
    pub key: Seq<char>,
    pub text: Seq<char>,
}

impl View for Command {
    type V = CommandView;

    open spec fn view(&self) -> CommandView {
        CommandView { key: self.key@, text: self.text@ }
    }
}

/// The view of an entry of the footer: a key binding, or the mark that
/// ends a line.
pub open spec fn entry_view(entry: Option<Command>) -> Option<CommandView> {
    match entry {
        Some(command) => Some(command@),
        None => None,
    }
}

/// The views of the entries of the footer.
pub open spec fn entry_views(entries: Seq<Option<Command>>) -> Seq<Option<CommandView>> {
    entries.map_values(|entry: Option<Command>| entry_view(entry))
}

/// The width of a key binding: the key, a space, the text.
pub open spec fn command_width(command: CommandView) -> int {
    (text_width(command.key) + text_width(" "@) + text_width(command.text)) as int
}

/// The key bindings that the footer lists, with `None` where a line ends:
/// with a row selected those that act on it, without one those that select
/// a row or act on all.
pub open spec fn footer_entries(selected: bool) -> Seq<Option<CommandView>> {
    if selected {
        seq![
            Some(CommandView { key: "q"@, text: "quit"@ }),
            Some(CommandView { key: "esc"@, text: "deselect"@ }),
            Some(CommandView { key: "\u{2193}/j"@, text: "move down"@ }),
            Some(CommandView { key: "\u{2191}/k"@, text: "move up"@ }),
            None,
            Some(CommandView { key: "del"@, text: "remove"@ }),
            Some(CommandView { key: "r"@, text: "rename"@ }),
            Some(CommandView { key: "shift-r"@, text: "retry"@ }),
            None,
            Some(CommandView { key: "p"@, text: "make private"@ }),
            Some(CommandView { key: "ctrl-p"@, text: "make protected"@ }),
            Some(CommandView { key: "shift-p"@, text: "make public"@ }),
        ]
    } else {
        seq![
            Some(CommandView { key: "q"@, text: "quit"@ }),
            Some(CommandView { key: "\u{2193}/j"@, text: "select first"@ }),
            Some(CommandView { key: "\u{2191}/k"@, text: "select last"@ }),
            None,
            Some(CommandView { key: "p"@, text: "make all private"@ }),
            Some(CommandView { key: "ctrl-p"@, text: "make all protected"@ }),
            Some(CommandView { key: "shift-p"@, text: "make all public"@ }),
        ]
    }
}

/// The key bindings that the footer lists.
pub fn footer_commands(selected: bool) -> (r: Vec<Option<Command>>)
    ensures
        entry_views(r@) == footer_entries(selected),
{
    let mut r: Vec<Option<Command>> = Vec::new();
    if selected {
        r.push(Some(Command { key: "q", text: "quit" }));
        r.push(Some(Command { key: "esc", text: "deselect" }));
        r.push(Some(Command { key: "\u{2193}/j", text: "move down" }));
        r.push(Some(Command { key: "\u{2191}/k", text: "move up" }));
        r.push(None);
        r.push(Some(Command { key: "del", text: "remove" }));
        r.push(Some(Command { key: "r", text: "rename" }));
        r.push(Some(Command { key: "shift-r", text: "retry" }));
        r.push(None);
        r.push(Some(Command { key: "p", text: "make private" }));
        r.push(Some(Command { key: "ctrl-p", text: "make protected" }));
        r.push(Some(Command { key: "shift-p", text: "make public" }));
    } else {
        r.push(Some(Command { key: "q", text: "quit" }));
        r.push(Some(Command { key: "\u{2193}/j", text: "select first" }));
        r.push(Some(Command { key: "\u{2191}/k", text: "select last" }));
        r.push(None);
        r.push(Some(Command { key: "p", text: "make all private" }));
        r.push(Some(Command { key: "ctrl-p", text: "make all protected" }));
        r.push(Some(Command { key: "shift-p", text: "make all public" }));
    }
    assert(entry_views(r@) =~= footer_entries(selected));
    r
}

/// The footer while it is being laid out: the lines that are full, the
/// line that is being filled, and how wide that one is. A line is given by
/// the positions of its key bindings in the list.
pub ghost struct Wrapping {
    pub done: Seq<Seq<usize>>,
    pub line: Seq<usize>,
    pub line_width: int,
}

/// The footer after its entries were laid out one after the other. A key
/// binding goes onto the line that is being filled if that line is empty,
/// or if the line, a separator `separator` wide and the key binding fit
/// into `width`; otherwise it starts a line. A mark that ends a line
/// starts an empty one.
pub open spec fn wrapped(entries: Seq<Option<CommandView>>, separator: int, width: int) -> Wrapping
    decreases entries.len(),
{
    if entries.len() == 0 {
        Wrapping { done: Seq::empty(), line: Seq::empty(), line_width: 0 }
    } else {
        let before = wrapped(entries.drop_last(), separator, width);
        let position = (entries.len() - 1) as usize;
        match entries.last() {
            Some(command) => {
                let needed = command_width(command);
                if needed > 0 && before.line_width == 0 {
                    Wrapping {
                        line: before.line.push(position),
                        line_width: needed,
                        ..before
                    }
                } else if needed > 0 && before.line_width + separator + needed <= width {
                    Wrapping {
                        line: before.line.push(position),
                        line_width: before.line_width + separator + needed,
                        ..before
                    }
                } else {
                    Wrapping {
                        done: before.done.push(before.line),
                        line: seq![position],
                        line_width: needed,
                    }
                }
            },
            None => Wrapping {
                done: before.done.push(before.line),
                line: Seq::empty(),
                line_width: 0,
            },
        }
    }
}

/// The lines of the footer.
pub open spec fn footer_lines(entries: Seq<Option<CommandView>>, width: int) -> Seq<Seq<usize>> {
    let all = wrapped(entries, text_width(" | "@) as int, width);
    all.done.push(all.line)
}

/// A footer has at most one line more than it has entries.
pub proof fn lemma_wrapped_lines(entries: Seq<Option<CommandView>>, separator: int, width: int)
    ensures
        wrapped(entries, separator, width).done.len() <= entries.len(),
    decreases entries.len(),
{
    if entries.len() > 0 {
        lemma_wrapped_lines(entries.drop_last(), separator, width);
    }
}

/// Lays the entries of a footer out in lines that are at most `width`
/// wide, where that can be done.
pub fn wrap_commands(entries: &Vec<Option<Command>>, width: usize) -> (r: Vec<Vec<usize>>)
    ensures
        r.deep_view() == footer_lines(entry_views(entries@), width as int),
{
    let separator = width_of(" | ") as u128;
    let space = width_of(" ") as u128;
    let ghost views = entry_views(entries@);
    let mut done: Vec<Vec<usize>> = Vec::new();
    let mut line: Vec<usize> = Vec::new();
    let mut line_width: u128 = 0;
    let mut i: usize = 0;
    assert(done.deep_view() =~= Seq::<Seq<usize>>::empty());
    while i < entries.len()
        invariant
            i <= entries.len(),
            views == entry_views(entries@),
            separator == text_width(" | "@),
            space == text_width(" "@),
            separator <= usize::MAX,
            space <= usize::MAX,
            done.deep_view() == wrapped(views.take(i as int), separator as int, width as int).done,
            line@ == wrapped(views.take(i as int), separator as int, width as int).line,
            line_width == wrapped(
                views.take(i as int),
                separator as int,
                width as int,
            ).line_width,
            line_width <= 3 * usize::MAX,
        decreases entries.len() - i,
    {
        proof {
            assert(views.take(i + 1).drop_last() =~= views.take(i as int));
            assert(views.take(i + 1).last() == entry_view(entries@[i as int]));
        }
        match entries[i] {
            Some(command) => {
                let needed: u128 = width_of(command.key) as u128 + space + width_of(
                    command.text,
                ) as u128;
                if needed > 0 && line_width == 0 {
                    line.push(i);
                    line_width = needed;
                } else if needed > 0 && line_width + separator + needed <= width as u128 {
                    line.push(i);
                    line_width = line_width + separator + needed;
                } else {
                    let ghost before = done.deep_view();
                    let ghost full = line.deep_view();
                    assert(full =~= line@);
                    done.push(line);
                    line = Vec::new();
                    line.push(i);
                    line_width = needed;
                    proof {
                        assert(done.deep_view() =~= before.push(full));
                        assert(line@ =~= seq![i]);
                    }
                }
            },
            None => {
                let ghost before = done.deep_view();
                let ghost full = line.deep_view();
                assert(full =~= line@);
                done.push(line);
                line = Vec::new();
                line_width = 0;
                proof {
                    assert(done.deep_view() =~= before.push(full));
                    assert(line@ =~= Seq::<usize>::empty());
                }
            },
        }
        i += 1;
    }
    let ghost before = done.deep_view();
    let ghost full = line.deep_view();
    assert(full =~= line@);
    done.push(line);
    proof {
        assert(views.take(i as int) =~= views);
        assert(done.deep_view() =~= before.push(full));
    }
    done
}

/// The footer of the table.
#[derive(Debug)]
pub struct Footer {
    /// How many terminal lines the footer takes, its border counted in.
    pub height: u16,
    /// The entries that the lines are made of.
    pub commands: Vec<Option<Command>>,
    /// The lines, each given by the positions of its key bindings in
    /// `commands`.
    pub lines: Vec<Vec<usize>>,
}

/// A message to the renderer.
#[derive(Debug)]
pub enum Message {
    Resize { width: u16, height: u16 },
    Redraw,
    Rows(Vec<TunnelRow>),
    Select(Option<usize>),
    Rename(Option<String>),
    Help(String),
    Close,
}

/// `Message` as a mathematical value.
pub ghost enum MessageView {
    Resize { width: u16, height: u16 },
    Redraw,
    Rows(Seq<TunnelRowView>),
    Select(Option<usize>),
    Rename(Option<Seq<char>>),
    Help(Seq<char>),
    Close,
}

impl View for Message {
    type V = MessageView;

    open spec fn view(&self) -> MessageView {
        match self {
            Message::Resize { width, height } => MessageView::Resize {
                width: *width,
                height: *height,
            },
            Message::Redraw => MessageView::Redraw,
            Message::Rows(rows) => MessageView::Rows(rows.deep_view()),
            Message::Select(selected) => MessageView::Select(*selected),
            Message::Rename(input) => MessageView::Rename(optional_text(*input)),
            Message::Help(text) => MessageView::Help(text@),
            Message::Close => MessageView::Close,
        }
    }
}

impl DeepView for Message {
    type V = MessageView;

    open spec fn deep_view(&self) -> MessageView {
        self@
    }
}

/// What the renderer does to the terminal after a message.
#[derive(Debug)]
pub enum Effect {
    /// Nothing.
    Nothing,
    /// Give the terminal this size.
    Resize { width: u16, height: u16 },
    /// Draw the table.
    Draw,
    /// Leave the table's screen, write this text, and stop.
    Leave(String),
    /// Stop.
    Stop,
}

/// `Effect` as a mathematical value.
pub ghost enum EffectView {
    Nothing,
    Resize { width: u16, height: u16 },
    Draw,
    Leave(Seq<char>),
    Stop,
}

impl View for Effect {
    type V = EffectView;

    open spec fn view(&self) -> EffectView {
        match self {
            Effect::Nothing => EffectView::Nothing,
            Effect::Resize { width, height } => EffectView::Resize {
                width: *width,
                height: *height,
            },
            Effect::Draw => EffectView::Draw,
            Effect::Leave(text) => EffectView::Leave(text@),
            Effect::Stop => EffectView::Stop,
        }
    }
}

/// What the renderer shows.
#[derive(Debug)]
pub struct RendererInner {
    selected: Option<usize>,
    rows: Vec<TunnelRow>,
    input: Option<String>,
}

/// `RendererInner` as a mathematical value.
pub ghost struct RendererInnerView {
    pub selected: Option<usize>,
    pub rows: Seq<TunnelRowView>,
    pub input: Option<Seq<char>>,
}

impl RendererInnerView {
    /// What the renderer shows after a message.
    pub open spec fn after(self, message: MessageView) -> RendererInnerView {
        match message {
            MessageView::Select(selected) => RendererInnerView { selected, ..self },
            MessageView::Rename(input) => RendererInnerView { input, ..self },
            MessageView::Rows(rows) => RendererInnerView { rows, ..self },
            _ => self,
        }
    }

    /// What the renderer shows once the counters of its rows were read
    /// again: each row of a tunnel that is alive has the tunnel's counters.
    pub open spec fn refreshed(self, v: RegistryView) -> RendererInnerView {
        RendererInnerView {
            rows: self.rows.map_values(
                |row: TunnelRowView|
                    if v.holds(row.id) {
                        TunnelRowView { stats: v.tunnel(row.id).inner.stats, ..row }
                    } else {
                        row
                    },
            ),
            ..self
        }
    }

    /// What the renderer does to the terminal after a message.
    pub open spec fn effect(message: MessageView) -> EffectView {
        match message {
            MessageView::Resize { width, height } => EffectView::Resize { width, height },
            MessageView::Redraw => EffectView::Draw,
            MessageView::Help(text) => EffectView::Leave(text),
            MessageView::Close => EffectView::Stop,
            _ => EffectView::Nothing,
        }
    }
}

impl View for RendererInner {
    type V = RendererInnerView;

    closed spec fn view(&self) -> RendererInnerView {
        RendererInnerView {
            selected: self.selected,
            rows: self.rows.deep_view(),
            input: optional_text(self.input),
        }
    }
}

impl RendererInner {
    /// A renderer that shows an empty table.
    pub fn new() -> (r: RendererInner)
        ensures
            r@ == (RendererInnerView { selected: None, rows: Seq::empty(), input: None }),
    {
        let r = RendererInner { selected: None, rows: Vec::new(), input: None };
        assert(r@.rows =~= Seq::empty());
        r
    }

    pub fn selected(&self) -> (r: Option<usize>)
        ensures
            r == self@.selected,
    {
        self.selected
    }

    pub fn rows(&self) -> (r: &Vec<TunnelRow>)
        ensures
            r.deep_view() == self@.rows,
    {
        &self.rows
    }

    pub fn input(&self) -> (r: Option<&String>)
        ensures
            r.is_some() == self@.input.is_some(),
            r.is_some() ==> r.unwrap()@ == self@.input.unwrap(),
    {
        self.input.as_ref()
    }

    /// Takes a message in and says what is to be done to the terminal.
    pub fn apply(&mut self, message: Message) -> (r: Effect)
        ensures
            final(self)@ == old(self)@.after(message@),
            r@ == RendererInnerView::effect(message@),
    {
        match message {
            Message::Resize { width, height } => Effect::Resize { width, height },
            Message::Select(selected) => {
                self.selected = selected;
                Effect::Nothing
            },
            Message::Rename(input) => {
                self.input = input;
                Effect::Nothing
            },
            Message::Rows(rows) => {
                self.rows = rows;
                Effect::Nothing
            },
            Message::Redraw => Effect::Draw,
            Message::Help(text) => Effect::Leave(text),
            Message::Close => Effect::Stop,
        }
    }

    /// Reads the counters of the rows again, so that a table that is drawn
    /// without a message from the session still shows the traffic of now.
    pub fn refresh(&mut self, registry: &Registry)
        requires
            registry.wf(),
        ensures
            final(self)@ == old(self)@.refreshed(registry@),
    {
        let mut rows: Vec<TunnelRow> = Vec::new();
        let ghost target = old(self)@.refreshed(registry@).rows;
        let mut i: usize = 0;
        assert(rows.deep_view() =~= target.take(0));
        while i < self.rows.len()
            invariant
                i <= self.rows.len(),
                registry.wf(),
                *self == *old(self),
                target == old(self)@.refreshed(registry@).rows,
                rows.deep_view() == target.take(i as int),
            decreases self.rows.len() - i,
        {
            let row = &self.rows[i];
            let stats = match registry.inner(row.id) {
                Some(inner) => inner.stats,
                None => row.stats,
            };
            let ghost before = rows.deep_view();
            let fresh = TunnelRow {
                id: row.id,
                name: row.name.clone(),
                access: row.access.clone(),
                access_tint: row.access_tint,
                port: row.port.clone(),
                address: row.address.clone(),
                address_tint: row.address_tint,
                stats,
            };
            proof {
                assert(self.rows.deep_view()[i as int] == self.rows[i as int]@);
                assert(fresh@ == target[i as int]);
            }
            rows.push(fresh);
            proof {
                assert(rows.deep_view() =~= before.push(fresh@));
                assert(target.take(i + 1) =~= target.take(i as int).push(target[i as int]));
            }
            i += 1;
        }
        proof {
            assert(target.take(i as int) =~= target);
        }
        self.rows = rows;
    }

    /// The footer for a table that is `rect_width` wide, its border of one
    /// column on each side counted in.
    pub fn compute_footer_text(&self, rect_width: u16) -> (r: Footer)
        requires
            rect_width >= 2,
        ensures
            entry_views(r.commands@) == footer_entries(self@.selected.is_some()),
            r.lines.deep_view() == footer_lines(
                footer_entries(self@.selected.is_some()),
                rect_width - 2,
            ),
            r.height == r.lines@.len() + 2,
    {
        let width: usize = (rect_width - 2) as usize;
        let commands = footer_commands(self.selected.is_some());
        let lines = wrap_commands(&commands, width);
        proof {
            lemma_wrapped_lines(entry_views(commands@), text_width(" | "@) as int, width as int);
            assert(lines.deep_view().len() == lines@.len());
            assert(entry_views(commands@).len() <= 12);
        }
        let height: u16 = (lines.len() + 2) as u16;
        Footer { height, commands, lines }
    }
}

/// The rows that show the tunnels `ids`, in their order; a tunnel that is
/// no longer alive has no row.
pub open spec fn rows_of(v: RegistryView, ids: Seq<u64>) -> Seq<TunnelRowView>
    decreases ids.len(),
{
    if ids.len() == 0 {
        Seq::empty()
    } else if v.holds(ids.last()) {
        rows_of(v, ids.drop_last()).push(row_of(v.tunnel(ids.last())))
    } else {
        rows_of(v, ids.drop_last())
    }
}

/// The session's end of the renderer: it says which messages are to be
/// sent for what the session wants shown. Before the renderer was started
/// there is nobody to send them to.
#[derive(Clone, Copy, Debug, PartialEq, Eq, Structural)]
pub struct Renderer {
    pub started: bool,
}

impl Renderer {
    pub fn new() -> (r: Renderer)
        ensures
            !r.started,
    {
        Renderer { started: false }
    }

    pub fn start(&mut self)
        ensures
            final(self).started,
    {
        self.started = true;
    }

    pub fn select(&self, selected: Option<usize>) -> (r: Vec<Message>)
        ensures
            r.deep_view() == (if self.started {
                seq![MessageView::Select(selected), MessageView::Redraw]
            } else {
                Seq::empty()
            }),
    {
        let mut r: Vec<Message> = Vec::new();
        if self.started {
            r.push(Message::Select(selected));
            r.push(Message::Redraw);
            assert(r.deep_view() =~= seq![MessageView::Select(selected), MessageView::Redraw]);
        } else {
            assert(r.deep_view() =~= Seq::empty());
        }
        r
    }

    pub fn rename(&self, input: Option<&String>) -> (r: Vec<Message>)
        ensures
            r.deep_view() == (if self.started {
                seq![
                    MessageView::Rename(
                        match input {
                            Some(text) => Some(text@),
                            None => None,
                        },
                    ),
                    MessageView::Redraw,
                ]
            } else {
                Seq::empty()
            }),
    {
        let mut r: Vec<Message> = Vec::new();
        if self.started {
            let copy = match input {
                Some(text) => Some(text.clone()),
                None => None,
            };
            r.push(Message::Rename(copy));
            r.push(Message::Redraw);
            assert(r.deep_view() =~= seq![
                MessageView::Rename(
                    match input {
                        Some(text) => Some(text@),
                        None => None,
                    },
                ),
                MessageView::Redraw,
            ]);
        } else {
            assert(r.deep_view() =~= Seq::empty());
        }
        r
    }

    pub fn help(&self, message: &str) -> (r: Vec<Message>)
        ensures
            r.deep_view() == (if self.started {
                seq![MessageView::Help(with_carriage_returns(message@))]
            } else {
                Seq::empty()
            }),
    {
        let mut r: Vec<Message> = Vec::new();
        if self.started {
            r.push(Message::Help(terminal_text(message)));
            assert(r.deep_view() =~= seq![MessageView::Help(with_carriage_returns(message@))]);
        } else {
            assert(r.deep_view() =~= Seq::empty());
        }
        r
    }

    pub fn close(&self) -> (r: Vec<Message>)
        ensures
            r.deep_view() == (if self.started {
                seq![MessageView::Close]
            } else {
                Seq::empty()
            }),
    {
        let mut r: Vec<Message> = Vec::new();
        if self.started {
            r.push(Message::Close);
            assert(r.deep_view() =~= seq![MessageView::Close]);
        } else {
            assert(r.deep_view() =~= Seq::empty());
        }
        r
    }

    pub fn resize(&self, width: u16, height: u16) -> (r: Vec<Message>)
        ensures
            r.deep_view() == (if self.started {
                seq![MessageView::Resize { width, height }, MessageView::Redraw]
            } else {
                Seq::empty()
            }),
    {
        let mut r: Vec<Message> = Vec::new();
        if self.started {
            r.push(Message::Resize { width, height });
            r.push(Message::Redraw);
            assert(r.deep_view() =~= seq![
                MessageView::Resize { width, height },
                MessageView::Redraw,
            ]);
        } else {
            assert(r.deep_view() =~= Seq::empty());
        }
        r
    }

    pub fn rows(&self, tunnels: &Vec<Tunnel>, registry: &Registry) -> (r: Vec<Message>)
        requires
            registry.wf(),
        ensures
            r.deep_view() == (if self.started {
                seq![
                    MessageView::Rows(
                        rows_of(registry@, tunnels@.map_values(|t: Tunnel| t.id())),
                    ),
                    MessageView::Redraw,
                ]
            } else {
                Seq::empty()
            }),
    {
        let mut r: Vec<Message> = Vec::new();
        if !self.started {
            assert(r.deep_view() =~= Seq::empty());
            return r;
        }
        let ghost ids = tunnels@.map_values(|t: Tunnel| t.id());
        let mut rows: Vec<TunnelRow> = Vec::new();
        let mut i: usize = 0;
        assert(rows.deep_view() =~= rows_of(registry@, ids.take(0)));
        while i < tunnels.len()
            invariant
                i <= tunnels.len(),
                registry.wf(),
                ids == tunnels@.map_values(|t: Tunnel| t.id()),
                rows.deep_view() == rows_of(registry@, ids.take(i as int)),
            decreases tunnels.len() - i,
        {
            proof {
                assert(ids.take(i + 1).drop_last() =~= ids.take(i as int));
                assert(ids.take(i + 1).last() == tunnels[i as int].id());
            }
            let ghost before = rows.deep_view();
            if let Some(row) = Tunnel::to_row(&tunnels[i], registry) {
                rows.push(row);
                assert(rows.deep_view() =~= before.push(row@));
            }
            i += 1;
        }
        proof {
            assert(ids.take(i as int) =~= ids);
        }
        r.push(Message::Rows(rows));
        r.push(Message::Redraw);
        assert(r.deep_view() =~= seq![
            MessageView::Rows(rows_of(registry@, ids)),
            MessageView::Redraw,
        ]);
        r
    }

    pub fn redraw(&self) -> (r: Vec<Message>)
        ensures
            r.deep_view() == (if self.started {
                seq![MessageView::Redraw]
            } else {
                Seq::empty()
            }),
    {
        let mut r: Vec<Message> = Vec::new();
        if self.started {
            r.push(Message::Redraw);
            assert(r.deep_view() =~= seq![MessageView::Redraw]);
        } else {
            assert(r.deep_view() =~= Seq::empty());
        }
        r
    }
}

} // verus!
