//! The tray menu: what it shows for a bridge and its ports, and what a click on an item
//! asks for.
use vstd::prelude::*;
use crate::bridge::{BridgeState, BridgeView, can_start};
use crate::sysex::{ApcMode, spec_label};
use crate::text::{has_prefix, join, str_eq, strip_prefix};

verus! {

/// One clickable menu item.
pub struct MenuEntry {
    pub id: String,
    pub label: String,
    pub enabled: bool,
}

/// A node of the tray menu.
pub enum MenuNode {
    Item(MenuEntry),
    Separator,
    Submenu { id: String, title: String, items: Vec<MenuEntry> },
}

/// Abstract menu item.
pub struct EntryView {
    pub id: Seq<char>,
    pub label: Seq<char>,
    pub enabled: bool,
}

/// Abstract menu node.
pub enum NodeView {
    Item(EntryView),
    Separator,
    Submenu { id: Seq<char>, title: Seq<char>, items: Seq<EntryView> },
}

impl DeepView for MenuEntry {
    type V = EntryView;

    open spec fn deep_view(&self) -> EntryView {
        EntryView { id: self.id@, label: self.label@, enabled: self.enabled }
    }
}

impl DeepView for MenuNode {
    type V = NodeView;

    open spec fn deep_view(&self) -> NodeView {
        match self {
            MenuNode::Item(e) => NodeView::Item(e.deep_view()),
            MenuNode::Separator => NodeView::Separator,
            MenuNode::Submenu { id, title, items } => NodeView::Submenu {
                id: id@,
                title: title@,
                items: items.deep_view(),
            },
        }
    }
}

/// What a click on a menu item asks for.
pub enum MenuCommand {
    Start,
    Stop,
    Refresh,
    SendMode(ApcMode),
    StreamTest,
    OpenDebug,
    Quit,
    SelectInput(String),
    SelectOutput(String),
    Ignore,
}

/// Abstract menu command.
pub enum CommandView {
    Start,
    Stop,
    Refresh,
    SendMode(ApcMode),
    StreamTest,
    OpenDebug,
    Quit,
    SelectInput(Seq<char>),
    SelectOutput(Seq<char>),
    Ignore,
}

impl DeepView for MenuCommand {
    type V = CommandView;

    open spec fn deep_view(&self) -> CommandView {
        match self {
            MenuCommand::Start => CommandView::Start,
            MenuCommand::Stop => CommandView::Stop,
            MenuCommand::Refresh => CommandView::Refresh,
            MenuCommand::SendMode(m) => CommandView::SendMode(*m),
            MenuCommand::StreamTest => CommandView::StreamTest,
            MenuCommand::OpenDebug => CommandView::OpenDebug,
            MenuCommand::Quit => CommandView::Quit,
            MenuCommand::SelectInput(s) => CommandView::SelectInput(s@),
            MenuCommand::SelectOutput(s) => CommandView::SelectOutput(s@),
            MenuCommand::Ignore => CommandView::Ignore,
        }
    }
}

/// Prefix of the ids of input port items.
pub open spec fn input_prefix() -> Seq<char> {
    "in:"@
}

/// Prefix of the ids of output port items.
pub open spec fn output_prefix() -> Seq<char> {
    "out:"@
}

/// Mark put before the port that is currently selected.
pub open spec fn selected_mark() -> Seq<char> {
    "\u{25CF} "@
}

/// The item of one port in a port submenu.
pub open spec fn spec_port_entry(prefix: Seq<char>, port: Seq<char>, current: Seq<char>) -> EntryView {
    EntryView {
        id: prefix + port,
        label: if port == current {
            selected_mark() + port
        } else {
            port
        },
        enabled: true,
    }
}

/// The items of a port submenu, one per port, in order.
pub open spec fn spec_port_entries(prefix: Seq<char>, ports: Seq<Seq<char>>, current: Seq<char>) -> Seq<
    EntryView,
> {
    ports.map_values(|p: Seq<char>| spec_port_entry(prefix, p, current))
}

pub open spec fn plain_entry(id: Seq<char>, label: Seq<char>) -> EntryView {
    EntryView { id, label, enabled: true }
}

/// The menu is in its running form unless the bridge is stopped.
pub open spec fn menu_running(state: BridgeState) -> bool {
    state != BridgeState::Stopped
}

/// The whole tray menu.
pub open spec fn spec_menu(
    state: BridgeState,
    current_input: Seq<char>,
    current_output: Seq<char>,
    input_ports: Seq<Seq<char>>,
    output_ports: Seq<Seq<char>>,
) -> Seq<NodeView> {
    seq![
        NodeView::Item(EntryView { id: "start"@, label: "Start Bridge"@, enabled: !menu_running(state) }),
        NodeView::Item(EntryView { id: "stop"@, label: "Stop Bridge"@, enabled: menu_running(state) }),
        NodeView::Separator,
        NodeView::Submenu {
            id: "input_ports"@,
            title: "Input Port"@,
            items: spec_port_entries(input_prefix(), input_ports, current_input),
        },
        NodeView::Submenu {
            id: "output_ports"@,
            title: "Output Port"@,
            items: spec_port_entries(output_prefix(), output_ports, current_output),
        },
        NodeView::Item(plain_entry("refresh"@, "Refresh Ports"@)),
        NodeView::Separator,
        NodeView::Submenu {
            id: "modes"@,
            title: "Send Mode SysEx"@,
            items: seq![
                plain_entry("mode2"@, spec_label(ApcMode::AlternateAbleton)),
                plain_entry("mode1"@, spec_label(ApcMode::Ableton)),
                plain_entry("mode0"@, spec_label(ApcMode::Generic)),
            ],
        },
        NodeView::Separator,
        NodeView::Item(plain_entry("stream_test"@, "Test: midiStreamOut"@)),
        NodeView::Item(plain_entry("debug"@, "Open Debug Monitor"@)),
        NodeView::Separator,
        NodeView::Item(plain_entry("quit"@, "Quit"@)),
    ]
}

/// The command a menu item id stands for.
pub open spec fn spec_menu_command(id: Seq<char>) -> CommandView {
    if id == "start"@ {
        CommandView::Start
    } else if id == "stop"@ {
        CommandView::Stop
    } else if id == "refresh"@ {
        CommandView::Refresh
    } else if id == "mode0"@ {
        CommandView::SendMode(ApcMode::Generic)
    } else if id == "mode1"@ {
        CommandView::SendMode(ApcMode::Ableton)
    } else if id == "mode2"@ {
        CommandView::SendMode(ApcMode::AlternateAbleton)
    } else if id == "stream_test"@ {
        CommandView::StreamTest
    } else if id == "debug"@ {
        CommandView::OpenDebug
    } else if id == "quit"@ {
        CommandView::Quit
    } else if has_prefix(id, input_prefix()) {
        CommandView::SelectInput(id.subrange(input_prefix().len() as int, id.len() as int))
    } else if has_prefix(id, output_prefix()) {
        CommandView::SelectOutput(id.subrange(output_prefix().len() as int, id.len() as int))
    } else {
        CommandView::Ignore
    }
}

/// The tray icon's tooltip.
pub open spec fn spec_tooltip(input: Seq<char>, output: Seq<char>) -> Seq<char> {
    "APC40mk2 Bridge \u{2014} "@ + input + " \u{2192} "@ + output
}

fn entry(id: &str, label: &str, enabled: bool) -> (r: MenuEntry)
    ensures
        r.deep_view() == (EntryView { id: id@, label: label@, enabled }),
{
    MenuEntry { id: String::from_str(id), label: String::from_str(label), enabled }
}

fn port_entries(prefix: &str, ports: &Vec<String>, current: &str) -> (r: Vec<MenuEntry>)
    ensures
        r.deep_view() == spec_port_entries(prefix@, ports.deep_view(), current@),
{
    let ghost pv = ports.deep_view();
    let mut out: Vec<MenuEntry> = Vec::new();
    let mut i: usize = 0;
    while i < ports.len()
        invariant
            pv == ports.deep_view(),
            i <= ports.len(),
            out.deep_view() == spec_port_entries(prefix@, pv.subrange(0, i as int), current@),
        decreases ports.len() - i,
    {
        let port = &ports[i];
        assert(pv[i as int] == port@);
        let label = if str_eq(port.as_str(), current) {
            join("\u{25CF} ", port.as_str())
        } else {
            port.clone()
        };
        proof {
            reveal_strlit("\u{25CF} ");
        }
        let e = MenuEntry { id: join(prefix, port.as_str()), label, enabled: true };
        assert(e.deep_view() == spec_port_entry(prefix@, pv[i as int], current@));
        let ghost before = out.deep_view();
        out.push(e);
        assert(out.deep_view() =~= before.push(e.deep_view()));
        assert(out.deep_view() =~= spec_port_entries(prefix@, pv.subrange(0, i + 1), current@));
        i = i + 1;
    }
    assert(pv.subrange(0, ports.len() as int) =~= pv);
    out
}

/// The tray menu for a bridge in `state` with the given selected and available ports.
pub fn build_menu(
    state: BridgeState,
    current_input: &str,
    current_output: &str,
    input_ports: &Vec<String>,
    output_ports: &Vec<String>,
) -> (r: Vec<MenuNode>)
    ensures
        r.deep_view() == spec_menu(
            state,
            current_input@,
            current_output@,
            input_ports.deep_view(),
            output_ports.deep_view(),
        ),
{
    let is_running = state != BridgeState::Stopped;
    let mut menu: Vec<MenuNode> = Vec::new();
    menu.push(MenuNode::Item(entry("start", "Start Bridge", !is_running)));
    menu.push(MenuNode::Item(entry("stop", "Stop Bridge", is_running)));
    menu.push(MenuNode::Separator);
    menu.push(
        MenuNode::Submenu {
            id: String::from_str("input_ports"),
            title: String::from_str("Input Port"),
            items: port_entries("in:", input_ports, current_input),
        },
    );
    menu.push(
        MenuNode::Submenu {
            id: String::from_str("output_ports"),
            title: String::from_str("Output Port"),
            items: port_entries("out:", output_ports, current_output),
        },
    );
    menu.push(MenuNode::Item(entry("refresh", "Refresh Ports", true)));
    menu.push(MenuNode::Separator);
    let mut modes: Vec<MenuEntry> = Vec::new();
    modes.push(entry("mode2", ApcMode::AlternateAbleton.label(), true));
    modes.push(entry("mode1", ApcMode::Ableton.label(), true));
    modes.push(entry("mode0", ApcMode::Generic.label(), true));
    assert(modes.deep_view() =~= seq![
        plain_entry("mode2"@, spec_label(ApcMode::AlternateAbleton)),
        plain_entry("mode1"@, spec_label(ApcMode::Ableton)),
        plain_entry("mode0"@, spec_label(ApcMode::Generic)),
    ]);
    menu.push(
        MenuNode::Submenu {
            id: String::from_str("modes"),
            title: String::from_str("Send Mode SysEx"),
            items: modes,
        },
    );
    menu.push(MenuNode::Separator);
    menu.push(MenuNode::Item(entry("stream_test", "Test: midiStreamOut", true)));
    menu.push(MenuNode::Item(entry("debug", "Open Debug Monitor", true)));
    menu.push(MenuNode::Separator);
    menu.push(MenuNode::Item(entry("quit", "Quit", true)));
    assert(menu.deep_view() =~= spec_menu(
        state,
        current_input@,
        current_output@,
        input_ports.deep_view(),
        output_ports.deep_view(),
    ));
    menu
}


/// Clicking the item of an input port selects exactly that port as input, whatever its
/// name; likewise for output ports.
pub proof fn lemma_port_item_selects_port(port: Seq<char>)
    ensures
        spec_menu_command(input_prefix() + port) == CommandView::SelectInput(port),
        spec_menu_command(output_prefix() + port) == CommandView::SelectOutput(port),
{
    reveal_strlit("start");
    reveal_strlit("stop");
    reveal_strlit("refresh");
    reveal_strlit("mode0");
    reveal_strlit("mode1");
    reveal_strlit("mode2");
    reveal_strlit("stream_test");
    reveal_strlit("debug");
    reveal_strlit("quit");
    reveal_strlit("in:");
    reveal_strlit("out:");
    let i = input_prefix() + port;
    let o = output_prefix() + port;
    assert(i[2] == ':');
    assert(o[3] == ':');
    assert(i != "start"@ && "start"@[2] == 'a');
    assert(i != "stop"@ && "stop"@[2] == 'o');
    assert(i != "refresh"@ && "refresh"@[2] == 'f');
    assert(i != "mode0"@ && "mode0"@[2] == 'd');
    assert(i != "mode1"@ && "mode1"@[2] == 'd');
    assert(i != "mode2"@ && "mode2"@[2] == 'd');
    assert(i != "stream_test"@ && "stream_test"@[2] == 'r');
    assert(i != "debug"@ && "debug"@[2] == 'b');
    assert(i != "quit"@ && "quit"@[2] == 'i');
    assert(i.subrange(0, 3) =~= input_prefix());
    assert(i.subrange(3, i.len() as int) =~= port);
    assert(o != "start"@ && "start"@[3] == 'r');
    assert(o != "stop"@ && "stop"@[3] == 'p');
    assert(o != "refresh"@ && "refresh"@[3] == 'r');
    assert(o != "mode0"@ && "mode0"@[3] == 'e');
    assert(o != "mode1"@ && "mode1"@[3] == 'e');
    assert(o != "mode2"@ && "mode2"@[3] == 'e');
    assert(o != "stream_test"@ && "stream_test"@[3] == 'e');
    assert(o != "debug"@ && "debug"@[3] == 'u');
    assert(o != "quit"@ && "quit"@[3] == 't');
    assert(o.subrange(0, 3)[0] == 'o');
    assert(!has_prefix(o, input_prefix()));
    assert(o.subrange(0, 4) =~= output_prefix());
    assert(o.subrange(4, o.len() as int) =~= port);
}

/// Every item of the built menu asks for what it shows: start and stop, each port item
/// selects its own port, each mode item sends the mode it is labelled with, and the
/// remaining items refresh, test, open the monitor and quit.
pub proof fn lemma_menu_items_mean_what_they_show(
    state: BridgeState,
    current_input: Seq<char>,
    current_output: Seq<char>,
    input_ports: Seq<Seq<char>>,
    output_ports: Seq<Seq<char>>,
)
    ensures
        ({
            let m = spec_menu(state, current_input, current_output, input_ports, output_ports);
            &&& m.len() == 13
            &&& m[0] matches NodeView::Item(e) && spec_menu_command(e.id) == CommandView::Start
            &&& m[1] matches NodeView::Item(e) && spec_menu_command(e.id) == CommandView::Stop
            &&& m[3] matches NodeView::Submenu { items, .. } && items.len() == input_ports.len()
                && forall|k: int|
                0 <= k < items.len() ==> spec_menu_command(#[trigger] items[k].id)
                    == CommandView::SelectInput(input_ports[k])
            &&& m[4] matches NodeView::Submenu { items, .. } && items.len() == output_ports.len()
                && forall|k: int|
                0 <= k < items.len() ==> spec_menu_command(#[trigger] items[k].id)
                    == CommandView::SelectOutput(output_ports[k])
            &&& m[5] matches NodeView::Item(e) && spec_menu_command(e.id) == CommandView::Refresh
            &&& m[7] matches NodeView::Submenu { items, .. } && items.len() == 3 && forall|k: int|
                0 <= k < 3 ==> (spec_menu_command(#[trigger] items[k].id) matches CommandView::SendMode(
                    md,
                ) && items[k].label == spec_label(md))
            &&& m[9] matches NodeView::Item(e) && spec_menu_command(e.id) == CommandView::StreamTest
            &&& m[10] matches NodeView::Item(e) && spec_menu_command(e.id) == CommandView::OpenDebug
            &&& m[12] matches NodeView::Item(e) && spec_menu_command(e.id) == CommandView::Quit
        }),
{
    reveal_strlit("start");
    reveal_strlit("stop");
    reveal_strlit("refresh");
    reveal_strlit("mode0");
    reveal_strlit("mode1");
    reveal_strlit("mode2");
    reveal_strlit("stream_test");
    reveal_strlit("debug");
    reveal_strlit("quit");
    reveal_strlit("in:");
    reveal_strlit("out:");
    let m = spec_menu(state, current_input, current_output, input_ports, output_ports);
    let ins = spec_port_entries(input_prefix(), input_ports, current_input);
    assert forall|k: int| 0 <= k < ins.len() implies spec_menu_command(#[trigger] ins[k].id)
        == CommandView::SelectInput(input_ports[k]) by {
        lemma_port_item_selects_port(input_ports[k]);
    }
    let outs = spec_port_entries(output_prefix(), output_ports, current_output);
    assert forall|k: int| 0 <= k < outs.len() implies spec_menu_command(#[trigger] outs[k].id)
        == CommandView::SelectOutput(output_ports[k]) by {
        lemma_port_item_selects_port(output_ports[k]);
    }
    let modes = seq![
        plain_entry("mode2"@, spec_label(ApcMode::AlternateAbleton)),
        plain_entry("mode1"@, spec_label(ApcMode::Ableton)),
        plain_entry("mode0"@, spec_label(ApcMode::Generic)),
    ];
    assert("mode0"@[4] == '0' && "mode1"@[4] == '1' && "mode2"@[4] == '2');
    assert("mode2"@[0] == 'm' && "mode1"@[0] == 'm' && "start"@[0] == 's' && "stop"@[0] == 's'
        && "refresh"@[0] == 'r');
    assert("mode2"@ != "mode0"@ && "mode2"@ != "mode1"@ && "mode1"@ != "mode0"@);
    assert("mode2"@ != "start"@ && "mode2"@ != "stop"@ && "mode2"@ != "refresh"@);
    assert("mode1"@ != "start"@ && "mode1"@ != "stop"@ && "mode1"@ != "refresh"@);
    assert(spec_menu_command(modes[0].id) == CommandView::SendMode(ApcMode::AlternateAbleton));
    assert(spec_menu_command(modes[1].id) == CommandView::SendMode(ApcMode::Ableton));
    assert(spec_menu_command(modes[2].id) == CommandView::SendMode(ApcMode::Generic));
    assert(forall|k: int| 0 <= k < 3 ==> (spec_menu_command(#[trigger] modes[k].id) matches CommandView::SendMode(
        md,
    ) && modes[k].label == spec_label(md)));
    assert("start"@.len() == 5 && "stop"@.len() == 4);
    assert("start"@ != "stop"@);
    assert("stream_test"@.len() == 11 && "refresh"@.len() == 7 && "mode0"@.len() == 5);
    assert("stream_test"@ != "start"@ && "stream_test"@ != "stop"@ && "stream_test"@ != "refresh"@);
    assert("stream_test"@ != "mode0"@ && "stream_test"@ != "mode1"@ && "stream_test"@ != "mode2"@);
    assert("debug"@[0] == 'd' && "quit"@[0] == 'q' && "mode0"@[0] == 'm');
    assert("debug"@ != "start"@ && "debug"@ != "stop"@ && "debug"@ != "refresh"@);
    assert("debug"@ != "mode0"@ && "debug"@ != "mode1"@ && "debug"@ != "mode2"@);
    assert("debug"@ != "stream_test"@);
    assert("quit"@ != "start"@ && "quit"@ != "stop"@ && "quit"@ != "refresh"@);
    assert("quit"@ != "mode0"@ && "quit"@ != "mode1"@ && "quit"@ != "mode2"@);
    assert("quit"@ != "stream_test"@ && "quit"@ != "debug"@);
}

/// Exactly one of Start and Stop is enabled, and Start is enabled exactly when the bridge
/// would accept a start.
pub proof fn lemma_start_stop_enabled(
    bridge: BridgeView,
    current_input: Seq<char>,
    current_output: Seq<char>,
    input_ports: Seq<Seq<char>>,
    output_ports: Seq<Seq<char>>,
)
    ensures
        ({
            let m = spec_menu(bridge.state, current_input, current_output, input_ports, output_ports);
            &&& m[0] matches NodeView::Item(start) && m[1] matches NodeView::Item(stop)
                && start.enabled != stop.enabled && (start.enabled <==> can_start(bridge))
        }),
{
}

/// In a port submenu exactly the items of the current port are marked: an item's label
/// is the mark followed by its port when the port is the current one, and the bare port
/// name otherwise; so two marked items always name the same port.
pub proof fn lemma_only_current_port_marked(
    state: BridgeState,
    current_input: Seq<char>,
    current_output: Seq<char>,
    input_ports: Seq<Seq<char>>,
    output_ports: Seq<Seq<char>>,
)
    ensures
        ({
            let m = spec_menu(state, current_input, current_output, input_ports, output_ports);
            &&& m[3] matches NodeView::Submenu { items, .. } && items.len() == input_ports.len()
                && (forall|k: int|
                0 <= k < items.len() ==> (input_ports[k] == current_input ==> #[trigger] items[k].label
                    == selected_mark() + input_ports[k]) && (input_ports[k] != current_input
                    ==> items[k].label == input_ports[k])) && (forall|j: int, k: int|
                0 <= j < items.len() && 0 <= k < items.len() && #[trigger] items[j].label
                    == selected_mark() + input_ports[j] && #[trigger] items[k].label
                    == selected_mark() + input_ports[k] ==> input_ports[j] == input_ports[k])
            &&& m[4] matches NodeView::Submenu { items, .. } && items.len() == output_ports.len()
                && (forall|k: int|
                0 <= k < items.len() ==> (output_ports[k] == current_output ==> #[trigger] items[k].label
                    == selected_mark() + output_ports[k]) && (output_ports[k] != current_output
                    ==> items[k].label == output_ports[k])) && (forall|j: int, k: int|
                0 <= j < items.len() && 0 <= k < items.len() && #[trigger] items[j].label
                    == selected_mark() + output_ports[j] && #[trigger] items[k].label
                    == selected_mark() + output_ports[k] ==> output_ports[j] == output_ports[k])
        }),
{
    lemma_marked_entries(input_prefix(), input_ports, current_input);
    lemma_marked_entries(output_prefix(), output_ports, current_output);
}

proof fn lemma_marked_entries(prefix: Seq<char>, ports: Seq<Seq<char>>, current: Seq<char>)
    ensures
        ({
            let items = spec_port_entries(prefix, ports, current);
            &&& items.len() == ports.len()
            &&& forall|k: int|
                0 <= k < items.len() ==> (ports[k] == current ==> #[trigger] items[k].label
                    == selected_mark() + ports[k]) && (ports[k] != current ==> items[k].label
                    == ports[k])
            &&& forall|j: int, k: int|
                0 <= j < items.len() && 0 <= k < items.len() && #[trigger] items[j].label
                    == selected_mark() + ports[j] && #[trigger] items[k].label == selected_mark()
                    + ports[k] ==> ports[j] == ports[k]
        }),
{
    let items = spec_port_entries(prefix, ports, current);
    assert forall|j: int, k: int|
        0 <= j < items.len() && 0 <= k < items.len() && #[trigger] items[j].label
            == selected_mark() + ports[j] && #[trigger] items[k].label == selected_mark()
            + ports[k] implies ports[j] == ports[k] by {
        lemma_marked_is_current(ports[j], current);
        lemma_marked_is_current(ports[k], current);
    }
}

/// A port's label is its marked form only when the port is the current one.
proof fn lemma_marked_is_current(port: Seq<char>, current: Seq<char>)
    ensures
        (if port == current {
            selected_mark() + port
        } else {
            port
        }) == selected_mark() + port ==> port == current,
{
    if port != current {
        assert((selected_mark() + port).len() > port.len()) by {
            reveal_strlit("\u{25CF} ");
        }
    }
}

/// The tooltip names both selected ports in full: after the fixed title comes the whole
/// input name, then the arrow, then the whole output name, and nothing else.
pub proof fn lemma_tooltip_names_ports(input: Seq<char>, output: Seq<char>)
    ensures
        ({
            let t = spec_tooltip(input, output);
            let a: int = "APC40mk2 Bridge \u{2014} "@.len() as int;
            let b: int = a + input.len();
            let c: int = b + " \u{2192} "@.len();
            &&& t.len() == c + output.len()
            &&& t.subrange(0, a) == "APC40mk2 Bridge \u{2014} "@
            &&& t.subrange(a, b) == input
            &&& t.subrange(b, c) == " \u{2192} "@
            &&& t.subrange(c, t.len() as int) == output
        }),
{
    let t = spec_tooltip(input, output);
    let title = "APC40mk2 Bridge \u{2014} "@;
    let arrow = " \u{2192} "@;
    let a: int = title.len() as int;
    let b: int = a + input.len();
    let c: int = b + arrow.len();
    assert(t.subrange(0, a) =~= title);
    assert(t.subrange(a, b) =~= input);
    assert(t.subrange(b, c) =~= arrow);
    assert(t.subrange(c, t.len() as int) =~= output);
}

/// What a click on the menu item with this id asks for.
pub fn menu_command(id: &str) -> (r: MenuCommand)
    ensures
        r.deep_view() == spec_menu_command(id@),
{
    if str_eq(id, "start") {
        MenuCommand::Start
    } else if str_eq(id, "stop") {
        MenuCommand::Stop
    } else if str_eq(id, "refresh") {
        MenuCommand::Refresh
    } else if str_eq(id, "mode0") {
        MenuCommand::SendMode(ApcMode::Generic)
    } else if str_eq(id, "mode1") {
        MenuCommand::SendMode(ApcMode::Ableton)
    } else if str_eq(id, "mode2") {
        MenuCommand::SendMode(ApcMode::AlternateAbleton)
    } else if str_eq(id, "stream_test") {
        MenuCommand::StreamTest
    } else if str_eq(id, "debug") {
        MenuCommand::OpenDebug
    } else if str_eq(id, "quit") {
        MenuCommand::Quit
    } else {
        proof {
            reveal_strlit("in:");
            reveal_strlit("out:");
        }
        match strip_prefix(id, "in:") {
            Some(port) => {
                assert(port@ =~= id@.subrange(3, id@.len() as int));
                MenuCommand::SelectInput(String::from_str(port))
            },
            None => match strip_prefix(id, "out:") {
                Some(port) => {
                    assert(port@ =~= id@.subrange(4, id@.len() as int));
                    MenuCommand::SelectOutput(String::from_str(port))
                },
                None => MenuCommand::Ignore,
            },
        }
    }
}

/// The tray icon's tooltip for the selected ports.
pub fn tooltip(input: &str, output: &str) -> (r: String)
    ensures
        r@ == spec_tooltip(input@, output@),
{
    let mut s = String::from_str("APC40mk2 Bridge \u{2014} ");
    s.append(input);
    s.append(" \u{2192} ");
    s.append(output);
    s
}

/// The log line shown when the midiStreamOut experiment starts.
pub fn stream_test_started() -> (r: Vec<String>)
    ensures
        r.deep_view() == seq!["Starting midiStreamOut test..."@],
{
    let mut v: Vec<String> = Vec::new();
    v.push(String::from_str("Starting midiStreamOut test..."));
    assert(v.deep_view() =~= seq!["Starting midiStreamOut test..."@]);
    v
}

/// The log lines shown when the midiStreamOut experiment has ended: its log, or one line
/// with the error that ended it.
pub fn stream_test_report(result: Result<Vec<String>, String>) -> (r: Vec<String>)
    ensures
        result matches Ok(log) ==> r.deep_view() == log.deep_view(),
        result matches Err(e) ==> r.deep_view() == seq!["ERROR: "@ + e@],
{
    match result {
        Ok(log) => log,
        Err(e) => {
            let mut v: Vec<String> = Vec::new();
            let line = join("ERROR: ", e.as_str());
            v.push(line);
            assert(v.deep_view() =~= seq!["ERROR: "@ + e@]);
            v
        },
    }
}

} // verus!
