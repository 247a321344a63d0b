//! The bridge's state machine: starting, stopping, the reconnect watchdog, and the
//! lookup of MIDI ports by name.
//!
//! The MIDI connections themselves are owned by the application around this library;
//! every operation here says which state the bridge is in afterwards and what the
//! application has to do with its connections.
use vstd::prelude::*;
use crate::sysex::{ApcMode, spec_sysex_message};
use crate::text::{join, str_eq};

verus! {

/// Whether the bridge forwards messages.
#[derive(Debug, Clone, Copy, PartialEq, Eq, Structural)]
pub enum BridgeState {
    Stopped,
    Running,
    Reconnecting,
}

/// Name of a state, as the status query reports it.
pub open spec fn spec_state_name(s: BridgeState) -> Seq<char> {
    match s {
        BridgeState::Stopped => "Stopped"@,
        BridgeState::Running => "Running"@,
        BridgeState::Reconnecting => "Reconnecting"@,
    }
}

/// Status text announced to the user when the bridge enters a state.
pub open spec fn spec_status_text(s: BridgeState) -> Seq<char> {
    match s {
        BridgeState::Stopped => "Stopped"@,
        BridgeState::Running => "Running"@,
        BridgeState::Reconnecting => "Reconnecting..."@,
    }
}

impl BridgeState {
    /// Name of the state, as the status query reports it.
    pub fn name(&self) -> (r: &'static str)
        ensures
            r@ == spec_state_name(*self),
    {
        match self {
            BridgeState::Stopped => "Stopped",
            BridgeState::Running => "Running",
            BridgeState::Reconnecting => "Reconnecting",
        }
    }

    /// Status text announced when the bridge enters this state.
    pub fn status_text(&self) -> (r: &'static str)
        ensures
            r@ == spec_status_text(*self),
    {
        match self {
            BridgeState::Stopped => "Stopped",
            BridgeState::Running => "Running",
            BridgeState::Reconnecting => "Reconnecting...",
        }
    }
}

/// What the watchdog has to do after one of its periodic checks.
#[derive(Debug, Clone, Copy, PartialEq, Eq, Structural)]
pub enum WatchdogAction {
    /// End the watchdog.
    Exit,
    /// Nothing to do until the next check.
    Wait,
    /// A port went away: close the forwarding connection (the bridge is now reconnecting).
    Disconnect,
    /// Both ports are back: try to connect again.
    Reconnect,
}

/// The abstract state of a bridge.
pub ghost struct BridgeView {
    pub state: BridgeState,
    /// Set by `stop`: the watchdog is to end at its next check.
    pub watchdog_stopped: bool,
    pub input: Seq<char>,
    pub output: Seq<char>,
}

/// Bridge settings and state.
pub struct Bridge {
    state: BridgeState,
    watchdog_stopped: bool,
    input_port: String,
    output_port: String,
}

impl View for Bridge {
    type V = BridgeView;

    closed spec fn view(&self) -> BridgeView {
        BridgeView {
            state: self.state,
            watchdog_stopped: self.watchdog_stopped,
            input: self.input_port@,
            output: self.output_port@,
        }
    }
}

/// Name of the input port a new bridge listens on.
pub open spec fn default_input_port() -> Seq<char> {
    "loopMIDI Port"@
}

/// Name of the output port a new bridge forwards to.
pub open spec fn default_output_port() -> Seq<char> {
    "APC40 mkII"@
}

/// The state of a new bridge.
pub open spec fn spec_new_bridge() -> BridgeView {
    BridgeView {
        state: BridgeState::Stopped,
        watchdog_stopped: false,
        input: default_input_port(),
        output: default_output_port(),
    }
}

/// Starting is allowed only from the stopped state.
pub open spec fn can_start(b: BridgeView) -> bool {
    b.state == BridgeState::Stopped
}

/// The bridge after its connection has been established.
pub open spec fn spec_on_connected(b: BridgeView) -> BridgeView {
    BridgeView { state: BridgeState::Running, ..b }
}

/// The bridge after its watchdog has been started.
pub open spec fn spec_on_started(b: BridgeView) -> BridgeView {
    BridgeView { watchdog_stopped: false, ..b }
}

/// The bridge after `stop`.
pub open spec fn spec_stop(b: BridgeView) -> BridgeView {
    BridgeView { state: BridgeState::Stopped, watchdog_stopped: true, ..b }
}

/// One watchdog check, given whether the output and the input port exist.
pub open spec fn spec_watchdog_tick(b: BridgeView, out_exists: bool, in_exists: bool) -> (
    BridgeView,
    WatchdogAction,
) {
    match b.state {
        BridgeState::Running => if !out_exists || !in_exists {
            (BridgeView { state: BridgeState::Reconnecting, ..b }, WatchdogAction::Disconnect)
        } else {
            (b, WatchdogAction::Wait)
        },
        BridgeState::Reconnecting => if out_exists && in_exists {
            (b, WatchdogAction::Reconnect)
        } else {
            (b, WatchdogAction::Wait)
        },
        BridgeState::Stopped => (b, WatchdogAction::Exit),
    }
}

/// Index of the first port whose name is `name`; ports whose name could not be read
/// are `None`.
pub open spec fn spec_find_port(names: Seq<Option<Seq<char>>>, name: Seq<char>) -> Option<int>
    decreases names.len(),
{
    if names.len() == 0 {
        None
    } else if names.last() == Some(name) && spec_find_port(names.drop_last(), name) is None {
        Some(names.len() - 1)
    } else {
        spec_find_port(names.drop_last(), name)
    }
}

/// Some port is named `name`.
pub open spec fn spec_port_exists(names: Seq<Option<Seq<char>>>, name: Seq<char>) -> bool {
    exists|i: int| 0 <= i < names.len() && names[i] == Some(name)
}

/// The names that could be read, in port order.
pub open spec fn spec_known_names(names: Seq<Option<Seq<char>>>) -> Seq<Seq<char>>
    decreases names.len(),
{
    if names.len() == 0 {
        Seq::empty()
    } else {
        match names.last() {
            Some(n) => spec_known_names(names.drop_last()).push(n),
            None => spec_known_names(names.drop_last()),
        }
    }
}

/// The first-match lookup finds exactly the first port of that name.
pub proof fn lemma_find_port_first(names: Seq<Option<Seq<char>>>, name: Seq<char>)
    ensures
        spec_find_port(names, name) matches Some(i) ==> 0 <= i < names.len() && names[i] == Some(
            name,
        ) && forall|j: int| 0 <= j < i ==> names[j] != Some(name),
        spec_find_port(names, name) is None ==> forall|j: int|
            0 <= j < names.len() ==> names[j] != Some(name),
    decreases names.len(),
{
    if names.len() > 0 {
        let init = names.drop_last();
        lemma_find_port_first(init, name);
        assert forall|j: int| 0 <= j < init.len() implies init[j] == names[j] by {}
    }
}

/// Stopping always leaves a bridge that may be started again, and whose watchdog
/// ends at its next check, whatever the ports look like.
pub proof fn lemma_stop_allows_start(b: BridgeView, out_exists: bool, in_exists: bool)
    ensures
        can_start(spec_stop(b)),
        spec_stop(b).watchdog_stopped,
        spec_watchdog_tick(spec_stop(b), out_exists, in_exists).1 == WatchdogAction::Exit,
        spec_stop(b).input == b.input && spec_stop(b).output == b.output,
{
}

/// A successful start (connect, then start the watchdog) from a stopped bridge leaves it
/// running with an active watchdog; a second start is then refused.
pub proof fn lemma_start_runs(b: BridgeView)
    requires
        can_start(b),
    ensures
        spec_on_started(spec_on_connected(b)).state == BridgeState::Running,
        !spec_on_started(spec_on_connected(b)).watchdog_stopped,
        !can_start(spec_on_started(spec_on_connected(b))),
        spec_on_started(spec_on_connected(b)).input == b.input,
        spec_on_started(spec_on_connected(b)).output == b.output,
{
}

/// The watchdog never changes the ports, nor whether it is to end; it ends exactly when
/// the bridge is stopped, and a running bridge whose ports both exist is left alone.
pub proof fn lemma_watchdog_frame(b: BridgeView, out_exists: bool, in_exists: bool)
    ensures
        ({
            let (b2, a) = spec_watchdog_tick(b, out_exists, in_exists);
            &&& b2.input == b.input
            &&& b2.output == b.output
            &&& b2.watchdog_stopped == b.watchdog_stopped
            &&& (a == WatchdogAction::Exit <==> b.state == BridgeState::Stopped)
            &&& (b2.state == BridgeState::Stopped <==> b.state == BridgeState::Stopped)
            &&& (b.state == BridgeState::Running && out_exists && in_exists) ==> (b2 == b && a
                == WatchdogAction::Wait)
        }),
{
}

/// Auto-reconnect: when a port of a running bridge goes away the watchdog disconnects and
/// the bridge reconnects; while a port stays missing it waits; once both ports are back
/// it asks for a reconnection, after which the bridge runs again between the same ports.
pub proof fn lemma_auto_reconnect(
    b: BridgeView,
    out_lost: bool,
    in_lost: bool,
    out_meanwhile: bool,
    in_meanwhile: bool,
)
    requires
        b.state == BridgeState::Running,
        out_lost == false || in_lost == false,
    ensures
        ({
            let (b1, a1) = spec_watchdog_tick(b, out_lost, in_lost);
            let (b2, a2) = spec_watchdog_tick(b1, out_meanwhile, in_meanwhile);
            let (b3, a3) = spec_watchdog_tick(b1, true, true);
            let b4 = spec_on_connected(b3);
            &&& a1 == WatchdogAction::Disconnect
            &&& b1.state == BridgeState::Reconnecting
            &&& (!out_meanwhile || !in_meanwhile) ==> (a2 == WatchdogAction::Wait && b2 == b1)
            &&& a3 == WatchdogAction::Reconnect
            &&& b4.state == BridgeState::Running
            &&& b4.input == b.input && b4.output == b.output
            &&& b4.watchdog_stopped == b.watchdog_stopped
        }),
{
}

/// A port exists exactly when the first-match lookup finds one.
pub proof fn lemma_port_exists_iff_found(names: Seq<Option<Seq<char>>>, name: Seq<char>)
    ensures
        spec_port_exists(names, name) <==> spec_find_port(names, name) is Some,
{
    lemma_find_port_first(names, name);
}

/// A watchdog check never completes a reconnection: a reconnecting bridge is still
/// reconnecting after the check whatever the ports report, and while both ports are
/// present every check asks again for a reconnection; only `on_connected`, once the
/// connection exists, makes the bridge run.
pub proof fn lemma_watchdog_keeps_reconnecting(b: BridgeView, out_exists: bool, in_exists: bool)
    requires
        b.state == BridgeState::Reconnecting,
    ensures
        spec_watchdog_tick(b, out_exists, in_exists).0.state == BridgeState::Reconnecting,
        spec_watchdog_tick(b, out_exists, in_exists).0 == b,
        (out_exists && in_exists) <==> spec_watchdog_tick(b, out_exists, in_exists).1
            == WatchdogAction::Reconnect,
        spec_watchdog_tick(spec_watchdog_tick(b, true, true).0, true, true).1
            == WatchdogAction::Reconnect,
        spec_on_connected(spec_watchdog_tick(b, true, true).0).state == BridgeState::Running,
{
}

/// The listed names are exactly the readable names, in port order: the entries that are
/// `Some`, unwrapped. Every readable name is listed and every listed name is readable.
pub proof fn lemma_known_names_are_readable_names(names: Seq<Option<Seq<char>>>)
    ensures
        spec_known_names(names) == names.filter_map(|o: Option<Seq<char>>| o),
        forall|i: int, n: Seq<char>|
            0 <= i < names.len() && names[i] == Some(n) ==> spec_known_names(names).contains(n),
        forall|k: int|
            0 <= k < spec_known_names(names).len() ==> exists|i: int|
                0 <= i < names.len() && names[i] == Some(#[trigger] spec_known_names(names)[k]),
    decreases names.len(),
{
    if names.len() > 0 {
        let init = names.drop_last();
        lemma_known_names_are_readable_names(init);
        let r = spec_known_names(names);
        let ri = spec_known_names(init);
        assert(r == names.filter_map(|o: Option<Seq<char>>| o)) by {
            match names.last() {
                Some(n) => assert(ri.push(n) =~= ri + seq![n]),
                None => {},
            }
        }
        assert forall|i: int, n: Seq<char>|
            0 <= i < names.len() && names[i] == Some(n) implies r.contains(n) by {
            if i < names.len() - 1 {
                assert(init[i] == names[i]);
                assert(init[i] == Some(n));
                assert(ri.contains(n));
                let j = choose|j: int| 0 <= j < ri.len() && ri[j] == n;
                assert(r[j] == ri[j]);
                assert(r[j] == n);
            } else {
                assert(r[r.len() - 1] == n);
            }
        }
        assert forall|k: int| 0 <= k < r.len() implies exists|i: int|
            0 <= i < names.len() && names[i] == Some(#[trigger] r[k]) by {
            if k < ri.len() {
                assert(r[k] == ri[k]);
                let i = choose|i: int| 0 <= i < init.len() && init[i] == Some(ri[k]);
                assert(names[i] == init[i]);
            } else {
                assert(names[names.len() - 1] == Some(r[k]));
            }
        }
    }
}

impl Bridge {
    /// A stopped bridge between the default ports.
    pub fn new() -> (r: Bridge)
        ensures
            r@ == spec_new_bridge(),
    {
        let input = "loopMIDI Port";
        let output = "APC40 mkII";
        Bridge {
            state: BridgeState::Stopped,
            watchdog_stopped: false,
            input_port: String::from_str(input),
            output_port: String::from_str(output),
        }
    }

    pub fn state(&self) -> (r: BridgeState)
        ensures
            r == self@.state,
    {
        self.state
    }

    pub fn input_port_name(&self) -> (r: String)
        ensures
            r@ == self@.input,
    {
        self.input_port.clone()
    }

    pub fn output_port_name(&self) -> (r: String)
        ensures
            r@ == self@.output,
    {
        self.output_port.clone()
    }

    pub fn set_input_port(&mut self, name: String)
        ensures
            final(self)@ == (BridgeView { input: name@, ..old(self)@ }),
    {
        self.input_port = name;
    }

    pub fn set_output_port(&mut self, name: String)
        ensures
            final(self)@ == (BridgeView { output: name@, ..old(self)@ }),
    {
        self.output_port = name;
    }

    /// May the bridge be started? A bridge that is running or reconnecting refuses.
    /// On `Ok` the caller connects the ports and then calls `on_connected` and `on_started`.
    pub fn start(&self) -> (r: Result<(), String>)
        ensures
            r is Ok <==> can_start(self@),
            r matches Err(e) ==> e@ == "Bridge is already running"@,
    {
        if self.state == BridgeState::Running || self.state == BridgeState::Reconnecting {
            return Err(String::from_str("Bridge is already running"));
        }
        Ok(())
    }

    /// The forwarding connection has been established: the bridge is running.
    pub fn on_connected(&mut self)
        ensures
            final(self)@ == spec_on_connected(old(self)@),
    {
        self.state = BridgeState::Running;
    }

    /// The watchdog has been (re)started: it keeps checking until the next `stop`.
    pub fn on_started(&mut self)
        ensures
            final(self)@ == spec_on_started(old(self)@),
    {
        self.watchdog_stopped = false;
    }

    /// Stop the bridge. The caller closes the forwarding connection.
    pub fn stop(&mut self)
        ensures
            final(self)@ == spec_stop(old(self)@),
    {
        self.watchdog_stopped = true;
        self.state = BridgeState::Stopped;
    }

    /// The ports the watchdog is to check, output first, or `None` when it is to end.
    pub fn watchdog_ports(&self) -> (r: Option<(String, String)>)
        ensures
            r is None <==> self@.watchdog_stopped,
            r matches Some(p) ==> p.0@ == self@.output && p.1@ == self@.input,
    {
        if self.watchdog_stopped {
            None
        } else {
            Some((self.output_port.clone(), self.input_port.clone()))
        }
    }

    /// One watchdog check, given whether the output and the input port exist.
    pub fn watchdog_tick(&mut self, out_exists: bool, in_exists: bool) -> (r: WatchdogAction)
        ensures
            (final(self)@, r) == spec_watchdog_tick(old(self)@, out_exists, in_exists),
            old(self)@.state == BridgeState::Reconnecting ==> final(self)@ == old(self)@,
    {
        match self.state {
            BridgeState::Running => {
                if !out_exists || !in_exists {
                    self.state = BridgeState::Reconnecting;
                    WatchdogAction::Disconnect
                } else {
                    WatchdogAction::Wait
                }
            },
            BridgeState::Reconnecting => {
                if out_exists && in_exists {
                    WatchdogAction::Reconnect
                } else {
                    WatchdogAction::Wait
                }
            },
            BridgeState::Stopped => WatchdogAction::Exit,
        }
    }

    /// Index of the output port to connect to, or the error that names the missing port.
    pub fn output_port_index(&self, names: &Vec<Option<String>>) -> (r: Result<usize, String>)
        ensures
            r matches Ok(i) ==> spec_find_port(names.deep_view(), self@.output) == Some(i as int),
            r matches Err(e) ==> spec_find_port(names.deep_view(), self@.output) is None
                && e@ == "Output port not found: "@ + self@.output,
    {
        match find_port(names, self.output_port.as_str()) {
            Some(i) => Ok(i),
            None => Err(join("Output port not found: ", self.output_port.as_str())),
        }
    }

    /// Index of the input port to listen on, or the error that names the missing port.
    pub fn input_port_index(&self, names: &Vec<Option<String>>) -> (r: Result<usize, String>)
        ensures
            r matches Ok(i) ==> spec_find_port(names.deep_view(), self@.input) == Some(i as int),
            r matches Err(e) ==> spec_find_port(names.deep_view(), self@.input) is None
                && e@ == "Input port not found: "@ + self@.input,
    {
        match find_port(names, self.input_port.as_str()) {
            Some(i) => Ok(i),
            None => Err(join("Input port not found: ", self.input_port.as_str())),
        }
    }
}

/// Seconds between two checks of the watchdog.
pub const WATCHDOG_INTERVAL_SECS: u64 = 2;

/// The message sent to the output device whenever the bridge (re)connects: it switches
/// the device to Alternate Ableton mode, in which it takes LED feedback from the host.
pub fn connect_sysex() -> (r: Vec<u8>)
    ensures
        r@ == spec_sysex_message(ApcMode::AlternateAbleton),
{
    ApcMode::AlternateAbleton.sysex_message()
}

/// Index of the first port named `name`.
pub fn find_port(names: &Vec<Option<String>>, name: &str) -> (r: Option<usize>)
    ensures
        r matches Some(i) ==> spec_find_port(names.deep_view(), name@) == Some(i as int),
        r is None ==> spec_find_port(names.deep_view(), name@) is None,
        r matches Some(i) ==> i < names.len() && names.deep_view()[i as int] == Some(name@)
            && forall|j: int| 0 <= j < i ==> names.deep_view()[j] != Some(name@),
        r is None ==> forall|j: int|
            0 <= j < names.len() ==> names.deep_view()[j] != Some(name@),
{
    let ghost v = names.deep_view();
    let mut i: usize = 0;
    while i < names.len()
        invariant
            v == names.deep_view(),
            i <= names.len(),
            forall|j: int| 0 <= j < i ==> v[j] != Some(name@),
        decreases names.len() - i,
    {
        let hit = match &names[i] {
            Some(n) => str_eq(n.as_str(), name),
            None => false,
        };
        assert(v[i as int] == names@[i as int].deep_view());
        if hit {
            proof {
                lemma_find_port_first(v, name@);
                let f = spec_find_port(v, name@);
                if f is None {
                } else {
                    let k: int = f->0;
                    assert(k >= i) by {
                        if k < i {
                            assert(v[k] != Some(name@));
                        }
                    }
                    assert(k <= i) by {
                        if k > i {
                            assert(v[i as int] == Some(name@));
                        }
                    }
                }
            }
            return Some(i);
        }
        i = i + 1;
    }
    proof {
        lemma_find_port_first(v, name@);
    }
    None
}

/// Whether some port is named `name`.
pub fn port_exists(names: &Vec<Option<String>>, name: &str) -> (r: bool)
    ensures
        r == spec_port_exists(names.deep_view(), name@),
{
    let f = find_port(names, name);
    proof {
        lemma_find_port_first(names.deep_view(), name@);
    }
    f.is_some()
}

/// The names of the ports whose name could be read, in port order.
pub fn list_port_names(names: &Vec<Option<String>>) -> (r: Vec<String>)
    ensures
        r.deep_view() == spec_known_names(names.deep_view()),
        r.deep_view() == names.deep_view().filter_map(|o: Option<Seq<char>>| o),
{
    let ghost v = names.deep_view();
    let mut out: Vec<String> = Vec::new();
    let mut i: usize = 0;
    while i < names.len()
        invariant
            v == names.deep_view(),
            i <= names.len(),
            out.deep_view() == spec_known_names(v.subrange(0, i as int)),
        decreases names.len() - i,
    {
        assert(v.subrange(0, i + 1).drop_last() =~= v.subrange(0, i as int));
        assert(v[i as int] == names@[i as int].deep_view());
        match &names[i] {
            Some(n) => {
                out.push(n.clone());
                assert(out.deep_view() =~= spec_known_names(v.subrange(0, i + 1)));
            },
            None => {},
        }
        i = i + 1;
    }
    assert(v.subrange(0, names.len() as int) =~= v);
    proof {
        lemma_known_names_are_readable_names(v);
    }
    out
}

/// The status query: the name of the bridge's current state.
pub fn get_status(bridge: &Bridge) -> (r: String)
    ensures
        r@ == spec_state_name(bridge@.state),
{
    String::from_str(bridge.state().name())
}

} // verus!
