//! The control loop as a state machine.
//!
//! The loop itself runs outside: it sends requests, waits, polls the menu
//! and reads the clock. Here is what it decides. [`LoopState::start`] gives
//! the first command; after carrying a command out, the caller reports what
//! happened to [`step`], applies the effects it returns and carries out the
//! next command.

use crate::clash_api::{
    delay_test_request, delivery_outcome, error_text, listing_outcome, listing_view,
    measured_delays, proxies_request, proxy_state, surfaced_groups, switch_request, BackendError,
    BackendRequest, BackendRequestView, ClashApi, Delivery, ListingDelivery, ListingDeliveryView,
};
use crate::config::{Config, ConfigView};
use crate::menu::{
    bound, lemma_render_is_bound, render, resolve, table_of, MenuActionId, MenuActionIdView,
};
use crate::models::{ProxiesResponse, ProxyGroupView, ProxyView, TrayEvent, TrayEventView};
use crate::ordered::{delay_entries, delays_new, group_entries, groups_new, DelayMap, GroupMap};
use crate::reconcile::{reconcile, reconciled};
use crate::tray::{blank_tray, next_generation, tray_showing, TrayManager, TrayManagerView};
use vstd::prelude::*;

verus! {

/// How long the loop sleeps when it yields, in milliseconds.
pub const IDLE_SLEEP_MILLIS: u64 = 100;

/// How urgent a notification is.
#[derive(Clone, Copy, Debug, PartialEq, Eq, Structural)]
pub enum Severity {
    Info,
    Critical,
}

impl Severity {
    /// How long a notification of this severity stays on screen, in
    /// milliseconds.
    pub fn timeout_millis(&self) -> (millis: u32)
        ensures
            millis == (match *self {
                Severity::Info => 3000u32,
                Severity::Critical => 5000u32,
            }),
    {
        match self {
            Severity::Info => 3000,
            Severity::Critical => 5000,
        }
    }
}

/// A message for the user.
#[derive(Debug, PartialEq, Eq)]
pub struct Notification {
    pub summary: String,
    pub body: String,
    pub severity: Severity,
}

/// The mathematical content of a [`Notification`].
pub struct NotificationView {
    pub summary: Seq<char>,
    pub body: Seq<char>,
    pub severity: Severity,
}

impl View for Notification {
    type V = NotificationView;

    open spec fn view(&self) -> NotificationView {
        NotificationView { summary: self.summary@, body: self.body@, severity: self.severity }
    }
}

/// The message after a failed startup: the backend could not be probed or
/// listed.
pub open spec fn connection_failed_note(error: BackendError) -> NotificationView {
    NotificationView {
        summary: "Connection Failed"@,
        body: "Cannot connect to Clash API: "@ + error_text(error),
        severity: Severity::Critical,
    }
}

/// The message after a switch that the backend accepted.
pub open spec fn switched_note(group: Seq<char>, node: Seq<char>) -> NotificationView {
    NotificationView {
        summary: "Node Switched"@,
        body: "Switched "@ + group + " to "@ + node,
        severity: Severity::Info,
    }
}

/// The message after a switch that failed.
pub open spec fn switch_failed_note(group: Seq<char>, error: BackendError) -> NotificationView {
    NotificationView {
        summary: "Switch Failed"@,
        body: "Failed to switch "@ + group + ": "@ + error_text(error),
        severity: Severity::Critical,
    }
}

/// The message after a refresh that the user asked for and that worked.
pub open spec fn refreshed_note() -> NotificationView {
    NotificationView {
        summary: "Refreshed"@,
        body: "Proxy groups updated successfully"@,
        severity: Severity::Info,
    }
}

/// The message after a refresh that failed.
pub open spec fn refresh_failed_note(error: BackendError) -> NotificationView {
    NotificationView {
        summary: "Refresh Failed"@,
        body: "Error: "@ + error_text(error),
        severity: Severity::Critical,
    }
}

impl Notification {
    pub fn connection_failed(error: BackendError) -> (note: Notification)
        ensures
            note@ == connection_failed_note(error),
    {
        let mut body = String::from_str("Cannot connect to Clash API: ");
        body.append(error.describe().as_str());
        Notification {
            summary: String::from_str("Connection Failed"),
            body,
            severity: Severity::Critical,
        }
    }

    pub fn switched(group: &str, node: &str) -> (note: Notification)
        ensures
            note@ == switched_note(group@, node@),
    {
        let mut body = String::from_str("Switched ");
        body.append(group);
        body.append(" to ");
        body.append(node);
        Notification { summary: String::from_str("Node Switched"), body, severity: Severity::Info }
    }

    pub fn switch_failed(group: &str, error: BackendError) -> (note: Notification)
        ensures
            note@ == switch_failed_note(group@, error),
    {
        let mut body = String::from_str("Failed to switch ");
        body.append(group);
        body.append(": ");
        body.append(error.describe().as_str());
        Notification {
            summary: String::from_str("Switch Failed"),
            body,
            severity: Severity::Critical,
        }
    }

    pub fn refreshed() -> (note: Notification)
        ensures
            note@ == refreshed_note(),
    {
        Notification {
            summary: String::from_str("Refreshed"),
            body: String::from_str("Proxy groups updated successfully"),
            severity: Severity::Info,
        }
    }

    pub fn refresh_failed(error: BackendError) -> (note: Notification)
        ensures
            note@ == refresh_failed_note(error),
    {
        let mut body = String::from_str("Error: ");
        body.append(error.describe().as_str());
        Notification {
            summary: String::from_str("Refresh Failed"),
            body,
            severity: Severity::Critical,
        }
    }
}

/// Something for the shell to show, at once, before the next command.
#[derive(Debug, PartialEq, Eq)]
pub enum Effect {
    /// Show this message to the user.
    Notify(Notification),
    /// The menu was replaced: show the tray's new menu.
    MenuChanged,
    /// Show the icon of a reachable or of an unreachable backend.
    IconChanged { connected: bool },
    /// Start measuring the time since the last automatic refresh anew.
    TimerReset,
}

/// The mathematical content of an [`Effect`].
pub enum EffectView {
    Notify(NotificationView),
    MenuChanged,
    IconChanged { connected: bool },
    TimerReset,
}

impl View for Effect {
    type V = EffectView;

    open spec fn view(&self) -> EffectView {
        match self {
            Effect::Notify(note) => EffectView::Notify(note@),
            Effect::MenuChanged => EffectView::MenuChanged,
            Effect::IconChanged { connected } => EffectView::IconChanged { connected: *connected },
            Effect::TimerReset => EffectView::TimerReset,
        }
    }
}

impl DeepView for Effect {
    type V = EffectView;

    open spec fn deep_view(&self) -> EffectView {
        self@
    }
}

/// What the shell is to do next. What came of it is the next event.
#[derive(Debug, PartialEq, Eq)]
pub enum Command {
    /// Send the probe and report `ConnectionTested`.
    TestConnection(BackendRequest),
    /// Send the listing request and report `Fetched`.
    Fetch(BackendRequest),
    /// Send the switch request and report `Switched`.
    Switch(BackendRequest),
    /// Send the latency test request and report `DelayTested`.
    DelayTest(BackendRequest),
    /// Look, without waiting, for a menu selection and report `Polled`.
    PollAction,
    /// Report the whole seconds since the last timer reset as `Clock`.
    ReadClock,
    /// Let the user interface work, sleep briefly and report `Yielded`.
    Yield,
    /// Leave the process with this exit code.
    Exit { code: i32 },
}

/// The mathematical content of a [`Command`].
pub enum CommandView {
    TestConnection(BackendRequestView),
    Fetch(BackendRequestView),
    Switch(BackendRequestView),
    DelayTest(BackendRequestView),
    PollAction,
    ReadClock,
    Yield,
    Exit { code: i32 },
}

impl View for Command {
    type V = CommandView;

    open spec fn view(&self) -> CommandView {
        match self {
            Command::TestConnection(request) => CommandView::TestConnection(request@),
            Command::Fetch(request) => CommandView::Fetch(request@),
            Command::Switch(request) => CommandView::Switch(request@),
            Command::DelayTest(request) => CommandView::DelayTest(request@),
            Command::PollAction => CommandView::PollAction,
            Command::ReadClock => CommandView::ReadClock,
            Command::Yield => CommandView::Yield,
            Command::Exit { code } => CommandView::Exit { code: *code },
        }
    }
}

/// What the shell reports back.
#[derive(Debug, PartialEq, Eq)]
pub enum LoopEvent {
    ConnectionTested(Delivery),
    Fetched(ListingDelivery),
    Switched(Delivery),
    DelayTested(Delivery),
    /// The selection that was waiting, if any.
    Polled(Option<MenuActionId>),
    /// The whole seconds since the last timer reset.
    Clock { elapsed_secs: u64 },
    Yielded,
}

/// The mathematical content of a [`LoopEvent`].
pub enum LoopEventView {
    ConnectionTested(Delivery),
    Fetched(ListingDeliveryView),
    Switched(Delivery),
    DelayTested(Delivery),
    Polled(Option<MenuActionId>),
    Clock { elapsed_secs: u64 },
    Yielded,
}

impl View for LoopEvent {
    type V = LoopEventView;

    open spec fn view(&self) -> LoopEventView {
        match self {
            LoopEvent::ConnectionTested(delivery) => LoopEventView::ConnectionTested(*delivery),
            LoopEvent::Fetched(delivery) => LoopEventView::Fetched(delivery@),
            LoopEvent::Switched(delivery) => LoopEventView::Switched(*delivery),
            LoopEvent::DelayTested(delivery) => LoopEventView::DelayTested(*delivery),
            LoopEvent::Polled(selected) => LoopEventView::Polled(*selected),
            LoopEvent::Clock { elapsed_secs } => LoopEventView::Clock {
                elapsed_secs: *elapsed_secs,
            },
            LoopEvent::Yielded => LoopEventView::Yielded,
        }
    }
}

/// Where in its cycle the loop is: what it is waiting for.
#[derive(Debug, PartialEq, Eq)]
pub enum Stage {
    /// Startup: waiting for the probe.
    TestingConnection,
    /// Startup: waiting for the first listing.
    InitialFetch,
    /// Taking the waiting selections, one by one.
    Draining,
    /// Waiting for the backend to switch `group` to `node`.
    Switching { group: String, node: String },
    /// Waiting for the listing that follows a switch.
    RefreshAfterSwitch,
    /// Waiting for the latency test that precedes a refresh the user asked
    /// for.
    UserDelayTest,
    /// Waiting for the listing of a refresh the user asked for.
    UserRefresh,
    /// Waiting for the clock.
    CheckingTimer,
    /// Waiting for the latency test that precedes an automatic refresh.
    AutoDelayTest,
    /// Waiting for the listing of an automatic refresh.
    AutoRefresh,
    /// Waiting while the user interface works and the loop sleeps.
    Yielding,
    /// The loop has ended.
    Terminated { code: i32 },
}

/// The mathematical content of a [`Stage`].
pub enum StageView {
    TestingConnection,
    InitialFetch,
    Draining,
    Switching { group: Seq<char>, node: Seq<char> },
    RefreshAfterSwitch,
    UserDelayTest,
    UserRefresh,
    CheckingTimer,
    AutoDelayTest,
    AutoRefresh,
    Yielding,
    Terminated { code: i32 },
}

impl View for Stage {
    type V = StageView;

    open spec fn view(&self) -> StageView {
        match self {
            Stage::TestingConnection => StageView::TestingConnection,
            Stage::InitialFetch => StageView::InitialFetch,
            Stage::Draining => StageView::Draining,
            Stage::Switching { group, node } => StageView::Switching { group: group@, node: node@ },
            Stage::RefreshAfterSwitch => StageView::RefreshAfterSwitch,
            Stage::UserDelayTest => StageView::UserDelayTest,
            Stage::UserRefresh => StageView::UserRefresh,
            Stage::CheckingTimer => StageView::CheckingTimer,
            Stage::AutoDelayTest => StageView::AutoDelayTest,
            Stage::AutoRefresh => StageView::AutoRefresh,
            Stage::Yielding => StageView::Yielding,
            Stage::Terminated { code } => StageView::Terminated { code: *code },
        }
    }
}

/// The connectivity state that the loop reports.
#[derive(Clone, Copy, Debug, PartialEq, Eq, Structural)]
pub enum Phase {
    Starting,
    Connected,
    Disconnected,
    Terminated,
}

/// Everything the loop owns: the settings, the groups and delays of the
/// last successful refresh, the tray that shows them, and the stage.
#[derive(Debug, PartialEq, Eq)]
pub struct LoopState {
    config: Config,
    tray: TrayManager,
    groups: GroupMap,
    delays: DelayMap,
    stage: Stage,
}

/// The mathematical content of a [`LoopState`].
pub struct LoopStateView {
    pub config: ConfigView,
    pub tray: TrayManagerView,
    pub groups: Seq<(Seq<char>, ProxyGroupView)>,
    pub delays: Seq<(Seq<char>, u32)>,
    pub stage: StageView,
}

impl View for LoopState {
    type V = LoopStateView;

    closed spec fn view(&self) -> LoopStateView {
        LoopStateView {
            config: self.config@,
            tray: self.tray@,
            groups: group_entries(self.groups),
            delays: delay_entries(self.delays),
            stage: self.stage@,
        }
    }
}

/// The state in which a loop with the given settings starts.
pub open spec fn initial_state(config: ConfigView) -> LoopStateView {
    LoopStateView {
        config,
        tray: blank_tray(),
        groups: Seq::empty(),
        delays: Seq::empty(),
        stage: StageView::TestingConnection,
    }
}

/// The connectivity state of a loop state: starting until the first
/// listing has arrived, terminated at the end, and in between connected or
/// disconnected as the icon shows.
pub open spec fn phase_of(state: LoopStateView) -> Phase {
    match state.stage {
        StageView::TestingConnection | StageView::InitialFetch => Phase::Starting,
        StageView::Terminated { .. } => Phase::Terminated,
        _ => if state.tray.connected {
            Phase::Connected
        } else {
            Phase::Disconnected
        },
    }
}

/// The request that lists the proxies of the configured backend.
pub open spec fn listing_request(config: ConfigView) -> BackendRequestView {
    proxies_request(config.clash_api_url, config.clash_secret)
}

/// The command that the shell is to carry out in a state.
pub open spec fn pending_command(state: LoopStateView) -> CommandView {
    let config = state.config;
    match state.stage {
        StageView::TestingConnection => CommandView::TestConnection(listing_request(config)),
        StageView::InitialFetch
        | StageView::RefreshAfterSwitch
        | StageView::UserRefresh
        | StageView::AutoRefresh => CommandView::Fetch(listing_request(config)),
        StageView::Draining => CommandView::PollAction,
        StageView::Switching { group, node } => CommandView::Switch(
            switch_request(config.clash_api_url, config.clash_secret, group, node),
        ),
        StageView::UserDelayTest | StageView::AutoDelayTest => CommandView::DelayTest(
            delay_test_request(
                config.clash_api_url,
                config.clash_secret,
                config.delay_test_group,
                config.delay_test_url,
                config.delay_test_timeout,
            ),
        ),
        StageView::CheckingTimer => CommandView::ReadClock,
        StageView::Yielding => CommandView::Yield,
        StageView::Terminated { code } => CommandView::Exit { code },
    }
}

/// The state after one refresh with the given listing: the listing is read,
/// reconciled with the allow-list and shown. Groups, delays, menu and table
/// are replaced together.
pub open spec fn refreshed(state: LoopStateView, listing: Seq<(Seq<char>, ProxyView)>)
    -> LoopStateView {
    let groups = reconciled(surfaced_groups(listing), state.config.proxy_groups);
    let delays = measured_delays(listing);
    LoopStateView {
        groups,
        delays,
        tray: tray_showing(
            state.tray,
            groups,
            delays,
            state.config.delay_green_threshold,
            state.config.delay_yellow_threshold,
        ),
        ..state
    }
}

/// The state with the icon set.
pub open spec fn with_icon(state: LoopStateView, connected: bool) -> LoopStateView {
    LoopStateView { tray: TrayManagerView { connected, ..state.tray }, ..state }
}

/// The state at another stage.
pub open spec fn at_stage(state: LoopStateView, stage: StageView) -> LoopStateView {
    LoopStateView { stage, ..state }
}

/// After the startup probe: on success the first listing is fetched; on
/// failure the user is told and the loop ends with exit code 1.
pub open spec fn after_connection_test(state: LoopStateView, result: Result<(), BackendError>) -> (
    LoopStateView,
    Seq<EffectView>,
) {
    match (state.stage, result) {
        (StageView::TestingConnection, Ok(_)) => (
            at_stage(state, StageView::InitialFetch),
            Seq::empty(),
        ),
        (StageView::TestingConnection, Err(error)) => (
            at_stage(state, StageView::Terminated { code: 1 }),
            seq![EffectView::Notify(connection_failed_note(error))],
        ),
        _ => (state, Seq::empty()),
    }
}

/// After a listing request.
///
/// At startup a listing starts the loop proper, and a failure is notified
/// and ends the loop with exit code 1. In the running loop a listing is
/// shown, and a failure is notified and disconnects; neither ends the loop.
/// A refresh that the user asked for, or that the timer started, connects
/// when it works, and the former says so; the refresh after a switch leaves
/// the icon to the switch. A refresh that the timer started resets the
/// timer, whatever its outcome.
pub open spec fn after_fetch(
    state: LoopStateView,
    result: Result<Seq<(Seq<char>, ProxyView)>, BackendError>,
) -> (LoopStateView, Seq<EffectView>) {
    match (state.stage, result) {
        (StageView::InitialFetch, Ok(listing)) => (
            at_stage(with_icon(refreshed(state, listing), true), StageView::Draining),
            seq![
                EffectView::MenuChanged,
                EffectView::IconChanged { connected: true },
                EffectView::TimerReset,
            ],
        ),
        (StageView::InitialFetch, Err(error)) => (
            at_stage(state, StageView::Terminated { code: 1 }),
            seq![EffectView::Notify(connection_failed_note(error))],
        ),
        (StageView::RefreshAfterSwitch, Ok(listing)) => (
            at_stage(refreshed(state, listing), StageView::Draining),
            seq![EffectView::MenuChanged],
        ),
        (StageView::RefreshAfterSwitch, Err(error)) => (
            at_stage(with_icon(state, false), StageView::Draining),
            seq![
                EffectView::Notify(refresh_failed_note(error)),
                EffectView::IconChanged { connected: false },
            ],
        ),
        (StageView::UserRefresh, Ok(listing)) => (
            at_stage(with_icon(refreshed(state, listing), true), StageView::Draining),
            seq![
                EffectView::MenuChanged,
                EffectView::IconChanged { connected: true },
                EffectView::Notify(refreshed_note()),
            ],
        ),
        (StageView::UserRefresh, Err(error)) => (
            at_stage(with_icon(state, false), StageView::Draining),
            seq![
                EffectView::Notify(refresh_failed_note(error)),
                EffectView::IconChanged { connected: false },
            ],
        ),
        (StageView::AutoRefresh, Ok(listing)) => (
            at_stage(with_icon(refreshed(state, listing), true), StageView::Yielding),
            seq![
                EffectView::MenuChanged,
                EffectView::IconChanged { connected: true },
                EffectView::TimerReset,
            ],
        ),
        (StageView::AutoRefresh, Err(error)) => (
            at_stage(with_icon(state, false), StageView::Yielding),
            seq![
                EffectView::Notify(refresh_failed_note(error)),
                EffectView::IconChanged { connected: false },
                EffectView::TimerReset,
            ],
        ),
        _ => (state, Seq::empty()),
    }
}

/// After a switch request: the outcome is notified and sets the icon, and
/// whatever the outcome a refresh follows.
pub open spec fn after_switch(state: LoopStateView, result: Result<(), BackendError>) -> (
    LoopStateView,
    Seq<EffectView>,
) {
    match (state.stage, result) {
        (StageView::Switching { group, node }, Ok(_)) => (
            at_stage(with_icon(state, true), StageView::RefreshAfterSwitch),
            seq![
                EffectView::Notify(switched_note(group, node)),
                EffectView::IconChanged { connected: true },
            ],
        ),
        (StageView::Switching { group, node }, Err(error)) => (
            at_stage(with_icon(state, false), StageView::RefreshAfterSwitch),
            seq![
                EffectView::Notify(switch_failed_note(group, error)),
                EffectView::IconChanged { connected: false },
            ],
        ),
        _ => (state, Seq::empty()),
    }
}

/// After a latency test request: the refresh follows, whatever came of the
/// test.
pub open spec fn after_delay_test(state: LoopStateView) -> (LoopStateView, Seq<EffectView>) {
    match state.stage {
        StageView::UserDelayTest => (at_stage(state, StageView::UserRefresh), Seq::empty()),
        StageView::AutoDelayTest => (at_stage(state, StageView::AutoRefresh), Seq::empty()),
        _ => (state, Seq::empty()),
    }
}

/// After looking for a selection: a selection is decoded against the table
/// on show and acted on; one that does not resolve is passed over. Without
/// a selection the loop goes on to the timer.
pub open spec fn after_poll(state: LoopStateView, selected: Option<MenuActionId>) -> (
    LoopStateView,
    Seq<EffectView>,
) {
    match (state.stage, selected) {
        (StageView::Draining, Some(id)) => match resolve(state.tray.table, id@) {
            Some(TrayEventView::SwitchNode { group, node }) => (
                at_stage(state, StageView::Switching { group, node }),
                Seq::empty(),
            ),
            Some(TrayEventView::Refresh) => (
                at_stage(state, StageView::UserDelayTest),
                Seq::empty(),
            ),
            Some(TrayEventView::Quit) => (
                at_stage(state, StageView::Terminated { code: 0 }),
                Seq::empty(),
            ),
            None => (state, Seq::empty()),
        },
        (StageView::Draining, None) => (at_stage(state, StageView::CheckingTimer), Seq::empty()),
        _ => (state, Seq::empty()),
    }
}

/// After reading the clock: an automatic refresh is due when the time since
/// the last reset has reached the refresh interval.
pub open spec fn after_clock(state: LoopStateView, elapsed_secs: u64) -> (
    LoopStateView,
    Seq<EffectView>,
) {
    match state.stage {
        StageView::CheckingTimer => if elapsed_secs >= state.config.refresh_interval_secs {
            (at_stage(state, StageView::AutoDelayTest), Seq::empty())
        } else {
            (at_stage(state, StageView::Yielding), Seq::empty())
        },
        _ => (state, Seq::empty()),
    }
}

/// After yielding: the next round begins.
pub open spec fn after_yield(state: LoopStateView) -> (LoopStateView, Seq<EffectView>) {
    match state.stage {
        StageView::Yielding => (at_stage(state, StageView::Draining), Seq::empty()),
        _ => (state, Seq::empty()),
    }
}

/// The state after an event, and the effects of the step. What the
/// transport reports is read first: no answer is an unreachable backend, a
/// status outside 200 to 299 is the status error, and a listing of another
/// shape is malformed. An event that the stage is not waiting for changes
/// nothing.
pub open spec fn step_spec(state: LoopStateView, event: LoopEventView) -> (
    LoopStateView,
    Seq<EffectView>,
) {
    match event {
        LoopEventView::ConnectionTested(delivery) => after_connection_test(
            state,
            delivery_outcome(delivery),
        ),
        LoopEventView::Fetched(delivery) => after_fetch(state, listing_outcome(delivery)),
        LoopEventView::Switched(delivery) => after_switch(state, delivery_outcome(delivery)),
        LoopEventView::DelayTested(_) => after_delay_test(state),
        LoopEventView::Polled(selected) => after_poll(state, selected),
        LoopEventView::Clock { elapsed_secs } => after_clock(state, elapsed_secs),
        LoopEventView::Yielded => after_yield(state),
    }
}

/// What a step hands back: the new state, what to show now, and what to do
/// next.
#[derive(Debug, PartialEq, Eq)]
pub struct StepOutcome {
    pub state: LoopState,
    pub effects: Vec<Effect>,
    pub command: Command,
}

impl LoopState {
    /// The state in which the loop starts, and its first command: the
    /// startup probe.
    pub fn start(config: Config) -> (out: (LoopState, Command))
        ensures
            out.0@ == initial_state(config@),
            out.1@ == pending_command(out.0@),
    {
        let state = LoopState {
            config,
            tray: TrayManager::new(),
            groups: groups_new(),
            delays: delays_new(),
            stage: Stage::TestingConnection,
        };
        let command = state.pending_command();
        (state, command)
    }

    /// The command that the shell is to carry out now.
    pub fn pending_command(&self) -> (command: Command)
        ensures
            command@ == pending_command(self@),
    {
        let api = ClashApi::new(&self.config);
        match &self.stage {
            Stage::TestingConnection => Command::TestConnection(api.test_connection_request()),
            Stage::InitialFetch => Command::Fetch(api.get_proxies_request()),
            Stage::RefreshAfterSwitch => Command::Fetch(api.get_proxies_request()),
            Stage::UserRefresh => Command::Fetch(api.get_proxies_request()),
            Stage::AutoRefresh => Command::Fetch(api.get_proxies_request()),
            Stage::Draining => Command::PollAction,
            Stage::Switching { group, node } => Command::Switch(
                api.switch_node_request(group.as_str(), node.as_str()),
            ),
            Stage::UserDelayTest => Command::DelayTest(self.delay_test(&api)),
            Stage::AutoDelayTest => Command::DelayTest(self.delay_test(&api)),
            Stage::CheckingTimer => Command::ReadClock,
            Stage::Yielding => Command::Yield,
            Stage::Terminated { code } => Command::Exit { code: *code },
        }
    }

    fn delay_test(&self, api: &ClashApi) -> (request: BackendRequest)
        ensures
            request@ == delay_test_request(
                api@.base_url,
                api@.secret,
                self@.config.delay_test_group,
                self@.config.delay_test_url,
                self@.config.delay_test_timeout,
            ),
    {
        api.trigger_delay_test_request(
            self.config.delay_test_group.as_str(),
            self.config.delay_test_url.as_str(),
            self.config.delay_test_timeout,
        )
    }

    /// The connectivity state.
    pub fn phase(&self) -> (phase: Phase)
        ensures
            phase == phase_of(self@),
    {
        match &self.stage {
            Stage::TestingConnection => Phase::Starting,
            Stage::InitialFetch => Phase::Starting,
            Stage::Terminated { .. } => Phase::Terminated,
            _ => if self.tray.is_connected() {
                Phase::Connected
            } else {
                Phase::Disconnected
            },
        }
    }

    /// The settings of this run.
    pub fn config(&self) -> (config: &Config)
        ensures
            config@ == self@.config,
    {
        &self.config
    }

    /// The tray: the menu on show, its table and the icon's state.
    pub fn tray(&self) -> (tray: &TrayManager)
        ensures
            tray@ == self@.tray,
    {
        &self.tray
    }

    /// The groups of the last successful refresh.
    pub fn groups(&self) -> (groups: &GroupMap)
        ensures
            group_entries(*groups) == self@.groups,
    {
        &self.groups
    }

    /// The delays of the last successful refresh.
    pub fn delays(&self) -> (delays: &DelayMap)
        ensures
            delay_entries(*delays) == self@.delays,
    {
        &self.delays
    }

    /// What the loop is waiting for.
    pub fn stage(&self) -> (stage: &Stage)
        ensures
            stage@ == self@.stage,
    {
        &self.stage
    }

    /// One refresh: reads the listing, applies the allow-list, and shows
    /// the result.
    fn refresh(&mut self, response: &ProxiesResponse)
        ensures
            final(self)@ == refreshed(old(self)@, response@),
    {
        let (groups, delays) = proxy_state(response);
        let (groups, delays) = reconcile(groups, delays, &self.config.proxy_groups);
        self.tray.update_menu(
            &groups,
            &delays,
            self.config.delay_green_threshold,
            self.config.delay_yellow_threshold,
        );
        self.groups = groups;
        self.delays = delays;
    }

    fn set_icon(&mut self, connected: bool)
        ensures
            final(self)@ == with_icon(old(self)@, connected),
    {
        if connected {
            self.tray.set_icon_connected();
        } else {
            self.tray.set_icon_disconnected();
        }
    }

    fn on_connection_tested(&mut self, result: Result<(), BackendError>) -> (effects: Vec<Effect>)
        ensures
            (final(self)@, effects.deep_view()) == after_connection_test(old(self)@, result),
    {
        let mut effects: Vec<Effect> = Vec::new();
        if let Stage::TestingConnection = &self.stage {
            match result {
                Ok(_) => {
                    self.stage = Stage::InitialFetch;
                },
                Err(error) => {
                    effects.push(Effect::Notify(Notification::connection_failed(error)));
                    self.stage = Stage::Terminated { code: 1 };
                },
            }
        }
        effects
    }

    fn on_fetched(&mut self, result: Result<ProxiesResponse, BackendError>) -> (effects: Vec<
        Effect,
    >)
        ensures
            (final(self)@, effects.deep_view()) == after_fetch(old(self)@, listing_view(result)),
    {
        let mut effects: Vec<Effect> = Vec::new();
        match &self.stage {
            Stage::InitialFetch => match result {
                Ok(response) => {
                    self.refresh(&response);
                    self.set_icon(true);
                    self.stage = Stage::Draining;
                    effects.push(Effect::MenuChanged);
                    effects.push(Effect::IconChanged { connected: true });
                    effects.push(Effect::TimerReset);
                },
                Err(error) => {
                    self.stage = Stage::Terminated { code: 1 };
                    effects.push(Effect::Notify(Notification::connection_failed(error)));
                },
            },
            Stage::RefreshAfterSwitch => match result {
                Ok(response) => {
                    self.refresh(&response);
                    self.stage = Stage::Draining;
                    effects.push(Effect::MenuChanged);
                },
                Err(error) => {
                    self.set_icon(false);
                    self.stage = Stage::Draining;
                    effects.push(Effect::Notify(Notification::refresh_failed(error)));
                    effects.push(Effect::IconChanged { connected: false });
                },
            },
            Stage::UserRefresh => match result {
                Ok(response) => {
                    self.refresh(&response);
                    self.set_icon(true);
                    self.stage = Stage::Draining;
                    effects.push(Effect::MenuChanged);
                    effects.push(Effect::IconChanged { connected: true });
                    effects.push(Effect::Notify(Notification::refreshed()));
                },
                Err(error) => {
                    self.set_icon(false);
                    self.stage = Stage::Draining;
                    effects.push(Effect::Notify(Notification::refresh_failed(error)));
                    effects.push(Effect::IconChanged { connected: false });
                },
            },
            Stage::AutoRefresh => match result {
                Ok(response) => {
                    self.refresh(&response);
                    self.set_icon(true);
                    self.stage = Stage::Yielding;
                    effects.push(Effect::MenuChanged);
                    effects.push(Effect::IconChanged { connected: true });
                    effects.push(Effect::TimerReset);
                },
                Err(error) => {
                    self.set_icon(false);
                    self.stage = Stage::Yielding;
                    effects.push(Effect::Notify(Notification::refresh_failed(error)));
                    effects.push(Effect::IconChanged { connected: false });
                    effects.push(Effect::TimerReset);
                },
            },
            _ => {},
        }
        effects
    }

    fn on_switched(&mut self, result: Result<(), BackendError>) -> (effects: Vec<Effect>)
        ensures
            (final(self)@, effects.deep_view()) == after_switch(old(self)@, result),
    {
        let mut effects: Vec<Effect> = Vec::new();
        let note = match &self.stage {
            Stage::Switching { group, node } => Some(
                match result {
                    Ok(_) => Notification::switched(group.as_str(), node.as_str()),
                    Err(error) => Notification::switch_failed(group.as_str(), error),
                },
            ),
            _ => None,
        };
        match note {
            Some(note) => {
                let connected = result.is_ok();
                self.set_icon(connected);
                self.stage = Stage::RefreshAfterSwitch;
                effects.push(Effect::Notify(note));
                effects.push(Effect::IconChanged { connected });
            },
            None => {},
        }
        effects
    }

    fn on_delay_tested(&mut self) -> (effects: Vec<Effect>)
        ensures
            (final(self)@, effects.deep_view()) == after_delay_test(old(self)@),
    {
        let effects: Vec<Effect> = Vec::new();
        let next = match &self.stage {
            Stage::UserDelayTest => Some(Stage::UserRefresh),
            Stage::AutoDelayTest => Some(Stage::AutoRefresh),
            _ => None,
        };
        match next {
            Some(stage) => {
                self.stage = stage;
            },
            None => {},
        }
        effects
    }

    fn on_polled(&mut self, selected: Option<MenuActionId>) -> (effects: Vec<Effect>)
        ensures
            (final(self)@, effects.deep_view()) == after_poll(old(self)@, selected),
    {
        let effects: Vec<Effect> = Vec::new();
        let next = match &self.stage {
            Stage::Draining => match selected {
                Some(_) => match self.tray.poll_events(selected) {
                    Some(TrayEvent::SwitchNode { group, node }) => Some(
                        Stage::Switching { group, node },
                    ),
                    Some(TrayEvent::Refresh) => Some(Stage::UserDelayTest),
                    Some(TrayEvent::Quit) => Some(Stage::Terminated { code: 0 }),
                    None => None,
                },
                None => Some(Stage::CheckingTimer),
            },
            _ => None,
        };
        match next {
            Some(stage) => {
                self.stage = stage;
            },
            None => {},
        }
        effects
    }

    fn on_clock(&mut self, elapsed_secs: u64) -> (effects: Vec<Effect>)
        ensures
            (final(self)@, effects.deep_view()) == after_clock(old(self)@, elapsed_secs),
    {
        let effects: Vec<Effect> = Vec::new();
        let due = elapsed_secs >= self.config.refresh_interval_secs;
        let waiting = match &self.stage {
            Stage::CheckingTimer => true,
            _ => false,
        };
        if waiting {
            if due {
                self.stage = Stage::AutoDelayTest;
            } else {
                self.stage = Stage::Yielding;
            }
        }
        effects
    }

    fn on_yielded(&mut self) -> (effects: Vec<Effect>)
        ensures
            (final(self)@, effects.deep_view()) == after_yield(old(self)@),
    {
        let effects: Vec<Effect> = Vec::new();
        let waiting = match &self.stage {
            Stage::Yielding => true,
            _ => false,
        };
        if waiting {
            self.stage = Stage::Draining;
        }
        effects
    }
}

/// Takes one step: from the state and what the shell reports to the next
/// state, the effects to apply now, and the next command.
pub fn step(state: LoopState, event: LoopEvent) -> (out: StepOutcome)
    ensures
        out.state@ == step_spec(state@, event@).0,
        out.effects.deep_view() == step_spec(state@, event@).1,
        out.command@ == pending_command(out.state@),
{
    let mut state = state;
    let effects = match event {
        LoopEvent::ConnectionTested(delivery) => state.on_connection_tested(delivery.outcome()),
        LoopEvent::Fetched(delivery) => state.on_fetched(delivery.outcome()),
        LoopEvent::Switched(delivery) => state.on_switched(delivery.outcome()),
        LoopEvent::DelayTested(_) => state.on_delay_tested(),
        LoopEvent::Polled(selected) => state.on_polled(selected),
        LoopEvent::Clock { elapsed_secs } => state.on_clock(elapsed_secs),
        LoopEvent::Yielded => state.on_yielded(),
    };
    let command = state.pending_command();
    StepOutcome { state, effects, command }
}

/// True while the loop proper runs: after startup and before the end.
pub open spec fn running(state: LoopStateView) -> bool {
    phase_of(state) == Phase::Connected || phase_of(state) == Phase::Disconnected
}

/// True when the menu on show is the projection of the groups and delays
/// that the state holds, and the table is the table of that projection.
pub open spec fn shows_current(state: LoopStateView) -> bool {
    let generation = state.tray.table.generation;
    &&& state.tray.model == render(
        state.groups,
        state.delays,
        state.config.delay_green_threshold,
        state.config.delay_yellow_threshold,
        generation,
    )
    &&& state.tray.table == table_of(state.groups, generation)
}

/// True when the event is the selection of Quit from the menu on show, in
/// a state that takes selections.
pub open spec fn selects_quit(state: LoopStateView, event: LoopEventView) -> bool {
    state.stage == StageView::Draining && match event {
        LoopEventView::Polled(Some(id)) => resolve(state.tray.table, id@) == Some(
            TrayEventView::Quit,
        ),
        _ => false,
    }
}

/// The listing that an event brings, if it brings one.
pub open spec fn listing_of(event: LoopEventView) -> Option<Seq<(Seq<char>, ProxyView)>> {
    match event {
        LoopEventView::Fetched(delivery) => match listing_outcome(delivery) {
            Ok(listing) => Some(listing),
            Err(_) => None,
        },
        _ => None,
    }
}

/// The running loop ends in one way only: the user selects Quit from the
/// menu on show, and the exit code is then 0. No report of a backend call,
/// of the clock or of a yield ends it.
pub proof fn lemma_only_quit_ends_the_loop(state: LoopStateView, event: LoopEventView)
    requires
        running(state),
    ensures
        phase_of(step_spec(state, event).0) == Phase::Terminated <==> selects_quit(state, event),
        phase_of(step_spec(state, event).0) == Phase::Terminated ==> step_spec(state, event).0.stage
            == (StageView::Terminated { code: 0 }) && pending_command(step_spec(state, event).0)
            == (CommandView::Exit { code: 0 }),
{
}

/// True in the stages that wait for a listing while the loop runs.
pub open spec fn awaits_listing(stage: StageView) -> bool {
    stage == StageView::RefreshAfterSwitch || stage == StageView::UserRefresh || stage
        == StageView::AutoRefresh
}

/// A listing that fails while the loop runs disconnects the loop and is
/// notified as critical. It does not end the loop, and it leaves the
/// groups, the delays, the menu and its table as they are. The loop goes
/// on: to the next selection, or after an automatic refresh to the yield.
pub proof fn lemma_failed_fetch_is_survived(state: LoopStateView, delivery: ListingDeliveryView)
    requires
        awaits_listing(state.stage),
        listing_outcome(delivery) is Err,
    ensures
        ({
            let error = listing_outcome(delivery)->Err_0;
            let next = step_spec(state, LoopEventView::Fetched(delivery));
            &&& phase_of(next.0) == Phase::Disconnected
            &&& next.1[0] == EffectView::Notify(refresh_failed_note(error))
            &&& refresh_failed_note(error).severity == Severity::Critical
            &&& next.1[1] == (EffectView::IconChanged { connected: false })
            &&& next.0.groups == state.groups
            &&& next.0.delays == state.delays
            &&& next.0.tray.model == state.tray.model
            &&& next.0.tray.table == state.tray.table
            &&& pending_command(next.0) == (if state.stage == StageView::AutoRefresh {
                CommandView::Yield
            } else {
                CommandView::PollAction
            })
        }),
{
}

/// A disconnected loop tries again: once the time since the last reset has
/// reached the refresh interval, the clock report starts an automatic
/// refresh, which asks for a latency test and then, whatever came of the
/// test, for the listing.
pub proof fn lemma_due_timer_starts_a_refresh(
    state: LoopStateView,
    elapsed_secs: u64,
    test: Delivery,
)
    requires
        state.stage == StageView::CheckingTimer,
        elapsed_secs >= state.config.refresh_interval_secs,
    ensures
        ({
            let testing = step_spec(state, LoopEventView::Clock { elapsed_secs }).0;
            let fetching = step_spec(testing, LoopEventView::DelayTested(test)).0;
            &&& pending_command(testing) is DelayTest
            &&& pending_command(fetching) == CommandView::Fetch(listing_request(state.config))
            &&& fetching.stage == StageView::AutoRefresh
        }),
{
}

/// An automatic refresh resets the timer whatever its outcome, and sets the
/// icon by the outcome.
pub proof fn lemma_automatic_refresh_resets_the_timer(
    state: LoopStateView,
    delivery: ListingDeliveryView,
)
    requires
        state.stage == StageView::AutoRefresh,
    ensures
        ({
            let next = step_spec(state, LoopEventView::Fetched(delivery));
            &&& next.1.last() == EffectView::TimerReset
            &&& next.0.tray.connected == (listing_outcome(delivery) is Ok)
            &&& next.0.stage == StageView::Yielding
        }),
{
}

/// After a switch request a refresh follows, whatever the outcome: the
/// next command is the listing request. The outcome is notified first, as
/// information when the backend accepted the switch and as critical when
/// not.
pub proof fn lemma_switch_is_followed_by_refresh(state: LoopStateView, delivery: Delivery)
    requires
        state.stage is Switching,
    ensures
        ({
            let result = delivery_outcome(delivery);
            let next = step_spec(state, LoopEventView::Switched(delivery));
            &&& next.0.stage == StageView::RefreshAfterSwitch
            &&& pending_command(next.0) == CommandView::Fetch(listing_request(state.config))
            &&& next.1.len() == 2
            &&& next.1[0] matches EffectView::Notify(note) && (note.severity == Severity::Info
                <==> result is Ok)
            &&& result is Ok ==> next.1[0] == EffectView::Notify(
                switched_note(state.stage->Switching_group, state.stage->Switching_node),
            )
            &&& next.1[1] == (EffectView::IconChanged { connected: result is Ok })
        }),
{
}

/// The outcome of a latency test makes no difference to the loop.
pub proof fn lemma_delay_test_outcome_is_ignored(
    state: LoopStateView,
    one: Delivery,
    other: Delivery,
)
    ensures
        step_spec(state, LoopEventView::DelayTested(one)) == step_spec(
            state,
            LoopEventView::DelayTested(other),
        ),
        step_spec(state, LoopEventView::DelayTested(one)).1 == Seq::<EffectView>::empty(),
{
}

/// A selection that the table on show does not resolve is passed over: the
/// state stays as it is, nothing is shown, and the loop looks for the next
/// selection.
pub proof fn lemma_unresolved_selection_is_ignored(state: LoopStateView, id: MenuActionId)
    requires
        state.stage == StageView::Draining,
        resolve(state.tray.table, id@) is None,
    ensures
        step_spec(state, LoopEventView::Polled(Some(id))) == (state, Seq::<EffectView>::empty()),
        pending_command(state) == CommandView::PollAction,
{
}

/// A refresh retires the ids of the menu it replaces: an id that the table
/// on show before the refresh issued resolves to nothing afterwards.
pub proof fn lemma_refresh_retires_ids(
    state: LoopStateView,
    listing: Seq<(Seq<char>, ProxyView)>,
    id: MenuActionIdView,
)
    requires
        id.generation == state.tray.table.generation,
    ensures
        refreshed(state, listing).tray.table.generation == next_generation(
            state.tray.table.generation,
        ),
        refreshed(state, listing).tray.table.generation != state.tray.table.generation,
        resolve(refreshed(state, listing).tray.table, id) is None,
{
}

/// A refresh replaces groups, delays, menu and table together: afterwards
/// the menu on show is the projection of the groups and delays held, and
/// the table resolves every entry of the menu to the entry's action.
pub proof fn lemma_refresh_replaces_all_together(
    state: LoopStateView,
    listing: Seq<(Seq<char>, ProxyView)>,
)
    ensures
        shows_current(refreshed(state, listing)),
        bound(refreshed(state, listing).tray.model, refreshed(state, listing).tray.table),
        refreshed(state, listing).groups == reconciled(
            surfaced_groups(listing),
            state.config.proxy_groups,
        ),
        refreshed(state, listing).delays == measured_delays(listing),
{
    let next = refreshed(state, listing);
    lemma_render_is_bound(
        next.groups,
        next.delays,
        state.config.delay_green_threshold,
        state.config.delay_yellow_threshold,
        next.tray.table.generation,
    );
}

/// Once the menu on show is the projection of the state held, every step
/// keeps it so: a step either leaves groups, delays, menu and table as
/// they are or replaces them all by one refresh. The settings never change.
pub proof fn lemma_step_keeps_the_menu_current(state: LoopStateView, event: LoopEventView)
    requires
        shows_current(state),
    ensures
        shows_current(step_spec(state, event).0),
        step_spec(state, event).0.config == state.config,
        ({
            let next = step_spec(state, event).0;
            ||| (next.groups == state.groups && next.delays == state.delays && next.tray.model
                == state.tray.model && next.tray.table == state.tray.table)
            ||| (listing_of(event) is Some && next.groups == refreshed(
                state,
                listing_of(event)->0,
            ).groups && next.delays == refreshed(state, listing_of(event)->0).delays
                && next.tray.model == refreshed(state, listing_of(event)->0).tray.model
                && next.tray.table == refreshed(state, listing_of(event)->0).tray.table)
        }),
{
    match listing_of(event) {
        Some(listing) => {
            lemma_refresh_replaces_all_together(state, listing);
        },
        None => {},
    }
}

/// The loop proper begins with the first listing: from then on the menu on
/// show is the projection of the state held.
pub proof fn lemma_first_listing_starts_the_loop(
    state: LoopStateView,
    delivery: ListingDeliveryView,
)
    requires
        state.stage == StageView::InitialFetch,
        listing_outcome(delivery) is Ok,
    ensures
        ({
            let next = step_spec(state, LoopEventView::Fetched(delivery));
            &&& phase_of(next.0) == Phase::Connected
            &&& shows_current(next.0)
            &&& pending_command(next.0) == CommandView::PollAction
        }),
{
    lemma_refresh_replaces_all_together(state, listing_outcome(delivery)->Ok_0);
}

/// A failure at startup, of the probe or of the first listing, is notified
/// and ends the loop with exit code 1.
pub proof fn lemma_startup_failure_is_fatal(
    state: LoopStateView,
    probe: Delivery,
    listing: ListingDeliveryView,
)
    requires
        phase_of(state) == Phase::Starting,
        delivery_outcome(probe) is Err,
        listing_outcome(listing) is Err,
    ensures
        state.stage == StageView::TestingConnection ==> step_spec(
            state,
            LoopEventView::ConnectionTested(probe),
        ) == (
            at_stage(state, StageView::Terminated { code: 1 }),
            seq![EffectView::Notify(connection_failed_note(delivery_outcome(probe)->Err_0))],
        ),
        state.stage == StageView::InitialFetch ==> step_spec(
            state,
            LoopEventView::Fetched(listing),
        ) == (
            at_stage(state, StageView::Terminated { code: 1 }),
            seq![EffectView::Notify(connection_failed_note(listing_outcome(listing)->Err_0))],
        ),
        connection_failed_note(delivery_outcome(probe)->Err_0).severity == Severity::Critical,
{
}

} // verus!
