use clbar::clash_api::{BackendError, BackendRequest, Delivery, HttpMethod, ListingDelivery};
use clbar::config::Config;
use clbar::event_loop::{
    step, Command, Effect, LoopEvent, LoopState, Notification, Phase, Severity, Stage,
    StepOutcome, IDLE_SLEEP_MILLIS,
};
use clbar::menu::MenuActionId;
use clbar::models::{DelayHistory, ProxiesResponse, Proxy, SwitchRequest};

fn config() -> Config {
    Config::default()
}

fn listing_request() -> BackendRequest {
    BackendRequest {
        method: HttpMethod::Get,
        url: "http://127.0.0.1:9090/proxies".to_string(),
        authorization: None,
        body: None,
    }
}

fn delay_test_request() -> BackendRequest {
    BackendRequest {
        method: HttpMethod::Get,
        url: "http://127.0.0.1:9090/group/all/delay?url=https://www.gstatic.com/generate_204&timeout=5000"
            .to_string(),
        authorization: None,
        body: None,
    }
}

fn proxy(name: &str, kind: &str, now: Option<&str>, all: Option<&[&str]>, delay: Option<u32>) -> (String, Proxy) {
    (
        name.to_string(),
        Proxy {
            name: name.to_string(),
            proxy_type: kind.to_string(),
            history: delay.map(|d| vec![DelayHistory { time: "t".to_string(), delay: d }]),
            alive: None,
            now: now.map(|s| s.to_string()),
            all: all.map(|nodes| nodes.iter().map(|s| s.to_string()).collect()),
            udp: None,
        },
    )
}

fn listing(active: &str) -> ProxiesResponse {
    ProxiesResponse {
        proxies: vec![
            proxy("GLOBAL", "Selector", Some("PROXY"), Some(&["PROXY", "A", "B"]), None),
            proxy("PROXY", "Selector", Some(active), Some(&["A", "B"]), None),
            proxy("A", "Shadowsocks", None, None, Some(80)),
            proxy("B", "Vmess", None, None, Some(200)),
        ],
    }
}

fn answered(status: u16) -> Delivery {
    Delivery::Answered { status }
}

fn listed(active: &str) -> ListingDelivery {
    ListingDelivery::Answered { status: 200, listing: Some(listing(active)) }
}

fn refused(status: u16) -> ListingDelivery {
    ListingDelivery::Answered { status, listing: None }
}

fn undecodable() -> ListingDelivery {
    ListingDelivery::Answered { status: 200, listing: None }
}

fn labels(state: &LoopState) -> Vec<String> {
    let mut out = Vec::new();
    for submenu in &state.tray().model().submenus {
        for entry in &submenu.entries {
            out.push(entry.label.clone());
        }
    }
    for entry in &state.tray().model().trailing {
        out.push(entry.label.clone());
    }
    out
}

fn running() -> LoopState {
    let (state, _) = LoopState::start(config());
    let out = step(state, LoopEvent::ConnectionTested(answered(200)));
    let out = step(out.state, LoopEvent::Fetched(listed("A")));
    assert_eq!(out.command, Command::PollAction);
    out.state
}

fn entry_id(state: &LoopState, label: &str) -> MenuActionId {
    for submenu in &state.tray().model().submenus {
        for entry in &submenu.entries {
            if entry.label == label {
                return entry.id;
            }
        }
    }
    for entry in &state.tray().model().trailing {
        if entry.label == label {
            return entry.id;
        }
    }
    panic!("no entry labelled {}", label);
}

fn select(state: LoopState, label: &str) -> StepOutcome {
    let id = entry_id(&state, label);
    step(state, LoopEvent::Polled(Some(id)))
}

fn note(summary: &str, body: &str, severity: Severity) -> Effect {
    Effect::Notify(Notification {
        summary: summary.to_string(),
        body: body.to_string(),
        severity,
    })
}

#[test]
fn the_loop_starts_with_the_connection_probe() {
    let (state, command) = LoopState::start(config());
    assert_eq!(command, Command::TestConnection(listing_request()));
    assert_eq!(state.phase(), Phase::Starting);
    assert_eq!(*state.stage(), Stage::TestingConnection);
    assert!(state.groups().is_empty());
    assert!(state.delays().is_empty());
    assert!(labels(&state).is_empty());
    assert_eq!(state.pending_command(), command);
    assert_eq!(*state.config(), config());
}

#[test]
fn a_failed_probe_is_notified_and_ends_the_loop_with_a_nonzero_code() {
    let (state, _) = LoopState::start(config());
    let out = step(state, LoopEvent::ConnectionTested(Delivery::NoAnswer));
    assert_eq!(out.state.phase(), Phase::Terminated);
    assert_eq!(out.command, Command::Exit { code: 1 });
    assert_eq!(
        out.effects,
        vec![note(
            "Connection Failed",
            "Cannot connect to Clash API: backend unreachable",
            Severity::Critical
        )]
    );
}

#[test]
fn a_failed_first_listing_is_notified_and_ends_the_loop_with_a_nonzero_code() {
    let (state, _) = LoopState::start(config());
    let out = step(state, LoopEvent::ConnectionTested(answered(200)));
    assert_eq!(out.command, Command::Fetch(listing_request()));
    assert!(out.effects.is_empty());
    assert_eq!(out.state.phase(), Phase::Starting);
    let out = step(out.state, LoopEvent::Fetched(undecodable()));
    assert_eq!(out.state.phase(), Phase::Terminated);
    assert_eq!(out.command, Command::Exit { code: 1 });
    assert_eq!(
        out.effects,
        vec![note(
            "Connection Failed",
            "Cannot connect to Clash API: malformed backend response",
            Severity::Critical
        )]
    );
}

#[test]
fn the_first_listing_is_shown_and_connects() {
    let (state, _) = LoopState::start(config());
    let out = step(state, LoopEvent::ConnectionTested(answered(200)));
    let out = step(out.state, LoopEvent::Fetched(listed("A")));
    assert_eq!(
        out.effects,
        vec![Effect::MenuChanged, Effect::IconChanged { connected: true }, Effect::TimerReset]
    );
    assert_eq!(out.command, Command::PollAction);
    assert_eq!(out.state.phase(), Phase::Connected);
    assert_eq!(labels(&out.state), vec!["✓ A 🟢 80ms", "B 🟡 200ms", "Refresh", "Quit"]);
    let shown: Vec<&str> = out.state.groups().keys().map(|k| k.as_str()).collect();
    assert_eq!(shown, vec!["PROXY"]);
    let measured: Vec<(&str, u32)> =
        out.state.delays().iter().map(|(k, v)| (k.as_str(), *v)).collect();
    assert_eq!(measured, vec![("A", 80), ("B", 200)]);
}

#[test]
fn an_empty_allow_list_shows_every_group() {
    let mut all = config();
    all.proxy_groups = vec![];
    let (state, _) = LoopState::start(all);
    let out = step(state, LoopEvent::ConnectionTested(answered(200)));
    let out = step(out.state, LoopEvent::Fetched(listed("A")));
    let titles: Vec<&str> =
        out.state.tray().model().submenus.iter().map(|s| s.title.as_str()).collect();
    assert_eq!(titles, vec!["GLOBAL", "PROXY"]);
}

#[test]
fn a_failed_fetch_mid_loop_disconnects_notifies_and_goes_on() {
    let out = select(running(), "Refresh");
    assert_eq!(out.command, Command::DelayTest(delay_test_request()));
    let out = step(out.state, LoopEvent::DelayTested(answered(204)));
    assert_eq!(out.command, Command::Fetch(listing_request()));
    let before = labels(&out.state);
    let out = step(out.state, LoopEvent::Fetched(refused(500)));
    assert_eq!(out.state.phase(), Phase::Disconnected);
    assert_eq!(
        out.effects,
        vec![
            note("Refresh Failed", "Error: backend returned status 500", Severity::Critical),
            Effect::IconChanged { connected: false },
        ]
    );
    assert_eq!(out.command, Command::PollAction);
    assert_eq!(labels(&out.state), before);

    let out = step(out.state, LoopEvent::Polled(None));
    assert_eq!(out.command, Command::ReadClock);
    let out = step(out.state, LoopEvent::Clock { elapsed_secs: 29 });
    assert_eq!(out.command, Command::Yield);
    let out = step(out.state, LoopEvent::Yielded);
    let out = step(out.state, LoopEvent::Polled(None));
    let out = step(out.state, LoopEvent::Clock { elapsed_secs: 30 });
    assert_eq!(out.command, Command::DelayTest(delay_test_request()));
    let out = step(out.state, LoopEvent::DelayTested(Delivery::NoAnswer));
    assert_eq!(out.command, Command::Fetch(listing_request()));
    assert_eq!(out.state.phase(), Phase::Disconnected);
    let out = step(out.state, LoopEvent::Fetched(listed("B")));
    assert_eq!(out.state.phase(), Phase::Connected);
    assert_eq!(labels(&out.state), vec!["A 🟢 80ms", "✓ B 🟡 200ms", "Refresh", "Quit"]);
}

#[test]
fn a_switch_is_notified_and_followed_by_a_refresh() {
    let out = select(running(), "B 🟡 200ms");
    assert_eq!(
        out.command,
        Command::Switch(BackendRequest {
            method: HttpMethod::Put,
            url: "http://127.0.0.1:9090/proxies/PROXY".to_string(),
            authorization: None,
            body: Some(SwitchRequest { name: "B".to_string() }),
        })
    );
    assert_eq!(
        *out.state.stage(),
        Stage::Switching { group: "PROXY".to_string(), node: "B".to_string() }
    );
    assert!(out.effects.is_empty());
    let out = step(out.state, LoopEvent::Switched(answered(204)));
    assert_eq!(
        out.effects,
        vec![
            note("Node Switched", "Switched PROXY to B", Severity::Info),
            Effect::IconChanged { connected: true },
        ]
    );
    assert_eq!(out.command, Command::Fetch(listing_request()));
    let out = step(out.state, LoopEvent::Fetched(listed("B")));
    assert_eq!(out.effects, vec![Effect::MenuChanged]);
    assert_eq!(out.command, Command::PollAction);
    assert_eq!(labels(&out.state), vec!["A 🟢 80ms", "✓ B 🟡 200ms", "Refresh", "Quit"]);
}

#[test]
fn a_failed_switch_is_notified_and_followed_by_a_refresh_too() {
    let out = select(running(), "B 🟡 200ms");
    let out = step(out.state, LoopEvent::Switched(answered(400)));
    assert_eq!(
        out.effects,
        vec![
            note(
                "Switch Failed",
                "Failed to switch PROXY: backend returned status 400",
                Severity::Critical
            ),
            Effect::IconChanged { connected: false },
        ]
    );
    assert_eq!(out.state.phase(), Phase::Disconnected);
    assert_eq!(out.command, Command::Fetch(listing_request()));
    let out = step(out.state, LoopEvent::Fetched(listed("A")));
    assert_eq!(out.effects, vec![Effect::MenuChanged]);
    assert_eq!(out.command, Command::PollAction);
}

#[test]
fn a_failed_refresh_after_a_switch_is_notified_and_keeps_the_menu() {
    let state = running();
    let before = labels(&state);
    let generation = state.tray().table().generation();
    let out = select(state, "B 🟡 200ms");
    let out = step(out.state, LoopEvent::Switched(answered(204)));
    let out = step(out.state, LoopEvent::Fetched(ListingDelivery::NoAnswer));
    assert_eq!(
        out.effects,
        vec![
            note("Refresh Failed", "Error: backend unreachable", Severity::Critical),
            Effect::IconChanged { connected: false },
        ]
    );
    assert_eq!(out.state.phase(), Phase::Disconnected);
    assert_eq!(out.command, Command::PollAction);
    assert_eq!(labels(&out.state), before);
    assert_eq!(out.state.tray().table().generation(), generation);
}

#[test]
fn a_refresh_the_user_asked_for_is_notified() {
    let out = select(running(), "Refresh");
    assert!(out.effects.is_empty());
    let out = step(out.state, LoopEvent::DelayTested(answered(404)));
    assert!(out.effects.is_empty());
    assert_eq!(out.command, Command::Fetch(listing_request()));
    let out = step(out.state, LoopEvent::Fetched(listed("B")));
    assert_eq!(
        out.effects,
        vec![
            Effect::MenuChanged,
            Effect::IconChanged { connected: true },
            note("Refreshed", "Proxy groups updated successfully", Severity::Info),
        ]
    );
    assert_eq!(out.command, Command::PollAction);
    assert_eq!(out.state.phase(), Phase::Connected);
}

#[test]
fn quit_ends_the_loop_with_code_zero() {
    let out = select(running(), "Quit");
    assert_eq!(out.state.phase(), Phase::Terminated);
    assert_eq!(out.command, Command::Exit { code: 0 });
    assert!(out.effects.is_empty());
    let out = step(out.state, LoopEvent::Polled(None));
    assert_eq!(out.command, Command::Exit { code: 0 });
    assert_eq!(out.state.phase(), Phase::Terminated);
}

#[test]
fn a_stale_selection_is_ignored() {
    let state = running();
    let stale = entry_id(&state, "Quit");
    let out = select(state, "Refresh");
    let out = step(out.state, LoopEvent::DelayTested(answered(204)));
    let out = step(out.state, LoopEvent::Fetched(listed("A")));
    let shown = labels(&out.state);
    let out = step(out.state, LoopEvent::Polled(Some(stale)));
    assert_eq!(out.command, Command::PollAction);
    assert!(out.effects.is_empty());
    assert_eq!(*out.state.stage(), Stage::Draining);
    assert_eq!(out.state.phase(), Phase::Connected);
    assert_eq!(labels(&out.state), shown);
    let fresh = entry_id(&out.state, "Quit");
    assert_ne!(fresh, stale);
    let out = step(out.state, LoopEvent::Polled(Some(fresh)));
    assert_eq!(out.command, Command::Exit { code: 0 });
}

#[test]
fn an_unknown_selection_is_ignored() {
    let state = running();
    let generation = state.tray().table().generation();
    let out = step(state, LoopEvent::Polled(Some(MenuActionId { generation, slot: 99 })));
    assert_eq!(out.command, Command::PollAction);
    assert!(out.effects.is_empty());
    let out =
        step(out.state, LoopEvent::Polled(Some(MenuActionId { generation: generation + 1, slot: 0 })));
    assert_eq!(out.command, Command::PollAction);
    assert!(out.effects.is_empty());
}

#[test]
fn the_timer_starts_a_refresh_when_the_interval_has_passed() {
    let out = step(running(), LoopEvent::Polled(None));
    assert_eq!(out.command, Command::ReadClock);
    let out = step(out.state, LoopEvent::Clock { elapsed_secs: 30 });
    assert_eq!(out.command, Command::DelayTest(delay_test_request()));
    let out = step(out.state, LoopEvent::DelayTested(answered(204)));
    assert_eq!(out.command, Command::Fetch(listing_request()));
    let out = step(out.state, LoopEvent::Fetched(listed("B")));
    assert_eq!(
        out.effects,
        vec![Effect::MenuChanged, Effect::IconChanged { connected: true }, Effect::TimerReset]
    );
    assert_eq!(out.command, Command::Yield);
    let out = step(out.state, LoopEvent::Yielded);
    assert_eq!(out.command, Command::PollAction);
}

#[test]
fn the_timer_waits_while_the_interval_has_not_passed() {
    let out = step(running(), LoopEvent::Polled(None));
    let out = step(out.state, LoopEvent::Clock { elapsed_secs: 29 });
    assert_eq!(out.command, Command::Yield);
    assert!(out.effects.is_empty());
    let out = step(out.state, LoopEvent::Yielded);
    assert_eq!(out.command, Command::PollAction);
    let out = step(out.state, LoopEvent::Polled(None));
    let out = step(out.state, LoopEvent::Clock { elapsed_secs: 0 });
    assert_eq!(out.command, Command::Yield);
}

#[test]
fn an_interval_of_zero_is_always_due() {
    let mut eager = config();
    eager.refresh_interval_secs = 0;
    let (state, _) = LoopState::start(eager);
    let out = step(state, LoopEvent::ConnectionTested(answered(200)));
    let out = step(out.state, LoopEvent::Fetched(listed("A")));
    let out = step(out.state, LoopEvent::Polled(None));
    let out = step(out.state, LoopEvent::Clock { elapsed_secs: 0 });
    assert!(matches!(out.command, Command::DelayTest(_)));
}

#[test]
fn a_failed_automatic_refresh_disconnects_and_resets_the_timer() {
    let out = step(running(), LoopEvent::Polled(None));
    let out = step(out.state, LoopEvent::Clock { elapsed_secs: 31 });
    let out = step(out.state, LoopEvent::DelayTested(answered(204)));
    let out = step(out.state, LoopEvent::Fetched(ListingDelivery::NoAnswer));
    assert_eq!(
        out.effects,
        vec![
            note("Refresh Failed", "Error: backend unreachable", Severity::Critical),
            Effect::IconChanged { connected: false },
            Effect::TimerReset,
        ]
    );
    assert_eq!(out.state.phase(), Phase::Disconnected);
    assert_eq!(out.command, Command::Yield);
}

#[test]
fn an_event_that_the_stage_does_not_wait_for_changes_nothing() {
    let state = running();
    let before = labels(&state);
    let out = step(state, LoopEvent::Fetched(listed("B")));
    assert_eq!(out.command, Command::PollAction);
    assert!(out.effects.is_empty());
    assert_eq!(labels(&out.state), before);
    let out = step(out.state, LoopEvent::Switched(Delivery::NoAnswer));
    assert_eq!(out.command, Command::PollAction);
    assert!(out.effects.is_empty());
    assert_eq!(out.state.phase(), Phase::Connected);
    let out = step(out.state, LoopEvent::ConnectionTested(Delivery::NoAnswer));
    assert_eq!(out.command, Command::PollAction);
    let out = step(out.state, LoopEvent::Clock { elapsed_secs: 1000 });
    assert_eq!(out.command, Command::PollAction);
    let out = step(out.state, LoopEvent::Yielded);
    assert_eq!(out.command, Command::PollAction);
    let out = step(out.state, LoopEvent::DelayTested(answered(204)));
    assert_eq!(out.command, Command::PollAction);
    assert!(out.effects.is_empty());
}

#[test]
fn requests_carry_the_secret_of_the_settings() {
    let mut secured = config();
    secured.clash_api_url = "http://router:9090".to_string();
    secured.clash_secret = "hunter2".to_string();
    let (_, command) = LoopState::start(secured);
    assert_eq!(
        command,
        Command::TestConnection(BackendRequest {
            method: HttpMethod::Get,
            url: "http://router:9090/proxies".to_string(),
            authorization: Some("Bearer hunter2".to_string()),
            body: None,
        })
    );
}

#[test]
fn each_severity_has_its_timeout() {
    assert_eq!(Severity::Info.timeout_millis(), 3000);
    assert_eq!(Severity::Critical.timeout_millis(), 5000);
}

#[test]
fn each_notification_has_its_words() {
    assert_eq!(
        Notification::connection_failed(BackendError::Status { status: 401 }),
        Notification {
            summary: "Connection Failed".to_string(),
            body: "Cannot connect to Clash API: backend returned status 401".to_string(),
            severity: Severity::Critical,
        }
    );
    assert_eq!(
        Notification::switched("PROXY", "B"),
        Notification {
            summary: "Node Switched".to_string(),
            body: "Switched PROXY to B".to_string(),
            severity: Severity::Info,
        }
    );
    assert_eq!(
        Notification::switch_failed("PROXY", BackendError::Malformed),
        Notification {
            summary: "Switch Failed".to_string(),
            body: "Failed to switch PROXY: malformed backend response".to_string(),
            severity: Severity::Critical,
        }
    );
    assert_eq!(
        Notification::refreshed(),
        Notification {
            summary: "Refreshed".to_string(),
            body: "Proxy groups updated successfully".to_string(),
            severity: Severity::Info,
        }
    );
    assert_eq!(
        Notification::refresh_failed(BackendError::Unreachable),
        Notification {
            summary: "Refresh Failed".to_string(),
            body: "Error: backend unreachable".to_string(),
            severity: Severity::Critical,
        }
    );
}

#[test]
fn a_listing_with_a_failure_status_is_not_read() {
    let out = select(running(), "Refresh");
    let out = step(out.state, LoopEvent::DelayTested(answered(204)));
    let before = labels(&out.state);
    let ignored = ListingDelivery::Answered { status: 503, listing: Some(listing("B")) };
    let out = step(out.state, LoopEvent::Fetched(ignored));
    assert_eq!(
        out.effects,
        vec![
            note("Refresh Failed", "Error: backend returned status 503", Severity::Critical),
            Effect::IconChanged { connected: false },
        ]
    );
    assert_eq!(labels(&out.state), before);
}

#[test]
fn a_listing_of_another_shape_is_malformed() {
    let out = select(running(), "Refresh");
    let out = step(out.state, LoopEvent::DelayTested(answered(204)));
    let out = step(out.state, LoopEvent::Fetched(undecodable()));
    assert_eq!(
        out.effects,
        vec![
            note("Refresh Failed", "Error: malformed backend response", Severity::Critical),
            Effect::IconChanged { connected: false },
        ]
    );
    assert_eq!(out.state.phase(), Phase::Disconnected);
}

#[test]
fn a_probe_with_a_failure_status_ends_the_startup() {
    let (state, _) = LoopState::start(config());
    let out = step(state, LoopEvent::ConnectionTested(answered(401)));
    assert_eq!(out.command, Command::Exit { code: 1 });
    assert_eq!(
        out.effects,
        vec![note(
            "Connection Failed",
            "Cannot connect to Clash API: backend returned status 401",
            Severity::Critical
        )]
    );
}

#[test]
fn the_loop_sleeps_a_tenth_of_a_second_when_it_yields() {
    assert_eq!(IDLE_SLEEP_MILLIS, 100);
}
