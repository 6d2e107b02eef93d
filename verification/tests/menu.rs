use clbar::menu::{
    delay_tier, measurement_tier, node_label, project, ActionTable, DelayTier, MenuActionId,
    MenuEntry, NodeEntry, RenderModel, Submenu,
};
use clbar::models::{ProxyGroup, TrayEvent};
use clbar::ordered::{DelayMap, GroupMap};

fn group(name: &str, now: Option<&str>, all: Option<&[&str]>) -> ProxyGroup {
    ProxyGroup {
        name: name.to_string(),
        group_type: "Selector".to_string(),
        now: now.map(|s| s.to_string()),
        all: all.map(|nodes| nodes.iter().map(|s| s.to_string()).collect()),
    }
}

fn groups(list: Vec<ProxyGroup>) -> GroupMap {
    let mut map = GroupMap::new();
    for g in list {
        map.insert(g.name.clone(), g);
    }
    map
}

fn delays(list: &[(&str, u32)]) -> DelayMap {
    let mut map = DelayMap::new();
    for (name, delay) in list {
        map.insert(name.to_string(), *delay);
    }
    map
}

fn labels(model: &RenderModel) -> Vec<String> {
    let mut out = Vec::new();
    for submenu in &model.submenus {
        for entry in &submenu.entries {
            out.push(entry.label.clone());
        }
    }
    for entry in &model.trailing {
        out.push(entry.label.clone());
    }
    out
}

fn bindings(model: &RenderModel, table: &ActionTable) -> Vec<(String, Option<TrayEvent>)> {
    let mut out = Vec::new();
    for submenu in &model.submenus {
        for entry in &submenu.entries {
            out.push((entry.label.clone(), table.decode(entry.id)));
        }
    }
    for entry in &model.trailing {
        out.push((entry.label.clone(), table.decode(entry.id)));
    }
    out
}

fn switch(group: &str, node: &str) -> TrayEvent {
    TrayEvent::SwitchNode { group: group.to_string(), node: node.to_string() }
}

fn id(generation: u64, slot: usize) -> MenuActionId {
    MenuActionId { generation, slot }
}

#[test]
fn tier_boundaries_at_the_thresholds() {
    assert_eq!(delay_tier(0, 150, 400), DelayTier::Green);
    assert_eq!(delay_tier(149, 150, 400), DelayTier::Green);
    assert_eq!(delay_tier(150, 150, 400), DelayTier::Yellow);
    assert_eq!(delay_tier(399, 150, 400), DelayTier::Yellow);
    assert_eq!(delay_tier(400, 150, 400), DelayTier::Red);
    assert_eq!(delay_tier(u32::MAX, 150, 400), DelayTier::Red);
}

#[test]
fn tier_boundaries_for_many_threshold_pairs() {
    let pairs = [(1u32, 2u32), (0, 1), (100, 101), (150, 400), (0, u32::MAX), (u32::MAX - 1, u32::MAX)];
    for (green, yellow) in pairs {
        for d in [0u32, 1, 99, 100, 101, 149, 150, 399, 400, u32::MAX - 1, u32::MAX] {
            let expected = if d < green {
                DelayTier::Green
            } else if d < yellow {
                DelayTier::Yellow
            } else {
                DelayTier::Red
            };
            assert_eq!(delay_tier(d, green, yellow), expected);
            assert_eq!(measurement_tier(Some(d), green, yellow), Some(expected));
        }
        assert_eq!(measurement_tier(None, green, yellow), None);
    }
}

#[test]
fn thresholds_that_are_not_ascending_are_applied_in_turn() {
    assert_eq!(delay_tier(100, 400, 150), DelayTier::Green);
    assert_eq!(delay_tier(400, 400, 150), DelayTier::Red);
    assert_eq!(delay_tier(5, 0, 0), DelayTier::Red);
    assert_eq!(delay_tier(5, 10, 10), DelayTier::Green);
    assert_eq!(delay_tier(10, 10, 10), DelayTier::Red);
}

#[test]
fn each_tier_has_its_mark() {
    assert_eq!(DelayTier::Green.glyph(), "🟢");
    assert_eq!(DelayTier::Yellow.glyph(), "🟡");
    assert_eq!(DelayTier::Red.glyph(), "🔴");
}

#[test]
fn the_four_forms_of_a_label() {
    assert_eq!(node_label("A", true, Some(80), 150, 400), "✓ A 🟢 80ms");
    assert_eq!(node_label("B", false, Some(200), 150, 400), "B 🟡 200ms");
    assert_eq!(node_label("C", true, None, 150, 400), "✓ C");
    assert_eq!(node_label("D", false, None, 150, 400), "D");
    assert_eq!(node_label("E", false, Some(400), 150, 400), "E 🔴 400ms");
    assert_eq!(node_label("F", false, Some(0), 150, 400), "F 🟢 0ms");
    assert_eq!(node_label("", false, None, 150, 400), "");
}

#[test]
fn one_selector_with_two_measured_nodes() {
    let groups = groups(vec![group("PROXY", Some("A"), Some(&["A", "B"]))]);
    let delays = delays(&[("A", 80), ("B", 200)]);
    let (model, table) = project(&groups, &delays, 150, 400, 7);
    assert_eq!(labels(&model), vec!["✓ A 🟢 80ms", "B 🟡 200ms", "Refresh", "Quit"]);
    assert_eq!(
        model,
        RenderModel {
            submenus: vec![Submenu {
                title: "PROXY".to_string(),
                entries: vec![
                    NodeEntry {
                        node: "A".to_string(),
                        selected: true,
                        delay: Some(80),
                        tier: Some(DelayTier::Green),
                        label: "✓ A 🟢 80ms".to_string(),
                        id: id(7, 0),
                    },
                    NodeEntry {
                        node: "B".to_string(),
                        selected: false,
                        delay: Some(200),
                        tier: Some(DelayTier::Yellow),
                        label: "B 🟡 200ms".to_string(),
                        id: id(7, 1),
                    },
                ],
            }],
            trailing: vec![
                MenuEntry { label: "Refresh".to_string(), id: id(7, 2) },
                MenuEntry { label: "Quit".to_string(), id: id(7, 3) },
            ],
        }
    );
    assert_eq!(table.generation(), 7);
    assert_eq!(table.len(), 4);
    assert_eq!(table.decode(id(7, 0)), Some(switch("PROXY", "A")));
    assert_eq!(table.decode(id(7, 1)), Some(switch("PROXY", "B")));
    assert_eq!(table.decode(id(7, 2)), Some(TrayEvent::Refresh));
    assert_eq!(table.decode(id(7, 3)), Some(TrayEvent::Quit));
}

#[test]
fn groups_and_members_keep_their_order() {
    let groups = groups(vec![
        group("ZETA", Some("n2"), Some(&["n3", "n2", "n1"])),
        group("ALPHA", Some("n1"), Some(&["n1", "n3"])),
    ]);
    let delays = delays(&[("n1", 10), ("n3", 1000)]);
    let (model, table) = project(&groups, &delays, 150, 400, 0);
    let titles: Vec<&str> = model.submenus.iter().map(|s| s.title.as_str()).collect();
    assert_eq!(titles, vec!["ZETA", "ALPHA"]);
    assert_eq!(
        bindings(&model, &table),
        vec![
            ("n3 🔴 1000ms".to_string(), Some(switch("ZETA", "n3"))),
            ("✓ n2".to_string(), Some(switch("ZETA", "n2"))),
            ("n1 🟢 10ms".to_string(), Some(switch("ZETA", "n1"))),
            ("✓ n1 🟢 10ms".to_string(), Some(switch("ALPHA", "n1"))),
            ("n3 🔴 1000ms".to_string(), Some(switch("ALPHA", "n3"))),
            ("Refresh".to_string(), Some(TrayEvent::Refresh)),
            ("Quit".to_string(), Some(TrayEvent::Quit)),
        ]
    );
}

#[test]
fn a_group_without_members_adds_no_submenu_and_no_ids() {
    let with = groups(vec![
        group("EMPTY", Some("A"), Some(&[])),
        group("PROXY", Some("A"), Some(&["A", "B"])),
        group("ABSENT", None, None),
    ]);
    let without = groups(vec![group("PROXY", Some("A"), Some(&["A", "B"]))]);
    let delays = delays(&[("A", 80)]);
    let (model, table) = project(&with, &delays, 150, 400, 3);
    let (expected_model, expected_table) = project(&without, &delays, 150, 400, 3);
    assert_eq!(model, expected_model);
    assert_eq!(table, expected_table);
    assert_eq!(model.submenus.len(), 1);
    assert_eq!(model.submenus[0].title, "PROXY");
    assert_eq!(table.len(), 4);
}

#[test]
fn no_groups_leave_refresh_and_quit() {
    let (model, table) = project(&GroupMap::new(), &DelayMap::new(), 150, 400, 1);
    assert!(model.submenus.is_empty());
    assert_eq!(
        bindings(&model, &table),
        vec![
            ("Refresh".to_string(), Some(TrayEvent::Refresh)),
            ("Quit".to_string(), Some(TrayEvent::Quit)),
        ]
    );
    assert_eq!(model.trailing[0].id, id(1, 0));
    assert_eq!(model.trailing[1].id, id(1, 1));
}

#[test]
fn a_node_is_selected_only_in_the_group_that_has_it_active() {
    let groups = groups(vec![
        group("ONE", Some("A"), Some(&["A", "B"])),
        group("TWO", Some("B"), Some(&["A", "B"])),
        group("THREE", None, Some(&["A", "B"])),
        group("FOUR", Some("C"), Some(&["A", "B"])),
    ]);
    let (model, _) = project(&groups, &DelayMap::new(), 150, 400, 0);
    let selected: Vec<Vec<bool>> = model
        .submenus
        .iter()
        .map(|s| s.entries.iter().map(|e| e.selected).collect())
        .collect();
    assert_eq!(
        selected,
        vec![vec![true, false], vec![false, true], vec![false, false], vec![false, false]]
    );
}

#[test]
fn projecting_twice_gives_the_same_labels_and_bindings() {
    let groups = groups(vec![
        group("PROXY", Some("A"), Some(&["A", "B", "C"])),
        group("AUTO", Some("C"), Some(&["C"])),
    ]);
    let delays = delays(&[("A", 80), ("B", 200), ("C", 4000)]);
    let (first_model, first_table) = project(&groups, &delays, 150, 400, 1);
    let (again_model, again_table) = project(&groups, &delays, 150, 400, 1);
    assert_eq!(first_model, again_model);
    assert_eq!(first_table, again_table);
    let (later_model, later_table) = project(&groups, &delays, 150, 400, 2);
    assert_ne!(first_model, later_model);
    assert_eq!(labels(&first_model), labels(&later_model));
    assert_eq!(bindings(&first_model, &first_table), bindings(&later_model, &later_table));
}

#[test]
fn an_id_of_another_render_does_not_resolve() {
    let groups = groups(vec![group("PROXY", Some("A"), Some(&["A", "B"]))]);
    let (_, older) = project(&groups, &DelayMap::new(), 150, 400, 1);
    let (newer_model, newer) = project(&groups, &DelayMap::new(), 150, 400, 2);
    let switch_id = newer_model.submenus[0].entries[1].id;
    assert_eq!(newer.decode(switch_id), Some(switch("PROXY", "B")));
    assert_eq!(older.decode(switch_id), None);
    for entry in &newer_model.trailing {
        assert_eq!(older.decode(entry.id), None);
    }
}

#[test]
fn a_slot_beyond_the_table_does_not_resolve() {
    let groups = groups(vec![group("PROXY", Some("A"), Some(&["A", "B"]))]);
    let (_, table) = project(&groups, &DelayMap::new(), 150, 400, 5);
    assert_eq!(table.decode(id(5, 3)), Some(TrayEvent::Quit));
    assert_eq!(table.decode(id(5, 4)), None);
    assert_eq!(table.decode(id(5, usize::MAX)), None);
}

#[test]
fn an_empty_table_resolves_nothing() {
    let table = ActionTable::empty(9);
    assert_eq!(table.generation(), 9);
    assert_eq!(table.len(), 0);
    assert_eq!(table.decode(id(9, 0)), None);
}

#[test]
fn a_delay_is_shown_for_a_node_wherever_it_appears() {
    let groups = groups(vec![
        group("ONE", None, Some(&["A"])),
        group("TWO", None, Some(&["A", "X"])),
    ]);
    let (model, _) = project(&groups, &delays(&[("A", 151), ("UNUSED", 1)]), 150, 400, 0);
    assert_eq!(labels(&model), vec!["A 🟡 151ms", "A 🟡 151ms", "X", "Refresh", "Quit"]);
    assert_eq!(model.submenus[1].entries[1].delay, None);
    assert_eq!(model.submenus[1].entries[1].tier, None);
}

#[test]
fn the_submenu_is_titled_by_the_key_of_the_group() {
    let mut map = GroupMap::new();
    map.insert("key".to_string(), group("name", Some("A"), Some(&["A"])));
    let (model, table) = project(&map, &DelayMap::new(), 150, 400, 0);
    assert_eq!(model.submenus[0].title, "key");
    assert_eq!(table.decode(model.submenus[0].entries[0].id), Some(switch("key", "A")));
}

#[test]
fn a_key_is_generation_colon_slot() {
    assert_eq!(id(0, 0).to_key(), "0:0");
    assert_eq!(id(7, 12).to_key(), "7:12");
    assert_eq!(id(u64::MAX, 3).to_key(), "18446744073709551615:3");
}

#[test]
fn reading_a_key_undoes_writing_it() {
    for candidate in [id(0, 0), id(1, 0), id(0, 1), id(7, 12), id(u64::MAX, usize::MAX), id(10, 100)] {
        assert_eq!(MenuActionId::from_key(&candidate.to_key()), Some(candidate));
    }
    assert_eq!(MenuActionId::from_key("7:12"), Some(id(7, 12)));
}

#[test]
fn a_text_that_is_no_key_reads_as_nothing() {
    for text in [
        "", ":", "7", "7:", ":7", "7:12:1", "07:1", "7:01", "7 :1", "7: 1", "a:1", "1:b", "-1:1",
        "18446744073709551616:0", "0:18446744073709551616", "refresh", "quit", "node::PROXY::A",
    ] {
        assert_eq!(MenuActionId::from_key(text), None);
    }
}

#[test]
fn the_keys_of_a_menu_lead_back_to_its_actions() {
    let groups = groups(vec![group("PROXY", Some("A"), Some(&["A", "B"]))]);
    let (model, table) = project(&groups, &DelayMap::new(), 150, 400, 42);
    let key = model.submenus[0].entries[1].id.to_key();
    assert_eq!(key, "42:1");
    let selected = MenuActionId::from_key(&key).unwrap();
    assert_eq!(table.decode(selected), Some(switch("PROXY", "B")));
    let (_, next) = project(&groups, &DelayMap::new(), 150, 400, 43);
    assert_eq!(next.decode(selected), None);
}
