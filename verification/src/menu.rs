//! The menu as a value: which submenus and entries the tray shows, what each
//! entry is labelled, and which action each entry stands for.

use crate::models::{ProxyGroupView, TrayEvent, TrayEventView};
use crate::ordered::{
    delay_entries, delays_get, group_entries, groups_get_index, groups_len, lookup, DelayMap,
    GroupMap,
};
use crate::text::{
    decimal, lemma_decimal_is_injective, lemma_decimal_reads_back, parse_decimal, push_decimal,
    str_eq,
};
use vstd::prelude::*;

verus! {

/// How fast a node answered its latest latency test.
#[derive(Clone, Copy, Debug, PartialEq, Eq, Structural)]
pub enum DelayTier {
    Green,
    Yellow,
    Red,
}

/// The tier of a measured delay: green below `green`, else yellow below
/// `yellow`, else red.
pub open spec fn tier_of(delay: u32, green: u32, yellow: u32) -> DelayTier {
    if delay < green {
        DelayTier::Green
    } else if delay < yellow {
        DelayTier::Yellow
    } else {
        DelayTier::Red
    }
}

/// The tier of a delay that may not have been measured.
pub open spec fn tier_of_measurement(delay: Option<u32>, green: u32, yellow: u32) -> Option<
    DelayTier,
> {
    match delay {
        Some(d) => Some(tier_of(d, green, yellow)),
        None => None,
    }
}

/// The mark that a label shows for a tier.
pub open spec fn tier_glyph(tier: DelayTier) -> Seq<char> {
    match tier {
        DelayTier::Green => "🟢"@,
        DelayTier::Yellow => "🟡"@,
        DelayTier::Red => "🔴"@,
    }
}

/// The label of a node entry: a check mark in front of the selected node,
/// the node's name, and behind a measured node its tier mark and its delay in
/// milliseconds.
pub open spec fn label_text(
    node: Seq<char>,
    selected: bool,
    delay: Option<u32>,
    green: u32,
    yellow: u32,
) -> Seq<char> {
    let head = if selected {
        "✓ "@ + node
    } else {
        node
    };
    match delay {
        Some(d) => head + " "@ + tier_glyph(tier_of(d, green, yellow)) + " "@ + decimal(d as nat)
            + "ms"@,
        None => head,
    }
}

/// Classifies a measured delay.
pub fn delay_tier(delay: u32, green: u32, yellow: u32) -> (tier: DelayTier)
    ensures
        tier == tier_of(delay, green, yellow),
{
    if delay < green {
        DelayTier::Green
    } else if delay < yellow {
        DelayTier::Yellow
    } else {
        DelayTier::Red
    }
}

/// Classifies a delay that may not have been measured: an unmeasured node
/// has no tier.
pub fn measurement_tier(delay: Option<u32>, green: u32, yellow: u32) -> (tier: Option<DelayTier>)
    ensures
        tier == tier_of_measurement(delay, green, yellow),
{
    match delay {
        Some(d) => Some(delay_tier(d, green, yellow)),
        None => None,
    }
}

impl DelayTier {
    /// The mark that labels show for this tier.
    pub fn glyph(&self) -> (mark: &'static str)
        ensures
            mark@ == tier_glyph(*self),
    {
        match self {
            DelayTier::Green => "🟢",
            DelayTier::Yellow => "🟡",
            DelayTier::Red => "🔴",
        }
    }
}

/// Builds the label of a node entry.
pub fn node_label(node: &str, selected: bool, delay: Option<u32>, green: u32, yellow: u32) -> (label:
    String)
    ensures
        label@ == label_text(node@, selected, delay, green, yellow),
{
    let mut label = if selected {
        String::from_str("✓ ")
    } else {
        String::new()
    };
    label.append(node);
    match delay {
        Some(d) => {
            label.append(" ");
            label.append(delay_tier(d, green, yellow).glyph());
            label.append(" ");
            push_decimal(&mut label, d as u64);
            label.append("ms");
        },
        None => {},
    }
    label
}

/// The handle of one menu entry: the render that issued it and the entry's
/// place in that render's action table.
#[derive(Clone, Copy, Debug, PartialEq, Eq, Hash)]
pub struct MenuActionId {
    pub generation: u64,
    pub slot: usize,
}

/// The mathematical content of a [`MenuActionId`].
pub struct MenuActionIdView {
    pub generation: u64,
    pub slot: nat,
}

impl View for MenuActionId {
    type V = MenuActionIdView;

    open spec fn view(&self) -> MenuActionIdView {
        MenuActionIdView { generation: self.generation, slot: self.slot as nat }
    }
}

impl DeepView for MenuActionId {
    type V = MenuActionIdView;

    open spec fn deep_view(&self) -> MenuActionIdView {
        self@
    }
}

/// The text that carries an id through a menu toolkit: the generation,
/// a colon, and the slot, both in decimal notation.
pub open spec fn key_text(id: MenuActionIdView) -> Seq<char> {
    decimal(id.generation as nat) + seq![':'] + decimal(id.slot)
}

/// Where the colon of a key stands, and what stands on both sides of it.
proof fn lemma_key_parts(id: MenuActionIdView)
    ensures
        ({
            let key = key_text(id);
            let at = decimal(id.generation as nat).len() as int;
            &&& 0 < at < key.len()
            &&& key[at] == ':'
            &&& forall|k: int| 0 <= k < at ==> #[trigger] key[k] != ':'
            &&& key.subrange(0, at) == decimal(id.generation as nat)
            &&& key.subrange(at + 1, key.len() as int) == decimal(id.slot)
        }),
{
    lemma_decimal_reads_back(id.generation as nat);
    lemma_decimal_reads_back(id.slot);
}

/// Two ids with the same key are the same id.
pub proof fn lemma_key_is_injective(a: MenuActionIdView, b: MenuActionIdView)
    requires
        key_text(a) == key_text(b),
    ensures
        a == b,
{
    lemma_key_parts(a);
    lemma_key_parts(b);
    lemma_decimal_is_injective(a.generation as nat, b.generation as nat);
    lemma_decimal_is_injective(a.slot, b.slot);
}

impl MenuActionId {
    /// The key that carries this id through a menu toolkit.
    pub fn to_key(&self) -> (key: String)
        ensures
            key@ == key_text(self@),
    {
        let mut key = String::new();
        push_decimal(&mut key, self.generation);
        key.append(":");
        proof {
            reveal_strlit(":");
        }
        push_decimal(&mut key, self.slot as u64);
        key
    }

    /// Reads a key back: the id whose key it is, and nothing for a text
    /// that is the key of no id.
    pub fn from_key(key: &str) -> (id: Option<MenuActionId>)
        ensures
            match id {
                Some(i) => key@ == key_text(i@),
                None => forall|i: MenuActionId| key@ != key_text(i@),
            },
            forall|i: MenuActionId| key@ == key_text(i@) ==> id == Some(i),
    {
        let len = key.unicode_len();
        let mut at: usize = 0;
        while at < len && key.get_char(at) != ':'
            invariant
                at <= len == key@.len(),
                forall|k: int| 0 <= k < at ==> #[trigger] key@[k] != ':',
            decreases len - at,
        {
            at += 1;
        }
        if at == len {
            assert forall|i: MenuActionId| key@ != key_text(i@) by {
                lemma_key_parts(i@);
            }
            return None;
        }
        let generation = match parse_decimal(key.substring_char(0, at)) {
            Some(n) => n,
            None => {
                assert forall|i: MenuActionId| key@ != key_text(i@) by {
                    lemma_key_parts(i@);
                }
                return None;
            },
        };
        let slot = match parse_decimal(key.substring_char(at + 1, len)) {
            Some(n) => n,
            None => {
                assert forall|i: MenuActionId| key@ != key_text(i@) by {
                    lemma_key_parts(i@);
                }
                return None;
            },
        };
        if slot > usize::MAX as u64 {
            assert forall|i: MenuActionId| key@ != key_text(i@) by {
                lemma_key_parts(i@);
                if key@ == key_text(i@) {
                    lemma_decimal_is_injective(slot as nat, i@.slot);
                }
            }
            return None;
        }
        let id = MenuActionId { generation, slot: slot as usize };
        assert(key@ =~= key_text(id@));
        assert forall|i: MenuActionId| key@ == key_text(i@) implies i == id by {
            lemma_key_is_injective(i@, id@);
        }
        Some(id)
    }
}

/// One node of a group as the menu shows it.
#[derive(Debug, PartialEq, Eq)]
pub struct NodeEntry {
    pub node: String,
    /// Whether this node is the group's active node.
    pub selected: bool,
    /// The node's latest measured delay in milliseconds.
    pub delay: Option<u32>,
    pub tier: Option<DelayTier>,
    pub label: String,
    pub id: MenuActionId,
}

/// The mathematical content of a [`NodeEntry`].
pub struct NodeEntryView {
    pub node: Seq<char>,
    pub selected: bool,
    pub delay: Option<u32>,
    pub tier: Option<DelayTier>,
    pub label: Seq<char>,
    pub id: MenuActionIdView,
}

impl View for NodeEntry {
    type V = NodeEntryView;

    open spec fn view(&self) -> NodeEntryView {
        NodeEntryView {
            node: self.node@,
            selected: self.selected,
            delay: self.delay,
            tier: self.tier,
            label: self.label@,
            id: self.id@,
        }
    }
}

impl DeepView for NodeEntry {
    type V = NodeEntryView;

    open spec fn deep_view(&self) -> NodeEntryView {
        self@
    }
}

/// The submenu of one group: its nodes in the group's order.
#[derive(Debug, PartialEq, Eq)]
pub struct Submenu {
    pub title: String,
    pub entries: Vec<NodeEntry>,
}

/// The mathematical content of a [`Submenu`].
pub struct SubmenuView {
    pub title: Seq<char>,
    pub entries: Seq<NodeEntryView>,
}

impl View for Submenu {
    type V = SubmenuView;

    open spec fn view(&self) -> SubmenuView {
        SubmenuView { title: self.title@, entries: self.entries.deep_view() }
    }
}

impl DeepView for Submenu {
    type V = SubmenuView;

    open spec fn deep_view(&self) -> SubmenuView {
        self@
    }
}

/// An entry behind the submenus, such as Refresh or Quit.
#[derive(Debug, PartialEq, Eq)]
pub struct MenuEntry {
    pub label: String,
    pub id: MenuActionId,
}

/// The mathematical content of a [`MenuEntry`].
pub struct MenuEntryView {
    pub label: Seq<char>,
    pub id: MenuActionIdView,
}

impl View for MenuEntry {
    type V = MenuEntryView;

    open spec fn view(&self) -> MenuEntryView {
        MenuEntryView { label: self.label@, id: self.id@ }
    }
}

impl DeepView for MenuEntry {
    type V = MenuEntryView;

    open spec fn deep_view(&self) -> MenuEntryView {
        self@
    }
}

/// What the tray shows: the group submenus in order, then the trailing
/// entries.
#[derive(Debug, PartialEq, Eq)]
pub struct RenderModel {
    pub submenus: Vec<Submenu>,
    pub trailing: Vec<MenuEntry>,
}

/// The mathematical content of a [`RenderModel`].
pub struct RenderModelView {
    pub submenus: Seq<SubmenuView>,
    pub trailing: Seq<MenuEntryView>,
}

impl View for RenderModel {
    type V = RenderModelView;

    open spec fn view(&self) -> RenderModelView {
        RenderModelView {
            submenus: self.submenus.deep_view(),
            trailing: self.trailing.deep_view(),
        }
    }
}

/// The actions of one render, by slot.
#[derive(Debug, PartialEq, Eq)]
pub struct ActionTable {
    generation: u64,
    actions: Vec<TrayEvent>,
}

/// The mathematical content of an [`ActionTable`].
pub struct ActionTableView {
    pub generation: u64,
    pub actions: Seq<TrayEventView>,
}

impl View for ActionTable {
    type V = ActionTableView;

    closed spec fn view(&self) -> ActionTableView {
        ActionTableView { generation: self.generation, actions: self.actions.deep_view() }
    }
}

/// The action that `id` stands for in `table`: that at the id's slot when
/// the table's render issued the id, and none otherwise.
pub open spec fn resolve(table: ActionTableView, id: MenuActionIdView) -> Option<TrayEventView> {
    if id.generation == table.generation && id.slot < table.actions.len() {
        Some(table.actions[id.slot as int])
    } else {
        None
    }
}

impl ActionTable {
    /// The table of a menu without entries.
    pub fn empty(generation: u64) -> (table: ActionTable)
        ensures
            table@ == (ActionTableView { generation, actions: Seq::empty() }),
    {
        let table = ActionTable { generation, actions: Vec::new() };
        assert(table.actions.deep_view() =~= Seq::empty());
        table
    }

    /// The render that this table belongs to.
    pub fn generation(&self) -> (generation: u64)
        ensures
            generation == self@.generation,
    {
        self.generation
    }

    /// The number of actions in the table.
    pub fn len(&self) -> (n: usize)
        ensures
            n == self@.actions.len(),
    {
        self.actions.len()
    }

    /// Decodes a selected entry. An id that this table's render did not
    /// issue resolves to nothing.
    pub fn decode(&self, id: MenuActionId) -> (action: Option<TrayEvent>)
        ensures
            action.deep_view() == resolve(self@, id@),
    {
        if id.generation == self.generation && id.slot < self.actions.len() {
            Some(self.actions[id.slot].clone())
        } else {
            None
        }
    }
}

/// True when the group has members to show.
pub open spec fn renderable(group: ProxyGroupView) -> bool {
    group.all is Some && group.all->0.len() > 0
}

/// The members of a group; none when the backend reported no member list.
pub open spec fn members(group: ProxyGroupView) -> Seq<Seq<char>> {
    match group.all {
        Some(nodes) => nodes,
        None => Seq::empty(),
    }
}

/// The switch actions of one group: one per member, in member order.
pub open spec fn group_actions(key: Seq<char>, group: ProxyGroupView) -> Seq<TrayEventView> {
    Seq::new(
        members(group).len(),
        |j: int| TrayEventView::SwitchNode { group: key, node: members(group)[j] },
    )
}

/// The switch actions of all groups, group by group.
pub open spec fn switch_actions(entries: Seq<(Seq<char>, ProxyGroupView)>) -> Seq<TrayEventView>
    decreases entries.len(),
{
    if entries.len() == 0 {
        Seq::empty()
    } else {
        switch_actions(entries.drop_last()) + group_actions(entries.last().0, entries.last().1)
    }
}

/// The action table of a render: the switch actions, then Refresh, then
/// Quit.
pub open spec fn table_of(entries: Seq<(Seq<char>, ProxyGroupView)>, generation: u64)
    -> ActionTableView {
    ActionTableView {
        generation,
        actions: switch_actions(entries) + seq![TrayEventView::Refresh, TrayEventView::Quit],
    }
}

/// The entry of the member at position `j` of a group whose first member
/// has slot `first`.
pub open spec fn node_entry_of(
    group: ProxyGroupView,
    j: int,
    delays: Seq<(Seq<char>, u32)>,
    green: u32,
    yellow: u32,
    generation: u64,
    first: nat,
) -> NodeEntryView {
    let node = members(group)[j];
    let selected = group.now == Some(node);
    let delay = lookup(delays, node);
    NodeEntryView {
        node,
        selected,
        delay,
        tier: tier_of_measurement(delay, green, yellow),
        label: label_text(node, selected, delay, green, yellow),
        id: MenuActionIdView { generation, slot: (first + j) as nat },
    }
}

/// The submenu of a group whose first member has slot `first`.
pub open spec fn submenu_of(
    key: Seq<char>,
    group: ProxyGroupView,
    delays: Seq<(Seq<char>, u32)>,
    green: u32,
    yellow: u32,
    generation: u64,
    first: nat,
) -> SubmenuView {
    SubmenuView {
        title: key,
        entries: Seq::new(
            members(group).len(),
            |j: int| node_entry_of(group, j, delays, green, yellow, generation, first),
        ),
    }
}

/// The submenus of all groups that have members, in group order.
pub open spec fn submenus_of(
    entries: Seq<(Seq<char>, ProxyGroupView)>,
    delays: Seq<(Seq<char>, u32)>,
    green: u32,
    yellow: u32,
    generation: u64,
) -> Seq<SubmenuView>
    decreases entries.len(),
{
    if entries.len() == 0 {
        Seq::empty()
    } else {
        let before = submenus_of(entries.drop_last(), delays, green, yellow, generation);
        let last = entries.last();
        if renderable(last.1) {
            before.push(
                submenu_of(
                    last.0,
                    last.1,
                    delays,
                    green,
                    yellow,
                    generation,
                    switch_actions(entries.drop_last()).len(),
                ),
            )
        } else {
            before
        }
    }
}

/// The two entries behind the submenus.
pub open spec fn trailing_of(entries: Seq<(Seq<char>, ProxyGroupView)>, generation: u64) -> Seq<
    MenuEntryView,
> {
    let n = switch_actions(entries).len();
    seq![
        MenuEntryView { label: "Refresh"@, id: MenuActionIdView { generation, slot: n } },
        MenuEntryView { label: "Quit"@, id: MenuActionIdView { generation, slot: n + 1 } },
    ]
}

/// The menu of the given groups and delays, with ids of the given render.
pub open spec fn render(
    entries: Seq<(Seq<char>, ProxyGroupView)>,
    delays: Seq<(Seq<char>, u32)>,
    green: u32,
    yellow: u32,
    generation: u64,
) -> RenderModelView {
    RenderModelView {
        submenus: submenus_of(entries, delays, green, yellow, generation),
        trailing: trailing_of(entries, generation),
    }
}

/// Builds the submenu of one group and appends the group's switch actions to
/// `actions`.
fn project_group(
    key: &String,
    now: &Option<String>,
    nodes: &Vec<String>,
    delays: &DelayMap,
    green: u32,
    yellow: u32,
    generation: u64,
    actions: &mut Vec<TrayEvent>,
    Ghost(group): Ghost<ProxyGroupView>,
) -> (submenu: Submenu)
    requires
        group.now == now.deep_view(),
        group.all == Some(nodes.deep_view()),
    ensures
        submenu@ == submenu_of(
            key@,
            group,
            delay_entries(*delays),
            green,
            yellow,
            generation,
            old(actions).deep_view().len(),
        ),
        final(actions).deep_view() == old(actions).deep_view() + group_actions(key@, group),
{
    let ghost first = actions.deep_view().len();
    let ghost before = actions.deep_view();
    let ghost wanted = submenu_of(
        key@,
        group,
        delay_entries(*delays),
        green,
        yellow,
        generation,
        first,
    );
    let mut rows: Vec<NodeEntry> = Vec::new();
    let mut j: usize = 0;
    while j < nodes.len()
        invariant
            j <= nodes.len(),
            members(group) == nodes.deep_view(),
            group.now == now.deep_view(),
            first == before.len(),
            wanted == submenu_of(
                key@,
                group,
                delay_entries(*delays),
                green,
                yellow,
                generation,
                first,
            ),
            rows.deep_view() == wanted.entries.take(j as int),
            actions.deep_view() == before + group_actions(key@, group).take(j as int),
        decreases nodes.len() - j,
    {
        let node = &nodes[j];
        let selected = match now {
            Some(current) => str_eq(current.as_str(), node.as_str()),
            None => false,
        };
        let delay = delays_get(delays, node.as_str());
        let tier = measurement_tier(delay, green, yellow);
        let label = node_label(node.as_str(), selected, delay, green, yellow);
        let id = MenuActionId { generation, slot: actions.len() };
        let ghost rows_before = rows.deep_view();
        let ghost actions_before = actions.deep_view();
        let action = TrayEvent::SwitchNode { group: key.clone(), node: node.clone() };
        let row = NodeEntry { node: node.clone(), selected, delay, tier, label, id };
        actions.push(action);
        rows.push(row);
        assert(rows.deep_view() =~= rows_before.push(row@));
        assert(actions.deep_view() =~= actions_before.push(action@));
        j += 1;
    }
    assert(wanted.entries.take(j as int) =~= wanted.entries);
    Submenu { title: key.clone(), entries: rows }
}

/// Derives the menu and its action table from the groups and delays.
///
/// Each group that has members becomes a submenu, in group order, with one
/// entry per member in member order; Refresh and Quit follow. Every entry
/// gets the id of its slot in the action table of this render.
pub fn project(groups: &GroupMap, delays: &DelayMap, green: u32, yellow: u32, generation: u64) -> (out:
    (RenderModel, ActionTable))
    ensures
        out.0@ == render(group_entries(*groups), delay_entries(*delays), green, yellow, generation),
        out.1@ == table_of(group_entries(*groups), generation),
{
    let ghost entries = group_entries(*groups);
    let ghost measured = delay_entries(*delays);
    let mut submenus: Vec<Submenu> = Vec::new();
    let mut actions: Vec<TrayEvent> = Vec::new();
    let count = groups_len(groups);
    let mut i: usize = 0;
    while i < count
        invariant
            i <= count,
            count == entries.len(),
            entries == group_entries(*groups),
            measured == delay_entries(*delays),
            submenus.deep_view() == submenus_of(
                entries.take(i as int),
                measured,
                green,
                yellow,
                generation,
            ),
            actions.deep_view() == switch_actions(entries.take(i as int)),
        decreases count - i,
    {
        let ghost upto = entries.take(i + 1);
        assert(upto.drop_last() =~= entries.take(i as int));
        match groups_get_index(groups, i) {
            Some((key, group)) => {
                match &group.all {
                    Some(nodes) => {
                        if nodes.len() > 0 {
                            let submenu = project_group(
                                key,
                                &group.now,
                                nodes,
                                delays,
                                green,
                                yellow,
                                generation,
                                &mut actions,
                                Ghost(group@),
                            );
                            submenus.push(submenu);
                        }
                    },
                    None => {},
                }
            },
            None => {},
        }
        i += 1;
    }
    assert(entries.take(i as int) =~= entries);
    let mut trailing: Vec<MenuEntry> = Vec::new();
    let refresh = MenuEntry {
        label: String::from_str("Refresh"),
        id: MenuActionId { generation, slot: actions.len() },
    };
    let ghost switches = actions.deep_view();
    actions.push(TrayEvent::Refresh);
    let quit = MenuEntry {
        label: String::from_str("Quit"),
        id: MenuActionId { generation, slot: actions.len() },
    };
    actions.push(TrayEvent::Quit);
    trailing.push(refresh);
    trailing.push(quit);
    assert(trailing.deep_view() =~= trailing_of(entries, generation));
    assert(actions.deep_view() =~= switches + seq![TrayEventView::Refresh, TrayEventView::Quit]);
    (RenderModel { submenus, trailing }, ActionTable { generation, actions })
}

/// With the green threshold below the yellow one, the thresholds cut the
/// delays in three: below green is green, from green to below yellow is
/// yellow, from yellow on is red. A node without a measurement has no tier.
pub proof fn lemma_tier_boundaries(delay: u32, green: u32, yellow: u32)
    requires
        green < yellow,
    ensures
        delay < green ==> tier_of(delay, green, yellow) == DelayTier::Green,
        green <= delay < yellow ==> tier_of(delay, green, yellow) == DelayTier::Yellow,
        delay >= yellow ==> tier_of(delay, green, yellow) == DelayTier::Red,
        tier_of_measurement(Some(delay), green, yellow) == Some(tier_of(delay, green, yellow)),
        tier_of_measurement(None, green, yellow) is None,
{
}

/// True when every node entry of the submenus carries an id of the given
/// render whose slot holds the switch to that node in that submenu's group.
pub open spec fn nodes_bound(
    submenus: Seq<SubmenuView>,
    generation: u64,
    actions: Seq<TrayEventView>,
) -> bool {
    forall|a: int, b: int|
        0 <= a < submenus.len() && 0 <= b < submenus[a].entries.len() ==> {
            let entry = #[trigger] submenus[a].entries[b];
            &&& entry.id.generation == generation
            &&& entry.id.slot < actions.len()
            &&& actions[entry.id.slot as int] == (TrayEventView::SwitchNode {
                group: submenus[a].title,
                node: entry.node,
            })
        }
}

/// True when the table resolves every entry of the menu to the action the
/// entry stands for: a node entry to the switch to its node in its group,
/// the two trailing entries, where the menu has them, to Refresh and Quit.
pub open spec fn bound(model: RenderModelView, table: ActionTableView) -> bool {
    &&& nodes_bound(model.submenus, table.generation, table.actions)
    &&& model.trailing.len() == 0 || model.trailing.len() == 2
    &&& model.trailing.len() == 2 ==> {
        &&& resolve(table, model.trailing[0].id) == Some(TrayEventView::Refresh)
        &&& resolve(table, model.trailing[1].id) == Some(TrayEventView::Quit)
    }
}

/// The node entries of a render are bound to the render's switch actions.
pub proof fn lemma_submenus_bound(
    entries: Seq<(Seq<char>, ProxyGroupView)>,
    delays: Seq<(Seq<char>, u32)>,
    green: u32,
    yellow: u32,
    generation: u64,
)
    ensures
        nodes_bound(
            submenus_of(entries, delays, green, yellow, generation),
            generation,
            switch_actions(entries),
        ),
    decreases entries.len(),
{
    if entries.len() > 0 {
        let shorter = entries.drop_last();
        lemma_submenus_bound(shorter, delays, green, yellow, generation);
        let before = submenus_of(shorter, delays, green, yellow, generation);
        let all = submenus_of(entries, delays, green, yellow, generation);
        let actions = switch_actions(entries);
        assert forall|a: int, b: int|
            0 <= a < all.len() && 0 <= b < all[a].entries.len() implies {
            let entry = #[trigger] all[a].entries[b];
            &&& entry.id.generation == generation
            &&& entry.id.slot < actions.len()
            &&& actions[entry.id.slot as int] == (TrayEventView::SwitchNode {
                group: all[a].title,
                node: entry.node,
            })
        } by {
            if a < before.len() {
                assert(before[a].entries[b].id.slot < switch_actions(shorter).len());
            }
        }
    }
}

/// A render and its action table agree: the table resolves every entry of
/// the menu to the action the entry stands for.
pub proof fn lemma_render_is_bound(
    entries: Seq<(Seq<char>, ProxyGroupView)>,
    delays: Seq<(Seq<char>, u32)>,
    green: u32,
    yellow: u32,
    generation: u64,
)
    ensures
        bound(render(entries, delays, green, yellow, generation), table_of(entries, generation)),
{
    lemma_submenus_bound(entries, delays, green, yellow, generation);
    let model = render(entries, delays, green, yellow, generation);
    let table = table_of(entries, generation);
    assert forall|a: int, b: int|
        0 <= a < model.submenus.len() && 0 <= b < model.submenus[a].entries.len() implies {
        let entry = #[trigger] model.submenus[a].entries[b];
        &&& entry.id.generation == generation
        &&& entry.id.slot < table.actions.len()
        &&& table.actions[entry.id.slot as int] == (TrayEventView::SwitchNode {
            group: model.submenus[a].title,
            node: entry.node,
        })
    } by {
        assert(model.submenus[a].entries[b].id.slot < switch_actions(entries).len());
    }
}

/// An id that one render issued resolves to nothing in the table of a
/// render with another generation.
pub proof fn lemma_stale_id_resolves_to_nothing(
    issuing: ActionTableView,
    other: ActionTableView,
    id: MenuActionIdView,
)
    requires
        id.generation == issuing.generation,
        other.generation != issuing.generation,
    ensures
        resolve(other, id) is None,
{
}

/// No node entry of a render resolves in the table of a render with
/// another generation, whatever that table holds.
pub proof fn lemma_entries_of_another_render_are_rejected(
    entries: Seq<(Seq<char>, ProxyGroupView)>,
    delays: Seq<(Seq<char>, u32)>,
    green: u32,
    yellow: u32,
    generation: u64,
    other: ActionTableView,
)
    requires
        other.generation != generation,
    ensures
        forall|a: int, b: int|
            #![trigger render(entries, delays, green, yellow, generation).submenus[a].entries[b]]
            0 <= a < render(entries, delays, green, yellow, generation).submenus.len() && 0 <= b
                < render(entries, delays, green, yellow, generation).submenus[a].entries.len()
                ==> resolve(
                other,
                render(entries, delays, green, yellow, generation).submenus[a].entries[b].id,
            ) is None,
        forall|t: int|
            0 <= t < 2 ==> resolve(
                other,
                #[trigger] render(entries, delays, green, yellow, generation).trailing[t].id,
            ) is None,
{
    lemma_submenus_bound(entries, delays, green, yellow, generation);
}

/// A group without members adds nothing: the menu and the action table are
/// what they would be without the group.
pub proof fn lemma_memberless_group_adds_nothing(
    entries: Seq<(Seq<char>, ProxyGroupView)>,
    at: int,
    delays: Seq<(Seq<char>, u32)>,
    green: u32,
    yellow: u32,
    generation: u64,
)
    requires
        0 <= at < entries.len(),
        !renderable(entries[at].1),
    ensures
        switch_actions(entries.remove(at)) == switch_actions(entries),
        render(entries.remove(at), delays, green, yellow, generation) == render(
            entries,
            delays,
            green,
            yellow,
            generation,
        ),
        table_of(entries.remove(at), generation) == table_of(entries, generation),
    decreases entries.len(),
{
    let shorter = entries.drop_last();
    if at < entries.len() - 1 {
        lemma_memberless_group_adds_nothing(shorter, at, delays, green, yellow, generation);
        assert(entries.remove(at).drop_last() =~= shorter.remove(at));
    }
}

/// What a menu entry shows and does, apart from its id.
pub struct EntryShape {
    pub label: Seq<char>,
    pub action: Option<TrayEventView>,
}

/// What a submenu shows and does, apart from its ids.
pub struct SubmenuShape {
    pub title: Seq<char>,
    pub entries: Seq<EntryShape>,
}

/// What a menu shows and does, apart from its ids: the labels in order,
/// each with the action its entry resolves to in the table.
pub open spec fn shape_of(model: RenderModelView, table: ActionTableView) -> (Seq<SubmenuShape>, Seq<
    EntryShape,
>) {
    (
        Seq::new(
            model.submenus.len(),
            |a: int|
                SubmenuShape {
                    title: model.submenus[a].title,
                    entries: Seq::new(
                        model.submenus[a].entries.len(),
                        |b: int|
                            EntryShape {
                                label: model.submenus[a].entries[b].label,
                                action: resolve(table, model.submenus[a].entries[b].id),
                            },
                    ),
                },
        ),
        Seq::new(
            model.trailing.len(),
            |t: int|
                EntryShape {
                    label: model.trailing[t].label,
                    action: resolve(table, model.trailing[t].id),
                },
        ),
    )
}

/// Renders of the same groups and delays differ in the generation of their
/// ids and in nothing else.
pub proof fn lemma_submenus_differ_in_generation_only(
    entries: Seq<(Seq<char>, ProxyGroupView)>,
    delays: Seq<(Seq<char>, u32)>,
    green: u32,
    yellow: u32,
    first: u64,
    second: u64,
)
    ensures
        submenus_of(entries, delays, green, yellow, first).len() == submenus_of(
            entries,
            delays,
            green,
            yellow,
            second,
        ).len(),
        forall|a: int|
            0 <= a < submenus_of(entries, delays, green, yellow, first).len() ==> {
                let one = #[trigger] submenus_of(entries, delays, green, yellow, first)[a];
                let other = submenus_of(entries, delays, green, yellow, second)[a];
                &&& one.title == other.title
                &&& one.entries.len() == other.entries.len()
                &&& forall|b: int|
                    0 <= b < one.entries.len() ==> {
                        let x = #[trigger] one.entries[b];
                        let y = other.entries[b];
                        &&& x.node == y.node
                        &&& x.selected == y.selected
                        &&& x.delay == y.delay
                        &&& x.tier == y.tier
                        &&& x.label == y.label
                        &&& x.id.slot == y.id.slot
                    }
            },
    decreases entries.len(),
{
    if entries.len() > 0 {
        lemma_submenus_differ_in_generation_only(
            entries.drop_last(),
            delays,
            green,
            yellow,
            first,
            second,
        );
    }
}

/// Projecting the same groups and delays twice shows the same menu: the
/// same labels in the same order, bound to the same actions. Only the ids
/// may differ.
pub proof fn lemma_project_shape_is_deterministic(
    entries: Seq<(Seq<char>, ProxyGroupView)>,
    delays: Seq<(Seq<char>, u32)>,
    green: u32,
    yellow: u32,
    first: u64,
    second: u64,
)
    ensures
        shape_of(render(entries, delays, green, yellow, first), table_of(entries, first))
            == shape_of(render(entries, delays, green, yellow, second), table_of(entries, second)),
{
    lemma_submenus_differ_in_generation_only(entries, delays, green, yellow, first, second);
    lemma_render_is_bound(entries, delays, green, yellow, first);
    lemma_render_is_bound(entries, delays, green, yellow, second);
    let m1 = render(entries, delays, green, yellow, first);
    let m2 = render(entries, delays, green, yellow, second);
    let t1 = table_of(entries, first);
    let t2 = table_of(entries, second);
    let s1 = shape_of(m1, t1);
    let s2 = shape_of(m2, t2);
    assert forall|a: int| 0 <= a < s1.0.len() implies s1.0[a] == s2.0[a] by {
        assert(m1.submenus[a].title == m2.submenus[a].title);
        assert(s1.0[a].entries =~= s2.0[a].entries);
    }
}

} // verus!
