//! The tray as the loop sees it: the menu on show, the table that decodes
//! its entries, and the state of the icon.

use crate::menu::{
    bound, lemma_render_is_bound, project, render, resolve, table_of, ActionTable,
    ActionTableView, MenuActionId, RenderModel, RenderModelView,
};
use crate::models::{TrayEvent, TrayEventView};
use crate::ordered::{delay_entries, group_entries, DelayMap, GroupMap};
use vstd::prelude::*;

verus! {

/// The generation that follows `generation`. It differs from `generation`
/// for every value; after the largest it starts again at zero.
pub open spec fn next_generation(generation: u64) -> u64 {
    if generation == u64::MAX {
        0
    } else {
        (generation + 1) as u64
    }
}

/// The menu on show with the table of its render, and the icon's state.
///
/// The menu and the table are replaced together and always agree: the table
/// resolves each entry of the menu to the action the entry stands for.
#[derive(Debug, PartialEq, Eq)]
pub struct TrayManager {
    model: RenderModel,
    table: ActionTable,
    connected: bool,
}

/// The mathematical content of a [`TrayManager`].
pub struct TrayManagerView {
    pub model: RenderModelView,
    pub table: ActionTableView,
    pub connected: bool,
}

impl View for TrayManager {
    type V = TrayManagerView;

    closed spec fn view(&self) -> TrayManagerView {
        TrayManagerView { model: self.model@, table: self.table@, connected: self.connected }
    }
}

/// The tray before the first render: an empty menu, an empty table of
/// generation zero, and the icon not yet showing a connection.
pub open spec fn blank_tray() -> TrayManagerView {
    TrayManagerView {
        model: RenderModelView { submenus: Seq::empty(), trailing: Seq::empty() },
        table: ActionTableView { generation: 0, actions: Seq::empty() },
        connected: false,
    }
}

/// The tray after showing the given groups and delays: the menu and table
/// of the next generation; the icon stays as it is.
pub open spec fn tray_showing(
    tray: TrayManagerView,
    entries: Seq<(Seq<char>, crate::models::ProxyGroupView)>,
    delays: Seq<(Seq<char>, u32)>,
    green: u32,
    yellow: u32,
) -> TrayManagerView {
    let generation = next_generation(tray.table.generation);
    TrayManagerView {
        model: render(entries, delays, green, yellow, generation),
        table: table_of(entries, generation),
        connected: tray.connected,
    }
}

/// The event that a selection stands for: the action that the table on show
/// resolves the selected id to; none when nothing was selected.
pub open spec fn selected_event(tray: TrayManagerView, selected: Option<MenuActionId>) -> Option<
    TrayEventView,
> {
    match selected {
        Some(id) => resolve(tray.table, id@),
        None => None,
    }
}

impl TrayManager {
    #[verifier::type_invariant]
    spec fn agrees(self) -> bool {
        bound(self.model@, self.table@)
    }

    /// A tray that shows nothing yet.
    pub fn new() -> (tray: TrayManager)
        ensures
            tray@ == blank_tray(),
    {
        let model = RenderModel { submenus: Vec::new(), trailing: Vec::new() };
        let table = ActionTable::empty(0);
        assert(model@.submenus =~= Seq::empty());
        assert(model@.trailing =~= Seq::empty());
        TrayManager { model, table, connected: false }
    }

    /// Shows the given groups and delays. The menu and its table are built
    /// anew and replace the old ones together; ids of the old menu no longer
    /// resolve.
    pub fn update_menu(
        &mut self,
        proxy_groups: &GroupMap,
        node_delays: &DelayMap,
        green_threshold: u32,
        yellow_threshold: u32,
    )
        ensures
            final(self)@ == tray_showing(
                old(self)@,
                group_entries(*proxy_groups),
                delay_entries(*node_delays),
                green_threshold,
                yellow_threshold,
            ),
    {
        let current = self.table.generation();
        let generation = if current == u64::MAX {
            0
        } else {
            current + 1
        };
        let (model, table) = project(
            proxy_groups,
            node_delays,
            green_threshold,
            yellow_threshold,
            generation,
        );
        proof {
            lemma_render_is_bound(
                group_entries(*proxy_groups),
                delay_entries(*node_delays),
                green_threshold,
                yellow_threshold,
                generation,
            );
        }
        let connected = self.connected;
        *self = TrayManager { model, table, connected };
    }

    /// Shows the icon of a reachable backend.
    pub fn set_icon_connected(&mut self)
        ensures
            final(self)@ == (TrayManagerView { connected: true, ..old(self)@ }),
    {
        proof {
            use_type_invariant(&*self);
        }
        self.connected = true;
    }

    /// Shows the icon of an unreachable backend.
    pub fn set_icon_disconnected(&mut self)
        ensures
            final(self)@ == (TrayManagerView { connected: false, ..old(self)@ }),
    {
        proof {
            use_type_invariant(&*self);
        }
        self.connected = false;
    }

    /// Decodes what the user selected, if anything. An id that the menu on
    /// show did not issue decodes to nothing.
    pub fn poll_events(&self, selected: Option<MenuActionId>) -> (event: Option<TrayEvent>)
        ensures
            event.deep_view() == selected_event(self@, selected),
    {
        match selected {
            Some(id) => self.table.decode(id),
            None => None,
        }
    }

    /// The menu on show. It agrees with the table.
    pub fn model(&self) -> (model: &RenderModel)
        ensures
            model@ == self@.model,
            bound(self@.model, self@.table),
    {
        proof {
            use_type_invariant(self);
        }
        &self.model
    }

    /// The table that decodes the entries of the menu on show. It agrees
    /// with the menu.
    pub fn table(&self) -> (table: &ActionTable)
        ensures
            table@ == self@.table,
            bound(self@.model, self@.table),
    {
        proof {
            use_type_invariant(self);
        }
        &self.table
    }

    /// Whether the icon shows a reachable backend.
    pub fn is_connected(&self) -> (connected: bool)
        ensures
            connected == self@.connected,
    {
        self.connected
    }
}

/// The generation after a number of renders.
pub open spec fn generation_after(generation: u64, renders: nat) -> u64
    decreases renders,
{
    if renders == 0 {
        generation
    } else {
        next_generation(generation_after(generation, (renders - 1) as nat))
    }
}

/// Generations count the renders, modulo two to the power of 64.
pub proof fn lemma_generations_count_renders(generation: u64, renders: nat)
    ensures
        generation_after(generation, renders) == (generation + renders) % 0x1_0000_0000_0000_0000,
    decreases renders,
{
    if renders > 0 {
        lemma_generations_count_renders(generation, (renders - 1) as nat);
    }
}

/// The generation of a menu differs from that of every menu shown before
/// it, as far back as two to the power of 64 renders: so far back, an id of
/// a replaced menu resolves to nothing.
pub proof fn lemma_replaced_generations_differ(generation: u64, renders: nat)
    requires
        0 < renders < 0x1_0000_0000_0000_0000,
    ensures
        generation_after(generation, renders) != generation,
{
    lemma_generations_count_renders(generation, renders);
}

} // verus!
