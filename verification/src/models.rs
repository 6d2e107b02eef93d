//! The data exchanged with the proxy manager and with the tray shell.

use vstd::prelude::*;

verus! {

/// A proxy group as the menu shows it.
#[derive(Debug, PartialEq, Eq)]
pub struct ProxyGroup {
    pub name: String,
    /// The kind the backend reports for the group.
    pub group_type: String,
    /// The node that is active now, when the backend reports one.
    pub now: Option<String>,
    /// The member nodes in presentation order.
    pub all: Option<Vec<String>>,
}

/// The mathematical content of a [`ProxyGroup`].
pub struct ProxyGroupView {
    pub name: Seq<char>,
    pub group_type: Seq<char>,
    pub now: Option<Seq<char>>,
    pub all: Option<Seq<Seq<char>>>,
}

impl View for ProxyGroup {
    type V = ProxyGroupView;

    open spec fn view(&self) -> ProxyGroupView {
        ProxyGroupView {
            name: self.name@,
            group_type: self.group_type@,
            now: self.now.deep_view(),
            all: self.all.deep_view(),
        }
    }
}

impl DeepView for ProxyGroup {
    type V = ProxyGroupView;

    open spec fn deep_view(&self) -> ProxyGroupView {
        self@
    }
}

/// One latency measurement of a node.
#[derive(Debug, PartialEq, Eq)]
pub struct DelayHistory {
    pub time: String,
    pub delay: u32,
}

/// The mathematical content of a [`DelayHistory`].
pub struct DelayHistoryView {
    pub time: Seq<char>,
    pub delay: u32,
}

impl View for DelayHistory {
    type V = DelayHistoryView;

    open spec fn view(&self) -> DelayHistoryView {
        DelayHistoryView { time: self.time@, delay: self.delay }
    }
}

impl DeepView for DelayHistory {
    type V = DelayHistoryView;

    open spec fn deep_view(&self) -> DelayHistoryView {
        self@
    }
}

/// One entry of the backend's proxy listing: a node or a group.
#[derive(Debug, PartialEq, Eq)]
pub struct Proxy {
    pub name: String,
    pub proxy_type: String,
    /// Latency measurements, oldest first.
    pub history: Option<Vec<DelayHistory>>,
    pub alive: Option<bool>,
    pub now: Option<String>,
    pub all: Option<Vec<String>>,
    pub udp: Option<bool>,
}

/// The mathematical content of a [`Proxy`].
pub struct ProxyView {
    pub name: Seq<char>,
    pub proxy_type: Seq<char>,
    pub history: Option<Seq<DelayHistoryView>>,
    pub alive: Option<bool>,
    pub now: Option<Seq<char>>,
    pub all: Option<Seq<Seq<char>>>,
    pub udp: Option<bool>,
}

impl View for Proxy {
    type V = ProxyView;

    open spec fn view(&self) -> ProxyView {
        ProxyView {
            name: self.name@,
            proxy_type: self.proxy_type@,
            history: self.history.deep_view(),
            alive: self.alive,
            now: self.now.deep_view(),
            all: self.all.deep_view(),
            udp: self.udp,
        }
    }
}

impl DeepView for Proxy {
    type V = ProxyView;

    open spec fn deep_view(&self) -> ProxyView {
        self@
    }
}

/// The backend's answer to a listing request: each proxy under the key it
/// was listed by, in the order the backend returned them.
#[derive(Debug, PartialEq, Eq)]
pub struct ProxiesResponse {
    pub proxies: Vec<(String, Proxy)>,
}

impl View for ProxiesResponse {
    type V = Seq<(Seq<char>, ProxyView)>;

    open spec fn view(&self) -> Seq<(Seq<char>, ProxyView)> {
        self.proxies.deep_view()
    }
}

/// The body of a switch request: the node to activate.
#[derive(Debug, PartialEq, Eq)]
pub struct SwitchRequest {
    pub name: String,
}

impl View for SwitchRequest {
    type V = Seq<char>;

    open spec fn view(&self) -> Seq<char> {
        self.name@
    }
}

/// What a menu entry asks the loop to do.
#[derive(Debug, PartialEq, Eq)]
pub enum TrayEvent {
    SwitchNode { group: String, node: String },
    Refresh,
    Quit,
}

/// The mathematical content of a [`TrayEvent`].
pub enum TrayEventView {
    SwitchNode { group: Seq<char>, node: Seq<char> },
    Refresh,
    Quit,
}

impl View for TrayEvent {
    type V = TrayEventView;

    open spec fn view(&self) -> TrayEventView {
        match self {
            TrayEvent::SwitchNode { group, node } => TrayEventView::SwitchNode {
                group: group@,
                node: node@,
            },
            TrayEvent::Refresh => TrayEventView::Refresh,
            TrayEvent::Quit => TrayEventView::Quit,
        }
    }
}

impl DeepView for TrayEvent {
    type V = TrayEventView;

    open spec fn deep_view(&self) -> TrayEventView {
        self@
    }
}

impl Clone for TrayEvent {
    fn clone(&self) -> (copy: TrayEvent)
        ensures
            copy@ == self@,
    {
        match self {
            TrayEvent::SwitchNode { group, node } => TrayEvent::SwitchNode {
                group: group.clone(),
                node: node.clone(),
            },
            TrayEvent::Refresh => TrayEvent::Refresh,
            TrayEvent::Quit => TrayEvent::Quit,
        }
    }
}

/// A copy of an optional name.
pub fn copy_name(name: &Option<String>) -> (copy: Option<String>)
    ensures
        copy.deep_view() == name.deep_view(),
{
    match name {
        Some(text) => Some(text.clone()),
        None => None,
    }
}

/// A copy of a list of names.
pub fn copy_names(names: &Vec<String>) -> (copy: Vec<String>)
    ensures
        copy.deep_view() == names.deep_view(),
{
    let mut copy: Vec<String> = Vec::new();
    let mut i: usize = 0;
    while i < names.len()
        invariant
            i <= names.len(),
            copy.len() == i,
            forall|k: int| 0 <= k < i ==> copy[k]@ == names[k]@,
        decreases names.len() - i,
    {
        copy.push(names[i].clone());
        i += 1;
    }
    copy
}

} // verus!
