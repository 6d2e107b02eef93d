//! The proxy manager's control API: which requests the client sends, and how
//! it reads the answers.
//!
//! Nothing here touches the network. A request is a value that the caller
//! sends; what came back is handed in as plain values.

use crate::config::Config;
use crate::models::{
    copy_name, copy_names, DelayHistory, ProxiesResponse, Proxy, ProxyGroup, ProxyGroupView,
    ProxyView, SwitchRequest,
};
use crate::ordered::{
    delay_entries, delays_insert, delays_new, group_entries, groups_insert, groups_new,
    keys_distinct, lemma_lookup_after_put, lemma_put_keeps_keys_distinct,
    lemma_put_keeps_the_order, lemma_put_new_key, lookup, put, DelayMap, GroupMap,
};
use crate::text::{decimal, push_decimal, str_eq};
use vstd::prelude::*;

verus! {

/// How long the transport waits for the backend to answer one request, in
/// seconds. A call that hangs holds the loop up for this long.
pub const REQUEST_TIMEOUT_SECS: u64 = 5;

/// Why a backend call failed.
#[derive(Clone, Copy, Debug, PartialEq, Eq, Structural)]
pub enum BackendError {
    /// The request did not get through.
    Unreachable,
    /// The backend answered with a status outside 200..=299.
    Status { status: u16 },
    /// The answer did not have the expected shape.
    Malformed,
}

/// The words that describe a failure to the user.
pub open spec fn error_text(error: BackendError) -> Seq<char> {
    match error {
        BackendError::Unreachable => "backend unreachable"@,
        BackendError::Status { status } => "backend returned status "@ + decimal(status as nat),
        BackendError::Malformed => "malformed backend response"@,
    }
}

impl BackendError {
    /// Describes the failure in words.
    pub fn describe(&self) -> (text: String)
        ensures
            text@ == error_text(*self),
    {
        match self {
            BackendError::Unreachable => String::from_str("backend unreachable"),
            BackendError::Status { status } => {
                let mut text = String::from_str("backend returned status ");
                push_decimal(&mut text, *status as u64);
                text
            },
            BackendError::Malformed => String::from_str("malformed backend response"),
        }
    }
}

/// True for the statuses that count as success: 200 to 299.
pub open spec fn is_success(status: u16) -> bool {
    200 <= status < 300
}

/// Reads the status of an answer: success for 200 to 299, and otherwise the
/// error that carries the status.
pub fn check_status(status: u16) -> (outcome: Result<(), BackendError>)
    ensures
        outcome == (if is_success(status) {
            Ok::<(), BackendError>(())
        } else {
            Err::<(), BackendError>(BackendError::Status { status })
        }),
{
    if 200 <= status && status < 300 {
        Ok(())
    } else {
        Err(BackendError::Status { status })
    }
}

/// What the transport reports of a request whose answer holds nothing to
/// read beyond its status.
#[derive(Clone, Copy, Debug, PartialEq, Eq, Structural)]
pub enum Delivery {
    /// The request did not get through, or no answer came in time.
    NoAnswer,
    /// The backend answered with this status.
    Answered { status: u16 },
}

/// What a delivery amounts to: unreachable without an answer, and
/// otherwise what the status says.
pub open spec fn delivery_outcome(delivery: Delivery) -> Result<(), BackendError> {
    match delivery {
        Delivery::NoAnswer => Err(BackendError::Unreachable),
        Delivery::Answered { status } => if is_success(status) {
            Ok(())
        } else {
            Err(BackendError::Status { status })
        },
    }
}

impl Delivery {
    /// Reads the delivery: success for an answer with a status from 200
    /// to 299, and otherwise the error that says what went wrong.
    pub fn outcome(self) -> (outcome: Result<(), BackendError>)
        ensures
            outcome == delivery_outcome(self),
    {
        match self {
            Delivery::NoAnswer => Err(BackendError::Unreachable),
            Delivery::Answered { status } => check_status(status),
        }
    }
}

/// What the transport reports of a listing request.
#[derive(Debug, PartialEq, Eq)]
pub enum ListingDelivery {
    /// The request did not get through, or no answer came in time.
    NoAnswer,
    /// The backend answered with this status. `listing` is the decoded
    /// body, and nothing where the body did not have the shape of a listing
    /// or was not read because the status was no success.
    Answered { status: u16, listing: Option<ProxiesResponse> },
}

/// The mathematical content of a [`ListingDelivery`].
pub enum ListingDeliveryView {
    NoAnswer,
    Answered { status: u16, listing: Option<Seq<(Seq<char>, ProxyView)>> },
}

impl View for ListingDelivery {
    type V = ListingDeliveryView;

    open spec fn view(&self) -> ListingDeliveryView {
        match self {
            ListingDelivery::NoAnswer => ListingDeliveryView::NoAnswer,
            ListingDelivery::Answered { status, listing } => ListingDeliveryView::Answered {
                status: *status,
                listing: match listing {
                    Some(response) => Some(response@),
                    None => None,
                },
            },
        }
    }
}

/// What a listing delivery amounts to: unreachable without an answer, the
/// status error for a status that is no success, malformed for a success
/// whose body is no listing, and otherwise the listing.
pub open spec fn listing_outcome(delivery: ListingDeliveryView) -> Result<
    Seq<(Seq<char>, ProxyView)>,
    BackendError,
> {
    match delivery {
        ListingDeliveryView::NoAnswer => Err(BackendError::Unreachable),
        ListingDeliveryView::Answered { status, listing } => if !is_success(status) {
            Err(BackendError::Status { status })
        } else {
            match listing {
                Some(proxies) => Ok(proxies),
                None => Err(BackendError::Malformed),
            }
        },
    }
}

/// The outcome of a listing request with the listing as a plain value.
pub open spec fn listing_view(outcome: Result<ProxiesResponse, BackendError>) -> Result<
    Seq<(Seq<char>, ProxyView)>,
    BackendError,
> {
    match outcome {
        Ok(response) => Ok(response@),
        Err(error) => Err(error),
    }
}

impl ListingDelivery {
    /// Reads the delivery: the listing for an answer with a status from 200
    /// to 299 and a body of the expected shape, and otherwise the error
    /// that says what went wrong.
    pub fn outcome(self) -> (outcome: Result<ProxiesResponse, BackendError>)
        ensures
            listing_view(outcome) == listing_outcome(self@),
    {
        match self {
            ListingDelivery::NoAnswer => Err(BackendError::Unreachable),
            ListingDelivery::Answered { status, listing } => match check_status(status) {
                Ok(_) => match listing {
                    Some(response) => Ok(response),
                    None => Err(BackendError::Malformed),
                },
                Err(error) => Err(error),
            },
        }
    }
}

/// The method of a request.
#[derive(Clone, Copy, Debug, PartialEq, Eq, Structural)]
pub enum HttpMethod {
    Get,
    Put,
}

/// A request to the backend, ready to be sent.
#[derive(Debug, PartialEq, Eq)]
pub struct BackendRequest {
    pub method: HttpMethod,
    pub url: String,
    /// The value of the `Authorization` header, when one is to be sent.
    pub authorization: Option<String>,
    /// The JSON body, when the request has one.
    pub body: Option<SwitchRequest>,
}

/// The mathematical content of a [`BackendRequest`].
pub struct BackendRequestView {
    pub method: HttpMethod,
    pub url: Seq<char>,
    pub authorization: Option<Seq<char>>,
    pub body: Option<Seq<char>>,
}

impl View for BackendRequest {
    type V = BackendRequestView;

    open spec fn view(&self) -> BackendRequestView {
        BackendRequestView {
            method: self.method,
            url: self.url@,
            authorization: self.authorization.deep_view(),
            body: match self.body {
                Some(body) => Some(body@),
                None => None,
            },
        }
    }
}

/// The header value that authorizes a request: none without a secret.
pub open spec fn authorization_of(secret: Seq<char>) -> Option<Seq<char>> {
    if secret.len() == 0 {
        None
    } else {
        Some("Bearer "@ + secret)
    }
}

/// The request that lists the proxies.
pub open spec fn proxies_request(base_url: Seq<char>, secret: Seq<char>) -> BackendRequestView {
    BackendRequestView {
        method: HttpMethod::Get,
        url: base_url + "/proxies"@,
        authorization: authorization_of(secret),
        body: None,
    }
}

/// The request that makes `node` the active node of `group`.
pub open spec fn switch_request(
    base_url: Seq<char>,
    secret: Seq<char>,
    group: Seq<char>,
    node: Seq<char>,
) -> BackendRequestView {
    BackendRequestView {
        method: HttpMethod::Put,
        url: base_url + "/proxies/"@ + group,
        authorization: authorization_of(secret),
        body: Some(node),
    }
}

/// The request that asks the backend to measure the nodes of `group`
/// against `test_url`, each within `timeout` milliseconds.
pub open spec fn delay_test_request(
    base_url: Seq<char>,
    secret: Seq<char>,
    group: Seq<char>,
    test_url: Seq<char>,
    timeout: u32,
) -> BackendRequestView {
    BackendRequestView {
        method: HttpMethod::Get,
        url: base_url + "/group/"@ + group + "/delay?url="@ + test_url + "&timeout="@ + decimal(
            timeout as nat,
        ),
        authorization: authorization_of(secret),
        body: None,
    }
}

/// The client's side of the control API. It keeps no state between calls.
#[derive(Debug, PartialEq, Eq)]
pub struct ClashApi {
    base_url: String,
    secret: String,
}

/// The mathematical content of a [`ClashApi`].
pub struct ClashApiView {
    pub base_url: Seq<char>,
    pub secret: Seq<char>,
}

impl View for ClashApi {
    type V = ClashApiView;

    closed spec fn view(&self) -> ClashApiView {
        ClashApiView { base_url: self.base_url@, secret: self.secret@ }
    }
}

impl ClashApi {
    /// A client for the backend that the settings name.
    pub fn new(config: &Config) -> (api: ClashApi)
        ensures
            api@ == (ClashApiView {
                base_url: config@.clash_api_url,
                secret: config@.clash_secret,
            }),
    {
        ClashApi { base_url: config.clash_api_url.clone(), secret: config.clash_secret.clone() }
    }

    /// The `Authorization` header value: `Bearer` and the secret, or none
    /// when no secret is set.
    pub fn authorization(&self) -> (header: Option<String>)
        ensures
            header.deep_view() == authorization_of(self@.secret),
    {
        if self.secret.as_str().is_empty() {
            None
        } else {
            let mut header = String::from_str("Bearer ");
            header.append(self.secret.as_str());
            Some(header)
        }
    }

    /// The request that fetches the proxy listing.
    pub fn get_proxies_request(&self) -> (request: BackendRequest)
        ensures
            request@ == proxies_request(self@.base_url, self@.secret),
    {
        let mut url = self.base_url.clone();
        url.append("/proxies");
        BackendRequest {
            method: HttpMethod::Get,
            url,
            authorization: self.authorization(),
            body: None,
        }
    }

    /// The request that probes whether the backend can be reached: the
    /// listing request.
    pub fn test_connection_request(&self) -> (request: BackendRequest)
        ensures
            request@ == proxies_request(self@.base_url, self@.secret),
    {
        self.get_proxies_request()
    }

    /// The request that makes `node` the active node of `group`. Whether
    /// the node belongs to the group is for the backend to say.
    pub fn switch_node_request(&self, group: &str, node: &str) -> (request: BackendRequest)
        ensures
            request@ == switch_request(self@.base_url, self@.secret, group@, node@),
    {
        let mut url = self.base_url.clone();
        url.append("/proxies/");
        url.append(group);
        BackendRequest {
            method: HttpMethod::Put,
            url,
            authorization: self.authorization(),
            body: Some(SwitchRequest { name: String::from_str(node) }),
        }
    }

    /// The request that starts a latency test of `group`.
    pub fn trigger_delay_test_request(&self, group: &str, test_url: &str, timeout: u32) -> (request:
        BackendRequest)
        ensures
            request@ == delay_test_request(
                self@.base_url,
                self@.secret,
                group@,
                test_url@,
                timeout,
            ),
    {
        let mut url = self.base_url.clone();
        url.append("/group/");
        url.append(group);
        url.append("/delay?url=");
        url.append(test_url);
        url.append("&timeout=");
        push_decimal(&mut url, timeout as u64);
        BackendRequest {
            method: HttpMethod::Get,
            url,
            authorization: self.authorization(),
            body: None,
        }
    }
}

/// True for the kinds of proxy that are groups a user can switch.
pub open spec fn is_group_kind(kind: Seq<char>) -> bool {
    kind == "Selector"@ || kind == "URLTest"@ || kind == "Fallback"@
}

/// The group that a listed proxy of a group kind stands for.
pub open spec fn group_of(proxy: ProxyView) -> ProxyGroupView {
    ProxyGroupView {
        name: proxy.name,
        group_type: proxy.proxy_type,
        now: proxy.now,
        all: proxy.all,
    }
}

/// The latest measurement in a proxy's history, which lists the oldest
/// first; none when the proxy has no measurement.
pub open spec fn latest_delay(proxy: ProxyView) -> Option<u32> {
    match proxy.history {
        Some(history) => if history.len() > 0 {
            Some(history.last().delay)
        } else {
            None
        },
        None => None,
    }
}

/// The groups of a listing: each proxy of a group kind, stored under its
/// key in listing order.
pub open spec fn surfaced_groups(proxies: Seq<(Seq<char>, ProxyView)>) -> Seq<
    (Seq<char>, ProxyGroupView),
>
    decreases proxies.len(),
{
    if proxies.len() == 0 {
        Seq::empty()
    } else {
        let before = surfaced_groups(proxies.drop_last());
        let last = proxies.last();
        if is_group_kind(last.1.proxy_type) {
            put(before, last.0, group_of(last.1))
        } else {
            before
        }
    }
}

/// The delays of a listing: the latest measurement of each proxy that has
/// one, whatever its kind, stored under its key in listing order.
pub open spec fn measured_delays(proxies: Seq<(Seq<char>, ProxyView)>) -> Seq<(Seq<char>, u32)>
    decreases proxies.len(),
{
    if proxies.len() == 0 {
        Seq::empty()
    } else {
        let before = measured_delays(proxies.drop_last());
        let last = proxies.last();
        match latest_delay(last.1) {
            Some(delay) => put(before, last.0, delay),
            None => before,
        }
    }
}

/// True exactly for the kinds of proxy that are groups a user can switch.
pub fn group_kind(kind: &str) -> (yes: bool)
    ensures
        yes == is_group_kind(kind@),
{
    str_eq(kind, "Selector") || str_eq(kind, "URLTest") || str_eq(kind, "Fallback")
}

/// The latest measurement of a proxy, if it has one.
pub fn proxy_delay(proxy: &Proxy) -> (delay: Option<u32>)
    ensures
        delay == latest_delay(proxy@),
{
    match &proxy.history {
        Some(history) => {
            if history.len() > 0 {
                let last: &DelayHistory = &history[history.len() - 1];
                Some(last.delay)
            } else {
                None
            }
        },
        None => None,
    }
}

/// The group that a listed proxy stands for.
pub fn proxy_group(proxy: &Proxy) -> (group: ProxyGroup)
    ensures
        group@ == group_of(proxy@),
{
    ProxyGroup {
        name: proxy.name.clone(),
        group_type: proxy.proxy_type.clone(),
        now: copy_name(&proxy.now),
        all: match &proxy.all {
            Some(nodes) => Some(copy_names(nodes)),
            None => None,
        },
    }
}

/// Reads a listing: the proxies of a group kind become the groups, and the
/// latest measurement of every proxy that has one goes to the delays.
pub fn proxy_state(response: &ProxiesResponse) -> (state: (GroupMap, DelayMap))
    ensures
        group_entries(state.0) == surfaced_groups(response@),
        delay_entries(state.1) == measured_delays(response@),
{
    let mut groups = groups_new();
    let mut delays = delays_new();
    let mut i: usize = 0;
    while i < response.proxies.len()
        invariant
            i <= response.proxies.len(),
            response@.len() == response.proxies.len(),
            group_entries(groups) == surfaced_groups(response@.take(i as int)),
            delay_entries(delays) == measured_delays(response@.take(i as int)),
        decreases response.proxies.len() - i,
    {
        let ghost upto = response@.take(i + 1);
        assert(upto.drop_last() =~= response@.take(i as int));
        let key: &String = &response.proxies[i].0;
        let proxy: &Proxy = &response.proxies[i].1;
        if group_kind(proxy.proxy_type.as_str()) {
            groups_insert(&mut groups, key.clone(), proxy_group(proxy));
        }
        match proxy_delay(proxy) {
            Some(delay) => {
                delays_insert(&mut delays, key.clone(), delay);
            },
            None => {},
        }
        i += 1;
    }
    assert(response@.take(i as int) =~= response@);
    (groups, delays)
}

/// Every surfaced group is the group of a listed proxy of a group kind and
/// stands under that proxy's key; no key stands twice.
pub proof fn lemma_surfaced_groups_come_from_group_kinds(proxies: Seq<(Seq<char>, ProxyView)>)
    ensures
        forall|i: int|
            0 <= i < surfaced_groups(proxies).len() ==> exists|j: int|
                0 <= j < proxies.len() && is_group_kind(proxies[j].1.proxy_type)
                    && #[trigger] surfaced_groups(proxies)[i] == (
                    (#[trigger] proxies[j]).0,
                    group_of(proxies[j].1),
                ),
        keys_distinct(surfaced_groups(proxies)),
    decreases proxies.len(),
{
    if proxies.len() > 0 {
        let shorter = proxies.drop_last();
        let before = surfaced_groups(shorter);
        let last = proxies.last();
        let after = surfaced_groups(proxies);
        lemma_surfaced_groups_come_from_group_kinds(shorter);
        if is_group_kind(last.1.proxy_type) {
            lemma_put_keeps_the_order(before, last.0, group_of(last.1));
            lemma_put_keeps_keys_distinct(before, last.0, group_of(last.1));
        }
        assert forall|i: int| 0 <= i < after.len() implies exists|j: int|
            0 <= j < proxies.len() && is_group_kind(proxies[j].1.proxy_type) && #[trigger] after[i]
                == ((#[trigger] proxies[j]).0, group_of(proxies[j].1)) by {
            if is_group_kind(last.1.proxy_type) && after[i] == (last.0, group_of(last.1)) {
                assert(proxies[proxies.len() - 1] == last);
            } else {
                let j = choose|j: int|
                    0 <= j < shorter.len() && is_group_kind(shorter[j].1.proxy_type) && before[i]
                        == ((#[trigger] shorter[j]).0, group_of(shorter[j].1));
                assert(proxies[j] == shorter[j]);
            }
        }
    }
}

/// The proxies of a group kind, each as its group under its key, in listing
/// order.
pub open spec fn listed_groups(proxies: Seq<(Seq<char>, ProxyView)>) -> Seq<
    (Seq<char>, ProxyGroupView),
> {
    proxies.filter(|p: (Seq<char>, ProxyView)| is_group_kind(p.1.proxy_type)).map_values(
        |p: (Seq<char>, ProxyView)| (p.0, group_of(p.1)),
    )
}

/// Where no key is listed twice, the surfaced groups are the listed proxies
/// of a group kind, in listing order.
pub proof fn lemma_surfaced_groups_of_distinct_keys(proxies: Seq<(Seq<char>, ProxyView)>)
    requires
        keys_distinct(proxies),
    ensures
        surfaced_groups(proxies) == listed_groups(proxies),
    decreases proxies.len(),
{
    reveal(Seq::filter);
    if proxies.len() > 0 {
        let shorter = proxies.drop_last();
        let last = proxies.last();
        lemma_surfaced_groups_of_distinct_keys(shorter);
        if is_group_kind(last.1.proxy_type) {
            lemma_surfaced_groups_come_from_group_kinds(shorter);
            lemma_put_new_key(surfaced_groups(shorter), last.0, group_of(last.1));
        }
    }
}

/// The latest measurement listed under a key: that of the last proxy
/// listed under the key that has a measurement.
pub open spec fn last_measurement(proxies: Seq<(Seq<char>, ProxyView)>, key: Seq<char>) -> Option<
    u32,
>
    decreases proxies.len(),
{
    if proxies.len() == 0 {
        None
    } else if proxies.last().0 == key && latest_delay(proxies.last().1) is Some {
        latest_delay(proxies.last().1)
    } else {
        last_measurement(proxies.drop_last(), key)
    }
}

/// The delay found for a name is the latest measurement listed under it,
/// whatever the kind of the proxy that carries it.
pub proof fn lemma_measured_delays_hold_the_latest(
    proxies: Seq<(Seq<char>, ProxyView)>,
    key: Seq<char>,
)
    ensures
        lookup(measured_delays(proxies), key) == last_measurement(proxies, key),
    decreases proxies.len(),
{
    if proxies.len() > 0 {
        let shorter = proxies.drop_last();
        let last = proxies.last();
        lemma_measured_delays_hold_the_latest(shorter, key);
        match latest_delay(last.1) {
            Some(delay) => {
                lemma_lookup_after_put(measured_delays(shorter), last.0, delay, key);
            },
            None => {},
        }
    }
}

} // verus!
