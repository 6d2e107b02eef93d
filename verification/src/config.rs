//! The settings of one run, and their defaults.

use vstd::prelude::*;

verus! {

/// The settings of one run. They do not change while the loop runs.
#[derive(Debug, PartialEq, Eq)]
pub struct Config {
    /// The base address of the proxy manager's control API.
    pub clash_api_url: String,
    /// The API secret; empty when the backend asks for none.
    pub clash_secret: String,
    /// The groups to show; empty to show all.
    pub proxy_groups: Vec<String>,
    pub refresh_interval_secs: u64,
    pub delay_test_group: String,
    pub delay_test_url: String,
    /// The time the backend may take for one latency test, in milliseconds.
    pub delay_test_timeout: u32,
    /// Delays below this many milliseconds are green.
    pub delay_green_threshold: u32,
    /// Delays below this many milliseconds, and not green, are yellow.
    pub delay_yellow_threshold: u32,
}

/// The mathematical content of a [`Config`].
pub struct ConfigView {
    pub clash_api_url: Seq<char>,
    pub clash_secret: Seq<char>,
    pub proxy_groups: Seq<Seq<char>>,
    pub refresh_interval_secs: u64,
    pub delay_test_group: Seq<char>,
    pub delay_test_url: Seq<char>,
    pub delay_test_timeout: u32,
    pub delay_green_threshold: u32,
    pub delay_yellow_threshold: u32,
}

impl View for Config {
    type V = ConfigView;

    open spec fn view(&self) -> ConfigView {
        ConfigView {
            clash_api_url: self.clash_api_url@,
            clash_secret: self.clash_secret@,
            proxy_groups: self.proxy_groups.deep_view(),
            refresh_interval_secs: self.refresh_interval_secs,
            delay_test_group: self.delay_test_group@,
            delay_test_url: self.delay_test_url@,
            delay_test_timeout: self.delay_test_timeout,
            delay_green_threshold: self.delay_green_threshold,
            delay_yellow_threshold: self.delay_yellow_threshold,
        }
    }
}

/// The settings that hold where the user has set nothing.
pub open spec fn default_config() -> ConfigView {
    ConfigView {
        clash_api_url: "http://127.0.0.1:9090"@,
        clash_secret: Seq::empty(),
        proxy_groups: seq!["PROXY"@],
        refresh_interval_secs: 30,
        delay_test_group: "all"@,
        delay_test_url: "https://www.gstatic.com/generate_204"@,
        delay_test_timeout: 5000,
        delay_green_threshold: 150,
        delay_yellow_threshold: 400,
    }
}

pub fn default_clash_api_url() -> (url: String)
    ensures
        url@ == default_config().clash_api_url,
{
    String::from_str("http://127.0.0.1:9090")
}

pub fn default_clash_secret() -> (secret: String)
    ensures
        secret@ == default_config().clash_secret,
{
    String::new()
}

pub fn default_proxy_groups() -> (groups: Vec<String>)
    ensures
        groups.deep_view() == default_config().proxy_groups,
{
    let mut groups: Vec<String> = Vec::new();
    groups.push(String::from_str("PROXY"));
    groups
}

pub fn default_refresh_interval() -> (secs: u64)
    ensures
        secs == default_config().refresh_interval_secs,
{
    30
}

pub fn default_delay_test_group() -> (group: String)
    ensures
        group@ == default_config().delay_test_group,
{
    String::from_str("all")
}

pub fn default_delay_test_url() -> (url: String)
    ensures
        url@ == default_config().delay_test_url,
{
    String::from_str("https://www.gstatic.com/generate_204")
}

pub fn default_delay_test_timeout() -> (millis: u32)
    ensures
        millis == default_config().delay_test_timeout,
{
    5000
}

pub fn default_delay_green_threshold() -> (millis: u32)
    ensures
        millis == default_config().delay_green_threshold,
{
    150
}

pub fn default_delay_yellow_threshold() -> (millis: u32)
    ensures
        millis == default_config().delay_yellow_threshold,
{
    400
}

impl Default for Config {
    fn default() -> (config: Config)
        ensures
            config@ == default_config(),
    {
        Config {
            clash_api_url: default_clash_api_url(),
            clash_secret: default_clash_secret(),
            proxy_groups: default_proxy_groups(),
            refresh_interval_secs: default_refresh_interval(),
            delay_test_group: default_delay_test_group(),
            delay_test_url: default_delay_test_url(),
            delay_test_timeout: default_delay_test_timeout(),
            delay_green_threshold: default_delay_green_threshold(),
            delay_yellow_threshold: default_delay_yellow_threshold(),
        }
    }
}

} // verus!
