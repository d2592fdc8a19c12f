//! The shared state snapshot and the decisions of the event loop that
//! owns it.
//!
//! One consumer holds the only mutable reference to an [`App`]; every
//! background operation reports through a channel, and each report is
//! applied here by a method with an exact contract. Network calls and
//! key handling live in the surrounding shell: the methods below hand
//! it request descriptors and take back plain outcomes.

use vstd::prelude::*;

use crate::config::Config;
use crate::config::ConfigPatch;
use crate::config::spec_parse_config;
use crate::config::parse_config;
use crate::config::next_mode;
use crate::config::next_log_level;
use crate::json::JsonValue;
use crate::latency::LatencyStatus;
use crate::probe::GroupProbe;
use crate::probe::ProbeState;
use crate::probe::spec_probe_settle;
use crate::probe::spec_settle_one;
use crate::proxies::ProxyItem;
use crate::proxies::parse_proxies;
use crate::proxies::selector_names;
use crate::proxies::spec_proxies_ok;
use crate::proxies::spec_proxies_entries;
use crate::proxies::spec_item_matches;
use crate::proxies::spec_selector_names;
use crate::proxies::spec_sorted_names;
use crate::proxies::sort_names;
use crate::settings::AppSettings;
use crate::text::spec_dec_digits;
use crate::text::spec_parse_uint;
use crate::text::parse_uint;
use crate::text::u64_to_string;
use crate::text::string_push;
use crate::text::string_pop;
use crate::traffic::TrafficMonitor;
use crate::traffic::TrafficSample;
use crate::traffic::spec_ring_push;

verus! {

/// How many traffic samples each ring buffer holds.
pub const TRAFFIC_HISTORY_CAP: usize = 300;

/// Which pane has keyboard focus.
#[derive(Clone, Copy, Debug, PartialEq, Eq, Structural)]
pub enum Focus {
    Groups,
    Proxies,
    Settings,
}

/// One row of the settings pane: the client's own settings first, then
/// the daemon's editable configuration fields.
#[derive(Clone, Copy, Debug, PartialEq, Eq, Structural)]
pub enum ConfigEntry {
    BaseUrl,
    ApiSecret,
    TestUrl,
    TestTimeout,
    Mode,
    Tun,
    MixedPort,
    LogLevel,
    AllowLan,
    BindAddress,
    Ipv6,
}

/// How a control-API call failed, classified at the call boundary.
#[derive(Clone, Copy, Debug, PartialEq, Eq, Structural)]
pub enum FetchError {
    /// The connection was refused or the host was unreachable.
    Connect,
    /// The request exceeded the client's timeout.
    Timeout,
    /// The daemon answered with a non-success status.
    HttpStatus(u16),
    /// The body was not valid JSON at all.
    Deserialize,
}

/// What one fetch brought back: a parsed body, or a classified failure.
pub type FetchOutcome = Result<JsonValue, FetchError>;

/// The descriptor of a single-target reachability probe for the shell
/// to spawn: the result must come back tagged with `generation`.
pub struct ProbeRequest {
    pub generation: u64,
    pub url: String,
    pub timeout_ms: u64,
}

/// The descriptor of a group fan-out: one independent probe per
/// member, each reporting back under `generation`.
pub struct GroupFanout {
    pub generation: u64,
    pub members: Vec<String>,
}

/// What the shell must do after an edit is committed.
#[derive(Clone, Debug, PartialEq)]
pub enum EditAction {
    /// The edit was invalid or the entry not editable; do nothing.
    Nothing,
    /// Send this patch to the daemon, then refetch the configuration.
    Patch(ConfigPatch),
    /// Persist the settings.
    SaveSettings,
    /// Persist the settings, then refetch proxies and configuration.
    SaveSettingsAndRefetch,
    /// Persist the settings, then retrigger the reachability test.
    SaveSettingsAndTest,
}

/// Wrap-around forward navigation over `len` entries.
pub open spec fn spec_next_index(i: int, len: int) -> int {
    if len <= 0 {
        0
    } else if i + 1 >= len {
        0
    } else {
        i + 1
    }
}

/// Wrap-around backward navigation over `len` entries.
pub open spec fn spec_prev_index(i: int, len: int) -> int {
    if len <= 0 {
        0
    } else if i == 0 {
        len - 1
    } else {
        i - 1
    }
}

/// The first entry under `name`, if any.
pub open spec fn spec_find_item(s: Seq<(String, ProxyItem)>, name: Seq<char>) -> Option<ProxyItem>
    decreases s.len(),
{
    if s.len() == 0 {
        None
    } else if s[0].0@ == name {
        Some(s[0].1)
    } else {
        spec_find_item(s.drop_first(), name)
    }
}

/// The state snapshot owned by the event loop. No other component
/// mutates it; everything a display reads comes from here.
pub struct App {
    /// Proxy entries keyed by response name, in response order.
    pub proxies: Vec<(String, ProxyItem)>,
    /// The last confirmed configuration snapshot, or none before the
    /// first successful fetch.
    pub config: Option<Config>,
    /// The app-wide reachability probe.
    pub latency: ProbeState,
    /// The fan-out probe of the currently inspected group.
    pub group_probe: GroupProbe,
    /// Rolling traffic history.
    pub traffic: TrafficMonitor,
    /// Local client settings.
    pub app_settings: AppSettings,
    /// Names of the selector-kind groups, for display.
    pub group_names: Vec<String>,
    /// Index of the selected group.
    pub group_sel: usize,
    /// Index of the selected member within the selected group.
    pub proxy_sel: usize,
    /// Index of the selected settings row.
    pub settings_sel: usize,
    /// Which pane has focus.
    pub focus: Focus,
    /// The pane to return to when the settings pane closes.
    pub previous_focus: Focus,
    /// Whether the proxy-information popup is open.
    pub show_info_popup: bool,
    /// Scroll offset of the popup.
    pub popup_scroll: u16,
    /// The settings rows, in display order.
    pub settings_items: Vec<ConfigEntry>,
    /// Whether an edit field is open.
    pub is_editing: bool,
    /// The edit field's content.
    pub editing_value: String,
    /// The latest error, if any.
    pub error: Option<String>,
}

impl App {
    /// Structural validity: the traffic rings respect their capacity.
    pub open spec fn wf(&self) -> bool {
        self.traffic.wf()
    }

    /// A fresh store around loaded settings: nothing fetched yet, no
    /// probe triggered, empty history, focus on the group list.
    pub fn new(app_settings: AppSettings) -> (app: App)
        ensures
            app.wf(),
            app.proxies@.len() == 0,
            app.config is None,
            app.latency.generation == 0,
            app.latency.status == LatencyStatus::Pending,
            app.group_probe.generation == 0,
            app.group_probe.results@.len() == 0,
            app.traffic.down@.len() == 0,
            app.traffic.up@.len() == 0,
            app.traffic.down.spec_capacity() == TRAFFIC_HISTORY_CAP,
            app.app_settings == app_settings,
            app.group_names@.len() == 0,
            app.group_sel == 0,
            app.proxy_sel == 0,
            app.settings_sel == 0,
            app.focus == Focus::Groups,
            app.previous_focus == Focus::Groups,
            !app.show_info_popup,
            app.popup_scroll == 0,
            app.settings_items@ =~= seq![
                ConfigEntry::BaseUrl,
                ConfigEntry::ApiSecret,
                ConfigEntry::TestUrl,
                ConfigEntry::TestTimeout,
                ConfigEntry::Mode,
                ConfigEntry::Tun,
                ConfigEntry::MixedPort,
                ConfigEntry::LogLevel,
                ConfigEntry::AllowLan,
                ConfigEntry::BindAddress,
                ConfigEntry::Ipv6,
            ],
            !app.is_editing,
            app.editing_value@.len() == 0,
            app.error is None,
    {
        let mut settings_items: Vec<ConfigEntry> = Vec::new();
        settings_items.push(ConfigEntry::BaseUrl);
        settings_items.push(ConfigEntry::ApiSecret);
        settings_items.push(ConfigEntry::TestUrl);
        settings_items.push(ConfigEntry::TestTimeout);
        settings_items.push(ConfigEntry::Mode);
        settings_items.push(ConfigEntry::Tun);
        settings_items.push(ConfigEntry::MixedPort);
        settings_items.push(ConfigEntry::LogLevel);
        settings_items.push(ConfigEntry::AllowLan);
        settings_items.push(ConfigEntry::BindAddress);
        settings_items.push(ConfigEntry::Ipv6);
        App {
            proxies: Vec::new(),
            config: None,
            latency: ProbeState::new(),
            group_probe: GroupProbe::new(),
            traffic: TrafficMonitor::new(TRAFFIC_HISTORY_CAP),
            app_settings,
            group_names: Vec::new(),
            group_sel: 0,
            proxy_sel: 0,
            settings_sel: 0,
            focus: Focus::Groups,
            previous_focus: Focus::Groups,
            show_info_popup: false,
            popup_scroll: 0,
            settings_items,
            is_editing: false,
            editing_value: String::new(),
            error: None,
        }
    }

    /// Scroll the information popup down, saturating.
    pub fn scroll_popup_down(&mut self)
        ensures
            *final(self) == (App {
                popup_scroll: if old(self).popup_scroll < u16::MAX {
                    (old(self).popup_scroll + 1) as u16
                } else {
                    old(self).popup_scroll
                },
                ..*old(self)
            }),
    {
        if self.popup_scroll < u16::MAX {
            self.popup_scroll = self.popup_scroll + 1;
        }
    }

    /// Scroll the information popup up, saturating.
    pub fn scroll_popup_up(&mut self)
        ensures
            *final(self) == (App {
                popup_scroll: if old(self).popup_scroll > 0 {
                    (old(self).popup_scroll - 1) as u16
                } else {
                    0
                },
                ..*old(self)
            }),
    {
        if self.popup_scroll > 0 {
            self.popup_scroll = self.popup_scroll - 1;
        }
    }

    /// Move the settings selection down, wrapping at the end.
    pub fn next_setting(&mut self)
        ensures
            *final(self) == (App {
                settings_sel: spec_next_index(
                    old(self).settings_sel as int,
                    old(self).settings_items@.len() as int,
                ) as usize,
                ..*old(self)
            }),
    {
        let len = self.settings_items.len();
        self.settings_sel = if len == 0 {
            0
        } else if self.settings_sel >= len - 1 {
            0
        } else {
            self.settings_sel + 1
        };
    }

    /// Move the settings selection up, wrapping at the start.
    pub fn previous_setting(&mut self)
        ensures
            *final(self) == (App {
                settings_sel: spec_prev_index(
                    old(self).settings_sel as int,
                    old(self).settings_items@.len() as int,
                ) as usize,
                ..*old(self)
            }),
    {
        let len = self.settings_items.len();
        self.settings_sel = if len == 0 {
            0
        } else if self.settings_sel == 0 {
            len - 1
        } else {
            self.settings_sel - 1
        };
    }

    /// Move the group selection down, wrapping, and reset the member
    /// selection.
    pub fn next_group(&mut self)
        ensures
            *final(self) == (App {
                group_sel: spec_next_index(
                    old(self).group_sel as int,
                    old(self).group_names@.len() as int,
                ) as usize,
                proxy_sel: 0,
                ..*old(self)
            }),
    {
        let len = self.group_names.len();
        self.group_sel = if len == 0 {
            0
        } else if self.group_sel >= len - 1 {
            0
        } else {
            self.group_sel + 1
        };
        self.proxy_sel = 0;
    }

    /// Move the group selection up, wrapping, and reset the member
    /// selection.
    pub fn previous_group(&mut self)
        ensures
            *final(self) == (App {
                group_sel: spec_prev_index(
                    old(self).group_sel as int,
                    old(self).group_names@.len() as int,
                ) as usize,
                proxy_sel: 0,
                ..*old(self)
            }),
    {
        let len = self.group_names.len();
        self.group_sel = if len == 0 {
            0
        } else if self.group_sel == 0 {
            len - 1
        } else {
            self.group_sel - 1
        };
        self.proxy_sel = 0;
    }

    /// The selected group's name, when the selection is in range.
    pub open spec fn spec_selected_group_name(&self) -> Option<String> {
        if self.group_sel < self.group_names@.len() {
            Some(self.group_names@[self.group_sel as int])
        } else {
            None
        }
    }

    /// The selected group's member list, when the selected group is
    /// known and lists its members.
    pub open spec fn spec_selected_members(&self) -> Option<Seq<String>> {
        match self.spec_selected_group_name() {
            Some(n) => match spec_find_item(self.proxies@, n@) {
                Some(item) => match item.all {
                    Some(list) => Some(list@),
                    None => None,
                },
                None => None,
            },
            None => None,
        }
    }

    /// The selected member's name, when one is selected.
    pub open spec fn spec_selected_proxy_name(&self) -> Option<String> {
        match self.spec_selected_members() {
            Some(ms) => if self.proxy_sel < ms.len() {
                Some(ms[self.proxy_sel as int])
            } else {
                None
            },
            None => None,
        }
    }

    /// The first proxy entry under `name`, if any.
    pub fn find_item<'a>(&'a self, name: &String) -> (r: Option<&'a ProxyItem>)
        ensures
            match r {
                Some(item) => spec_find_item(self.proxies@, name@) == Some(*item),
                None => spec_find_item(self.proxies@, name@) is None,
            },
    {
        let n = self.proxies.len();
        assert(self.proxies@.subrange(0, n as int) =~= self.proxies@);
        for i in 0..n
            invariant
                n == self.proxies@.len(),
                spec_find_item(self.proxies@, name@) == spec_find_item(
                    self.proxies@.subrange(i as int, n as int),
                    name@,
                ),
        {
            assert(self.proxies@.subrange(i as int, n as int)[0] == self.proxies@[i as int]);
            if crate::json::str_eq(&self.proxies[i].0, name.as_str()) {
                return Some(&self.proxies[i].1);
            }
            proof {
                assert(self.proxies@.subrange(i as int, n as int).drop_first()
                    =~= self.proxies@.subrange(i + 1, n as int));
            }
        }
        assert(self.proxies@.subrange(n as int, n as int).len() == 0);
        None
    }

    /// The selected group's name.
    pub fn get_selected_group_name(&self) -> (r: Option<&String>)
        ensures
            match r {
                Some(n) => self.spec_selected_group_name() == Some(*n),
                None => self.spec_selected_group_name() is None,
            },
    {
        if self.group_sel < self.group_names.len() {
            Some(&self.group_names[self.group_sel])
        } else {
            None
        }
    }

    /// The selected member's name.
    pub fn get_selected_proxy_name(&self) -> (r: Option<String>)
        ensures
            r == self.spec_selected_proxy_name(),
    {
        let group_name = match self.get_selected_group_name() {
            Some(n) => n,
            None => {
                return None;
            },
        };
        let item = match self.find_item(group_name) {
            Some(item) => item,
            None => {
                return None;
            },
        };
        match &item.all {
            Some(all) => {
                if self.proxy_sel < all.len() {
                    Some(all[self.proxy_sel].clone())
                } else {
                    None
                }
            },
            None => None,
        }
    }

    /// Move the member selection down, wrapping, when the selected
    /// group lists members; otherwise change nothing.
    pub fn next_proxy(&mut self)
        ensures
            match old(self).spec_selected_members() {
                Some(ms) => *final(self) == (App {
                    proxy_sel: spec_next_index(old(self).proxy_sel as int, ms.len() as int)
                        as usize,
                    ..*old(self)
                }),
                None => *final(self) == *old(self),
            },
    {
        let len = match self.member_count() {
            Some(len) => len,
            None => {
                return ;
            },
        };
        self.proxy_sel = if len == 0 {
            0
        } else if self.proxy_sel >= len - 1 {
            0
        } else {
            self.proxy_sel + 1
        };
    }

    /// Move the member selection up, wrapping, when the selected group
    /// lists members; otherwise change nothing.
    pub fn previous_proxy(&mut self)
        ensures
            match old(self).spec_selected_members() {
                Some(ms) => *final(self) == (App {
                    proxy_sel: spec_prev_index(old(self).proxy_sel as int, ms.len() as int)
                        as usize,
                    ..*old(self)
                }),
                None => *final(self) == *old(self),
            },
    {
        let len = match self.member_count() {
            Some(len) => len,
            None => {
                return ;
            },
        };
        self.proxy_sel = if len == 0 {
            0
        } else if self.proxy_sel == 0 {
            len - 1
        } else {
            self.proxy_sel - 1
        };
    }

    /// How many members the selected group lists, if it lists any.
    fn member_count(&self) -> (r: Option<usize>)
        ensures
            match r {
                Some(n) => match self.spec_selected_members() {
                    Some(ms) => n == ms.len(),
                    None => false,
                },
                None => self.spec_selected_members() is None,
            },
    {
        let group_name = match self.get_selected_group_name() {
            Some(n) => n,
            None => {
                return None;
            },
        };
        let item = match self.find_item(group_name) {
            Some(item) => item,
            None => {
                return None;
            },
        };
        match &item.all {
            Some(all) => Some(all.len()),
            None => None,
        }
    }
}

/// The error line shown for a classified fetch failure.
pub open spec fn spec_fetch_error_message(e: FetchError) -> Seq<char> {
    match e {
        FetchError::Connect => "Failed to connect"@,
        FetchError::Timeout => "Request timed out"@,
        FetchError::HttpStatus(code) => "Server returned error: "@ + spec_dec_digits(code as int),
        FetchError::Deserialize => "Failed to parse JSON"@,
    }
}

/// Render the error line for a classified fetch failure.
pub fn fetch_error_message(e: &FetchError) -> (r: String)
    ensures
        r@ == spec_fetch_error_message(*e),
{
    match e {
        FetchError::Connect => String::from_str("Failed to connect"),
        FetchError::Timeout => String::from_str("Request timed out"),
        FetchError::HttpStatus(code) => String::from_str("Server returned error: ").concat(
            u64_to_string(*code as u64).as_str(),
        ),
        FetchError::Deserialize => String::from_str("Failed to parse JSON"),
    }
}

/// The configuration the store holds after a fetch outcome is applied:
/// a parsed body replaces the snapshot wholesale, anything else leaves
/// the previous snapshot in place.
pub open spec fn spec_config_after_fetch(
    before: Option<Config>,
    outcome: FetchOutcome,
) -> Option<Config> {
    match outcome {
        Ok(body) => match spec_parse_config(body) {
            Some(c) => Some(c),
            None => before,
        },
        Err(_) => before,
    }
}

impl App {
    /// Apply a settlement of the app-wide reachability probe. A result
    /// from a superseded generation is discarded silently.
    pub fn apply_latency_result(&mut self, generation: u64, result: LatencyStatus)
        ensures
            *final(self) == (App {
                latency: spec_probe_settle(old(self).latency, generation, result),
                ..*old(self)
            }),
    {
        self.latency.settle(generation, result);
    }

    /// Apply one member's settlement of the group fan-out. A stale
    /// generation is discarded; a current one lands on that member
    /// alone.
    pub fn apply_member_result(&mut self, generation: u64, name: &String, result: LatencyStatus)
        ensures
            *final(self) == (App { group_probe: final(self).group_probe, ..*old(self) }),
            final(self).group_probe.generation == old(self).group_probe.generation,
            generation == old(self).group_probe.generation ==> final(self).group_probe.results@
                == spec_settle_one(old(self).group_probe.results@, name@, result),
            generation != old(self).group_probe.generation ==> final(self).group_probe.results@
                == old(self).group_probe.results@,
    {
        self.group_probe.settle_member(generation, name, result);
    }

    /// Ingest one traffic sample into the rolling history.
    pub fn on_traffic(&mut self, sample: TrafficSample)
        requires
            old(self).wf(),
        ensures
            final(self).wf(),
            *final(self) == (App { traffic: final(self).traffic, ..*old(self) }),
            final(self).traffic.down.spec_capacity() == old(self).traffic.down.spec_capacity(),
            final(self).traffic.down@ == spec_ring_push(
                old(self).traffic.down@,
                old(self).traffic.down.spec_capacity(),
                sample.down,
            ),
            final(self).traffic.up@ == spec_ring_push(
                old(self).traffic.up@,
                old(self).traffic.up.spec_capacity(),
                sample.up,
            ),
            final(self).traffic.current_down == sample.down,
            final(self).traffic.current_up == sample.up,
    {
        self.traffic.on_sample(sample);
    }

    /// Start a new app-wide reachability test: the probe generation
    /// grows and the target shows as testing. The returned descriptor
    /// tells the shell what to probe and under which generation to
    /// report back.
    pub fn trigger_latency_test(&mut self) -> (req: ProbeRequest)
        requires
            old(self).latency.generation < u64::MAX,
        ensures
            *final(self) == (App {
                latency: ProbeState {
                    generation: (old(self).latency.generation + 1) as u64,
                    status: LatencyStatus::Testing,
                },
                ..*old(self)
            }),
            req.generation == old(self).latency.generation + 1,
            req.url == old(self).app_settings.test_url,
            req.timeout_ms == old(self).app_settings.test_timeout,
    {
        let generation = self.latency.trigger();
        ProbeRequest {
            generation,
            url: self.app_settings.test_url.clone(),
            timeout_ms: self.app_settings.test_timeout,
        }
    }

    /// Start a fan-out test over the selected group's members, when
    /// the selection names a group with a member list: every member
    /// shows as testing under the new generation. Without such a group
    /// nothing changes.
    pub fn trigger_group_latency_test(&mut self) -> (req: Option<GroupFanout>)
        requires
            old(self).group_probe.generation < u64::MAX,
        ensures
            match old(self).spec_selected_members() {
                Some(ms) => {
                    &&& *final(self) == (App {
                        group_probe: final(self).group_probe,
                        ..*old(self)
                    })
                    &&& final(self).group_probe.generation == old(self).group_probe.generation
                        + 1
                    &&& final(self).group_probe.results@.len() == ms.len()
                    &&& forall|i: int|
                        0 <= i < ms.len() ==> final(self).group_probe.results@[i] == (
                        ms[i],
                        LatencyStatus::Testing,
                        )
                    &&& match req {
                        Some(f) => f.generation == final(self).group_probe.generation
                            && f.members@ == ms,
                        None => false,
                    }
                },
                None => *final(self) == *old(self) && req is None,
            },
    {
        let members: Vec<String> = {
            let group_name = match self.get_selected_group_name() {
                Some(n) => n,
                None => {
                    return None;
                },
            };
            let item = match self.find_item(group_name) {
                Some(item) => item,
                None => {
                    return None;
                },
            };
            match &item.all {
                Some(all) => all.clone(),
                None => {
                    return None;
                },
            }
        };
        let generation = self.group_probe.trigger(&members);
        Some(GroupFanout { generation, members })
    }

    /// Apply the outcome of a proxies fetch. A parsed response
    /// replaces the whole map and the selector-name list and clears
    /// the error; any failure leaves the previous data in place and
    /// records a classified error line.
    pub fn apply_proxies_outcome(&mut self, outcome: FetchOutcome)
        ensures
            *final(self) == (App {
                proxies: final(self).proxies,
                group_names: final(self).group_names,
                error: final(self).error,
                ..*old(self)
            }),
            match outcome {
                Ok(body) => if spec_proxies_ok(body) {
                    &&& final(self).proxies@.len() == spec_proxies_entries(body).len()
                    &&& forall|i: int|
                        0 <= i < final(self).proxies@.len() ==> (#[trigger] final(self).proxies@[i]).0
                            == spec_proxies_entries(body)[i].0 && spec_item_matches(
                            spec_proxies_entries(body)[i].1,
                            final(self).proxies@[i].1,
                        )
                    &&& final(self).group_names@.to_multiset() == spec_selector_names(
                        final(self).proxies@,
                    ).to_multiset()
                    &&& spec_sorted_names(final(self).group_names@)
                    &&& final(self).error is None
                } else {
                    &&& final(self).proxies@ == old(self).proxies@
                    &&& final(self).group_names@ == old(self).group_names@
                    &&& match final(self).error {
                        Some(m) => m@ == spec_fetch_error_message(FetchError::Deserialize),
                        None => false,
                    }
                },
                Err(e) => {
                    &&& final(self).proxies@ == old(self).proxies@
                    &&& final(self).group_names@ == old(self).group_names@
                    &&& match final(self).error {
                        Some(m) => m@ == spec_fetch_error_message(e),
                        None => false,
                    }
                },
            },
    {
        match outcome {
            Ok(body) => match parse_proxies(&body) {
                Some(resp) => {
                    let mut names = selector_names(&resp.proxies);
                    sort_names(&mut names);
                    self.group_names = names;
                    self.proxies = resp.proxies;
                    self.error = None;
                },
                None => {
                    self.error = Some(fetch_error_message(&FetchError::Deserialize));
                },
            },
            Err(e) => {
                self.error = Some(fetch_error_message(&e));
            },
        }
    }

    /// Apply the outcome of a configuration fetch: a parsed snapshot
    /// replaces the old one wholesale and clears the error; any failure
    /// leaves the previous snapshot in place (or the not-yet-loaded
    /// state at startup) and records a classified error line.
    pub fn apply_config_outcome(&mut self, outcome: FetchOutcome)
        ensures
            *final(self) == (App {
                config: final(self).config,
                error: final(self).error,
                ..*old(self)
            }),
            final(self).config == spec_config_after_fetch(old(self).config, outcome),
            match outcome {
                Ok(body) => if spec_parse_config(body) is Some {
                    final(self).error is None
                } else {
                    match final(self).error {
                        Some(m) => m@ == spec_fetch_error_message(FetchError::Deserialize),
                        None => false,
                    }
                },
                Err(e) => match final(self).error {
                    Some(m) => m@ == spec_fetch_error_message(e),
                    None => false,
                },
            },
    {
        match outcome {
            Ok(body) => {
                match parse_config(&body) {
                    Some(c) => {
                        self.config = Some(c);
                        self.error = None;
                    },
                    None => {
                        self.error = Some(fetch_error_message(&FetchError::Deserialize));
                    },
                }
            },
            Err(e) => {
                self.error = Some(fetch_error_message(&e));
            },
        }
    }

    /// The request to change the daemon's selection to the member the
    /// panel has selected, when both a group and a member are
    /// selected. The shell sends it and then refetches the proxies to
    /// observe the authoritative selection.
    pub fn select_proxy_request(&self) -> (r: Option<(String, String)>)
        ensures
            match (self.spec_selected_group_name(), self.spec_selected_proxy_name()) {
                (Some(g), Some(p)) => r == Some((g, p)),
                _ => r is None,
            },
    {
        let group = match self.get_selected_group_name() {
            Some(g) => g.clone(),
            None => {
                return None;
            },
        };
        match self.get_selected_proxy_name() {
            Some(p) => Some((group, p)),
            None => None,
        }
    }

    /// The selected settings row, when the selection is in range.
    pub open spec fn spec_entry_at(&self) -> Option<ConfigEntry> {
        if self.settings_sel < self.settings_items@.len() {
            Some(self.settings_items@[self.settings_sel as int])
        } else {
            None
        }
    }

    /// Whether a settings row opens an edit field (the rest cycle or
    /// toggle in place).
    pub open spec fn spec_is_editable(e: ConfigEntry) -> bool {
        match e {
            ConfigEntry::BaseUrl => true,
            ConfigEntry::ApiSecret => true,
            ConfigEntry::TestUrl => true,
            ConfigEntry::TestTimeout => true,
            ConfigEntry::MixedPort => true,
            ConfigEntry::BindAddress => true,
            _ => false,
        }
    }

    /// What an opening edit field is prefilled with: the client's own
    /// settings always prefill; the daemon's fields prefill from the
    /// snapshot and keep the previous buffer while none is loaded.
    pub open spec fn spec_edit_prefill(&self, e: ConfigEntry) -> Option<Seq<char>> {
        match e {
            ConfigEntry::BaseUrl => Some(self.app_settings.base_url@),
            ConfigEntry::ApiSecret => Some(self.app_settings.api_secret@),
            ConfigEntry::TestUrl => Some(self.app_settings.test_url@),
            ConfigEntry::TestTimeout => Some(spec_dec_digits(self.app_settings.test_timeout as int)),
            ConfigEntry::MixedPort => match self.config {
                Some(c) => Some(spec_dec_digits(c.mixed_port as int)),
                None => None,
            },
            ConfigEntry::BindAddress => match self.config {
                Some(c) => Some(c.bind_address@),
                None => None,
            },
            _ => None,
        }
    }

    /// Open the edit field for the selected settings row, when that
    /// row is editable: the buffer is prefilled from the value being
    /// edited. Returns whether editing began.
    pub fn begin_edit(&mut self) -> (started: bool)
        ensures
            match old(self).spec_entry_at() {
                Some(e) => if App::spec_is_editable(e) {
                    &&& started
                    &&& *final(self) == (App {
                        is_editing: true,
                        editing_value: final(self).editing_value,
                        ..*old(self)
                    })
                    &&& match old(self).spec_edit_prefill(e) {
                        Some(v) => final(self).editing_value@ == v,
                        None => final(self).editing_value@ == old(self).editing_value@,
                    }
                } else {
                    !started && *final(self) == *old(self)
                },
                None => !started && *final(self) == *old(self),
            },
    {
        let e = if self.settings_sel < self.settings_items.len() {
            self.settings_items[self.settings_sel]
        } else {
            return false;
        };
        match e {
            ConfigEntry::BaseUrl => {
                self.editing_value = self.app_settings.base_url.clone();
                self.is_editing = true;
                true
            },
            ConfigEntry::ApiSecret => {
                self.editing_value = self.app_settings.api_secret.clone();
                self.is_editing = true;
                true
            },
            ConfigEntry::TestUrl => {
                self.editing_value = self.app_settings.test_url.clone();
                self.is_editing = true;
                true
            },
            ConfigEntry::TestTimeout => {
                self.editing_value = u64_to_string(self.app_settings.test_timeout);
                self.is_editing = true;
                true
            },
            ConfigEntry::MixedPort => {
                match &self.config {
                    Some(c) => {
                        self.editing_value = u64_to_string(c.mixed_port as u64);
                    },
                    None => {
                    },
                }
                self.is_editing = true;
                true
            },
            ConfigEntry::BindAddress => {
                match &self.config {
                    Some(c) => {
                        self.editing_value = c.bind_address.clone();
                    },
                    None => {
                    },
                }
                self.is_editing = true;
                true
            },
            _ => false,
        }
    }

    /// Append one typed character to the edit buffer.
    pub fn edit_push(&mut self, c: char)
        ensures
            *final(self) == (App { editing_value: final(self).editing_value, ..*old(self) }),
            final(self).editing_value@ == old(self).editing_value@.push(c),
    {
        string_push(&mut self.editing_value, c);
    }

    /// Erase the last character of the edit buffer, if any.
    pub fn edit_pop(&mut self)
        ensures
            *final(self) == (App { editing_value: final(self).editing_value, ..*old(self) }),
            old(self).editing_value@.len() == 0 ==> final(self).editing_value@ == old(
                self,
            ).editing_value@,
            old(self).editing_value@.len() > 0 ==> final(self).editing_value@ == old(
                self,
            ).editing_value@.drop_last(),
    {
        let _ = string_pop(&mut self.editing_value);
    }

    /// Close the edit field without committing.
    pub fn cancel_edit(&mut self)
        ensures
            *final(self) == (App { is_editing: false, ..*old(self) }),
    {
        self.is_editing = false;
    }

    /// The action a cycle-or-toggle settings row performs, computed
    /// from the confirmed snapshot: a patch to send, never a local
    /// mutation of the snapshot. While no snapshot is loaded, nothing
    /// happens.
    pub fn handle_setting_change(&self, entry: ConfigEntry) -> (r: Option<ConfigPatch>)
        ensures
            match self.config {
                Some(c) => match entry {
                    ConfigEntry::Mode => match r {
                        Some(ConfigPatch::Mode(m)) => m == crate::config::spec_cycled_mode(
                            c.mode,
                        ),
                        _ => false,
                    },
                    ConfigEntry::Tun => r == Some(ConfigPatch::TunEnable(!c.tun.enable)),
                    ConfigEntry::LogLevel => match r {
                        Some(ConfigPatch::LogLevel(l)) => l
                            == crate::config::spec_cycled_log_level(c.log_level),
                        _ => false,
                    },
                    ConfigEntry::AllowLan => r == Some(ConfigPatch::AllowLan(!c.allow_lan)),
                    ConfigEntry::Ipv6 => r == Some(ConfigPatch::Ipv6(!c.ipv6)),
                    _ => r is None,
                },
                None => r is None,
            },
    {
        let c = match &self.config {
            Some(c) => c,
            None => {
                return None;
            },
        };
        match entry {
            ConfigEntry::Mode => Some(ConfigPatch::Mode(next_mode(c.mode))),
            ConfigEntry::Tun => Some(ConfigPatch::TunEnable(!c.tun.enable)),
            ConfigEntry::LogLevel => Some(ConfigPatch::LogLevel(next_log_level(c.log_level))),
            ConfigEntry::AllowLan => Some(ConfigPatch::AllowLan(!c.allow_lan)),
            ConfigEntry::Ipv6 => Some(ConfigPatch::Ipv6(!c.ipv6)),
            _ => None,
        }
    }

    /// Commit the edit field: local settings are updated in place (the
    /// daemon has no say over them), daemon fields become a patch for
    /// the shell to send and confirm by refetch. An unparsable number
    /// commits nothing. The edit field closes either way, and the
    /// confirmed snapshot is never touched here.
    pub fn commit_edit(&mut self) -> (action: EditAction)
        ensures
            final(self).config == old(self).config,
            !final(self).is_editing,
            match old(self).spec_entry_at() {
                Some(e) => match e {
                    ConfigEntry::MixedPort => match spec_parse_uint(
                        old(self).editing_value@,
                        0xffff,
                    ) {
                        Some(p) => *final(self) == (App { is_editing: false, ..*old(self) })
                            && (action matches EditAction::Patch(ConfigPatch::MixedPort(q))
                            && q == p as u16),
                        None => *final(self) == (App { is_editing: false, ..*old(self) }) && (
                        action matches EditAction::Nothing),
                    },
                    ConfigEntry::BindAddress => *final(self) == (App {
                        is_editing: false,
                        ..*old(self)
                    }) && (action matches EditAction::Patch(ConfigPatch::BindAddress(a)) && a@
                        == old(self).editing_value@),
                    ConfigEntry::BaseUrl => *final(self) == (App {
                        is_editing: false,
                        app_settings: final(self).app_settings,
                        ..*old(self)
                    }) && final(self).app_settings == (AppSettings {
                        base_url: final(self).app_settings.base_url,
                        ..old(self).app_settings
                    }) && final(self).app_settings.base_url@ == old(self).editing_value@ && (
                    action matches EditAction::SaveSettingsAndRefetch),
                    ConfigEntry::ApiSecret => *final(self) == (App {
                        is_editing: false,
                        app_settings: final(self).app_settings,
                        ..*old(self)
                    }) && final(self).app_settings == (AppSettings {
                        api_secret: final(self).app_settings.api_secret,
                        ..old(self).app_settings
                    }) && final(self).app_settings.api_secret@ == old(self).editing_value@ && (
                    action matches EditAction::SaveSettingsAndRefetch),
                    ConfigEntry::TestUrl => *final(self) == (App {
                        is_editing: false,
                        app_settings: final(self).app_settings,
                        ..*old(self)
                    }) && final(self).app_settings == (AppSettings {
                        test_url: final(self).app_settings.test_url,
                        ..old(self).app_settings
                    }) && final(self).app_settings.test_url@ == old(self).editing_value@ && (
                    action matches EditAction::SaveSettingsAndTest),
                    ConfigEntry::TestTimeout => match spec_parse_uint(
                        old(self).editing_value@,
                        u64::MAX as int,
                    ) {
                        Some(t) => *final(self) == (App {
                            is_editing: false,
                            app_settings: final(self).app_settings,
                            ..*old(self)
                        }) && final(self).app_settings == (AppSettings {
                            test_timeout: t,
                            ..old(self).app_settings
                        }) && (action matches EditAction::SaveSettings),
                        None => *final(self) == (App { is_editing: false, ..*old(self) }) && (
                        action matches EditAction::Nothing),
                    },
                    _ => *final(self) == (App { is_editing: false, ..*old(self) }) && (action
                        matches EditAction::Nothing),
                },
                None => *final(self) == (App { is_editing: false, ..*old(self) }) && (action
                    matches EditAction::Nothing),
            },
    {
        self.is_editing = false;
        let e = if self.settings_sel < self.settings_items.len() {
            self.settings_items[self.settings_sel]
        } else {
            return EditAction::Nothing;
        };
        match e {
            ConfigEntry::MixedPort => {
                match parse_uint(self.editing_value.as_str(), 0xffff) {
                    Some(p) => EditAction::Patch(ConfigPatch::MixedPort(p as u16)),
                    None => EditAction::Nothing,
                }
            },
            ConfigEntry::BindAddress => {
                EditAction::Patch(ConfigPatch::BindAddress(self.editing_value.clone()))
            },
            ConfigEntry::BaseUrl => {
                self.app_settings.base_url = self.editing_value.clone();
                EditAction::SaveSettingsAndRefetch
            },
            ConfigEntry::ApiSecret => {
                self.app_settings.api_secret = self.editing_value.clone();
                EditAction::SaveSettingsAndRefetch
            },
            ConfigEntry::TestUrl => {
                self.app_settings.test_url = self.editing_value.clone();
                EditAction::SaveSettingsAndTest
            },
            ConfigEntry::TestTimeout => {
                match parse_uint(self.editing_value.as_str(), u64::MAX) {
                    Some(t) => {
                        self.app_settings.test_timeout = t;
                        EditAction::SaveSettings
                    },
                    None => EditAction::Nothing,
                }
            },
            _ => EditAction::Nothing,
        }
    }
}

/// Confirm by refetch: once the refetch that must follow a successful
/// patch brings back a body that parses to a snapshot, the store holds
/// exactly that snapshot — never a client-side guess. Together with
/// the contracts of [`App::handle_setting_change`] and
/// [`App::commit_edit`], which leave the snapshot untouched, this is
/// the whole patch-then-confirm discipline: only
/// [`App::apply_config_outcome`] ever replaces the snapshot.
pub proof fn lemma_confirm_by_refetch(
    before: Option<Config>,
    body: JsonValue,
    fetched: Config,
)
    requires
        spec_parse_config(body) == Some(fetched),
    ensures
        spec_config_after_fetch(before, Ok(body)) == Some(fetched),
{
}

} // verus!

