//! Core of a terminal control panel for a proxy-routing daemon.
//!
//! The library models the daemon's control data (running configuration,
//! proxy groups, latency results, traffic history, local settings) and
//! verifies the logic that an event loop applies to that state:
//! generation-tagged latency probing with staleness filtering, bounded
//! ring buffers for traffic counters, confirm-by-refetch configuration
//! updates, and the decision rules behind every user intent.
//!
//! Network calls, terminal rendering and key handling live outside the
//! library; they feed plain values in and carry request descriptors out.

mod app;
mod config;
mod json;
mod latency;
mod probe;
mod proxies;
mod settings;
mod text;
mod traffic;

pub use app::App;
pub use app::ConfigEntry;
pub use app::EditAction;
pub use app::FetchError;
pub use app::FetchOutcome;
pub use app::Focus;
pub use app::GroupFanout;
pub use app::ProbeRequest;
pub use app::TRAFFIC_HISTORY_CAP;
pub use app::fetch_error_message;
pub use app::lemma_confirm_by_refetch;
pub use config::Config;
pub use config::ConfigPatch;
pub use config::LogLevel;
pub use config::Mode;
pub use config::Tun;
pub use config::log_level_name;
pub use config::log_level_of;
pub use config::mode_name;
pub use config::mode_of;
pub use config::next_log_level;
pub use config::next_mode;
pub use config::parse_config;
pub use config::patch_body;
pub use json::JsonValue;
pub use json::json_to_string;
pub use latency::Classification;
pub use latency::LatencyStatus;
pub use latency::ProbeError;
pub use latency::classify;
pub use probe::GroupProbe;
pub use probe::ProbeState;
pub use probe::lemma_fanout_delivery;
pub use probe::lemma_fanout_isolation;
pub use probe::lemma_settle_seq_shape;
pub use probe::lemma_settlement_order_irrelevant;
pub use probe::lemma_stale_settlement_discarded;
pub use proxies::ProxiesResponse;
pub use proxies::ProxyItem;
pub use proxies::parse_delay;
pub use proxies::parse_item;
pub use proxies::parse_proxies;
pub use proxies::select_proxy_body;
pub use proxies::selector_names;
pub use proxies::sort_names;
pub use settings::AppSettings;
pub use settings::DEFAULT_TEST_TIMEOUT;
pub use settings::default_api_secret;
pub use settings::default_base_url;
pub use settings::default_test_timeout;
pub use settings::default_test_url;
pub use settings::lemma_settings_round_trip;
pub use settings::settings_from_json;
pub use settings::settings_to_json;
pub use text::format_speed;
pub use text::parse_uint;
pub use text::u64_to_string;
pub use traffic::History;
pub use traffic::TrafficMonitor;
pub use traffic::TrafficSample;
pub use traffic::lemma_ring_bound;
pub use traffic::parse_traffic_sample;
pub use traffic::lemma_ring_fifo;
