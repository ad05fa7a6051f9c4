use osdep::boot::{
    boot_net_step, boot_step, booted_after, rng_seed, station_settings, wrapper_step, BootAction,
    BootPhase, BootView, NetAction, NetPhase, StationAuth, WifiAction, WifiState, WrapperAction,
    WriteOnce, PEER_POLL_NS,
    RECONNECT_BACKOFF_NS, SCAN_MAX_RESULTS, SHORT_POLL_NS,
};
use osdep::log_filter::{admits, contains, path_admits, record_line, starts_with, Core};
use osdep::memory::{
    external_target, start_other_tracing, start_tracing, stop_other_tracing, stop_tracing,
    HeapTarget, Heaps, PSRAMTracingAlloc,
};
use osdep::storage::{
    flag_from_value, flag_value, get_emergency_poweroff, set_emergency_poweroff,
    was_emergency_poweroff, KvStore, EMERGENCY_KEY,
};

#[test]
fn emergency_flag_round_trip() {
    let mut store = KvStore::new();
    assert!(!was_emergency_poweroff(&store));
    set_emergency_poweroff(&mut store, true);
    assert!(was_emergency_poweroff(&store));
    set_emergency_poweroff(&mut store, false);
    assert!(!was_emergency_poweroff(&store));
    assert_eq!(store.get_key(EMERGENCY_KEY).as_deref(), Some("0"));
}

#[test]
fn emergency_flag_reads_only_one_as_set() {
    assert!(flag_from_value(Some("1")));
    assert!(!flag_from_value(Some("0")));
    assert!(!flag_from_value(Some("11")));
    assert!(!flag_from_value(Some("")));
    assert!(!flag_from_value(None));
    assert_eq!(flag_value(true), "1");
    assert_eq!(flag_value(false), "0");
}

#[test]
fn synchronous_emergency_accessor_is_false() {
    let mut store = KvStore::new();
    set_emergency_poweroff(&mut store, true);
    assert!(!get_emergency_poweroff());
}

#[test]
fn store_replaces_and_keeps_other_keys() {
    let mut store = KvStore::new();
    assert_eq!(store.get_key("a"), None);
    store.put_key("a", "one");
    store.put_key("b", "two");
    store.put_key("a", "three");
    assert_eq!(store.get_key("a").as_deref(), Some("three"));
    assert_eq!(store.get_key("b").as_deref(), Some("two"));
    assert_eq!(store.get_key("c"), None);
}

#[test]
fn filter_admits_own_and_psram_modules() {
    assert!(path_admits("xapi"));
    assert!(path_admits("xapi::net::client"));
    assert!(path_admits("esp_hal::psram::raw"));
    assert!(path_admits("mypsram"));
    assert!(!path_admits("esp_hal::gpio"));
    assert!(!path_admits("app::xapi"));
    assert!(!path_admits(""));
    assert!(!path_admits("xap"));
}

#[test]
fn filter_drops_the_os_adapter() {
    assert!(!path_admits("xapi::esp_radio::wifi::os_adapter"));
    assert!(!path_admits("psram::esp_radio::wifi::os_adapter::inner"));
    assert!(!admits(Some("xapi::esp_radio::wifi::os_adapter"), "coex", false));
    assert!(admits(Some("xapi::esp_radio::wifi::os_adapter"), "coex on", true));
    assert!(admits(Some("xapi::esp_radio::wifi::os_adapter"), "wifi_int_disable", true));
    assert!(admits(Some("xapi::esp_radio::wifi::os_adapter"), "x wifi_int_restore", true));
    assert!(!admits(Some("xapi::esp_radio::wifi::os_adapter"), "other", true));
}

#[test]
fn filter_drops_records_without_module() {
    assert!(!admits(None, "anything", false));
    assert!(!admits(None, "coex", true));
    assert!(admits(Some("xapi::boot"), "hello", false));
    assert!(!admits(Some("smoltcp::iface"), "hello", false));
}

#[test]
fn text_search_helpers() {
    assert!(starts_with("xapi::a", "xapi"));
    assert!(!starts_with("xa", "xapi"));
    assert!(starts_with("abc", ""));
    assert!(contains("abc", ""));
    assert!(contains("a psram b", "psram"));
    assert!(!contains("psra", "psram"));
    assert!(contains("psram", "psram"));
}

#[test]
fn record_line_format() {
    assert_eq!(
        record_line(Core::Pro, "xapi::net", "INFO", "up"),
        "cpu=0 xapi::net: INFO - up"
    );
    assert_eq!(
        record_line(Core::App, "esp_hal::psram", "WARN", "slow"),
        "cpu=1 esp_hal::psram: WARN - slow"
    );
}

#[test]
fn tracing_toggles_are_independent() {
    let mut h = Heaps::new();
    assert!(!h.internal.is_tracing());
    assert!(!h.external.is_tracing());
    start_tracing(&mut h);
    assert!(h.internal.is_tracing());
    assert!(!h.external.is_tracing());
    start_other_tracing(&mut h);
    assert!(h.external.is_tracing());
    stop_tracing(&mut h);
    assert!(!h.internal.is_tracing());
    assert!(h.external.is_tracing());
    stop_other_tracing(&mut h);
    assert!(!h.external.is_tracing());
}

#[test]
fn psram_allocator_copies_carry_the_flag() {
    let mut a = PSRAMTracingAlloc::default();
    assert!(!a.is_tracing());
    a.start_tracing();
    let b = a.duplicate();
    assert!(b.is_tracing());
    a.stop_tracing();
    assert!(b.is_tracing());
    assert!(!a.is_tracing());
}

#[test]
fn external_allocations_route_by_mode() {
    assert!(external_target(true) == HeapTarget::Internal);
    assert!(external_target(false) == HeapTarget::External);
}

#[test]
fn seed_takes_first_draw_as_high_half() {
    assert_eq!(rng_seed(1, 2), 0x0000_0001_0000_0002);
    assert_eq!(rng_seed(0xdead_beef, 0xffff_ffff), 0xdead_beef_ffff_ffff);
    assert_eq!(rng_seed(0, 0), 0);
}

#[test]
fn reconnect_after_station_disconnected() {
    let booted = true;
    let mut s = WifiState::Connected;
    assert!(
        s.action()
            == WifiAction::AwaitDisconnect {
                backoff_ns: RECONNECT_BACKOFF_NS
            }
    );
    let mut seen = vec![s];
    for _ in 0..5 {
        s = s.next(true);
        seen.push(s);
    }
    assert!(
        seen == vec![
            WifiState::Connected,
            WifiState::Idle,
            WifiState::Started,
            WifiState::Scanning,
            WifiState::Connecting,
            WifiState::Connected,
        ]
    );
    assert!(WifiState::Started.action() == WifiAction::Scan { max: SCAN_MAX_RESULTS });
    assert!(booted);
}

#[test]
fn failed_connect_recovers_to_idle() {
    let s = WifiState::Connecting.next(false);
    assert!(s == WifiState::Disconnected);
    assert!(
        s.action()
            == WifiAction::Recover {
                backoff_ns: 5_000_000_000
            }
    );
    assert!(s.next(true) == WifiState::Idle);
    assert!(
        WifiState::Idle.action()
            == WifiAction::StartStation {
                auth: StationAuth::WpaWpa2Personal
            }
    );
}

#[test]
fn station_settings_carry_the_credentials() {
    let cfg = station_settings(StationAuth::WpaWpa2Personal, "home-net", "s3cret");
    assert!(cfg.auth == StationAuth::WpaWpa2Personal);
    assert_eq!(cfg.ssid, "home-net");
    assert_eq!(cfg.password, "s3cret");
}

#[test]
fn booted_is_only_ever_set() {
    assert!(booted_after(NetAction::SetBooted, false));
    assert!(!booted_after(NetAction::Wait { ns: SHORT_POLL_NS }, false));
    assert!(booted_after(NetAction::Wait { ns: SHORT_POLL_NS }, true));
    assert!(booted_after(NetAction::Finish, true));
    assert!(booted_after(NetAction::SetBooted, true));
}

#[test]
fn boot_to_ready() {
    // Core 0 publishes its spawner, then waits for the second core.
    let mut view = BootView { peer_ready: false, net_present: true, booted: false };
    let (p, a) = boot_step(BootPhase::Register, view);
    assert!(p == BootPhase::AwaitPeer && a == BootAction::PublishSpawner);
    let (p, a) = boot_step(p, view);
    assert!(p == BootPhase::AwaitPeer && a == BootAction::Wait { ns: PEER_POLL_NS });
    view.peer_ready = true;
    let (p, a) = boot_step(p, view);
    assert!(p == BootPhase::AwaitBooted && a == BootAction::SpawnNetTasks);

    // The boot-net task: link first, then the DHCP lease.
    let (n, na) = boot_net_step(NetPhase::AwaitLink, false, false);
    assert!(n == NetPhase::AwaitLink && na == NetAction::Wait { ns: SHORT_POLL_NS });
    let (n, na) = boot_net_step(n, true, false);
    assert!(n == NetPhase::AwaitAddress && na == NetAction::Wait { ns: SHORT_POLL_NS });
    let (n, na) = boot_net_step(n, true, true);
    assert!(n == NetPhase::Booted && na == NetAction::SetBooted);

    let (p2, a2) = boot_step(p, view);
    assert!(p2 == BootPhase::AwaitBooted && a2 == BootAction::Wait { ns: SHORT_POLL_NS });
    view.booted = true;
    let (p, a) = boot_step(p, view);
    assert!(p == BootPhase::Done && a == BootAction::SpawnWrapper);
    assert!(wrapper_step(true) == WrapperAction::Invoke);
}

#[test]
fn boot_abandons_without_network() {
    let view = BootView { peer_ready: true, net_present: false, booted: false };
    let (p, a) = boot_step(BootPhase::AwaitPeer, view);
    assert!(p == BootPhase::Done && a == BootAction::Abandon);
}

#[test]
fn wrapper_waits_until_booted() {
    assert!(wrapper_step(false) == WrapperAction::Wait { ns: 100_000_000 });
    assert!(wrapper_step(true) == WrapperAction::Invoke);
}

#[test]
fn write_once_cell_takes_one_value() {
    let mut c: WriteOnce<u32> = WriteOnce::new();
    assert!(!c.is_set());
    assert_eq!(c.get(), None);
    assert_eq!(c.set(7), Ok(()));
    assert_eq!(c.set(9), Err(9));
    assert_eq!(c.get(), Some(&7));
    assert!(c.is_set());
}
