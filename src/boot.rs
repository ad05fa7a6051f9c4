use vstd::prelude::*;

verus! {

/// Back-off of the boot-net and startup waits, in nanoseconds (100 ms).
pub const SHORT_POLL_NS: u64 = 100_000_000;

/// Back-off while waiting for the second core's spawner (1 s).
pub const PEER_POLL_NS: u64 = 1_000_000_000;

/// Back-off of the reconnection machine (5 s).
pub const RECONNECT_BACKOFF_NS: u64 = 5_000_000_000;

/// Entries that one scan reports at most.
pub const SCAN_MAX_RESULTS: usize = 10;

/// External memory size that the clocks are configured with (2 MiB).
pub const PSRAM_SIZE: usize = 2097152;

/// General internal heap region (96 KiB).
pub const INTERNAL_HEAP_SIZE: usize = 98304;

/// Heap region in the secondary internal RAM area.
pub const SECONDARY_HEAP_SIZE: usize = 64000;

/// Stack of the second core, in bytes.
pub const APP_CORE_STACK_SIZE: usize = 9744;

/// The radio's country code.
pub const COUNTRY_CODE: [u8; 2] = [67, 65];

/// The 64-bit seed of the IP stack's generator, from two 32-bit draws; the
/// first draw gives the high half.
pub fn rng_seed(first: u32, second: u32) -> (r: u64)
    ensures
        r == first as nat * 0x1_0000_0000 + second as nat,
{
    let r = ((first as u64) << 32u64) | (second as u64);
    assert(r == first as nat * 0x1_0000_0000 + second as nat) by (bit_vector)
        requires
            r == ((first as u64) << 32u64) | (second as u64),
    ;
    r
}

/// States of the station's reconnection machine.
#[derive(Clone, Copy, PartialEq, Eq, Structural)]
pub enum WifiState {
    Idle,
    Started,
    Scanning,
    Connecting,
    Connected,
    Disconnected,
}

/// How the station authenticates to the access point.
#[derive(Clone, Copy, PartialEq, Eq, Structural)]
pub enum StationAuth {
    WpaWpa2Personal,
}

/// The station configuration that the radio is given before it starts.
pub struct StationSettings {
    pub auth: StationAuth,
    pub ssid: String,
    pub password: String,
}

/// The station configuration for the task's credentials, with the
/// authentication method that the start action names.
pub fn station_settings(auth: StationAuth, ssid: &str, password: &str) -> (r: StationSettings)
    ensures
        r.auth == auth,
        r.ssid@ == ssid@,
        r.password@ == password@,
{
    StationSettings { auth, ssid: ssid.to_owned(), password: password.to_owned() }
}

/// What the connection task does while in a state.
#[derive(Clone, Copy, PartialEq, Eq, Structural)]
pub enum WifiAction {
    /// Configure the station with `auth` and the task's SSID and password
    /// (see `station_settings`), then start the radio.
    StartStation { auth: StationAuth },
    /// Scan, reporting at most `max` entries, and log each of them.
    Scan { max: usize },
    /// Announce the connection attempt.
    Announce,
    /// Connect to the access point.
    Connect,
    /// Wait for the station to be disconnected, then back off.
    AwaitDisconnect { backoff_ns: u64 },
    /// Back off, stop the radio, back off again.
    Recover { backoff_ns: u64 },
}

pub open spec fn wifi_action(s: WifiState) -> WifiAction {
    match s {
        WifiState::Idle => WifiAction::StartStation { auth: StationAuth::WpaWpa2Personal },
        WifiState::Started => WifiAction::Scan { max: SCAN_MAX_RESULTS },
        WifiState::Scanning => WifiAction::Announce,
        WifiState::Connecting => WifiAction::Connect,
        WifiState::Connected => WifiAction::AwaitDisconnect { backoff_ns: RECONNECT_BACKOFF_NS },
        WifiState::Disconnected => WifiAction::Recover { backoff_ns: RECONNECT_BACKOFF_NS },
    }
}

/// The state after the action of `s` ended, successfully or not.
pub open spec fn wifi_next(s: WifiState, ok: bool) -> WifiState {
    match s {
        WifiState::Idle => if ok {
            WifiState::Started
        } else {
            WifiState::Disconnected
        },
        WifiState::Started => if ok {
            WifiState::Scanning
        } else {
            WifiState::Disconnected
        },
        WifiState::Scanning => WifiState::Connecting,
        WifiState::Connecting => if ok {
            WifiState::Connected
        } else {
            WifiState::Disconnected
        },
        WifiState::Connected => WifiState::Idle,
        WifiState::Disconnected => WifiState::Idle,
    }
}

impl WifiState {
    /// The action to perform in this state.
    pub fn action(&self) -> (r: WifiAction)
        ensures
            r == wifi_action(*self),
    {
        match self {
            WifiState::Idle => WifiAction::StartStation { auth: StationAuth::WpaWpa2Personal },
            WifiState::Started => WifiAction::Scan { max: SCAN_MAX_RESULTS },
            WifiState::Scanning => WifiAction::Announce,
            WifiState::Connecting => WifiAction::Connect,
            WifiState::Connected => WifiAction::AwaitDisconnect { backoff_ns: RECONNECT_BACKOFF_NS },
            WifiState::Disconnected => WifiAction::Recover { backoff_ns: RECONNECT_BACKOFF_NS },
        }
    }

    /// The next state, given whether this state's action succeeded.
    pub fn next(&self, ok: bool) -> (r: WifiState)
        ensures
            r == wifi_next(*self, ok),
    {
        match self {
            WifiState::Idle => if ok {
                WifiState::Started
            } else {
                WifiState::Disconnected
            },
            WifiState::Started => if ok {
                WifiState::Scanning
            } else {
                WifiState::Disconnected
            },
            WifiState::Scanning => WifiState::Connecting,
            WifiState::Connecting => if ok {
                WifiState::Connected
            } else {
                WifiState::Disconnected
            },
            WifiState::Connected => WifiState::Idle,
            WifiState::Disconnected => WifiState::Idle,
        }
    }
}

/// Phases of the task that marks the network as booted.
#[derive(Clone, Copy, PartialEq, Eq, Structural)]
pub enum NetPhase {
    AwaitLink,
    AwaitAddress,
    Booted,
}

/// What the boot-net task does next.
#[derive(Clone, Copy, PartialEq, Eq, Structural)]
pub enum NetAction {
    Wait { ns: u64 },
    SetBooted,
    Finish,
}

pub open spec fn net_step(p: NetPhase, link_up: bool, configured: bool) -> (NetPhase, NetAction) {
    match p {
        NetPhase::AwaitLink => if !link_up {
            (NetPhase::AwaitLink, NetAction::Wait { ns: SHORT_POLL_NS })
        } else if configured {
            (NetPhase::Booted, NetAction::SetBooted)
        } else {
            (NetPhase::AwaitAddress, NetAction::Wait { ns: SHORT_POLL_NS })
        },
        NetPhase::AwaitAddress => if configured {
            (NetPhase::Booted, NetAction::SetBooted)
        } else {
            (NetPhase::AwaitAddress, NetAction::Wait { ns: SHORT_POLL_NS })
        },
        NetPhase::Booted => (NetPhase::Booted, NetAction::Finish),
    }
}

/// One poll of the boot-net task: first the link must be up, then an IPv4
/// configuration must be present; only then is `booted` set.
pub fn boot_net_step(p: NetPhase, link_up: bool, configured: bool) -> (r: (NetPhase, NetAction))
    ensures
        r == net_step(p, link_up, configured),
{
    match p {
        NetPhase::AwaitLink => if !link_up {
            (NetPhase::AwaitLink, NetAction::Wait { ns: SHORT_POLL_NS })
        } else if configured {
            (NetPhase::Booted, NetAction::SetBooted)
        } else {
            (NetPhase::AwaitAddress, NetAction::Wait { ns: SHORT_POLL_NS })
        },
        NetPhase::AwaitAddress => if configured {
            (NetPhase::Booted, NetAction::SetBooted)
        } else {
            (NetPhase::AwaitAddress, NetAction::Wait { ns: SHORT_POLL_NS })
        },
        NetPhase::Booted => (NetPhase::Booted, NetAction::Finish),
    }
}

/// The boot-net phase after a sequence of polls, each seeing whether the
/// link is up and whether an IPv4 configuration is present.
pub open spec fn net_after(obs: Seq<(bool, bool)>) -> NetPhase
    decreases obs.len(),
{
    if obs.len() == 0 {
        NetPhase::AwaitLink
    } else {
        net_step(net_after(obs.drop_last()), obs.last().0, obs.last().1).0
    }
}

/// The boot-net task reaches its booted phase only by setting `booted`.
pub proof fn lemma_booted_phase_sets_flag(p: NetPhase, link_up: bool, configured: bool)
    ensures
        p != NetPhase::Booted && net_step(p, link_up, configured).0 == NetPhase::Booted
            ==> net_step(p, link_up, configured).1 == NetAction::SetBooted,
{
}

/// Once a poll sees the link up and the lease granted, the boot-net task is
/// booted from that poll on: `booted` is set at the latest by that poll, one
/// short back-off after the lease arrives.
pub proof fn lemma_booted_after_lease(obs: Seq<(bool, bool)>, i: int)
    requires
        0 <= i < obs.len(),
        obs[i] == (true, true),
    ensures
        net_after(obs) == NetPhase::Booted,
    decreases obs.len(),
{
    let pre = obs.drop_last();
    if i < obs.len() - 1 {
        lemma_booted_after_lease(pre, i);
    }
}

/// What changes the `booted` flag: a step of the reconnection machine, or
/// an action of the boot-net task.
pub enum FlagEvent {
    Wifi(WifiState, bool),
    Net(NetAction),
}

/// The `booted` flag after one event: only setting it writes it.
pub open spec fn flag_step(booted: bool, e: FlagEvent) -> bool {
    match e {
        FlagEvent::Wifi(_, _) => booted,
        FlagEvent::Net(a) => booted || a == NetAction::SetBooted,
    }
}

pub open spec fn flag_after(booted: bool, evs: Seq<FlagEvent>) -> bool
    decreases evs.len(),
{
    if evs.len() == 0 {
        booted
    } else {
        flag_step(flag_after(booted, evs.drop_last()), evs.last())
    }
}

/// The value of `booted` after a boot-net action.
pub fn booted_after(a: NetAction, booted: bool) -> (r: bool)
    ensures
        r == flag_step(booted, FlagEvent::Net(a)),
{
    match a {
        NetAction::SetBooted => true,
        _ => booted,
    }
}

/// Link flaps do not clear `booted`: once set, it stays set over any
/// sequence of reconnection steps and boot-net actions.
pub proof fn lemma_booted_stays(evs: Seq<FlagEvent>)
    ensures
        flag_after(true, evs),
    decreases evs.len(),
{
    if evs.len() > 0 {
        lemma_booted_stays(evs.drop_last());
    }
}

/// What the startup wrapper does on one poll of the `booted` flag.
#[derive(Clone, Copy, PartialEq, Eq, Structural)]
pub enum WrapperAction {
    Wait { ns: u64 },
    Invoke,
}

/// The startup wrapper invokes the application's callback only once
/// `booted` is set, and otherwise waits a short poll.
pub fn wrapper_step(booted: bool) -> (r: WrapperAction)
    ensures
        r == WrapperAction::Invoke <==> booted,
        !booted ==> r == (WrapperAction::Wait { ns: SHORT_POLL_NS }),
{
    if booted {
        WrapperAction::Invoke
    } else {
        WrapperAction::Wait { ns: SHORT_POLL_NS }
    }
}

/// Phases of the core-0 boot task.
#[derive(Clone, Copy, PartialEq, Eq, Structural)]
pub enum BootPhase {
    Register,
    AwaitPeer,
    AwaitBooted,
    Done,
}

/// What the boot task does next.
#[derive(Clone, Copy, PartialEq, Eq, Structural)]
pub enum BootAction {
    /// Publish core 0's spawner.
    PublishSpawner,
    Wait { ns: u64 },
    /// Spawn the connection, IP-stack runner and boot-net tasks.
    SpawnNetTasks,
    /// Spawn the startup wrapper with the application's callback.
    SpawnWrapper,
    /// Stop: the network resources are missing.
    Abandon,
    Finish,
}

/// What the boot task sees when it polls.
#[derive(Clone, Copy, PartialEq, Eq, Structural)]
pub struct BootView {
    /// The second core has published its spawner.
    pub peer_ready: bool,
    /// The IP stack, radio controller and runner are all present.
    pub net_present: bool,
    pub booted: bool,
}

pub open spec fn boot_step_spec(p: BootPhase, v: BootView) -> (BootPhase, BootAction) {
    match p {
        BootPhase::Register => (BootPhase::AwaitPeer, BootAction::PublishSpawner),
        BootPhase::AwaitPeer => if !v.peer_ready {
            (BootPhase::AwaitPeer, BootAction::Wait { ns: PEER_POLL_NS })
        } else if v.net_present {
            (BootPhase::AwaitBooted, BootAction::SpawnNetTasks)
        } else {
            (BootPhase::Done, BootAction::Abandon)
        },
        BootPhase::AwaitBooted => if v.booted {
            (BootPhase::Done, BootAction::SpawnWrapper)
        } else {
            (BootPhase::AwaitBooted, BootAction::Wait { ns: SHORT_POLL_NS })
        },
        BootPhase::Done => (BootPhase::Done, BootAction::Finish),
    }
}

/// One step of the core-0 boot task: publish the spawner, wait for the
/// second core's, spawn the network tasks, wait for `booted`, then spawn
/// the startup wrapper.
pub fn boot_step(p: BootPhase, v: BootView) -> (r: (BootPhase, BootAction))
    ensures
        r == boot_step_spec(p, v),
{
    match p {
        BootPhase::Register => (BootPhase::AwaitPeer, BootAction::PublishSpawner),
        BootPhase::AwaitPeer => if !v.peer_ready {
            (BootPhase::AwaitPeer, BootAction::Wait { ns: PEER_POLL_NS })
        } else if v.net_present {
            (BootPhase::AwaitBooted, BootAction::SpawnNetTasks)
        } else {
            (BootPhase::Done, BootAction::Abandon)
        },
        BootPhase::AwaitBooted => if v.booted {
            (BootPhase::Done, BootAction::SpawnWrapper)
        } else {
            (BootPhase::AwaitBooted, BootAction::Wait { ns: SHORT_POLL_NS })
        },
        BootPhase::Done => (BootPhase::Done, BootAction::Finish),
    }
}

/// The boot task spawns the startup wrapper only once the network tasks were
/// spawned and `booted` is set.
pub proof fn lemma_wrapper_after_booted(p: BootPhase, v: BootView)
    ensures
        boot_step_spec(p, v).1 == BootAction::SpawnWrapper ==> p == BootPhase::AwaitBooted
            && v.booted,
{
}

/// A cell that takes exactly one value and then only hands it out.
pub struct WriteOnce<T> {
    value: Option<T>,
}

impl<T> WriteOnce<T> {
    pub closed spec fn contents(&self) -> Option<T> {
        self.value
    }

    pub fn new() -> (r: Self)
        ensures
            r.contents() is None,
    {
        WriteOnce { value: None }
    }

    /// Stores `v` where the cell is empty; otherwise hands `v` back.
    pub fn set(&mut self, v: T) -> (r: Result<(), T>)
        ensures
            old(self).contents() is None ==> r is Ok && final(self).contents() == Some(v),
            old(self).contents() is Some ==> r == Err::<(), T>(v) && final(self).contents()
                == old(self).contents(),
    {
        if self.value.is_some() {
            Err(v)
        } else {
            self.value = Some(v);
            Ok(())
        }
    }

    pub fn get(&self) -> (r: Option<&T>)
        ensures
            r is None <==> self.contents() is None,
            r is Some ==> *r->0 == self.contents()->0,
    {
        match &self.value {
            Some(v) => Some(v),
            None => None,
        }
    }

    pub fn is_set(&self) -> (r: bool)
        ensures
            r == self.contents() is Some,
    {
        self.value.is_some()
    }
}

} // verus!
