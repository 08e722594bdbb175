//! The agent's configuration record: the enrolled identity, the operator's
//! knobs, the crash bookkeeping and the secondary enrollments.
use vstd::prelude::*;
use crate::config::org::OrgEntry;
use crate::text::{copy_list, copy_opt};

verus! {

/// Which video encoder a session starts with.
#[derive(Debug, Clone, Copy, PartialEq, Eq, Structural)]
pub enum EncoderPreferenceChoice {
    /// Probe the hardware, then fall back.
    Auto,
    /// Hardware only.
    Hardware,
    /// Software only.
    Software,
}

impl Default for EncoderPreferenceChoice {
    fn default() -> (r: Self)
        ensures
            r == EncoderPreferenceChoice::Auto,
    {
        EncoderPreferenceChoice::Auto
    }
}

/// The device's own allowlist for tunnel forwards. Enabled with an empty
/// allowlist it trusts the server's tenant policy.
#[derive(Debug)]
pub struct AgentForwardAcl {
    /// Off refuses every forward.
    pub enabled: bool,
    /// The allowed targets, each as the compact JSON text of its rule.
    pub allowlist: Vec<String>,
}

impl AgentForwardAcl {
    /// Enabled, with nothing listed.
    pub open spec fn is_default(self) -> bool {
        self.enabled && self.allowlist@.len() == 0
    }

    /// The same switch and the same rules.
    pub open spec fn alike(self, other: AgentForwardAcl) -> bool {
        self.enabled == other.enabled && self.allowlist@ == other.allowlist@
    }

    fn copied(&self) -> (r: AgentForwardAcl)
        ensures
            self.alike(r),
    {
        AgentForwardAcl { enabled: self.enabled, allowlist: copy_list(&self.allowlist) }
    }
}

impl Default for AgentForwardAcl {
    fn default() -> (r: Self)
        ensures
            r.is_default(),
    {
        AgentForwardAcl { enabled: true, allowlist: Vec::new() }
    }
}

/// The apps that a virtual-desktop host offers unless told otherwise: a bash
/// session in tmux, with launching enabled.
pub const BUILT_IN_APPS: &'static str =
    "{\"enabled\":true,\"apps\":[{\"key\":\"bash\",\"label\":\"New bash session\",\"command\":\"tmux\"}]}";

/// The apps a virtual-desktop host offers to launch.
#[derive(Debug)]
pub struct VirtualDesktopAppsConfig {
    /// The document as compact JSON.
    pub document: String,
}

impl VirtualDesktopAppsConfig {
    fn copied(&self) -> (r: VirtualDesktopAppsConfig)
        ensures
            r == *self,
    {
        VirtualDesktopAppsConfig { document: self.document.clone() }
    }
}

impl Default for VirtualDesktopAppsConfig {
    fn default() -> (r: Self)
        ensures
            r.document@ == BUILT_IN_APPS@,
    {
        VirtualDesktopAppsConfig { document: BUILT_IN_APPS.to_owned() }
    }
}

/// What a declared tunnel route carries.
#[derive(Debug, Clone, Copy, PartialEq, Eq, Structural)]
pub enum FlowKind {
    /// A local port forwarded to a remote target.
    Forward,
}

/// One declared, daemon-supervised tunnel route.
#[derive(Debug)]
pub struct RouteDescriptor {
    /// Route id, unique within the config.
    pub id: String,
    /// What the route carries.
    pub kind: FlowKind,
    /// The node at the far end.
    pub node: String,
    /// The local listening port.
    pub local: u16,
    /// The remote target, where the kind has one.
    pub remote: Option<String>,
    /// Transport preference; empty for the default.
    pub transport: String,
    /// Whether the route is reconciled into a live flow.
    pub enabled: bool,
    /// The org that the route belongs to; `None` for the primary.
    pub org: Option<String>,
}

impl RouteDescriptor {
    fn copied(&self) -> (r: RouteDescriptor)
        ensures
            r == *self,
    {
        RouteDescriptor {
            id: self.id.clone(),
            kind: self.kind,
            node: self.node.clone(),
            local: self.local,
            remote: copy_opt(&self.remote),
            transport: self.transport.clone(),
            enabled: self.enabled,
            org: copy_opt(&self.org),
        }
    }
}

/// The agent's configuration.
#[derive(Debug)]
pub struct AgentConfig {
    /// Base URL of the Roomler API, without a trailing slash.
    pub server_url: String,
    /// Derived WSS URL; recomputed from `server_url` if absent.
    pub ws_url: Option<String>,
    /// Opaque agent JWT issued by `/api/agent/enroll`.
    pub agent_token: String,
    /// Server-assigned agent id (hex ObjectId).
    pub agent_id: String,
    /// Server-assigned tenant id (hex ObjectId).
    pub tenant_id: String,
    /// Stable machine fingerprint.
    pub machine_id: String,
    /// User-friendly name shown in the admin UI.
    pub machine_name: String,
    /// This enrollment is temporary: the server reaps the row after silence. Recorded from the
    /// server's enroll response, so that the config never disagrees with the row.
    pub ephemeral: bool,
    /// Encoder preference: `auto` (default), `hardware`, or `software`.
    pub encoder_preference: EncoderPreferenceChoice,
    /// How often (hours) the auto-updater polls GitHub Releases.
    pub update_check_interval_h: Option<u32>,
    /// Whether the agent answers `files:dir` (filesystem browse) requests from the browser
    /// controller.
    pub enable_remote_browse: bool,
    /// Whether incoming `rc:session.request` messages are auto-granted without operator
    /// interaction.
    pub auto_grant_session: bool,
    /// Whether this device runs Fleet-RPC commands at all. Off until whoever holds the box
    /// turns it on.
    pub exec_enabled: bool,
    /// On macOS, let the ROOT daemon spawn and babysit the GUI-session worker instead of
    /// leaving that to a separate LaunchAgent.
    pub macos_supervise_gui_worker: bool,
    /// Whether this device asks the OS to stay awake: `never` (or empty), `on-ac`, `always`.
    pub power_policy: String,
    /// Whether this device accepts configuration pushed from its control plane. Never settable
    /// by the server.
    pub remote_config_enabled: bool,
    /// Serve SSH on this node's overlay address, in-process.
    pub ssh_enabled: bool,
    /// TCP port intercepted on the overlay address when `ssh_enabled` is on.
    pub ssh_port: Option<u16>,
    /// OpenSSH public keys allowed to open an SSH session, one entry per key in
    /// `authorized_keys` form (`ssh-ed25519 AAAA… comment`).
    pub ssh_authorized_keys: Vec<String>,
    /// This node's SSH host private key, OpenSSH format, generated on the first SSH-enabled
    /// start.
    pub ssh_host_key: Option<String>,
    /// Which local account a session authenticated by `ssh_authorized_keys` runs as: `daemon` |
    /// `console_user` | `named:<account>`.
    pub ssh_account_mode: Option<String>,
    /// The most privileged identity a SERVER-GRANTED ssh session may run as.
    pub ssh_max_privilege: Option<String>,
    /// Report SSH session activity to the org.
    pub ssh_activity_log: bool,
    /// QUIC-over-TURN overlay carrier.
    pub overlay_quic: Option<bool>,
    /// Direct (LAN / hole-punched) overlay carriers.
    pub overlay_direct: Option<bool>,
    /// DERP (WS-relay) overlay fallback tier.
    pub overlay_derp: Option<bool>,
    /// Accept the server's computed relay-tier verdict in place of the local `relay_strategy()`
    /// derivation.
    pub overlay_server_relay_strategy: Option<bool>,
    /// DERP always-on floor: open the central `/derp` mux at startup unconditionally, advertise
    /// `supports_derp_floor`, and floor fresh pairs at birth.
    pub overlay_derp_floor: Option<bool>,
    /// Ride tenant-owned org relays (tunnel-core `OVERLAY_ORG_RELAY`).
    pub overlay_org_relay: Option<bool>,
    /// Netcheck: measure egress capabilities (relay-band probe, STUN/NAT, /derp health) every
    /// ~20 min and publish the CapVector.
    pub overlay_netcheck: Option<bool>,
    /// Offer this node as an **org relay**: bind `relay_server_port` and answer reachability
    /// probes.
    pub relay_server_enabled: Option<bool>,
    /// UDP port for the org-relay listener.
    pub relay_server_port: Option<u32>,
    /// Lead the next tunnel attempt with QUIC over the established `/derp` socket after
    /// repeated quick session deaths.
    pub tunnel_derp_fallback: Option<bool>,
    /// Keep established tunnel QUIC peers ALIVE across a control-WS reattach instead of tearing
    /// them down on every transient WS drop.
    pub tunnel_peers_survive_reattach: Option<bool>,
    /// Make-before-break carrier upgrades.
    pub overlay_mbb: Option<bool>,
    /// LAN-gather virtual-interface filter — drop WSL/Hyper-V/other-VPN adapters from
    /// advertised LAN endpoints.
    pub overlay_lan_iface_filter: Option<bool>,
    /// WSL2 mirrored-networking guard.
    pub overlay_wsl_mirrored_guard: Option<bool>,
    /// Auth-first handshake routing on a multi-org carrier plane.
    pub overlay_init_auth_first: Option<bool>,
    /// Keep re-gathering when the STUN gather finds no public candidate.
    pub overlay_srflx_seek: Option<bool>,
    /// Exit the process after three displacements of the control socket in the window.
    pub ws_replaced_exit: Option<bool>,
    /// The standing warm TURN/UDP allocation, established while UDP works and kept alive so
    /// corp-VPN flow-grandfathering preserves a UDP relay leg across a VPN connect.
    pub overlay_warm_relay: Option<bool>,
    /// Raw-first QUIC-over-TURN upgrade: commit the raw relay immediately, rendezvous in the
    /// background (90 s window) and swap in on success.
    pub overlay_quic_async: Option<bool>,
    /// Srflx gather falls back to the wildcard public-dial socket when every LAN-bound vantage
    /// is dead (full-tunnel VPN rescue: AnyConnect- class clients filter the physical NICs
    /// while the tunnel passes UDP).
    pub overlay_vpn_vantage: Option<bool>,
    /// Spawn the session-independent network daemon (`roomlerd netd`) as a SECOND supervisor
    /// child.
    pub overlay_netd: Option<bool>,
    /// Overlay PathMonitor engagement: `on`, `shadow` or `off`.
    pub overlay_pathmon: Option<String>,
    /// Event-driven route guard (OS route-table change subscription: NotifyRouteChange2 / `ip
    /// monitor route`).
    pub overlay_route_events: Option<bool>,
    /// Route-guard blind-tick seconds while the route-event subscription is live.
    pub overlay_route_tick_secs: Option<u32>,
    /// The process-wide network monitor (ONE OS change subscription, typed snapshots/deltas,
    /// non-blocking fan-out).
    pub overlay_netmon: Option<bool>,
    /// Debounce window in ms for coalescing OS signal bursts into one delta.
    pub overlay_netmon_debounce_ms: Option<u32>,
    /// Force overlay coturn allocations onto the TURNS/TCP (TLS) tier — the corp-VPN field
    /// probe.
    pub overlay_relay_tls: Option<bool>,
    /// Multi-org v2 shared carrier plane — ONE process-wide direct-socket set shared by every
    /// org's engine, inbound demultiplexed by WireGuard receiver index.
    pub overlay_shared_carrier: Option<bool>,
    /// WG-style endpoint roaming: adopt a peer's observed source after an AUTHENTICATED inbound
    /// from it, repointing the carrier in place.
    pub overlay_roam: Option<bool>,
    /// Carrier-plane socket-liveness watchdog: when the shared plane's punch-socket keepalive
    /// fails N consecutive cycles (reader-less / wedged socket), self-heal by forcing a
    /// debounced plane rebuild.
    pub overlay_plane_watchdog: Option<bool>,
    /// Per-session plane-demux + carrier-health traces.
    pub overlay_session_trace: Option<bool>,
    /// Retired: the in-tunnel data probe. Read and ignored.
    pub overlay_data_probe: Option<bool>,
    /// Answer out-of-tunnel disco echoes on the carrier socket.
    pub overlay_disco_respond: Option<bool>,
    /// PROBE peers with disco echoes and record per-path loss + RTT.
    pub overlay_disco_probe: Option<bool>,
    /// Answer a peer's direct handshake initiation even while that tier is suppressed, when
    /// accepting cannot cost us the relay.
    pub overlay_answer_while_followed: Option<bool>,
    /// Stable Wintun adapter identity — constant requested GUID + boot stray-adapter sweep,
    /// Windows only.
    pub overlay_tun_stable_guid: Option<bool>,
    /// Route-war eviction — delete competing VPN-installed routes for overlay prefixes (peer +
    /// own `/32`s), Windows only.
    pub overlay_route_evict: Option<bool>,
    /// Route-war stolen-path reclaim — repoint destinations whose OS forwarding cache a corp
    /// VPN captured at an equal-metric tie (targeted evict + immediate cache pin), and debounce
    /// the in-block eviction to evict-on-change, Windows only.
    pub overlay_route_reclaim: Option<bool>,
    /// Keep the overlay TUN device alive across signaling reconnects (process-lifetime cache in
    /// the agent's TUN factory).
    pub overlay_tun_persist: Option<bool>,
    /// Install defended peer `/32`s (and the ULA `/96` + connected `/10`) at route metric 0 so
    /// they outrank a corp VPN's metric-1 mirror routes, Windows only.
    pub overlay_route_metric0: Option<bool>,
    /// WIN the contested prefixes outright instead of evicting a competitor off them forever.
    pub overlay_route_win: Option<bool>,
    /// Stable UDP port for the overlay's direct sockets.
    pub overlay_direct_port: Option<u32>,
    /// The overlay NIC's IPv4 interface metric, Windows only.
    pub overlay_iface_metric: Option<u32>,
    /// Loopback-TURN corp-relay for co-located controllers.
    pub local_turn: Option<bool>,
    /// MagicDNS AAAA answers for derived overlay v6.
    pub dns_aaaa: Option<bool>,
    /// The MagicDNS hosts-file fallback.
    pub magicdns_hosts: Option<bool>,
    /// The periodic self-updater.
    pub auto_update: Option<bool>,
    /// Disable the centralized log uploader.
    pub logs_upload_disabled: Option<bool>,
    /// H.264 maxrate ceiling factor override, percent.
    pub rate_factor_h264: Option<u32>,
    /// HEVC maxrate ceiling factor override, percent.
    pub rate_factor_hevc: Option<u32>,
    /// VP9 maxrate ceiling factor override, percent.
    pub rate_factor_vp9: Option<u32>,
    /// AV1 maxrate ceiling factor override, percent.
    pub rate_factor_av1: Option<u32>,
    /// Minimum linear downscale (percent) at which the Lanczos-3 filter engages; shallower
    /// shrinks fall back to box.
    pub lanczos_min_pct: Option<u32>,
    /// NVENC spatial AQ.
    pub nvenc_spatial_aq: Option<bool>,
    /// CQ sharpening steps granted at deep resolution rungs.
    pub scale_cq_boost: Option<u32>,
    /// Idle native-rung refinement: lift the resolution cap when the scene settles so text is
    /// crisp at rest.
    pub idle_refine: Option<bool>,
    /// Idle refinement on Balanced+relay sessions (lifts the B1 physics cap at idle).
    pub idle_refine_balanced: Option<bool>,
    /// GPU scale-before-readback on D3D11 capture backends.
    pub gpu_scale: Option<bool>,
    /// Probe each LAN prefix for a VPN split-prefix capture and surface it.
    pub overlay_lan_capture_probe: Option<bool>,
    /// Let the constrained (relay) ceiling grow above the nominal on delivery evidence and
    /// remember the pair's stable rate.
    pub relay_ceiling_learn: Option<bool>,
    /// Capture the scanout framebuffer via DRM/KMS, below the compositor.
    pub drm_capture: Option<bool>,
    /// Inject input through `/dev/uinput`, below the compositor.
    pub uinput: Option<bool>,
    /// Capture a Wayland desktop through xdg-desktop-portal ScreenCast and PipeWire.
    pub portal_capture: Option<bool>,
    /// Inject input through the portal's RemoteDesktop interface, riding the SAME session as
    /// `portal_capture`.
    pub portal_input: Option<bool>,
    /// Take screencast frames from `org.gnome.Mutter.ScreenCast` DIRECTLY instead of the
    /// desktop portal.
    pub mutter_capture: Option<bool>,
    /// Capture ONE application window instead of the whole monitor.
    pub window_capture: Option<bool>,
    /// Skip the XShm readback when XDAMAGE proves the screen is unchanged.
    pub x11_damage: Option<bool>,
    /// Honour `rc:agent.key_rotate` (an admin retiring this device's overlay key from the
    /// dashboard; `ROOMLERD_OVERLAY_KEY_ROTATION`).
    pub overlay_key_rotation: Option<bool>,
    /// Long-edge cap for the refined rung.
    pub idle_refine_max_edge: Option<u32>,
    /// Upper bound (kbps) for the learned relay ceiling.
    pub relay_max_hi_kbps: Option<u32>,
    /// Encoded-size floor (KiB) for a frame to count as motion in the idle-refine machine;
    /// smaller deltas (caret, keystrokes) are invisible to it.
    pub idle_refine_min_frame_kb: Option<u32>,
    /// P8a-2 — MAJOR-motion area floor (permille of the frame) on tracked-damage backends: only
    /// damage at/above it can restore the resolution cap; smaller damage (typing, popups,
    /// windowed terminal scrolls) stays at native.
    pub idle_refine_major_area_permille: Option<u32>,
    /// P8a-2 — up-flip settle (ms) on tracked-damage backends: the cap lifts this long after
    /// the last major-damage frame.
    pub idle_refine_settle_ms: Option<u32>,
    /// The tracked settle on CONSTRAINED transports.
    pub idle_refine_settle_constrained_ms: Option<u32>,
    /// Constrained-motion CQ relief (softening steps applied at the resolution rung of a RELAY
    /// session — `ROOMLERD_CONSTRAINED_CQ_RELIEF`).
    pub constrained_cq_relief: Option<u32>,
    /// Constrained send-queue byte budget, in milliseconds of the relay ceiling.
    pub constrained_queue_ms: Option<u32>,
    /// HRD/VBV window for constrained sessions, percent of maxrate.
    pub constrained_hrd_pct: Option<u32>,
    /// DIRECT-path send-queue byte budget, in milliseconds of the AIMD's live target.
    pub direct_queue_ms: Option<u32>,
    /// HRD/VBV window for DIRECT sessions, percent of maxrate.
    pub direct_hrd_pct: Option<u32>,
    /// Area-scaled AIMD bitrate floor.
    pub area_min_bitrate: Option<bool>,
    /// Measured-rate stage 1.
    pub measured_ceiling: Option<bool>,
    /// The AIMD's legibility floor descends toward a MEASURED pipe on a constrained transport.
    pub slow_link_floor: Option<bool>,
    /// In-place encoder rate changes (QSV) + corrected NVENC HRD sizing.
    pub encoder_inplace_rate: Option<bool>,
    /// Pin remote-control's ICE to a TURN relay so the encoder runs its CONSTRAINED posture on
    /// demand.
    pub ice_relay_tcp: Option<bool>,
    /// Bitrate ceiling for a constrained (relay) transport, kbps.
    pub relay_max_kbps: Option<u32>,
    /// Open a session with slow-start instead of committing to a constant rate.
    pub rate_slow_start: Option<bool>,
    /// A remembered rate standing in for a pipe measurement decays toward the band instead of
    /// pinning the session.
    pub rate_prior_decay: Option<bool>,
    /// Classify each constrained viewer window by which plane is the limiter, in shadow.
    pub transit_classify: Option<bool>,
    /// ACT on a `transit-stalled` window (ramp frozen, age loop and P3 clamp masked, prior
    /// held).
    pub transit_hold: Option<bool>,
    /// The encoder runs on its own OS thread per session behind a command channel instead of
    /// `block_in_place` on a runtime worker.
    pub media_thread: Option<bool>,
    /// The pump stall watch.
    pub pump_stall_watch: Option<bool>,
    /// The stall threshold in ms.
    pub pump_stall_warn_ms: Option<u32>,
    /// Run a CONSTRAINED encoder rebuild off the pump thread too.
    pub bg_rebuild_constrained: Option<bool>,
    /// Absolute stop for that relief, bps.
    pub slow_link_min_bitrate: Option<u32>,
    /// Denominate the CONSTRAINED send-queue byte budget in the MEASURED drain rate rather than
    /// the nominal relay ceiling.
    pub constrained_queue_measured: Option<bool>,
    /// A held goodput measurement far below the FR-35 learned/seeded ceiling abandons it back
    /// to the nominal band.
    pub seed_contradiction: Option<bool>,
    /// The VIEWER's own report of what is arriving (bytes/s received, and how much its transit
    /// queue grew) drives the constrained rate loop.
    pub viewer_rate_clamp: Option<bool>,
    /// A transit queue too deep to cut our way out of is DRAINED by pausing production for a
    /// bounded, sub-second window.
    pub queue_drain: Option<bool>,
    /// A constrained session whose pair the rate memory remembers as SLOW opens with fewer
    /// pixels and fewer frames.
    pub slow_link_profile: Option<bool>,
    /// Remembered rate at or below which that profile engages, bps.
    pub slow_link_profile_bps: Option<u32>,
    /// Background encoder rebuild.
    pub bg_rebuild: Option<bool>,
    /// Parallel colour conversion.
    pub par_convert: Option<bool>,
    /// Fps-first cadence pacing on HW encoders.
    pub fps_pace: Option<bool>,
    /// Relay IDR thrift.
    pub relay_idr_thrift: Option<bool>,
    /// Constrained-transport age feedback.
    pub relay_age_feedback: Option<bool>,
    /// How long ONE frame may sit inside the DataChannel send call before the pump treats it as
    /// congestion, ms (default 250; 0 disables).
    pub send_stall_ms: Option<u32>,
    /// Restore the pre-rc.445 Priority-dial resolution caps (Smoother 1024 everywhere /
    /// Balanced 1280 on relay; `ROOMLERD_PRIORITY_RES_CAP`).
    pub priority_res_cap: Option<bool>,
    /// Smoother's bitrate-ceiling factor, percent.
    pub smoother_rate_pct: Option<u32>,
    /// Balanced's bitrate-ceiling factor, percent.
    pub balanced_rate_pct: Option<u32>,
    /// Worker threads for the CPU resampler's row-banded passes.
    pub scale_threads: Option<u32>,
    /// Media-ICE follow-renomination policy: always, never, or unset for auto.
    pub ice_follow_renomination: Option<bool>,
    /// Warm-standby keepalive pings on validated-but-unselected media ICE pairs
    /// (`ROOMLER_ICE_WARM_STANDBY`, vendored-crate raw env — same shim).
    pub ice_warm_standby: Option<bool>,
    /// Deprioritize overlay-TUN host candidates in media ICE
    /// (`ROOMLER_ICE_OVERLAY_HOST_DEPRIORITIZE`, vendored-crate raw env — same shim).
    pub ice_overlay_host_deprioritize: Option<bool>,
    /// Overlay-carrier-aware constrained detection in the media pumps.
    pub overlay_tier_detect: Option<bool>,
    /// Feed the 15 s overlay RTT probes into the PathMonitor's quality plane.
    pub overlay_rtt_q: Option<bool>,
    /// Multi-region relay PoPs — probe the server-pushed region list (timed STUN binding per
    /// PoP) and report RTTs so the server derives this node's `relay_home`.
    pub relay_probe: Option<bool>,
    /// Release held modifiers that the remote layout does not want around a scancode tap.
    pub text_mod_neutralize: Option<bool>,
    /// Score-driven demotion of degraded direct carriers: `on`, `shadow` or `off`.
    pub overlay_demote: Option<String>,
    /// Mid-tier upward probing: srflx/public incumbents probe an eligible HIGHER tier every
    /// ≥120 s via the MBB machinery.
    pub overlay_upward_probe: Option<bool>,
    /// Concurrent remote-control sessions this agent advertises.
    pub rc_max_sessions: Option<u32>,
    /// Shared-floor encoder for concurrent viewers.
    pub shared_encoder: Option<bool>,
    /// Ingress filtering of inbound overlay packets: `warn`, `enforce` or `off`.
    pub overlay_rpf: Option<String>,
    /// Most recent version that ran for at least `CLEAN_RUN_THRESHOLD_SECS`.
    pub last_known_good_version: Option<String>,
    /// Consecutive cold-start crashes within `CRASH_WINDOW_SECS` of each other.
    pub crash_count: u32,
    /// Unix timestamp (seconds) of the most recent crash.
    pub last_crash_unix: u64,
    /// Set by the rollback path when it fires once.
    pub rollback_attempted: bool,
    /// `true` when the previous run started but never reached the clean-run threshold AND
    /// didn't exit gracefully via Ctrl-C.
    pub last_run_unhealthy: bool,
    /// Last config-schema version this file was migrated to.
    pub config_schema_version: Option<String>,
    /// Tunnel agent-side allowlist.
    pub forward_acl: AgentForwardAcl,
    /// Remote app selection and launch on virtual-desktop hosts.
    pub virtual_desktop_apps: VirtualDesktopAppsConfig,
    /// Opt into the overlay L3 mesh.
    pub overlay_enabled: bool,
    /// Let secondary `[[orgs]]` entries with `overlay_mode = "tun"` join their own tenant's
    /// mesh over the one shared TUN device.
    pub overlay_multi_org: bool,
    /// Loopback SOCKS5 port for THIS org's userspace netstack.
    pub netstack_socks_port: Option<u16>,
    /// True on a config produced by `for_org` — a SECONDARY org's view, not the process's own
    /// enrollment.
    pub derived_org: bool,
    /// This node's persisted WireGuard Curve25519 secret key (base64).
    pub overlay_wg_secret_key: Option<String>,
    /// Bumped on every rotation of `overlay_wg_secret_key` and sent as `key_epoch` on the
    /// overlay join.
    pub overlay_wg_key_epoch: u32,
    /// CIDRs this node offers to route for overlay peers.
    pub overlay_advertised_routes: Vec<String>,
    /// Offer this node as an exit node: `0.0.0.0/0` joins the advertised routes.
    pub overlay_exit_node_enabled: bool,
    /// Route this node's internet egress through the named mesh peer.
    pub overlay_exit_node: Option<String>,
    /// CIDRs this host advertises for the tunnel/SOCKS mesh.
    pub advertise_routes: Vec<String>,
    /// Auto-detect this host's directly-connected IPv4 subnets and advertise them alongside
    /// `advertise_routes` (union).
    pub advertise_local_subnets: bool,
    /// DECLARED, daemon-supervised tunnel routes (`[[tunnel_routes]]`).
    pub tunnel_routes: Vec<RouteDescriptor>,
    /// SECONDARY enrollments (`[[orgs]]`).
    pub orgs: Vec<OrgEntry>,
}

impl AgentConfig {
    /// Every operator knob, the crash record and the org table are at their
    /// built-in values; the identity fields are free.
    pub open spec fn is_blank(self) -> bool {
        &&& self.encoder_preference == EncoderPreferenceChoice::Auto
        &&& self.update_check_interval_h is None
        &&& self.enable_remote_browse
        &&& self.auto_grant_session
        &&& !self.exec_enabled
        &&& !self.macos_supervise_gui_worker
        &&& self.power_policy@.len() == 0
        &&& !self.remote_config_enabled
        &&& !self.ssh_enabled
        &&& self.ssh_port is None
        &&& self.ssh_authorized_keys@.len() == 0
        &&& self.ssh_host_key is None
        &&& self.ssh_account_mode is None
        &&& self.ssh_max_privilege is None
        &&& !self.ssh_activity_log
        &&& self.overlay_quic is None
        &&& self.overlay_direct is None
        &&& self.overlay_derp is None
        &&& self.overlay_server_relay_strategy is None
        &&& self.overlay_derp_floor is None
        &&& self.overlay_org_relay is None
        &&& self.overlay_netcheck is None
        &&& self.relay_server_enabled is None
        &&& self.relay_server_port is None
        &&& self.tunnel_derp_fallback is None
        &&& self.tunnel_peers_survive_reattach is None
        &&& self.overlay_mbb is None
        &&& self.overlay_lan_iface_filter is None
        &&& self.overlay_wsl_mirrored_guard is None
        &&& self.overlay_init_auth_first is None
        &&& self.overlay_srflx_seek is None
        &&& self.ws_replaced_exit is None
        &&& self.overlay_warm_relay is None
        &&& self.overlay_quic_async is None
        &&& self.overlay_vpn_vantage is None
        &&& self.overlay_netd is None
        &&& self.overlay_pathmon is None
        &&& self.overlay_route_events is None
        &&& self.overlay_route_tick_secs is None
        &&& self.overlay_netmon is None
        &&& self.overlay_netmon_debounce_ms is None
        &&& self.overlay_relay_tls is None
        &&& self.overlay_shared_carrier is None
        &&& self.overlay_roam is None
        &&& self.overlay_plane_watchdog is None
        &&& self.overlay_session_trace is None
        &&& self.overlay_data_probe is None
        &&& self.overlay_disco_respond is None
        &&& self.overlay_disco_probe is None
        &&& self.overlay_answer_while_followed is None
        &&& self.overlay_tun_stable_guid is None
        &&& self.overlay_route_evict is None
        &&& self.overlay_route_reclaim is None
        &&& self.overlay_tun_persist is None
        &&& self.overlay_route_metric0 is None
        &&& self.overlay_route_win is None
        &&& self.overlay_direct_port is None
        &&& self.overlay_iface_metric is None
        &&& self.local_turn is None
        &&& self.dns_aaaa is None
        &&& self.magicdns_hosts is None
        &&& self.auto_update is None
        &&& self.logs_upload_disabled is None
        &&& self.rate_factor_h264 is None
        &&& self.rate_factor_hevc is None
        &&& self.rate_factor_vp9 is None
        &&& self.rate_factor_av1 is None
        &&& self.lanczos_min_pct is None
        &&& self.nvenc_spatial_aq is None
        &&& self.scale_cq_boost is None
        &&& self.idle_refine is None
        &&& self.idle_refine_balanced is None
        &&& self.gpu_scale is None
        &&& self.overlay_lan_capture_probe is None
        &&& self.relay_ceiling_learn is None
        &&& self.drm_capture is None
        &&& self.uinput is None
        &&& self.portal_capture is None
        &&& self.portal_input is None
        &&& self.mutter_capture is None
        &&& self.window_capture is None
        &&& self.x11_damage is None
        &&& self.overlay_key_rotation is None
        &&& self.idle_refine_max_edge is None
        &&& self.relay_max_hi_kbps is None
        &&& self.idle_refine_min_frame_kb is None
        &&& self.idle_refine_major_area_permille is None
        &&& self.idle_refine_settle_ms is None
        &&& self.idle_refine_settle_constrained_ms is None
        &&& self.constrained_cq_relief is None
        &&& self.constrained_queue_ms is None
        &&& self.constrained_hrd_pct is None
        &&& self.direct_queue_ms is None
        &&& self.direct_hrd_pct is None
        &&& self.area_min_bitrate is None
        &&& self.measured_ceiling is None
        &&& self.slow_link_floor is None
        &&& self.encoder_inplace_rate is None
        &&& self.ice_relay_tcp is None
        &&& self.relay_max_kbps is None
        &&& self.rate_slow_start is None
        &&& self.rate_prior_decay is None
        &&& self.transit_classify is None
        &&& self.transit_hold is None
        &&& self.media_thread is None
        &&& self.pump_stall_watch is None
        &&& self.pump_stall_warn_ms is None
        &&& self.bg_rebuild_constrained is None
        &&& self.slow_link_min_bitrate is None
        &&& self.constrained_queue_measured is None
        &&& self.seed_contradiction is None
        &&& self.viewer_rate_clamp is None
        &&& self.queue_drain is None
        &&& self.slow_link_profile is None
        &&& self.slow_link_profile_bps is None
        &&& self.bg_rebuild is None
        &&& self.par_convert is None
        &&& self.fps_pace is None
        &&& self.relay_idr_thrift is None
        &&& self.relay_age_feedback is None
        &&& self.send_stall_ms is None
        &&& self.priority_res_cap is None
        &&& self.smoother_rate_pct is None
        &&& self.balanced_rate_pct is None
        &&& self.scale_threads is None
        &&& self.ice_follow_renomination is None
        &&& self.ice_warm_standby is None
        &&& self.ice_overlay_host_deprioritize is None
        &&& self.overlay_tier_detect is None
        &&& self.overlay_rtt_q is None
        &&& self.relay_probe is None
        &&& self.text_mod_neutralize is None
        &&& self.overlay_demote is None
        &&& self.overlay_upward_probe is None
        &&& self.rc_max_sessions is None
        &&& self.shared_encoder is None
        &&& self.overlay_rpf is None
        &&& self.last_known_good_version is None
        &&& self.crash_count == 0
        &&& self.last_crash_unix == 0
        &&& !self.rollback_attempted
        &&& !self.last_run_unhealthy
        &&& self.forward_acl.is_default()
        &&& self.virtual_desktop_apps.document@ == BUILT_IN_APPS@
        &&& !self.overlay_enabled
        &&& !self.overlay_multi_org
        &&& self.netstack_socks_port is None
        &&& !self.derived_org
        &&& self.overlay_wg_secret_key is None
        &&& self.overlay_wg_key_epoch == 0
        &&& self.overlay_advertised_routes@.len() == 0
        &&& !self.overlay_exit_node_enabled
        &&& self.overlay_exit_node is None
        &&& self.advertise_routes@.len() == 0
        &&& self.advertise_local_subnets
        &&& self.tunnel_routes@.len() == 0
        &&& self.orgs@.len() == 0
    }

    /// The same values throughout: every field is equal, the lists by their
    /// elements.
    pub open spec fn alike(self, other: AgentConfig) -> bool {
        &&& other == (AgentConfig {
            ssh_authorized_keys: other.ssh_authorized_keys,
            overlay_advertised_routes: other.overlay_advertised_routes,
            advertise_routes: other.advertise_routes,
            tunnel_routes: other.tunnel_routes,
            orgs: other.orgs,
            forward_acl: other.forward_acl,
            ..self
        })
        &&& self.ssh_authorized_keys@ == other.ssh_authorized_keys@
        &&& self.overlay_advertised_routes@ == other.overlay_advertised_routes@
        &&& self.advertise_routes@ == other.advertise_routes@
        &&& self.tunnel_routes@ == other.tunnel_routes@
        &&& crate::config::org::orgs_alike(self.orgs@, other.orgs@)
        &&& self.forward_acl.alike(other.forward_acl)
    }

    /// A copy of the whole record.
    pub fn copied(&self) -> (r: AgentConfig)
        ensures
            self.alike(r),
    {
        AgentConfig {
            server_url: self.server_url.clone(),
            ws_url: copy_opt(&self.ws_url),
            agent_token: self.agent_token.clone(),
            agent_id: self.agent_id.clone(),
            tenant_id: self.tenant_id.clone(),
            machine_id: self.machine_id.clone(),
            machine_name: self.machine_name.clone(),
            ephemeral: self.ephemeral,
            encoder_preference: self.encoder_preference,
            update_check_interval_h: self.update_check_interval_h,
            enable_remote_browse: self.enable_remote_browse,
            auto_grant_session: self.auto_grant_session,
            exec_enabled: self.exec_enabled,
            macos_supervise_gui_worker: self.macos_supervise_gui_worker,
            power_policy: self.power_policy.clone(),
            remote_config_enabled: self.remote_config_enabled,
            ssh_enabled: self.ssh_enabled,
            ssh_port: self.ssh_port,
            ssh_authorized_keys: copy_list(&self.ssh_authorized_keys),
            ssh_host_key: copy_opt(&self.ssh_host_key),
            ssh_account_mode: copy_opt(&self.ssh_account_mode),
            ssh_max_privilege: copy_opt(&self.ssh_max_privilege),
            ssh_activity_log: self.ssh_activity_log,
            overlay_quic: self.overlay_quic,
            overlay_direct: self.overlay_direct,
            overlay_derp: self.overlay_derp,
            overlay_server_relay_strategy: self.overlay_server_relay_strategy,
            overlay_derp_floor: self.overlay_derp_floor,
            overlay_org_relay: self.overlay_org_relay,
            overlay_netcheck: self.overlay_netcheck,
            relay_server_enabled: self.relay_server_enabled,
            relay_server_port: self.relay_server_port,
            tunnel_derp_fallback: self.tunnel_derp_fallback,
            tunnel_peers_survive_reattach: self.tunnel_peers_survive_reattach,
            overlay_mbb: self.overlay_mbb,
            overlay_lan_iface_filter: self.overlay_lan_iface_filter,
            overlay_wsl_mirrored_guard: self.overlay_wsl_mirrored_guard,
            overlay_init_auth_first: self.overlay_init_auth_first,
            overlay_srflx_seek: self.overlay_srflx_seek,
            ws_replaced_exit: self.ws_replaced_exit,
            overlay_warm_relay: self.overlay_warm_relay,
            overlay_quic_async: self.overlay_quic_async,
            overlay_vpn_vantage: self.overlay_vpn_vantage,
            overlay_netd: self.overlay_netd,
            overlay_pathmon: copy_opt(&self.overlay_pathmon),
            overlay_route_events: self.overlay_route_events,
            overlay_route_tick_secs: self.overlay_route_tick_secs,
            overlay_netmon: self.overlay_netmon,
            overlay_netmon_debounce_ms: self.overlay_netmon_debounce_ms,
            overlay_relay_tls: self.overlay_relay_tls,
            overlay_shared_carrier: self.overlay_shared_carrier,
            overlay_roam: self.overlay_roam,
            overlay_plane_watchdog: self.overlay_plane_watchdog,
            overlay_session_trace: self.overlay_session_trace,
            overlay_data_probe: self.overlay_data_probe,
            overlay_disco_respond: self.overlay_disco_respond,
            overlay_disco_probe: self.overlay_disco_probe,
            overlay_answer_while_followed: self.overlay_answer_while_followed,
            overlay_tun_stable_guid: self.overlay_tun_stable_guid,
            overlay_route_evict: self.overlay_route_evict,
            overlay_route_reclaim: self.overlay_route_reclaim,
            overlay_tun_persist: self.overlay_tun_persist,
            overlay_route_metric0: self.overlay_route_metric0,
            overlay_route_win: self.overlay_route_win,
            overlay_direct_port: self.overlay_direct_port,
            overlay_iface_metric: self.overlay_iface_metric,
            local_turn: self.local_turn,
            dns_aaaa: self.dns_aaaa,
            magicdns_hosts: self.magicdns_hosts,
            auto_update: self.auto_update,
            logs_upload_disabled: self.logs_upload_disabled,
            rate_factor_h264: self.rate_factor_h264,
            rate_factor_hevc: self.rate_factor_hevc,
            rate_factor_vp9: self.rate_factor_vp9,
            rate_factor_av1: self.rate_factor_av1,
            lanczos_min_pct: self.lanczos_min_pct,
            nvenc_spatial_aq: self.nvenc_spatial_aq,
            scale_cq_boost: self.scale_cq_boost,
            idle_refine: self.idle_refine,
            idle_refine_balanced: self.idle_refine_balanced,
            gpu_scale: self.gpu_scale,
            overlay_lan_capture_probe: self.overlay_lan_capture_probe,
            relay_ceiling_learn: self.relay_ceiling_learn,
            drm_capture: self.drm_capture,
            uinput: self.uinput,
            portal_capture: self.portal_capture,
            portal_input: self.portal_input,
            mutter_capture: self.mutter_capture,
            window_capture: self.window_capture,
            x11_damage: self.x11_damage,
            overlay_key_rotation: self.overlay_key_rotation,
            idle_refine_max_edge: self.idle_refine_max_edge,
            relay_max_hi_kbps: self.relay_max_hi_kbps,
            idle_refine_min_frame_kb: self.idle_refine_min_frame_kb,
            idle_refine_major_area_permille: self.idle_refine_major_area_permille,
            idle_refine_settle_ms: self.idle_refine_settle_ms,
            idle_refine_settle_constrained_ms: self.idle_refine_settle_constrained_ms,
            constrained_cq_relief: self.constrained_cq_relief,
            constrained_queue_ms: self.constrained_queue_ms,
            constrained_hrd_pct: self.constrained_hrd_pct,
            direct_queue_ms: self.direct_queue_ms,
            direct_hrd_pct: self.direct_hrd_pct,
            area_min_bitrate: self.area_min_bitrate,
            measured_ceiling: self.measured_ceiling,
            slow_link_floor: self.slow_link_floor,
            encoder_inplace_rate: self.encoder_inplace_rate,
            ice_relay_tcp: self.ice_relay_tcp,
            relay_max_kbps: self.relay_max_kbps,
            rate_slow_start: self.rate_slow_start,
            rate_prior_decay: self.rate_prior_decay,
            transit_classify: self.transit_classify,
            transit_hold: self.transit_hold,
            media_thread: self.media_thread,
            pump_stall_watch: self.pump_stall_watch,
            pump_stall_warn_ms: self.pump_stall_warn_ms,
            bg_rebuild_constrained: self.bg_rebuild_constrained,
            slow_link_min_bitrate: self.slow_link_min_bitrate,
            constrained_queue_measured: self.constrained_queue_measured,
            seed_contradiction: self.seed_contradiction,
            viewer_rate_clamp: self.viewer_rate_clamp,
            queue_drain: self.queue_drain,
            slow_link_profile: self.slow_link_profile,
            slow_link_profile_bps: self.slow_link_profile_bps,
            bg_rebuild: self.bg_rebuild,
            par_convert: self.par_convert,
            fps_pace: self.fps_pace,
            relay_idr_thrift: self.relay_idr_thrift,
            relay_age_feedback: self.relay_age_feedback,
            send_stall_ms: self.send_stall_ms,
            priority_res_cap: self.priority_res_cap,
            smoother_rate_pct: self.smoother_rate_pct,
            balanced_rate_pct: self.balanced_rate_pct,
            scale_threads: self.scale_threads,
            ice_follow_renomination: self.ice_follow_renomination,
            ice_warm_standby: self.ice_warm_standby,
            ice_overlay_host_deprioritize: self.ice_overlay_host_deprioritize,
            overlay_tier_detect: self.overlay_tier_detect,
            overlay_rtt_q: self.overlay_rtt_q,
            relay_probe: self.relay_probe,
            text_mod_neutralize: self.text_mod_neutralize,
            overlay_demote: copy_opt(&self.overlay_demote),
            overlay_upward_probe: self.overlay_upward_probe,
            rc_max_sessions: self.rc_max_sessions,
            shared_encoder: self.shared_encoder,
            overlay_rpf: copy_opt(&self.overlay_rpf),
            last_known_good_version: copy_opt(&self.last_known_good_version),
            crash_count: self.crash_count,
            last_crash_unix: self.last_crash_unix,
            rollback_attempted: self.rollback_attempted,
            last_run_unhealthy: self.last_run_unhealthy,
            config_schema_version: copy_opt(&self.config_schema_version),
            forward_acl: self.forward_acl.copied(),
            virtual_desktop_apps: self.virtual_desktop_apps.copied(),
            overlay_enabled: self.overlay_enabled,
            overlay_multi_org: self.overlay_multi_org,
            netstack_socks_port: self.netstack_socks_port,
            derived_org: self.derived_org,
            overlay_wg_secret_key: copy_opt(&self.overlay_wg_secret_key),
            overlay_wg_key_epoch: self.overlay_wg_key_epoch,
            overlay_advertised_routes: copy_list(&self.overlay_advertised_routes),
            overlay_exit_node_enabled: self.overlay_exit_node_enabled,
            overlay_exit_node: copy_opt(&self.overlay_exit_node),
            advertise_routes: copy_list(&self.advertise_routes),
            advertise_local_subnets: self.advertise_local_subnets,
            tunnel_routes: copy_routes(&self.tunnel_routes),
            orgs: crate::config::org::copy_orgs(&self.orgs),
        }
    }
}

impl Clone for AgentConfig {
    fn clone(&self) -> (r: Self)
        ensures
            self.alike(r),
    {
        self.copied()
    }
}

fn copy_routes(list: &Vec<RouteDescriptor>) -> (r: Vec<RouteDescriptor>)
    ensures
        r@ == list@,
{
    let mut out: Vec<RouteDescriptor> = Vec::new();
    let mut i: usize = 0;
    while i < list.len()
        invariant
            i <= list@.len(),
            out@ == list@.take(i as int),
        decreases list@.len() - i,
    {
        out.push(list[i].copied());
        i = i + 1;
    }
    proof {
        assert(list@.take(list@.len() as int) =~= list@);
    }
    out
}

/// The record of a device that was just given an identity: every knob at its
/// built-in value.
pub(crate) fn blank_config(
    server_url: String,
    agent_token: String,
    agent_id: String,
    tenant_id: String,
    machine_id: String,
    machine_name: String,
    ephemeral: bool,
    config_schema_version: Option<String>,
) -> (r: AgentConfig)
    ensures
        r.is_blank(),
        r.server_url == server_url,
        r.ws_url is None,
        r.agent_token == agent_token,
        r.agent_id == agent_id,
        r.tenant_id == tenant_id,
        r.machine_id == machine_id,
        r.machine_name == machine_name,
        r.ephemeral == ephemeral,
        r.config_schema_version == config_schema_version,
{
    AgentConfig {
        server_url,
        ws_url: None,
        agent_token,
        agent_id,
        tenant_id,
        machine_id,
        machine_name,
        ephemeral,
        encoder_preference: EncoderPreferenceChoice::Auto,
        update_check_interval_h: None,
        enable_remote_browse: true,
        auto_grant_session: true,
        exec_enabled: false,
        macos_supervise_gui_worker: false,
        power_policy: String::new(),
        remote_config_enabled: false,
        ssh_enabled: false,
        ssh_port: None,
        ssh_authorized_keys: Vec::new(),
        ssh_host_key: None,
        ssh_account_mode: None,
        ssh_max_privilege: None,
        ssh_activity_log: false,
        overlay_quic: None,
        overlay_direct: None,
        overlay_derp: None,
        overlay_server_relay_strategy: None,
        overlay_derp_floor: None,
        overlay_org_relay: None,
        overlay_netcheck: None,
        relay_server_enabled: None,
        relay_server_port: None,
        tunnel_derp_fallback: None,
        tunnel_peers_survive_reattach: None,
        overlay_mbb: None,
        overlay_lan_iface_filter: None,
        overlay_wsl_mirrored_guard: None,
        overlay_init_auth_first: None,
        overlay_srflx_seek: None,
        ws_replaced_exit: None,
        overlay_warm_relay: None,
        overlay_quic_async: None,
        overlay_vpn_vantage: None,
        overlay_netd: None,
        overlay_pathmon: None,
        overlay_route_events: None,
        overlay_route_tick_secs: None,
        overlay_netmon: None,
        overlay_netmon_debounce_ms: None,
        overlay_relay_tls: None,
        overlay_shared_carrier: None,
        overlay_roam: None,
        overlay_plane_watchdog: None,
        overlay_session_trace: None,
        overlay_data_probe: None,
        overlay_disco_respond: None,
        overlay_disco_probe: None,
        overlay_answer_while_followed: None,
        overlay_tun_stable_guid: None,
        overlay_route_evict: None,
        overlay_route_reclaim: None,
        overlay_tun_persist: None,
        overlay_route_metric0: None,
        overlay_route_win: None,
        overlay_direct_port: None,
        overlay_iface_metric: None,
        local_turn: None,
        dns_aaaa: None,
        magicdns_hosts: None,
        auto_update: None,
        logs_upload_disabled: None,
        rate_factor_h264: None,
        rate_factor_hevc: None,
        rate_factor_vp9: None,
        rate_factor_av1: None,
        lanczos_min_pct: None,
        nvenc_spatial_aq: None,
        scale_cq_boost: None,
        idle_refine: None,
        idle_refine_balanced: None,
        gpu_scale: None,
        overlay_lan_capture_probe: None,
        relay_ceiling_learn: None,
        drm_capture: None,
        uinput: None,
        portal_capture: None,
        portal_input: None,
        mutter_capture: None,
        window_capture: None,
        x11_damage: None,
        overlay_key_rotation: None,
        idle_refine_max_edge: None,
        relay_max_hi_kbps: None,
        idle_refine_min_frame_kb: None,
        idle_refine_major_area_permille: None,
        idle_refine_settle_ms: None,
        idle_refine_settle_constrained_ms: None,
        constrained_cq_relief: None,
        constrained_queue_ms: None,
        constrained_hrd_pct: None,
        direct_queue_ms: None,
        direct_hrd_pct: None,
        area_min_bitrate: None,
        measured_ceiling: None,
        slow_link_floor: None,
        encoder_inplace_rate: None,
        ice_relay_tcp: None,
        relay_max_kbps: None,
        rate_slow_start: None,
        rate_prior_decay: None,
        transit_classify: None,
        transit_hold: None,
        media_thread: None,
        pump_stall_watch: None,
        pump_stall_warn_ms: None,
        bg_rebuild_constrained: None,
        slow_link_min_bitrate: None,
        constrained_queue_measured: None,
        seed_contradiction: None,
        viewer_rate_clamp: None,
        queue_drain: None,
        slow_link_profile: None,
        slow_link_profile_bps: None,
        bg_rebuild: None,
        par_convert: None,
        fps_pace: None,
        relay_idr_thrift: None,
        relay_age_feedback: None,
        send_stall_ms: None,
        priority_res_cap: None,
        smoother_rate_pct: None,
        balanced_rate_pct: None,
        scale_threads: None,
        ice_follow_renomination: None,
        ice_warm_standby: None,
        ice_overlay_host_deprioritize: None,
        overlay_tier_detect: None,
        overlay_rtt_q: None,
        relay_probe: None,
        text_mod_neutralize: None,
        overlay_demote: None,
        overlay_upward_probe: None,
        rc_max_sessions: None,
        shared_encoder: None,
        overlay_rpf: None,
        last_known_good_version: None,
        crash_count: 0,
        last_crash_unix: 0,
        rollback_attempted: false,
        last_run_unhealthy: false,
        config_schema_version,
        forward_acl: AgentForwardAcl::default(),
        virtual_desktop_apps: VirtualDesktopAppsConfig::default(),
        overlay_enabled: false,
        overlay_multi_org: false,
        netstack_socks_port: None,
        derived_org: false,
        overlay_wg_secret_key: None,
        overlay_wg_key_epoch: 0,
        overlay_advertised_routes: Vec::new(),
        overlay_exit_node_enabled: false,
        overlay_exit_node: None,
        advertise_routes: Vec::new(),
        advertise_local_subnets: true,
        tunnel_routes: Vec::new(),
        orgs: Vec::new(),
    }
}

/// Moves the record out, leaving a blank one behind.
pub(crate) fn take(cfg: &mut AgentConfig) -> (r: AgentConfig)
    ensures
        r == *old(cfg),
{
    let mut taken: AgentConfig = blank_config(
        String::new(),
        String::new(),
        String::new(),
        String::new(),
        String::new(),
        String::new(),
        false,
        None,
    );
    core::mem::swap(cfg, &mut taken);
    taken
}

/// A fully populated configuration with fixed identity strings, for tests.
pub fn test_fixture() -> (r: AgentConfig)
    ensures
        r.is_blank(),
        r.server_url@ == "https://example.invalid"@,
        r.ws_url is None,
        r.agent_token@ == "tok"@,
        r.agent_id@ == "aid"@,
        r.tenant_id@ == "tid"@,
        r.machine_id@ == "mid"@,
        r.machine_name@ == "host"@,
        !r.ephemeral,
        r.config_schema_version is None,
{
    blank_config(
        "https://example.invalid".to_owned(),
        "tok".to_owned(),
        "aid".to_owned(),
        "tid".to_owned(),
        "mid".to_owned(),
        "host".to_owned(),
        false,
        None,
    )
}

} // verus!
