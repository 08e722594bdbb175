//! What each key of the config surface does, in one line.
use vstd::prelude::*;

verus! {

/// For `overlay_enabled`.
pub const OVERLAY_ENABLED: &'static str =
    "Join the L3 overlay mesh (WireGuard-style private network). Default: off.";

/// For `overlay_multi_org`.
pub const OVERLAY_MULTI_ORG: &'static str =
    "Multi-org: let secondary [[orgs]] entries with overlay_mode=\"tun\" join their own tenant's mesh over the ONE shared TUN (same server_url as the primary required). Default: off.";

/// For `overlay_advertised_routes`.
pub const OVERLAY_ADVERTISED_ROUTES: &'static str =
    "CIDRs this node offers to route for overlay peers (subnet router); admin approval required. Comma-separated.";

/// For `overlay_exit_node_enabled`.
pub const OVERLAY_EXIT_NODE_ENABLED: &'static str =
    "Offer this node as an overlay exit node (advertises 0.0.0.0/0; admin approval required). Default: off.";

/// For `overlay_exit_node`.
pub const OVERLAY_EXIT_NODE: &'static str =
    "Route ALL of this node's internet egress through the named mesh peer (name or node-id hex). Empty = normal routing.";

/// For `advertise_routes`.
pub const ADVERTISE_ROUTES: &'static str =
    "CIDRs this host advertises for the tunnel/SOCKS mesh; admin approval required. Comma-separated.";

/// For `advertise_local_subnets`.
pub const ADVERTISE_LOCAL_SUBNETS: &'static str =
    "Auto-detect and advertise directly-connected IPv4 subnets (untrusted until admin-approved). Default: on.";

/// For `auto_grant_session`.
pub const AUTO_GRANT_SESSION: &'static str =
    "Auto-approve incoming remote-control session requests without an operator prompt. Default: on.";

/// For `enable_remote_browse`.
pub const ENABLE_REMOTE_BROWSE: &'static str =
    "Answer remote filesystem-browse requests from the controller. Default: on.";

/// For `exec_enabled`.
pub const EXEC_ENABLED: &'static str =
    "Run Fleet-RPC commands sent by the server (commands inherit the daemon's SYSTEM/root identity). Default: OFF.";

/// For `macos_supervise_gui_worker`.
pub const MACOS_SUPERVISE_GUI_WORKER: &'static str =
    "macOS only. Let the root daemon spawn and babysit the GUI-session worker (FR-43 P1). Stands down whenever the LaunchAgent is loaded, so one enrollment is never served twice. Default: OFF.";

/// For `power_policy`.
pub const POWER_POLICY: &'static str =
    "Ask the OS to stay awake so this device stays reachable (FR-55). `on-ac` is the setting a laptop usually wants. A live remote-control or SSH session ALWAYS holds the machine awake regardless of this. ⚠️ macOS clamshell sleep (lid closed, no external display) ignores it — an OS limit, not a setting. Default: never.";

/// For `remote_config_enabled`.
pub const REMOTE_CONFIG_ENABLED: &'static str =
    "Accept configuration pushed by the control plane. NEVER settable by the server — it is what keeps exec_enabled/ssh_enabled refusable by a compromised one. Turning it ON delegates that last refusal. Default: OFF.";

/// For `ssh_enabled`.
pub const SSH_ENABLED: &'static str =
    "Serve SSH in-process on this node's overlay address (intercepted before the OS; sessions inherit the daemon's SYSTEM/root identity). Default: OFF.";

/// For `ssh_activity_log`.
pub const SSH_ACTIVITY_LOG: &'static str =
    "Report SSH session activity to the org: commands and their exit codes, and that a shell / SFTP / forward happened. NEVER session content — no pty stream, no command output. Default: OFF.";

/// For `ssh_port`.
pub const SSH_PORT: &'static str =
    "TCP port intercepted on the overlay address when ssh_enabled is on (1-65535). Empty = built-in default (2222).";

/// For `ssh_authorized_keys`.
pub const SSH_AUTHORIZED_KEYS: &'static str =
    "Comma-separated OpenSSH public keys allowed to open an SSH session. Empty = nobody (ssh_enabled alone grants no access). Set ssh_account_mode too, or these keys authenticate and run nothing.";

/// For `ssh_account_mode`.
pub const SSH_ACCOUNT_MODE: &'static str =
    "What an ssh_authorized_keys session runs as: daemon | console_user | named:<account>. Empty = sessions authenticate but run nothing (listing a key must not silently hand out SYSTEM/root).";

/// For `ssh_max_privilege`.
pub const SSH_MAX_PRIVILEGE: &'static str =
    "Ceiling on what a SERVER-GRANTED ssh session may run as: daemon (or empty) = no device-side limit; console_user = a grant asking for the daemon identity is refused. The device's answer to 'what do I still refuse when the server asking is the compromised thing'.";

/// For `encoder_preference`.
pub const ENCODER_PREFERENCE: &'static str =
    "Video encoder selection: auto (HW probe then fallback), hardware, or software.";

/// For `update_check_interval_h`.
pub const UPDATE_CHECK_INTERVAL_H: &'static str =
    "Hours between self-update checks (1-8760). Empty = built-in default (24 h).";

/// For `overlay_quic`.
pub const OVERLAY_QUIC: &'static str =
    "QUIC-over-TURN overlay carrier. Built-in default: off.";

/// For `overlay_direct`.
pub const OVERLAY_DIRECT: &'static str =
    "Direct (LAN / hole-punched) overlay carriers. Built-in default: on.";

/// For `overlay_derp`.
pub const OVERLAY_DERP: &'static str =
    "DERP (WebSocket-relay) overlay fallback tier. Built-in default: on.";

/// For `overlay_server_relay_strategy`.
pub const OVERLAY_SERVER_RELAY_STRATEGY: &'static str =
    "U2 — accept the server's computed relay-tier verdict instead of the local derivation. Built-in default: off.";

/// For `overlay_derp_floor`.
pub const OVERLAY_DERP_FLOOR: &'static str =
    "Overlay v3 Phase A — DERP always-on floor: keep the central /derp mux open + registered for the whole session, advertise the capability, and floor fresh pairs at birth. Built-in default: on since rc.400.";

/// For `overlay_org_relay`.
pub const OVERLAY_ORG_RELAY: &'static str =
    "FR-19 P4b - ride a tenant-owned ORG RELAY when the server mints a session for a pair (org switch on, an ACL rule granting each member the relay node, an approved and serving relay). Advertised on the join as supports_org_relay; the serving half is relay_server_enabled. Built-in default: OFF.";

/// For `relay_server_enabled`.
pub const RELAY_SERVER_ENABLED: &'static str =
    "FR-19 - offer this node as an ORG RELAY: bind relay_server_port and answer reachability probes (it forwards nothing until the relay data path ships). Device-local by design and never server-pushable: this is the refusal that survives a compromised server. Built-in default: OFF.";

/// For `relay_server_port`.
pub const RELAY_SERVER_PORT: &'static str =
    "FR-19 - UDP port for the org-relay listener (1-65535). Built-in default: 3478, measured rather than guessed - the corp-managed target host reaches 3478 on an arbitrary public IP and no other port. A successful bind does NOT prove reachability: a coturn DNAT can consume the port in PREROUTING while ss shows it free.";

/// For `overlay_netcheck`.
pub const OVERLAY_NETCHECK: &'static str =
    "Overlay v3 Phase B — netcheck: measure egress capabilities (relay-band probe over the dialer path, STUN/NAT, /derp health) every ~20 min and publish the capability vector. Built-in default: on.";

/// For `tunnel_derp_fallback`.
pub const TUNNEL_DERP_FALLBACK: &'static str =
    "R4 — tunnel quic-derp-v1 fallback: after repeated quick tunnel session deaths (a corp capture window killing fresh TURN/TLS legs), lead the next attempt with QUIC over the ESTABLISHED /derp WS. Client-side only. Built-in default: off.";

/// For `tunnel_peers_survive_reattach`.
pub const TUNNEL_PEERS_SURVIVE_REATTACH: &'static str =
    "R3 — keep established tunnel QUIC peers alive across a control-WS reattach instead of tearing them down on every transient WS drop, so a QUIC/derp data plane survives a corp-VPN control-WS blip. Needs the server-side grace. Agent (target) side. Built-in default: off.";

/// For `overlay_mbb`.
pub const OVERLAY_MBB: &'static str =
    "Make-before-break overlay carrier upgrades. Built-in default: on.";

/// For `overlay_lan_iface_filter`.
pub const OVERLAY_LAN_IFACE_FILTER: &'static str =
    "LAN-gather virtual-interface filter (skip WSL/Hyper-V/other-VPN adapters). Built-in default: on.";

/// For `overlay_wsl_mirrored_guard`.
pub const OVERLAY_WSL_MIRRORED_GUARD: &'static str =
    "WSL2 mirrored-networking guard: a mirrored guest shares the Windows host's adapters, so skip its LAN gather (binding the host's address starves the host agent). Built-in default: on.";

/// For `overlay_init_auth_first`.
pub const OVERLAY_INIT_AUTH_FIRST: &'static str =
    "Auth-first handshake routing on a multi-org carrier plane: route an inbound WG initiation by trial-authentication instead of the source shortcut (fixes the dual-org direct lockout). Built-in default: on.";

/// For `overlay_srflx_seek`.
pub const OVERLAY_SRFLX_SEEK: &'static str =
    "srflx SEEKING mode: when the STUN gather finds no public candidate, keep re-gathering with backoff + on interface events instead of staying NONE for the daemon lifetime. Built-in default: on.";

/// For `ws_replaced_exit`.
pub const WS_REPLACED_EXIT: &'static str =
    "LEGACY ReplacedByNewer escalation: exit the process after 3 displacements in the window instead of backing off in-process. Built-in default: off (W4d — zombie-WS storms must not tear down the overlay).";

/// For `overlay_warm_relay`.
pub const OVERLAY_WARM_RELAY: &'static str =
    "C4 stage 1: keep one standing warm TURN/UDP allocation (established while UDP works) alive across VPN transitions — measurement-only, nothing routes over it yet. Built-in default: off.";

/// For `overlay_quic_async`.
pub const OVERLAY_QUIC_ASYNC: &'static str =
    "Raw-first QUIC-over-TURN upgrade: commit the raw relay immediately, rendezvous in the background (90s window), swap in on success. Off restores the blocking 8s pre-install window. Built-in default: on.";

/// For `overlay_vpn_vantage`.
pub const OVERLAY_VPN_VANTAGE: &'static str =
    "R2: srflx gather falls back to the wildcard public-dial socket when every LAN-bound vantage is dead (full-tunnel VPN rescue — on AnyConnect-class clients the tunnel is the only path that passes UDP). Built-in default: on.";

/// For `overlay_netd`.
pub const OVERLAY_NETD: &'static str =
    "Track A stage 1 (SCAFFOLD): spawn the session-independent network daemon (roomlerd netd) as a second supervisor child. netd hosts nothing yet; flag read at service start. Built-in default: off.";

/// For `overlay_pathmon`.
pub const OVERLAY_PATHMON: &'static str =
    "Overlay PathMonitor mode: on (authoritative — built-in default) | shadow (compare-only revert rail) | off. Env: ROOMLERD_OVERLAY_PATHMON.";

/// For `overlay_demote`.
pub const OVERLAY_DEMOTE: &'static str =
    "B2 - score-driven demotion of degraded-but-live direct carriers: shadow (count only - built-in default) | on | off. Env: ROOMLERD_OVERLAY_DEMOTE.";

/// For `overlay_rpf`.
pub const OVERLAY_RPF: &'static str =
    "P4 - ingress filtering of inbound overlay packets: drops a SOURCE address the sending peer does not own, and a DESTINATION outside the subnets this node advertises. warn (count + log, still deliver - built-in default) | enforce | off. Env: ROOMLERD_OVERLAY_RPF.";

/// For `overlay_route_events`.
pub const OVERLAY_ROUTE_EVENTS: &'static str =
    "Event-driven route guard (OS route-table change subscription; the blind tick backstops it). Built-in default: on.";

/// For `overlay_route_tick_secs`.
pub const OVERLAY_ROUTE_TICK_SECS: &'static str =
    "Route-guard blind-tick seconds while the route-event subscription is live (2-300; 2 = pre-demotion war cadence). Built-in default: 30. Always 2 s without a live subscription.";

/// For `overlay_netmon`.
pub const OVERLAY_NETMON: &'static str =
    "netstate - the process-wide network monitor: ONE OS change subscription, typed snapshots/deltas, non-blocking fan-out (the route-event feed and the PR-2 reaction fast lanes ride it). Built-in default: on.";

/// For `overlay_netmon_debounce_ms`.
pub const OVERLAY_NETMON_DEBOUNCE_MS: &'static str =
    "netstate - debounce window in ms coalescing OS signal bursts (a VPN connect injects dozens of routes) into one delta (100-5000). Built-in default: 750.";

/// For `netstack_socks_port`.
pub const NETSTACK_SOCKS_PORT: &'static str =
    "Multi-org: the loopback SOCKS5 port serving THIS org's userspace netstack (overlay_mode=\"netstack\"). One TCP listener per org — two orgs configured onto one port means the second joins no mesh. The primary reads ROOMLERD_OVERLAY_NETSTACK_SOCKS instead; set this on an [[orgs]] entry. Built-in default: unset (OS-TUN mode).";

/// For `rc_max_sessions`.
pub const RC_MAX_SESSIONS: &'static str =
    "Concurrent remote-control sessions this agent accepts (1-8). Same-profile DC viewers share one capture+encoder (see shared_encoder); distinct profiles run their own — weak-GPU hosts may prefer 1. Built-in default: 2.";

/// For `overlay_direct_port`.
pub const OVERLAY_DIRECT_PORT: &'static str =
    "Stable UDP base port for the overlay direct sockets (per-interface LAN; the public/srflx dialer takes base+256). Stateful corp firewalls grandfather pre-VPN UDP flows — a stable port lets a rebuilt carrier reuse the same 5-tuple instead of relay-locking. A swallowed base walks an 8-port band, then the same walk at base+512 (Hyper-V/WSL reserve invisible pools that move between boots). 0 = ephemeral ports. Built-in default: DERIVED per machine (43648 + machine-id-hash slot, 43648..43896) so siblings behind one NAT never collide; set 43648 explicitly to pin the old fleet-wide constant. Env: ROOMLERD_OVERLAY_DIRECT_PORT.";

/// For `overlay_iface_metric`.
pub const OVERLAY_IFACE_METRIC: &'static str =
    "The overlay NIC's IPv4 interface metric (Windows). Windows ranks a route by route metric + INTERFACE metric; corp endpoint managers (Check Point, AnyConnect) mirror overlay prefixes at route metric 1 on an interface also pinned to 1, producing an exact tie that Windows breaks by lower ifIndex — the VPN's — and the per-destination pick is sticky, so peers stay captured across restarts. Unlike metric-0 routes (which those products delete), an interface metric has no route-monitor hook, so 0 wins outright. Raise only to make the overlay deliberately lose against another interface. Built-in default: 0. Env: ROOMLERD_OVERLAY_IFACE_METRIC.";

/// For `shared_encoder`.
pub const SHARED_ENCODER: &'static str =
    "P5 shared-floor encoder: concurrent same-profile DC viewers share one capture+encoder with floor-merged rate/dials. off = one pipeline per session (rc.302 behaviour). Built-in default: on.";

/// For `overlay_relay_tls`.
pub const OVERLAY_RELAY_TLS: &'static str =
    "Force overlay coturn allocations onto the TURNS/TCP (TLS) tier — corp-VPN probe. Built-in default: off.";

/// For `overlay_shared_carrier`.
pub const OVERLAY_SHARED_CARRIER: &'static str =
    "Multi-org v2 shared carrier plane: every org's engine shares ONE process-wide direct-socket set (receiver-index demux) instead of racing the per-org port band. Built-in default: off.";

/// For `overlay_roam`.
pub const OVERLAY_ROAM: &'static str =
    "WG-style endpoint roaming: adopt a peer's observed source after an authenticated inbound from it (repoints the carrier in place). Completes a punch from a symmetric-NAT peer and heals a mid-session NAT rebind. off = strict no-roam demux. Built-in default: on.";

/// For `overlay_plane_watchdog`.
pub const OVERLAY_PLANE_WATCHDOG: &'static str =
    "Carrier-plane socket-liveness watchdog: force a debounced plane rebuild when the shared punch-socket keepalive fails N consecutive cycles (reader-less/wedged socket). off = warn-only. Built-in default: on.";

/// For `overlay_session_trace`.
pub const OVERLAY_SESSION_TRACE: &'static str =
    "Diagnostic: per-session plane-demux + carrier-health INFO traces (inbound src vs expected, poke/proof/rx state). Verbose; enable briefly on an affected host to diagnose a specific peer's carrier. Built-in default: off.";

/// For `overlay_disco_respond`.
pub const OVERLAY_DISCO_RESPOND: &'static str =
    "Answer out-of-tunnel disco echoes on the carrier socket (path liveness, answered by the daemon itself — no OS, firewall or tunnel session involved). Answering only; this node does not probe. Built-in default: on.";

/// For `overlay_disco_probe`.
pub const OVERLAY_DISCO_PROBE: &'static str =
    "Probe peers with out-of-tunnel disco echoes and record per-path loss + RTT. Measurement only — nothing acts on the table (scoring is a later stage). Built-in default: off; enable only where every peer already answers.";

/// For `overlay_answer_while_followed`.
pub const OVERLAY_ANSWER_WHILE_FOLLOWED: &'static str =
    "Answer a peer's direct handshake even while that tier is suppressed, when accepting cannot cost the relay (it becomes a shadow probe). The demote-follow hold-down otherwise stops this node ANSWERING for up to 15 min, so two followed ends go mutually deaf and a good LAN pair sits on relay. Built-in default: ON since 0.4.2 (set false as the kill switch).";

/// For `overlay_tun_stable_guid`.
pub const OVERLAY_TUN_STABLE_GUID: &'static str =
    "Stable Wintun adapter identity (constant requested GUID + boot stray-adapter sweep; Windows). Built-in default: on.";

/// For `overlay_route_evict`.
pub const OVERLAY_ROUTE_EVICT: &'static str =
    "Route-war eviction of competing VPN-installed routes for overlay prefixes (Windows). Built-in default: on.";

/// For `overlay_route_reclaim`.
pub const OVERLAY_ROUTE_RECLAIM: &'static str =
    "Route-war stolen-path reclaim (targeted evict + cache pin for tie-captured destinations) and evict-on-change debounce (Windows). Built-in default: on.";

/// For `overlay_tun_persist`.
pub const OVERLAY_TUN_PERSIST: &'static str =
    "Keep the overlay TUN device alive across signaling reconnects (process-lifetime cache). Built-in default: on.";

/// For `overlay_route_metric0`.
pub const OVERLAY_ROUTE_METRIC0: &'static str =
    "Install defended peer /32s (and the ULA /96 + connected /10) at route metric 0 so they outrank a corp VPN's metric-1 mirror routes (Windows). Built-in default: off — an opt-in experiment that auto-yields to metric 1 where a VPN route monitor deletes routes that would win.";

/// For `overlay_route_win`.
pub const OVERLAY_ROUTE_WIN: &'static str =
    "Win the contested prefixes outright instead of evicting a competitor off them forever (Windows). Built-in default: off. Two halves: it pins the overlay adapter's IPv6 interface metric, the lever IPv4 has had since rc.410 and IPv6 never got; and it asserts the derived-ULA /96 AND the connected v4 prefix (the carved block or legacy /10) at the defended route metric 1 instead of the stock connected-route 256. Measured against a corp VPN, v6 was 261 for us vs 26 for the VPN — lost outright, which is why the route guard evicts the VPN's mirrored /96 about 20 times a minute forever on a host whose IPv4 is quiet; the v4 half closes the same gap on the carved block, where the VPN holds it at effective 2 against our 256. Not the metric-0 variant a VPN route monitor deletes outright — it uses the same metric 1 IPv4 runs fleet-wide.";

/// For `local_turn`.
pub const LOCAL_TURN: &'static str =
    "Loopback-TURN relay for controllers on the same corporate network. Built-in default: on.";

/// For `dns_aaaa`.
pub const DNS_AAAA: &'static str =
    "MagicDNS AAAA (IPv6) answers for overlay names. Built-in default: on.";

/// For `magicdns_hosts`.
pub const MAGICDNS_HOSTS: &'static str =
    "MagicDNS hosts-file fallback: when the OS DNS path is MEASURED not to reach the local resolver (a corporate DNS-enforcement layer refusing the host's own queries), write overlay names into the hosts file instead, and remove them again as soon as DNS works. Built-in default: off.";

/// For `auto_update`.
pub const AUTO_UPDATE: &'static str =
    "Periodic self-update checks (also gates web-pushed updates). Built-in default: on.";

/// For `logs_upload_disabled`.
pub const LOGS_UPLOAD_DISABLED: &'static str =
    "Disable centralized diagnostic-log upload. Built-in default: uploads on.";

/// For `rate_factor_h264`.
pub const RATE_FACTOR_H264: &'static str =
    "H.264 maxrate ceiling factor, % (50-400). Env: ROOMLERD_RATE_FACTOR_H264. Empty = built-in 150. Restart required.";

/// For `rate_factor_hevc`.
pub const RATE_FACTOR_HEVC: &'static str =
    "HEVC maxrate ceiling factor, % (50-400). Env: ROOMLERD_RATE_FACTOR_HEVC. Empty = built-in 125. Restart required.";

/// For `rate_factor_vp9`.
pub const RATE_FACTOR_VP9: &'static str =
    "VP9 maxrate ceiling factor, % (50-400). Env: ROOMLERD_RATE_FACTOR_VP9. Empty = built-in 125. Restart required.";

/// For `rate_factor_av1`.
pub const RATE_FACTOR_AV1: &'static str =
    "AV1 maxrate ceiling factor, % (50-400). Env: ROOMLERD_RATE_FACTOR_AV1. Empty = built-in 100. Restart required.";

/// For `lanczos_min_pct`.
pub const LANCZOS_MIN_PCT: &'static str =
    "P7 - minimum linear downscale (percent, 0-100) at which the Lanczos-3 text-sharp filter engages; shallower shrinks use box. Empty = built-in 34 (covers the Smoother rungs; 56 restores the pre-P7 gate; 0 = always). Env: ROOMLERD_LANCZOS_MIN_PCT. Restart required.";

/// For `nvenc_spatial_aq`.
pub const NVENC_SPATIAL_AQ: &'static str =
    "P7 - NVENC spatial AQ. Built-in default: OFF (AQ steals bits from desktop text); true restores it for camera-heavy hosts. Env: ROOMLERD_NVENC_SPATIAL_AQ. Restart required.";

/// For `scale_cq_boost`.
pub const SCALE_CQ_BOOST: &'static str =
    "P7 - CQ sharpening steps granted at deep resolution rungs (0-12; spends the maxrate-floor headroom on text). Empty = built-in 4; 0 disables. Env: ROOMLERD_SCALE_CQ_BOOST. Restart required.";

/// For `idle_refine`.
pub const IDLE_REFINE: &'static str =
    "P7 - idle native-rung refinement: lift the resolution cap when the scene settles so text is crisp at rest; motion restores it in ~300 ms. Built-in default: on (Smoother scope). Env: ROOMLERD_IDLE_REFINE. Restart required.";

/// For `idle_refine_balanced`.
pub const IDLE_REFINE_BALANCED: &'static str =
    "P7 - idle refinement on Balanced+relay sessions (lifts the B1 physics cap at idle). Built-in default: on since P7c (field-proven on the winhost-b relay); off restores the un-refined Balanced rung. Env: ROOMLERD_IDLE_REFINE_BALANCED. Restart required.";

/// For `gpu_scale`.
pub const GPU_SCALE: &'static str =
    "HW-downscale Phase B - GPU scale-before-readback (D3D11 VideoProcessor) on DXGI-direct capture: the Smoother rung is scaled on the GPU and the readback shrinks with it. Built-in default: on; off reverts to the Phase-A CPU resample. Env: ROOMLERD_GPU_SCALE. Restart required.";

/// For `overlay_lan_capture_probe`.
pub const OVERLAY_LAN_CAPTURE_PROBE: &'static str =
    "FR-33 - probe each LAN prefix for a corp-VPN split-prefix capture (own address on interface A, traffic to the prefix leaves via interface B) and surface it in status / why / the RC pill. Built-in default: on (a read-only route lookup per LAN address per netstate snapshot). Env: ROOMLERD_OVERLAY_LAN_CAPTURE_PROBE. Restart required.";

/// For `relay_ceiling_learn`.
pub const RELAY_CEILING_LEARN: &'static str =
    "FR-35 - let the constrained (relay) ceiling grow above the nominal 3 Mbps on delivery evidence (AIMD pinned at the ceiling, the window carried >=70% of it, no decrease/stall for 10 s, viewer age within 1.5x floor) and remember the pair's stable rate so the next session opens there. Built-in default: on. Env: ROOMLERD_RELAY_CEILING_LEARN. Restart required.";

/// For `drm_capture`.
pub const DRM_CAPTURE: &'static str =
    "FR-36 - capture the scanout framebuffer via DRM/KMS, BELOW the compositor. The only backend that can see a Wayland desktop, a locked screen or the login greeter (the xdg portal refuses all three). Built-in default: OFF - it carries no damage information, so enabling it where X11 works costs the FR-29 idle-CPU win. Env: ROOMLERD_DRM_CAPTURE. Restart required.";

/// For `uinput`.
pub const UINPUT: &'static str =
    "FR-36 - inject input through /dev/uinput, below the compositor. Pair with drm_capture on a Wayland host: XTest reaches Xwayland clients ONLY, so without this a captured Wayland session is read-only. Built-in default: OFF - a uinput device is host-global and injects into whatever has focus, including the greeter and lock screen. Env: ROOMLERD_UINPUT. Restart required.";

/// For `portal_capture`.
pub const PORTAL_CAPTURE: &'static str =
    "FR-45 - capture a Wayland desktop through xdg-desktop-portal ScreenCast + PipeWire. The ATTENDED path: needs a logged-in user session, and the first use shows that user a consent dialog (later ones restore the grant without asking). Serves hosts DRM cannot reach - no scanout, nested compositors. Built-in default: OFF - an unattended host would wait forever on a dialog nobody answers. Tried after DRM, before X11. Env: ROOMLERD_PORTAL_CAPTURE. Restart required.";

/// For `portal_input`.
pub const PORTAL_INPUT: &'static str =
    "FR-45 P4 - inject input through the portal RemoteDesktop interface, riding the SAME portal session (one consent dialog covers see+touch). Built-in default: OFF - a WithInput session needs its own see+touch consent + restore token, so enabling it makes every portal capture prompt afresh (and block or fall through if unanswered), regressing capture where capture-only works; it has also not yet been field-proven to land input. On = the portal session can be controlled; inert unless portal_capture is on. NOTE (measured on GNOME): this key alone is not enough - the portal's consent dialog carries a SEPARATE 'Allow Remote Interaction' switch that defaults OFF, so a human who only clicks Share grants capture and the session runs view-only. Env: ROOMLERD_PORTAL_INPUT. Restart required.";

/// For `mutter_capture`.
pub const MUTTER_CAPTURE: &'static str =
    "FR-45 P5 - take screencast frames from org.gnome.Mutter.ScreenCast DIRECTLY instead of the desktop portal. For hosts where no portal backend can run at all (measured on WSL2: xdg-desktop-portal-gnome exits without a GNOME session, while mutter itself works). GNOME-only. Built-in default: OFF. ** UNATTENDED - this shows NO consent dialog; its peer is drm_capture, not portal_capture.** Env: ROOMLERD_MUTTER_CAPTURE. Restart required.";

/// For `window_capture`.
pub const WINDOW_CAPTURE: &'static str =
    "FR-56 P4 - capture ONE application window instead of the whole monitor (the RAIL-shaped half of Remote Apps: the viewer sees one app, not the desktop). Built-in default: OFF. ** ATTENDED BY CONSTRUCTION - the portal answers this by showing the person at the screen a WINDOW PICKER, and nothing agent-side can name a window (GNOME refuses Introspect.GetWindows), so on an unattended host the capture never starts.** Env: ROOMLERD_WINDOW_CAPTURE. Restart required.";

/// For `x11_damage`.
pub const X11_DAMAGE: &'static str =
    "FR-29 - skip the XShm readback when XDAMAGE proves the screen is unchanged. Built-in default: on; took a Linux host's idle capture from 45.8% of a core to 2.8%. Env: ROOMLERD_X11_DAMAGE. Restart required.";

/// For `overlay_key_rotation`.
pub const OVERLAY_KEY_ROTATION: &'static str =
    "FR-40 - honour rc:agent.key_rotate: an admin retiring this device's overlay (WireGuard) key from the dashboard. The device mints the new key locally, persists it and re-joins the mesh under it; the server never sees a private key. Built-in default: on (a kill switch, not a gate - the order leaks nothing). Env: ROOMLERD_OVERLAY_KEY_ROTATION. Restart required.";

/// For `relay_max_hi_kbps`.
pub const RELAY_MAX_HI_KBPS: &'static str =
    "FR-35 - upper bound (kbps, 0-100000) for the learned relay ceiling. Empty = built-in 8000 (one pair measured: sustained 6-9 Mbps, choked at 12.8); 0 = learning off. Env: ROOMLERD_RELAY_MAX_HI_KBPS. Restart required.";

/// For `idle_refine_max_edge`.
pub const IDLE_REFINE_MAX_EDGE: &'static str =
    "P7 - long-edge cap for the refined rung (0-8192). Empty/0 = full native. Env: ROOMLERD_IDLE_REFINE_MAX_EDGE. Restart required.";

/// For `idle_refine_min_frame_kb`.
pub const IDLE_REFINE_MIN_FRAME_KB: &'static str =
    "P7c - encoded-size floor (KiB, 0-256) for a frame to count as motion in the idle-refine machine; caret/keystroke deltas stay invisible so terminals keep the crisp rung while typing. Defined at the 1024x640 reference rung and scaled by the live encode area (P7c-2 - a fixed floor oscillated across rungs). Empty = built-in 12; 0 = every real frame counts (pre-P7c). Env: ROOMLERD_IDLE_REFINE_MIN_FRAME_KB. Restart required.";

/// For `idle_refine_major_area_permille`.
pub const IDLE_REFINE_MAJOR_AREA_PERMILLE: &'static str =
    "P8a-2 - MAJOR-motion area floor (permille of the frame, 0-1000) on capture-tracked backends (DXGI-direct/WGC): only damage at/above it restores the resolution cap; smaller damage (typing, popups, windowed terminal scrolls, PiP video) stays at native so text is sharp all the time. Empty = built-in 400 (40%); 0 = any non-empty tracked damage counts (pre-P8a-2 posture). Env: ROOMLERD_IDLE_REFINE_MAJOR_AREA_PERMILLE. Restart required.";

/// For `idle_refine_settle_ms`.
pub const IDLE_REFINE_SETTLE_MS: &'static str =
    "P8a-2 - up-flip settle (ms, 100-5000) on capture-tracked backends: the cap lifts this long after the last major-damage frame (damage truth needs no 1s window drain). Empty = built-in 500. Env: ROOMLERD_IDLE_REFINE_SETTLE_MS. Restart required.";

/// For `idle_refine_settle_constrained_ms`.
pub const IDLE_REFINE_SETTLE_CONSTRAINED_MS: &'static str =
    "Phase B - tracked settle (ms, 100-10000) on CONSTRAINED transports: the cap lifts only after this long without major damage, because the refined IDR itself costs link time and a 500 ms settle fired on ordinary drag pauses (field: freezing/lag). Empty = built-in 1200 (2000 before the constrained HRD trim bounded the IDR). Env: ROOMLERD_IDLE_REFINE_SETTLE_CONSTRAINED_MS. Restart required.";

/// For `constrained_cq_relief`.
pub const CONSTRAINED_CQ_RELIEF: &'static str =
    "Constrained-motion CQ relief (softening steps, 0-12) applied at the resolution rung of a RELAY session; the rung exists for motion fluidity and softer frames arrive steadily instead of in lumps (field 2026-08-21: the sharpening bias at the rung was the 9 fps equilibrium). At-rest native quality is untouched; an explicit resolution pick is exempt. Empty = built-in 4; 0 = no relief. Env: ROOMLERD_CONSTRAINED_CQ_RELIEF. Restart required.";

/// For `constrained_queue_ms`.
pub const CONSTRAINED_QUEUE_MS: &'static str =
    "Constrained send-queue byte budget (ms of the relay ceiling, 0-2000): frame production skips while more than this much link time is queued, converting viewer lag into a small fps reduction (field 2026-08-21: the drag-start freeze was ~0.5-1 MB of native motion frames queued on a ~2 Mbps relay). Empty = built-in 450; 0 = unbounded (pre-rc.442). Env: ROOMLERD_CONSTRAINED_QUEUE_MS. Restart required.";

/// For `constrained_hrd_pct`.
pub const CONSTRAINED_HRD_PCT: &'static str =
    "HRD/VBV window for CONSTRAINED sessions (percent of maxrate, 25-200). Empty = built-in 200 (the rc.234 2x window; rc.442 defaulted 75 to bound IDR transit and rc.443 reverted it - av1_qsv errors and hangs on a forced IDR that exceeds a sub-1x reservoir). Sub-100 values are per-host experiments only. Env: ROOMLERD_CONSTRAINED_HRD_PCT. Restart required.";

/// For `direct_queue_ms`.
pub const DIRECT_QUEUE_MS: &'static str =
    "DIRECT-path send-queue byte budget (ms of the path's rate ceiling, 0-2000; it was ms of the AIMD's live target until FR-74 P1 measured that as a self-reinforcing trap): frame production skips while more than this much link time is queued, bounding the standing lag a drag burst can build on a direct session (field 2026-08-26: 100-345 KB queued = the sluggish, rubber-band drag). Empty = built-in 150; 0 = unbounded (pre-P1 posture). Env: ROOMLERD_DIRECT_QUEUE_MS. Restart required.";

/// For `direct_hrd_pct`.
pub const DIRECT_HRD_PCT: &'static str =
    "HRD/VBV window for DIRECT sessions (percent of maxrate, 25-200). Empty = built-in 100 - half the rc.234 2x window, which legalised drag-start bursts of seconds' worth of bits (the standing-queue lag). av1_* encoders are floored at 200 regardless (rc.443: Intel AV1 VDENC errors on an over-reservoir IDR instead of QP-clamping). Env: ROOMLERD_DIRECT_HRD_PCT. Restart required.";

/// For `bg_rebuild`.
pub const BG_REBUILD: &'static str =
    "Background encoder rebuild (2026-08-27, drag-latency P3). Default ON: on encoders with no in-place bitrate reconfigure (QSV/AMF), a bitrate change opens the replacement on a blocking thread while the current encoder keeps producing, then swaps between frames - no mid-drag stall, and rate drops land DURING motion as smaller frames instead of production skips. false = the rc.445 motion-defer (applies held until 1.2s of quiet, then a blocking re-open). Env: ROOMLERD_BG_REBUILD. Restart required.";

/// For `par_convert`.
pub const PAR_CONVERT: &'static str =
    "Parallel colour conversion (2026-08-27, drag-latency P5). Default ON: big frames run the BGRA->NV12/I444 convert in row bands across threads - byte-identical output, roughly halves the convert share of encode time at 2880x1800+. false = single-threaded convert. Env: ROOMLERD_PAR_CONVERT. Restart required.";

/// For `fps_pace`.
pub const FPS_PACE: &'static str =
    "fps-first cadence pacing on HW encoders (2026-08-27, drag-latency P5). Default ON: when the encoder cannot hold target fps, frames are consumed on an EVEN grid at the sustainable rate (5 fps steps, floor 15) instead of dropping ~33% at random phases - even cadence beats a jittery higher rate. While engaged the encode-pressure bitrate factor is masked at 1.0 (pixels-bound HW encode time does not respond to bitrate); the resolution tier stays the second lever. false = unpaced pre-P5 behaviour. Env: ROOMLERD_FPS_PACE. Restart required.";

/// For `relay_idr_thrift`.
pub const RELAY_IDR_THRIFT: &'static str =
    "Relay IDR thrift (2026-08-27, FR-10). Default ON: constrained (relay) sessions suppress the idle-settle keyframe (a quality refresh, not a correctness need on a reliable DataChannel - the request-driven resync stays) and space deferred bitrate re-opens to >=15s unless the move is >=40%. Each such IDR was a single ~300 KB frame = 1.2-1.5s of a ~2 Mbps relay (the CORPLAP-3 bulky lumps). false = previous relay behaviour. Direct sessions unaffected. Env: ROOMLERD_RELAY_IDR_THRIFT. Restart required.";

/// For `send_stall_ms`.
pub const SEND_STALL_MS: &'static str =
    "Blocked-send congestion threshold in ms (2026-08-28, FR-15 P2 follow-up). Default 250; 0 disables. A frame that sat longer than this inside the DataChannel send call is unambiguous congestion - the pipe refused to drain - and the pump feeds the AIMD a congestion sample. This is the one congestion signal that needs NO clock sync and NO viewer and works on both transports, which matters on a relay where the measured-rate clamp is direct-only and the age loop rides a probe the congestion itself biases. Acted on for CONSTRAINED sessions only; direct keeps the measured ceiling. Env: ROOMLER_NODE_SEND_STALL_MS. Restart required.";

/// For `relay_age_feedback`.
pub const RELAY_AGE_FEEDBACK: &'static str =
    "Relay age feedback (2026-08-27, FR-15). Default ON: the viewer reports the true paint AGE of the frames it showed (the FR-1 P7 clock probe) on its rc:decodestat window; the agent learns the session's age FLOOR and treats sustained excess (>=70ms over floor for 2 consecutive windows) on a CONSTRAINED transport as over-rate - capping send-fps and feeding the AIMD a congestion sample, so the decrease lands through the normal (FR-10-deferred) apply path. It exists because a relay backlog sits BELOW every agent counter: the field measured 1000ms of viewer age against a 26KB agent queue. false = open-loop 0.4.7 relay posture. Direct sessions unaffected. Env: ROOMLERD_RELAY_AGE_FEEDBACK. Restart required.";

/// For `measured_ceiling`.
pub const MEASURED_CEILING: &'static str =
    "Measured-rate stage 1 (2026-08-27). Default ON: the bitrate ceiling is clamped to 85% of the session's MEASURED drain rate while an estimate holds, so the encoder converges just under the pipe instead of congesting the send queue on every drag burst (the chunky production skips). Only ever lowers the nominal ceiling; confidence decays after 60s without evidence. false = observe-and-report only. Env: ROOMLERD_MEASURED_CEILING. Restart required.";

/// For `encoder_inplace_rate`.
pub const ENCODER_INPLACE_RATE: &'static str =
    "In-place encoder rate changes (2026-09-02, FR-62 A1). Default OFF: a QSV rate move REBUILDS the encoder (a 0.65-0.87 s blocking open on Iris-Xe-class, the reason the defer/swap machinery exists), and the NVENC in-place move writes a 1x HRD buffer. ON: QSV writes bit_rate + rc_max_rate + rc_buffer_size on the AVCodecContext (qsvenc's per-frame update_bitrate resets the BRC, no rebuild) and NVENC sizes the buffer to the window the session opened with. Ships OFF and inert until A0 clears the QSV MFXVideoENCODE_Reset on real Iris-Xe silicon; OFF is byte-for-byte the pre-A1 behaviour. Env: ROOMLERD_ENCODER_INPLACE_RATE. Restart required.";

/// For `ice_relay_tcp`.
pub const ICE_RELAY_TCP: &'static str =
    "Pin remote-control's ICE to a TURN relay (diagnostic). Default OFF: the session takes whatever pair ICE nominates, and `constrained` is MEASURED from that pair (a public relay candidate = constrained; the loopback-TURN does not count). ON forces the relay path, which is bandwidth- and head-of-line-limited, so the encoder runs its constrained posture. ⚠️ This DEGRADES a session that would otherwise be direct - it is a test pin, not a tuning knob, and a device left with it set will be slow for no visible reason. It exists as a key because the constrained posture is otherwise only reproducible when a corporate VPN happens to be up, which makes every constrained-path acceptance test hostage to one laptop's network state; virtual-desktop mode sets the same flag for the same reason. Clear it (empty = default) when the measurement is done. WARNING: on a VIRTUAL-DESKTOP host with a hostile NAT the vd startup auto-pins this to 1, and its check for an explicit operator override reads the OS env var ONLY - so setting this key to false there does not defeat the auto-pin; use a real ROOMLERD_ICE_RELAY_TCP=0 for that one case. Env: ROOMLERD_ICE_RELAY_TCP. Restart required.";

/// For `relay_max_kbps`.
pub const RELAY_MAX_KBPS: &'static str =
    "Bitrate ceiling for a CONSTRAINED (relay) remote-control transport, kbps. Built-in default: 3000; clamped 100-100000. A single TURN relay carries roughly 1-4 Mbps and head-of-line blocks on TCP, so a ceiling sized for a direct pair (a 1920x1200 pair resolves ~12 Mbps) collapses it. LOWER it on a relay population that is thinner than the default assumes. RAISE it only to build a deliberate over-drive for a rate-control measurement: field 2026-09-03, a forced-relay cell on CORPLAP-1 opened at the 2.55 Mbps plan rate into a coturn carrying ~3 Mbps, which is NOT an over-drive - the AIMD simply climbed to the cap and viewer age stayed at 30-49 ms, so the FR-63 A/B had nothing to measure. At 12000 the same real pipe and real encoder give a genuine 4x over-drive on demand, instead of waiting for a corporate VPN to produce one. Pairs with ice_relay_tcp. Env: ROOMLERD_RELAY_MAX_KBPS. Restart required.";

/// For `rate_slow_start`.
pub const RATE_SLOW_START: &'static str =
    "Slow-start the session opener (2026-09-03, FR-63). Default OFF. A session commits to a bitrate before it has any evidence about the pipe, and the same host over-drove from BOTH directions on one day: opened at a REMEMBERED 6134627 -> 6287ms of viewer paint age; opened at the NOMINAL relay cap 2550000 into a path measured at ~213000 -> 444ms of queue, 1550ms paint, and six windows collapsing back down. No constant is safe, because a constant is an assumption about a band. ON: open at 300000 (lifted by any PROVEN floor, e.g. the FR-59 P8 remembered-slow-pair open) and DOUBLE per clean window until the ceiling; the first congestion evidence ends the ramp and hands control back to the normal controller. A fast pair reaches a 6.1 Mbps ceiling in 5 windows. Only ever LOWERS the opening commitment - it can never raise a rate above what the controller already allows. Env: ROOMLERD_RATE_SLOW_START. Restart required.";

/// For `rate_prior_decay`.
pub const RATE_PRIOR_DECAY: &'static str =
    "A remembered rate is a prior, not a pin (2026-09-04, FR-70 P1). Default ON. The rate memory's number for a pair opens the session (FR-59 P8) and, until something measures the pipe, also stands in for the measurement: the legibility floor is relieved to 85% of it and the send-queue byte budget is denominated in it. Field 2026-09-04 (CORPLAP-1 -> neo16): a 200 kbps memory held a session at 200 kbps for four minutes with goodput=None, zero send stalls and zero viewer-congested windows - the queue budget (16 KB) tripped on every drag frame, each trip was an AIMD decrease, and a queue that never forms is a pipe that can never be measured, so nothing could ever contradict the memory. ON: while no live measurement exists the stand-in climbs x1.25 per 10 clean windows (+12.5% per 5 s, the AIMD's own slow-band step) toward the 1.5 Mbps band, the floor and the budget follow it up, and a live measurement (blocked-send goodput or the viewer's arrival rate while its queue grows) becomes the new base at once. A genuinely slow pipe is over-driven by no more than the AIMD would have and gets MEASURED within a window or two; a misremembered fast pair reaches the band in ~100 s. The session end records the measurement or the decayed prior instead of the last window's applied rate, which on a lumpy relay is wherever the last decrease left it. false = FR-59 P8 verbatim (the seed is a constant for the session). Env: ROOMLERD_RATE_PRIOR_DECAY. Restart required.";

/// For `transit_classify`.
pub const TRANSIT_CLASSIFY: &'static str =
    "Classify each constrained viewer window by which plane is the limiter (2026-09-05, FR-71 T1a). Default ON, and SHADOW ONLY: the heartbeat prints pipe_state (clear / overproduced / transit-stalled / viewer-late / unknown) with per-state counts, and nothing acts on the verdict until T1b (transit_hold). It exists because every rate loop reads the fused paint age as the encoder having produced too much: on 2026-09-04 a DERP/TCP head-of-line block held frames in transit for 4.9 s while the send queue held 1485 bytes, and the rate was cut into a link that was never the limiter. The verdict reads the FR-70 M0 age split (sender / transit / viewer) beside the sender's own queue: a full or gated send queue is overproduced whatever the path does; transit 200 ms over its learned floor with the browser near its floor is transit-stalled; the browser 100 ms over its floor, or struggling, is viewer-late; no split (a pre-M0 viewer) is unknown and changes nothing. false = no classification, no counters. Env: ROOMLERD_TRANSIT_CLASSIFY. Restart required.";

/// For `transit_hold`.
pub const TRANSIT_HOLD: &'static str =
    "Act on a transit-stalled window (2026-09-05, FR-71 T1b). Default OFF for one release: a controller change ships behind the shadow classifier's evidence. ON: when transit_classify calls a constrained viewer window transit-stalled (the send queue passed every sender-side check while the frames were held beyond it), the rate loops leave that window alone - the opener's ramp neither steps nor ends, the FR-15 age loop does not fire, the FR-59 P3 arrival clamp is held rather than re-armed or released, and the rate prior takes no push-back; the FR-59 P4 drain still runs, because a pause is a drain, not a cut. The heartbeat counts held windows as transit_holds. It exists because the alternative is what happened on 2026-09-04: a 4.9 s DERP head-of-line block read as over-production and the rate was cut into a link that was never the limiter. Needs transit_classify. false = classify only, act as today. Env: ROOMLERD_TRANSIT_HOLD. Restart required.";

/// For `media_thread`.
pub const MEDIA_THREAD: &'static str =
    "The encoder runs on its own OS thread per session (2026-09-05, FR-70 M1). Default ON since 0.4.70 - M1c met its gate on all three CORPLAP hosts on 0.4.69 (encode and capture averages unchanged, the loop's worst pass per window down on every host, the >50 ms windows fewer). ON: the FFmpeg encoder lives on a dedicated thread named rc-enc-<session> behind a command channel - the pump sends each frame and awaits the packets, and every rate move, keyframe request and background-rebuild adoption is a message applied in order - instead of encoding under block_in_place on whichever async worker happens to poll the pump. Nothing the pump decides changes: same frame, same decision, same packet, one thread hop later. What changes is that the async runtime is never held for the 5-30 ms of an encode (the send task, the control channel and the heartbeats stop sharing a worker with it) and hardware encoders that are thread-affine (Media Foundation per-thread COM, QSV sessions) are driven from one thread for the whole session. A thread that cannot be spawned falls back to the inline path with a warning; a thread that dies surfaces as the next encode's error, which the existing error ladder turns into a rebuild. Gate for flipping the default: FR-65's iter_ms_max / pump_stalls / apply_ms_max on the three CORPLAP hosts, unchanged or better. false = the inline encode, the pre-0.4.70 path. Env: ROOMLERD_MEDIA_THREAD. Restart required.";

/// For `pump_stall_watch`.
pub const PUMP_STALL_WATCH: &'static str =
    "Pump stall watch (2026-09-03, FR-65 P0). Default ON: a send-pump iteration slower than pump_stall_warn_ms is logged once with its phase breakdown (capture/scale/encode/apply/send), and the per-heartbeat apply_us / apply_us_max / iter_us_max / pump_stalls counters are published. Costs two Instant::now() per iteration (~20-40ns against a 16.7ms budget at 60fps) and logs nothing until an iteration actually overruns. It exists because a 2s blocking encoder open hid for months: the pump measured capture/scale/encode/send and the stall appeared in NONE of them - the apply/rebuild phase was untimed, and a per-heartbeat AVERAGE cannot represent a single outlier even where it is counted. false = no timing, no counters. Env: ROOMLERD_PUMP_STALL_WATCH. Restart required.";

/// For `pump_stall_warn_ms`.
pub const PUMP_STALL_WARN_MS: &'static str =
    "Pump stall threshold in ms (2026-09-03, FR-65 P0). Built-in default: 100; clamped 10-5000. Lowered from the 250 this shipped with, because the first field data said 250 was blind to the class that actually hurts: a corp-VPN host reported iter_ms_max=107.6 - real 100ms+ passes, matching the operator's own '>100ms' and '>148ms' age reports - while pump_stalls stayed 0. Deliberately a FLAT wall-clock threshold, NOT a multiple of the frame budget: the pump lowers target_fps BECAUSE it is already struggling, so a budget-relative bar RISES as the session degrades and stops reporting precisely when the trouble starts. Env: ROOMLERD_PUMP_STALL_WARN_MS. Restart required.";

/// For `bg_rebuild_constrained`.
pub const BG_REBUILD_CONSTRAINED: &'static str =
    "Off-thread encoder rebuild on CONSTRAINED transports too (2026-09-03, FR-65). Default ON: a rebuild-mode encoder open is 0.65-0.87s of BLOCKING work on Iris-Xe-class silicon, and running it on the send pump stalls capture, encode and send together - measured as a ~2s hole. The open now runs on spawn_blocking for constrained paths as it already did for direct ones. Changes only WHERE the open runs, never WHEN the change lands: adoption stays gated on the same quiet window the defer policy uses, so the swap's IDR still arrives on a static scene - adopting mid-motion on a thin pipe is the 2026-08-27 relay regression that put the !constrained guard there originally. false = rebuild inline on constrained paths (pre-FR-65). Env: ROOMLERD_BG_REBUILD_CONSTRAINED. Restart required.";

/// For `slow_link_floor`.
pub const SLOW_LINK_FLOOR: &'static str =
    "Slow-link floor relief (2026-09-01, FR-59 P1). Default ON: on a CONSTRAINED transport the AIMD legibility floor descends toward the session MEASURED drain rate instead of pinning at the flat 1.5 Mbps MIN_BITRATE_BPS. That flat floor is calibrated for the 2-9 Mbps band every measured relay sat in; on a slower link it is not a floor but a PIN, because it is also where the multiplicative decrease bottoms out - field 2026-09-01 measured a 395 kbps pipe met by a 1.5 Mbps floor, 3.8x over, with the excess landing as 2.3-7.1 s of viewer paint age. Evidence-gated: with no held goodput estimate the nominal floor stands, so a session that never measures is byte-for-byte unchanged. Never descends below slow_link_min_bitrate. false = flat floor (pre-FR-59). Env: ROOMLERD_SLOW_LINK_FLOOR. Restart required.";

/// For `slow_link_min_bitrate`.
pub const SLOW_LINK_MIN_BITRATE: &'static str =
    "Absolute stop for the FR-59 P1 floor relief, bps (50000-1500000). Empty = built-in 200000. Below roughly this a full-resolution frame is illegible at any QP, so the honest lever is fewer PIXELS rather than fewer bits; the relief exists to let the AIMD converge onto a slow pipe, not to chase it to zero. A value at or above the nominal 1.5 Mbps floor is inert by construction. Env: ROOMLERD_SLOW_LINK_MIN_BITRATE. Restart required.";

/// For `constrained_queue_measured`.
pub const CONSTRAINED_QUEUE_MEASURED: &'static str =
    "Constrained queue budget denominated in the MEASURED rate (2026-09-01, FR-59 P2). Default ON: the constrained send-queue byte budget is re-derived each iteration from the session measured drain rate instead of being resolved once against the nominal relay ceiling. A budget expressed in MILLISECONDS is a lie unless the bits-per-second it divides by is the pipe: constrained_queue_ms 450 against a nominal 3 Mbps is 168750 bytes, which on a measured 395 kbps link is 3.4 SECONDS of standing queue - and the limit never fired while the viewer sat seconds behind. A held measurement may only ever LOWER the reference. Note this consumes the same lumpy TURN-TCP estimate measured_ceiling deliberately refuses for the CEILING; the asymmetry is the point, since an under-estimate here shrinks the budget (more shedding, LOWER latency) where an under-estimated ceiling collapses quality. false = pre-FR-59. Env: ROOMLERD_CONSTRAINED_QUEUE_MEASURED. Restart required.";

/// For `seed_contradiction`.
pub const SEED_CONTRADICTION: &'static str =
    "Abandon a contradicted rate-memory seed (2026-09-01, FR-59 P6). Default ON: a held goodput measurement more than 2x below the FR-35 learned or seeded ceiling abandons it back to the nominal band. The rate memory keys on the nominated ICE pair remote address, which on a RELAYED session is the relay address rather than the viewer - so one fast day writes a number every later session through that relay inherits for the memory 7-day TTL, whatever network the client is on today (field 2026-09-01: a 5069353 bps seed opened a session on a hotspot measured at 395122 bps, 12.8x under it). Applies to an in-session learned ceiling too, since a measurement is evidence either way and re-climbing is something the learner already does. false = keep the seed until the AIMD walks it down. Env: ROOMLERD_SEED_CONTRADICTION. Restart required.";

/// For `viewer_rate_clamp`.
pub const VIEWER_RATE_CLAMP: &'static str =
    "Viewer-reported link clamp (2026-09-01, FR-59 P3). Default ON: the VIEWER reports the bytes/s it actually received and how much its transit queue GREW this window, and on a constrained transport a sustained growing queue caps send-fps, feeds the AIMD a congestion sample, and bounds the ceiling at 90% of the measured arrival rate. It exists because the agent structurally cannot see this: on a relayed path its own send channel reads empty (field 2026-09-01: bytes_inflight 1-4 KB, send_wait_max_ms 0.1 ms) while seconds of video sit in the relay and the carrier. Unlike the FR-15 age report it needs NO clock probe - a byte count is local and the queue drift is a difference of two intervals, so the unknown offset cancels - which matters because on exactly these links the age is absent or rejected in most windows. The arrival rate may bound the ceiling ONLY while the queue is growing, since otherwise it is merely whatever the agent happened to send. false = observe-and-report only. Env: ROOMLERD_VIEWER_RATE_CLAMP. Restart required.";

/// For `queue_drain`.
pub const QUEUE_DRAIN: &'static str =
    "Queue drain (2026-09-01, FR-59 P4). Default ON: when the viewer reports a transit queue deeper than a rate cut can clear in reasonable time, the pump STOPS producing for a bounded sub-second pause so the queue drains. A rate cut alone drains at capacity minus inflow, which is the slowest possible way - converging to 90% of a 400 kbps pipe clears a 2 s backlog at 40 kbps, i.e. over ~20 s, which is why a field session stayed seconds behind even after it stopped growing. Pausing sets inflow to zero so the same backlog clears in the ~2 s it represents. Deliberately no forced keyframe on resume: a pause loses no frames so the delta chain survives, and an IDR at these rates is itself seconds of transit. Skipping production rather than discarding the agent queue is the only lever that reaches a queue living in the relay and the carrier - those bytes are already sent and cannot be recalled. false = rate control only. Env: ROOMLERD_QUEUE_DRAIN. Restart required.";

/// For `slow_link_profile`.
pub const SLOW_LINK_PROFILE: &'static str =
    "Slow-link opening profile (2026-09-01, FR-59 P5). Default ON: a CONSTRAINED session whose pair the rate memory remembers at or below slow_link_profile_bps opens with a 1280 long-edge cap and 15 fps instead of native. The bitrate levers (FR-59 P1-P4) can make the encoder TRACK a 400 kbps pipe but cannot make 1920x1200 at 30 fps legible through it - that is about 1.7 KB per frame; halving the long edge quarters the pixels and halving the rate doubles the per-frame budget, together about 8x the bits per pixel. Resolved ONCE at pump start and never as a mid-session rung, because every rung flip pays a BLOCKING encoder open (0.65-0.87 s measured on Iris Xe) plus a fresh IDR - which is why priority_res_cap is off by default. A pair with NO memory never engages it: an unknown link is not a slow one, and guessing soft would degrade the first session on every healthy relay. false = open at the normal size. Env: ROOMLERD_SLOW_LINK_PROFILE. Restart required.";

/// For `slow_link_profile_bps`.
pub const SLOW_LINK_PROFILE_BPS: &'static str =
    "Remembered rate at or below which the FR-59 P5 slow-link profile engages, bps. Empty = built-in 1000000; 0 = never engage. Env: ROOMLERD_SLOW_LINK_PROFILE_BPS. Restart required.";

/// For `area_min_bitrate`.
pub const AREA_MIN_BITRATE: &'static str =
    "Area-scaled AIMD bitrate floor (2026-08-26). Default ON: the flat 1.5 Mbps floor was a 1080p legibility tuning and is unreadable mush at 5+ MPix; the scaled floor is ~3.1 Mbps at 2880x1800, capped 4 Mbps, unconstrained sessions only (a relay's 3 Mbps clamp keeps the flat floor so the MD keeps room). false = flat 1.5 Mbps floor. Env: ROOMLERD_AREA_MIN_BITRATE. Restart required.";

/// For `priority_res_cap`.
pub const PRIORITY_RES_CAP: &'static str =
    "rc.445 - restore the pre-rc.445 Priority-dial resolution caps (Smoother 1024 everywhere / Balanced 1280 on relay). Default OFF: every mid-motion rung flip costs a blocking encoder open (0.65-0.87s measured on Iris Xe) and the field verdict was that never flipping beats the rung; the dial's bit-shedding moved to the ceiling factors. Env: ROOMLERD_PRIORITY_RES_CAP. Restart required.";

/// For `smoother_rate_pct`.
pub const SMOOTHER_RATE_PCT: &'static str =
    "rc.445 - Smoother's bitrate-ceiling factor (percent, 30-100): a lower ceiling makes the HRD raise QP during motion continuously (smaller frames, steadier fps) with ZERO encoder rebuilds; at-rest quality untouched. Empty = built-in 70. Env: ROOMLERD_SMOOTHER_RATE_PCT. Restart required.";

/// For `balanced_rate_pct`.
pub const BALANCED_RATE_PCT: &'static str =
    "rc.445 - Balanced's bitrate-ceiling factor (percent, 30-100). Empty = built-in 85. Env: ROOMLERD_BALANCED_RATE_PCT. Restart required.";

/// For `scale_threads`.
pub const SCALE_THREADS: &'static str =
    "HW-downscale Phase A - worker threads (1-8) for the CPU resampler's row-banded passes; a lever for weak hosts where the Smoother rung's downscale eats the frame budget. Empty = built-in 1 (inline, no threads). Env: ROOMLERD_SCALE_THREADS. Restart required.";

/// For `ice_follow_renomination`.
pub const ICE_FOLLOW_RENOMINATION: &'static str =
    "Media-ICE nomination-follow policy. auto (empty) = upward-only + stale-failover (recommended); always = legacy follow-everything (thrash-prone, diagnostics only); never = pin to first nomination. Env: ROOMLER_ICE_FOLLOW_RENOMINATION.";

/// For `ice_warm_standby`.
pub const ICE_WARM_STANDBY: &'static str =
    "Keepalive pings on validated-but-unselected media ICE pairs (keeps the real-path fallback's NAT mapping alive). Built-in default: on. Env: ROOMLER_ICE_WARM_STANDBY.";

/// For `ice_overlay_host_deprioritize`.
pub const ICE_OVERLAY_HOST_DEPRIORITIZE: &'static str =
    "Rank overlay-TUN host candidates below srflx in media ICE (media prefers the real path). Built-in default: on. Env: ROOMLER_ICE_OVERLAY_HOST_DEPRIORITIZE.";

/// For `overlay_tier_detect`.
pub const OVERLAY_TIER_DETECT: &'static str =
    "Clamp media bitrate when the overlay carrier under a nominated pair is relay-tier. Built-in default: on. Env: ROOMLERD_OVERLAY_TIER_DETECT.";

/// For `overlay_rtt_q`.
pub const OVERLAY_RTT_Q: &'static str =
    "B1 - feed the 15 s overlay RTT probes into the PathMonitor quality plane (Q-only, never eligibility). Built-in default: on. Env: ROOMLERD_OVERLAY_RTT_Q.";

/// For `overlay_upward_probe`.
pub const OVERLAY_UPWARD_PROBE: &'static str =
    "B3 - probe an eligible higher tier from a healthy srflx/public incumbent every >=120 s (MBB; incumbent held until latch). Built-in default: on. Env: ROOMLERD_OVERLAY_UPWARD_PROBE.";

/// For `relay_probe`.
pub const RELAY_PROBE: &'static str =
    "Multi-region relay PoPs - probe the server-pushed region list (timed STUN per PoP) and report RTTs; the server derives this node's relay_home from them. Built-in default: on. Env: ROOMLERD_RELAY_PROBE.";

/// For `text_mod_neutralize`.
pub const TEXT_MOD_NEUTRALIZE: &'static str =
    "KeyText typing: temporarily release physically-held Shift/Ctrl/Alt the remote layout does not want around each character tap (fixes wrong/dead symbols on non-US layouts). Built-in default: on. Env: ROOMLERD_TEXT_MOD_NEUTRALIZE. Restart required.";

/// For `forward_acl`.
pub const FORWARD_ACL: &'static str =
    "Agent-side allowlist for tunnel forwards (JSON: {\"enabled\": bool, \"allowlist\": [...]}).";

/// For `virtual_desktop_apps`.
pub const VIRTUAL_DESKTOP_APPS: &'static str =
    "Remote app launcher config for virtual-desktop hosts (JSON; browser only ever sends an allowlist key).";

} // verus!
