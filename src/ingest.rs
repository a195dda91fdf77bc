//! Decisions of the ingest engine. The host owns the sockets, the clock and
//! the periodic tasks; this table decides what each event does to a peer.
//!
//! Per peer, liveness moves `Unknown -> Live` on the first valid frame,
//! `Live -> Stale` when no frame came for longer than the timeout, and
//! `Stale -> Live` on the next valid frame.

use crate::error::GT7Error;
use crate::packet::GT7TelemetryPacket;
use crate::text::str_equal;
use crate::types::TelemetryConfig;
use crate::{is_valid_gt7_ip, lan_address, GT7_PACKET_SIZE};
use vstd::prelude::*;
use vstd::slice::slice_subrange;

verus! {

/// Whether a peer has sent a frame within the staleness window.
#[derive(Clone, Copy, Debug, PartialEq, Eq, Structural)]
pub enum Liveness {
    Unknown,
    Live,
    Stale,
}

/// What the engine knows of one peer. Times are milliseconds on the host's
/// monotonic clock.
#[derive(Clone, Debug, PartialEq)]
pub struct Connection {
    pub ip: String,
    pub port: u16,
    pub last_received_ms: u64,
    pub last_heartbeat_ms: u64,
    pub liveness: Liveness,
    pub packet_count: u64,
}

/// The peer after a valid frame at `now`.
pub open spec fn received(c: Connection, now: u64) -> Connection {
    Connection {
        liveness: Liveness::Live,
        last_received_ms: now,
        packet_count: if c.packet_count < u64::MAX {
            (c.packet_count + 1) as u64
        } else {
            c.packet_count
        },
        ..c
    }
}

/// More than `timeout_s` seconds passed since the last frame.
pub open spec fn expired(c: Connection, now: u64, timeout_s: u64) -> bool {
    now - c.last_received_ms > timeout_s * 1000
}

/// The peer after a liveness check at `now`.
pub open spec fn monitored(c: Connection, now: u64, timeout_s: u64) -> Connection {
    if c.liveness == Liveness::Live && expired(c, now, timeout_s) {
        Connection { liveness: Liveness::Stale, ..c }
    } else {
        c
    }
}

/// A heartbeat to the peer is due at `now`.
pub open spec fn heartbeat_due(c: Connection, now: u64, interval_ms: u64) -> bool {
    now - c.last_heartbeat_ms >= interval_ms
}

/// The IP addresses of `peers` whose heartbeat is due, in table order.
pub open spec fn due_ips(peers: Seq<Connection>, now: u64, interval_ms: u64) -> Seq<Seq<char>>
    decreases peers.len(),
{
    if peers.len() == 0 {
        seq![]
    } else {
        let rest = due_ips(peers.drop_last(), now, interval_ms);
        if heartbeat_due(peers.last(), now, interval_ms) {
            rest.push(peers.last().ip@)
        } else {
            rest
        }
    }
}

/// No two peers share an address.
pub open spec fn unique_ips(peers: Seq<Connection>) -> bool {
    forall|i: int, j: int| 0 <= i < j < peers.len() ==> peers[i].ip@ != peers[j].ip@
}

/// The index of the peer with address `ip`.
pub open spec fn index_of(peers: Seq<Connection>, ip: Seq<char>) -> Option<int> {
    if exists|i: int| 0 <= i < peers.len() && peers[i].ip@ == ip {
        Some(choose|i: int| 0 <= i < peers.len() && peers[i].ip@ == ip)
    } else {
        None
    }
}

/// In a table with unique addresses, the peer found at `i` is the one that
/// `index_of` names.
proof fn lemma_index_of_unique(peers: Seq<Connection>, ip: Seq<char>, i: int)
    requires
        unique_ips(peers),
        0 <= i < peers.len(),
        peers[i].ip@ == ip,
    ensures
        index_of(peers, ip) == Some(i),
{
    let j = choose|j: int| 0 <= j < peers.len() && peers[j].ip@ == ip;
    if j < i {
        assert(peers[j].ip@ != peers[i].ip@);
    } else if j > i {
        assert(peers[i].ip@ != peers[j].ip@);
    }
}

/// The connection table, the running flag and the settings.
pub struct IngestEngine {
    config: TelemetryConfig,
    peers: Vec<Connection>,
    running: bool,
}

impl IngestEngine {
    pub closed spec fn spec_peers(&self) -> Seq<Connection> {
        self.peers@
    }

    pub closed spec fn spec_running(&self) -> bool {
        self.running
    }

    pub closed spec fn spec_config(&self) -> TelemetryConfig {
        self.config
    }

    /// The table's invariant: addresses are unique, and every peer has an
    /// allow-listed address and a port other than 0.
    pub open spec fn wf(&self) -> bool {
        &&& unique_ips(self.spec_peers())
        &&& forall|i: int|
            0 <= i < self.spec_peers().len() ==> lan_address(#[trigger] self.spec_peers()[i].ip@)
                && self.spec_peers()[i].port != 0
    }

    /// An engine with no peers that is not running.
    pub fn new(config: TelemetryConfig) -> (r: Self)
        ensures
            r.wf(),
            r.spec_peers().len() == 0,
            !r.spec_running(),
            r.spec_config() == config,
    {
        IngestEngine { config, peers: Vec::new(), running: false }
    }

    pub fn config(&self) -> (r: &TelemetryConfig)
        ensures
            *r == self.spec_config(),
    {
        &self.config
    }

    pub fn is_running(&self) -> (r: bool)
        ensures
            r == self.spec_running(),
    {
        self.running
    }

    /// Whether `start` succeeds on this engine.
    pub open spec fn start_allowed(&self) -> bool {
        !self.spec_running()
    }

    /// Marks the engine as running, once: a second start is refused.
    pub fn start(&mut self) -> (r: Result<(), GT7Error>)
        ensures
            final(self).spec_peers() == old(self).spec_peers(),
            final(self).spec_config() == old(self).spec_config(),
            final(self).spec_running(),
            r is Ok <==> old(self).start_allowed(),
            !old(self).start_allowed() ==> (r matches Err(
                GT7Error::ConfigError { field, value, reason },
            ) && field@ == "client_state"@ && value@ == "running"@ && reason@
                == "client already running"@),
    {
        if self.running {
            return Err(GT7Error::config_error("client_state", "running", "client already running"));
        }
        self.running = true;
        Ok(())
    }

    /// Asks every activity to finish at its next round.
    pub fn stop(&mut self)
        ensures
            final(self).spec_peers() == old(self).spec_peers(),
            final(self).spec_config() == old(self).spec_config(),
            !final(self).spec_running(),
    {
        self.running = false;
    }

    /// Checks a peer before any socket is made for it: the address must be
    /// in the LAN allow-list and the port (the configured one when none is
    /// given) must not be 0. Returns the port to use.
    pub fn validate_peer(&self, ip: &str, port: Option<u16>) -> (r: Result<u16, GT7Error>)
        ensures
            !lan_address(ip@) ==> (r matches Err(GT7Error::InvalidIPAddress { ip: i }) && i@
                == ip@),
            lan_address(ip@) ==> r == match port {
                Some(p) => if p == 0 {
                    Err(GT7Error::InvalidPort { port: 0 })
                } else {
                    Ok(p)
                },
                None => if self.spec_config().port == 0 {
                    Err(GT7Error::InvalidPort { port: 0 })
                } else {
                    Ok(self.spec_config().port)
                },
            },
    {
        if !is_valid_gt7_ip(ip) {
            return Err(GT7Error::invalid_ip(ip));
        }
        let port = match port {
            Some(p) => p,
            None => self.config.port,
        };
        if port == 0 {
            return Err(GT7Error::invalid_port(port));
        }
        Ok(port)
    }

    /// The position of the peer with address `ip`.
    pub fn find(&self, ip: &str) -> (r: Option<usize>)
        requires
            self.wf(),
        ensures
            r matches Some(i) ==> i < self.spec_peers().len() && self.spec_peers()[i as int].ip@
                == ip@,
            r is None ==> forall|i: int|
                0 <= i < self.spec_peers().len() ==> self.spec_peers()[i].ip@ != ip@,
            r matches Some(i) ==> index_of(self.spec_peers(), ip@) == Some(i as int),
            r is None ==> index_of(self.spec_peers(), ip@) is None,
    {
        let mut i: usize = 0;
        while i < self.peers.len()
            invariant
                i <= self.peers@.len(),
                unique_ips(self.peers@),
                forall|k: int| 0 <= k < i ==> self.peers@[k].ip@ != ip@,
            decreases self.peers@.len() - i,
        {
            if str_equal(self.peers[i].ip.as_str(), ip) {
                proof {
                    lemma_index_of_unique(self.peers@, ip@, i as int);
                }
                return Some(i);
            }
            i = i + 1;
        }
        None
    }

    /// Adds a peer that `validate_peer` accepted, or starts it afresh if it
    /// is already there. Its clocks start at `now_ms` and its liveness is unknown.
    pub fn insert_peer(&mut self, ip: &str, port: u16, now_ms: u64)
        requires
            old(self).wf(),
            lan_address(ip@),
            port != 0,
        ensures
            final(self).wf(),
            final(self).spec_running() == old(self).spec_running(),
            final(self).spec_config() == old(self).spec_config(),
            ({
                let fresh = |c: Connection|
                    c.ip@ == ip@ && c.port == port && c.last_received_ms == now_ms
                        && c.last_heartbeat_ms == now_ms && c.liveness == Liveness::Unknown
                        && c.packet_count == 0;
                match index_of(old(self).spec_peers(), ip@) {
                    Some(i) => final(self).spec_peers().len() == old(self).spec_peers().len()
                        && fresh(final(self).spec_peers()[i]) && forall|k: int|
                        0 <= k < old(self).spec_peers().len() && k != i ==> final(self).spec_peers()[k] == old(self).spec_peers()[k],
                    None => final(self).spec_peers().len() == old(self).spec_peers().len() + 1
                        && fresh(final(self).spec_peers().last()) && forall|k: int|
                        0 <= k < old(self).spec_peers().len() ==> final(self).spec_peers()[k]
                            == old(self).spec_peers()[k],
                }
            }),
    {
        let c = Connection {
            ip: ip.to_owned(),
            port,
            last_received_ms: now_ms,
            last_heartbeat_ms: now_ms,
            liveness: Liveness::Unknown,
            packet_count: 0,
        };
        match self.find(ip) {
            Some(i) => {
                self.peers.set(i, c);
            },
            None => {
                self.peers.push(c);
            },
        }
    }

    /// Removes the peer with address `ip`; an absent peer is an error.
    pub fn remove_peer(&mut self, ip: &str) -> (r: Result<(), GT7Error>)
        requires
            old(self).wf(),
        ensures
            final(self).wf(),
            final(self).spec_running() == old(self).spec_running(),
            final(self).spec_config() == old(self).spec_config(),
            r is Ok <==> index_of(old(self).spec_peers(), ip@) is Some,
            r is Err ==> final(self).spec_peers() == old(self).spec_peers() && (r matches Err(
                GT7Error::NetworkError { address, reason },
            ) && address@ == ip@ && reason@ == "connection not found"@),
            r is Ok ==> final(self).spec_peers() == old(self).spec_peers().remove(
                index_of(old(self).spec_peers(), ip@).unwrap(),
            ),
            forall|s: Seq<char>|
                #![auto]
                s != ip@ ==> index_of(final(self).spec_peers(), s) is Some == index_of(
                    old(self).spec_peers(),
                    s,
                ) is Some,
            index_of(final(self).spec_peers(), ip@) is None,
    {
        match self.find(ip) {
            Some(i) => {
                let ghost before = self.peers@;
                self.peers.remove(i);
                proof {
                    assert forall|s: Seq<char>|
                        #![auto]
                        s != ip@ implies index_of(self.peers@, s) is Some == index_of(
                            before,
                            s,
                        ) is Some by {
                        if exists|k: int| 0 <= k < before.len() && before[k].ip@ == s {
                            let k = choose|k: int| 0 <= k < before.len() && before[k].ip@ == s;
                            if k < i {
                                assert(self.peers@[k].ip@ == s);
                            } else {
                                assert(self.peers@[k - 1].ip@ == s);
                            }
                        }
                        if exists|k: int| 0 <= k < self.peers@.len() && self.peers@[k].ip@ == s {
                            let k = choose|k: int|
                                0 <= k < self.peers@.len() && self.peers@[k].ip@ == s;
                            if k < i {
                                assert(before[k].ip@ == s);
                            } else {
                                assert(before[k + 1].ip@ == s);
                            }
                        }
                    }
                    assert forall|k: int| 0 <= k < self.peers@.len() implies self.peers@[k].ip@
                        != ip@ by {
                        if k < i {
                            assert(before[k].ip@ != before[i as int].ip@);
                        } else {
                            assert(before[k + 1].ip@ != before[i as int].ip@);
                        }
                    }
                }
                Ok(())
            },
            None => Err(GT7Error::network_error(ip, "connection not found")),
        }
    }

    /// A snapshot of every peer's address and liveness, in table order.
    pub fn status(&self) -> (r: Vec<(String, Liveness)>)
        ensures
            r@.len() == self.spec_peers().len(),
            forall|i: int|
                0 <= i < r@.len() ==> r@[i].0@ == self.spec_peers()[i].ip@ && r@[i].1
                    == self.spec_peers()[i].liveness,
    {
        let mut out: Vec<(String, Liveness)> = Vec::new();
        let mut i: usize = 0;
        while i < self.peers.len()
            invariant
                i <= self.peers@.len(),
                out@.len() == i,
                forall|k: int|
                    0 <= k < i ==> out@[k].0@ == self.peers@[k].ip@ && out@[k].1
                        == self.peers@[k].liveness,
            decreases self.peers@.len() - i,
        {
            let ip = self.peers[i].ip.clone();
            out.push((ip, self.peers[i].liveness));
            i = i + 1;
        }
        out
    }

    /// The liveness of the peer with address `ip`, if it is in the table.
    pub fn liveness(&self, ip: &str) -> (r: Option<Liveness>)
        requires
            self.wf(),
        ensures
            r == match index_of(self.spec_peers(), ip@) {
                Some(i) => Some(self.spec_peers()[i].liveness),
                None => None::<Liveness>,
            },
    {
        match self.find(ip) {
            Some(i) => Some(self.peers[i].liveness),
            None => None,
        }
    }

    /// Handles what a receive from peer `ip` brought at `now_ms`. Fewer than
    /// 296 bytes are skipped; otherwise the first 296 are decoded. A valid
    /// frame from a peer in the table makes it live, restarts its silence
    /// clock, counts it, and is returned for publication. Nothing else
    /// changes the table.
    pub fn on_datagram(&mut self, ip: &str, data: &[u8], now_ms: u64) -> (r: Result<
        GT7TelemetryPacket,
        GT7Error,
    >)
        requires
            old(self).wf(),
        ensures
            final(self).wf(),
            final(self).spec_running() == old(self).spec_running(),
            final(self).spec_config() == old(self).spec_config(),
            data@.len() < GT7_PACKET_SIZE ==> r == Err::<GT7TelemetryPacket, GT7Error>(
                GT7Error::IncompleteData { expected: GT7_PACKET_SIZE, actual: data@.len() as usize },
            ),
            data@.len() >= GT7_PACKET_SIZE ==> (r is Ok ==> crate::packet::frame_valid(
                data@.subrange(0, GT7_PACKET_SIZE as int),
            )),
            data@.len() >= GT7_PACKET_SIZE ==> (r matches Ok(p) ==> crate::packet::decodes_to(
                data@.subrange(0, GT7_PACKET_SIZE as int),
                p,
            )),
            data@.len() >= GT7_PACKET_SIZE && crate::packet::frame_valid(
                data@.subrange(0, GT7_PACKET_SIZE as int),
            ) ==> (r is Ok <==> index_of(old(self).spec_peers(), ip@) is Some),
            r is Err ==> final(self).spec_peers() == old(self).spec_peers(),
            r is Ok ==> ({
                let i = index_of(old(self).spec_peers(), ip@).unwrap();
                final(self).spec_peers() == old(self).spec_peers().update(
                    i,
                    received(old(self).spec_peers()[i], now_ms),
                )
            }),
    {
        if data.len() < GT7_PACKET_SIZE {
            return Err(GT7Error::incomplete_data(GT7_PACKET_SIZE, data.len()));
        }
        let frame = slice_subrange(data, 0, GT7_PACKET_SIZE);
        let packet = GT7TelemetryPacket::from_bytes(frame)?;
        match self.find(ip) {
            Some(i) => {
                let c = Connection {
                    ip: self.peers[i].ip.clone(),
                    port: self.peers[i].port,
                    last_received_ms: now_ms,
                    last_heartbeat_ms: self.peers[i].last_heartbeat_ms,
                    liveness: Liveness::Live,
                    packet_count: self.peers[i].packet_count.saturating_add(1),
                };
                let ghost before = self.peers@;
                self.peers.set(i, c);
                proof {
                    assert(self.peers@ =~= before.update(i as int, received(before[i as int], now_ms)));
                }
                Ok(packet)
            },
            None => Err(GT7Error::network_error(ip, "connection not found")),
        }
    }

    /// The addresses to which a heartbeat is due at `now_ms`, in table order.
    pub fn heartbeats_due(&self, now_ms: u64) -> (r: Vec<String>)
        ensures
            r@.map_values(|s: String| s@) == due_ips(
                self.spec_peers(),
                now_ms,
                self.spec_config().heartbeat_interval,
            ),
    {
        let interval = self.config.heartbeat_interval;
        let mut out: Vec<String> = Vec::new();
        let mut i: usize = 0;
        while i < self.peers.len()
            invariant
                i <= self.peers@.len(),
                interval == self.config.heartbeat_interval,
                out@.map_values(|s: String| s@) == due_ips(
                    self.peers@.subrange(0, i as int),
                    now_ms,
                    interval,
                ),
            decreases self.peers@.len() - i,
        {
            let c = &self.peers[i];
            let due = now_ms >= c.last_heartbeat_ms && now_ms - c.last_heartbeat_ms >= interval;
            proof {
                assert(self.peers@.subrange(0, i + 1).drop_last() =~= self.peers@.subrange(
                    0,
                    i as int,
                ));
            }
            if due {
                out.push(c.ip.clone());
                proof {
                    assert(out@.map_values(|s: String| s@) =~= due_ips(
                        self.peers@.subrange(0, i as int),
                        now_ms,
                        interval,
                    ).push(c.ip@));
                }
            }
            i = i + 1;
        }
        proof {
            assert(self.peers@.subrange(0, self.peers@.len() as int) =~= self.peers@);
        }
        out
    }

    /// Records that a heartbeat went to `ip` at `now_ms`.
    pub fn record_heartbeat(&mut self, ip: &str, now_ms: u64)
        requires
            old(self).wf(),
        ensures
            final(self).wf(),
            final(self).spec_running() == old(self).spec_running(),
            final(self).spec_config() == old(self).spec_config(),
            final(self).spec_peers() == match index_of(old(self).spec_peers(), ip@) {
                Some(i) => old(self).spec_peers().update(
                    i,
                    Connection { last_heartbeat_ms: now_ms, ..old(self).spec_peers()[i] },
                ),
                None => old(self).spec_peers(),
            },
    {
        match self.find(ip) {
            Some(i) => {
                let c = Connection {
                    ip: self.peers[i].ip.clone(),
                    port: self.peers[i].port,
                    last_received_ms: self.peers[i].last_received_ms,
                    last_heartbeat_ms: now_ms,
                    liveness: self.peers[i].liveness,
                    packet_count: self.peers[i].packet_count,
                };
                let ghost before = self.peers@;
                self.peers.set(i, c);
                proof {
                    assert(self.peers@ =~= before.update(
                        i as int,
                        Connection { last_heartbeat_ms: now_ms, ..before[i as int] },
                    ));
                }
            },
            None => {},
        }
    }

    /// Marks stale every live peer that has been silent for longer than the
    /// timeout at `now_ms`.
    pub fn check_liveness(&mut self, now_ms: u64)
        requires
            old(self).wf(),
        ensures
            final(self).wf(),
            final(self).spec_running() == old(self).spec_running(),
            final(self).spec_config() == old(self).spec_config(),
            final(self).spec_peers() == old(self).spec_peers().map_values(
                |c: Connection| monitored(c, now_ms, old(self).spec_config().timeout),
            ),
    {
        let timeout_s = self.config.timeout;
        let ghost before = self.peers@;
        let mut i: usize = 0;
        while i < self.peers.len()
            invariant
                i <= self.peers@.len(),
                self.peers@.len() == before.len(),
                timeout_s == self.config.timeout,
                self.config == old(self).config,
                self.running == old(self).running,
                before == old(self).peers@,
                forall|k: int|
                    0 <= k < i ==> self.peers@[k] == monitored(before[k], now_ms, timeout_s),
                forall|k: int| i <= k < before.len() ==> self.peers@[k] == before[k],
            decreases self.peers@.len() - i,
        {
            let c = &self.peers[i];
            let is_expired = now_ms >= c.last_received_ms && timeout_s <= u64::MAX / 1000 && now_ms - c.last_received_ms > timeout_s * 1000;
            let is_live = match c.liveness {
                Liveness::Live => true,
                _ => false,
            };
            if is_live && is_expired {
                let stale = Connection {
                    ip: self.peers[i].ip.clone(),
                    port: self.peers[i].port,
                    last_received_ms: self.peers[i].last_received_ms,
                    last_heartbeat_ms: self.peers[i].last_heartbeat_ms,
                    liveness: Liveness::Stale,
                    packet_count: self.peers[i].packet_count,
                };
                self.peers.set(i, stale);
            }
            proof {
                assert(is_expired == expired(before[i as int], now_ms, timeout_s)) by (nonlinear_arith)
                    requires
                        is_expired == (now_ms >= before[i as int].last_received_ms
                            && timeout_s <= u64::MAX / 1000 && now_ms
                            - before[i as int].last_received_ms > timeout_s * 1000),
                        expired(before[i as int], now_ms, timeout_s) == (now_ms
                            - before[i as int].last_received_ms > timeout_s * 1000),
                        now_ms <= u64::MAX,
                {
                }
            }
            i = i + 1;
        }
        proof {
            assert(self.peers@ =~= before.map_values(
                |c: Connection| monitored(c, now_ms, timeout_s),
            ));
            assert forall|k: int| 0 <= k < self.peers@.len() implies self.peers@[k].ip@
                == before[k].ip@ && self.peers@[k].port == before[k].port by {
                assert(self.peers@[k] == monitored(before[k], now_ms, timeout_s));
            }
        }
    }
}

/// A valid frame makes a peer live; a live peer silent for longer than the
/// timeout turns stale at the next check, and stays live at a check within
/// the timeout; a stale peer is live again after its next valid frame.
pub proof fn lemma_liveness_cycle(c: Connection, t1: u64, t2: u64, t3: u64, timeout_s: u64)
    ensures
        received(c, t1).liveness == Liveness::Live,
        t2 >= t1 && t2 - t1 > timeout_s * 1000 ==> monitored(received(c, t1), t2, timeout_s).liveness
            == Liveness::Stale,
        t2 >= t1 && t2 - t1 <= timeout_s * 1000 ==> monitored(
            received(c, t1),
            t2,
            timeout_s,
        ).liveness == Liveness::Live,
        received(monitored(received(c, t1), t2, timeout_s), t3).liveness == Liveness::Live,
{
}

/// After a heartbeat at `t`, the next one is not due before `t + interval`
/// and is due from then on.
pub proof fn lemma_heartbeat_spacing(c: Connection, t: u64, now: u64, interval_ms: u64)
    requires
        now >= t,
    ensures
        heartbeat_due(Connection { last_heartbeat_ms: t, ..c }, now, interval_ms) <==> now - t
            >= interval_ms,
{
}

/// A start leaves the engine running, and a start of a running engine is
/// refused: calling `start` twice gives the already-running error.
pub proof fn lemma_start_twice(first: IngestEngine, second: IngestEngine)
    requires
        first.start_allowed(),
        second.spec_running(),
    ensures
        !second.start_allowed(),
{
}

} // verus!
