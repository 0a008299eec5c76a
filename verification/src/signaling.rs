//! Signalling for live view: the peers that asked for an offer, their
//! states, the events the service publishes and its counters.

use vstd::prelude::*;
use vstd::string::StringExecFns;
use crate::media::{ParameterSets, QualityTier};
use crate::strmap::StrMap;
use crate::textscan::{dec_string, digit_char, spec_dec};

verus! {

/// An ICE server offered to the browser.
#[derive(Clone, Debug)]
pub struct IceServer {
    pub urls: Vec<String>,
    pub username: Option<String>,
    pub credential: Option<String>,
}

/// Peer-connection settings handed to the browser with an offer.
#[derive(Clone, Debug)]
pub struct WebRtcConfig {
    pub ice_servers: Vec<IceServer>,
    pub ice_candidate_pool_size: u32,
    pub bundle_policy: String,
    pub rtcp_mux_policy: String,
}

/// An optional string by its text.
pub open spec fn opt_text(o: Option<String>) -> Option<Seq<char>> {
    match o {
        Some(s) => Some(s@),
        None => None,
    }
}

/// An ICE server by its texts.
pub open spec fn ice_server_view(s: IceServer) -> (Seq<Seq<char>>, Option<Seq<char>>, Option<Seq<char>>) {
    (s.urls@.map_values(|u: String| u@), opt_text(s.username), opt_text(s.credential))
}

/// A configuration by its texts and numbers.
pub open spec fn config_view(c: WebRtcConfig) -> (
    Seq<(Seq<Seq<char>>, Option<Seq<char>>, Option<Seq<char>>)>,
    u32,
    Seq<char>,
    Seq<char>,
) {
    (c.ice_servers@.map_values(|s: IceServer| ice_server_view(s)), c.ice_candidate_pool_size, c.bundle_policy@,
        c.rtcp_mux_policy@)
}

fn copy_strings(v: &Vec<String>) -> (r: Vec<String>)
    ensures
        r@ == v@,
{
    let mut out: Vec<String> = Vec::new();
    let mut k: usize = 0;
    while k < v.len()
        invariant
            k <= v@.len(),
            out@ == v@.subrange(0, k as int),
        decreases v.len() - k,
    {
        out.push(v[k].clone());
        assert(out@ =~= v@.subrange(0, k + 1));
        k = k + 1;
    }
    assert(v@.subrange(0, v@.len() as int) =~= v@);
    out
}

fn copy_opt(o: &Option<String>) -> (r: Option<String>)
    ensures
        r == *o,
{
    match o {
        Some(s) => Some(s.clone()),
        None => None,
    }
}

fn copy_ice_server(s: &IceServer) -> (r: IceServer)
    ensures
        ice_server_view(r) == ice_server_view(*s),
{
    let urls = copy_strings(&s.urls);
    IceServer { urls, username: copy_opt(&s.username), credential: copy_opt(&s.credential) }
}

/// A copy of a configuration.
pub fn copy_config(c: &WebRtcConfig) -> (r: WebRtcConfig)
    ensures
        config_view(r) == config_view(*c),
{
    let mut servers: Vec<IceServer> = Vec::new();
    let mut k: usize = 0;
    while k < c.ice_servers.len()
        invariant
            k <= c.ice_servers@.len(),
            servers@.len() == k,
            forall|i: int| 0 <= i < k ==> ice_server_view(#[trigger] servers@[i]) == ice_server_view(c.ice_servers@[i]),
        decreases c.ice_servers.len() - k,
    {
        servers.push(copy_ice_server(&c.ice_servers[k]));
        k = k + 1;
    }
    let r = WebRtcConfig {
        ice_servers: servers,
        ice_candidate_pool_size: c.ice_candidate_pool_size,
        bundle_policy: c.bundle_policy.clone(),
        rtcp_mux_policy: c.rtcp_mux_policy.clone(),
    };
    assert(r.ice_servers@.map_values(|s: IceServer| ice_server_view(s)) =~= c.ice_servers@.map_values(
        |s: IceServer| ice_server_view(s),
    ));
    r
}

impl Default for WebRtcConfig {
    /// One public STUN server, a candidate pool of ten, bundling on one
    /// transport with RTCP multiplexing required.
    fn default() -> (r: WebRtcConfig)
        ensures
            r.ice_servers@.len() == 1,
            r.ice_servers@[0].urls@.len() == 1,
            r.ice_servers@[0].urls@[0]@ == "stun:stun.l.google.com:19302"@,
            r.ice_servers@[0].username is None,
            r.ice_servers@[0].credential is None,
            r.ice_candidate_pool_size == 10,
            r.bundle_policy@ == "max-bundle"@,
            r.rtcp_mux_policy@ == "require"@,
    {
        WebRtcConfig {
            ice_servers: vec![
                IceServer {
                    urls: vec![String::from_str("stun:stun.l.google.com:19302")],
                    username: None,
                    credential: None,
                },
            ],
            ice_candidate_pool_size: 10,
            bundle_policy: String::from_str("max-bundle"),
            rtcp_mux_policy: String::from_str("require"),
        }
    }
}

/// The state of a peer connection.
#[derive(Clone, Copy, Debug, PartialEq, Eq, Structural)]
pub enum PeerState {
    New,
    Connecting,
    Connected,
    Disconnected,
    Failed,
    Closed,
}

/// Traffic counters of a peer. Jitter and round-trip time are in
/// microseconds.
#[derive(Clone, Copy, Debug)]
pub struct PeerStats {
    pub bytes_received: u64,
    pub bytes_sent: u64,
    pub frames_sent: u64,
    pub frames_dropped: u64,
    pub packets_lost: u64,
    pub jitter_us: u64,
    pub rtt_us: u64,
}

/// All counters at zero.
pub open spec fn zero_stats() -> PeerStats {
    PeerStats {
        bytes_received: 0,
        bytes_sent: 0,
        frames_sent: 0,
        frames_dropped: 0,
        packets_lost: 0,
        jitter_us: 0,
        rtt_us: 0,
    }
}

impl Default for PeerStats {
    fn default() -> (r: PeerStats)
        ensures
            r == zero_stats(),
    {
        PeerStats {
            bytes_received: 0,
            bytes_sent: 0,
            frames_sent: 0,
            frames_dropped: 0,
            packets_lost: 0,
            jitter_us: 0,
            rtt_us: 0,
        }
    }
}

/// A peer that asked for an offer. Times are milliseconds since the Unix
/// epoch.
#[derive(Clone, Debug)]
pub struct PeerConnection {
    pub peer_id: String,
    pub camera_id: String,
    pub state: PeerState,
    pub created_at_ms: u64,
    pub last_activity_ms: u64,
    pub stats: PeerStats,
}

/// An SDP offer with its session origin.
#[derive(Clone, Debug)]
pub struct SdpOffer {
    pub sdp: String,
    pub session_id: u64,
    pub version: u32,
}

/// An SDP answer.
#[derive(Clone, Debug)]
pub struct SdpAnswer {
    pub sdp: String,
    pub session_id: u64,
}

/// A trickled ICE candidate.
#[derive(Clone, Debug)]
pub struct IceCandidate {
    pub candidate: String,
    pub sdp_mid: String,
    pub sdp_mline_index: u16,
}

/// What an offer request gets back.
#[derive(Clone, Debug)]
pub struct OfferResponse {
    pub peer_id: String,
    pub offer: SdpOffer,
    pub config: WebRtcConfig,
}

/// A viewer asks to move between quality tiers.
#[derive(Clone, Debug)]
pub struct QualitySwitchRequest {
    pub peer_id: String,
    pub camera_id: String,
    pub from_tier: QualityTier,
    pub to_tier: QualityTier,
}

/// The answer to a tier switch.
#[derive(Clone, Debug)]
pub struct QualitySwitchResponse {
    pub peer_id: String,
    pub camera_id: String,
    pub accepted: bool,
    pub reason: Option<String>,
}

/// The stream of a peer reached the start of a group of pictures.
#[derive(Clone, Debug)]
pub struct GopBoundaryNotification {
    pub peer_id: String,
    pub camera_id: String,
    pub tier: QualityTier,
    pub gop_number: u64,
    pub pts: u64,
}

/// The parameter sets of a tier, for a peer that switches to it.
#[derive(Clone, Debug)]
pub struct ParameterSetDelivery {
    pub peer_id: String,
    pub camera_id: String,
    pub tier: QualityTier,
    pub parameter_sets: ParameterSets,
}

/// What a viewer reports about its reception.
#[derive(Clone, Debug)]
pub struct ClientFeedback {
    pub peer_id: String,
    pub camera_id: String,
    pub estimated_bandwidth_kbps: Option<u64>,
    pub buffer_ms: Option<u32>,
}

/// Events the service publishes to its subscribers.
#[derive(Clone, Debug)]
pub enum SignalingEvent {
    PeerConnected { peer_id: String, camera_id: String },
    PeerDisconnected { peer_id: String },
    PeerFailed { peer_id: String, reason: String },
    IceCandidateReceived { peer_id: String },
    QualitySwitchRequested { request: QualitySwitchRequest },
    QualitySwitchCompleted { response: QualitySwitchResponse },
    GopBoundaryNotified { notification: GopBoundaryNotification },
    ParameterSetsDelivered { delivery: ParameterSetDelivery },
    ClientFeedbackReceived { feedback: ClientFeedback },
}

/// Why a signalling request failed.
#[derive(Clone, Debug)]
pub enum SignalingError {
    PeerNotFound,
    InvalidState,
    Signalling(String),
}

impl SignalingError {
    /// The error's message.
    pub fn message(&self) -> (r: String)
        ensures
            self is PeerNotFound ==> r@ == "Peer not found"@,
            self is InvalidState ==> r@ == "Invalid state"@,
            self matches SignalingError::Signalling(m) ==> r@ == "Signaling error: "@ + m@,
    {
        match self {
            SignalingError::PeerNotFound => String::from_str("Peer not found"),
            SignalingError::InvalidState => String::from_str("Invalid state"),
            SignalingError::Signalling(m) => {
                let mut s = String::from_str("Signaling error: ");
                s.append(m.as_str());
                s
            },
        }
    }
}

/// The service's counters.
#[derive(Clone, Copy, Debug)]
pub struct WebRtcMetrics {
    pub total_peers: u64,
    pub closed_peers: u64,
    pub failed_peers: u64,
}

impl Default for WebRtcMetrics {
    fn default() -> (r: WebRtcMetrics)
        ensures
            r.total_peers == 0 && r.closed_peers == 0 && r.failed_peers == 0,
    {
        WebRtcMetrics { total_peers: 0, closed_peers: 0, failed_peers: 0 }
    }
}

/// The counters at one moment, with the number of live peers.
#[derive(Clone, Copy, Debug)]
pub struct WebRtcMetricsSnapshot {
    pub total_peers: u64,
    pub active_peers: u64,
    pub closed_peers: u64,
    pub failed_peers: u64,
}

/// `n + 1`, wrapping to zero past the largest value.
pub open spec fn bump(n: u64) -> u64 {
    if n == u64::MAX { 0 } else { (n + 1) as u64 }
}

fn bump_exec(n: u64) -> (r: u64)
    ensures
        r == bump(n),
{
    if n == u64::MAX { 0 } else { n + 1 }
}

/// The id of the `n`-th peer: `peer-<n>`.
pub open spec fn peer_id_of(n: u64) -> Seq<char> {
    "peer-"@ + spec_dec(n as nat)
}

/// The SDP of every offer: one bundled video section offering H.264 and VP8.
pub open spec fn offer_sdp() -> Seq<char> {
    "v=0\no=- 0 0 IN IP4 0.0.0.0\ns=NeuralMatrix\nt=0 0\na=group:BUNDLE video\nm=video 9 UDP/TLS/RTP/SAVPF 96 97\nc=IN IP4 0.0.0.0\na=mid:video\na=rtcp-mux\na=rtpmap:96 H264/90000\na=rtpmap:97 VP8/90000"@
}

/// The signalling service: its configuration, the peers by id, its
/// counters and the number the next peer id gets.
pub struct WebRtcSignaling {
    pub config: WebRtcConfig,
    pub peers: StrMap<PeerConnection>,
    pub metrics: WebRtcMetrics,
    pub next_peer_id: u64,
}

impl WebRtcSignaling {
    /// The service is consistent: its peer table is well formed.
    pub open spec fn wf(&self) -> bool {
        self.peers.wf()
    }

    /// A service with no peers and its counters at zero.
    pub fn new(config: WebRtcConfig) -> (r: WebRtcSignaling)
        ensures
            r.wf(),
            r.config == config,
            r.peers@ == Map::<Seq<char>, PeerConnection>::empty(),
            r.metrics.total_peers == 0 && r.metrics.closed_peers == 0 && r.metrics.failed_peers == 0,
            r.next_peer_id == 0,
    {
        WebRtcSignaling { config, peers: StrMap::new(), metrics: WebRtcMetrics::default(), next_peer_id: 0 }
    }

    /// A service with the default configuration.
    pub fn new_default() -> (r: WebRtcSignaling)
        ensures
            r.wf(),
            r.peers@ == Map::<Seq<char>, PeerConnection>::empty(),
            r.metrics.total_peers == 0 && r.metrics.closed_peers == 0 && r.metrics.failed_peers == 0,
            r.next_peer_id == 0,
            r.config.ice_candidate_pool_size == 10,
    {
        WebRtcSignaling::new(WebRtcConfig::default())
    }

    /// Registers a new peer for `camera_id` under the next peer id, in
    /// state `New`, and answers with the offer and the configuration.
    pub fn create_offer(&mut self, camera_id: &str) -> (r: Result<OfferResponse, SignalingError>)
        requires
            old(self).wf(),
        ensures
            final(self).wf(),
            final(self).config == old(self).config,
            final(self).next_peer_id == bump(old(self).next_peer_id),
            final(self).metrics.total_peers == bump(old(self).metrics.total_peers),
            final(self).metrics.closed_peers == old(self).metrics.closed_peers,
            final(self).metrics.failed_peers == old(self).metrics.failed_peers,
            ({
                let id = peer_id_of(old(self).next_peer_id);
                let p = final(self).peers@[id];
                &&& final(self).peers@ == old(self).peers@.insert(id, p)
                &&& p.peer_id@ == id && p.camera_id@ == camera_id@ && p.state == PeerState::New
                &&& p.stats == zero_stats()
                &&& r matches Ok(resp) && resp.peer_id@ == id && resp.offer.sdp@ == offer_sdp()
                    && resp.offer.session_id == 0 && resp.offer.version == 0
                    && config_view(resp.config) == config_view(old(self).config)
            }),
    {
        let n = self.next_peer_id;
        self.next_peer_id = bump_exec(n);
        let mut peer_id = String::from_str("peer-");
        let digits = dec_string(n);
        peer_id.append(digits.as_str());
        let now = crate::clock::unix_now_millis();
        let peer = PeerConnection {
            peer_id: peer_id.clone(),
            camera_id: String::from_str(camera_id),
            state: PeerState::New,
            created_at_ms: now,
            last_activity_ms: now,
            stats: PeerStats::default(),
        };
        self.peers.insert(&peer_id, peer);
        self.metrics.total_peers = bump_exec(self.metrics.total_peers);
        let sdp = String::from_str(
            "v=0\no=- 0 0 IN IP4 0.0.0.0\ns=NeuralMatrix\nt=0 0\na=group:BUNDLE video\nm=video 9 UDP/TLS/RTP/SAVPF 96 97\nc=IN IP4 0.0.0.0\na=mid:video\na=rtcp-mux\na=rtpmap:96 H264/90000\na=rtpmap:97 VP8/90000",
        );
        Ok(OfferResponse { peer_id, offer: SdpOffer { sdp, session_id: 0, version: 0 }, config: copy_config(&self.config) })
    }

    /// Records the answer of a peer: it moves to `Connecting`.
    pub fn handle_answer(&mut self, peer_id: &str, answer: SdpAnswer) -> (r: Result<(), SignalingError>)
        requires
            old(self).wf(),
        ensures
            final(self).wf(),
            final(self).config == old(self).config,
            final(self).metrics == old(self).metrics,
            final(self).next_peer_id == old(self).next_peer_id,
            old(self).peers@.contains_key(peer_id@) ==> r is Ok && ({
                let p = old(self).peers@[peer_id@];
                let q = final(self).peers@[peer_id@];
                &&& final(self).peers@ == old(self).peers@.insert(peer_id@, q)
                &&& q.state == PeerState::Connecting
                &&& q.peer_id == p.peer_id && q.camera_id == p.camera_id
                &&& q.created_at_ms == p.created_at_ms && q.stats == p.stats
            }),
            !old(self).peers@.contains_key(peer_id@) ==> (r matches Err(SignalingError::PeerNotFound)
                && final(self).peers@ == old(self).peers@),
    {
        self.touch(peer_id, true)
    }

    /// Records an ICE candidate of a peer: only its activity time changes.
    pub fn add_ice_candidate(&mut self, peer_id: &str, candidate: IceCandidate) -> (r: Result<(), SignalingError>)
        requires
            old(self).wf(),
        ensures
            final(self).wf(),
            final(self).config == old(self).config,
            final(self).metrics == old(self).metrics,
            final(self).next_peer_id == old(self).next_peer_id,
            old(self).peers@.contains_key(peer_id@) ==> r is Ok && ({
                let p = old(self).peers@[peer_id@];
                let q = final(self).peers@[peer_id@];
                &&& final(self).peers@ == old(self).peers@.insert(peer_id@, q)
                &&& q.state == p.state
                &&& q.peer_id == p.peer_id && q.camera_id == p.camera_id
                &&& q.created_at_ms == p.created_at_ms && q.stats == p.stats
            }),
            !old(self).peers@.contains_key(peer_id@) ==> (r matches Err(SignalingError::PeerNotFound)
                && final(self).peers@ == old(self).peers@),
    {
        self.touch(peer_id, false)
    }

    /// Marks the activity of a peer now; with `answered`, also moves it to
    /// `Connecting`.
    fn touch(&mut self, peer_id: &str, answered: bool) -> (r: Result<(), SignalingError>)
        requires
            old(self).wf(),
        ensures
            final(self).wf(),
            final(self).config == old(self).config,
            final(self).metrics == old(self).metrics,
            final(self).next_peer_id == old(self).next_peer_id,
            old(self).peers@.contains_key(peer_id@) ==> r is Ok && ({
                let p = old(self).peers@[peer_id@];
                let q = final(self).peers@[peer_id@];
                &&& final(self).peers@ == old(self).peers@.insert(peer_id@, q)
                &&& q.state == (if answered { PeerState::Connecting } else { p.state })
                &&& q.peer_id == p.peer_id && q.camera_id == p.camera_id
                &&& q.created_at_ms == p.created_at_ms && q.stats == p.stats
            }),
            !old(self).peers@.contains_key(peer_id@) ==> (r matches Err(SignalingError::PeerNotFound)
                && final(self).peers@ == old(self).peers@),
    {
        let key = String::from_str(peer_id);
        let updated = match self.peers.get_ref(&key) {
            Some(p) => Some(
                PeerConnection {
                    peer_id: p.peer_id.clone(),
                    camera_id: p.camera_id.clone(),
                    state: if answered { PeerState::Connecting } else { p.state },
                    created_at_ms: p.created_at_ms,
                    last_activity_ms: crate::clock::unix_now_millis(),
                    stats: p.stats,
                },
            ),
            None => None,
        };
        match updated {
            Some(q) => {
                self.peers.insert(&key, q);
                Ok(())
            },
            None => Err(SignalingError::PeerNotFound),
        }
    }

    /// The event asking for a tier switch of a peer.
    pub fn request_quality_switch(&self, peer_id: &str, from_tier: QualityTier, to_tier: QualityTier) -> (r: Result<
        SignalingEvent,
        SignalingError,
    >)
        requires
            self.wf(),
        ensures
            self.peers@.contains_key(peer_id@) ==> (r matches Ok(SignalingEvent::QualitySwitchRequested { request })
                && request.peer_id@ == peer_id@ && request.camera_id == self.peers@[peer_id@].camera_id
                && request.from_tier == from_tier && request.to_tier == to_tier),
            !self.peers@.contains_key(peer_id@) ==> r matches Err(SignalingError::PeerNotFound),
    {
        let key = String::from_str(peer_id);
        match self.peers.get_ref(&key) {
            Some(p) => Ok(
                SignalingEvent::QualitySwitchRequested {
                    request: QualitySwitchRequest { peer_id: key, camera_id: p.camera_id.clone(), from_tier, to_tier },
                },
            ),
            None => Err(SignalingError::PeerNotFound),
        }
    }

    fn has_peer(&self, peer_id: &String) -> (r: bool)
        requires
            self.wf(),
        ensures
            r == self.peers@.contains_key(peer_id@),
    {
        self.peers.get_ref(peer_id).is_some()
    }

    /// The event announcing the answer to a tier switch of a known peer.
    pub fn complete_quality_switch(&self, response: QualitySwitchResponse) -> (r: Result<SignalingEvent, SignalingError>)
        requires
            self.wf(),
        ensures
            self.peers@.contains_key(response.peer_id@) ==> r == Ok::<SignalingEvent, SignalingError>(
                SignalingEvent::QualitySwitchCompleted { response },
            ),
            !self.peers@.contains_key(response.peer_id@) ==> r matches Err(SignalingError::PeerNotFound),
    {
        if !self.has_peer(&response.peer_id) {
            return Err(SignalingError::PeerNotFound);
        }
        Ok(SignalingEvent::QualitySwitchCompleted { response })
    }

    /// The event announcing a group-of-pictures boundary of a known peer.
    pub fn notify_gop_boundary(&self, notification: GopBoundaryNotification) -> (r: Result<SignalingEvent, SignalingError>)
        requires
            self.wf(),
        ensures
            self.peers@.contains_key(notification.peer_id@) ==> r == Ok::<SignalingEvent, SignalingError>(
                SignalingEvent::GopBoundaryNotified { notification },
            ),
            !self.peers@.contains_key(notification.peer_id@) ==> r matches Err(SignalingError::PeerNotFound),
    {
        if !self.has_peer(&notification.peer_id) {
            return Err(SignalingError::PeerNotFound);
        }
        Ok(SignalingEvent::GopBoundaryNotified { notification })
    }

    /// The event carrying parameter sets to a known peer.
    pub fn deliver_parameter_sets(&self, delivery: ParameterSetDelivery) -> (r: Result<SignalingEvent, SignalingError>)
        requires
            self.wf(),
        ensures
            self.peers@.contains_key(delivery.peer_id@) ==> r == Ok::<SignalingEvent, SignalingError>(
                SignalingEvent::ParameterSetsDelivered { delivery },
            ),
            !self.peers@.contains_key(delivery.peer_id@) ==> r matches Err(SignalingError::PeerNotFound),
    {
        if !self.has_peer(&delivery.peer_id) {
            return Err(SignalingError::PeerNotFound);
        }
        Ok(SignalingEvent::ParameterSetsDelivered { delivery })
    }

    /// The event carrying the feedback of a known peer.
    pub fn handle_client_feedback(&self, feedback: ClientFeedback) -> (r: Result<SignalingEvent, SignalingError>)
        requires
            self.wf(),
        ensures
            self.peers@.contains_key(feedback.peer_id@) ==> r == Ok::<SignalingEvent, SignalingError>(
                SignalingEvent::ClientFeedbackReceived { feedback },
            ),
            !self.peers@.contains_key(feedback.peer_id@) ==> r matches Err(SignalingError::PeerNotFound),
    {
        if !self.has_peer(&feedback.peer_id) {
            return Err(SignalingError::PeerNotFound);
        }
        Ok(SignalingEvent::ClientFeedbackReceived { feedback })
    }

    /// Removes a peer and counts it as closed.
    pub fn close_peer(&mut self, peer_id: &str) -> (r: Result<(), SignalingError>)
        requires
            old(self).wf(),
        ensures
            final(self).wf(),
            final(self).config == old(self).config,
            final(self).next_peer_id == old(self).next_peer_id,
            final(self).metrics.total_peers == old(self).metrics.total_peers,
            final(self).metrics.failed_peers == old(self).metrics.failed_peers,
            old(self).peers@.contains_key(peer_id@) ==> r is Ok && final(self).peers@ == old(self).peers@.remove(peer_id@)
                && final(self).metrics.closed_peers == bump(old(self).metrics.closed_peers),
            !old(self).peers@.contains_key(peer_id@) ==> (r matches Err(SignalingError::PeerNotFound)
                && final(self).peers@ == old(self).peers@ && final(self).metrics == old(self).metrics),
    {
        let key = String::from_str(peer_id);
        if !self.has_peer(&key) {
            return Err(SignalingError::PeerNotFound);
        }
        self.peers.remove(&key);
        self.metrics.closed_peers = bump_exec(self.metrics.closed_peers);
        Ok(())
    }

    /// The state of a peer, if it exists.
    pub fn get_peer_state(&self, peer_id: &str) -> (r: Option<PeerState>)
        requires
            self.wf(),
        ensures
            self.peers@.contains_key(peer_id@) ==> r == Some(self.peers@[peer_id@].state),
            !self.peers@.contains_key(peer_id@) ==> r is None,
    {
        let key = String::from_str(peer_id);
        match self.peers.get_ref(&key) {
            Some(p) => Some(p.state),
            None => None,
        }
    }

    /// The ids of the live peers, each once.
    pub fn list_active_peers(&self) -> (r: Vec<String>)
        requires
            self.wf(),
        ensures
            r@.len() == self.peers@.dom().len(),
            forall|i: int| 0 <= i < r@.len() ==> self.peers@.contains_key(#[trigger] r@[i]@),
            forall|k: Seq<char>| self.peers@.contains_key(k) ==> exists|i: int| 0 <= i < r@.len() && r@[i]@ == k,
            forall|i: int, j: int| 0 <= i < r@.len() && 0 <= j < r@.len() && i != j ==> r@[i]@ != r@[j]@,
    {
        self.peers.keys()
    }

    /// The counters, with the number of live peers (saturated to `u64`).
    pub fn metrics(&self) -> (r: WebRtcMetricsSnapshot)
        requires
            self.wf(),
        ensures
            r.total_peers == self.metrics.total_peers,
            r.closed_peers == self.metrics.closed_peers,
            r.failed_peers == self.metrics.failed_peers,
            r.active_peers == self.peers@.dom().len(),
    {
        let n = self.peers.len();
        WebRtcMetricsSnapshot {
            total_peers: self.metrics.total_peers,
            active_peers: n as u64,
            closed_peers: self.metrics.closed_peers,
            failed_peers: self.metrics.failed_peers,
        }
    }
}

// ---------------------------------------------------------------------------
// Peer ids.
// ---------------------------------------------------------------------------

proof fn lemma_dec_nonempty(n: nat)
    ensures
        spec_dec(n).len() >= 1,
        n >= 10 ==> spec_dec(n).len() >= 2,
    decreases n,
{
    if n >= 10 {
        lemma_dec_nonempty(n / 10);
    }
}

/// Different numbers have different decimal numerals.
pub proof fn lemma_dec_injective(a: nat, b: nat)
    requires
        spec_dec(a) == spec_dec(b),
    ensures
        a == b,
    decreases a + b,
{
    lemma_dec_nonempty(a);
    lemma_dec_nonempty(b);
    if a < 10 && b < 10 {
        assert(spec_dec(a)[0] == digit_char(a as int));
        assert(spec_dec(b)[0] == digit_char(b as int));
    } else if a < 10 {
        assert(spec_dec(a).len() == 1);
    } else if b < 10 {
        assert(spec_dec(b).len() == 1);
    } else {
        let pa = spec_dec(a / 10);
        let pb = spec_dec(b / 10);
        assert(spec_dec(a) == pa + seq![digit_char((a % 10) as int)]);
        assert(spec_dec(b) == pb + seq![digit_char((b % 10) as int)]);
        assert(spec_dec(a).last() == digit_char((a % 10) as int));
        assert(spec_dec(b).last() == digit_char((b % 10) as int));
        assert(a % 10 == b % 10);
        assert(spec_dec(a).drop_last() =~= pa);
        assert(spec_dec(b).drop_last() =~= pb);
        lemma_dec_injective(a / 10, b / 10);
    }
}

/// Different numbers give different peer ids.
pub proof fn lemma_peer_ids_distinct(a: u64, b: u64)
    requires
        a != b,
    ensures
        peer_id_of(a) != peer_id_of(b),
{
    if peer_id_of(a) == peer_id_of(b) {
        let p = "peer-"@;
        assert(peer_id_of(a).subrange(p.len() as int, peer_id_of(a).len() as int) =~= spec_dec(a as nat));
        assert(peer_id_of(b).subrange(p.len() as int, peer_id_of(b).len() as int) =~= spec_dec(b as nat));
        lemma_dec_injective(a as nat, b as nat);
    }
}

/// Every peer in `peers` holds an id issued below `next`.
pub open spec fn ids_issued_below(peers: Map<Seq<char>, PeerConnection>, next: u64) -> bool {
    forall|k: Seq<char>| #[trigger] peers.contains_key(k) ==> exists|j: u64| j < next && k == peer_id_of(j)
}

/// While every peer holds an id issued before, an offer's id is held by no
/// peer yet, and after the offer every peer still holds an id issued
/// before, as long as the counter has not reached its largest value.
pub proof fn lemma_offer_id_fresh(peers: Map<Seq<char>, PeerConnection>, next: u64, p: PeerConnection)
    requires
        ids_issued_below(peers, next),
        next < u64::MAX,
    ensures
        !peers.contains_key(peer_id_of(next)),
        ids_issued_below(peers.insert(peer_id_of(next), p), bump(next)),
{
    if peers.contains_key(peer_id_of(next)) {
        let j = choose|j: u64| j < next && peer_id_of(next) == peer_id_of(j);
        lemma_peer_ids_distinct(j, next);
    }
    let m = peers.insert(peer_id_of(next), p);
    assert forall|k: Seq<char>| #[trigger] m.contains_key(k) implies exists|j: u64| j < bump(next) && k == peer_id_of(j) by {
        if k == peer_id_of(next) {
            assert(next < bump(next) && k == peer_id_of(next));
        } else {
            let j = choose|j: u64| j < next && k == peer_id_of(j);
            assert(j < bump(next) && k == peer_id_of(j));
        }
    }
}

/// Closing the peer that an offer created leaves the peer table as it was
/// before the offer, less that id, and the peer reads as absent.
pub proof fn lemma_offer_then_close(before: Map<Seq<char>, PeerConnection>, id: Seq<char>, p: PeerConnection)
    ensures
        before.insert(id, p).remove(id) == before.remove(id),
        !before.insert(id, p).remove(id).contains_key(id),
        !before.contains_key(id) ==> before.insert(id, p).remove(id) == before,
{
    assert(before.insert(id, p).remove(id) =~= before.remove(id));
    if !before.contains_key(id) {
        assert(before.remove(id) =~= before);
    }
}

} // verus!
