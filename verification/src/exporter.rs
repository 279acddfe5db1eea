//! The scrape orchestrator: walks the configured hubs, asks for each one's
//! status and session reports in turn, decodes them, aggregates per-user
//! transfer, and plans the gauge updates of one scrape cycle. A hub whose
//! query or decode fails is marked down and skipped; its failure never
//! touches another hub's gauges. The caller performs the queries the
//! orchestrator asks for and applies the planned writes to its metrics
//! registry.

use vstd::prelude::*;
use vstd::string::StrSliceExecFns;

use crate::aggregate::{aggregate_user_transfer, spec_aggregate, UserTransfer, UserTransferView};
use crate::config::{spec_display_name, spec_secret, Hub, HubEntryView};
use crate::error::SoftEtherError;
use crate::invoke::QueryKind;
use crate::session::HubSessionView;
use crate::softether_reader::{spec_sessions_outcome, spec_status_outcome, SoftEtherReader};
use crate::status::{HubStatus, HubStatusView};

verus! {

/// One hub-labeled gauge of the metrics snapshot.
#[derive(Clone, Copy, PartialEq, Eq, Structural, Debug)]
pub enum HubGauge {
    /// Whether the hub's last scrape succeeded.
    Up,
    Online,
    Sessions,
    SessionsClient,
    SessionsBridge,
    Users,
    Groups,
    MacTables,
    IpTables,
    Logins,
    OutgoingUnicastPackets,
    OutgoingUnicastBytes,
    OutgoingBroadcastPackets,
    OutgoingBroadcastBytes,
    IncomingUnicastPackets,
    IncomingUnicastBytes,
    IncomingBroadcastPackets,
    IncomingBroadcastBytes,
}

/// One (hub, user)-labeled gauge of the metrics snapshot.
#[derive(Clone, Copy, PartialEq, Eq, Structural, Debug)]
pub enum UserGauge {
    TransferBytes,
    TransferPackets,
}

/// One write into the metrics snapshot.
#[derive(PartialEq, Debug)]
pub enum GaugeWrite {
    /// Set a hub-labeled gauge.
    Hub { gauge: HubGauge, hub: String, value: u64 },
    /// Set a (hub, user)-labeled gauge.
    User { gauge: UserGauge, hub: String, user: String, value: u128 },
    /// Set the constant build-info gauge, whose value is always 1.
    BuildInfo { version: String, revision: String, toolchain: String },
}

/// The mathematical model of one gauge write.
pub ghost enum GaugeWriteView {
    Hub { gauge: HubGauge, hub: Seq<char>, value: u64 },
    User { gauge: UserGauge, hub: Seq<char>, user: Seq<char>, value: int },
    BuildInfo { version: Seq<char>, revision: Seq<char>, toolchain: Seq<char> },
}

impl View for GaugeWrite {
    type V = GaugeWriteView;

    open spec fn view(&self) -> GaugeWriteView {
        match self {
            GaugeWrite::Hub { gauge, hub, value } => GaugeWriteView::Hub {
                gauge: *gauge,
                hub: hub@,
                value: *value,
            },
            GaugeWrite::User { gauge, hub, user, value } => GaugeWriteView::User {
                gauge: *gauge,
                hub: hub@,
                user: user@,
                value: *value as int,
            },
            GaugeWrite::BuildInfo { version, revision, toolchain } => GaugeWriteView::BuildInfo {
                version: version@,
                revision: revision@,
                toolchain: toolchain@,
            },
        }
    }
}

impl DeepView for GaugeWrite {
    type V = GaugeWriteView;

    open spec fn deep_view(&self) -> GaugeWriteView {
        self.view()
    }
}

/// A boolean gauge's numeric value.
pub open spec fn bool_value(b: bool) -> u64 {
    if b {
        1
    } else {
        0
    }
}

/// The single write a failed hub receives: its up indicator drops to 0 and
/// nothing else of it is touched this cycle.
pub open spec fn down_writes(hub: Seq<char>) -> Seq<GaugeWriteView> {
    seq![GaugeWriteView::Hub { gauge: HubGauge::Up, hub, value: 0 }]
}

/// The writes a fully scraped hub's status record receives, labeled by the
/// record's own decoded name.
pub open spec fn status_writes(st: HubStatusView) -> Seq<GaugeWriteView> {
    seq![
        GaugeWriteView::Hub { gauge: HubGauge::Up, hub: st.name, value: 1 },
        GaugeWriteView::Hub { gauge: HubGauge::Online, hub: st.name, value: bool_value(st.online) },
        GaugeWriteView::Hub { gauge: HubGauge::Sessions, hub: st.name, value: st.sessions },
        GaugeWriteView::Hub {
            gauge: HubGauge::SessionsClient,
            hub: st.name,
            value: st.sessions_client,
        },
        GaugeWriteView::Hub {
            gauge: HubGauge::SessionsBridge,
            hub: st.name,
            value: st.sessions_bridge,
        },
        GaugeWriteView::Hub { gauge: HubGauge::Users, hub: st.name, value: st.users },
        GaugeWriteView::Hub { gauge: HubGauge::Groups, hub: st.name, value: st.groups },
        GaugeWriteView::Hub { gauge: HubGauge::MacTables, hub: st.name, value: st.mac_tables },
        GaugeWriteView::Hub { gauge: HubGauge::IpTables, hub: st.name, value: st.ip_tables },
        GaugeWriteView::Hub { gauge: HubGauge::Logins, hub: st.name, value: st.logins },
        GaugeWriteView::Hub {
            gauge: HubGauge::OutgoingUnicastPackets,
            hub: st.name,
            value: st.outgoing_unicast_packets,
        },
        GaugeWriteView::Hub {
            gauge: HubGauge::OutgoingUnicastBytes,
            hub: st.name,
            value: st.outgoing_unicast_bytes,
        },
        GaugeWriteView::Hub {
            gauge: HubGauge::OutgoingBroadcastPackets,
            hub: st.name,
            value: st.outgoing_broadcast_packets,
        },
        GaugeWriteView::Hub {
            gauge: HubGauge::OutgoingBroadcastBytes,
            hub: st.name,
            value: st.outgoing_broadcast_bytes,
        },
        GaugeWriteView::Hub {
            gauge: HubGauge::IncomingUnicastPackets,
            hub: st.name,
            value: st.incoming_unicast_packets,
        },
        GaugeWriteView::Hub {
            gauge: HubGauge::IncomingUnicastBytes,
            hub: st.name,
            value: st.incoming_unicast_bytes,
        },
        GaugeWriteView::Hub {
            gauge: HubGauge::IncomingBroadcastPackets,
            hub: st.name,
            value: st.incoming_broadcast_packets,
        },
        GaugeWriteView::Hub {
            gauge: HubGauge::IncomingBroadcastBytes,
            hub: st.name,
            value: st.incoming_broadcast_bytes,
        },
    ]
}

/// The per-user writes of a fully scraped hub: every aggregated user's
/// byte sum, then every user's packet sum, in the aggregate's order.
pub open spec fn user_writes(hub: Seq<char>, agg: Seq<UserTransferView>) -> Seq<GaugeWriteView> {
    Seq::new(
        agg.len(),
        |i: int|
            GaugeWriteView::User {
                gauge: UserGauge::TransferBytes,
                hub,
                user: agg[i].user,
                value: agg[i].bytes,
            },
    ) + Seq::new(
        agg.len(),
        |i: int|
            GaugeWriteView::User {
                gauge: UserGauge::TransferPackets,
                hub,
                user: agg[i].user,
                value: agg[i].packets,
            },
    )
}

/// Everything a fully scraped hub writes: its status gauges and its
/// per-user transfer gauges.
pub open spec fn success_writes(st: HubStatusView, sessions: Seq<HubSessionView>) -> Seq<
    GaugeWriteView,
> {
    status_writes(st) + user_writes(st.name, spec_aggregate(sessions))
}

fn push_down_write(w: &mut Vec<GaugeWrite>, hub: &str)
    ensures
        final(w).deep_view() == old(w).deep_view() + down_writes(hub@),
{
    w.push(GaugeWrite::Hub { gauge: HubGauge::Up, hub: hub.to_owned(), value: 0 });
    proof {
        assert(w.deep_view() =~= old(w).deep_view() + down_writes(hub@));
    }
}

fn push_status_writes(w: &mut Vec<GaugeWrite>, st: &HubStatus)
    ensures
        final(w).deep_view() == old(w).deep_view() + status_writes(st@),
{
    w.push(GaugeWrite::Hub { gauge: HubGauge::Up, hub: st.name.clone(), value: 1 });
    w.push(
        GaugeWrite::Hub {
            gauge: HubGauge::Online,
            hub: st.name.clone(),
            value: if st.online {
                1
            } else {
                0
            },
        },
    );
    w.push(GaugeWrite::Hub { gauge: HubGauge::Sessions, hub: st.name.clone(), value: st.sessions });
    w.push(
        GaugeWrite::Hub {
            gauge: HubGauge::SessionsClient,
            hub: st.name.clone(),
            value: st.sessions_client,
        },
    );
    w.push(
        GaugeWrite::Hub {
            gauge: HubGauge::SessionsBridge,
            hub: st.name.clone(),
            value: st.sessions_bridge,
        },
    );
    w.push(GaugeWrite::Hub { gauge: HubGauge::Users, hub: st.name.clone(), value: st.users });
    w.push(GaugeWrite::Hub { gauge: HubGauge::Groups, hub: st.name.clone(), value: st.groups });
    w.push(
        GaugeWrite::Hub { gauge: HubGauge::MacTables, hub: st.name.clone(), value: st.mac_tables },
    );
    w.push(
        GaugeWrite::Hub { gauge: HubGauge::IpTables, hub: st.name.clone(), value: st.ip_tables },
    );
    w.push(GaugeWrite::Hub { gauge: HubGauge::Logins, hub: st.name.clone(), value: st.logins });
    w.push(
        GaugeWrite::Hub {
            gauge: HubGauge::OutgoingUnicastPackets,
            hub: st.name.clone(),
            value: st.outgoing_unicast_packets,
        },
    );
    w.push(
        GaugeWrite::Hub {
            gauge: HubGauge::OutgoingUnicastBytes,
            hub: st.name.clone(),
            value: st.outgoing_unicast_bytes,
        },
    );
    w.push(
        GaugeWrite::Hub {
            gauge: HubGauge::OutgoingBroadcastPackets,
            hub: st.name.clone(),
            value: st.outgoing_broadcast_packets,
        },
    );
    w.push(
        GaugeWrite::Hub {
            gauge: HubGauge::OutgoingBroadcastBytes,
            hub: st.name.clone(),
            value: st.outgoing_broadcast_bytes,
        },
    );
    w.push(
        GaugeWrite::Hub {
            gauge: HubGauge::IncomingUnicastPackets,
            hub: st.name.clone(),
            value: st.incoming_unicast_packets,
        },
    );
    w.push(
        GaugeWrite::Hub {
            gauge: HubGauge::IncomingUnicastBytes,
            hub: st.name.clone(),
            value: st.incoming_unicast_bytes,
        },
    );
    w.push(
        GaugeWrite::Hub {
            gauge: HubGauge::IncomingBroadcastPackets,
            hub: st.name.clone(),
            value: st.incoming_broadcast_packets,
        },
    );
    w.push(
        GaugeWrite::Hub {
            gauge: HubGauge::IncomingBroadcastBytes,
            hub: st.name.clone(),
            value: st.incoming_broadcast_bytes,
        },
    );
    proof {
        assert(w.deep_view() =~= old(w).deep_view() + status_writes(st@));
    }
}

fn push_user_writes(w: &mut Vec<GaugeWrite>, hub: &String, agg: &Vec<UserTransfer>)
    ensures
        final(w).deep_view() == old(w).deep_view() + user_writes(hub@, agg.deep_view()),
{
    let ghost aggv = agg.deep_view();
    let ghost base = old(w).deep_view();
    let mut k: usize = 0;
    while k < agg.len()
        invariant
            k <= agg@.len(),
            aggv == agg.deep_view(),
            aggv.len() == agg@.len(),
            w@.len() == base.len() + k,
            forall|i: int| 0 <= i < base.len() ==> w.deep_view()[i] == base[i],
            forall|i: int|
                0 <= i < k ==> w.deep_view()[base.len() + i] == (GaugeWriteView::User {
                    gauge: UserGauge::TransferBytes,
                    hub: hub@,
                    user: aggv[i].user,
                    value: aggv[i].bytes,
                }),
        decreases agg@.len() - k,
    {
        let entry = &agg[k];
        w.push(
            GaugeWrite::User {
                gauge: UserGauge::TransferBytes,
                hub: hub.clone(),
                user: entry.user.clone(),
                value: entry.bytes,
            },
        );
        k = k + 1;
    }
    let mut k: usize = 0;
    while k < agg.len()
        invariant
            k <= agg@.len(),
            aggv == agg.deep_view(),
            aggv.len() == agg@.len(),
            w@.len() == base.len() + aggv.len() + k,
            forall|i: int| 0 <= i < base.len() ==> w.deep_view()[i] == base[i],
            forall|i: int|
                0 <= i < aggv.len() ==> w.deep_view()[base.len() + i] == (GaugeWriteView::User {
                    gauge: UserGauge::TransferBytes,
                    hub: hub@,
                    user: aggv[i].user,
                    value: aggv[i].bytes,
                }),
            forall|i: int|
                0 <= i < k ==> w.deep_view()[base.len() + aggv.len() + i] == (GaugeWriteView::User {
                    gauge: UserGauge::TransferPackets,
                    hub: hub@,
                    user: aggv[i].user,
                    value: aggv[i].packets,
                }),
        decreases agg@.len() - k,
    {
        let entry = &agg[k];
        w.push(
            GaugeWrite::User {
                gauge: UserGauge::TransferPackets,
                hub: hub.clone(),
                user: entry.user.clone(),
                value: entry.packets,
            },
        );
        k = k + 1;
    }
    proof {
        assert(w.deep_view() =~= base + user_writes(hub@, aggv));
    }
}

/// What the two queries of one hub produced: the tool's captured output
/// on success, or the failure surfaced for it.
#[derive(Debug)]
pub struct HubFetch {
    pub status: Result<Vec<u8>, SoftEtherError>,
    pub sessions: Result<Vec<u8>, SoftEtherError>,
}

/// The mathematical model of one hub's fetched outcomes.
pub ghost struct HubFetchView {
    pub status: Result<Seq<u8>, Seq<char>>,
    pub sessions: Result<Seq<u8>, Seq<char>>,
}

/// The model of one query outcome.
pub open spec fn outcome_view(r: Result<Vec<u8>, SoftEtherError>) -> Result<Seq<u8>, Seq<char>> {
    match r {
        Ok(b) => Ok(b@),
        Err(e) => Err(e@),
    }
}

impl View for HubFetch {
    type V = HubFetchView;

    open spec fn view(&self) -> HubFetchView {
        HubFetchView { status: outcome_view(self.status), sessions: outcome_view(self.sessions) }
    }
}

impl DeepView for HubFetch {
    type V = HubFetchView;

    open spec fn deep_view(&self) -> HubFetchView {
        self.view()
    }
}

/// Everything one hub writes in one cycle, given what its queries
/// produced: a hub whose query fails, or whose report does not decode, is
/// marked down and nothing else of it is touched; a fully scraped hub
/// writes its status and per-user gauges. A hub whose status query fails
/// never has its session outcome consulted.
pub open spec fn spec_hub_writes(name: Seq<char>, fetch: HubFetchView) -> Seq<GaugeWriteView> {
    match fetch.status {
        Err(_) => down_writes(name),
        Ok(sb) => match spec_status_outcome(sb) {
            None => down_writes(name),
            Some(st) => match fetch.sessions {
                Err(_) => down_writes(name),
                Ok(ssb) => match spec_sessions_outcome(ssb) {
                    None => down_writes(name),
                    Some(ss) => success_writes(st, ss),
                },
            },
        },
    }
}

/// Everything one scrape cycle writes for its hubs, in hub order; no
/// hub's failure short-circuits the rest.
pub open spec fn spec_scrape(hubs: Seq<HubEntryView>, fetches: Seq<HubFetchView>) -> Seq<
    GaugeWriteView,
>
    decreases hubs.len(),
{
    if hubs.len() == 0 {
        Seq::empty()
    } else {
        spec_scrape(hubs.drop_last(), fetches.drop_last()) + spec_hub_writes(
            spec_display_name(hubs.last()),
            fetches.last(),
        )
    }
}

/// One query the orchestrator asks its caller to perform: which hub to
/// address, with which credential, and which report to request.
#[derive(PartialEq, Debug)]
pub struct Query {
    pub hub: String,
    pub password: String,
    pub kind: QueryKind,
}

/// The scrape orchestrator, stepped one query at a time: the caller asks
/// `next_query` what to run, performs it, and feeds the outcome back
/// through `supply`; `finish` closes the cycle with the build-info write.
pub struct Exporter {
    hubs: Vec<Hub>,
    idx: usize,
    pending: Option<HubStatus>,
    writes: Vec<GaugeWrite>,
    finished: bool,
}

/// The mathematical model of the orchestrator's state.
#[verifier::ext_equal]
pub ghost struct ExporterView {
    pub hubs: Seq<HubEntryView>,
    pub idx: int,
    pub pending: Option<HubStatusView>,
    pub writes: Seq<GaugeWriteView>,
    pub finished: bool,
}

impl View for Exporter {
    type V = ExporterView;

    closed spec fn view(&self) -> ExporterView {
        ExporterView {
            hubs: self.hubs.deep_view(),
            idx: self.idx as int,
            pending: match self.pending {
                Some(st) => Some(st@),
                None => None,
            },
            writes: self.writes.deep_view(),
            finished: self.finished,
        }
    }
}

/// How one query's outcome advances the orchestrator. Awaiting a status
/// report, a decodable one is held and the same hub's sessions are asked
/// for next; anything else marks the hub down and moves on. Awaiting a
/// session report, a decodable one completes the hub's writes; anything
/// else marks it down.
pub open spec fn spec_step(st: ExporterView, outcome: Result<Seq<u8>, Seq<char>>) -> ExporterView {
    let name = spec_display_name(st.hubs[st.idx]);
    match st.pending {
        None => match outcome {
            Ok(b) => match spec_status_outcome(b) {
                Some(h) => ExporterView { pending: Some(h), ..st },
                None => ExporterView {
                    idx: st.idx + 1,
                    pending: None,
                    writes: st.writes + down_writes(name),
                    ..st
                },
            },
            Err(_) => ExporterView {
                idx: st.idx + 1,
                pending: None,
                writes: st.writes + down_writes(name),
                ..st
            },
        },
        Some(h) => match outcome {
            Ok(b) => match spec_sessions_outcome(b) {
                Some(ss) => ExporterView {
                    idx: st.idx + 1,
                    pending: None,
                    writes: st.writes + success_writes(h, ss),
                    ..st
                },
                None => ExporterView {
                    idx: st.idx + 1,
                    pending: None,
                    writes: st.writes + down_writes(name),
                    ..st
                },
            },
            Err(_) => ExporterView {
                idx: st.idx + 1,
                pending: None,
                writes: st.writes + down_writes(name),
                ..st
            },
        },
    }
}

impl Exporter {
    /// The orchestrator never runs past its hub list, holds a pending
    /// status only mid-hub, and is finished only at the end.
    pub open spec fn wf(&self) -> bool {
        &&& self@.idx <= self@.hubs.len()
        &&& (self@.pending is Some ==> self@.idx < self@.hubs.len())
        &&& (self@.finished ==> self@.idx == self@.hubs.len())
    }

    /// Start one scrape cycle over the given hubs.
    pub fn new(hubs: Vec<Hub>) -> (r: Exporter)
        ensures
            r.wf(),
            r@.hubs == hubs.deep_view(),
            r@.idx == 0,
            r@.pending is None,
            r@.writes == Seq::<GaugeWriteView>::empty(),
            !r@.finished,
    {
        let r = Exporter { hubs, idx: 0, pending: None, writes: Vec::new(), finished: false };
        proof {
            assert(r@.writes =~= Seq::<GaugeWriteView>::empty());
        }
        r
    }

    /// The hub the next query addresses.
    pub fn hub_index(&self) -> (r: usize)
        ensures
            r == self@.idx,
    {
        self.idx
    }

    /// Which query to perform next, or nothing when every hub is done.
    pub fn next_query(&self) -> (r: Option<Query>)
        requires
            self.wf(),
        ensures
            (r is Some) == (self@.idx < self@.hubs.len()),
            r matches Some(q) ==> {
                &&& q.hub@ == spec_display_name(self@.hubs[self@.idx])
                &&& q.password@ == spec_secret(self@.hubs[self@.idx])
                &&& q.kind == (if self@.pending is None {
                    QueryKind::Status
                } else {
                    QueryKind::Sessions
                })
            },
    {
        if self.idx < self.hubs.len() {
            let h = &self.hubs[self.idx];
            let kind = if self.pending.is_none() {
                QueryKind::Status
            } else {
                QueryKind::Sessions
            };
            Some(Query { hub: h.display_name(), password: h.secret(), kind })
        } else {
            None
        }
    }

    /// Feed one query's outcome back into the cycle.
    pub fn supply(&mut self, outcome: &Result<Vec<u8>, SoftEtherError>)
        requires
            old(self).wf(),
            old(self)@.idx < old(self)@.hubs.len(),
            !old(self)@.finished,
        ensures
            final(self).wf(),
            final(self)@ == spec_step(old(self)@, outcome_view(*outcome)),
    {
        let hub_count = self.hubs.len();
        proof {
            assert(self.idx < hub_count);
        }
        let name = {
            let h = &self.hubs[self.idx];
            h.display_name()
        };
        let has_pending = self.pending.is_some();
        if !has_pending {
            match outcome {
                Ok(bytes) => match SoftEtherReader::decode_hub_status(bytes.as_slice()) {
                    Ok(st) => {
                        self.pending = Some(st);
                    },
                    Err(_) => {
                        push_down_write(&mut self.writes, name.as_str());
                        self.idx = self.idx + 1;
                    },
                },
                Err(_) => {
                    push_down_write(&mut self.writes, name.as_str());
                    self.idx = self.idx + 1;
                },
            }
        } else {
            match outcome {
                Ok(bytes) => match SoftEtherReader::decode_hub_sessions(bytes.as_slice()) {
                    Ok(sessions) => {
                        let agg = aggregate_user_transfer(&sessions);
                        match &self.pending {
                            Some(st) => {
                                push_status_writes(&mut self.writes, st);
                                push_user_writes(&mut self.writes, &st.name, &agg);
                            },
                            None => {},
                        }
                        self.pending = None;
                        self.idx = self.idx + 1;
                    },
                    Err(_) => {
                        push_down_write(&mut self.writes, name.as_str());
                        self.pending = None;
                        self.idx = self.idx + 1;
                    },
                },
                Err(_) => {
                    push_down_write(&mut self.writes, name.as_str());
                    self.pending = None;
                    self.idx = self.idx + 1;
                },
            }
        }
        proof {
            assert(self@ =~= spec_step(old(self)@, outcome_view(*outcome)));
        }
    }

    /// Close the cycle: the constant build-info gauge is written once,
    /// whatever any hub's outcome was.
    pub fn finish(&mut self, version: &str, revision: &str, toolchain: &str)
        requires
            old(self).wf(),
            old(self)@.idx == old(self)@.hubs.len(),
            !old(self)@.finished,
        ensures
            final(self).wf(),
            final(self)@.finished,
            final(self)@.hubs == old(self)@.hubs,
            final(self)@.idx == old(self)@.idx,
            final(self)@.writes == old(self)@.writes + seq![
                GaugeWriteView::BuildInfo {
                    version: version@,
                    revision: revision@,
                    toolchain: toolchain@,
                },
            ],
    {
        self.writes.push(
            GaugeWrite::BuildInfo {
                version: version.to_owned(),
                revision: revision.to_owned(),
                toolchain: toolchain.to_owned(),
            },
        );
        self.finished = true;
        proof {
            assert(self@.writes =~= old(self)@.writes + seq![
                GaugeWriteView::BuildInfo {
                    version: version@,
                    revision: revision@,
                    toolchain: toolchain@,
                },
            ]);
        }
    }

    /// The writes of the cycle, in the order they are to be applied.
    pub fn into_writes(self) -> (r: Vec<GaugeWrite>)
        ensures
            r.deep_view() == self@.writes,
    {
        self.writes
    }
}

/// Execute one whole scrape cycle from already-fetched query outcomes,
/// one per configured hub: exactly what the stepped orchestrator writes
/// when its caller answers each query from the matching fetch. A hub
/// whose status query failed has its session outcome left unread.
pub fn run(
    hubs: Vec<Hub>,
    fetches: &Vec<HubFetch>,
    version: &str,
    revision: &str,
    toolchain: &str,
) -> (w: Vec<GaugeWrite>)
    requires
        fetches@.len() == hubs@.len(),
    ensures
        w.deep_view() == spec_scrape(hubs.deep_view(), fetches.deep_view()) + seq![
            GaugeWriteView::BuildInfo {
                version: version@,
                revision: revision@,
                toolchain: toolchain@,
            },
        ],
{
    let ghost hubsv = hubs.deep_view();
    let ghost fetchesv = fetches.deep_view();
    let mut ex = Exporter::new(hubs);
    proof {
        assert(hubsv.take(0) =~= Seq::<HubEntryView>::empty());
        assert(fetchesv.take(0) =~= Seq::<HubFetchView>::empty());
    }
    loop
        invariant
            ex.wf(),
            !ex@.finished,
            ex@.hubs == hubsv,
            fetchesv == fetches.deep_view(),
            fetchesv.len() == hubsv.len(),
            fetches@.len() == fetchesv.len(),
            ex@.writes == spec_scrape(hubsv.take(ex@.idx), fetchesv.take(ex@.idx)),
            ex@.pending matches Some(st) ==> (fetchesv[ex@.idx].status matches Ok(b)
                && spec_status_outcome(b) == Some(st)),
        ensures
            ex.wf(),
            !ex@.finished,
            ex@.hubs == hubsv,
            ex@.idx == hubsv.len(),
            ex@.writes == spec_scrape(hubsv.take(ex@.idx), fetchesv.take(ex@.idx)),
        decreases 2 * (hubsv.len() - ex@.idx) + (if ex@.pending is None {
            1int
        } else {
            0int
        }),
    {
        match ex.next_query() {
            None => {
                break ;
            },
            Some(q) => {
                let i = ex.hub_index();
                let ghost pre = ex@;
                match q.kind {
                    QueryKind::Status => ex.supply(&fetches[i].status),
                    QueryKind::Sessions => ex.supply(&fetches[i].sessions),
                }
                proof {
                    assert(fetchesv[pre.idx] == fetches@[pre.idx].deep_view());
                    assert(hubsv.take(pre.idx + 1).drop_last() =~= hubsv.take(pre.idx));
                    assert(fetchesv.take(pre.idx + 1).drop_last() =~= fetchesv.take(pre.idx));
                    assert(hubsv.take(pre.idx + 1).last() == hubsv[pre.idx]);
                    assert(fetchesv.take(pre.idx + 1).last() == fetchesv[pre.idx]);
                }
            },
        }
    }
    proof {
        assert(hubsv.take(hubsv.len() as int) =~= hubsv);
        assert(fetchesv.take(hubsv.len() as int) =~= fetchesv);
    }
    ex.finish(version, revision, toolchain);
    ex.into_writes()
}

} // verus!
