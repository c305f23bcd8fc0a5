//! The catalog state machine: the peers and flows tables, the applied
//! migration set, and the operations the orchestration layer calls.
//!
//! The metadata store is modelled as the two tables it owns. Each
//! operation's contract states exactly which rows it reads or writes and
//! on which states it returns each error of the taxonomy.

use vstd::prelude::*;

use crate::codec::{decode_config, encode_config, spec_config_fits, spec_decode_config,
    spec_encode_config};
use crate::config::{CatalogConfig, CatalogConfigV};
use crate::errors::CatalogError;
use crate::flows::{FlowJob, normalize_table_identifier, spec_normalize_identifier};
use crate::migrations::{Migration, pending_migrations, spec_pending, spec_versions};
use crate::peers::{Config, ConfigV, DbType, Peer, spec_db_type_from_i32};

verus! {

/// One row of the peers table.
#[derive(Debug)]
pub struct PeerRow {
    pub id: i32,
    pub name: String,
    pub db_type: i32,
    pub options: Vec<u8>,
}

/// Mathematical view of a `PeerRow`.
pub ghost struct PeerRowV {
    pub id: i32,
    pub name: Seq<char>,
    pub db_type: i32,
    pub options: Seq<u8>,
}

impl View for PeerRow {
    type V = PeerRowV;

    open spec fn view(&self) -> PeerRowV {
        PeerRowV { id: self.id, name: self.name@, db_type: self.db_type, options: self.options@ }
    }
}

/// One row of the flows table; a flow has one row per table mapping.
#[derive(Debug)]
pub struct FlowRow {
    pub name: String,
    pub source_peer: i32,
    pub destination_peer: i32,
    pub description: String,
    pub source_table_identifier: String,
    pub destination_table_identifier: String,
    pub workflow_id: Option<String>,
}

/// Mathematical view of a `FlowRow`.
pub ghost struct FlowRowV {
    pub name: Seq<char>,
    pub source_peer: i32,
    pub destination_peer: i32,
    pub description: Seq<char>,
    pub source_table_identifier: Seq<char>,
    pub destination_table_identifier: Seq<char>,
    pub workflow_id: Option<Seq<char>>,
}

impl View for FlowRow {
    type V = FlowRowV;

    open spec fn view(&self) -> FlowRowV {
        FlowRowV {
            name: self.name@,
            source_peer: self.source_peer,
            destination_peer: self.destination_peer,
            description: self.description@,
            source_table_identifier: self.source_table_identifier@,
            destination_table_identifier: self.destination_table_identifier@,
            workflow_id: match self.workflow_id {
                Some(ref w) => Some(w@),
                None => None,
            },
        }
    }
}

/// The shared, read-only capability for running queries against the
/// metadata store: one owner constructs it, many callers hold it, nobody
/// mutates it.
#[derive(Debug)]
pub struct ExecutorHandle {
    pub config: CatalogConfig,
}

impl View for ExecutorHandle {
    type V = CatalogConfigV;

    open spec fn view(&self) -> CatalogConfigV {
        self.config@
    }
}

/// The catalog: its store configuration and the state of the metadata
/// store it owns.
#[derive(Debug)]
pub struct Catalog {
    pub config: CatalogConfig,
    pub peers: Vec<PeerRow>,
    pub flows: Vec<FlowRow>,
    pub next_peer_id: i32,
    pub applied_migrations: Vec<u64>,
}

/// Mathematical view of a `Catalog`.
pub ghost struct CatalogV {
    pub config: CatalogConfigV,
    pub peers: Seq<PeerRowV>,
    pub flows: Seq<FlowRowV>,
    pub next_peer_id: i32,
    pub applied_migrations: Seq<u64>,
}

impl View for Catalog {
    type V = CatalogV;

    open spec fn view(&self) -> CatalogV {
        CatalogV {
            config: self.config@,
            peers: self.peers@.map_values(|r: PeerRow| r@),
            flows: self.flows@.map_values(|r: FlowRow| r@),
            next_peer_id: self.next_peer_id,
            applied_migrations: self.applied_migrations@,
        }
    }
}

/// True when some peer row carries the given name.
pub open spec fn spec_has_peer_named(c: CatalogV, name: Seq<char>) -> bool {
    exists|i: int| 0 <= i < c.peers.len() && c.peers[i].name == name
}

/// True when some peer row carries the given id.
pub open spec fn spec_has_peer_id(c: CatalogV, id: i32) -> bool {
    exists|i: int| 0 <= i < c.peers.len() && c.peers[i].id == id
}

/// The peer row with the given name; meaningful under the catalog
/// invariant, which makes names unique.
pub open spec fn spec_peer_named(c: CatalogV, name: Seq<char>) -> PeerRowV {
    c.peers[choose|i: int| 0 <= i < c.peers.len() && c.peers[i].name == name]
}

/// True when some flow row carries the given name.
pub open spec fn spec_has_flow_named(c: CatalogV, name: Seq<char>) -> bool {
    exists|i: int| 0 <= i < c.flows.len() && c.flows[i].name == name
}

/// The flow rows that survive deleting a flow by name, in order.
pub open spec fn spec_flows_without(flows: Seq<FlowRowV>, name: Seq<char>) -> Seq<FlowRowV>
    decreases flows.len(),
{
    if flows.len() == 0 {
        Seq::empty()
    } else {
        let init = spec_flows_without(flows.drop_last(), name);
        if flows.last().name == name {
            init
        } else {
            init.push(flows.last())
        }
    }
}

/// The lower-cased form of a character sequence, as Unicode case mapping
/// defines it; the result depends on the characters alone.
pub uninterp spec fn lower_of(s: Seq<char>) -> Seq<char>;

/// Relies on `str::to_lowercase`: the result is the Unicode lower-case
/// mapping of the input and depends on the input's characters alone.
#[verifier::external_body]
fn to_lowercase(s: &str) -> (r: String)
    ensures
        r@ == lower_of(s@),
{
    s.to_lowercase()
}

/// When two catalog states hold the same peers table, a peer id present in
/// one is present in the other.
proof fn lemma_has_peer_id_same_peers(c1: CatalogV, c2: CatalogV, id: i32)
    requires
        c1.peers == c2.peers,
        spec_has_peer_id(c1, id),
    ensures
        spec_has_peer_id(c2, id),
{
    let k = choose|k: int| 0 <= k < c1.peers.len() && c1.peers[k].id == id;
    assert(c2.peers[k].id == id);
}

/// The payload decoding outcome for one peer row: `None` is a decode
/// failure for a recognized backend; `Some(None)` is the tolerant-read
/// outcome for an unrecognized discriminant; `Some(Some(v))` is a decoded
/// configuration.
pub open spec fn spec_row_config(r: PeerRowV) -> Option<Option<ConfigV>> {
    match spec_db_type_from_i32(r.db_type) {
        None => Some(None),
        Some(t) => match spec_decode_config(t, r.options) {
            Some(v) => Some(Some(v)),
            None => None,
        },
    }
}

impl Catalog {
    /// The catalog invariant: peer names and ids are unique, ids were
    /// assigned below the next id, and flow rows reference existing peers.
    pub open spec fn wf(&self) -> bool {
        let c = self@;
        &&& forall|i: int, j: int|
            0 <= i < j < c.peers.len() ==> c.peers[i].name != c.peers[j].name && c.peers[i].id
                != c.peers[j].id
        &&& forall|i: int|
            0 <= i < c.peers.len() ==> 1 <= (#[trigger] c.peers[i]).id < c.next_peer_id
        &&& 1 <= c.next_peer_id
        &&& forall|i: int|
            0 <= i < c.flows.len() ==> spec_has_peer_id(c, (#[trigger] c.flows[i]).source_peer)
                && spec_has_peer_id(c, c.flows[i].destination_peer)
    }

    /// A fresh catalog over the given store configuration: empty tables,
    /// no migrations applied, ids to be assigned from one.
    pub fn new(config: CatalogConfig) -> (r: Catalog)
        ensures
            r.wf(),
            r@.config == config@,
            r@.peers == Seq::<PeerRowV>::empty(),
            r@.flows == Seq::<FlowRowV>::empty(),
            r@.next_peer_id == 1,
            r@.applied_migrations == Seq::<u64>::empty(),
    {
        let c = Catalog {
            config,
            peers: Vec::new(),
            flows: Vec::new(),
            next_peer_id: 1,
            applied_migrations: Vec::new(),
        };
        proof {
            assert(c@.peers =~= Seq::<PeerRowV>::empty());
            assert(c@.flows =~= Seq::<FlowRowV>::empty());
        }
        c
    }

    /// The shared query capability over the same store configuration.
    pub fn get_executor(&self) -> (r: ExecutorHandle)
        ensures
            r@ == self@.config,
    {
        ExecutorHandle {
            config: CatalogConfig {
                host: self.config.host.clone(),
                port: self.config.port,
                user: self.config.user.clone(),
                password: self.config.password.clone(),
                database: self.config.database.clone(),
            },
        }
    }

    /// Applies every embedded migration not yet applied, in version order,
    /// records them as applied, and reports each one.
    pub fn run_migrations(&mut self) -> (r: Vec<Migration>)
        ensures
            old(self).wf() ==> final(self).wf(),
            r@.map_values(|m: Migration| m@) == spec_pending(old(self)@.applied_migrations),
            final(self)@.applied_migrations == old(self)@.applied_migrations + spec_versions(
                spec_pending(old(self)@.applied_migrations),
            ),
            final(self)@.config == old(self)@.config,
            final(self)@.peers == old(self)@.peers,
            final(self)@.flows == old(self)@.flows,
            final(self)@.next_peer_id == old(self)@.next_peer_id,
    {
        let reports = pending_migrations(&self.applied_migrations);
        let ghost reportsv = reports@.map_values(|m: Migration| m@);
        let mut i: usize = 0;
        while i < reports.len()
            invariant
                i <= reports@.len(),
                reportsv == reports@.map_values(|m: Migration| m@),
                self.applied_migrations@ == old(self).applied_migrations@ + spec_versions(
                    reportsv,
                ).take(i as int),
                self.config == old(self).config,
                self.peers == old(self).peers,
                self.flows == old(self).flows,
                self.next_peer_id == old(self).next_peer_id,
            decreases reports@.len() - i,
        {
            self.applied_migrations.push(reports[i].version);
            assert(self.applied_migrations@ =~= old(self).applied_migrations@ + spec_versions(
                reportsv,
            ).take(i as int + 1));
            i = i + 1;
        }
        assert(spec_versions(reportsv).take(reports@.len() as int) =~= spec_versions(reportsv));
        proof {
            if old(self).wf() {
                assert(self@.peers == old(self)@.peers);
                assert(self@.flows == old(self)@.flows);
                assert forall|i: int| 0 <= i < self@.flows.len() implies spec_has_peer_id(
                    self@,
                    (#[trigger] self@.flows[i]).source_peer,
                ) && spec_has_peer_id(self@, self@.flows[i].destination_peer) by {
                    assert(self@.flows[i] == old(self)@.flows[i]);
                    lemma_has_peer_id_same_peers(old(self)@, self@, self@.flows[i].source_peer);
                    lemma_has_peer_id_same_peers(
                        old(self)@,
                        self@,
                        self@.flows[i].destination_peer,
                    );
                }
            }
        }
        reports
    }

    /// Looks up a peer id by name; `NotFound` exactly when no row matches.
    pub fn get_peer_id_i32(&self, peer_name: &str) -> (r: Result<i32, CatalogError>)
        ensures
            r is Ok <==> spec_has_peer_named(self@, peer_name@),
            r is Ok ==> exists|i: int|
                0 <= i < self@.peers.len() && (#[trigger] self@.peers[i]).name == peer_name@
                    && self@.peers[i].id == r->Ok_0,
            r is Err ==> r->Err_0 is NotFound,
    {
        let name_owned = peer_name.to_owned();
        let mut i: usize = 0;
        while i < self.peers.len()
            invariant
                name_owned@ == peer_name@,
                i <= self@.peers.len(),
                forall|k: int| 0 <= k < i ==> (#[trigger] self@.peers[k]).name != peer_name@,
            decreases self@.peers.len() - i,
        {
            if self.peers[i].name.eq(&name_owned) {
                proof {
                    assert(self@.peers[i as int].name == peer_name@);
                    assert(spec_has_peer_named(self@, peer_name@));
                }
                return Ok(self.peers[i].id);
            }
            i = i + 1;
        }
        Err(CatalogError::NotFound)
    }

    /// Looks up the backend kind stored for a peer id. `NotFound` exactly
    /// when no row matches; a matching row whose discriminant is
    /// unrecognized is an internal-consistency fault, since this component
    /// wrote every row.
    pub fn get_peer_type_for_id(&self, peer_id: i32) -> (r: Result<DbType, CatalogError>)
        requires
            self.wf(),
        ensures
            !spec_has_peer_id(self@, peer_id) ==> r == Err::<DbType, CatalogError>(
                CatalogError::NotFound,
            ),
            forall|i: int|
                0 <= i < self@.peers.len() && (#[trigger] self@.peers[i]).id == peer_id
                    ==> match spec_db_type_from_i32(self@.peers[i].db_type) {
                    Some(t) => r == Ok::<DbType, CatalogError>(t),
                    None => r == Err::<DbType, CatalogError>(CatalogError::InternalInconsistency),
                },
            r is Err ==> r->Err_0 is NotFound || r->Err_0 is InternalInconsistency,
    {
        let mut i: usize = 0;
        while i < self.peers.len()
            invariant
                self.wf(),
                i <= self@.peers.len(),
                forall|k: int| 0 <= k < i ==> (#[trigger] self@.peers[k]).id != peer_id,
            decreases self@.peers.len() - i,
        {
            if self.peers[i].id == peer_id {
                proof {
                    assert(self@.peers[i as int].id == peer_id);
                    assert(spec_has_peer_id(self@, peer_id));
                    assert forall|j: int|
                        0 <= j < self@.peers.len() && (#[trigger] self@.peers[j]).id == peer_id
                            implies j == i as int by {
                        if j < i as int {
                            assert(self@.peers[j].id != self@.peers[i as int].id);
                        } else if j > i as int {
                            assert(self@.peers[i as int].id != self@.peers[j].id);
                        }
                    }
                }
                return match DbType::from_i32(self.peers[i].db_type) {
                    Some(t) => Ok(t),
                    None => Err(CatalogError::InternalInconsistency),
                };
            }
            i = i + 1;
        }
        Err(CatalogError::NotFound)
    }

    /// Registers a peer: encodes its configuration, inserts the row under
    /// the next store-assigned id, and returns that id by re-querying on
    /// the name. `InvalidConfig` when the caller supplied no configuration;
    /// `ConstraintViolation` when the name already exists, leaving the
    /// catalog unchanged either way.
    pub fn create_peer(&mut self, peer: &Peer) -> (r: Result<i64, CatalogError>)
        requires
            old(self).wf(),
            old(self)@.next_peer_id < i32::MAX,
            peer@.config is Some ==> spec_config_fits(peer@.config->Some_0),
        ensures
            final(self).wf(),
            peer@.config is None ==> r == Err::<i64, CatalogError>(CatalogError::InvalidConfig)
                && *final(self) == *old(self),
            peer@.config is Some && spec_has_peer_named(old(self)@, peer@.name) ==> r == Err::<
                i64,
                CatalogError,
            >(CatalogError::ConstraintViolation) && *final(self) == *old(self),
            peer@.config is Some && !spec_has_peer_named(old(self)@, peer@.name) ==> {
                &&& r == Ok::<i64, CatalogError>(old(self)@.next_peer_id as i64)
                &&& final(self)@.peers == old(self)@.peers.push(
                    PeerRowV {
                        id: old(self)@.next_peer_id,
                        name: peer@.name,
                        db_type: peer@.db_type,
                        options: spec_encode_config(peer@.config->Some_0),
                    },
                )
                &&& final(self)@.next_peer_id == old(self)@.next_peer_id + 1
                &&& final(self)@.flows == old(self)@.flows
                &&& final(self)@.config == old(self)@.config
                &&& final(self)@.applied_migrations == old(self)@.applied_migrations
            },
    {
        let blob = match &peer.config {
            None => {
                return Err(CatalogError::InvalidConfig);
            },
            Some(c) => encode_config(c),
        };
        match self.get_peer_id_i32(peer.name.as_str()) {
            Ok(_) => {
                return Err(CatalogError::ConstraintViolation);
            },
            Err(_) => {},
        }
        let assigned = self.next_peer_id;
        let row = PeerRow {
            id: assigned,
            name: peer.name.clone(),
            db_type: peer.db_type,
            options: blob,
        };
        let ghost before = self@.peers;
        self.peers.push(row);
        self.next_peer_id = assigned + 1;
        proof {
            assert(self@.peers =~= before.push(
                PeerRowV {
                    id: assigned,
                    name: peer@.name,
                    db_type: peer@.db_type,
                    options: spec_encode_config(peer@.config->Some_0),
                },
            ));
            assert forall|i: int, j: int| 0 <= i < j < self@.peers.len() implies self@.peers[i].name
                != self@.peers[j].name && self@.peers[i].id != self@.peers[j].id by {
                if j == self@.peers.len() - 1 {
                    assert(self@.peers[i] == before[i]);
                }
            }
            assert forall|i: int| 0 <= i < self@.flows.len() implies spec_has_peer_id(
                self@,
                (#[trigger] self@.flows[i]).source_peer,
            ) && spec_has_peer_id(self@, self@.flows[i].destination_peer) by {
                assert(self@.flows == old(self)@.flows);
                let k = choose|k: int|
                    0 <= k < old(self)@.peers.len() && old(self)@.peers[k].id == old(
                        self,
                    )@.flows[i].source_peer;
                assert(self@.peers[k].id == self@.flows[i].source_peer);
                let k2 = choose|k2: int|
                    0 <= k2 < old(self)@.peers.len() && old(self)@.peers[k2].id == old(
                        self,
                    )@.flows[i].destination_peer;
                assert(self@.peers[k2].id == self@.flows[i].destination_peer);
            }
        }
        match self.get_peer_id_i32(peer.name.as_str()) {
            Ok(id) => {
                proof {
                    let i = choose|i: int|
                        0 <= i < self@.peers.len() && self@.peers[i].name == peer@.name
                            && self@.peers[i].id == id;
                    assert(self@.peers[self@.peers.len() - 1].name == peer@.name);
                    assert(i == self@.peers.len() - 1);
                }
                Ok(id as i64)
            },
            Err(_) => {
                proof {
                    assert(self@.peers[self@.peers.len() - 1].name == peer@.name);
                    assert(false);
                }
                Err(CatalogError::InternalInconsistency)
            },
        }
    }

    /// Reads every peer row and decodes each payload by its stored
    /// discriminant. A row with an unrecognized discriminant is kept with
    /// no configuration and a lower-cased embedded name (tolerant read,
    /// with the returned pair's first component keeping the stored name);
    /// a recognized payload that fails to decode aborts the whole call
    /// with `DecodeFailure`.
    pub fn get_peers(&self) -> (r: Result<Vec<(String, Peer)>, CatalogError>)
        requires
            self.wf(),
        ensures
            r is Ok <==> (forall|i: int|
                0 <= i < self@.peers.len() ==> spec_row_config(#[trigger] self@.peers[i]) is Some),
            r is Ok ==> r->Ok_0@.len() == self@.peers.len(),
            r is Ok ==> forall|i: int|
                0 <= i < self@.peers.len() ==> {
                    let row = #[trigger] self@.peers[i];
                    let e = r->Ok_0@[i];
                    &&& e.0@ == row.name
                    &&& e.1@.name == lower_of(row.name)
                    &&& e.1@.db_type == row.db_type
                    &&& e.1@.config == spec_row_config(row)->Some_0
                },
            r is Ok ==> forall|i: int, j: int|
                0 <= i < j < self@.peers.len() ==> (#[trigger] r->Ok_0@[i]).0@ != (
                #[trigger] r->Ok_0@[j]).0@,
            r is Err ==> exists|k: int|
                0 <= k < self@.peers.len() && spec_row_config(#[trigger] self@.peers[k]) is None
                    && (forall|j: int|
                    0 <= j < k ==> spec_row_config(#[trigger] self@.peers[j]) is Some) && r->Err_0
                    is DecodeFailure && r->Err_0->DecodeFailure_0@ == self@.peers[k].name
                    && r->Err_0->DecodeFailure_1 == self@.peers[k].db_type,
    {
        let mut out: Vec<(String, Peer)> = Vec::new();
        let mut i: usize = 0;
        while i < self.peers.len()
            invariant
                i <= self@.peers.len(),
                out@.len() == i,
                forall|k: int|
                    0 <= k < i ==> spec_row_config(#[trigger] self@.peers[k]) is Some,
                forall|k: int|
                    0 <= k < i ==> {
                        let row = #[trigger] self@.peers[k];
                        let e = out@[k];
                        &&& e.0@ == row.name
                        &&& e.1@.name == lower_of(row.name)
                        &&& e.1@.db_type == row.db_type
                        &&& e.1@.config == spec_row_config(row)->Some_0
                    },
            decreases self@.peers.len() - i,
        {
            let lowered = to_lowercase(self.peers[i].name.as_str());
            let cfg: Option<Config> = match DbType::from_i32(self.peers[i].db_type) {
                None => None,
                Some(t) => match decode_config(t, &self.peers[i].options) {
                    Some(c) => Some(c),
                    None => {
                        proof {
                            assert(spec_row_config(self@.peers[i as int]) is None);
                        }
                        return Err(
                            CatalogError::DecodeFailure(
                                self.peers[i].name.clone(),
                                self.peers[i].db_type,
                            ),
                        );
                    },
                },
            };
            out.push(
                (
                    self.peers[i].name.clone(),
                    Peer { name: lowered, db_type: self.peers[i].db_type, config: cfg },
                ),
            );
            i = i + 1;
        }
        proof {
            assert forall|a: int, b: int| 0 <= a < b < self@.peers.len() implies out@[a].0@
                != out@[b].0@ by {
                assert(out@[a].0@ == self@.peers[a].name);
                assert(out@[b].0@ == self@.peers[b].name);
            }
        }
        Ok(out)
    }

    /// Registers a flow: resolves both peers by name, decides for each
    /// side whether single-segment identifiers gain the default schema
    /// segment (every backend but Bigquery), and inserts one row per table
    /// mapping. `NotFound` when either peer name is missing;
    /// `InternalInconsistency` when a resolved peer's stored discriminant
    /// is unrecognized; the catalog is unchanged on every error.
    pub fn create_flow_job_entry(&mut self, job: &FlowJob) -> (r: Result<(), CatalogError>)
        requires
            old(self).wf(),
        ensures
            final(self).wf(),
            !spec_has_peer_named(old(self)@, job@.source_peer) ==> r == Err::<(), CatalogError>(
                CatalogError::NotFound,
            ) && *final(self) == *old(self),
            spec_has_peer_named(old(self)@, job@.source_peer) && spec_db_type_from_i32(
                spec_peer_named(old(self)@, job@.source_peer).db_type,
            ) is None ==> r == Err::<(), CatalogError>(CatalogError::InternalInconsistency)
                && *final(self) == *old(self),
            spec_has_peer_named(old(self)@, job@.source_peer) && spec_db_type_from_i32(
                spec_peer_named(old(self)@, job@.source_peer).db_type,
            ) is Some && !spec_has_peer_named(old(self)@, job@.target_peer) ==> r == Err::<
                (),
                CatalogError,
            >(CatalogError::NotFound) && *final(self) == *old(self),
            spec_has_peer_named(old(self)@, job@.source_peer) && spec_db_type_from_i32(
                spec_peer_named(old(self)@, job@.source_peer).db_type,
            ) is Some && spec_has_peer_named(old(self)@, job@.target_peer)
                && spec_db_type_from_i32(spec_peer_named(old(self)@, job@.target_peer).db_type)
                is None ==> r == Err::<(), CatalogError>(CatalogError::InternalInconsistency)
                && *final(self) == *old(self),
            spec_has_peer_named(old(self)@, job@.source_peer) && spec_db_type_from_i32(
                spec_peer_named(old(self)@, job@.source_peer).db_type,
            ) is Some && spec_has_peer_named(old(self)@, job@.target_peer)
                && spec_db_type_from_i32(spec_peer_named(old(self)@, job@.target_peer).db_type)
                is Some ==> ({
                let s = spec_peer_named(old(self)@, job@.source_peer);
                let d = spec_peer_named(old(self)@, job@.target_peer);
                let snorm = spec_db_type_from_i32(s.db_type)->Some_0 != DbType::Bigquery;
                let dnorm = spec_db_type_from_i32(d.db_type)->Some_0 != DbType::Bigquery;
                &&& r == Ok::<(), CatalogError>(())
                &&& final(self)@.flows.len() == old(self)@.flows.len()
                    + job@.table_mappings.len()
                &&& forall|k: int|
                    0 <= k < old(self)@.flows.len() ==> final(self)@.flows[k] == old(
                        self,
                    )@.flows[k]
                &&& forall|k: int|
                    0 <= k < job@.table_mappings.len() ==> final(self)@.flows[old(
                        self,
                    )@.flows.len() + k] == (FlowRowV {
                        name: job@.name,
                        source_peer: s.id,
                        destination_peer: d.id,
                        description: job@.description,
                        source_table_identifier: spec_normalize_identifier(
                            (#[trigger] job@.table_mappings[k]).source_table_identifier,
                            snorm,
                        ),
                        destination_table_identifier: spec_normalize_identifier(
                            job@.table_mappings[k].target_table_identifier,
                            dnorm,
                        ),
                        workflow_id: None,
                    })
            }),
            final(self)@.peers == old(self)@.peers,
            final(self)@.config == old(self)@.config,
            final(self)@.next_peer_id == old(self)@.next_peer_id,
            final(self)@.applied_migrations == old(self)@.applied_migrations,
            r is Err ==> r->Err_0 is NotFound || r->Err_0 is InternalInconsistency,
    {
        let ghost s = spec_peer_named(old(self)@, job@.source_peer);
        let ghost d = spec_peer_named(old(self)@, job@.target_peer);
        let src_id = match self.get_peer_id_i32(job.source_peer.as_str()) {
            Ok(v) => v,
            Err(e) => {
                return Err(e);
            },
        };
        proof {
            let i0 = choose|i: int|
                0 <= i < self@.peers.len() && (#[trigger] self@.peers[i]).name == job@.source_peer
                    && self@.peers[i].id == src_id;
            let j0 = choose|i: int|
                0 <= i < self@.peers.len() && self@.peers[i].name == job@.source_peer;
            assert(i0 == j0);
            assert(s.id == src_id);
        }
        let src_t = match self.get_peer_type_for_id(src_id) {
            Ok(t) => t,
            Err(e) => {
                return Err(e);
            },
        };
        proof {
            assert(spec_db_type_from_i32(s.db_type) == Some(src_t));
        }
        let dst_id = match self.get_peer_id_i32(job.target_peer.as_str()) {
            Ok(v) => v,
            Err(e) => {
                return Err(e);
            },
        };
        proof {
            let i0 = choose|i: int|
                0 <= i < self@.peers.len() && (#[trigger] self@.peers[i]).name == job@.target_peer
                    && self@.peers[i].id == dst_id;
            let j0 = choose|i: int|
                0 <= i < self@.peers.len() && self@.peers[i].name == job@.target_peer;
            assert(i0 == j0);
            assert(d.id == dst_id);
        }
        let dst_t = match self.get_peer_type_for_id(dst_id) {
            Ok(t) => t,
            Err(e) => {
                return Err(e);
            },
        };
        proof {
            assert(spec_db_type_from_i32(d.db_type) == Some(dst_t));
        }
        let src_norm: bool = match src_t {
            DbType::Bigquery => false,
            _ => true,
        };
        let dst_norm: bool = match dst_t {
            DbType::Bigquery => false,
            _ => true,
        };
        let ghost oldflows = self@.flows;
        let mut k: usize = 0;
        while k < job.table_mappings.len()
            invariant
                old(self).wf(),
                k <= job@.table_mappings.len(),
                self.config == old(self).config,
                self.peers == old(self).peers,
                self.next_peer_id == old(self).next_peer_id,
                self.applied_migrations == old(self).applied_migrations,
                oldflows == old(self)@.flows,
                s == spec_peer_named(old(self)@, job@.source_peer),
                d == spec_peer_named(old(self)@, job@.target_peer),
                spec_has_peer_named(old(self)@, job@.source_peer),
                spec_has_peer_named(old(self)@, job@.target_peer),
                src_id == s.id,
                dst_id == d.id,
                src_norm == (spec_db_type_from_i32(s.db_type)->Some_0 != DbType::Bigquery),
                dst_norm == (spec_db_type_from_i32(d.db_type)->Some_0 != DbType::Bigquery),
                self@.flows.len() == oldflows.len() + k,
                forall|j: int| 0 <= j < oldflows.len() ==> self@.flows[j] == oldflows[j],
                forall|j: int|
                    0 <= j < k ==> (#[trigger] self@.flows[oldflows.len() + j]) == (FlowRowV {
                        name: job@.name,
                        source_peer: src_id,
                        destination_peer: dst_id,
                        description: job@.description,
                        source_table_identifier: spec_normalize_identifier(
                            job@.table_mappings[j].source_table_identifier,
                            src_norm,
                        ),
                        destination_table_identifier: spec_normalize_identifier(
                            job@.table_mappings[j].target_table_identifier,
                            dst_norm,
                        ),
                        workflow_id: None,
                    }),
            decreases job@.table_mappings.len() - k,
        {
            let ghost prevv = self@.flows;
            let sid = normalize_table_identifier(
                job.table_mappings[k].source_table_identifier.as_str(),
                src_norm,
            );
            let did = normalize_table_identifier(
                job.table_mappings[k].target_table_identifier.as_str(),
                dst_norm,
            );
            let rowf = FlowRow {
                name: job.name.clone(),
                source_peer: src_id,
                destination_peer: dst_id,
                description: job.description.clone(),
                source_table_identifier: sid,
                destination_table_identifier: did,
                workflow_id: None,
            };
            self.flows.push(rowf);
            proof {
                assert(self@.flows =~= prevv.push(
                    FlowRowV {
                        name: job@.name,
                        source_peer: src_id,
                        destination_peer: dst_id,
                        description: job@.description,
                        source_table_identifier: spec_normalize_identifier(
                            job@.table_mappings[k as int].source_table_identifier,
                            src_norm,
                        ),
                        destination_table_identifier: spec_normalize_identifier(
                            job@.table_mappings[k as int].target_table_identifier,
                            dst_norm,
                        ),
                        workflow_id: None,
                    },
                ));
            }
            k = k + 1;
        }
        proof {
            assert forall|i: int| 0 <= i < self@.flows.len() implies spec_has_peer_id(
                self@,
                (#[trigger] self@.flows[i]).source_peer,
            ) && spec_has_peer_id(self@, self@.flows[i].destination_peer) by {
                if i < oldflows.len() {
                    assert(self@.flows[i] == old(self)@.flows[i]);
                    lemma_has_peer_id_same_peers(old(self)@, self@, self@.flows[i].source_peer);
                    lemma_has_peer_id_same_peers(
                        old(self)@,
                        self@,
                        self@.flows[i].destination_peer,
                    );
                } else {
                    let j = i - oldflows.len();
                    assert(self@.flows[i] == self@.flows[oldflows.len() + j]);
                    assert(self@.flows[i].source_peer == src_id);
                    assert(self@.flows[i].destination_peer == dst_id);
                    let j0 = choose|m: int|
                        0 <= m < old(self)@.peers.len() && old(self)@.peers[m].name
                            == job@.source_peer;
                    assert(old(self)@.peers[j0].id == src_id);
                    assert(spec_has_peer_id(old(self)@, src_id));
                    let j1 = choose|m: int|
                        0 <= m < old(self)@.peers.len() && old(self)@.peers[m].name
                            == job@.target_peer;
                    assert(old(self)@.peers[j1].id == dst_id);
                    assert(spec_has_peer_id(old(self)@, dst_id));
                    lemma_has_peer_id_same_peers(old(self)@, self@, src_id);
                    lemma_has_peer_id_same_peers(old(self)@, self@, dst_id);
                }
            }
        }
        Ok(())
    }

    /// Sets the workflow id on every flow row sharing the given name;
    /// `NotFound` exactly when zero rows match.
    pub fn update_workflow_id_for_flow_job(&mut self, flow_job_name: &str, workflow_id: &str) -> (r:
        Result<(), CatalogError>)
        requires
            old(self).wf(),
        ensures
            final(self).wf(),
            final(self)@.flows.len() == old(self)@.flows.len(),
            forall|k: int|
                0 <= k < old(self)@.flows.len() && (#[trigger] old(self)@.flows[k]).name
                    == flow_job_name@ ==> final(self)@.flows[k] == (FlowRowV {
                    workflow_id: Some(workflow_id@),
                    ..old(self)@.flows[k]
                }),
            forall|k: int|
                0 <= k < old(self)@.flows.len() && (#[trigger] old(self)@.flows[k]).name
                    != flow_job_name@ ==> final(self)@.flows[k] == old(self)@.flows[k],
            r is Ok <==> spec_has_flow_named(old(self)@, flow_job_name@),
            r is Err ==> r->Err_0 is NotFound,
            final(self)@.peers == old(self)@.peers,
            final(self)@.config == old(self)@.config,
            final(self)@.next_peer_id == old(self)@.next_peer_id,
            final(self)@.applied_migrations == old(self)@.applied_migrations,
    {
        let name_owned = flow_job_name.to_owned();
        let mut updated: Vec<FlowRow> = Vec::new();
        let mut matched = false;
        let mut i: usize = 0;
        while i < self.flows.len()
            invariant
                old(self).wf(),
                *self == *old(self),
                name_owned@ == flow_job_name@,
                i <= self@.flows.len(),
                updated@.len() == i,
                matched <==> exists|j: int|
                    0 <= j < i && (#[trigger] self@.flows[j]).name == flow_job_name@,
                forall|k: int|
                    0 <= k < i && (#[trigger] self@.flows[k]).name == flow_job_name@
                        ==> updated@.map_values(|r: FlowRow| r@)[k] == (FlowRowV {
                        workflow_id: Some(workflow_id@),
                        ..self@.flows[k]
                    }),
                forall|k: int|
                    0 <= k < i && (#[trigger] self@.flows[k]).name != flow_job_name@
                        ==> updated@.map_values(|r: FlowRow| r@)[k] == self@.flows[k],
            decreases self@.flows.len() - i,
        {
            let row = &self.flows[i];
            if row.name.eq(&name_owned) {
                matched = true;
                updated.push(
                    FlowRow {
                        name: row.name.clone(),
                        source_peer: row.source_peer,
                        destination_peer: row.destination_peer,
                        description: row.description.clone(),
                        source_table_identifier: row.source_table_identifier.clone(),
                        destination_table_identifier: row.destination_table_identifier.clone(),
                        workflow_id: Some(workflow_id.to_owned()),
                    },
                );
                proof {
                    assert(self@.flows[i as int].name == flow_job_name@);
                }
            } else {
                updated.push(clone_flow_row(row));
            }
            i = i + 1;
        }
        let matched_any = matched;
        self.flows = updated;
        proof {
            assert forall|i: int| 0 <= i < self@.flows.len() implies spec_has_peer_id(
                self@,
                (#[trigger] self@.flows[i]).source_peer,
            ) && spec_has_peer_id(self@, self@.flows[i].destination_peer) by {
                assert(self@.flows[i].source_peer == old(self)@.flows[i].source_peer);
                assert(self@.flows[i].destination_peer == old(self)@.flows[i].destination_peer);
                lemma_has_peer_id_same_peers(old(self)@, self@, self@.flows[i].source_peer);
                lemma_has_peer_id_same_peers(old(self)@, self@, self@.flows[i].destination_peer);
            }
        }
        if matched_any {
            Ok(())
        } else {
            Err(CatalogError::NotFound)
        }
    }

    /// Reads the workflow id of the first row sharing the given name,
    /// relying on the documented assumption that all rows of one flow
    /// carry the same workflow id; a flow with zero rows is "absent", not
    /// an error.
    pub fn get_workflow_id_for_flow_job(&self, flow_job_name: &str) -> (r: Result<
        Option<String>,
        CatalogError,
    >)
        ensures
            r is Ok,
            !spec_has_flow_named(self@, flow_job_name@) ==> r == Ok::<Option<String>, CatalogError>(
                None,
            ),
            spec_has_flow_named(self@, flow_job_name@) ==> exists|k: int|
                0 <= k < self@.flows.len() && (#[trigger] self@.flows[k]).name == flow_job_name@
                    && (forall|j: int| 0 <= j < k ==> self@.flows[j].name != flow_job_name@) && (
                match self@.flows[k].workflow_id {
                    Some(w) => r->Ok_0 is Some && r->Ok_0->Some_0@ == w,
                    None => r->Ok_0 is None,
                }),
    {
        let name_owned = flow_job_name.to_owned();
        let mut i: usize = 0;
        while i < self.flows.len()
            invariant
                name_owned@ == flow_job_name@,
                i <= self@.flows.len(),
                forall|j: int| 0 <= j < i ==> (#[trigger] self@.flows[j]).name != flow_job_name@,
            decreases self@.flows.len() - i,
        {
            if self.flows[i].name.eq(&name_owned) {
                let w = match &self.flows[i].workflow_id {
                    Some(w) => Some(w.clone()),
                    None => None,
                };
                proof {
                    assert(self@.flows[i as int].name == flow_job_name@);
                    assert(spec_has_flow_named(self@, flow_job_name@));
                }
                return Ok(w);
            }
            i = i + 1;
        }
        Ok(None)
    }

    /// Deletes every flow row sharing the given name as one unit;
    /// `NotFound` exactly when zero rows match.
    pub fn delete_flow_job_entry(&mut self, flow_job_name: &str) -> (r: Result<(), CatalogError>)
        requires
            old(self).wf(),
        ensures
            final(self).wf(),
            final(self)@.flows == spec_flows_without(old(self)@.flows, flow_job_name@),
            r is Ok <==> spec_has_flow_named(old(self)@, flow_job_name@),
            r is Err ==> r->Err_0 is NotFound,
            final(self)@.peers == old(self)@.peers,
            final(self)@.config == old(self)@.config,
            final(self)@.next_peer_id == old(self)@.next_peer_id,
            final(self)@.applied_migrations == old(self)@.applied_migrations,
    {
        let name_owned = flow_job_name.to_owned();
        let mut kept: Vec<FlowRow> = Vec::new();
        let mut matched = false;
        let mut i: usize = 0;
        while i < self.flows.len()
            invariant
                old(self).wf(),
                *self == *old(self),
                name_owned@ == flow_job_name@,
                i <= self@.flows.len(),
                matched <==> exists|j: int|
                    0 <= j < i && (#[trigger] self@.flows[j]).name == flow_job_name@,
                kept@.map_values(|r: FlowRow| r@) == spec_flows_without(
                    self@.flows.take(i as int),
                    flow_job_name@,
                ),
                forall|k: int|
                    0 <= k < kept@.len() ==> exists|j: int|
                        0 <= j < i && (#[trigger] kept@[k])@ == (#[trigger] self@.flows[j]),
            decreases self@.flows.len() - i,
        {
            let ghost prevv = kept@.map_values(|r: FlowRow| r@);
            proof {
                assert(self@.flows.take(i as int + 1).drop_last() =~= self@.flows.take(i as int));
                assert(self@.flows.take(i as int + 1).last() == self@.flows[i as int]);
            }
            let row = &self.flows[i];
            if row.name.eq(&name_owned) {
                matched = true;
                proof {
                    assert(self@.flows[i as int].name == flow_job_name@);
                }
            } else {
                kept.push(clone_flow_row(row));
                proof {
                    assert(kept@.map_values(|r: FlowRow| r@) =~= prevv.push(
                        self@.flows[i as int],
                    ));
                }
            }
            i = i + 1;
        }
        proof {
            assert(self@.flows.take(self@.flows.len() as int) =~= self@.flows);
        }
        let matched_any = matched;
        self.flows = kept;
        proof {
            assert forall|i: int| 0 <= i < self@.flows.len() implies spec_has_peer_id(
                self@,
                (#[trigger] self@.flows[i]).source_peer,
            ) && spec_has_peer_id(self@, self@.flows[i].destination_peer) by {
                let j = choose|j: int|
                    0 <= j < old(self)@.flows.len() && self@.flows[i] == (
                    #[trigger] old(self)@.flows[j]);
                lemma_has_peer_id_same_peers(old(self)@, self@, self@.flows[i].source_peer);
                lemma_has_peer_id_same_peers(old(self)@, self@, self@.flows[i].destination_peer);
            }
        }
        if matched_any {
            Ok(())
        } else {
            Err(CatalogError::NotFound)
        }
    }
}

/// A field-for-field copy of a flow row.
fn clone_flow_row(r: &FlowRow) -> (c: FlowRow)
    ensures
        c@ == r@,
{
    FlowRow {
        name: r.name.clone(),
        source_peer: r.source_peer,
        destination_peer: r.destination_peer,
        description: r.description.clone(),
        source_table_identifier: r.source_table_identifier.clone(),
        destination_table_identifier: r.destination_table_identifier.clone(),
        workflow_id: match &r.workflow_id {
            Some(w) => Some(w.clone()),
            None => None,
        },
    }
}

} // verus!
