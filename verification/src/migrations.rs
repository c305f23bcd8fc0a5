//! Schema migrations: the embedded migration set and the bookkeeping that
//! makes applying it idempotent.

use vstd::prelude::*;

verus! {

/// One schema migration: its version and its name. The same shape reports
/// an applied migration back to the caller.
#[derive(Debug, PartialEq, Eq)]
pub struct Migration {
    pub version: u64,
    pub name: String,
}

/// Mathematical view of a `Migration`.
pub ghost struct MigrationV {
    pub version: u64,
    pub name: Seq<char>,
}

impl View for Migration {
    type V = MigrationV;

    open spec fn view(&self) -> MigrationV {
        MigrationV { version: self.version, name: self.name@ }
    }
}

/// The fixed embedded migration set, in version order.
pub open spec fn spec_embedded() -> Seq<MigrationV> {
    seq![
        MigrationV { version: 1, name: "initial_schema"@ },
        MigrationV { version: 2, name: "create_flows"@ },
    ]
}

/// The migrations of `ms` whose versions are not yet applied, in order.
pub open spec fn spec_pending_of(ms: Seq<MigrationV>, applied: Seq<u64>) -> Seq<MigrationV>
    decreases ms.len(),
{
    if ms.len() == 0 {
        Seq::empty()
    } else {
        let init = spec_pending_of(ms.drop_last(), applied);
        if applied.contains(ms.last().version) {
            init
        } else {
            init.push(ms.last())
        }
    }
}

/// The embedded migrations still to apply over a given applied set.
pub open spec fn spec_pending(applied: Seq<u64>) -> Seq<MigrationV> {
    spec_pending_of(spec_embedded(), applied)
}

/// The versions of a migration sequence.
pub open spec fn spec_versions(ms: Seq<MigrationV>) -> Seq<u64> {
    ms.map_values(|m: MigrationV| m.version)
}

/// The embedded migration set, in version order.
pub fn embedded_migrations() -> (r: Vec<Migration>)
    ensures
        r@.map_values(|m: Migration| m@) == spec_embedded(),
{
    let mut v: Vec<Migration> = Vec::new();
    v.push(Migration { version: 1, name: "initial_schema".to_owned() });
    v.push(Migration { version: 2, name: "create_flows".to_owned() });
    assert(v@.map_values(|m: Migration| m@) =~= spec_embedded());
    v
}

/// True when the applied-version list carries the given version.
pub fn contains_version(applied: &Vec<u64>, version: u64) -> (r: bool)
    ensures
        r == applied@.contains(version),
{
    let mut i: usize = 0;
    while i < applied.len()
        invariant
            i <= applied@.len(),
            forall|k: int| 0 <= k < i ==> applied@[k] != version,
        decreases applied@.len() - i,
    {
        if applied[i] == version {
            return true;
        }
        i = i + 1;
    }
    false
}

/// The embedded migrations not yet applied, in version order.
pub fn pending_migrations(applied: &Vec<u64>) -> (r: Vec<Migration>)
    ensures
        r@.map_values(|m: Migration| m@) == spec_pending(applied@),
{
    let emb = embedded_migrations();
    let ghost embv = emb@.map_values(|m: Migration| m@);
    let mut out: Vec<Migration> = Vec::new();
    let mut i: usize = 0;
    while i < emb.len()
        invariant
            i <= emb@.len(),
            embv == emb@.map_values(|m: Migration| m@),
            embv == spec_embedded(),
            out@.map_values(|m: Migration| m@) == spec_pending_of(embv.take(i as int), applied@),
        decreases emb@.len() - i,
    {
        let ghost pre = out@.map_values(|m: Migration| m@);
        assert(embv.take(i as int + 1).drop_last() =~= embv.take(i as int));
        assert(embv.take(i as int + 1).last() == embv[i as int]);
        if !contains_version(applied, emb[i].version) {
            let m = Migration { version: emb[i].version, name: emb[i].name.clone() };
            assert(m@ == embv[i as int]);
            out.push(m);
            assert(out@.map_values(|m: Migration| m@) =~= pre.push(embv[i as int]));
        }
        i = i + 1;
    }
    assert(embv.take(emb@.len() as int) =~= embv);
    out
}

/// A migration that is in `ms` and not yet applied is pending.
proof fn lemma_pending_of_covers(ms: Seq<MigrationV>, applied: Seq<u64>, k: int)
    requires
        0 <= k < ms.len(),
        !applied.contains(ms[k].version),
    ensures
        spec_versions(spec_pending_of(ms, applied)).contains(ms[k].version),
    decreases ms.len(),
{
    let init = spec_pending_of(ms.drop_last(), applied);
    if k == ms.len() - 1 {
        assert(spec_versions(init.push(ms.last()))[init.len() as int] == ms.last().version);
    } else {
        lemma_pending_of_covers(ms.drop_last(), applied, k);
        let vs = spec_versions(init);
        let j = choose|j: int| 0 <= j < vs.len() && vs[j] == ms[k].version;
        if !applied.contains(ms.last().version) {
            assert(spec_versions(init.push(ms.last()))[j] == vs[j]);
        }
    }
}

/// When every version in `ms` is applied, nothing in `ms` is pending.
proof fn lemma_pending_of_empty(ms: Seq<MigrationV>, applied: Seq<u64>)
    requires
        forall|k: int| 0 <= k < ms.len() ==> applied.contains(#[trigger] ms[k].version),
    ensures
        spec_pending_of(ms, applied) == Seq::<MigrationV>::empty(),
    decreases ms.len(),
{
    if ms.len() > 0 {
        assert forall|k: int| 0 <= k < ms.drop_last().len() implies applied.contains(
            #[trigger] ms.drop_last()[k].version,
        ) by {
            assert(ms.drop_last()[k] == ms[k]);
        }
        lemma_pending_of_empty(ms.drop_last(), applied);
        assert(ms.last() == ms[ms.len() - 1]);
    }
}

/// Idempotent migration: once the pending migrations' versions have been
/// recorded as applied, a second migration pass finds nothing pending and
/// reports an empty applied set.
pub proof fn lemma_migrations_idempotent(applied: Seq<u64>)
    ensures
        spec_pending(applied + spec_versions(spec_pending(applied)))
            == Seq::<MigrationV>::empty(),
{
    let newly = spec_versions(spec_pending(applied));
    let applied2 = applied + newly;
    assert forall|k: int| 0 <= k < spec_embedded().len() implies applied2.contains(
        #[trigger] spec_embedded()[k].version,
    ) by {
        let v = spec_embedded()[k].version;
        if applied.contains(v) {
            let j = choose|j: int| 0 <= j < applied.len() && applied[j] == v;
            assert(applied2[j] == v);
        } else {
            lemma_pending_of_covers(spec_embedded(), applied, k);
            let j = choose|j: int| 0 <= j < newly.len() && newly[j] == v;
            assert(applied2[applied.len() + j] == v);
        }
    }
    lemma_pending_of_empty(spec_embedded(), applied2);
}

} // verus!
