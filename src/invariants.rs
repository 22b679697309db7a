use vstd::prelude::*;

use crate::address::{ActorID, Address, AddressView, Protocol, FIRST_NON_SINGLETON_ADDR};

verus! {

/// One entry of the address map: a key address and the actor it resolves to.
#[derive(Debug)]
pub struct MapEntry {
    pub key: Address,
    pub actor_id: ActorID,
}

pub type EntryView = (AddressView, ActorID);

impl View for MapEntry {
    type V = EntryView;

    open spec fn view(&self) -> EntryView {
        (self.key@, self.actor_id)
    }
}

/// What a walk over the loaded address map produced: the entries it visited, in
/// the map's key order, and the error that stopped it, if one did.
#[derive(Debug)]
pub struct MapWalk {
    pub entries: Vec<MapEntry>,
    pub error: Option<String>,
}

/// The parts of the registry's record that the audit reads besides the map.
#[derive(Debug)]
pub struct RegistryState {
    pub network_name: String,
    pub next_id: ActorID,
}

/// The resolved address map and the next identifier to be allocated.
#[derive(Debug)]
pub struct StateSummary {
    /// Each key with the actor it resolves to, in the map's key order.
    pub ids_by_address: Vec<MapEntry>,
    pub next_id: ActorID,
}

/// One broken invariant found by the audit.
#[derive(Debug)]
pub enum Violation {
    /// The network name is empty.
    EmptyNetworkName,
    /// The next identifier lies below the singleton threshold.
    NextIdTooLow { next_id: ActorID },
    /// A key of the map is an `Id` address.
    IdAddressKey { key: Address },
    /// A key resolves to a singleton identifier.
    SingletonId { actor_id: ActorID },
    /// Two keys of one namespace resolve to one actor: `key`, and `duplicate`
    /// met before it.
    DuplicateMapping { actor_id: ActorID, key: Address, duplicate: Address },
    /// The walk over the map stopped with an error.
    IterationFailed { reason: String },
    /// The map could not be loaded.
    LoadFailed { reason: String },
}

/// The mathematical value of a violation.
pub enum ViolationView {
    EmptyNetworkName,
    NextIdTooLow(ActorID),
    IdAddressKey(AddressView),
    SingletonId(ActorID),
    DuplicateMapping(ActorID, AddressView, AddressView),
    IterationFailed(Seq<char>),
    LoadFailed(Seq<char>),
}

impl View for Violation {
    type V = ViolationView;

    open spec fn view(&self) -> ViolationView {
        match self {
            Violation::EmptyNetworkName => ViolationView::EmptyNetworkName,
            Violation::NextIdTooLow { next_id } => ViolationView::NextIdTooLow(*next_id),
            Violation::IdAddressKey { key } => ViolationView::IdAddressKey(key@),
            Violation::SingletonId { actor_id } => ViolationView::SingletonId(*actor_id),
            Violation::DuplicateMapping { actor_id, key, duplicate } => {
                ViolationView::DuplicateMapping(*actor_id, key@, duplicate@)
            },
            Violation::IterationFailed { reason } => ViolationView::IterationFailed(reason@),
            Violation::LoadFailed { reason } => ViolationView::LoadFailed(reason@),
        }
    }
}

pub open spec fn violation_views(vs: Seq<Violation>) -> Seq<ViolationView> {
    vs.map_values(|v: Violation| v@)
}

pub open spec fn entry_views(es: Seq<MapEntry>) -> Seq<EntryView> {
    es.map_values(|e: MapEntry| e@)
}

/// The namespace in which a key's target must be unique: none for `Id` keys,
/// one for the delegated protocol, one for the stable protocols.
pub open spec fn namespace(p: Protocol) -> int {
    match p {
        Protocol::Id => 0,
        Protocol::Delegated => 2,
        _ => 1,
    }
}

/// Whether entry `b` maps to the same actor as entry `a` within `a`'s namespace.
pub open spec fn collides(a: EntryView, b: EntryView) -> bool {
    namespace(a.0.0) != 0 && namespace(a.0.0) == namespace(b.0.0) && a.1 == b.1
}

/// The last index below `n` whose entry collides with entry `i`.
pub open spec fn last_collision(es: Seq<EntryView>, i: int, n: int) -> Option<int>
    decreases n,
{
    if n <= 0 {
        None
    } else if collides(es[i], es[n - 1]) {
        Some(n - 1)
    } else {
        last_collision(es, i, n - 1)
    }
}

/// What entry `i` breaks: an `Id` key (reported twice: as a key check and as a
/// namespace check), a singleton target, and a duplicate target within its
/// namespace, reported against the last earlier entry with that target.
pub open spec fn entry_violations(es: Seq<EntryView>, i: int) -> Seq<ViolationView> {
    let key = es[i].0;
    let id = es[i].1;
    let id_key = if key.0 == Protocol::Id {
        seq![ViolationView::IdAddressKey(key)]
    } else {
        Seq::empty()
    };
    let singleton = if id < FIRST_NON_SINGLETON_ADDR {
        seq![ViolationView::SingletonId(id)]
    } else {
        Seq::empty()
    };
    let by_namespace = if key.0 == Protocol::Id {
        seq![ViolationView::IdAddressKey(key)]
    } else {
        match last_collision(es, i, i) {
            Some(j) => seq![ViolationView::DuplicateMapping(id, key, es[j].0)],
            None => Seq::empty(),
        }
    };
    id_key + singleton + by_namespace
}

/// What the first `n` entries break, in order.
pub open spec fn walk_violations(es: Seq<EntryView>, n: int) -> Seq<ViolationView>
    decreases n,
{
    if n <= 0 {
        Seq::empty()
    } else {
        walk_violations(es, n - 1) + entry_violations(es, n - 1)
    }
}

/// What the record itself breaks: an empty network name, a next identifier
/// below the singleton threshold.
pub open spec fn record_violations(state: RegistryState) -> Seq<ViolationView> {
    (if state.network_name@.len() == 0 {
        seq![ViolationView::EmptyNetworkName]
    } else {
        Seq::empty()
    }) + (if state.next_id < FIRST_NON_SINGLETON_ADDR {
        seq![ViolationView::NextIdTooLow(state.next_id)]
    } else {
        Seq::empty()
    })
}

/// Every violation of the audit, in the order in which it is found.
pub open spec fn audit_violations(
    state: RegistryState,
    address_map: Result<MapWalk, String>,
) -> Seq<ViolationView> {
    record_violations(state) + match address_map {
        Ok(walk) => {
            let es = entry_views(walk.entries@);
            walk_violations(es, es.len() as int) + match walk.error {
                Some(reason) => seq![ViolationView::IterationFailed(reason@)],
                None => Seq::empty(),
            }
        },
        Err(reason) => seq![ViolationView::LoadFailed(reason@)],
    }
}

fn push_violation(acc: &mut Vec<Violation>, v: Violation)
    ensures
        violation_views(final(acc)@) == violation_views(old(acc)@).push(v@),
{
    let ghost w = v@;
    acc.push(v);
    assert(violation_views(acc@) =~= violation_views(old(acc)@).push(w));
}

fn find_last_collision(entries: &Vec<MapEntry>, i: usize) -> (r: Option<usize>)
    requires
        i < entries@.len(),
    ensures
        match r {
            Some(j) => j < i && last_collision(entry_views(entries@), i as int, i as int) == Some(
                j as int,
            ),
            None => last_collision(entry_views(entries@), i as int, i as int) == None::<int>,
        },
{
    let ghost es = entry_views(entries@);
    let ns = match entries[i].key.protocol {
        Protocol::Id => 0u8,
        Protocol::Delegated => 2u8,
        _ => 1u8,
    };
    let mut j: usize = i;
    while j > 0
        invariant
            i < entries@.len(),
            j <= i,
            es == entry_views(entries@),
            ns as int == namespace(es[i as int].0.0),
            last_collision(es, i as int, i as int) == last_collision(es, i as int, j as int),
        decreases j,
    {
        let other = match entries[j - 1].key.protocol {
            Protocol::Id => 0u8,
            Protocol::Delegated => 2u8,
            _ => 1u8,
        };
        assert(other as int == namespace(es[j - 1].0.0));
        if ns != 0 && ns == other && entries[j - 1].actor_id == entries[i].actor_id {
            return Some(j - 1);
        }
        j = j - 1;
    }
    None
}

fn check_entry(entries: &Vec<MapEntry>, i: usize, acc: &mut Vec<Violation>)
    requires
        i < entries@.len(),
    ensures
        violation_views(final(acc)@) == violation_views(old(acc)@) + entry_violations(
            entry_views(entries@),
            i as int,
        ),
{
    let ghost es = entry_views(entries@);
    let ghost start = violation_views(acc@);
    let entry = &entries[i];
    let ghost key = es[i as int].0;
    let ghost id = es[i as int].1;
    let is_id = entry.key.protocol == Protocol::Id;
    if is_id {
        push_violation(acc, Violation::IdAddressKey { key: entry.key.duplicate() });
    }
    let ghost id_key = if key.0 == Protocol::Id {
        seq![ViolationView::IdAddressKey(key)]
    } else {
        Seq::empty()
    };
    assert(violation_views(acc@) =~= start + id_key);
    if entry.actor_id < FIRST_NON_SINGLETON_ADDR {
        push_violation(acc, Violation::SingletonId { actor_id: entry.actor_id });
    }
    let ghost singleton = if id < FIRST_NON_SINGLETON_ADDR {
        seq![ViolationView::SingletonId(id)]
    } else {
        Seq::empty()
    };
    assert(violation_views(acc@) =~= start + id_key + singleton);
    let ghost mid = violation_views(acc@);
    if is_id {
        push_violation(acc, Violation::IdAddressKey { key: entry.key.duplicate() });
        assert(violation_views(acc@) =~= mid + seq![ViolationView::IdAddressKey(key)]);
    } else {
        match find_last_collision(entries, i) {
            Some(j) => {
                push_violation(
                    acc,
                    Violation::DuplicateMapping {
                        actor_id: entry.actor_id,
                        key: entry.key.duplicate(),
                        duplicate: entries[j].key.duplicate(),
                    },
                );
                assert(violation_views(acc@) =~= mid + seq![
                    ViolationView::DuplicateMapping(id, key, es[j as int].0),
                ]);
            },
            None => {
                assert(violation_views(acc@) =~= mid + Seq::empty());
            },
        }
    }
    assert(violation_views(acc@) =~= start + entry_violations(es, i as int));
}

/// Audits the registry's record and its address map, collecting every broken
/// invariant instead of stopping at the first. `address_map` is the walk over
/// the loaded map, or the reason why it could not be loaded.
pub fn check_state_invariants(
    state: &RegistryState,
    address_map: Result<MapWalk, String>,
) -> (r: (StateSummary, Vec<Violation>))
    ensures
        violation_views(r.1@) == audit_violations(*state, address_map),
        r.0.next_id == state.next_id,
        entry_views(r.0.ids_by_address@) == match address_map {
            Ok(walk) => entry_views(walk.entries@),
            Err(_) => Seq::empty(),
        },
{
    let mut acc: Vec<Violation> = Vec::new();
    assert(violation_views(acc@) =~= Seq::empty());
    if state.network_name.as_str().is_empty() {
        push_violation(&mut acc, Violation::EmptyNetworkName);
    }
    if state.next_id < FIRST_NON_SINGLETON_ADDR {
        push_violation(&mut acc, Violation::NextIdTooLow { next_id: state.next_id });
    }
    assert(violation_views(acc@) =~= record_violations(*state));
    let ghost before_map = violation_views(acc@);
    match address_map {
        Ok(walk) => {
            let ghost es = entry_views(walk.entries@);
            let n = walk.entries.len();
            let mut i: usize = 0;
            while i < n
                invariant
                    n == walk.entries@.len(),
                    es == entry_views(walk.entries@),
                    i <= n,
                    violation_views(acc@) == before_map + walk_violations(es, i as int),
                decreases n - i,
            {
                check_entry(&walk.entries, i, &mut acc);
                assert(walk_violations(es, i + 1) == walk_violations(es, i as int)
                    + entry_violations(es, i as int));
                assert(violation_views(acc@) =~= before_map + walk_violations(es, i + 1));
                i = i + 1;
            }
            let ghost after_walk = violation_views(acc@);
            match walk.error {
                Some(reason) => {
                    push_violation(&mut acc, Violation::IterationFailed { reason });
                },
                None => {},
            }
            assert(violation_views(acc@) =~= audit_violations(*state, Ok(walk)));
            (StateSummary { ids_by_address: walk.entries, next_id: state.next_id }, acc)
        },
        Err(reason) => {
            push_violation(&mut acc, Violation::LoadFailed { reason });
            let ids_by_address: Vec<MapEntry> = Vec::new();
            assert(entry_views(ids_by_address@) =~= Seq::empty());
            (StateSummary { ids_by_address, next_id: state.next_id }, acc)
        },
    }
}

} // verus!
