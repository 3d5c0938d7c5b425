//! The tunnel registry: which connector identities have a QUIC connection,
//! and which.
//!
//! The registry owns the connections. It holds at most one per UID, and a
//! second connector with the same UID is admitted only when the connection
//! already registered was found closed. The connection type is the caller's:
//! the registry stores and hands back, and never looks inside.
//!
//! The tunnels are kept in a list whose UIDs are distinct, and the list is
//! viewed as the map from UID to connection: a hash map keyed by `String`
//! has no specification that anything could be proved from.

use crate::text::same_text;
use vstd::prelude::*;

verus! {

/// One registered connector: its identity and its connection.
pub struct Tunnel<C> {
    pub uid: String,
    pub connection: C,
}

/// Why a registration was refused.
#[derive(Debug, Clone, Copy, PartialEq, Eq, Structural)]
pub enum RegistryError {
    /// The UID has a connection that is not closed.
    AlreadyExists,
}

/// The live tunnels, by UID.
pub struct TunnelRegistry<C> {
    tunnels: Vec<Tunnel<C>>,
}

/// No UID occurs twice.
spec fn distinct_uids<C>(tunnels: Seq<Tunnel<C>>) -> bool {
    forall|i: int, j: int|
        0 <= i < j < tunnels.len() ==> (#[trigger] tunnels[i]).uid@ != (#[trigger] tunnels[j]).uid@
}

/// Whether `tunnels[i]` is the entry of `uid`.
spec fn is_entry_of<C>(tunnels: Seq<Tunnel<C>>, uid: Seq<char>, i: int) -> bool {
    0 <= i < tunnels.len() && tunnels[i].uid@ == uid
}

/// The mapping from UID to connection that a list of tunnels stands for.
spec fn tunnel_map<C>(tunnels: Seq<Tunnel<C>>) -> Map<Seq<char>, C> {
    Map::new(
        |uid: Seq<char>| exists|i: int| is_entry_of(tunnels, uid, i),
        |uid: Seq<char>| tunnels[choose|i: int| is_entry_of(tunnels, uid, i)].connection,
    )
}

/// With distinct UIDs, every entry is found under its UID.
proof fn lemma_tunnel_map_entry<C>(tunnels: Seq<Tunnel<C>>, i: int)
    requires
        distinct_uids(tunnels),
        0 <= i < tunnels.len(),
    ensures
        tunnel_map(tunnels).contains_key(tunnels[i].uid@),
        tunnel_map(tunnels)[tunnels[i].uid@] == tunnels[i].connection,
{
    let uid = tunnels[i].uid@;
    assert(is_entry_of(tunnels, uid, i));
    let k = choose|k: int| is_entry_of(tunnels, uid, k);
    assert(k == i) by {
        if k < i {
            assert(tunnels[k].uid@ != tunnels[i].uid@);
        } else if i < k {
            assert(tunnels[i].uid@ != tunnels[k].uid@);
        }
    }
}

/// With distinct UIDs, the registry has as many keys as the list has entries.
proof fn lemma_tunnel_map_len<C>(tunnels: Seq<Tunnel<C>>)
    requires
        distinct_uids(tunnels),
    ensures
        tunnel_map(tunnels).dom().finite(),
        tunnel_map(tunnels).dom().len() == tunnels.len(),
    decreases tunnels.len(),
{
    if tunnels.len() == 0 {
        assert(tunnel_map(tunnels).dom() =~= Set::<Seq<char>>::empty());
    } else {
        let rest = tunnels.drop_last();
        let last = tunnels.last();
        assert(distinct_uids(rest)) by {
            assert forall|i: int, j: int| 0 <= i < j < rest.len() implies (#[trigger] rest[i]).uid@
                != (#[trigger] rest[j]).uid@ by {
                assert(rest[i] == tunnels[i] && rest[j] == tunnels[j]);
            }
        }
        lemma_tunnel_map_len(rest);
        assert(!tunnel_map(rest).dom().contains(last.uid@)) by {
            if tunnel_map(rest).dom().contains(last.uid@) {
                let k = choose|k: int| is_entry_of(rest, last.uid@, k);
                assert(rest[k] == tunnels[k]);
                assert(tunnels[k].uid@ != tunnels[tunnels.len() - 1].uid@);
            }
        }
        assert(tunnel_map(tunnels).dom() =~= tunnel_map(rest).dom().insert(last.uid@)) by {
            assert forall|uid: Seq<char>|
                tunnel_map(tunnels).dom().contains(uid) == tunnel_map(rest).dom().insert(
                    last.uid@,
                ).contains(uid) by {
                if tunnel_map(tunnels).dom().contains(uid) {
                    let k = choose|k: int| is_entry_of(tunnels, uid, k);
                    if k < rest.len() {
                        assert(is_entry_of(rest, uid, k));
                    }
                }
                if tunnel_map(rest).dom().contains(uid) {
                    let k = choose|k: int| is_entry_of(rest, uid, k);
                    assert(is_entry_of(tunnels, uid, k));
                }
                if uid == last.uid@ {
                    assert(is_entry_of(tunnels, uid, tunnels.len() - 1));
                }
            }
        }
    }
}

impl<C> View for TunnelRegistry<C> {
    type V = Map<Seq<char>, C>;

    closed spec fn view(&self) -> Map<Seq<char>, C> {
        tunnel_map(self.tunnels@)
    }
}

impl<C> TunnelRegistry<C> {
    #[verifier::type_invariant]
    spec fn well_formed(&self) -> bool {
        distinct_uids(self.tunnels@)
    }

    /// A registry without tunnels.
    pub fn new() -> (registry: Self)
        ensures
            registry@ == Map::<Seq<char>, C>::empty(),
    {
        let registry = TunnelRegistry { tunnels: Vec::new() };
        assert(registry@ =~= Map::<Seq<char>, C>::empty());
        registry
    }

    /// Where the entry of `uid` stands.
    fn position(&self, uid: &str) -> (at: Option<usize>)
        ensures
            match at {
                Some(i) => is_entry_of(self.tunnels@, uid@, i as int),
                None => forall|i: int| !is_entry_of(self.tunnels@, uid@, i),
            },
    {
        let mut i: usize = 0;
        while i < self.tunnels.len()
            invariant
                i <= self.tunnels.len(),
                forall|k: int| 0 <= k < i ==> !is_entry_of(self.tunnels@, uid@, k),
            decreases self.tunnels.len() - i,
        {
            if same_text(self.tunnels[i].uid.as_str(), uid) {
                return Some(i);
            }
            i += 1;
        }
        None
    }

    /// Moves the list out, leaving the registry empty for the moment.
    fn take_all(&mut self) -> (tunnels: Vec<Tunnel<C>>)
        ensures
            tunnels@ == old(self).tunnels@,
            final(self).tunnels@.len() == 0,
    {
        let mut tunnels: Vec<Tunnel<C>> = Vec::new();
        std::mem::swap(&mut self.tunnels, &mut tunnels);
        tunnels
    }

    /// How many tunnels are registered.
    pub fn len(&self) -> (n: usize)
        ensures
            self@.dom().finite(),
            n == self@.dom().len(),
    {
        proof {
            use_type_invariant(self);
            lemma_tunnel_map_len(self.tunnels@);
        }
        self.tunnels.len()
    }

    /// Whether `uid` has a tunnel.
    pub fn contains(&self, uid: &str) -> (found: bool)
        ensures
            found == self@.contains_key(uid@),
    {
        self.position(uid).is_some()
    }

    /// The connection registered under `uid`.
    pub fn get(&self, uid: &str) -> (found: Option<&C>)
        ensures
            match found {
                Some(connection) => self@.contains_key(uid@) && self@[uid@] == *connection,
                None => !self@.contains_key(uid@),
            },
    {
        proof {
            use_type_invariant(self);
        }
        match self.position(uid) {
            Some(i) => {
                proof {
                    lemma_tunnel_map_entry(self.tunnels@, i as int);
                }
                Some(&self.tunnels[i].connection)
            },
            None => None,
        }
    }

    /// Registers `connection` under `uid`.
    ///
    /// `existing_closed` says whether the connection that the registry holds
    /// for `uid` at this moment, if it holds one, reports a close reason. A
    /// UID with a connection that is not closed keeps it, and the newcomer is
    /// refused. A closed connection is displaced and handed back.
    pub fn register(&mut self, uid: String, connection: C, existing_closed: bool) -> (res: Result<
        Option<C>,
        RegistryError,
    >)
        ensures
            res is Ok <==> admits(old(self)@, uid@, existing_closed),
            match res {
                Ok(displaced) => {
                    &&& final(self)@ == old(self)@.insert(uid@, connection)
                    &&& displaced == if old(self)@.contains_key(uid@) {
                        Some(old(self)@[uid@])
                    } else {
                        None
                    }
                },
                Err(e) => {
                    &&& e == RegistryError::AlreadyExists
                    &&& old(self)@.contains_key(uid@)
                    &&& !existing_closed
                    &&& final(self)@ == old(self)@
                },
            },
    {
        proof {
            use_type_invariant(&*self);
        }
        let ghost before = self.tunnels@;
        match self.position(uid.as_str()) {
            Some(i) => {
                if !existing_closed {
                    return Err(RegistryError::AlreadyExists);
                }
                proof {
                    lemma_tunnel_map_entry(before, i as int);
                }
                let mut tunnels = self.take_all();
                let stale = tunnels.remove(i);
                let ghost middle = tunnels@;
                assert(distinct_uids(middle)) by {
                    assert forall|a: int, b: int| 0 <= a < b < middle.len() implies (
                    #[trigger] middle[a]).uid@ != (#[trigger] middle[b]).uid@ by {
                        let a0 = if a < i { a } else { a + 1 };
                        let b0 = if b < i { b } else { b + 1 };
                        assert(middle[a] == before[a0] && middle[b] == before[b0]);
                    }
                }
                assert(forall|k: int| !is_entry_of(middle, uid@, k)) by {
                    assert forall|k: int| !is_entry_of(middle, uid@, k) by {
                        if 0 <= k < middle.len() {
                            let k0 = if k < i { k } else { k + 1 };
                            assert(middle[k] == before[k0]);
                            if k0 < i {
                                assert(before[k0].uid@ != before[i as int].uid@);
                            } else {
                                assert(before[i as int].uid@ != before[k0].uid@);
                            }
                        }
                    }
                }
                tunnels.push(Tunnel { uid, connection });
                proof {
                    assert(tunnels@.drop_last() =~= middle);
                    lemma_pushed(middle, tunnels@);
                    assert(tunnel_map(middle) =~= tunnel_map(before).remove(uid@)) by {
                        lemma_removed(before, middle, i as int);
                    }
                    assert(tunnel_map(tunnels@) =~= tunnel_map(before).insert(uid@, connection));
                }
                self.tunnels = tunnels;
                Ok(Some(stale.connection))
            },
            None => {
                let mut tunnels = self.take_all();
                tunnels.push(Tunnel { uid, connection });
                proof {
                    assert(tunnels@.drop_last() =~= before);
                    lemma_pushed(before, tunnels@);
                }
                self.tunnels = tunnels;
                Ok(None)
            },
        }
    }

    /// Takes the tunnel of `uid` out of the registry, as when its connection
    /// has closed.
    pub fn remove(&mut self, uid: &str) -> (removed: Option<C>)
        ensures
            final(self)@ == old(self)@.remove(uid@),
            removed == if old(self)@.contains_key(uid@) {
                Some(old(self)@[uid@])
            } else {
                None
            },
    {
        proof {
            use_type_invariant(&*self);
        }
        let ghost before = self.tunnels@;
        match self.position(uid) {
            Some(i) => {
                proof {
                    lemma_tunnel_map_entry(before, i as int);
                }
                let mut tunnels = self.take_all();
                let gone = tunnels.remove(i);
                proof {
                    lemma_removed(before, tunnels@, i as int);
                }
                self.tunnels = tunnels;
                Some(gone.connection)
            },
            None => {
                assert(self@ =~= old(self)@.remove(uid@));
                None
            },
        }
    }
}

/// Appending a tunnel whose UID is new keeps the UIDs distinct and adds one
/// key.
proof fn lemma_pushed<C>(before: Seq<Tunnel<C>>, after: Seq<Tunnel<C>>)
    requires
        distinct_uids(before),
        after.len() == before.len() + 1,
        after.drop_last() == before,
        forall|k: int| !is_entry_of(before, after.last().uid@, k),
    ensures
        distinct_uids(after),
        tunnel_map(after) == tunnel_map(before).insert(after.last().uid@, after.last().connection),
{
    let last = after.last();
    assert forall|i: int, j: int| 0 <= i < j < after.len() implies (#[trigger] after[i]).uid@ != (
    #[trigger] after[j]).uid@ by {
        assert(after[i] == before[i]);
        if j < before.len() {
            assert(after[j] == before[j]);
        } else {
            assert(!is_entry_of(before, last.uid@, i));
        }
    }
    assert forall|uid: Seq<char>|
        tunnel_map(after).dom().contains(uid) == tunnel_map(before).insert(
            last.uid@,
            last.connection,
        ).dom().contains(uid) by {
        if tunnel_map(after).dom().contains(uid) {
            let k = choose|k: int| is_entry_of(after, uid, k);
            if k < before.len() {
                assert(after[k] == before[k]);
                assert(is_entry_of(before, uid, k));
            }
        }
        if tunnel_map(before).dom().contains(uid) {
            let k = choose|k: int| is_entry_of(before, uid, k);
            assert(after[k] == before[k]);
            assert(is_entry_of(after, uid, k));
        }
        if uid == last.uid@ {
            assert(is_entry_of(after, uid, after.len() - 1));
        }
    }
    assert forall|uid: Seq<char>| tunnel_map(after).dom().contains(uid) implies tunnel_map(
        after,
    )[uid] == tunnel_map(before).insert(last.uid@, last.connection)[uid] by {
        let k = choose|k: int| is_entry_of(after, uid, k);
        lemma_tunnel_map_entry(after, k);
        if k < before.len() {
            assert(after[k] == before[k]);
            lemma_tunnel_map_entry(before, k);
        }
    }
    assert(tunnel_map(after) =~= tunnel_map(before).insert(last.uid@, last.connection));
}

/// Taking entry `i` out keeps the UIDs distinct and removes its key.
proof fn lemma_removed<C>(before: Seq<Tunnel<C>>, after: Seq<Tunnel<C>>, i: int)
    requires
        distinct_uids(before),
        0 <= i < before.len(),
        after == before.remove(i),
    ensures
        distinct_uids(after),
        tunnel_map(after) == tunnel_map(before).remove(before[i].uid@),
{
    let gone = before[i].uid@;
    assert forall|a: int, b: int| 0 <= a < b < after.len() implies (#[trigger] after[a]).uid@ != (
    #[trigger] after[b]).uid@ by {
        let a0 = if a < i { a } else { a + 1 };
        let b0 = if b < i { b } else { b + 1 };
        assert(after[a] == before[a0] && after[b] == before[b0]);
    }
    assert forall|uid: Seq<char>|
        tunnel_map(after).dom().contains(uid) == tunnel_map(before).remove(gone).dom().contains(
            uid,
        ) by {
        if tunnel_map(after).dom().contains(uid) {
            let k = choose|k: int| is_entry_of(after, uid, k);
            let k0 = if k < i { k } else { k + 1 };
            assert(after[k] == before[k0]);
            assert(is_entry_of(before, uid, k0));
            if k0 < i {
                assert(before[k0].uid@ != before[i].uid@);
            } else {
                assert(before[i].uid@ != before[k0].uid@);
            }
        }
        if tunnel_map(before).dom().contains(uid) && uid != gone {
            let k = choose|k: int| is_entry_of(before, uid, k);
            let k1 = if k < i { k } else { k - 1 };
            assert(after[k1] == before[k]);
            assert(is_entry_of(after, uid, k1));
        }
    }
    assert forall|uid: Seq<char>| tunnel_map(after).dom().contains(uid) implies tunnel_map(
        after,
    )[uid] == tunnel_map(before).remove(gone)[uid] by {
        let k = choose|k: int| is_entry_of(after, uid, k);
        let k0 = if k < i { k } else { k + 1 };
        assert(after[k] == before[k0]);
        lemma_tunnel_map_entry(after, k);
        lemma_tunnel_map_entry(before, k0);
    }
    assert(tunnel_map(after) =~= tunnel_map(before).remove(gone));
}

// ---------------------------------------------------------------------------
// Registration histories
// ---------------------------------------------------------------------------
/// One call of `register`, as the registry sees it.
pub struct Attempt<C> {
    pub uid: Seq<char>,
    pub connection: C,
    pub existing_closed: bool,
}

/// Whether a registry admits a newcomer under `uid`: the UID is free, or its
/// connection was found closed.
pub open spec fn admits<C>(registry: Map<Seq<char>, C>, uid: Seq<char>, existing_closed: bool) -> bool {
    !registry.contains_key(uid) || existing_closed
}

/// The registry after one attempt.
pub open spec fn after_attempt<C>(registry: Map<Seq<char>, C>, attempt: Attempt<C>) -> Map<
    Seq<char>,
    C,
> {
    if admits(registry, attempt.uid, attempt.existing_closed) {
        registry.insert(attempt.uid, attempt.connection)
    } else {
        registry
    }
}

/// The registry after a sequence of attempts, first to last.
pub open spec fn after_attempts<C>(start: Map<Seq<char>, C>, attempts: Seq<Attempt<C>>) -> Map<
    Seq<char>,
    C,
>
    decreases attempts.len(),
{
    if attempts.len() == 0 {
        start
    } else {
        after_attempt(after_attempts(start, attempts.drop_last()), attempts.last())
    }
}

/// Whether attempt `i` of a history is admitted.
pub open spec fn admitted<C>(start: Map<Seq<char>, C>, attempts: Seq<Attempt<C>>, i: int) -> bool {
    admits(after_attempts(start, attempts.take(i)), attempts[i].uid, attempts[i].existing_closed)
}

/// Once an attempt is admitted, its UID stays registered; and until another
/// attempt with that UID is admitted, it is registered with the connection of
/// that attempt.
pub proof fn lemma_admitted_stays<C>(
    start: Map<Seq<char>, C>,
    attempts: Seq<Attempt<C>>,
    i: int,
    n: int,
)
    requires
        0 <= i < n <= attempts.len(),
        admitted(start, attempts, i),
    ensures
        after_attempts(start, attempts.take(n)).contains_key(attempts[i].uid),
        (forall|m: int|
            i < m < n && attempts[m].uid == attempts[i].uid ==> !admitted(start, attempts, m))
            ==> after_attempts(start, attempts.take(n))[attempts[i].uid] == attempts[i].connection,
    decreases n - i,
{
    let prefix = attempts.take(n);
    assert(prefix.drop_last() =~= attempts.take(n - 1));
    assert(prefix.last() == attempts[n - 1]);
    let earlier = after_attempts(start, attempts.take(n - 1));
    assert(after_attempts(start, prefix) == after_attempt(earlier, attempts[n - 1]));
    if n - 1 > i {
        lemma_admitted_stays(start, attempts, i, n - 1);
        if forall|m: int|
            i < m < n && attempts[m].uid == attempts[i].uid ==> !admitted(start, attempts, m) {
            if attempts[n - 1].uid == attempts[i].uid {
                assert(!admitted(start, attempts, n - 1));
            }
        }
    }
}

/// Unique live UID. Of two admitted attempts with the same UID, the later one
/// was made while the UID was registered and its connection was found closed;
/// and where no attempt with that UID was admitted in between, that
/// connection was the earlier attempt's.
pub proof fn lemma_unique_live_uid<C>(
    start: Map<Seq<char>, C>,
    attempts: Seq<Attempt<C>>,
    i: int,
    j: int,
)
    requires
        0 <= i < j < attempts.len(),
        attempts[i].uid == attempts[j].uid,
        admitted(start, attempts, i),
        admitted(start, attempts, j),
    ensures
        after_attempts(start, attempts.take(j)).contains_key(attempts[j].uid),
        attempts[j].existing_closed,
        (forall|m: int|
            i < m < j && attempts[m].uid == attempts[i].uid ==> !admitted(start, attempts, m))
            ==> after_attempts(start, attempts.take(j))[attempts[j].uid] == attempts[i].connection,
{
    lemma_admitted_stays(start, attempts, i, j);
}

} // verus!
