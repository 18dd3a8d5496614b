//! A function's pool of warm instances.
//!
//! Every instance identifier the pool has minted is, at any time, in exactly
//! one of three places: the free-list, the set held by in-flight requests, or
//! the set of instances that are gone (discarded, or dropped because the
//! free-list was full). Gone identifiers never come back.

use vstd::prelude::*;

verus! {

/// The most idle instances a function keeps.
pub const MAX_IDLE_INSTANCES: usize = 100;

pub type InstanceId = u64;

/// An instance held by one request.
pub struct InstanceHandle<T> {
    identifier: InstanceId,
    instance: T,
}

/// The right to create the instance with a freshly minted identifier.
pub struct MintTicket {
    identifier: InstanceId,
}

/// What `acquire` hands out: a warm instance, or a ticket to create one.
pub enum Acquired<T> {
    Warm(InstanceHandle<T>),
    Mint(MintTicket),
}

impl MintTicket {
    pub closed spec fn id(&self) -> InstanceId {
        self.identifier
    }

    pub fn get_identifier(&self) -> (r: InstanceId)
        ensures
            r == self.id(),
    {
        self.identifier
    }
}

/// The free-list of one function, with the identifier counter it mints from.
pub struct InstancePool<T> {
    idle: Vec<InstanceHandle<T>>,
    next_instance_id: InstanceId,
    in_flight: Ghost<Set<InstanceId>>,
    retired: Ghost<Set<InstanceId>>,
}

impl<T> InstancePool<T> {
    /// Identifiers on the free-list, oldest first.
    pub closed spec fn idle_ids(&self) -> Seq<InstanceId> {
        self.idle@.map_values(|h: InstanceHandle<T>| h.identifier)
    }

    /// Identifiers held by in-flight requests.
    pub closed spec fn in_flight(&self) -> Set<InstanceId> {
        self.in_flight@
    }

    /// Identifiers of instances that are gone.
    pub closed spec fn retired(&self) -> Set<InstanceId> {
        self.retired@
    }

    /// The identifier the next minted instance gets; identifiers start at 1.
    pub closed spec fn next_id(&self) -> InstanceId {
        self.next_instance_id
    }

    pub open spec fn minted(&self, id: InstanceId) -> bool {
        1 <= id < self.next_id()
    }

    pub closed spec fn wf(&self) -> bool {
        &&& self.idle@.len() <= MAX_IDLE_INSTANCES
        &&& 1 <= self.next_instance_id
        &&& forall|i: int|
            0 <= i < self.idle_ids().len() ==> {
                let id = #[trigger] self.idle_ids()[i];
                &&& self.minted(id)
                &&& !self.in_flight@.contains(id)
                &&& !self.retired@.contains(id)
            }
        &&& forall|i: int, j: int|
            0 <= i < j < self.idle_ids().len() ==> self.idle_ids()[i] != self.idle_ids()[j]
        &&& forall|id: InstanceId|
            #[trigger] self.in_flight@.contains(id) ==> self.minted(id) && !self.retired@.contains(
                id,
            )
        &&& forall|id: InstanceId| #[trigger] self.retired@.contains(id) ==> self.minted(id)
        &&& forall|id: InstanceId|
            self.minted(id) ==> self.idle_ids().contains(id) || self.in_flight@.contains(id)
                || self.retired@.contains(id)
    }

    /// An empty pool.
    pub fn new() -> (r: Self)
        ensures
            r.wf(),
            r.idle_ids().len() == 0,
            r.in_flight().is_empty(),
            r.retired().is_empty(),
            r.next_id() == 1,
    {
        let r = InstancePool {
            idle: Vec::new(),
            next_instance_id: 1,
            in_flight: Ghost(Set::empty()),
            retired: Ghost(Set::empty()),
        };
        assert(r.idle_ids() =~= Seq::<InstanceId>::empty());
        r
    }

    /// How many instances are on the free-list.
    pub fn len(&self) -> (r: usize)
        ensures
            r == self.idle_ids().len(),
    {
        self.idle.len()
    }

    /// How many instances this pool has minted.
    pub fn instances_minted(&self) -> (r: u64)
        requires
            self.wf(),
        ensures
            r == self.next_id() - 1,
    {
        self.next_instance_id - 1
    }

    /// Whether an identifier is left to mint.
    pub fn can_mint(&self) -> (r: bool)
        ensures
            r == (self.next_id() < u64::MAX),
    {
        self.next_instance_id < u64::MAX
    }

    /// Takes the most recently idled instance off the free-list, or, when the
    /// list is empty, mints a fresh identifier. Never blocks and never fails;
    /// the identifier handed out is held by no other request and is not gone.
    pub fn acquire(&mut self) -> (r: Acquired<T>)
        requires
            old(self).wf(),
            old(self).next_id() < u64::MAX,
        ensures
            final(self).wf(),
            final(self).retired() == old(self).retired(),
            match r {
                Acquired::Warm(h) => {
                    &&& old(self).idle_ids().len() > 0
                    &&& h.id() == old(self).idle_ids().last()
                    &&& final(self).idle_ids() == old(self).idle_ids().drop_last()
                    &&& final(self).in_flight() == old(self).in_flight().insert(h.id())
                    &&& final(self).next_id() == old(self).next_id()
                    &&& !old(self).in_flight().contains(h.id())
                    &&& !old(self).retired().contains(h.id())
                },
                Acquired::Mint(t) => {
                    &&& old(self).idle_ids().len() == 0
                    &&& t.id() == old(self).next_id()
                    &&& final(self).idle_ids() == old(self).idle_ids()
                    &&& final(self).in_flight() == old(self).in_flight().insert(t.id())
                    &&& final(self).next_id() == old(self).next_id() + 1
                    &&& !old(self).in_flight().contains(t.id())
                    &&& !old(self).retired().contains(t.id())
                },
            },
    {
        let ghost old_ids = self.idle_ids();
        match self.idle.pop() {
            Some(h) => {
                assert(self.idle_ids() =~= old_ids.drop_last());
                assert(old_ids[old_ids.len() - 1] == h.identifier);
                self.in_flight = Ghost(self.in_flight@.insert(h.identifier));
                proof {
                    assert forall|id: InstanceId| self.minted(id) implies self.idle_ids().contains(id)
                        || self.in_flight@.contains(id) || self.retired@.contains(id) by {
                        if old_ids.contains(id) && id != h.identifier {
                            let k = choose|k: int| 0 <= k < old_ids.len() && old_ids[k] == id;
                            assert(self.idle_ids()[k] == id);
                        }
                    }
                }
                Acquired::Warm(h)
            },
            None => {
                let id = self.next_instance_id;
                self.next_instance_id = id + 1;
                self.in_flight = Ghost(self.in_flight@.insert(id));
                Acquired::Mint(MintTicket { identifier: id })
            },
        }
    }
}

impl<T> InstanceHandle<T> {
    pub closed spec fn id(&self) -> InstanceId {
        self.identifier
    }

    pub closed spec fn payload(&self) -> T {
        self.instance
    }

    /// The instance created for `ticket`.
    pub fn new(ticket: MintTicket, instance: T) -> (r: Self)
        ensures
            r.id() == ticket.id(),
            r.payload() == instance,
    {
        InstanceHandle { identifier: ticket.identifier, instance }
    }

    pub fn get_identifier(&self) -> (r: InstanceId)
        ensures
            r == self.id(),
    {
        self.identifier
    }

    /// The instance, to run a call on.
    pub fn get(&mut self) -> (r: &mut T)
        ensures
            *r == old(self).payload(),
            final(self).id() == old(self).id(),
            final(self).payload() == *final(r),
    {
        &mut self.instance
    }

    /// Returns a finished request's instance: back onto the free-list while it
    /// has room, otherwise dropped.
    pub fn mark_idle(self, pool: &mut InstancePool<T>)
        requires
            old(pool).wf(),
            old(pool).in_flight().contains(self.id()),
        ensures
            final(pool).wf(),
            final(pool).in_flight() == old(pool).in_flight().remove(self.id()),
            final(pool).next_id() == old(pool).next_id(),
            old(pool).idle_ids().len() < MAX_IDLE_INSTANCES ==> final(pool).idle_ids()
                == old(pool).idle_ids().push(self.id()) && final(pool).retired() == old(
                pool,
            ).retired(),
            old(pool).idle_ids().len() >= MAX_IDLE_INSTANCES ==> final(pool).idle_ids()
                == old(pool).idle_ids() && final(pool).retired() == old(pool).retired().insert(
                self.id(),
            ),
    {
        let ghost old_ids = pool.idle_ids();
        let id = self.identifier;
        pool.in_flight = Ghost(pool.in_flight@.remove(id));
        if pool.idle.len() < MAX_IDLE_INSTANCES {
            pool.idle.push(self);
            assert(pool.idle_ids() =~= old_ids.push(id));
            proof {
                assert forall|id2: InstanceId| pool.minted(id2) implies pool.idle_ids().contains(id2)
                    || pool.in_flight@.contains(id2) || pool.retired@.contains(id2) by {
                    if old_ids.contains(id2) {
                        let k = choose|k: int| 0 <= k < old_ids.len() && old_ids[k] == id2;
                        assert(pool.idle_ids()[k] == id2);
                    }
                    if id2 == id {
                        assert(pool.idle_ids()[old_ids.len() as int] == id2);
                    }
                }
            }
        } else {
            pool.retired = Ghost(pool.retired@.insert(id));
        }
    }

    /// Drops a request's instance, which is never handed out again.
    pub fn discard(self, pool: &mut InstancePool<T>)
        requires
            old(pool).wf(),
            old(pool).in_flight().contains(self.id()),
        ensures
            final(pool).wf(),
            final(pool).in_flight() == old(pool).in_flight().remove(self.id()),
            final(pool).retired() == old(pool).retired().insert(self.id()),
            final(pool).idle_ids() == old(pool).idle_ids(),
            final(pool).next_id() == old(pool).next_id(),
    {
        let id = self.identifier;
        assert forall|i: int| 0 <= i < pool.idle_ids().len() implies #[trigger] pool.idle_ids()[i]
            != id by {
            assert(!pool.in_flight@.contains(pool.idle_ids()[i]));
        }
        pool.in_flight = Ghost(pool.in_flight@.remove(id));
        pool.retired = Ghost(pool.retired@.insert(id));
    }
}

/// Each minted instance that is not gone is either on the free-list, once, or
/// held by an in-flight request, never both.
pub proof fn lemma_single_owner<T>(pool: &InstancePool<T>, id: InstanceId)
    requires
        pool.wf(),
        pool.minted(id),
        !pool.retired().contains(id),
    ensures
        pool.idle_ids().contains(id) != pool.in_flight().contains(id),
        forall|i: int, j: int|
            0 <= i < pool.idle_ids().len() && 0 <= j < pool.idle_ids().len()
                && pool.idle_ids()[i] == id && pool.idle_ids()[j] == id ==> i == j,
{
    if pool.idle_ids().contains(id) {
        let k = choose|k: int| 0 <= k < pool.idle_ids().len() && pool.idle_ids()[k] == id;
        assert(!pool.in_flight().contains(pool.idle_ids()[k]));
    }
    assert forall|i: int, j: int|
        0 <= i < pool.idle_ids().len() && 0 <= j < pool.idle_ids().len()
            && pool.idle_ids()[i] == id && pool.idle_ids()[j] == id implies i == j by {
        if i < j {
            assert(pool.idle_ids()[i] != pool.idle_ids()[j]);
        } else if j < i {
            assert(pool.idle_ids()[j] != pool.idle_ids()[i]);
        }
    }
}

/// The free-list never holds more than `MAX_IDLE_INSTANCES` instances.
pub proof fn lemma_free_list_bounded<T>(pool: &InstancePool<T>)
    requires
        pool.wf(),
    ensures
        pool.idle_ids().len() <= MAX_IDLE_INSTANCES,
{
}

/// An instance that is gone (as a trapped request's instance is, once
/// discarded) is on no free-list and held by no request.
pub proof fn lemma_gone_instance_unreachable<T>(pool: &InstancePool<T>, id: InstanceId)
    requires
        pool.wf(),
        pool.retired().contains(id),
    ensures
        !pool.idle_ids().contains(id),
        !pool.in_flight().contains(id),
{
    if pool.idle_ids().contains(id) {
        let k = choose|k: int| 0 <= k < pool.idle_ids().len() && pool.idle_ids()[k] == id;
        assert(!pool.retired().contains(pool.idle_ids()[k]));
    }
}

} // verus!
