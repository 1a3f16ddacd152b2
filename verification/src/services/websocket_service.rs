//! The registry of live WebSocket connections and of the items each one
//! follows. Identifiers are UUIDs as 128-bit integers.
use std::collections::HashMap;
use vstd::std_specs::iter::IteratorSpec;
use vstd::prelude::*;

verus! {

broadcast use vstd::std_specs::hash::group_hash_axioms;

/// `s` with every occurrence of `x` removed, the rest in order.
pub open spec fn without(s: Seq<u128>, x: u128) -> Seq<u128>
    decreases s.len(),
{
    if s.len() == 0 {
        s
    } else {
        let w = without(s.drop_last(), x);
        if s.last() == x {
            w
        } else {
            w.push(s.last())
        }
    }
}

/// Pushing `a` adds `a` and keeps what was there.
proof fn lemma_push_contains(s: Seq<u128>, a: u128, y: u128)
    ensures
        s.push(a).contains(y) <==> (s.contains(y) || a == y),
{
    if s.push(a).contains(y) {
        let i = choose|i: int| 0 <= i < s.push(a).len() && s.push(a)[i] == y;
        if i < s.len() {
            assert(s[i] == y);
        }
    }
    if s.contains(y) {
        let i = choose|i: int| 0 <= i < s.len() && s[i] == y;
        assert(s.push(a)[i] == y);
    }
    if a == y {
        assert(s.push(a)[s.len() as int] == y);
    }
}

/// `without(s, x)` holds what `s` holds, except `x`.
pub proof fn lemma_without_contains(s: Seq<u128>, x: u128, y: u128)
    ensures
        without(s, x).contains(y) <==> (s.contains(y) && y != x),
    decreases s.len(),
{
    if s.len() > 0 {
        let t = s.drop_last();
        let l = s.last();
        lemma_without_contains(t, x, y);
        assert(s =~= t.push(l));
        lemma_push_contains(t, l, y);
        lemma_push_contains(without(t, x), l, y);
    }
}

/// Taking out an element that is not there changes nothing.
pub proof fn lemma_without_absent(s: Seq<u128>, x: u128)
    requires
        !s.contains(x),
    ensures
        without(s, x) == s,
    decreases s.len(),
{
    if s.len() > 0 {
        assert(!s.drop_last().contains(x)) by {
            if s.drop_last().contains(x) {
                let k = choose|k: int| 0 <= k < s.drop_last().len() && s.drop_last()[k] == x;
                assert(s[k] == x);
            }
        }
        lemma_without_absent(s.drop_last(), x);
        assert(s[s.len() - 1] != x);
        assert(s.drop_last().push(s.last()) =~= s);
    }
}

/// Taking an element out twice is taking it out once.
pub proof fn lemma_without_idempotent(s: Seq<u128>, x: u128)
    ensures
        without(without(s, x), x) == without(s, x),
{
    lemma_without_contains(s, x, x);
    lemma_without_absent(without(s, x), x);
}

/// Taking `x` out of `s` with `y` pushed: `y` stays at the end unless it is `x`.
pub proof fn lemma_without_push(s: Seq<u128>, x: u128, y: u128)
    ensures
        without(s.push(y), x) == if y == x {
            without(s, x)
        } else {
            without(s, x).push(y)
        },
{
    assert(s.push(y).drop_last() =~= s);
}

/// `without(v, x)`, computed.
fn without_vec(v: &Vec<u128>, x: u128) -> (r: Vec<u128>)
    ensures
        r@ == without(v@, x),
{
    let mut r: Vec<u128> = Vec::new();
    let mut i: usize = 0;
    while i < v.len()
        invariant
            i <= v.len(),
            r@ == without(v@.take(i as int), x),
        decreases v.len() - i,
    {
        proof {
            lemma_without_push(v@.take(i as int), x, v@[i as int]);
            assert(v@.take(i as int).push(v@[i as int]) =~= v@.take(i + 1));
        }
        if v[i] != x {
            r.push(v[i]);
        }
        i = i + 1;
    }
    assert(v@.take(v.len() as int) =~= v@);
    r
}

fn vec_contains(v: &Vec<u128>, x: u128) -> (b: bool)
    ensures
        b == v@.contains(x),
{
    let mut i: usize = 0;
    while i < v.len()
        invariant
            i <= v.len(),
            forall|j: int| 0 <= j < i ==> v@[j] != x,
        decreases v.len() - i,
    {
        if v[i] == x {
            assert(v@[i as int] == x);
            return true;
        }
        i = i + 1;
    }
    false
}

/// Sum of the lengths of the lists that `m` holds.
pub open spec fn total_len(m: Map<u128, Seq<u128>>) -> nat
    decreases m.dom().len(),
    when m.dom().finite()
{
    if m.dom().len() > 0 {
        let k = m.dom().choose();
        m[k].len() + total_len(m.remove(k))
    } else {
        0
    }
}

/// Taking one key out of the sum leaves the sum of the rest.
pub proof fn lemma_total_len_remove(m: Map<u128, Seq<u128>>, k: u128)
    requires
        m.dom().finite(),
        m.contains_key(k),
    ensures
        total_len(m) == m[k].len() + total_len(m.remove(k)),
    decreases m.dom().len(),
{
    let j = m.dom().choose();
    assert(m.dom().contains(j));
    if j != k {
        lemma_total_len_remove(m.remove(j), k);
        lemma_total_len_remove(m.remove(k), j);
        assert(m.remove(j).remove(k) =~= m.remove(k).remove(j));
    }
}

/// The sum after `m` maps `k` to `s`.
pub proof fn lemma_total_len_insert(m: Map<u128, Seq<u128>>, k: u128, s: Seq<u128>)
    requires
        m.dom().finite(),
    ensures
        total_len(m.insert(k, s)) == s.len() + total_len(m.remove(k)),
        m.contains_key(k) ==> total_len(m) == m[k].len() + total_len(m.remove(k)),
{
    lemma_total_len_remove(m.insert(k, s), k);
    assert(m.insert(k, s).remove(k) =~= m.remove(k));
    if m.contains_key(k) {
        lemma_total_len_remove(m, k);
    }
}

/// What the registry knows of one connection.
pub struct ConnectionView {
    pub user_id: Option<u128>,
    pub username: Option<Seq<char>>,
    pub subscribed_items: Seq<u128>,
    pub connection_id: u128,
}

/// A live connection: the user behind it, if authenticated, and the items
/// it follows.
pub struct ConnectionInfo {
    pub user_id: Option<u128>,
    pub username: Option<String>,
    pub subscribed_items: Vec<u128>,
    pub connection_id: u128,
}

impl View for ConnectionInfo {
    type V = ConnectionView;

    open spec fn view(&self) -> ConnectionView {
        ConnectionView {
            user_id: self.user_id,
            username: match self.username {
                Some(u) => Some(u@),
                None => None,
            },
            subscribed_items: self.subscribed_items@,
            connection_id: self.connection_id,
        }
    }
}

impl ConnectionView {
    /// The same connection following `items`.
    pub open spec fn with_items(self, items: Seq<u128>) -> ConnectionView {
        ConnectionView { subscribed_items: items, ..self }
    }
}

/// The state of the registry: the connections by identifier, and for each
/// followed item the connections that subscribed to it, in subscription
/// order (a connection that subscribed twice appears twice).
pub struct RegistryView {
    pub connections: Map<u128, ConnectionView>,
    pub subscriptions: Map<u128, Seq<u128>>,
}

/// `m` after `cid` leaves every item of `items`: lists that become empty
/// are dropped.
pub open spec fn drop_subscriber(
    m: Map<u128, Seq<u128>>,
    items: Set<u128>,
    cid: u128,
) -> Map<u128, Seq<u128>> {
    Map::new(
        |k: u128| m.contains_key(k) && (!items.contains(k) || without(m[k], cid).len() > 0),
        |k: u128|
            if items.contains(k) {
                without(m[k], cid)
            } else {
                m[k]
            },
    )
}

/// One more item taken off: the list of `item` loses `cid`, and goes
/// when it becomes empty.
pub proof fn lemma_drop_subscriber_step(
    subs0: Map<u128, Seq<u128>>,
    items: Set<u128>,
    cid: u128,
    item: u128,
)
    ensures
        ({
            let before = drop_subscriber(subs0, items, cid);
            let after = if before.contains_key(item) && without(before[item], cid).len() > 0 {
                before.insert(item, without(before[item], cid))
            } else {
                before.remove(item)
            };
            after == drop_subscriber(subs0, items.insert(item), cid)
        }),
{
    let before = drop_subscriber(subs0, items, cid);
    let target = drop_subscriber(subs0, items.insert(item), cid);
    if subs0.contains_key(item) {
        lemma_without_idempotent(subs0[item], cid);
    }
    if before.contains_key(item) && without(before[item], cid).len() > 0 {
        assert(before.insert(item, without(before[item], cid)) =~= target);
    } else {
        assert(before.remove(item) =~= target);
    }
}

impl RegistryView {
    /// Records `info`, replacing any connection with the same identifier.
    pub open spec fn register(self, info: ConnectionView) -> RegistryView {
        RegistryView {
            connections: self.connections.insert(info.connection_id, info),
            subscriptions: self.subscriptions,
        }
    }

    /// Forgets connection `cid` and takes it off the lists of the items it
    /// followed; nothing changes for an unknown connection.
    pub open spec fn unregister(self, cid: u128) -> RegistryView {
        if self.connections.contains_key(cid) {
            RegistryView {
                connections: self.connections.remove(cid),
                subscriptions: drop_subscriber(
                    self.subscriptions,
                    self.connections[cid].subscribed_items.to_set(),
                    cid,
                ),
            }
        } else {
            self
        }
    }

    /// The subscribers of `item`, or none.
    pub open spec fn subscribers(self, item: u128) -> Seq<u128> {
        if self.subscriptions.contains_key(item) {
            self.subscriptions[item]
        } else {
            Seq::empty()
        }
    }

    /// Connection `cid` follows `item`: the item joins the connection's list
    /// unless already there, and the connection is appended to the item's
    /// subscribers. Only defined for a registered connection.
    pub open spec fn subscribe(self, cid: u128, item: u128) -> RegistryView {
        let c = self.connections[cid];
        RegistryView {
            connections: self.connections.insert(
                cid,
                c.with_items(
                    if c.subscribed_items.contains(item) {
                        c.subscribed_items
                    } else {
                        c.subscribed_items.push(item)
                    },
                ),
            ),
            subscriptions: self.subscriptions.insert(item, self.subscribers(item).push(cid)),
        }
    }

    /// Connection `cid` stops following `item`, on both sides.
    pub open spec fn unsubscribe(self, cid: u128, item: u128) -> RegistryView {
        RegistryView {
            connections: if self.connections.contains_key(cid) {
                self.connections.insert(
                    cid,
                    self.connections[cid].with_items(
                        without(self.connections[cid].subscribed_items, item),
                    ),
                )
            } else {
                self.connections
            },
            subscriptions: drop_subscriber(self.subscriptions, set![item], cid),
        }
    }

    /// Number of subscriptions to `item`.
    pub open spec fn subscriber_count(self, item: u128) -> nat {
        self.subscribers(item).len()
    }

    /// Number of subscriptions over all items.
    pub open spec fn total_subscriptions(self) -> nat {
        total_len(self.subscriptions)
    }

    /// The connection lists and the item lists agree: `cid` lists `item`
    /// exactly when `item` lists `cid`, only registered connections appear,
    /// and no item keeps an empty list.
    pub open spec fn consistent(self) -> bool {
        &&& self.subscriptions.dom().finite()
        &&& forall|item: u128|
            #[trigger] self.subscriptions.contains_key(item) ==> self.subscriptions[item].len() > 0
        &&& forall|item: u128, cid: u128|
            #![trigger self.subscribers(item).contains(cid)]
            self.subscribers(item).contains(cid) ==> self.connections.contains_key(cid)
        &&& forall|item: u128, cid: u128|
            #![trigger self.subscribers(item).contains(cid), self.connections[cid]]
            self.connections.contains_key(cid) ==> (self.subscribers(item).contains(cid)
                <==> self.connections[cid].subscribed_items.contains(item))
    }
}

/// Why a registry operation failed.
#[derive(Debug, PartialEq, Eq, Structural, Clone, Copy)]
pub enum WebSocketError {
    ConnectionNotFound,
}

/// Counts reported by `get_stats`.
#[derive(Debug, PartialEq, Eq, Structural, Clone, Copy)]
pub struct WebSocketStats {
    pub active_connections: usize,
    pub total_subscriptions: usize,
    pub items_with_subscribers: usize,
}

/// Connections and item subscriptions.
pub struct WebSocketService {
    connections: HashMap<u128, ConnectionInfo>,
    item_subscriptions: HashMap<u128, Vec<u128>>,
}

impl View for WebSocketService {
    type V = RegistryView;

    closed spec fn view(&self) -> RegistryView {
        RegistryView {
            connections: self.connections@.map_values(|c: ConnectionInfo| c@),
            subscriptions: self.item_subscriptions@.map_values(|v: Vec<u128>| v@),
        }
    }
}

impl WebSocketService {
    /// The subscription lists are finite, as every map the service holds.
    pub proof fn lemma_finite(&self)
        ensures
            self@.subscriptions.dom().finite(),
            self@.connections.dom().finite(),
    {
        assert(self@.subscriptions.dom() =~= self.item_subscriptions@.dom());
        assert(self@.connections.dom() =~= self.connections@.dom());
    }

    /// An empty registry, which is consistent.
    pub fn new() -> (s: Self)
        ensures
            s@.connections == Map::<u128, ConnectionView>::empty(),
            s@.subscriptions == Map::<u128, Seq<u128>>::empty(),
            s@.consistent(),
    {
        let s = WebSocketService { connections: HashMap::new(), item_subscriptions: HashMap::new() };
        assert(s@.connections =~= Map::<u128, ConnectionView>::empty());
        assert(s@.subscriptions =~= Map::<u128, Seq<u128>>::empty());
        s
    }

    /// Records a connection. A new connection that follows nothing yet keeps
    /// a consistent registry consistent.
    pub fn register_connection(&mut self, connection_info: ConnectionInfo) -> (r: Result<
        (),
        WebSocketError,
    >)
        ensures
            r is Ok,
            final(self)@ == old(self)@.register(connection_info@),
            old(self)@.consistent() && !old(self)@.connections.contains_key(
                connection_info.connection_id,
            ) && connection_info.subscribed_items@.len() == 0 ==> final(self)@.consistent(),
    {
        proof {
            if old(self)@.consistent() && !old(self)@.connections.contains_key(
                connection_info.connection_id,
            ) && connection_info.subscribed_items@.len() == 0 {
                lemma_register_keeps_consistency(old(self)@, connection_info@);
            }
        }
        let ghost info = connection_info@;
        let connection_id = connection_info.connection_id;
        self.connections.insert(connection_id, connection_info);
        assert(self@.connections =~= old(self)@.connections.insert(connection_id, info));
        assert(self@.subscriptions =~= old(self)@.subscriptions);
        Ok(())
    }

    /// Forgets a connection and its subscriptions; a consistent registry
    /// stays consistent.
    pub fn unregister_connection(&mut self, connection_id: u128) -> (r: Result<
        (),
        WebSocketError,
    >)
        ensures
            r is Ok,
            final(self)@ == old(self)@.unregister(connection_id),
            old(self)@.consistent() ==> final(self)@.consistent(),
    {
        proof {
            if old(self)@.consistent() {
                lemma_unregister_keeps_consistency(old(self)@, connection_id);
            }
        }
        let removed = self.connections.remove(&connection_id);
        match removed {
            Some(info) => {
                assert(self@.connections =~= old(self)@.connections.remove(connection_id));
                let ghost items = info.subscribed_items@;
                let ghost subs0 = old(self)@.subscriptions;
                let mut i: usize = 0;
                assert(drop_subscriber(subs0, items.take(0).to_set(), connection_id) =~= subs0);
                while i < info.subscribed_items.len()
                    invariant
                        i <= info.subscribed_items.len(),
                        items == info.subscribed_items@,
                        self@.connections == old(self)@.connections.remove(connection_id),
                        self@.subscriptions == drop_subscriber(
                            subs0,
                            items.take(i as int).to_set(),
                            connection_id,
                        ),
                    decreases info.subscribed_items.len() - i,
                {
                    let item = info.subscribed_items[i];
                    let ghost before = self@.subscriptions;
                    let ghost hm = self.item_subscriptions@;
                    proof {
                        lemma_drop_subscriber_step(
                            subs0,
                            items.take(i as int).to_set(),
                            connection_id,
                            item,
                        );
                    }
                    let taken = self.item_subscriptions.remove(&item);
                    match taken {
                        Some(subscribers) => {
                            assert(subscribers@ == before[item]);
                            let kept = without_vec(&subscribers, connection_id);
                            if kept.len() > 0 {
                                self.item_subscriptions.insert(item, kept);
                                assert(self@.subscriptions =~= before.insert(
                                    item,
                                    without(before[item], connection_id),
                                ));
                            } else {
                                assert(self@.subscriptions =~= before.remove(item));
                            }
                        },
                        None => {
                            assert(self@.subscriptions =~= before.remove(item));
                        },
                    }
                    proof {
                        let s0 = items.take(i as int).to_set();
                        let s1 = items.take(i + 1).to_set();
                        assert(items.take(i + 1) =~= items.take(i as int).push(item));
                        assert(s1 =~= s0.insert(item)) by {
                            assert forall|k: u128| s1.contains(k) <==> s0.insert(item).contains(
                                k,
                            ) by {
                                lemma_push_contains(items.take(i as int), item, k);
                            }
                        }
                    }
                    i = i + 1;
                }
                assert(items.take(items.len() as int) =~= items);
                Ok(())
            },
            None => {
                assert(self@.connections =~= old(self)@.connections);
                Ok(())
            },
        }
    }

    /// Connection `connection_id` follows `item_id`; refused for an unknown
    /// connection, which leaves everything as it was. A consistent registry
    /// stays consistent.
    pub fn subscribe_to_item(&mut self, connection_id: u128, item_id: u128) -> (r: Result<
        (),
        WebSocketError,
    >)
        ensures
            old(self)@.connections.contains_key(connection_id) ==> r is Ok && final(self)@
                == old(self)@.subscribe(connection_id, item_id),
            !old(self)@.connections.contains_key(connection_id) ==> r == Err::<
                (),
                WebSocketError,
            >(WebSocketError::ConnectionNotFound) && final(self)@ == old(self)@,
            old(self)@.consistent() ==> final(self)@.consistent(),
    {
        proof {
            if old(self)@.consistent() && old(self)@.connections.contains_key(connection_id) {
                lemma_subscribe_keeps_consistency(old(self)@, connection_id, item_id);
            }
        }
        let taken = self.connections.remove(&connection_id);
        match taken {
            Some(mut connection) => {
                if !vec_contains(&connection.subscribed_items, item_id) {
                    connection.subscribed_items.push(item_id);
                }
                let ghost c = connection@;
                self.connections.insert(connection_id, connection);
                assert(self@.connections =~= old(self)@.subscribe(
                    connection_id,
                    item_id,
                ).connections);
            },
            None => {
                assert(self@ == old(self)@) by {
                    assert(self@.connections =~= old(self)@.connections);
                    assert(self@.subscriptions =~= old(self)@.subscriptions);
                }
                return Err(WebSocketError::ConnectionNotFound);
            },
        }
        let previous = self.item_subscriptions.remove(&item_id);
        let mut subscribers = match previous {
            Some(v) => v,
            None => Vec::new(),
        };
        subscribers.push(connection_id);
        self.item_subscriptions.insert(item_id, subscribers);
        assert(self@.subscriptions =~= old(self)@.subscribe(
            connection_id,
            item_id,
        ).subscriptions);
        Ok(())
    }

    /// Connection `connection_id` stops following `item_id`; a consistent
    /// registry stays consistent.
    pub fn unsubscribe_from_item(&mut self, connection_id: u128, item_id: u128) -> (r: Result<
        (),
        WebSocketError,
    >)
        ensures
            r is Ok,
            final(self)@ == old(self)@.unsubscribe(connection_id, item_id),
            old(self)@.consistent() ==> final(self)@.consistent(),
    {
        proof {
            if old(self)@.consistent() {
                lemma_unsubscribe_keeps_consistency(old(self)@, connection_id, item_id);
            }
        }
        let taken = self.connections.remove(&connection_id);
        match taken {
            Some(mut connection) => {
                connection.subscribed_items = without_vec(&connection.subscribed_items, item_id);
                self.connections.insert(connection_id, connection);
            },
            None => {},
        }
        assert(self@.connections =~= old(self)@.unsubscribe(connection_id, item_id).connections);
        let previous = self.item_subscriptions.remove(&item_id);
        match previous {
            Some(subscribers) => {
                let kept = without_vec(&subscribers, connection_id);
                if kept.len() > 0 {
                    self.item_subscriptions.insert(item_id, kept);
                }
            },
            None => {},
        }
        assert(self@.subscriptions =~= old(self)@.unsubscribe(
            connection_id,
            item_id,
        ).subscriptions);
        Ok(())
    }

    /// Number of registered connections.
    pub fn connection_count(&self) -> (n: usize)
        ensures
            n == self@.connections.len(),
    {
        proof {
            assert(self@.connections.dom() =~= self.connections@.dom());
        }
        self.connections.len()
    }

    /// Number of subscriptions to `item_id`.
    pub fn item_subscriber_count(&self, item_id: u128) -> (n: usize)
        ensures
            n == self@.subscriber_count(item_id),
    {
        match self.item_subscriptions.get(&item_id) {
            Some(subscribers) => subscribers.len(),
            None => 0,
        }
    }

    /// Connection, subscription and followed-item counts. The subscription
    /// total must fit in a `usize`.
    pub fn get_stats(&self) -> (s: WebSocketStats)
        requires
            self@.total_subscriptions() <= usize::MAX,
        ensures
            s.active_connections == self@.connections.len(),
            s.total_subscriptions == self@.total_subscriptions(),
            s.items_with_subscribers == self@.subscriptions.len(),
    {
        let ghost m = self@.subscriptions;
        proof {
            self.lemma_finite();
            assert(m.dom() =~= self.item_subscriptions@.dom());
        }
        let mut total: usize = 0;
        let ghost mut rest = m;

        for pair in it: self.item_subscriptions.iter()
            invariant
                m == self@.subscriptions,
                m.dom().finite(),
                rest.dom().finite(),
                total + total_len(rest) == total_len(m),
                total_len(m) <= usize::MAX,
                it.seq().no_duplicates(),
                forall|k: u128| #[trigger]
                    rest.contains_key(k) ==> m.contains_key(k) && rest[k] == m[k],
                forall|j: int|
                    it.index() <= j < it.seq().len() ==> rest.contains_key(
                        *(#[trigger] it.seq()[j]).0,
                    ),
                forall|k: u128| #[trigger]
                    rest.contains_key(k) ==> exists|j: int|
                        it.index() <= j < it.seq().len() && #[trigger] it.seq()[j] == (
                            &k,
                            &self.item_subscriptions@[k],
                        ),
                forall|j: int|
                    0 <= j < it.seq().len() ==> self.item_subscriptions@.contains_key(
                        *(#[trigger] it.seq()[j]).0,
                    ) && self.item_subscriptions@[*it.seq()[j].0] == *it.seq()[j].1,
                forall|k: u128| #[trigger]
                    self.item_subscriptions@.contains_key(k) ==> it.seq().contains(
                        (&k, &self.item_subscriptions@[k]),
                    ),
        {
            let (k, v) = pair;
            let ghost idx = it.index();
            proof {
                assert(it.seq()[idx] == pair);
                assert(rest.contains_key(*k));
                lemma_total_len_remove(rest, *k);
                assert(rest[*k] == v@);
            }
            total = total + v.len();
            proof {
                rest = rest.remove(*k);
                assert forall|j: int| idx + 1 <= j < it.seq().len() implies rest.contains_key(
                    *(#[trigger] it.seq()[j]).0,
                ) by {
                    assert(it.seq()[j] != it.seq()[idx]);
                    assert(*it.seq()[j].0 != *k);
                }
                assert forall|k2: u128| #[trigger] rest.contains_key(k2) implies exists|j: int|
                    idx + 1 <= j < it.seq().len() && #[trigger] it.seq()[j] == (
                        &k2,
                        &self.item_subscriptions@[k2],
                    ) by {
                    let j = choose|j: int|
                        idx <= j < it.seq().len() && #[trigger] it.seq()[j] == (
                            &k2,
                            &self.item_subscriptions@[k2],
                        );
                    assert(j != idx);
                }
            }
        }
        proof {
            assert forall|k: u128| !rest.contains_key(k) by {}
            assert(rest.dom() =~= Set::<u128>::empty());
        }
        proof {
            assert(self@.connections.dom() =~= self.connections@.dom());
        }
        WebSocketStats {
            active_connections: self.connections.len(),
            total_subscriptions: total,
            items_with_subscribers: self.item_subscriptions.len(),
        }
    }
}

} // verus!

verus! {

/// Subscribing a registered connection to an item adds one subscriber to
/// that item, one subscription to the total, and leaves every other item's
/// count as it was.
pub proof fn lemma_subscribe_counts(s: RegistryView, cid: u128, item: u128, other: u128)
    requires
        s.subscriptions.dom().finite(),
        s.connections.contains_key(cid),
        other != item,
    ensures
        s.subscribe(cid, item).subscriber_count(item) == s.subscriber_count(item) + 1,
        s.subscribe(cid, item).subscriber_count(other) == s.subscriber_count(other),
        s.subscribe(cid, item).total_subscriptions() == s.total_subscriptions() + 1,
{
    lemma_total_len_insert(s.subscriptions, item, s.subscribers(item).push(cid));
    if !s.subscriptions.contains_key(item) {
        assert(s.subscriptions.remove(item) =~= s.subscriptions);
    }
}

/// Subscribing a connection to an item it did not follow and unsubscribing
/// it again gives back the registry as it was.
pub proof fn lemma_subscribe_then_unsubscribe(s: RegistryView, cid: u128, item: u128)
    requires
        s.consistent(),
        s.connections.contains_key(cid),
        !s.connections[cid].subscribed_items.contains(item),
    ensures
        s.subscribe(cid, item).unsubscribe(cid, item) == s,
{
    let t = s.subscribe(cid, item);
    let items = s.connections[cid].subscribed_items;
    assert(!s.subscribers(item).contains(cid));
    lemma_without_push(items, item, item);
    lemma_without_absent(items, item);
    lemma_without_push(s.subscribers(item), cid, cid);
    lemma_without_absent(s.subscribers(item), cid);
    assert(t.unsubscribe(cid, item).connections =~= s.connections);
    if s.subscriptions.contains_key(item) {
        assert(s.subscriptions[item].len() > 0);
    }
    assert(t.unsubscribe(cid, item).subscriptions =~= s.subscriptions);
}

/// In a consistent registry, unsubscribing a connection from an item it does
/// not follow changes nothing.
pub proof fn lemma_unsubscribe_absent(s: RegistryView, cid: u128, item: u128)
    requires
        s.consistent(),
        !(s.connections.contains_key(cid) && s.connections[cid].subscribed_items.contains(item)),
    ensures
        s.unsubscribe(cid, item) == s,
{
    lemma_consistent_at(s, item, cid);
    let t = s.unsubscribe(cid, item);
    if s.connections.contains_key(cid) {
        lemma_without_absent(s.connections[cid].subscribed_items, item);
    }
    assert(t.connections =~= s.connections);
    if s.subscriptions.contains_key(item) {
        assert(!s.subscribers(item).contains(cid));
        lemma_without_absent(s.subscriptions[item], cid);
    }
    assert(t.subscriptions =~= s.subscriptions);
}

/// Registering a new connection that follows nothing and unregistering it
/// gives back the registry as it was.
pub proof fn lemma_register_then_unregister(s: RegistryView, info: ConnectionView)
    requires
        !s.connections.contains_key(info.connection_id),
        info.subscribed_items.len() == 0,
    ensures
        s.register(info).unregister(info.connection_id) == s,
{
    assert(info.subscribed_items.to_set() =~= Set::<u128>::empty());
    assert(s.register(info).unregister(info.connection_id).connections =~= s.connections);
    assert(s.register(info).unregister(info.connection_id).subscriptions =~= s.subscriptions);
}

/// Instances of `consistent` for one item and one connection.
proof fn lemma_consistent_at(s: RegistryView, item: u128, cid: u128)
    requires
        s.consistent(),
    ensures
        s.subscribers(item).contains(cid) ==> s.connections.contains_key(cid),
        s.connections.contains_key(cid) ==> (s.subscribers(item).contains(cid)
            <==> s.connections[cid].subscribed_items.contains(item)),
        s.subscriptions.contains_key(item) ==> s.subscriptions[item].len() > 0,
{
    assert(s.subscribers(item).contains(cid) ==> s.connections.contains_key(cid));
    if s.connections.contains_key(cid) {
        let c = s.connections[cid];
        assert(s.subscribers(item).contains(cid) <==> c.subscribed_items.contains(item));
    }
    if s.subscriptions.contains_key(item) {
        assert(s.subscriptions[item].len() > 0);
    }
}

/// Registering a new connection that follows nothing keeps the registry
/// consistent.
pub proof fn lemma_register_keeps_consistency(s: RegistryView, info: ConnectionView)
    requires
        s.consistent(),
        !s.connections.contains_key(info.connection_id),
        info.subscribed_items.len() == 0,
    ensures
        s.register(info).consistent(),
{
    let t = s.register(info);
    assert forall|i: u128, d: u128| #[trigger] t.subscribers(i).contains(d) implies t.connections.contains_key(
        d,
    ) by {
        lemma_consistent_at(s, i, d);
    }
    assert forall|i: u128, d: u128| t.connections.contains_key(d) implies (
    #[trigger] t.subscribers(i).contains(d) <==> t.connections[d].subscribed_items.contains(
        i,
    )) by {
        lemma_consistent_at(s, i, d);
    }
}

/// Subscribing a registered connection keeps the registry consistent.
pub proof fn lemma_subscribe_keeps_consistency(s: RegistryView, cid: u128, item: u128)
    requires
        s.consistent(),
        s.connections.contains_key(cid),
    ensures
        s.subscribe(cid, item).consistent(),
{
    let t = s.subscribe(cid, item);
    let c = s.connections[cid];
    assert forall|i: u128| #[trigger] t.subscriptions.contains_key(i) implies t.subscriptions[i].len()
        > 0 by {
        lemma_consistent_at(s, i, cid);
    }
    assert forall|i: u128, d: u128| #[trigger] t.subscribers(i).contains(d) implies t.connections.contains_key(
        d,
    ) by {
        lemma_consistent_at(s, i, d);
        if i == item {
            lemma_push_contains(s.subscribers(item), cid, d);
        }
    }
    assert forall|i: u128, d: u128| t.connections.contains_key(d) implies (
    #[trigger] t.subscribers(i).contains(d) <==> t.connections[d].subscribed_items.contains(
        i,
    )) by {
        lemma_consistent_at(s, i, d);
        if i == item {
            lemma_push_contains(s.subscribers(item), cid, d);
        }
        if d == cid {
            lemma_push_contains(c.subscribed_items, item, i);
        }
    }
}

/// Unsubscribing keeps the registry consistent.
pub proof fn lemma_unsubscribe_keeps_consistency(s: RegistryView, cid: u128, item: u128)
    requires
        s.consistent(),
    ensures
        s.unsubscribe(cid, item).consistent(),
{
    let t = s.unsubscribe(cid, item);
    assert(t.subscriptions.dom().subset_of(s.subscriptions.dom()));
    assert(t.subscriptions.dom().finite()) by {
        vstd::set_lib::lemma_len_subset(t.subscriptions.dom(), s.subscriptions.dom());
    }
    assert forall|i: u128| #[trigger] t.subscriptions.contains_key(i) implies t.subscriptions[i].len()
        > 0 by {
        lemma_consistent_at(s, i, cid);
    }
    assert forall|i: u128, d: u128| #[trigger] t.subscribers(i).contains(d) implies t.connections.contains_key(
        d,
    ) by {
        lemma_consistent_at(s, i, d);
        if i == item && s.subscriptions.contains_key(item) {
            lemma_without_contains(s.subscriptions[item], cid, d);
        }
    }
    assert forall|i: u128, d: u128| t.connections.contains_key(d) implies (
    #[trigger] t.subscribers(i).contains(d) <==> t.connections[d].subscribed_items.contains(
        i,
    )) by {
        lemma_consistent_at(s, i, d);
        if i == item && s.subscriptions.contains_key(item) {
            lemma_without_contains(s.subscriptions[item], cid, d);
            if !t.subscriptions.contains_key(item) && without(s.subscriptions[item], cid).contains(d) {
                assert(without(s.subscriptions[item], cid).len() > 0);
            }
        }
        if d == cid {
            lemma_without_contains(s.connections[cid].subscribed_items, item, i);
        }
    }
}

/// Unregistering keeps the registry consistent, and the connection is gone
/// from every item's list.
pub proof fn lemma_unregister_keeps_consistency(s: RegistryView, cid: u128)
    requires
        s.consistent(),
    ensures
        s.unregister(cid).consistent(),
        !s.unregister(cid).connections.contains_key(cid),
        forall|item: u128| !(#[trigger] s.unregister(cid).subscribers(item)).contains(cid),
{
    if s.connections.contains_key(cid) {
        let t = s.unregister(cid);
        let items = s.connections[cid].subscribed_items.to_set();
        assert(t.subscriptions.dom().subset_of(s.subscriptions.dom()));
        assert(t.subscriptions.dom().finite()) by {
            vstd::set_lib::lemma_len_subset(t.subscriptions.dom(), s.subscriptions.dom());
        }
        assert forall|i: u128| #[trigger] t.subscriptions.contains_key(i) implies t.subscriptions[i].len()
            > 0 by {
            lemma_consistent_at(s, i, cid);
        }
        assert forall|i: u128, d: u128| #[trigger] t.subscribers(i).contains(d) implies (
        t.connections.contains_key(d)) by {
            lemma_consistent_at(s, i, d);
            lemma_consistent_at(s, i, cid);
            if t.subscriptions.contains_key(i) && items.contains(i) {
                lemma_without_contains(s.subscriptions[i], cid, d);
            }
        }
        assert forall|i: u128, d: u128| t.connections.contains_key(d) implies (
        #[trigger] t.subscribers(i).contains(d) <==> t.connections[d].subscribed_items.contains(
            i,
        )) by {
            lemma_consistent_at(s, i, d);
            if s.subscriptions.contains_key(i) && items.contains(i) {
                lemma_without_contains(s.subscriptions[i], cid, d);
                if !t.subscriptions.contains_key(i) && without(s.subscriptions[i], cid).contains(d) {
                    assert(without(s.subscriptions[i], cid).len() > 0);
                }
            }
        }
        assert forall|item: u128| !(#[trigger] t.subscribers(item)).contains(cid) by {
            lemma_consistent_at(s, item, cid);
            if t.subscriptions.contains_key(item) && items.contains(item) {
                lemma_without_contains(s.subscriptions[item], cid, cid);
            }
        }
    } else {
        assert forall|item: u128| !(#[trigger] s.subscribers(item)).contains(cid) by {
            lemma_consistent_at(s, item, cid);
        }
    }
}

impl Default for WebSocketService {
    /// An empty registry.
    fn default() -> (s: Self)
        ensures
            s@.connections == Map::<u128, ConnectionView>::empty(),
            s@.subscriptions == Map::<u128, Seq<u128>>::empty(),
    {
        Self::new()
    }
}

/// What a client asks over its socket.
#[derive(Debug, Clone, Copy, PartialEq, Eq, Structural)]
pub enum WebSocketRequest {
    Subscribe { item_id: u128 },
    Unsubscribe { item_id: u128 },
    Ping,
}

/// What the server answers on the socket.
#[derive(Debug, Clone, PartialEq, Eq)]
pub enum WebSocketResponse {
    Subscribed { item_id: u128 },
    Unsubscribed { item_id: u128 },
    Error { message: String },
    Pong,
}

impl WebSocketService {
    /// Serves a request from connection `connection_id`: a subscription is
    /// confirmed, or refused for an unknown connection; an unsubscription is
    /// confirmed; a ping is answered with a pong.
    pub fn handle_websocket_request(&mut self, connection_id: u128, request: WebSocketRequest) -> (r:
        WebSocketResponse)
        ensures
            match request {
                WebSocketRequest::Subscribe { item_id } => if old(
                    self,
                )@.connections.contains_key(connection_id) {
                    r == WebSocketResponse::Subscribed { item_id } && final(self)@ == old(
                        self,
                    )@.subscribe(connection_id, item_id)
                } else {
                    r matches WebSocketResponse::Error { message } && message@
                        == "Failed to subscribe: ConnectionNotFound"@ && final(self)@ == old(self)@
                },
                WebSocketRequest::Unsubscribe { item_id } => r == WebSocketResponse::Unsubscribed {
                    item_id,
                } && final(self)@ == old(self)@.unsubscribe(connection_id, item_id),
                WebSocketRequest::Ping => r == WebSocketResponse::Pong && final(self)@ == old(
                    self,
                )@,
            },
            old(self)@.consistent() ==> final(self)@.consistent(),
    {
        match request {
            WebSocketRequest::Subscribe { item_id } => {
                match self.subscribe_to_item(connection_id, item_id) {
                    Ok(()) => WebSocketResponse::Subscribed { item_id },
                    Err(_) => WebSocketResponse::Error {
                        message: "Failed to subscribe: ConnectionNotFound".to_string(),
                    },
                }
            },
            WebSocketRequest::Unsubscribe { item_id } => {
                let _ = self.unsubscribe_from_item(connection_id, item_id);
                WebSocketResponse::Unsubscribed { item_id }
            },
            WebSocketRequest::Ping => WebSocketResponse::Pong,
        }
    }
}

/// Whether a connection of `actor_user_id` passes on an event: a
/// notification for `user_id` reaches only that user's connections; any
/// other event (`notification_for` is `None`) reaches every connection.
pub fn delivers_event(actor_user_id: Option<u128>, notification_for: Option<u128>) -> (r: bool)
    ensures
        r == match notification_for {
            Some(target) => actor_user_id == Some(target),
            None => true,
        },
{
    match notification_for {
        Some(target) => match actor_user_id {
            Some(actor) => actor == target,
            None => false,
        },
        None => true,
    }
}

} // verus!
