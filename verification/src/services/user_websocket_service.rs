//! Subscriptions of connections to the events of one user, and the checks on
//! a subscription request.
use crate::text::str_eq;
use std::collections::HashMap;
use vstd::prelude::*;

verus! {

broadcast use vstd::std_specs::hash::group_hash_axioms;

/// A connection following a user's events of the given types.
#[derive(Debug, Clone)]
pub struct UserSubscription {
    pub user_id: u128,
    pub connection_id: u128,
    pub event_types: Vec<String>,
}

/// A subscription as plain values: user, connection and event types.
pub type SubscriptionView = (u128, u128, Seq<Seq<char>>);

impl View for UserSubscription {
    type V = SubscriptionView;

    open spec fn view(&self) -> SubscriptionView {
        (self.user_id, self.connection_id, self.event_types@.map_values(|t: String| t@))
    }
}

/// The subscriptions of a list, as plain values.
pub open spec fn subscription_views(v: Seq<UserSubscription>) -> Seq<SubscriptionView> {
    v.map_values(|s: UserSubscription| s@)
}

/// The subscriptions to each user's events, by user, each list in the order
/// the subscriptions were made.
pub struct UserWebSocketService {
    user_subscriptions: HashMap<u128, Vec<UserSubscription>>,
}

/// A subscription made by another connection than `connection_id`.
pub open spec fn not_of_connection(connection_id: u128) -> spec_fn(SubscriptionView) -> bool {
    |s: SubscriptionView| s.1 != connection_id
}

/// The subscriptions to the events of `user_id`, or none.
pub open spec fn subscriptions_of(m: Map<u128, Seq<SubscriptionView>>, user_id: u128) -> Seq<
    SubscriptionView,
> {
    if m.contains_key(user_id) {
        m[user_id]
    } else {
        Seq::empty()
    }
}

/// The number of subscriptions to the events of `user_id`.
pub open spec fn count_for(m: Map<u128, Seq<SubscriptionView>>, user_id: u128) -> nat {
    subscriptions_of(m, user_id).len()
}

/// `m` with the subscription `s` added to the events of `user_id`.
pub open spec fn with_subscription(
    m: Map<u128, Seq<SubscriptionView>>,
    user_id: u128,
    s: SubscriptionView,
) -> Map<u128, Seq<SubscriptionView>> {
    m.insert(user_id, subscriptions_of(m, user_id).push(s))
}

/// `m` after the users in `done` lost the subscriptions of `connection_id`:
/// their lists that become empty are dropped.
pub open spec fn drop_connection_from(
    m: Map<u128, Seq<SubscriptionView>>,
    done: Set<u128>,
    connection_id: u128,
) -> Map<u128, Seq<SubscriptionView>> {
    Map::new(
        |u: u128|
            m.contains_key(u) && (!done.contains(u) || m[u].filter(
                not_of_connection(connection_id),
            ).len() > 0),
        |u: u128|
            if done.contains(u) {
                m[u].filter(not_of_connection(connection_id))
            } else {
                m[u]
            },
    )
}

/// `m` without the subscriptions of `connection_id`: every list loses them,
/// and lists that become empty are dropped.
pub open spec fn without_connection(m: Map<u128, Seq<SubscriptionView>>, connection_id: u128) -> Map<
    u128,
    Seq<SubscriptionView>,
> {
    drop_connection_from(m, m.dom(), connection_id)
}

/// No user keeps an empty list of subscriptions.
pub open spec fn no_empty_lists(m: Map<u128, Seq<SubscriptionView>>) -> bool {
    forall|u: u128| #[trigger] m.contains_key(u) ==> m[u].len() > 0
}

impl View for UserWebSocketService {
    type V = Map<u128, Seq<SubscriptionView>>;

    closed spec fn view(&self) -> Map<u128, Seq<SubscriptionView>> {
        self.user_subscriptions@.map_values(|v: Vec<UserSubscription>| subscription_views(v@))
    }
}

/// The subscriptions of `v` that `connection_id` did not make, in order.
fn keep_other_connections(v: Vec<UserSubscription>, connection_id: u128) -> (r: Vec<
    UserSubscription,
>)
    ensures
        subscription_views(r@) == subscription_views(v@).filter(not_of_connection(connection_id)),
{
    let ghost all = v@;
    let total = v.len();
    assert(all.len() == total);
    let mut rest = v;
    let mut kept: Vec<UserSubscription> = Vec::new();
    let mut k: usize = 0;
    assert(rest@ =~= all.skip(0));
    assert(subscription_views(all.take(0)) =~= Seq::<SubscriptionView>::empty());
    while rest.len() > 0
        invariant
            all.len() <= usize::MAX,
            k <= all.len(),
            rest@ == all.skip(k as int),
            rest.len() + k == all.len(),
            subscription_views(kept@) == subscription_views(all.take(k as int)).filter(
                not_of_connection(connection_id),
            ),
        decreases rest.len(),
    {
        let x = rest.remove(0);
        proof {
            let f = not_of_connection(connection_id);
            let m = subscription_views(all.take(k as int));
            assert(x == all[k as int]);
            assert(subscription_views(all.take(k + 1)) =~= m.push(x@));
            m.lemma_filter_push(x@, f);
            assert(rest@ =~= all.skip(k + 1));
        }
        if x.connection_id != connection_id {
            let ghost kv = kept@;
            kept.push(x);
            assert(subscription_views(kept@) =~= subscription_views(kv).push(x@));
        }
        k = k + 1;
    }
    assert(all.take(k as int) =~= all);
    kept
}

impl UserWebSocketService {
    /// A service with no subscriptions. No operation leaves a user with an
    /// empty list of subscriptions.
    pub fn new() -> (s: Self)
        ensures
            s@ == Map::<u128, Seq<SubscriptionView>>::empty(),
            no_empty_lists(s@),
    {
        let s = UserWebSocketService { user_subscriptions: HashMap::new() };
        assert(s@ =~= Map::<u128, Seq<SubscriptionView>>::empty());
        s
    }

    /// Connection `connection_id` follows the events of `user_id` of the
    /// given types: the subscription joins the end of that user's list.
    pub fn subscribe_to_user_events(
        &mut self,
        user_id: u128,
        connection_id: u128,
        event_types: Vec<String>,
    ) -> (r: Result<(), UserWebSocketError>)
        ensures
            r is Ok,
            final(self)@ == with_subscription(
                old(self)@,
                user_id,
                (user_id, connection_id, event_types@.map_values(|t: String| t@)),
            ),
            no_empty_lists(old(self)@) ==> no_empty_lists(final(self)@),
    {
        let subscription = UserSubscription { user_id, connection_id, event_types };
        let ghost sv = subscription@;
        let taken = self.user_subscriptions.remove(&user_id);
        let mut list = match taken {
            Some(v) => v,
            None => Vec::new(),
        };
        let ghost before = list@;
        list.push(subscription);
        proof {
            assert(subscription_views(list@) =~= subscription_views(before).push(sv));
            if !old(self)@.contains_key(user_id) {
                assert(subscription_views(before) =~= Seq::<SubscriptionView>::empty());
            }
        }
        self.user_subscriptions.insert(user_id, list);
        assert(self@ =~= with_subscription(old(self)@, user_id, sv));
        Ok(())
    }

    /// Connection `connection_id` stops following every user: each user's
    /// list loses its subscriptions, and lists that become empty go.
    pub fn unsubscribe_user_connection(&mut self, connection_id: u128) -> (r: Result<
        (),
        UserWebSocketError,
    >)
        ensures
            r is Ok,
            final(self)@ == without_connection(old(self)@, connection_id),
            no_empty_lists(final(self)@),
    {
        let ghost m = self@;
        assert(m.dom() =~= self.user_subscriptions@.dom());
        let mut keys: Vec<u128> = Vec::new();
        for k in it: self.user_subscriptions.keys()
            invariant
                m == self@,
                m.dom() == self.user_subscriptions@.dom(),
                it.seq().no_duplicates(),
                it.seq().unref().to_set() == self.user_subscriptions@.dom(),
                keys@ == it.seq().unref().take(it.index() as int),
                it.index() == it.seq().len() ==> keys@ == it.seq().unref(),
        {
            keys.push(*k);
        }
        proof {
            assert(keys@.to_set() == m.dom());
            assert(keys@.no_duplicates());
        }
        let mut i: usize = 0;
        assert(keys@.take(0).to_set() =~= Set::<u128>::empty());
        assert(drop_connection_from(m, Set::<u128>::empty(), connection_id) =~= m);
        while i < keys.len()
            invariant
                i <= keys.len(),
                keys@.no_duplicates(),
                keys@.to_set() == m.dom(),
                self@ == drop_connection_from(m, keys@.take(i as int).to_set(), connection_id),
            decreases keys.len() - i,
        {
            let k = keys[i];
            let ghost done = keys@.take(i as int).to_set();
            let ghost before = self@;
            proof {
                assert(keys@.to_set().contains(k));
                assert(!done.contains(k)) by {
                    if done.contains(k) {
                        let j = choose|j: int| 0 <= j < i && keys@.take(i as int)[j] == k;
                        assert(keys@[j] == keys@[i as int]);
                    }
                }
                assert(keys@.take(i + 1) =~= keys@.take(i as int).push(k));
                keys@.take(i as int).lemma_push_to_set_commute(k);
            }
            let ghost hm = self.user_subscriptions@;
            proof {
                assert(before.contains_key(k));
                assert(before[k] == subscription_views(hm[k]@));
                assert(before[k] == m[k]);
            }
            let taken = self.user_subscriptions.remove(&k);
            match taken {
                Some(v) => {
                    assert(subscription_views(v@) == m[k]);
                    let kept = keep_other_connections(v, connection_id);
                    let ghost target = drop_connection_from(m, done.insert(k), connection_id);
                    let ghost kv = subscription_views(kept@);
                    if kept.len() > 0 {
                        self.user_subscriptions.insert(k, kept);
                        proof {
                            let hm2 = self.user_subscriptions@;
                            assert forall|u: u128| #[trigger] target.contains_key(u) <==> hm2.contains_key(u) by {
                                if u != k {
                                    assert(before.contains_key(u) <==> hm.contains_key(u));
                                }
                            }
                            assert(self@.dom() =~= target.dom());
                            assert forall|u: u128| #[trigger] self@.contains_key(u) implies self@[u] == target[u] by {
                                if u != k {
                                    assert(before.contains_key(u));
                                    assert(hm2[u] == hm[u]);
                                    assert(self@[u] == before[u]);
                                }
                            }
                            assert(self@ =~= target);
                        }
                    } else {
                        proof {
                            let hm2 = self.user_subscriptions@;
                            assert(kv.len() == 0);
                            assert forall|u: u128| #[trigger] target.contains_key(u) <==> hm2.contains_key(u) by {
                                if u != k {
                                    assert(before.contains_key(u) <==> hm.contains_key(u));
                                }
                            }
                            assert(self@.dom() =~= target.dom());
                            assert forall|u: u128| #[trigger] self@.contains_key(u) implies self@[u] == target[u] by {
                                assert(u != k);
                                assert(before.contains_key(u));
                                assert(hm2[u] == hm[u]);
                                assert(self@[u] == before[u]);
                            }
                            assert(self@ =~= target);
                        }
                    }
                },
                None => {
                    assert(false);
                },
            }
            i = i + 1;
        }
        proof {
            assert(keys@.take(keys@.len() as int) =~= keys@);
        }
        Ok(())
    }

    /// Number of subscriptions to the events of `user_id`.
    pub fn user_subscriber_count(&self, user_id: u128) -> (n: usize)
        ensures
            n == count_for(self@, user_id),
    {
        match self.user_subscriptions.get(&user_id) {
            Some(v) => v.len(),
            None => 0,
        }
    }
}

/// A new subscription to the events of `user_id` adds one to that user's
/// count and leaves every other user's count as it was.
pub proof fn lemma_subscribe_counts(
    m: Map<u128, Seq<SubscriptionView>>,
    user_id: u128,
    s: SubscriptionView,
    other: u128,
)
    ensures
        count_for(with_subscription(m, user_id, s), user_id) == count_for(m, user_id) + 1,
        other != user_id ==> count_for(with_subscription(m, user_id, s), other) == count_for(m, other),
{
}

/// After a connection unsubscribes, none of its subscriptions remain, and
/// every other connection's subscriptions to each user are kept in order.
pub proof fn lemma_unsubscribe_removes_connection(
    m: Map<u128, Seq<SubscriptionView>>,
    connection_id: u128,
    user_id: u128,
)
    ensures
        forall|i: int|
            0 <= i < subscriptions_of(without_connection(m, connection_id), user_id).len() ==> (
            #[trigger] subscriptions_of(without_connection(m, connection_id), user_id)[i]).1
                != connection_id,
        subscriptions_of(without_connection(m, connection_id), user_id) == subscriptions_of(
            m,
            user_id,
        ).filter(not_of_connection(connection_id)),
{
    let f = not_of_connection(connection_id);
    let t = without_connection(m, connection_id);
    if m.contains_key(user_id) {
        m[user_id].filter_lemma(f);
        if !t.contains_key(user_id) {
            assert(m[user_id].filter(f) =~= Seq::<SubscriptionView>::empty());
        }
    } else {
        assert(Seq::<SubscriptionView>::empty().filter(f) =~= Seq::<SubscriptionView>::empty());
    }
    subscriptions_of(m, user_id).filter_lemma(f);
}

/// Subscribing a new connection and unsubscribing it again gives back the
/// subscriptions there were, where no user kept an empty list.
pub proof fn lemma_subscribe_then_unsubscribe(
    m: Map<u128, Seq<SubscriptionView>>,
    user_id: u128,
    s: SubscriptionView,
)
    requires
        no_empty_lists(m),
        forall|u: u128, i: int|
            m.contains_key(u) && 0 <= i < m[u].len() ==> (#[trigger] m[u][i]).1 != s.1,
    ensures
        without_connection(with_subscription(m, user_id, s), s.1) == m,
{
    let f = not_of_connection(s.1);
    let t = with_subscription(m, user_id, s);
    let r = without_connection(t, s.1);
    assert forall|u: u128| #[trigger] m.contains_key(u) implies m[u].filter(f) == m[u] by {
        lemma_filter_keeps_all(m[u], f);
    }
    subscriptions_of(m, user_id).lemma_filter_push(s, f);
    if m.contains_key(user_id) {
        lemma_filter_keeps_all(m[user_id], f);
    } else {
        assert(Seq::<SubscriptionView>::empty().filter(f) =~= Seq::<SubscriptionView>::empty());
    }
    assert(r =~= m);
}

proof fn lemma_filter_keeps_all(subs: Seq<SubscriptionView>, f: spec_fn(SubscriptionView) -> bool)
    requires
        forall|i: int| 0 <= i < subs.len() ==> f(#[trigger] subs[i]),
    ensures
        subs.filter(f) == subs,
    decreases subs.len(),
{
    if subs.len() > 0 {
        lemma_filter_keeps_all(subs.drop_last(), f);
        subs.drop_last().lemma_filter_push(subs.last(), f);
        assert(subs.drop_last().push(subs.last()) =~= subs);
    } else {
        assert(subs.filter(f) =~= subs);
    }
}

/// Why a user event request failed.
#[derive(Debug, Clone, Copy, PartialEq, Eq, Structural)]
pub enum UserWebSocketError {
    UserNotFound,
    AuthenticationError,
    Forbidden,
    ServiceError,
    ValidationError,
}

impl UserWebSocketError {
    /// The HTTP status and message of the error.
    pub fn reply(&self) -> (r: (u16, &'static str))
        ensures
            match *self {
                UserWebSocketError::UserNotFound => r.0 == 404 && r.1@ == "User not found"@,
                UserWebSocketError::AuthenticationError => r.0 == 401 && r.1@
                    == "Authentication required"@,
                UserWebSocketError::Forbidden => r.0 == 403 && r.1@ == "Access denied"@,
                UserWebSocketError::ServiceError => r.0 == 500 && r.1@
                    == "WebSocket service error"@,
                UserWebSocketError::ValidationError => r.0 == 400 && r.1@
                    == "Invalid subscription request"@,
            },
    {
        match self {
            UserWebSocketError::UserNotFound => (404, "User not found"),
            UserWebSocketError::AuthenticationError => (401, "Authentication required"),
            UserWebSocketError::Forbidden => (403, "Access denied"),
            UserWebSocketError::ServiceError => (500, "WebSocket service error"),
            UserWebSocketError::ValidationError => (400, "Invalid subscription request"),
        }
    }
}

impl UserWebSocketService {
    /// The number of subscriptions to the events of `user_id`, for an
    /// administrator only.
    pub fn get_user_websocket_stats(&self, role: &str, user_id: u128) -> (r: Result<
        usize,
        UserWebSocketError,
    >)
        ensures
            match r {
                Ok(n) => role@ == "admin"@ && n == count_for(self@, user_id),
                Err(e) => role@ != "admin"@ && e == UserWebSocketError::Forbidden,
            },
    {
        if !str_eq(role, "admin") {
            return Err(UserWebSocketError::Forbidden);
        }
        Ok(self.user_subscriber_count(user_id))
    }
}

/// The event types a user may follow.
pub open spec fn is_known_event_type(t: Seq<char>) -> bool {
    t == "listings"@ || t == "bids"@
}

/// Checks a subscription request of `requesting_user_id` (with `role`) for
/// the events of `target_user_id`: only the user or an administrator may
/// follow them, and only the types `listings` and `bids`.
pub fn check_user_subscription(
    requesting_user_id: u128,
    target_user_id: u128,
    role: &str,
    event_types: &Vec<String>,
) -> (r: Result<(), UserWebSocketError>)
    ensures
        match r {
            Ok(()) => (requesting_user_id == target_user_id || role@ == "admin"@) && forall|i: int|
                0 <= i < event_types@.len() ==> is_known_event_type((#[trigger] event_types@[i])@),
            Err(e) => if requesting_user_id != target_user_id && role@ != "admin"@ {
                e == UserWebSocketError::Forbidden
            } else {
                e == UserWebSocketError::ValidationError && exists|i: int|
                    0 <= i < event_types@.len() && !is_known_event_type(
                        (#[trigger] event_types@[i])@,
                    )
            },
        },
{
    if requesting_user_id != target_user_id && !str_eq(role, "admin") {
        return Err(UserWebSocketError::Forbidden);
    }
    let mut i: usize = 0;
    while i < event_types.len()
        invariant
            i <= event_types.len(),
            requesting_user_id == target_user_id || role@ == "admin"@,
            forall|j: int| 0 <= j < i ==> is_known_event_type((#[trigger] event_types@[j])@),
        decreases event_types.len() - i,
    {
        let t = event_types[i].as_str();
        if !str_eq(t, "listings") && !str_eq(t, "bids") {
            assert(!is_known_event_type(event_types@[i as int]@));
            return Err(UserWebSocketError::ValidationError);
        }
        i = i + 1;
    }
    Ok(())
}

/// A request to follow a user's events.
#[derive(Debug, Clone)]
pub struct UserSubscriptionRequest {
    pub event_types: Vec<String>,
}


/// A user may follow their listings and their bids: a request whose types
/// are each `listings` or `bids` names only known types.
pub proof fn lemma_listings_and_bids_may_be_followed(types: Seq<Seq<char>>)
    requires
        forall|i: int| 0 <= i < types.len() ==> #[trigger] types[i] == "listings"@ || types[i] == "bids"@,
    ensures
        forall|i: int| 0 <= i < types.len() ==> is_known_event_type(#[trigger] types[i]),
        is_known_event_type("listings"@),
        is_known_event_type("bids"@),
{
}

/// Any other event type is refused.
pub proof fn lemma_other_event_types_refused(t: Seq<char>)
    requires
        t != "listings"@,
        t != "bids"@,
    ensures
        !is_known_event_type(t),
{
}

} // verus!
