use vstd::prelude::*;

verus! {

use vstd::seq_lib::*;
use crate::errors::RTDError;
use crate::types::td_type::TdType;

/// The request/response observer.
///
/// Requests submitted to the transport are tagged with a fresh
/// correlation identifier; the matching response echoes the identifier
/// back in its `extra` field. The observer keeps, per identifier, a
/// one-shot delivery slot: `register` opens the slot, `notify` fills
/// it when the matching event arrives (consuming the event), `take`
/// hands the delivered event to the waiter and closes the slot, and
/// `unregister` abandons a slot whose waiter gave up.
///
/// The observer is owned by the session that created it and shared by
/// its receive loop and its request issuers; nothing here is
/// process-wide state.
pub struct Observer {
    /// Correlation identifiers with a registered, still-unfulfilled
    /// waiter.
    pub pending: Vec<String>,
    /// Fulfilled deliveries not yet collected by their waiter, oldest
    /// first.
    pub delivered: Vec<(String, TdType)>,
}

/// The observer state as mathematical sequences.
#[verifier::ext_equal]
pub struct ObserverModel {
    pub pending: Seq<Seq<char>>,
    pub delivered: Seq<(Seq<char>, TdType)>,
}

impl View for Observer {
    type V = ObserverModel;

    open spec fn view(&self) -> ObserverModel {
        ObserverModel {
            pending: self.pending@.map_values(|s: String| s@),
            delivered: self.delivered@.map_values(|p: (String, TdType)| (p.0@, p.1)),
        }
    }
}

impl ObserverModel {
    /// At most one pending waiter per correlation identifier.
    pub open spec fn wf(self) -> bool {
        forall|i: int, j: int|
            0 <= i < j < self.pending.len() ==> self.pending[i] != self.pending[j]
    }

    /// The identifiers of the deliveries awaiting collection.
    pub open spec fn delivered_keys(self) -> Seq<Seq<char>> {
        self.delivered.map_values(|p: (Seq<char>, TdType)| p.0)
    }
}

/// A waiter for `id` may be registered exactly when none is pending.
pub open spec fn can_register(m: ObserverModel, id: Seq<char>) -> bool {
    !m.pending.contains(id)
}

/// The state after registering a waiter for `id`.
pub open spec fn register_model(m: ObserverModel, id: Seq<char>) -> ObserverModel {
    ObserverModel { pending: m.pending.push(id), delivered: m.delivered }
}

/// `notify` consumes an event exactly when the event carries a
/// correlation identifier for which a waiter is pending.
pub open spec fn consumes(m: ObserverModel, event: TdType) -> bool {
    match event.spec_extra() {
        Some(id) => m.pending.contains(id),
        None => false,
    }
}

/// The state after handing `event` to `notify`: a consumed event moves
/// its waiter from pending to delivered; any other event leaves the
/// observer unchanged.
pub open spec fn notify_model(m: ObserverModel, event: TdType) -> ObserverModel {
    if consumes(m, event) {
        let id = event.spec_extra()->0;
        ObserverModel {
            pending: m.pending.remove_value(id),
            delivered: m.delivered.push((id, event)),
        }
    } else {
        m
    }
}

/// The state after the waiter for `id` collects its delivery, with the
/// event it receives: the oldest delivery for `id`, if there is one.
pub open spec fn take_model(m: ObserverModel, id: Seq<char>) -> (ObserverModel, Option<
    TdType,
>) {
    match m.delivered_keys().index_of_first(id) {
        Some(i) => (
            ObserverModel { pending: m.pending, delivered: m.delivered.remove(i) },
            Some(m.delivered[i].1),
        ),
        None => (m, None),
    }
}

/// The state after abandoning the waiter for `id`, if any.
pub open spec fn unregister_model(m: ObserverModel, id: Seq<char>) -> ObserverModel {
    ObserverModel { pending: m.pending.remove_value(id), delivered: m.delivered }
}

impl Observer {
    /// A fresh observer with no waiters and no deliveries.
    pub fn new() -> (r: Observer)
        ensures
            r@.pending == Seq::<Seq<char>>::empty(),
            r@.delivered == Seq::<(Seq<char>, TdType)>::empty(),
            r@.wf(),
    {
        let r = Observer { pending: Vec::new(), delivered: Vec::new() };
        proof {
            assert(r@.pending =~= Seq::<Seq<char>>::empty());
            assert(r@.delivered =~= Seq::<(Seq<char>, TdType)>::empty());
        }
        r
    }

    /// The position of the pending waiter for `id`, if one exists.
    fn find_pending(&self, id: &String) -> (r: Option<usize>)
        ensures
            match r {
                Some(i) => i < self@.pending.len() && self@.pending[i as int] == id@
                    && forall|j: int| 0 <= j < i ==> self@.pending[j] != id@,
                None => !self@.pending.contains(id@),
            },
    {
        let mut i: usize = 0;
        while i < self.pending.len()
            invariant
                i <= self.pending.len(),
                forall|j: int| 0 <= j < i ==> self@.pending[j] != id@,
            decreases self.pending.len() - i,
        {
            if self.pending[i] == *id {
                return Some(i);
            }
            i += 1;
        }
        None
    }

    /// Opens a one-shot delivery slot for `id`. Fails with
    /// `DuplicateRegistration`, leaving the observer unchanged, exactly
    /// when a waiter for `id` is already pending: reusing an identifier
    /// still in flight is a caller bug.
    pub fn register(&mut self, id: &String) -> (r: Result<(), RTDError>)
        requires
            old(self)@.wf(),
        ensures
            final(self)@.wf(),
            if can_register(old(self)@, id@) {
                r == Ok::<(), RTDError>(()) && final(self)@ == register_model(old(self)@, id@)
            } else {
                r == Err::<(), RTDError>(RTDError::DuplicateRegistration) && final(self)@ == old(
                    self,
                )@
            },
    {
        match self.find_pending(id) {
            Some(_) => Err(RTDError::DuplicateRegistration),
            None => {
                self.pending.push(id.clone());
                proof {
                    assert(self@.pending =~= old(self)@.pending.push(id@));
                    assert(self@ == register_model(old(self)@, id@));
                }
                Ok(())
            },
        }
    }

    /// Routes one decoded event. If the event carries a correlation
    /// identifier with a pending waiter, the event is delivered to that
    /// waiter and `None` is returned: the event is consumed. Otherwise
    /// the event is handed back unchanged for the caller to route
    /// elsewhere.
    pub fn notify(&mut self, event: TdType) -> (r: Option<TdType>)
        requires
            old(self)@.wf(),
        ensures
            final(self)@.wf(),
            final(self)@ == notify_model(old(self)@, event),
            r == (if consumes(old(self)@, event) {
                Option::<TdType>::None
            } else {
                Option::<TdType>::Some(event)
            }),
    {
        let key: Option<String> = match event.extra() {
            Some(s) => Some(s.clone()),
            None => None,
        };
        match key {
            None => Some(event),
            Some(k) => {
                match self.find_pending(&k) {
                    None => Some(event),
                    Some(i) => {
                        let ghost m0 = self@;
                        let ghost id = k@;
                        self.pending.remove(i);
                        self.delivered.push((k, event));
                        proof {
                            assert(m0.pending.contains(id)) by {
                                assert(m0.pending[i as int] == id);
                            }
                            m0.pending.index_of_first_ensures(id);
                            let fi: int = m0.pending.index_of_first(id)->0;
                            assert(m0.pending[fi] == id);
                            assert(fi == i) by {
                                if fi < i {
                                    assert(m0.pending[fi] != id);
                                } else if i < fi {
                                    assert(m0.pending[i as int] != id);
                                }
                            }
                            assert(self@.pending =~= m0.pending.remove(i as int));
                            assert(self@.delivered =~= m0.delivered.push((id, event)));
                            assert(self@ == notify_model(m0, event));
                            assert(self@.wf()) by {
                                m0.pending.remove_ensures(i as int);
                            }
                        }
                        None
                    },
                }
            },
        }
    }

    /// Hands the oldest delivery for `id` to its waiter, removing it.
    /// Returns `None` when nothing has been delivered for `id`.
    pub fn take(&mut self, id: &String) -> (r: Option<TdType>)
        requires
            old(self)@.wf(),
        ensures
            final(self)@.wf(),
            (final(self)@, r) == take_model(old(self)@, id@),
    {
        let ghost m0 = self@;
        let mut i: usize = 0;
        while i < self.delivered.len()
            invariant
                m0 == old(self)@,
                m0.wf(),
                self@ == m0,
                i <= self.delivered.len(),
                forall|j: int| 0 <= j < i ==> m0.delivered_keys()[j] != id@,
            decreases self.delivered.len() - i,
        {
            if self.delivered[i].0 == *id {
                let (_, ev) = self.delivered.remove(i);
                proof {
                    assert(m0.delivered_keys().contains(id@)) by {
                        assert(m0.delivered_keys()[i as int] == id@);
                    }
                    m0.delivered_keys().index_of_first_ensures(id@);
                    let fi: int = m0.delivered_keys().index_of_first(id@)->0;
                    assert(fi == i) by {
                        if fi < i {
                            assert(m0.delivered_keys()[fi] != id@);
                        } else if i < fi {
                            assert(m0.delivered_keys()[i as int] != id@);
                        }
                    }
                    assert(self@.delivered =~= m0.delivered.remove(i as int));
                    assert(self@.pending =~= m0.pending);
                }
                return Some(ev);
            }
            i += 1;
        }
        proof {
            assert(!m0.delivered_keys().contains(id@));
            m0.delivered_keys().index_of_first_ensures(id@);
        }
        None
    }

    /// Abandons the pending waiter for `id`, if any: best-effort
    /// removal used by request issuers on timeout or cancellation.
    /// Deliveries already made stay collectable.
    pub fn unregister(&mut self, id: &String)
        requires
            old(self)@.wf(),
        ensures
            final(self)@.wf(),
            final(self)@ == unregister_model(old(self)@, id@),
    {
        let ghost m0 = self@;
        match self.find_pending(id) {
            None => {
                proof {
                    m0.pending.index_of_first_ensures(id@);
                }
            },
            Some(i) => {
                self.pending.remove(i);
                proof {
                    m0.pending.index_of_first_ensures(id@);
                    let fi: int = m0.pending.index_of_first(id@)->0;
                    assert(m0.pending[i as int] == id@);
                    assert(fi == i) by {
                        if fi < i {
                            assert(m0.pending[fi] != id@);
                        } else if i < fi {
                            assert(m0.pending[i as int] != id@);
                        }
                    }
                    assert(self@.pending =~= m0.pending.remove(i as int));
                    assert(self@.wf()) by {
                        m0.pending.remove_ensures(i as int);
                    }
                }
            },
        }
    }
}

/// A value just pushed is contained in the result.
proof fn lemma_push_contains(s: Seq<Seq<char>>, x: Seq<char>)
    ensures
        s.push(x).contains(x),
{
    assert(s.push(x)[s.len() as int] == x);
}

/// Removing the first occurrence of one value never removes another.
proof fn lemma_remove_value_keeps(s: Seq<Seq<char>>, x: Seq<char>, y: Seq<char>)
    requires
        x != y,
        s.contains(y),
    ensures
        s.remove_value(x).contains(y),
{
    s.index_of_first_ensures(x);
    match s.index_of_first(x) {
        None => {},
        Some(fi) => {
            let k: int = choose|k: int| 0 <= k < s.len() && s[k] == y;
            s.remove_ensures(fi);
            if k < fi {
                assert(s.remove(fi)[k] == y);
            } else {
                assert(s[fi] == x);
                assert(k != fi);
                assert(s.remove(fi)[k - 1] == y);
            }
        },
    }
}

/// Registering an identifier makes a second registration of the same
/// identifier a `DuplicateRegistration` failure while the first is
/// still pending.
pub proof fn lemma_duplicate_registration(m: ObserverModel, id: Seq<char>)
    requires
        can_register(m, id),
    ensures
        !can_register(register_model(m, id), id),
{
    lemma_push_contains(m.pending, id);
}

/// Exactly-once delivery: when `id` is registered once and exactly one
/// event carrying `id` is handed to `notify`, that event is consumed,
/// the waiter that takes `id` receives exactly that event, a second
/// take receives nothing, and a further event carrying `id` would no
/// longer be consumed.
pub proof fn lemma_exactly_once_delivery(m: ObserverModel, id: Seq<char>, event: TdType)
    requires
        m.wf(),
        can_register(m, id),
        !m.delivered_keys().contains(id),
        event.spec_extra() == Some(id),
    ensures
        ({
            let m1 = register_model(m, id);
            let m2 = notify_model(m1, event);
            let (m3, got) = take_model(m2, id);
            &&& consumes(m1, event)
            &&& got == Some(event)
            &&& take_model(m3, id).1 == Option::<TdType>::None
            &&& !consumes(m2, event)
        }),
{
    let m1 = register_model(m, id);
    let m2 = notify_model(m1, event);
    lemma_push_contains(m.pending, id);
    assert(consumes(m1, event));

    // The registered identifier occurs exactly once, at the end.
    let np: int = m.pending.len() as int;
    m1.pending.index_of_first_ensures(id);
    let fp: int = m1.pending.index_of_first(id)->0;
    assert(fp == np) by {
        if fp < np {
            assert(m1.pending[fp] == m.pending[fp]);
        }
    }
    assert(m2.pending =~= m.pending) by {
        m1.pending.remove_ensures(np);
    }
    assert(!consumes(m2, event));

    // The delivery for `id` is the newly appended pair.
    let nd: int = m.delivered.len() as int;
    assert(m2.delivered =~= m.delivered.push((id, event)));
    assert(m2.delivered_keys() =~= m.delivered_keys().push(id));
    m2.delivered_keys().index_of_first_ensures(id);
    assert(m2.delivered_keys()[nd] == id);
    let fd: int = m2.delivered_keys().index_of_first(id)->0;
    assert(fd == nd) by {
        if fd < nd {
            assert(m2.delivered_keys()[fd] == m.delivered_keys()[fd]);
        }
    }
    let (m3, got) = take_model(m2, id);
    assert(got == Some(event));

    // Afterwards nothing for `id` is left to take.
    assert(m3.delivered =~= m.delivered);
    assert(m3.delivered_keys() =~= m.delivered_keys());
    m3.delivered_keys().index_of_first_ensures(id);
}

/// After two distinct identifiers are each fulfilled by their own
/// event, in the given order, each waiter takes exactly its own event.
proof fn lemma_two_notifies_deliver_each(
    m: ObserverModel,
    ida: Seq<char>,
    ea: TdType,
    idb: Seq<char>,
    eb: TdType,
)
    requires
        m.wf(),
        ida != idb,
        m.pending.contains(ida),
        m.pending.contains(idb),
        !m.delivered_keys().contains(ida),
        !m.delivered_keys().contains(idb),
        ea.spec_extra() == Some(ida),
        eb.spec_extra() == Some(idb),
    ensures
        take_model(notify_model(notify_model(m, ea), eb), ida).1 == Some(ea),
        take_model(notify_model(notify_model(m, ea), eb), idb).1 == Some(eb),
{
    let m1 = notify_model(m, ea);
    assert(consumes(m, ea));
    lemma_remove_value_keeps(m.pending, ida, idb);
    assert(consumes(m1, eb));
    let m2 = notify_model(m1, eb);

    let nd: int = m.delivered.len() as int;
    assert(m2.delivered =~= m.delivered.push((ida, ea)).push((idb, eb)));
    let keys = m2.delivered_keys();
    assert(keys =~= m.delivered_keys().push(ida).push(idb));

    keys.index_of_first_ensures(ida);
    assert(keys[nd] == ida);
    let fa: int = keys.index_of_first(ida)->0;
    assert(fa == nd) by {
        if fa < nd {
            assert(keys[fa] == m.delivered_keys()[fa]);
        }
    }
    assert(take_model(m2, ida).1 == Some(ea));

    keys.index_of_first_ensures(idb);
    assert(keys[nd + 1] == idb);
    let fb: int = keys.index_of_first(idb)->0;
    assert(fb == nd + 1) by {
        if fb < nd {
            assert(keys[fb] == m.delivered_keys()[fb]);
        }
    }
    assert(take_model(m2, idb).1 == Some(eb));
}

/// Non-interference: an event that does not carry a waiter's
/// identifier leaves that waiter untouched, whatever the event's fate.
/// Registration status is preserved, and so is what the waiter would
/// take. Under any interleaving of concurrent request issuers, each
/// waiter's outcome therefore depends only on the events carrying its
/// own identifier.
pub proof fn lemma_notify_preserves_other_waiters(m: ObserverModel, event: TdType, id: Seq<char>)
    requires
        m.wf(),
        event.spec_extra() != Some(id),
    ensures
        notify_model(m, event).pending.contains(id) == m.pending.contains(id),
        take_model(notify_model(m, event), id).1 == take_model(m, id).1,
{
    if consumes(m, event) {
        let other = event.spec_extra()->0;
        assert(other != id);
        let m2 = notify_model(m, event);

        // Registration status: removing `other` neither adds nor
        // removes a waiter for `id`.
        m.pending.index_of_first_ensures(other);
        let fi: int = m.pending.index_of_first(other)->0;
        m.pending.remove_ensures(fi);
        if m.pending.contains(id) {
            lemma_remove_value_keeps(m.pending, other, id);
        }
        if m2.pending.contains(id) {
            let k: int = choose|k: int| 0 <= k < m2.pending.len() && m2.pending[k] == id;
            if k < fi {
                assert(m.pending[k] == id);
            } else {
                assert(m.pending[k + 1] == id);
            }
        }

        // Deliveries: the appended pair carries `other`, so the oldest
        // delivery for `id` is unchanged.
        let keys = m.delivered_keys();
        let keys2 = m2.delivered_keys();
        assert(keys2 =~= keys.push(other));
        keys.index_of_first_ensures(id);
        keys2.index_of_first_ensures(id);
        match keys.index_of_first(id) {
            Some(i) => {
                let j: int = keys2.index_of_first(id)->0;
                assert(keys2.contains(id)) by {
                    assert(keys2[i] == id);
                }
                assert(j == i) by {
                    if j < i {
                        assert(keys[j] != id);
                        assert(keys2[j] == keys[j]);
                    } else if i < j {
                        assert(keys2[i] != id);
                    }
                }
                assert(m2.delivered[i] == m.delivered[i]);
            },
            None => {
                assert(!keys2.contains(id)) by {
                    if keys2.contains(id) {
                        let k: int = choose|k: int|
                            0 <= k < keys2.len() && keys2[k] == id;
                        assert(k < keys.len());
                        assert(keys[k] == id);
                    }
                }
            },
        }
    }
}

/// No cross-delivery: two waiters with distinct identifiers, each
/// fulfilled by its own event, each observe exactly their own event,
/// whichever of the two events arrives first.
pub proof fn lemma_no_cross_delivery(
    m: ObserverModel,
    id1: Seq<char>,
    e1: TdType,
    id2: Seq<char>,
    e2: TdType,
)
    requires
        m.wf(),
        id1 != id2,
        m.pending.contains(id1),
        m.pending.contains(id2),
        !m.delivered_keys().contains(id1),
        !m.delivered_keys().contains(id2),
        e1.spec_extra() == Some(id1),
        e2.spec_extra() == Some(id2),
    ensures
        take_model(notify_model(notify_model(m, e1), e2), id1).1 == Some(e1),
        take_model(notify_model(notify_model(m, e1), e2), id2).1 == Some(e2),
        take_model(notify_model(notify_model(m, e2), e1), id1).1 == Some(e1),
        take_model(notify_model(notify_model(m, e2), e1), id2).1 == Some(e2),
{
    lemma_two_notifies_deliver_each(m, id1, e1, id2, e2);
    lemma_two_notifies_deliver_each(m, id2, e2, id1, e1);
}

} // verus!

