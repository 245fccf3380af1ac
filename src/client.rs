//! The multiplexing core: a correlation-id generator and the two handler
//! registries (consumed-once and persistent) that route each inbound
//! response to the request or subscription it belongs to.

use std::collections::HashMap;

use vstd::prelude::*;

use crate::error::{ClientError, ClientResult};
use crate::proto::{ClientReq, ClientResp, ColumnType, EntityType, MakeTableData, RequestEnvelope, ResponseEnvelope};
use crate::table::{Table, TableInitOptions};


verus! {

broadcast use vstd::std_specs::hash::group_hash_axioms;

/// A handler that receives exactly one response and is consumed by it
/// (the completion of a single-answer request, or a one-time event).
pub trait OnceCallback: Sized {
    /// What this handler does with a response: `failure` is the error it
    /// may report for `resp` (`None`: it accepted it).
    spec fn delivers(&self, resp: ClientResp, failure: Option<ClientError>) -> bool;

    fn call_once(self, resp: ClientResp) -> (r: ClientResult<()>)
        ensures
            self.delivers(resp, failure_of(r)),
    ;
}

/// A handler that receives every response bearing its id until it is
/// unregistered (an event subscription).
pub trait ManyCallback {
    /// What this handler does with a response: `failure` is the error it
    /// may report for `resp` (`None`: it accepted it).
    spec fn delivers(&self, resp: ClientResp, failure: Option<ClientError>) -> bool;

    fn call(&self, resp: ClientResp) -> (r: ClientResult<()>)
        ensures
            self.delivers(resp, failure_of(r)),
    ;
}

/// The state of a client as far as routing goes: the next id it will hand
/// out, and the ids registered in each namespace.
pub struct Registry {
    pub next_id: nat,
    pub once: Set<u32>,
    pub many: Set<u32>,
}

/// Where an inbound response went.
#[derive(Clone, Copy, Debug, PartialEq, Eq, Structural)]
pub enum Route {
    /// Id 0: the answer to the initialisation handshake, for the transport.
    Handshake,
    /// Handed to its once-handler, which was consumed.
    Once,
    /// Handed to its persistent handler, which stays registered.
    Many,
    /// No handler holds the id; the response was dropped.
    Unsolicited,
}

/// The error that a result carries, if any.
pub open spec fn failure_of<T>(r: ClientResult<T>) -> Option<ClientError> {
    match r {
        Ok(_) => None,
        Err(e) => Some(e),
    }
}

/// Registered ids are non-zero, below the next id to hand out, and each
/// lies in one namespace at most.
pub open spec fn registry_inv(m: Registry) -> bool {
    &&& 1 <= m.next_id
    &&& forall|id: u32| #[trigger] m.once.contains(id) ==> 0 < id < m.next_id
    &&& forall|id: u32| #[trigger] m.many.contains(id) ==> 0 < id < m.next_id
    &&& m.once.disjoint(m.many)
}

/// An id that has been handed out and holds no handler yet.
pub open spec fn is_fresh(m: Registry, id: u32) -> bool {
    &&& 0 < id < m.next_id
    &&& !m.once.contains(id)
    &&& !m.many.contains(id)
}

/// Where a response bearing `id` is routed in state `m`.
pub open spec fn route_of(m: Registry, id: u32) -> Route {
    if id == 0 {
        Route::Handshake
    } else if m.once.contains(id) {
        Route::Once
    } else if m.many.contains(id) {
        Route::Many
    } else {
        Route::Unsolicited
    }
}

/// The state after a response bearing `id` has been routed: a once-handler
/// is consumed, everything else stays.
pub open spec fn after_dispatch(m: Registry, id: u32) -> Registry {
    Registry { once: m.once.remove(id), ..m }
}

pub open spec fn after_gen_id(m: Registry) -> Registry {
    Registry { next_id: m.next_id + 1, ..m }
}

pub open spec fn after_register_once(m: Registry, id: u32) -> Registry {
    Registry { once: m.once.insert(id), ..m }
}

pub open spec fn after_register_many(m: Registry, id: u32) -> Registry {
    Registry { many: m.many.insert(id), ..m }
}

pub open spec fn after_unsubscribe(m: Registry, id: u32) -> Registry {
    Registry { many: m.many.remove(id), ..m }
}

/// The state after routing responses bearing `ids`, in that order.
pub open spec fn dispatch_seq(m: Registry, ids: Seq<u32>) -> Registry
    decreases ids.len(),
{
    if ids.len() == 0 {
        m
    } else {
        dispatch_seq(after_dispatch(m, ids[0]), ids.drop_first())
    }
}

/// Where each of the responses bearing `ids` is routed, in that order.
pub open spec fn routes_of(m: Registry, ids: Seq<u32>) -> Seq<Route>
    decreases ids.len(),
{
    if ids.len() == 0 {
        Seq::empty()
    } else {
        seq![route_of(m, ids[0])] + routes_of(after_dispatch(m, ids[0]), ids.drop_first())
    }
}

proof fn lemma_dispatch_keeps_inv(m: Registry, id: u32)
    requires
        registry_inv(m),
    ensures
        registry_inv(after_dispatch(m, id)),
{
}

/// Outstanding single-answer requests are each resolved exactly once by the
/// response bearing their own id, whatever order the responses come in:
/// every one of them reaches a once-handler, exactly those handlers are
/// consumed, and a repeated response would find none.
pub proof fn lemma_oneshots_resolve_once(m: Registry, ids: Seq<u32>)
    requires
        registry_inv(m),
        ids.no_duplicates(),
        forall|k: int| 0 <= k < ids.len() ==> m.once.contains(#[trigger] ids[k]),
    ensures
        routes_of(m, ids).len() == ids.len(),
        forall|k: int| 0 <= k < ids.len() ==> #[trigger] routes_of(m, ids)[k] == Route::Once,
        dispatch_seq(m, ids).once == m.once.difference(ids.to_set()),
        dispatch_seq(m, ids).many == m.many,
        dispatch_seq(m, ids).next_id == m.next_id,
        forall|k: int|
            0 <= k < ids.len() ==> route_of(dispatch_seq(m, ids), #[trigger] ids[k])
                == Route::Unsolicited,
    decreases ids.len(),
{
    if ids.len() == 0 {
        assert(m.once.difference(ids.to_set()) =~= m.once);
    } else {
        let head = ids[0];
        let rest = ids.drop_first();
        let m1 = after_dispatch(m, head);
        lemma_dispatch_keeps_inv(m, head);
        assert forall|k: int| 0 <= k < rest.len() implies m1.once.contains(#[trigger] rest[k]) by {
            assert(rest[k] == ids[k + 1]);
        }
        lemma_oneshots_resolve_once(m1, rest);
        let routes = routes_of(m, ids);
        assert(routes == seq![Route::Once] + routes_of(m1, rest));
        assert forall|k: int| 0 <= k < ids.len() implies #[trigger] routes[k] == Route::Once by {
            if k > 0 {
                assert(routes[k] == routes_of(m1, rest)[k - 1]);
            }
        }
        assert(ids.to_set() =~= rest.to_set().insert(head)) by {
            assert forall|x: u32| ids.to_set().contains(x) implies rest.to_set().insert(head).contains(x) by {
                let k = choose|k: int| 0 <= k < ids.len() && ids[k] == x;
                if k > 0 {
                    assert(rest[k - 1] == x);
                }
            }
            assert forall|x: u32| rest.to_set().contains(x) implies ids.to_set().contains(x) by {
                let k = choose|k: int| 0 <= k < rest.len() && rest[k] == x;
                assert(ids[k + 1] == x);
            }
            assert(ids[0] == head);
        }
        assert(m1.once.difference(rest.to_set()) =~= m.once.difference(ids.to_set()));
        let fin = dispatch_seq(m, ids);
        assert forall|k: int| 0 <= k < ids.len() implies route_of(fin, #[trigger] ids[k])
            == Route::Unsolicited by {
            if k == 0 {
                assert(!rest.to_set().contains(head)) by {
                    if rest.to_set().contains(head) {
                        let j = choose|j: int| 0 <= j < rest.len() && rest[j] == head;
                        assert(ids[j + 1] == ids[0]);
                    }
                }
                assert(!m.many.contains(head));
            } else {
                assert(ids[k] == rest[k - 1]);
            }
        }
    }
}

/// The once-handler that each of the responses bearing `ids` reaches, in
/// order (`None`: it found none); a handler is consumed when reached.
pub open spec fn once_handlers_reached<O>(h: Map<u32, O>, ids: Seq<u32>) -> Seq<Option<O>>
    decreases ids.len(),
{
    if ids.len() == 0 {
        Seq::empty()
    } else {
        let first = if h.contains_key(ids[0]) {
            Some(h[ids[0]])
        } else {
            None
        };
        seq![first] + once_handlers_reached(h.remove(ids[0]), ids.drop_first())
    }
}

/// Responses to outstanding single-answer requests, in any order, each
/// reach the handler registered under their own id, and no other; with
/// `receive`, which hands the payload to the handler it reaches, each
/// waiting caller gets the response that bears its id.
pub proof fn lemma_each_response_reaches_its_handler<O>(h: Map<u32, O>, ids: Seq<u32>)
    requires
        ids.no_duplicates(),
        forall|k: int| 0 <= k < ids.len() ==> h.contains_key(#[trigger] ids[k]),
    ensures
        once_handlers_reached(h, ids).len() == ids.len(),
        forall|k: int| 0 <= k < ids.len() ==> #[trigger] once_handlers_reached(h, ids)[k] == Some(h[ids[k]]),
    decreases ids.len(),
{
    if ids.len() > 0 {
        let rest = ids.drop_first();
        let h1 = h.remove(ids[0]);
        assert forall|k: int| 0 <= k < rest.len() implies h1.contains_key(#[trigger] rest[k]) by {
            assert(rest[k] == ids[k + 1]);
        }
        lemma_each_response_reaches_its_handler(h1, rest);
        let reached = once_handlers_reached(h, ids);
        assert(reached == seq![Some(h[ids[0]])] + once_handlers_reached(h1, rest));
        assert forall|k: int| 0 <= k < ids.len() implies #[trigger] reached[k] == Some(h[ids[k]]) by {
            if k > 0 {
                assert(rest[k - 1] == ids[k]);
                assert(reached[k] == once_handlers_reached(h1, rest)[k - 1]);
            }
        }
    }
}

/// Register-before-send: a handler registered under a fresh id, before its
/// request leaves, receives the response bearing that id even when the
/// transport delivers it at once; routing it then leaves the registry as
/// it was before the request. With `subscribe_once`, which puts the
/// handler in place before the envelope is returned, and `receive`, which
/// hands the payload to the handler it routes to, no such response is lost
/// or misrouted.
pub proof fn lemma_register_before_send(m: Registry, id: u32)
    requires
        registry_inv(m),
        is_fresh(m, id),
    ensures
        registry_inv(after_register_once(m, id)),
        route_of(after_register_once(m, id), id) == Route::Once,
        after_dispatch(after_register_once(m, id), id) == m,
        registry_inv(after_register_many(m, id)),
        route_of(after_register_many(m, id), id) == Route::Many,
{
    assert(m.once.insert(id).remove(id) =~= m.once);
}

/// A persistent subscription fires on every response bearing its id, in
/// whatever stream of responses, and stays registered; once unsubscribed,
/// responses bearing the id are unsolicited. `receive` keeps the persistent
/// handlers unchanged and hands each such response, as it arrives, to the
/// one registered under the id.
pub proof fn lemma_subscription_until_unsubscribed(m: Registry, id: u32, ids: Seq<u32>)
    requires
        registry_inv(m),
        m.many.contains(id),
    ensures
        routes_of(m, ids).len() == ids.len(),
        forall|k: int| 0 <= k < ids.len() && ids[k] == id ==> #[trigger] routes_of(m, ids)[k] == Route::Many,
        dispatch_seq(m, ids).many == m.many,
        registry_inv(dispatch_seq(m, ids)),
        route_of(after_unsubscribe(dispatch_seq(m, ids), id), id) == Route::Unsolicited,
    decreases ids.len(),
{
    if ids.len() > 0 {
        let rest = ids.drop_first();
        let m1 = after_dispatch(m, ids[0]);
        lemma_dispatch_keeps_inv(m, ids[0]);
        lemma_subscription_until_unsubscribed(m1, id, rest);
        let routes = routes_of(m, ids);
        assert(routes == seq![route_of(m, ids[0])] + routes_of(m1, rest));
        assert forall|k: int| 0 <= k < ids.len() && ids[k] == id implies #[trigger] routes[k]
            == Route::Many by {
            if k > 0 {
                assert(ids[k] == rest[k - 1]);
                assert(routes[k] == routes_of(m1, rest)[k - 1]);
            }
        }
    }
}

/// The client core. The transport that carries its envelopes, and the
/// sharing of it between tasks, are the caller's.
pub struct Client<O, M> {
    id_gen: u64,
    subscriptions_once: HashMap<u32, O>,
    subscriptions_many: HashMap<u32, M>,
}

impl<O, M> Client<O, M> {
    pub closed spec fn next_id(&self) -> nat {
        self.id_gen as nat
    }

    /// The handlers registered to fire once, by correlation id.
    pub closed spec fn once_handlers(&self) -> Map<u32, O> {
        self.subscriptions_once@
    }

    /// The persistent handlers, by correlation id.
    pub closed spec fn many_handlers(&self) -> Map<u32, M> {
        self.subscriptions_many@
    }

    pub open spec fn model(&self) -> Registry {
        Registry {
            next_id: self.next_id(),
            once: self.once_handlers().dom(),
            many: self.many_handlers().dom(),
        }
    }

    pub open spec fn wf(&self) -> bool {
        &&& registry_inv(self.model())
        &&& self.next_id() <= u32::MAX + 1
    }

    pub fn new() -> (r: Self)
        ensures
            r.wf(),
            r.model() == (Registry { next_id: 1, once: Set::empty(), many: Set::empty() }),
    {
        let r = Client { id_gen: 1, subscriptions_once: HashMap::new(), subscriptions_many: HashMap::new() };
        assert(r.model().once =~= Set::empty());
        assert(r.model().many =~= Set::empty());
        r
    }

    /// Generate a message ID unique to this client: each call hands out the
    /// next integer, starting at 1, up to and including `u32::MAX`.
    pub fn gen_id(&mut self) -> (r: ClientResult<u32>)
        requires
            old(self).wf(),
        ensures
            final(self).wf(),
            final(self).once_handlers() == old(self).once_handlers(),
            final(self).many_handlers() == old(self).many_handlers(),
            r is Ok <==> old(self).next_id() <= u32::MAX,
            match r {
                Ok(id) => {
                    &&& id == old(self).next_id()
                    &&& final(self).model() == after_gen_id(old(self).model())
                    &&& is_fresh(final(self).model(), id)
                },
                Err(e) => {
                    &&& e == ClientError::IdsExhausted
                    &&& old(self).next_id() == u32::MAX + 1
                    &&& final(self).model() == old(self).model()
                },
            },
    {
        if self.id_gen > u32::MAX as u64 {
            return Err(ClientError::IdsExhausted);
        }
        let id = self.id_gen as u32;
        self.id_gen = self.id_gen + 1;
        Ok(id)
    }

    /// Drops the persistent handler registered under `update_id`; responses
    /// that still bear the id are unsolicited from then on.
    pub fn unsubscribe(&mut self, update_id: u32) -> (r: ClientResult<()>)
        requires
            old(self).wf(),
        ensures
            final(self).wf(),
            final(self).model() == after_unsubscribe(old(self).model(), update_id),
            final(self).once_handlers() == old(self).once_handlers(),
            final(self).many_handlers() == old(self).many_handlers().remove(update_id),
            r is Ok <==> old(self).model().many.contains(update_id),
            r is Err ==> r == Err::<(), ClientError>(ClientError::UnknownSubscription(update_id)),
    {
        let callback = self.subscriptions_many.remove(&update_id);
        assert(self.model().many =~= old(self).model().many.remove(update_id));
        match callback {
            Some(_) => Ok(()),
            None => Err(ClientError::UnknownSubscription(update_id)),
        }
    }

    /// Register a callback which is expected to respond exactly once, and
    /// return the id it answers to. It is
    /// in place before the envelope is handed to the transport, so even a
    /// response delivered from within the send finds it.
    pub fn subscribe_once(&mut self, msg: &RequestEnvelope, on_update: O) -> (id: u32)
        requires
            old(self).wf(),
            is_fresh(old(self).model(), msg.msg_id),
        ensures
            id == msg.msg_id,
            final(self).wf(),
            final(self).model() == after_register_once(old(self).model(), msg.msg_id),
            final(self).once_handlers() == old(self).once_handlers().insert(msg.msg_id, on_update),
            final(self).many_handlers() == old(self).many_handlers(),
    {
        self.subscriptions_once.insert(msg.msg_id, on_update);
        assert(self.model().once =~= old(self).model().once.insert(msg.msg_id));
        msg.msg_id
    }

    /// Register a callback which is expected to respond many times, and
    /// return the id that names the subscription.
    pub fn subscribe(&mut self, msg: &RequestEnvelope, on_update: M) -> (id: u32)
        requires
            old(self).wf(),
            is_fresh(old(self).model(), msg.msg_id),
        ensures
            id == msg.msg_id,
            final(self).wf(),
            final(self).model() == after_register_many(old(self).model(), msg.msg_id),
            final(self).once_handlers() == old(self).once_handlers(),
            final(self).many_handlers() == old(self).many_handlers().insert(msg.msg_id, on_update),
    {
        self.subscriptions_many.insert(msg.msg_id, on_update);
        assert(self.model().many =~= old(self).model().many.insert(msg.msg_id));
        msg.msg_id
    }
}

impl<O: OnceCallback, M: ManyCallback> Client<O, M> {
    /// Handle a message from the transport: a once-handler registered under
    /// its id is removed and called with the payload, else a persistent
    /// handler is called with it and kept, else the response is dropped as
    /// unsolicited. Id 0 is the handshake's and is left to the transport.
    /// An error is either a missing payload, or the error the called
    /// handler reported, passed on as it is.
    pub fn receive(&mut self, msg: ResponseEnvelope) -> (r: ClientResult<Route>)
        requires
            old(self).wf(),
        ensures
            final(self).wf(),
            msg.payload is None ==> {
                &&& r == Err::<Route, ClientError>(ClientError::Malformed)
                &&& final(self).model() == old(self).model()
                &&& final(self).once_handlers() == old(self).once_handlers()
                &&& final(self).many_handlers() == old(self).many_handlers()
            },
            msg.payload is Some ==> {
                &&& final(self).model() == after_dispatch(old(self).model(), msg.msg_id)
                &&& final(self).once_handlers() == old(self).once_handlers().remove(msg.msg_id)
                &&& final(self).many_handlers() == old(self).many_handlers()
                &&& route_of(old(self).model(), msg.msg_id) == Route::Once
                    ==> old(self).once_handlers()[msg.msg_id].delivers(msg.payload->Some_0, failure_of(r))
                &&& route_of(old(self).model(), msg.msg_id) == Route::Many
                    ==> old(self).many_handlers()[msg.msg_id].delivers(msg.payload->Some_0, failure_of(r))
                &&& r is Ok ==> r == Ok::<Route, ClientError>(route_of(old(self).model(), msg.msg_id))
                &&& r is Err ==> route_of(old(self).model(), msg.msg_id) == Route::Once
                    || route_of(old(self).model(), msg.msg_id) == Route::Many
            },
    {
        let payload = match msg.payload {
            Some(p) => p,
            None => return Err(ClientError::Malformed),
        };
        if msg.msg_id == 0 {
            assert(self.model().once =~= old(self).model().once.remove(0));
            assert(self.once_handlers() =~= old(self).once_handlers().remove(0));
            return Ok(Route::Handshake);
        }
        let once = self.subscriptions_once.remove(&msg.msg_id);
        assert(self.model().once =~= old(self).model().once.remove(msg.msg_id));
        match once {
            Some(handler) => {
                let res = handler.call_once(payload);
                match res {
                    Ok(()) => Ok(Route::Once),
                    Err(e) => Err(e),
                }
            },
            None => {
                assert(self.once_handlers() =~= old(self).once_handlers().remove(msg.msg_id));
                match self.subscriptions_many.get(&msg.msg_id) {
                    Some(handler) => {
                        let res = handler.call(payload);
                        match res {
                            Ok(()) => Ok(Route::Many),
                            Err(e) => Err(e),
                        }
                    },
                    None => Ok(Route::Unsolicited),
                }
            },
        }
    }
}

/// The possible formats of input data for a new table, or for changing one.
/// Changing a table takes neither `Schema` nor `View`.
#[derive(Clone, Debug, PartialEq)]
pub enum TableData {
    Schema(Vec<(String, ColumnType)>),
    Csv(String),
    Arrow(Vec<u8>),
    JsonRows(String),
    JsonColumns(String),
    View(crate::view::View),
}

/// The payload that carries `input`; a view travels as its name.
pub open spec fn table_data_message(input: TableData) -> MakeTableData {
    match input {
        TableData::Schema(x) => MakeTableData::FromSchema(x),
        TableData::Csv(x) => MakeTableData::FromCsv(x),
        TableData::Arrow(x) => MakeTableData::FromArrow(x),
        TableData::JsonRows(x) => MakeTableData::FromRows(x),
        TableData::JsonColumns(x) => MakeTableData::FromCols(x),
        TableData::View(view) => MakeTableData::FromView(view.name),
    }
}

impl From<TableData> for MakeTableData {
    fn from(value: TableData) -> MakeTableData {
        match value {
            TableData::Csv(x) => MakeTableData::FromCsv(x),
            TableData::Arrow(x) => MakeTableData::FromArrow(x),
            TableData::JsonRows(x) => MakeTableData::FromRows(x),
            TableData::JsonColumns(x) => MakeTableData::FromCols(x),
            TableData::View(view) => MakeTableData::FromView(view.name),
            TableData::Schema(x) => MakeTableData::FromSchema(x),
        }
    }
}

impl vstd::std_specs::convert::FromSpecImpl<TableData> for MakeTableData {
    open spec fn obeys_from_spec() -> bool {
        true
    }

    open spec fn from_spec(v: TableData) -> MakeTableData {
        table_data_message(v)
    }
}

/// The characters of nanoid's URL-safe alphabet.
pub open spec fn is_url_safe(c: char) -> bool {
    ||| c == '_'
    ||| c == '-'
    ||| ('0' <= c && c <= '9')
    ||| ('a' <= c && c <= 'z')
    ||| ('A' <= c && c <= 'Z')
}

/// Relies on `nanoid::format` with nanoid's default (entropy-seeded)
/// random source, its `alphabet::SAFE` and a size of 21: the result holds
/// 21 characters, each of that alphabet. Which ones is left to chance.
#[verifier::external_body]
pub(crate) fn new_entity_name() -> (r: String)
    ensures
        r@.len() == 21,
        forall|i: int| 0 <= i < r@.len() ==> is_url_safe(#[trigger] r@[i]),
{
    nanoid::format(nanoid::rngs::default, &nanoid::alphabet::SAFE, 21)
}

impl<O, M> Client<O, M> {
    /// The request that makes a table from `input`, under a fresh name that
    /// the client picks (not the correlation id).
    pub fn table_request(&mut self, input: TableData, options: Option<TableInitOptions>) -> (r: ClientResult<RequestEnvelope>)
        requires
            old(self).wf(),
        ensures
            final(self).wf(),
            final(self).once_handlers() == old(self).once_handlers(),
            final(self).many_handlers() == old(self).many_handlers(),
            r is Ok <==> old(self).next_id() <= u32::MAX,
            match r {
                Ok(msg) => {
                    &&& msg.msg_id == old(self).next_id()
                    &&& final(self).model() == after_gen_id(old(self).model())
                    &&& is_fresh(final(self).model(), msg.msg_id)
                    &&& msg.entity_type == EntityType::Table
                    &&& msg.entity_id@.len() == 21
                    &&& forall|i: int| 0 <= i < msg.entity_id@.len() ==> is_url_safe(#[trigger] msg.entity_id@[i])
                    &&& msg.payload == (ClientReq::MakeTableReq { data: table_data_message(input), options })
                },
                Err(e) => {
                    &&& e == ClientError::IdsExhausted
                    &&& final(self).model() == old(self).model()
                },
            },
    {
        let name = new_entity_name();
        let msg_id = self.gen_id()?;
        Ok(
            RequestEnvelope {
                msg_id,
                entity_id: name,
                entity_type: EntityType::Table,
                payload: ClientReq::MakeTableReq { data: MakeTableData::from(input), options },
            },
        )
    }
}

} // verus!
