//! The registry of live connections and of what each has asked to be told about.

use crate::ids::{new_uuid, UUID_LENGTH};
use crate::modules::{views, Module};
use crate::seq_lemmas::{lemma_filter_empty, lemma_filter_push};
use crate::text::str_eq;
use crate::websocket::{spec_data_update, ResponseView, WebsocketResponse};
use serde_json::Value;
use vstd::prelude::*;

verus! {

/// A connection's subscription: the connection's id and the names of the modules
/// whose changes it wants to hear of. An empty list is no subscription.
#[derive(Debug, Clone, PartialEq, Eq)]
pub struct DataListener {
    pub id: String,
    pub modules: Vec<String>,
}

/// What a subscription says, as plain mathematical values.
pub struct ListenerView {
    pub id: Seq<char>,
    pub modules: Seq<Seq<char>>,
}

impl View for DataListener {
    type V = ListenerView;

    open spec fn view(&self) -> ListenerView {
        ListenerView { id: self.id@, modules: views(self.modules@) }
    }
}

/// A frame on its way to one connection.
#[derive(Debug, PartialEq, Eq)]
pub struct Push {
    pub connection: String,
    pub frame: WebsocketResponse,
}

impl View for Push {
    type V = (Seq<char>, ResponseView);

    open spec fn view(&self) -> (Seq<char>, ResponseView) {
        (self.connection@, self.frame@)
    }
}

/// The views of a sequence of pushes.
pub open spec fn push_views(pushes: Seq<Push>) -> Seq<(Seq<char>, ResponseView)> {
    pushes.map_values(|p: Push| p@)
}

/// No two entries are of one connection.
pub open spec fn distinct_ids(listeners: Seq<ListenerView>) -> bool {
    forall|i: int, j: int|
        0 <= i < j < listeners.len() ==> (#[trigger] listeners[i]).id != (#[trigger] listeners[j]).id
}

/// Whether `i` is the place of the connection `id`.
pub open spec fn is_place_of(listeners: Seq<ListenerView>, id: Seq<char>, i: int) -> bool {
    0 <= i < listeners.len() && listeners[i].id == id
}

/// The place of a connection's entry, where it has one.
pub open spec fn spec_position(listeners: Seq<ListenerView>, id: Seq<char>) -> Option<int> {
    if exists|i: int| is_place_of(listeners, id, i) {
        Some(choose|i: int| is_place_of(listeners, id, i))
    } else {
        None
    }
}

/// The registry after a connection's subscription was set: its entry is replaced, or
/// added at the end where it had none.
pub open spec fn spec_register(
    listeners: Seq<ListenerView>,
    id: Seq<char>,
    modules: Seq<Seq<char>>,
) -> Seq<ListenerView> {
    match spec_position(listeners, id) {
        Some(i) => listeners.update(i, ListenerView { id, modules }),
        None => listeners.push(ListenerView { id, modules }),
    }
}

/// The registry after a connection's subscription was taken back: its entry stays,
/// with no module in it.
pub open spec fn spec_unregister(listeners: Seq<ListenerView>, id: Seq<char>) -> Seq<ListenerView> {
    match spec_position(listeners, id) {
        Some(i) => listeners.update(i, ListenerView { id, modules: Seq::empty() }),
        None => listeners,
    }
}

/// The registry after a connection went away: its entry is gone.
pub open spec fn spec_disconnect(listeners: Seq<ListenerView>, id: Seq<char>) -> Seq<ListenerView> {
    match spec_position(listeners, id) {
        Some(i) => listeners.remove(i),
        None => listeners,
    }
}

/// Whether a subscription covers a module.
pub open spec fn subscribed(listener: ListenerView, module: Module) -> bool {
    listener.modules.contains(module.wire_name())
}

/// The connections that are told of a change to a module: those whose subscription
/// covers it, in the order of the registry.
pub open spec fn spec_recipients(listeners: Seq<ListenerView>, module: Module) -> Seq<Seq<char>> {
    listeners.filter(|l: ListenerView| subscribed(l, module)).map_values(|l: ListenerView| l.id)
}

/// The frames that a change to a module sends out: to each recipient the same frame,
/// a data update with the module's name and its new payload.
pub open spec fn spec_pushes(
    listeners: Seq<ListenerView>,
    module: Module,
    payload: Value,
    id: Seq<char>,
) -> Seq<(Seq<char>, ResponseView)> {
    spec_recipients(listeners, module).map_values(
        |connection: Seq<char>| (connection, spec_data_update(id, module.wire_name(), payload)),
    )
}

/// The live connections, each with its subscription.
pub struct ConnectionRegistry {
    listeners: Vec<DataListener>,
}

impl ConnectionRegistry {
    #[verifier::type_invariant]
    spec fn holds_each_once(&self) -> bool {
        distinct_ids(self@)
    }

    /// The entries of the registry, in the order in which the connections came.
    pub closed spec fn view(&self) -> Seq<ListenerView> {
        self.listeners@.map_values(|l: DataListener| l@)
    }

    /// The registry holds each connection once. This holds of every registry.
    pub open spec fn wf(&self) -> bool {
        distinct_ids(self@)
    }

    /// A registry without connections.
    pub fn new() -> (r: ConnectionRegistry)
        ensures
            r.wf(),
            r@ == Seq::<ListenerView>::empty(),
    {
        let listeners: Vec<DataListener> = Vec::new();
        assert(listeners@.map_values(|l: DataListener| l@) =~= Seq::<ListenerView>::empty());
        ConnectionRegistry { listeners }
    }

    /// Shows that the registry holds each connection once: it does nothing when it
    /// runs, and lets a caller's proof go on from `wf`.
    pub fn well_formed(&self)
        ensures
            self.wf(),
    {
        proof {
            use_type_invariant(self);
        }
    }

    /// How many connections there are.
    pub fn len(&self) -> (r: usize)
        ensures
            r == self@.len(),
    {
        self.listeners.len()
    }

    fn find(&self, id: &str) -> (r: Option<usize>)
        ensures
            self.wf(),
            spec_position(self@, id@) == (match r {
                Some(i) => Some(i as int),
                None => None,
            }),
            r matches Some(i) ==> is_place_of(self@, id@, i as int),
    {
        proof {
            use_type_invariant(self);
        }
        let mut i: usize = 0;
        while i < self.listeners.len()
            invariant
                i <= self.listeners.len(),
                self.wf(),
                forall|j: int| 0 <= j < i ==> !is_place_of(self@, id@, j),
            decreases self.listeners.len() - i,
        {
            if str_eq(self.listeners[i].id.as_str(), id) {
                proof {
                    assert(is_place_of(self@, id@, i as int));
                    let chosen = choose|j: int| is_place_of(self@, id@, j);
                    assert(self@[chosen].id == self@[i as int].id);
                    assert(chosen == i);
                }
                return Some(i);
            }
            i = i + 1;
        }
        None
    }

    /// Takes the entries out of the registry, which is empty until they are put back.
    fn take_all(&mut self) -> (r: Vec<DataListener>)
        ensures
            r@.map_values(|l: DataListener| l@) == old(self)@,
            final(self)@ == Seq::<ListenerView>::empty(),
    {
        let mut entries: Vec<DataListener> = Vec::new();
        assert(entries@.map_values(|l: DataListener| l@) =~= Seq::<ListenerView>::empty());
        core::mem::swap(&mut self.listeners, &mut entries);
        entries
    }

    /// Puts entries in the place of those that the registry holds.
    fn put_all(&mut self, entries: Vec<DataListener>)
        requires
            distinct_ids(entries@.map_values(|l: DataListener| l@)),
        ensures
            final(self)@ == entries@.map_values(|l: DataListener| l@),
    {
        self.listeners = entries;
    }

    /// Whether a connection is in the registry.
    pub fn contains(&self, id: &str) -> (r: bool)
        ensures
            r == spec_position(self@, id@).is_some(),
    {
        self.find(id).is_some()
    }

    /// The modules that a connection has subscribed to; `None` for a connection that
    /// is not in the registry.
    pub fn subscription(&self, id: &str) -> (r: Option<Vec<String>>)
        ensures
            (match r {
                Some(modules) => Some(views(modules@)),
                None => None,
            }) == (match spec_position(self@, id@) {
                Some(i) => Some(self@[i].modules),
                None => None,
            }),
    {
        match self.find(id) {
            Some(i) => {
                let modules = clone_names(&self.listeners[i].modules);
                Some(modules)
            },
            None => None,
        }
    }

    /// Sets a connection's subscription to the given modules. A connection that is in
    /// the registry gets its entry replaced; one that is not gets an entry at the end.
    pub fn register(&mut self, id: &str, modules: Vec<String>)
        ensures
            final(self).wf(),
            final(self)@ == spec_register(old(self)@, id@, views(modules@)),
    {
        let ghost before = self@;
        let entry = DataListener { id: id.to_owned(), modules };
        let found = self.find(id);
        let mut entries = self.take_all();
        match found {
            Some(i) => {
                entries.set(i, entry);
                assert(entries@.map_values(|l: DataListener| l@) =~= before.update(
                    i as int,
                    entry@,
                ));
            },
            None => {
                entries.push(entry);
                let ghost after = entries@.map_values(|l: DataListener| l@);
                assert(after =~= before.push(entry@));
                assert forall|a: int, b: int| 0 <= a < b < after.len() implies (#[trigger] after[a]).id
                    != (#[trigger] after[b]).id by {
                    if b == before.len() {
                        assert(!is_place_of(before, id@, a));
                    }
                }
            },
        }
        self.put_all(entries);
    }

    /// Takes in a connection that has just opened, under a given id: it is in the
    /// registry from now on, without a subscription.
    pub fn insert(&mut self, id: &str)
        ensures
            final(self).wf(),
            final(self)@ == spec_register(old(self)@, id@, Seq::empty()),
    {
        let modules: Vec<String> = Vec::new();
        assert(views(modules@) =~= Seq::empty());
        self.register(id, modules);
    }

    /// Takes in a connection that has just opened, and gives it a fresh id of 36
    /// characters. Whatever the id is, the connection is in the registry under it,
    /// without a subscription.
    pub fn connect(&mut self) -> (r: String)
        ensures
            r@.len() == UUID_LENGTH,
            final(self).wf(),
            final(self)@ == spec_register(old(self)@, r@, Seq::empty()),
    {
        let id = new_uuid();
        self.insert(id.as_str());
        id
    }

    /// Takes back a connection's subscription. The connection stays in the registry.
    pub fn unregister(&mut self, id: &str)
        ensures
            final(self).wf(),
            final(self)@ == spec_unregister(old(self)@, id@),
    {
        let ghost before = self@;
        match self.find(id) {
            Some(i) => {
                let modules: Vec<String> = Vec::new();
                assert(views(modules@) =~= Seq::empty());
                let entry = DataListener { id: id.to_owned(), modules };
                let mut entries = self.take_all();
                entries.set(i, entry);
                assert(entries@.map_values(|l: DataListener| l@) =~= before.update(
                    i as int,
                    entry@,
                ));
                self.put_all(entries);
            },
            None => {},
        }
    }

    /// Removes a connection, after its socket closed or a send to it failed. Says
    /// whether the connection was there.
    pub fn disconnect(&mut self, id: &str) -> (r: bool)
        ensures
            final(self).wf(),
            final(self)@ == spec_disconnect(old(self)@, id@),
            r == spec_position(old(self)@, id@).is_some(),
    {
        let ghost before = self@;
        match self.find(id) {
            Some(i) => {
                let mut entries = self.take_all();
                entries.remove(i);
                assert(entries@.map_values(|l: DataListener| l@) =~= before.remove(i as int));
                self.put_all(entries);
                true
            },
            None => false,
        }
    }

    /// The connections to tell of a change to a module.
    pub fn recipients(&self, module: &Module) -> (r: Vec<String>)
        ensures
            views(r@) == spec_recipients(self@, *module),
    {
        let mut ids: Vec<String> = Vec::new();
        let ghost wanted = |l: ListenerView| subscribed(l, *module);
        let ghost id_of = |l: ListenerView| l.id;
        let mut i: usize = 0;
        while i < self.listeners.len()
            invariant
                i <= self.listeners.len(),
                wanted == (|l: ListenerView| subscribed(l, *module)),
                id_of == (|l: ListenerView| l.id),
                views(ids@) == self@.take(i as int).filter(wanted).map_values(id_of),
            decreases self.listeners.len() - i,
        {
            let ghost head = self@.take(i as int);
            let ghost entry = self@[i as int];
            let ghost before = ids@;
            proof {
                assert(self@.take(i + 1) =~= head.push(entry));
                lemma_filter_push(head, entry, wanted);
            }
            if wants(&self.listeners[i], module) {
                ids.push(self.listeners[i].id.clone());
                proof {
                    assert(views(ids@) =~= views(before).push(entry.id));
                    assert(head.filter(wanted).push(entry).map_values(id_of) =~= head.filter(
                        wanted,
                    ).map_values(id_of).push(entry.id));
                }
            }
            i = i + 1;
        }
        proof {
            assert(self@.take(self@.len() as int) =~= self@);
        }
        ids
    }

    /// The frames to send after a module changed, all under the frame id `id`: one
    /// data update, with the module's name and its new payload, to each connection
    /// whose subscription covers the module, and none to any other.
    pub fn broadcast(&self, module: &Module, payload: &Value, id: &str) -> (r: Vec<Push>)
        ensures
            push_views(r@) == spec_pushes(self@, *module, *payload, id@),
    {
        let ids = self.recipients(module);
        let mut pushes: Vec<Push> = Vec::new();
        let ghost frame = spec_data_update(id@, module.wire_name(), *payload);
        let mut i: usize = 0;
        while i < ids.len()
            invariant
                i <= ids.len(),
                pushes@.len() == i,
                frame == spec_data_update(id@, module.wire_name(), *payload),
                forall|j: int| 0 <= j < i ==> (#[trigger] pushes@[j])@ == (ids@[j]@, frame),
            decreases ids.len() - i,
        {
            pushes.push(
                Push {
                    connection: ids[i].clone(),
                    frame: WebsocketResponse::data_update(id, module.to_string(), payload.clone()),
                },
            );
            i = i + 1;
        }
        proof {
            assert(push_views(pushes@) =~= spec_pushes(self@, *module, *payload, id@)) by {
                let want = spec_pushes(self@, *module, *payload, id@);
                assert(want.len() == ids@.len());
                assert forall|j: int| 0 <= j < want.len() implies push_views(pushes@)[j] == want[j] by {
                    assert(views(ids@)[j] == ids@[j]@);
                }
            }
        }
        pushes
    }

    /// The frames to send after a module changed, under a fresh frame id of 36
    /// characters. Whatever the id is, the frames are those of `broadcast` under it.
    pub fn notify(&self, module: &Module, payload: &Value) -> (r: Vec<Push>)
        ensures
            exists|id: Seq<char>|
                id.len() == UUID_LENGTH && push_views(r@) == #[trigger] spec_pushes(
                    self@,
                    *module,
                    *payload,
                    id,
                ),
    {
        let id = new_uuid();
        let pushes = self.broadcast(module, payload, id.as_str());
        assert(push_views(pushes@) == spec_pushes(self@, *module, *payload, id@));
        pushes
    }
}

/// The test whether a frame goes to a connection.
pub open spec fn goes_to(connection: Seq<char>) -> spec_fn((Seq<char>, ResponseView)) -> bool {
    |p: (Seq<char>, ResponseView)| p.0 == connection
}

/// How many of the frames go to a connection.
pub open spec fn pushes_to(pushes: Seq<(Seq<char>, ResponseView)>, connection: Seq<char>) -> nat {
    pushes.filter(goes_to(connection)).len()
}

/// Whether a connection is in the registry with a subscription that covers a module.
pub open spec fn is_subscriber(listeners: Seq<ListenerView>, connection: Seq<char>, module: Module) -> bool {
    exists|i: int| is_place_of(listeners, connection, i) && subscribed(#[trigger] listeners[i], module)
}

/// The frames for a registry with one more entry at its end: those for the registry
/// without it, and then one for the entry where its subscription covers the module.
pub proof fn lemma_pushes_push(
    listeners: Seq<ListenerView>,
    last: ListenerView,
    module: Module,
    payload: Value,
    id: Seq<char>,
)
    ensures
        spec_pushes(listeners.push(last), module, payload, id) == if subscribed(last, module) {
            spec_pushes(listeners, module, payload, id).push(
                (last.id, spec_data_update(id, module.wire_name(), payload)),
            )
        } else {
            spec_pushes(listeners, module, payload, id)
        },
{
    let wanted = |l: ListenerView| subscribed(l, module);
    lemma_filter_push(listeners, last, wanted);
    if subscribed(last, module) {
        assert(spec_pushes(listeners.push(last), module, payload, id) =~= spec_pushes(
            listeners,
            module,
            payload,
            id,
        ).push((last.id, spec_data_update(id, module.wire_name(), payload))));
    }
}

/// A change to a module sends exactly one frame to each connection whose subscription
/// covers the module, and none to any other connection, in the registry or not.
pub proof fn law_one_push_per_subscriber(
    listeners: Seq<ListenerView>,
    module: Module,
    payload: Value,
    id: Seq<char>,
    connection: Seq<char>,
)
    requires
        distinct_ids(listeners),
    ensures
        pushes_to(spec_pushes(listeners, module, payload, id), connection) == if is_subscriber(
            listeners,
            connection,
            module,
        ) {
            1nat
        } else {
            0nat
        },
    decreases listeners.len(),
{
    let to_connection = goes_to(connection);
    let all = spec_pushes(listeners, module, payload, id);
    if listeners.len() == 0 {
        let wanted = |l: ListenerView| subscribed(l, module);
        lemma_filter_empty(wanted);
        lemma_filter_empty(to_connection);
        assert(listeners =~= Seq::<ListenerView>::empty());
        assert(all =~= Seq::empty());
        assert(!is_subscriber(listeners, connection, module));
    } else {
        let head = listeners.drop_last();
        let last = listeners.last();
        let before = spec_pushes(head, module, payload, id);
        let frame = (last.id, spec_data_update(id, module.wire_name(), payload));
        assert(listeners =~= head.push(last));
        assert(distinct_ids(head));
        law_one_push_per_subscriber(head, module, payload, id, connection);
        lemma_pushes_push(head, last, module, payload, id);
        // Whoever subscribes in the shorter registry does so in the longer one.
        if is_subscriber(head, connection, module) {
            let i = choose|i: int|
                is_place_of(head, connection, i) && subscribed(#[trigger] head[i], module);
            assert(is_place_of(listeners, connection, i) && subscribed(listeners[i], module));
            assert(listeners[i].id != listeners[listeners.len() - 1].id);
            assert(last.id != connection);
        }
        // Whoever subscribes in the longer registry does so in the shorter one, or is
        // the last entry.
        if is_subscriber(listeners, connection, module) {
            let i = choose|i: int|
                is_place_of(listeners, connection, i) && subscribed(#[trigger] listeners[i], module);
            if i < head.len() {
                assert(is_place_of(head, connection, i) && subscribed(head[i], module));
            } else {
                assert(listeners[i] == last);
            }
        }
        if subscribed(last, module) {
            assert(all == before.push(frame));
            lemma_filter_push(before, frame, to_connection);
            if last.id == connection {
                assert(is_place_of(listeners, connection, listeners.len() - 1) && subscribed(
                    listeners[listeners.len() - 1],
                    module,
                ));
                assert(all.filter(to_connection) == before.filter(to_connection).push(frame));
            } else {
                assert(all.filter(to_connection) == before.filter(to_connection));
            }
        } else {
            assert(all == before);
        }
    }
}

/// Setting a subscription keeps each connection once in the registry, and leaves the
/// connection with exactly the modules that were given.
pub proof fn lemma_register_places(
    listeners: Seq<ListenerView>,
    connection: Seq<char>,
    modules: Seq<Seq<char>>,
)
    requires
        distinct_ids(listeners),
    ensures
        distinct_ids(spec_register(listeners, connection, modules)),
        exists|i: int|
            is_place_of(spec_register(listeners, connection, modules), connection, i) && (
            #[trigger] spec_register(listeners, connection, modules)[i]).modules == modules,
{
    let after = spec_register(listeners, connection, modules);
    match spec_position(listeners, connection) {
        Some(i) => {
            assert(is_place_of(listeners, connection, i));
            assert(is_place_of(after, connection, i) && after[i].modules == modules);
        },
        None => {
            let i = listeners.len() as int;
            assert(is_place_of(after, connection, i) && after[i].modules == modules);
            assert forall|a: int, b: int| 0 <= a < b < after.len() implies (#[trigger] after[a]).id
                != (#[trigger] after[b]).id by {
                if b == listeners.len() {
                    assert(!is_place_of(listeners, connection, a));
                }
            }
        },
    }
}

/// Once a connection has subscribed to a list of modules, a change to a module sends
/// it exactly one frame where the list names the module, and none where it does not.
pub proof fn law_subscription_decides_pushes(
    listeners: Seq<ListenerView>,
    connection: Seq<char>,
    modules: Seq<Seq<char>>,
    module: Module,
    payload: Value,
    id: Seq<char>,
)
    requires
        distinct_ids(listeners),
    ensures
        pushes_to(
            spec_pushes(spec_register(listeners, connection, modules), module, payload, id),
            connection,
        ) == if modules.contains(module.wire_name()) {
            1nat
        } else {
            0nat
        },
{
    let after = spec_register(listeners, connection, modules);
    lemma_register_places(listeners, connection, modules);
    law_one_push_per_subscriber(after, module, payload, id, connection);
    let place = choose|i: int|
        is_place_of(after, connection, i) && (#[trigger] after[i]).modules == modules;
    if is_subscriber(after, connection, module) {
        let i = choose|i: int|
            is_place_of(after, connection, i) && subscribed(#[trigger] after[i], module);
        assert(after[i].id == after[place].id);
        assert(i == place);
    }
    if modules.contains(module.wire_name()) {
        assert(is_place_of(after, connection, place) && subscribed(after[place], module));
    }
}

/// Once a connection has withdrawn its subscription, or has gone, no change to any
/// module sends it a frame.
pub proof fn law_no_push_after_leaving(
    listeners: Seq<ListenerView>,
    connection: Seq<char>,
    module: Module,
    payload: Value,
    id: Seq<char>,
)
    requires
        distinct_ids(listeners),
    ensures
        pushes_to(
            spec_pushes(spec_unregister(listeners, connection), module, payload, id),
            connection,
        ) == 0,
        pushes_to(
            spec_pushes(spec_disconnect(listeners, connection), module, payload, id),
            connection,
        ) == 0,
{
    let unregistered = spec_unregister(listeners, connection);
    let disconnected = spec_disconnect(listeners, connection);
    match spec_position(listeners, connection) {
        Some(place) => {
            assert(is_place_of(listeners, connection, place));
            assert(distinct_ids(unregistered));
            assert(distinct_ids(disconnected)) by {
                assert forall|a: int, b: int| 0 <= a < b < disconnected.len() implies (
                #[trigger] disconnected[a]).id != (#[trigger] disconnected[b]).id by {
                    let a0 = if a < place { a } else { a + 1 };
                    let b0 = if b < place { b } else { b + 1 };
                    assert(disconnected[a] == listeners[a0]);
                    assert(disconnected[b] == listeners[b0]);
                }
            }
            if is_subscriber(unregistered, connection, module) {
                let i = choose|i: int|
                    is_place_of(unregistered, connection, i) && subscribed(
                        #[trigger] unregistered[i],
                        module,
                    );
                assert(unregistered[i].id == unregistered[place].id);
                assert(i == place);
                assert(unregistered[place].modules =~= Seq::<Seq<char>>::empty());
            }
            if is_subscriber(disconnected, connection, module) {
                let i = choose|i: int|
                    is_place_of(disconnected, connection, i) && subscribed(
                        #[trigger] disconnected[i],
                        module,
                    );
                let i0 = if i < place { i } else { i + 1 };
                assert(disconnected[i] == listeners[i0]);
                assert(listeners[i0].id == listeners[place].id);
            }
        },
        None => {
            if is_subscriber(listeners, connection, module) {
                let i = choose|i: int|
                    is_place_of(listeners, connection, i) && subscribed(
                        #[trigger] listeners[i],
                        module,
                    );
                assert(is_place_of(listeners, connection, i));
            }
        },
    }
    law_one_push_per_subscriber(unregistered, module, payload, id, connection);
    law_one_push_per_subscriber(disconnected, module, payload, id, connection);
}

fn clone_names(names: &Vec<String>) -> (r: Vec<String>)
    ensures
        views(r@) == views(names@),
{
    let mut copy: Vec<String> = Vec::new();
    let mut i: usize = 0;
    while i < names.len()
        invariant
            i <= names.len(),
            copy@.len() == i,
            forall|j: int| 0 <= j < i ==> (#[trigger] copy@[j])@ == names@[j]@,
        decreases names.len() - i,
    {
        copy.push(names[i].clone());
        i = i + 1;
    }
    assert(views(copy@) =~= views(names@));
    copy
}

fn wants(listener: &DataListener, module: &Module) -> (r: bool)
    ensures
        r == subscribed(listener@, *module),
{
    let name = module.as_str();
    let mut i: usize = 0;
    while i < listener.modules.len()
        invariant
            i <= listener.modules.len(),
            name@ == module.wire_name(),
            forall|j: int| 0 <= j < i ==> listener.modules@[j]@ != name@,
        decreases listener.modules.len() - i,
    {
        if str_eq(listener.modules[i].as_str(), name) {
            assert(views(listener.modules@)[i as int] == name@);
            return true;
        }
        i = i + 1;
    }
    proof {
        if views(listener.modules@).contains(name@) {
            let k = choose|k: int|
                0 <= k < views(listener.modules@).len() && views(listener.modules@)[k] == name@;
            assert(listener.modules@[k]@ == name@);
        }
    }
    false
}

} // verus!
