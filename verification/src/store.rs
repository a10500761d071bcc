//! The snapshot store: the latest payload of each module, replaced whole and only when
//! it differs from what is stored.

use crate::json::{document_text, documents_equal, json_equal, json_text};
use crate::modules::{get_module_data, spec_module_data, BadModuleData, Module};
use crate::text::optional_chars;
use serde_json::Value;
use vstd::prelude::*;

verus! {

/// The latest reading of one module.
#[derive(Debug, Clone, PartialEq, Eq)]
pub struct ModuleSnapshot {
    pub module: Module,
    /// The reading: a JSON document that the store does not look into.
    pub payload: Value,
    /// When the payload was stored, by the clock of whoever stored it.
    pub last_written_at: u64,
}

/// What a write did.
#[derive(Debug, Clone, Copy, PartialEq, Eq, Structural)]
pub enum WriteOutcome {
    /// The payload differed from the stored one and replaced it.
    Changed,
    /// The payload was the stored one: nothing was touched.
    NoChange,
}

/// The snapshots of all modules: one place for each kind, empty until the kind has a
/// snapshot.
#[derive(Debug, PartialEq, Eq)]
pub struct ModulesData {
    battery: Option<ModuleSnapshot>,
    cpu: Option<ModuleSnapshot>,
    disks: Option<ModuleSnapshot>,
    displays: Option<ModuleSnapshot>,
    gpus: Option<ModuleSnapshot>,
    media: Option<ModuleSnapshot>,
    memory: Option<ModuleSnapshot>,
    networks: Option<ModuleSnapshot>,
    processes: Option<ModuleSnapshot>,
    sensors: Option<ModuleSnapshot>,
    system: Option<ModuleSnapshot>,
}

impl ModulesData {
    /// What the place of a module holds.
    pub closed spec fn spec_slot(&self, module: Module) -> Option<ModuleSnapshot> {
        match module {
            Module::Battery => self.battery,
            Module::CPU => self.cpu,
            Module::Disks => self.disks,
            Module::Displays => self.displays,
            Module::GPUs => self.gpus,
            Module::Media => self.media,
            Module::Memory => self.memory,
            Module::Networks => self.networks,
            Module::Processes => self.processes,
            Module::Sensors => self.sensors,
            Module::System => self.system,
        }
    }

    fn empty() -> (r: ModulesData)
        ensures
            forall|m: Module| r.spec_slot(m) is None,
    {
        ModulesData {
            battery: None,
            cpu: None,
            disks: None,
            displays: None,
            gpus: None,
            media: None,
            memory: None,
            networks: None,
            processes: None,
            sensors: None,
            system: None,
        }
    }

    fn slot(&self, module: &Module) -> (r: &Option<ModuleSnapshot>)
        ensures
            *r == self.spec_slot(*module),
    {
        match module {
            Module::Battery => &self.battery,
            Module::CPU => &self.cpu,
            Module::Disks => &self.disks,
            Module::Displays => &self.displays,
            Module::GPUs => &self.gpus,
            Module::Media => &self.media,
            Module::Memory => &self.memory,
            Module::Networks => &self.networks,
            Module::Processes => &self.processes,
            Module::Sensors => &self.sensors,
            Module::System => &self.system,
        }
    }

    fn put(&mut self, snapshot: ModuleSnapshot)
        ensures
            forall|m: Module|
                final(self).spec_slot(m) == if m == snapshot.module {
                    Some(snapshot)
                } else {
                    old(self).spec_slot(m)
                },
    {
        match snapshot.module {
            Module::Battery => {
                self.battery = Some(snapshot);
            },
            Module::CPU => {
                self.cpu = Some(snapshot);
            },
            Module::Disks => {
                self.disks = Some(snapshot);
            },
            Module::Displays => {
                self.displays = Some(snapshot);
            },
            Module::GPUs => {
                self.gpus = Some(snapshot);
            },
            Module::Media => {
                self.media = Some(snapshot);
            },
            Module::Memory => {
                self.memory = Some(snapshot);
            },
            Module::Networks => {
                self.networks = Some(snapshot);
            },
            Module::Processes => {
                self.processes = Some(snapshot);
            },
            Module::Sensors => {
                self.sensors = Some(snapshot);
            },
            Module::System => {
                self.system = Some(snapshot);
            },
        }
    }
}

/// The store. Its state is a map from module to snapshot, given by its view.
pub struct ModuleStore {
    data: ModulesData,
}

/// Whether a write of `payload` for `module` leaves the store as it is: the module has
/// a snapshot, and its payload counts as equal to the new one.
pub open spec fn spec_is_stored(
    state: Map<Module, ModuleSnapshot>,
    module: Module,
    payload: Value,
) -> bool {
    state.contains_key(module) && json_equal(state[module].payload, payload)
}

/// The state after a write.
pub open spec fn spec_write(
    state: Map<Module, ModuleSnapshot>,
    module: Module,
    payload: Value,
    now: u64,
) -> Map<Module, ModuleSnapshot> {
    if spec_is_stored(state, module, payload) {
        state
    } else {
        state.insert(module, ModuleSnapshot { module, payload, last_written_at: now })
    }
}

/// What a write reports.
pub open spec fn spec_write_outcome(
    state: Map<Module, ModuleSnapshot>,
    module: Module,
    payload: Value,
) -> WriteOutcome {
    if spec_is_stored(state, module, payload) {
        WriteOutcome::NoChange
    } else {
        WriteOutcome::Changed
    }
}

impl ModuleStore {
    /// The state of the store: the snapshot of each module that has one, filed under
    /// that module.
    pub closed spec fn view(&self) -> Map<Module, ModuleSnapshot> {
        Map::new(
            |m: Module| self.data.spec_slot(m) is Some,
            |m: Module| self.data.spec_slot(m)->0,
        )
    }

    /// A store without snapshots.
    pub fn new() -> (r: ModuleStore)
        ensures
            r@ == Map::<Module, ModuleSnapshot>::empty(),
    {
        let r = ModuleStore { data: ModulesData::empty() };
        assert(r@ =~= Map::<Module, ModuleSnapshot>::empty());
        r
    }

    /// The payload of a module's snapshot; `Missing` where the module has none.
    pub fn read(&self, module: &Module) -> (r: Result<Value, BadModuleData>)
        ensures
            r == (if self@.contains_key(*module) {
                Ok::<Value, BadModuleData>(self@[*module].payload)
            } else {
                Err::<Value, BadModuleData>(BadModuleData::Missing { module: *module })
            }),
    {
        match self.data.slot(module) {
            Some(snapshot) => Ok(snapshot.payload.clone()),
            None => Err(BadModuleData::Missing { module: *module }),
        }
    }

    /// When a module's snapshot was stored; `None` where the module has none.
    pub fn last_written_at(&self, module: &Module) -> (r: Option<u64>)
        ensures
            r == (if self@.contains_key(*module) {
                Some(self@[*module].last_written_at)
            } else {
                None
            }),
    {
        match self.data.slot(module) {
            Some(snapshot) => Some(snapshot.last_written_at),
            None => None,
        }
    }

    /// The text to keep on disk for a module: the compact JSON of its payload. `None`
    /// where the module has no snapshot.
    pub fn file_contents(&self, module: &Module) -> (r: Option<String>)
        ensures
            (match r {
                Some(text) => Some(text@),
                None => None,
            }) == (if self@.contains_key(*module) {
                Some(json_text(self@[*module].payload))
            } else {
                None
            }),
    {
        match self.data.slot(module) {
            Some(snapshot) => Some(document_text(&snapshot.payload)),
            None => None,
        }
    }

    /// Stores a payload for a module, unless it compares equal to the one stored. A
    /// payload that differs, or the first one for the module, replaces the snapshot
    /// whole, with `now` as its time, and is reported as `Changed`. One that compares
    /// equal leaves the store untouched, its time too, and is reported as `NoChange`.
    /// No other module's snapshot is touched either way.
    pub fn write(&mut self, module: Module, payload: Value, now: u64) -> (r: WriteOutcome)
        ensures
            r == spec_write_outcome(old(self)@, module, payload),
            final(self)@ == spec_write(old(self)@, module, payload, now),
    {
        let same = match self.data.slot(&module) {
            Some(snapshot) => documents_equal(&snapshot.payload, &payload),
            None => false,
        };
        if same {
            WriteOutcome::NoChange
        } else {
            let ghost before = self@;
            self.data.put(ModuleSnapshot { module, payload, last_written_at: now });
            assert(self@ =~= spec_write(before, module, payload, now));
            WriteOutcome::Changed
        }
    }

    /// Takes in what a module's snapshot file holds (`None` where the file is missing
    /// or cannot be read): the text is parsed and the document written as `write` does.
    /// A missing file or a text that is not JSON is an error, and leaves the store
    /// untouched.
    pub fn load(&mut self, module: Module, contents: Option<&str>, now: u64) -> (r: Result<
        WriteOutcome,
        BadModuleData,
    >)
        ensures
            match spec_module_data(module, optional_chars(contents)) {
                Ok(payload) => r == Ok::<WriteOutcome, BadModuleData>(
                    spec_write_outcome(old(self)@, module, payload),
                ) && final(self)@ == spec_write(old(self)@, module, payload, now),
                Err(e) => r == Err::<WriteOutcome, BadModuleData>(e) && final(self)@ == old(
                    self,
                )@,
            },
    {
        match get_module_data(&module, contents) {
            Ok(payload) => Ok(self.write(module, payload, now)),
            Err(e) => Err(e),
        }
    }
}

/// Writing a payload a second time changes nothing: whatever the first write did, the
/// second reports `NoChange` and leaves the store, the snapshot's time included, as
/// the first write left it.
pub proof fn law_second_write_changes_nothing(
    state: Map<Module, ModuleSnapshot>,
    module: Module,
    payload: Value,
    first: u64,
    second: u64,
)
    ensures
        spec_write_outcome(spec_write(state, module, payload, first), module, payload)
            == WriteOutcome::NoChange,
        spec_write(spec_write(state, module, payload, first), module, payload, second)
            == spec_write(state, module, payload, first),
{
}

/// A write of a payload that differs from the stored one is reported as `Changed`
/// and puts the payload in the module's place, with the time of the write. Every
/// other module keeps what it had.
pub proof fn law_changed_write_replaces(
    state: Map<Module, ModuleSnapshot>,
    module: Module,
    payload: Value,
    now: u64,
)
    requires
        !spec_is_stored(state, module, payload),
    ensures
        spec_write_outcome(state, module, payload) == WriteOutcome::Changed,
        spec_write(state, module, payload, now).contains_key(module),
        spec_write(state, module, payload, now)[module] == (ModuleSnapshot {
            module,
            payload,
            last_written_at: now,
        }),
        forall|other: Module|
            other != module ==> spec_write(state, module, payload, now).contains_key(other)
                == state.contains_key(other) && spec_write(state, module, payload, now)[other]
                == state[other],
{
}

/// After a write, the module has a snapshot whose payload counts as equal to the one
/// written: it is the payload itself where the write changed the store, and the one
/// that the write found equal to it where it did not.
pub proof fn law_read_after_write(
    state: Map<Module, ModuleSnapshot>,
    module: Module,
    payload: Value,
    now: u64,
)
    ensures
        spec_write(state, module, payload, now).contains_key(module),
        json_equal(spec_write(state, module, payload, now)[module].payload, payload),
{
}

/// What a producer handed in for one module: a payload, or the reason it has none.
#[derive(Debug, PartialEq, Eq)]
pub struct ModuleResult {
    pub module: Module,
    pub data: Result<Value, String>,
}

/// The state after one producer's result was taken in: a payload is written, a
/// failure changes nothing.
pub open spec fn spec_apply(state: Map<Module, ModuleSnapshot>, result: ModuleResult, now: u64) -> Map<
    Module,
    ModuleSnapshot,
> {
    match result.data {
        Ok(payload) => spec_write(state, result.module, payload, now),
        Err(_) => state,
    }
}

/// Whether taking in one producer's result changes the module's snapshot.
pub open spec fn spec_applies(state: Map<Module, ModuleSnapshot>, result: ModuleResult) -> bool {
    match result.data {
        Ok(payload) => !spec_is_stored(state, result.module, payload),
        Err(_) => false,
    }
}

/// The state after a pass over the producers' results, taken in from first to last.
pub open spec fn spec_update_state(
    state: Map<Module, ModuleSnapshot>,
    results: Seq<ModuleResult>,
    now: u64,
) -> Map<Module, ModuleSnapshot>
    decreases results.len(),
{
    if results.len() == 0 {
        state
    } else {
        spec_apply(spec_update_state(state, results.drop_last(), now), results.last(), now)
    }
}

/// The modules whose snapshot a pass changes, in the order of the results: each
/// result that, taken in after those before it, changes its module's snapshot.
pub open spec fn spec_update_changes(
    state: Map<Module, ModuleSnapshot>,
    results: Seq<ModuleResult>,
    now: u64,
) -> Seq<Module>
    decreases results.len(),
{
    if results.len() == 0 {
        Seq::empty()
    } else {
        let before = spec_update_state(state, results.drop_last(), now);
        let changes = spec_update_changes(state, results.drop_last(), now);
        if spec_applies(before, results.last()) {
            changes.push(results.last().module)
        } else {
            changes
        }
    }
}

/// One pass of the collector over what the producers handed in. Each payload is
/// written to the store as `ModuleStore::write` does; a producer's failure is skipped
/// and never ends the pass. The result names, in the order of the results, the modules
/// whose snapshot changed: those are the ones to tell the listeners about.
pub fn update_modules(store: &mut ModuleStore, results: Vec<ModuleResult>, now: u64) -> (r: Vec<
    Module,
>)
    ensures
        final(store)@ == spec_update_state(old(store)@, results@, now),
        r@ == spec_update_changes(old(store)@, results@, now),
{
    let mut changed: Vec<Module> = Vec::new();
    let mut results = results;
    let ghost all = results@;
    let ghost start = store@;
    let mut i: usize = 0;
    while i < results.len()
        invariant
            i <= results.len(),
            results@ == all,
            store@ == spec_update_state(start, all.take(i as int), now),
            changed@ == spec_update_changes(start, all.take(i as int), now),
        decreases results.len() - i,
    {
        proof {
            assert(all.take(i + 1).drop_last() =~= all.take(i as int));
            assert(all.take(i + 1).last() == all[i as int]);
        }
        let module = results[i].module;
        match &results[i].data {
            Ok(payload) => {
                match store.write(module, payload.clone(), now) {
                    WriteOutcome::Changed => {
                        changed.push(module);
                    },
                    WriteOutcome::NoChange => {},
                }
            },
            Err(_) => {},
        }
        i = i + 1;
    }
    proof {
        assert(all.take(all.len() as int) =~= all);
    }
    changed
}

} // verus!
