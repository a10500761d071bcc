use serde_json::Value;
use systembridge::modules::{BadModuleData, Module};
use systembridge::store::{update_modules, ModuleResult, ModuleStore, WriteOutcome};

fn json(text: &str) -> Value {
    serde_json::from_str(text).unwrap()
}

#[test]
fn a_new_store_has_no_snapshots() {
    let store = ModuleStore::new();
    for module in Module::all() {
        assert_eq!(store.read(&module), Err(BadModuleData::Missing { module }));
        assert_eq!(store.last_written_at(&module), None);
        assert_eq!(store.file_contents(&module), None);
    }
}

#[test]
fn the_first_write_changes_the_store() {
    let mut store = ModuleStore::new();
    assert_eq!(store.write(Module::CPU, json("{\"usage\":1}"), 10), WriteOutcome::Changed);
    assert_eq!(store.read(&Module::CPU), Ok(json("{\"usage\":1}")));
    assert_eq!(store.last_written_at(&Module::CPU), Some(10));
    assert_eq!(store.read(&Module::Battery), Err(BadModuleData::Missing { module: Module::Battery }));
}

#[test]
fn the_same_value_twice_is_written_once() {
    let mut store = ModuleStore::new();
    assert_eq!(store.write(Module::CPU, json("{\"usage\":1}"), 10), WriteOutcome::Changed);
    assert_eq!(store.write(Module::CPU, json("{\"usage\":1}"), 20), WriteOutcome::NoChange);
    assert_eq!(store.last_written_at(&Module::CPU), Some(10));
    assert_eq!(store.write(Module::CPU, json(" { \"usage\" : 1 } "), 30), WriteOutcome::NoChange);
    assert_eq!(store.last_written_at(&Module::CPU), Some(10));
}

#[test]
fn equal_documents_with_other_key_order_are_no_change() {
    let mut store = ModuleStore::new();
    store.write(Module::CPU, json("{\"a\":1,\"b\":[1,2]}"), 1);
    assert_eq!(store.write(Module::CPU, json("{\"b\":[1,2],\"a\":1}"), 2), WriteOutcome::NoChange);
    assert_eq!(store.write(Module::CPU, json("{\"b\":[2,1],\"a\":1}"), 3), WriteOutcome::Changed);
    assert_eq!(store.last_written_at(&Module::CPU), Some(3));
}

#[test]
fn a_changed_value_replaces_the_snapshot_and_its_time() {
    let mut store = ModuleStore::new();
    store.write(Module::CPU, json("{\"usage\":1}"), 10);
    store.write(Module::Battery, json("{\"percentage\":50}"), 11);
    assert_eq!(store.write(Module::CPU, json("{\"usage\":2}"), 20), WriteOutcome::Changed);
    assert_eq!(store.read(&Module::CPU), Ok(json("{\"usage\":2}")));
    assert_eq!(store.last_written_at(&Module::CPU), Some(20));
    assert_eq!(store.read(&Module::Battery), Ok(json("{\"percentage\":50}")));
    assert_eq!(store.last_written_at(&Module::Battery), Some(11));
    assert_eq!(store.write(Module::CPU, json("{\"usage\":1}"), 30), WriteOutcome::Changed);
    assert_eq!(store.last_written_at(&Module::CPU), Some(30));
}

#[test]
fn every_module_has_its_own_place() {
    let mut store = ModuleStore::new();
    for (i, module) in Module::all().into_iter().enumerate() {
        let payload = json(&format!("{{\"n\":{}}}", i));
        assert_eq!(store.write(module, payload, i as u64), WriteOutcome::Changed);
    }
    for (i, module) in Module::all().into_iter().enumerate() {
        assert_eq!(store.read(&module), Ok(json(&format!("{{\"n\":{}}}", i))));
        assert_eq!(store.last_written_at(&module), Some(i as u64));
    }
}

#[test]
fn file_contents_are_the_compact_text() {
    let mut store = ModuleStore::new();
    store.write(Module::CPU, json(" { \"usage\" : [ 1 , 2 ] , \"a\" : \"x\" } "), 1);
    assert_eq!(store.file_contents(&Module::CPU), Some("{\"a\":\"x\",\"usage\":[1,2]}".to_string()));
    store.write(Module::Processes, json("[]"), 1);
    assert_eq!(store.file_contents(&Module::Processes), Some("[]".to_string()));
}

#[test]
fn load_takes_in_a_file() {
    let mut store = ModuleStore::new();
    assert_eq!(store.load(Module::CPU, Some("{\"usage\": 3}"), 5), Ok(WriteOutcome::Changed));
    assert_eq!(store.read(&Module::CPU), Ok(json("{\"usage\":3}")));
    assert_eq!(store.load(Module::CPU, Some("{\"usage\":3}"), 6), Ok(WriteOutcome::NoChange));
    assert_eq!(store.last_written_at(&Module::CPU), Some(5));
}

#[test]
fn load_rejects_a_bad_file_and_keeps_the_store() {
    let mut store = ModuleStore::new();
    store.write(Module::CPU, json("{\"usage\":1}"), 1);
    assert_eq!(
        store.load(Module::CPU, None, 2),
        Err(BadModuleData::Missing { module: Module::CPU })
    );
    assert_eq!(
        store.load(Module::CPU, Some("{oops"), 2),
        Err(BadModuleData::Malformed { module: Module::CPU })
    );
    assert_eq!(store.read(&Module::CPU), Ok(json("{\"usage\":1}")));
    assert_eq!(store.last_written_at(&Module::CPU), Some(1));
}

#[test]
fn a_pass_writes_what_changed_and_skips_failures() {
    let mut store = ModuleStore::new();
    store.write(Module::CPU, json("{\"usage\":1}"), 1);
    let results = vec![
        ModuleResult { module: Module::Battery, data: Ok(json("{\"percentage\":9}")) },
        ModuleResult { module: Module::CPU, data: Ok(json("{\"usage\":1}")) },
        ModuleResult { module: Module::Disks, data: Err("no disks".to_string()) },
        ModuleResult { module: Module::System, data: Ok(json("{\"uptime\":5}")) },
    ];
    assert_eq!(update_modules(&mut store, results, 7), vec![Module::Battery, Module::System]);
    assert_eq!(store.last_written_at(&Module::Battery), Some(7));
    assert_eq!(store.last_written_at(&Module::CPU), Some(1));
    assert_eq!(store.last_written_at(&Module::System), Some(7));
    assert_eq!(store.read(&Module::Disks), Err(BadModuleData::Missing { module: Module::Disks }));
}

#[test]
fn a_pass_with_one_module_twice_tells_it_once() {
    let mut store = ModuleStore::new();
    let results = vec![
        ModuleResult { module: Module::CPU, data: Ok(json("{\"usage\":1}")) },
        ModuleResult { module: Module::CPU, data: Ok(json("{\"usage\":1}")) },
        ModuleResult { module: Module::CPU, data: Ok(json("{\"usage\":2}")) },
    ];
    assert_eq!(update_modules(&mut store, results, 3), vec![Module::CPU, Module::CPU]);
    assert_eq!(store.read(&Module::CPU), Ok(json("{\"usage\":2}")));
    assert_eq!(update_modules(&mut store, vec![], 4), vec![]);
}
