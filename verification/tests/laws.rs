use cross_kit::calendar::date_cn_from_timestamp_ms;
use cross_kit::codegen::CodegenError;
use cross_kit::ios::{platform_for_target, resolve_targets};
use cross_kit::kotlin::generate_kotlin_bridge_source;
use cross_kit::list_vm::{ListDiff, ListItem, ListObserver, ListViewModel};
use cross_kit::metadata::{
    ArgMetadata, MethodMetadata, ObserverMetadata, VmMetadata, VmMode, VM_METADATA_SCHEMA_VERSION,
};
use cross_kit::runtime::Registry;
use cross_kit::swift::generate_swift_bridge_source;
use std::sync::{Arc, Mutex};

struct Recorder {
    calls: Mutex<Vec<Vec<ListDiff>>>,
}

impl Recorder {
    fn new() -> Arc<Self> {
        Arc::new(Recorder {
            calls: Mutex::new(Vec::new()),
        })
    }

    fn take(&self) -> Vec<ListDiff> {
        let mut calls = self.calls.lock().unwrap();
        let all = calls.concat();
        calls.clear();
        all
    }
}

impl ListObserver for Recorder {
    fn on_diffs(&self, diffs: Vec<ListDiff>) {
        self.calls.lock().unwrap().push(diffs);
    }
}

/// The items of `vm`, read back through the inserts a new subscriber gets.
fn items_of(vm: &mut ListViewModel) -> Vec<ListItem> {
    let recorder = Recorder::new();
    vm.subscribe(recorder.clone());
    recorder
        .take()
        .into_iter()
        .map(|diff| match diff {
            ListDiff::Insert { item, .. } => item,
            other => panic!("unexpected diff on subscribe: {other:?}"),
        })
        .collect()
}

fn list_with(timestamps: &[i64]) -> ListViewModel {
    let mut vm = ListViewModel::new();
    for (i, ts) in timestamps.iter().enumerate() {
        vm.insert_with_timestamp(i as i64, *ts).unwrap();
    }
    vm
}

/// Replays `diffs` onto a list holding `items`.
fn replay(items: Vec<ListItem>, diffs: Vec<ListDiff>) -> Vec<ListItem> {
    let mut copy = ListViewModel::new();
    let inserts = items
        .into_iter()
        .enumerate()
        .map(|(i, item)| ListDiff::Insert {
            index: i as i64,
            item,
        })
        .collect();
    assert!(copy.apply_diffs(inserts));
    assert!(copy.apply_diffs(diffs));
    items_of(&mut copy)
}

#[test]
fn sort_moves_replay_to_the_sorted_list() {
    let mut vm = list_with(&[1_000, 3_000, 2_000, 5_000, 4_000]);
    let before = items_of(&mut vm);
    let recorder = Recorder::new();
    vm.subscribe(recorder.clone());
    recorder.take();

    assert!(vm.sort_by_timestamp_desc());
    let moves = recorder.take();
    assert!(moves.iter().all(|d| matches!(d, ListDiff::Move { .. })));

    let after = items_of(&mut vm);
    let stamps: Vec<i64> = after.iter().map(|item| item.timestamp_ms).collect();
    assert_eq!(stamps, vec![5_000, 4_000, 3_000, 2_000, 1_000]);
    assert_eq!(replay(before, moves), after);
    assert!(!vm.sort_by_timestamp_desc());
}

#[test]
fn every_change_replays_onto_a_copy() {
    let mut vm = list_with(&[10, 20, 30]);
    let before = items_of(&mut vm);
    let recorder = Recorder::new();
    vm.subscribe(recorder.clone());
    recorder.take();

    vm.insert_with_timestamp(1, 15).unwrap();
    vm.update_with_timestamp(0, 11).unwrap();
    assert!(vm.move_item(3, 0));
    vm.remove_at(2).unwrap();

    let diffs = recorder.take();
    assert_eq!(diffs.len(), 4);
    assert_eq!(replay(before, diffs), items_of(&mut vm));
}

#[test]
fn remove_undoes_insert() {
    let mut vm = list_with(&[10, 20]);
    let before = items_of(&mut vm);
    let inserted = vm.insert_with_timestamp(1, 99).unwrap();
    let removed = vm.remove_at(1).unwrap();
    assert_eq!(inserted, removed);
    assert_eq!(items_of(&mut vm), before);
}

#[test]
fn subscribe_replays_the_current_items_in_order() {
    let mut vm = list_with(&[7, 8, 9]);
    let recorder = Recorder::new();
    vm.subscribe(recorder.clone());
    let diffs = recorder.take();
    let indices: Vec<i64> = diffs
        .iter()
        .map(|d| match d {
            ListDiff::Insert { index, .. } => *index,
            _ => -1,
        })
        .collect();
    assert_eq!(indices, vec![0, 1, 2]);
    assert_eq!(replay(Vec::new(), diffs), items_of(&mut vm));
}

#[test]
fn registry_ids_are_fresh_and_unsubscribe_undoes_subscribe() {
    let mut registry: Registry<u8> = Registry::new();
    let a = registry.subscribe(Arc::new(1));
    let b = registry.subscribe(Arc::new(2));
    assert_eq!((a, b), (1, 2));
    let mut before: Vec<u8> = registry.snapshot().iter().map(|o| **o).collect();
    before.sort();
    assert_eq!(before, vec![1, 2]);

    let c = registry.subscribe(Arc::new(3));
    assert_eq!(c, 3);
    assert_eq!(registry.len(), 3);
    assert!(registry.unsubscribe(c));
    let mut after: Vec<u8> = registry.snapshot().iter().map(|o| **o).collect();
    after.sort();
    assert_eq!(after, before);
    assert!(!registry.unsubscribe(c));

    assert!(registry.unsubscribe(a));
    assert_eq!(registry.len(), 1);
    assert_eq!(registry.subscribe(Arc::new(4)), 4);
}

fn event_metadata() -> VmMetadata {
    VmMetadata {
        schema_version: VM_METADATA_SCHEMA_VERSION,
        rust_type: "Ticker".to_string(),
        bridge_name: "TickerBridge".to_string(),
        mode: VmMode::Event,
        observer: Some(ObserverMetadata {
            rust_type: "TickObserver".to_string(),
            method: "on_event".to_string(),
        }),
        state_type: None,
        diff_type: None,
        list_item_type: None,
        factory: None,
        methods: vec![MethodMetadata {
            name: "subscribe".to_string(),
            args: vec![ArgMetadata {
                name: "observer".to_string(),
                rust_type: "Arc<dyn TickObserver>".to_string(),
            }],
            return_type: "i64".to_string(),
        }],
    }
}

#[test]
fn swift_and_kotlin_bridges_accept_and_refuse_alike() {
    let event = event_metadata();
    let swift = generate_swift_bridge_source(&event).unwrap_err();
    let kotlin = generate_kotlin_bridge_source(&event, "com.example").unwrap_err();
    assert_eq!(swift, CodegenError::UnsupportedMode(VmMode::Event));
    assert_eq!(swift, kotlin);

    let mut unknown = event_metadata();
    unknown.schema_version = 2;
    assert_eq!(
        generate_swift_bridge_source(&unknown).unwrap_err(),
        generate_kotlin_bridge_source(&unknown, "com.example").unwrap_err()
    );
}

#[test]
fn resolved_targets_are_supported_apple_targets() {
    let aliases = ["ios", "ios-sim", "ios-sim-x86_64", "macos", "macos-x86_64"];
    let targets = resolve_targets(Some(aliases.iter().map(ToString::to_string).collect())).unwrap();
    assert_eq!(
        targets,
        vec![
            "aarch64-apple-ios",
            "aarch64-apple-ios-sim",
            "x86_64-apple-ios",
            "aarch64-apple-darwin",
            "x86_64-apple-darwin"
        ]
    );
    assert!(targets.iter().all(|t| platform_for_target(t).is_ok()));
}

#[test]
fn epoch_date_and_calendar_dates() {
    assert_eq!(date_cn_from_timestamp_ms(0), "1970年01月01日");
    assert_eq!(date_cn_from_timestamp_ms(1_704_412_800_000), "2024年01月05日");
    assert_eq!(date_cn_from_timestamp_ms(-86_400_000), "1969年12月31日");
}

/// An observer that hands every batch to a second view model.
struct Forwarder {
    replica: Mutex<ListViewModel>,
    accepted: Mutex<Vec<bool>>,
}

impl ListObserver for Forwarder {
    fn on_diffs(&self, diffs: Vec<ListDiff>) {
        let ok = self.replica.lock().unwrap().apply_diffs(diffs);
        self.accepted.lock().unwrap().push(ok);
    }
}

#[test]
fn a_forwarded_replica_follows_every_call() {
    let mut vm = ListViewModel::new();
    let forwarder = Arc::new(Forwarder {
        replica: Mutex::new(ListViewModel::new()),
        accepted: Mutex::new(Vec::new()),
    });
    vm.subscribe(forwarder.clone());

    let check = |vm: &mut ListViewModel| {
        let mine = items_of(vm);
        let theirs = items_of(&mut forwarder.replica.lock().unwrap());
        assert_eq!(mine, theirs);
        assert!(forwarder.accepted.lock().unwrap().iter().all(|ok| *ok));
    };
    vm.insert_with_timestamp(0, 1_000).unwrap();
    check(&mut vm);
    vm.append_now();
    check(&mut vm);
    vm.insert_now(1).unwrap();
    check(&mut vm);
    vm.update_with_timestamp(0, 9_000).unwrap();
    check(&mut vm);
    assert!(vm.move_item(2, 0));
    check(&mut vm);
    vm.sort_by_timestamp_desc();
    check(&mut vm);
    vm.remove_at(1).unwrap();
    check(&mut vm);
    assert!(forwarder.accepted.lock().unwrap().len() >= 6);
}

#[test]
fn sort_moves_take_items_forward() {
    let mut vm = list_with(&[1_000, 3_000, 2_000, 5_000, 4_000]);
    let recorder = Recorder::new();
    vm.subscribe(recorder.clone());
    recorder.take();
    assert!(vm.sort_by_timestamp_desc());
    let moves = recorder.take();
    assert!(!moves.is_empty());
    for diff in moves {
        match diff {
            ListDiff::Move { from, to } => assert!(from > to),
            other => panic!("unexpected diff from a sort: {other:?}"),
        }
    }
}
