use cross_kit::calendar::date_cn_from_timestamp_ms;
use cross_kit::counter_vm::{CounterObserver, CounterState, CounterViewModel};
use cross_kit::list_vm::{ListDiff, ListItem, ListObserver, ListViewModel};
use std::sync::atomic::{AtomicUsize, Ordering};
use std::sync::{Arc, Mutex};

#[derive(Debug)]
struct CounterObserverSink {
    states: Mutex<Vec<i32>>,
}

impl CounterObserverSink {
    fn new() -> Self {
        Self {
            states: Mutex::new(Vec::new()),
        }
    }
}

impl CounterObserver for CounterObserverSink {
    fn on_state(&self, state: CounterState) {
        self.states.lock().unwrap().push(state.value);
    }
}

#[derive(Debug)]
struct ListObserverSink {
    calls: Mutex<Vec<Vec<ListDiff>>>,
    call_count: AtomicUsize,
}

impl ListObserverSink {
    fn new() -> Self {
        Self {
            calls: Mutex::new(Vec::new()),
            call_count: AtomicUsize::new(0),
        }
    }
}

impl ListObserver for ListObserverSink {
    fn on_diffs(&self, diffs: Vec<ListDiff>) {
        self.call_count.fetch_add(1, Ordering::SeqCst);
        self.calls.lock().unwrap().push(diffs);
    }
}

    #[test]
    fn counter_emits_state_changes() {
        let mut vm = CounterViewModel::new(3);
        let observer = Arc::new(CounterObserverSink::new());
        vm.subscribe(observer.clone());
        assert_eq!(observer.states.lock().unwrap().as_slice(), &[3]);
        let state = vm.increment();
        assert_eq!(state.value, 4);
        assert_eq!(observer.states.lock().unwrap().as_slice(), &[3, 4]);
    }

    #[test]
    fn list_subscribe_pushes_diff_inserts() {
        let mut vm = ListViewModel::new();
        let _ = vm.insert_with_timestamp(0, 1_000).unwrap();
        let _ = vm.insert_with_timestamp(1, 2_000).unwrap();

        let observer = Arc::new(ListObserverSink::new());
        vm.subscribe(observer.clone());

        let calls = observer.calls.lock().unwrap();
        assert_eq!(calls.len(), 1);
        assert_eq!(calls[0].len(), 2);
        assert!(matches!(calls[0][0], ListDiff::Insert { .. }));
        if let ListDiff::Insert { index, item } = &calls[0][0] {
            assert_eq!(*index, 0);
            assert_eq!(item.timestamp_ms, 1_000);
        }
    }

    #[test]
    fn list_insert_update_remove_emit_diffs() {
        let mut vm = ListViewModel::new();
        let observer = Arc::new(ListObserverSink::new());
        vm.subscribe(observer.clone());

        let item = vm.insert_with_timestamp(0, 10_000).unwrap();
        assert_eq!(item.id, 1);
        let updated = vm.update_with_timestamp(0, 20_000).unwrap();
        assert_eq!(updated.id, item.id);
        let removed = vm.remove_at(0).unwrap();
        assert_eq!(removed.id, item.id);

        let calls = observer.calls.lock().unwrap();
        assert_eq!(calls.len(), 3);
        assert!(matches!(calls[0][0], ListDiff::Insert { .. }));
        assert!(matches!(calls[1][0], ListDiff::Update { .. }));
        assert!(matches!(calls[2][0], ListDiff::Remove { .. }));
    }

    #[test]
    fn list_move_and_sort_emit_moves() {
        let mut vm = ListViewModel::new();
        vm.insert_with_timestamp(0, 1_000).unwrap();
        vm.insert_with_timestamp(1, 3_000).unwrap();
        vm.insert_with_timestamp(2, 2_000).unwrap();

        let observer = Arc::new(ListObserverSink::new());
        vm.subscribe(observer.clone());
        observer.calls.lock().unwrap().clear();

        assert!(vm.move_item(0, 2));
        assert_eq!(vm.len(), 3);

        let calls = observer.calls.lock().unwrap();
        assert_eq!(calls.len(), 1);
        assert!(matches!(calls[0][0], ListDiff::Move { .. }));
        drop(calls);

        observer.calls.lock().unwrap().clear();
        assert!(vm.sort_by_timestamp_desc());
        let calls = observer.calls.lock().unwrap();
        assert!(!calls.is_empty());
        assert!(calls[0].iter().all(|d| matches!(d, ListDiff::Move { .. })));
    }

    #[test]
    fn list_apply_batch_diffs() {
        let mut vm = ListViewModel::new();
        let observer = Arc::new(ListObserverSink::new());
        vm.subscribe(observer.clone());

        let item_a = ListItem {
            id: 10,
            timestamp_ms: 1,
            date_cn: date_cn_from_timestamp_ms(1),
        };
        let item_b = ListItem {
            id: 11,
            timestamp_ms: 2,
            date_cn: date_cn_from_timestamp_ms(2),
        };

        let diffs = vec![
            ListDiff::Insert {
                index: 0,
                item: item_a.clone(),
            },
            ListDiff::Insert {
                index: 1,
                item: item_b.clone(),
            },
            ListDiff::Move { from: 0, to: 1 },
            ListDiff::Update {
                index: 0,
                item: ListItem {
                    id: 11,
                    timestamp_ms: 3,
                    date_cn: date_cn_from_timestamp_ms(3),
                },
            },
            ListDiff::Remove { index: 1, id: 10 },
        ];

        assert!(vm.apply_diffs(diffs.clone()));
        let calls = observer.calls.lock().unwrap();
        assert_eq!(calls.len(), 1);
        assert_eq!(calls[0], diffs);
    }

    #[test]
    fn list_invalid_indices_fail() {
        let mut vm = ListViewModel::new();
        assert!(vm.update_with_timestamp(0, 1).is_none());
        assert!(vm.remove_at(0).is_none());
        assert!(!vm.move_item(-1, 0));
        assert!(vm.insert_with_timestamp(-1, 1).is_none());
    }

    #[test]
    fn list_append_and_insert_now_use_current_time() {
        let mut vm = ListViewModel::new();
        let item = vm.append_now();
        assert_eq!(vm.len(), 1);
        assert!(!item.date_cn.is_empty());

        let item2 = vm.insert_now(1).unwrap();
        assert_eq!(vm.len(), 2);
        assert!(item2.timestamp_ms >= item.timestamp_ms || item2.timestamp_ms <= item.timestamp_ms);
    }

    #[test]
    fn list_move_same_index_is_noop() {
        let mut vm = ListViewModel::new();
        vm.insert_with_timestamp(0, 1_000).unwrap();
        assert!(vm.move_item(0, 0));
    }

    #[test]
    fn list_move_invalid_target_fails() {
        let mut vm = ListViewModel::new();
        vm.insert_with_timestamp(0, 1_000).unwrap();
        assert!(!vm.move_item(0, 1));
    }

    #[test]
    fn list_sort_no_change_returns_false() {
        let mut vm = ListViewModel::new();
        vm.insert_with_timestamp(0, 3_000).unwrap();
        vm.insert_with_timestamp(1, 2_000).unwrap();
        vm.insert_with_timestamp(2, 1_000).unwrap();
        assert!(!vm.sort_by_timestamp_desc());
    }

    #[test]
    fn list_apply_diffs_empty_is_true() {
        let mut vm = ListViewModel::new();
        assert!(vm.apply_diffs(Vec::new()));
    }

    #[test]
    fn list_apply_diffs_invalid_insert_fails() {
        let mut vm = ListViewModel::new();
        let diff = ListDiff::Insert {
            index: 1,
            item: ListItem {
                id: 1,
                timestamp_ms: 1,
                date_cn: date_cn_from_timestamp_ms(1),
            },
        };
        assert!(!vm.apply_diffs(vec![diff]));
    }

    #[test]
    fn list_apply_diffs_invalid_update_fails() {
        let mut vm = ListViewModel::new();
        let diff = ListDiff::Update {
            index: 0,
            item: ListItem {
                id: 1,
                timestamp_ms: 1,
                date_cn: date_cn_from_timestamp_ms(1),
            },
        };
        assert!(!vm.apply_diffs(vec![diff]));
    }

    #[test]
    fn list_apply_diffs_invalid_remove_fails() {
        let mut vm = ListViewModel::new();
        let diff = ListDiff::Remove { index: 0, id: 1 };
        assert!(!vm.apply_diffs(vec![diff]));
    }

    #[test]
    fn list_apply_diffs_invalid_move_fails() {
        let mut vm = ListViewModel::new();
        let diff = ListDiff::Move { from: 0, to: 1 };
        assert!(!vm.apply_diffs(vec![diff]));
    }

    #[test]
    fn list_apply_diffs_move_invalid_target_fails() {
        let mut vm = ListViewModel::new();
        let item = ListItem {
            id: 1,
            timestamp_ms: 1,
            date_cn: date_cn_from_timestamp_ms(1),
        };
        assert!(vm.apply_diffs(vec![ListDiff::Insert { index: 0, item }]));
        assert!(!vm.apply_diffs(vec![ListDiff::Move { from: 0, to: 1 }]));
    }

    #[test]
    fn list_apply_diffs_move_same_index_is_noop() {
        let mut vm = ListViewModel::new();
        let item = ListItem {
            id: 1,
            timestamp_ms: 1,
            date_cn: date_cn_from_timestamp_ms(1),
        };
        assert!(vm.apply_diffs(vec![ListDiff::Insert { index: 0, item }]));
        assert!(vm.apply_diffs(vec![ListDiff::Move { from: 0, to: 0 }]));
    }

    #[test]
    fn date_cn_fallback_for_invalid_timestamp() {
        let date = date_cn_from_timestamp_ms(i64::MAX);
        assert_eq!(date, "1970年01月01日");
    }
