use cross_kit::runtime::{metadata_json, CkVmMetadata, ObserverSet};
use std::sync::{
    atomic::{AtomicBool, Ordering},
    Arc, Mutex, Weak,
};

struct ManualMetadata;

impl CkVmMetadata for ManualMetadata {
    fn ck_vm_metadata() -> &'static str {
        r#"{"name":"manual"}"#
    }
}

struct FirstViewModel;
struct SecondViewModel;

impl CkVmMetadata for FirstViewModel {
    fn ck_vm_metadata() -> &'static str {
        r#"{"name":"FirstViewModel"}"#
    }
}

impl CkVmMetadata for SecondViewModel {
    fn ck_vm_metadata() -> &'static str {
        r#"{"name":"SecondViewModel"}"#
    }
}

/// What a metadata binary's `main` does for these two VMs.
fn metadata_main() {
    let metadata = [
        <FirstViewModel as CkVmMetadata>::ck_vm_metadata(),
        <SecondViewModel as CkVmMetadata>::ck_vm_metadata(),
    ];
    println!("{}", metadata_json(&metadata));
}

#[test]
fn metadata_main_runs_without_extra_user_namespace_items() {
    metadata_main();
}

    #[test]
    fn metadata_trait_is_available_to_runtime_users() {
        let metadata: serde_json::Value =
            serde_json::from_str(ManualMetadata::ck_vm_metadata()).unwrap();
        assert_eq!(metadata["name"], "manual");
    }

    #[test]
    fn metadata_json_builds_valid_array_without_escaping_metadata() {
        let metadata = metadata_json(&[r#"{"name":"first"}"#, r#"{"name":"second"}"#]);
        let parsed: serde_json::Value = serde_json::from_str(&metadata).unwrap();
        assert_eq!(parsed.as_array().unwrap().len(), 2);
        assert_eq!(parsed[0]["name"], "first");
        assert_eq!(parsed[1]["name"], "second");
    }

    #[test]
    fn observer_set_returns_unique_ids_and_tracks_len() {
        let observers = ObserverSet::<dyn Fn() + Send + Sync>::default();
        let cloned_observers = observers.clone();

        let first = observers.subscribe(Arc::new(|| {}));
        let second = observers.subscribe(Arc::new(|| {}));

        assert_eq!(first, 1);
        assert_eq!(second, 2);
        assert_eq!(cloned_observers.len(), 2);
        assert_eq!(observers.len(), 2);
        assert!(!observers.is_empty());
    }

    #[test]
    fn observer_set_unsubscribe_stops_future_notifications() {
        let observers = ObserverSet::<dyn Fn() + Send + Sync>::new();
        let hits = Arc::new(Mutex::new(0));
        let first_hits = hits.clone();
        let first = observers.subscribe(Arc::new(move || {
            *first_hits.lock().unwrap() += 1;
        }));
        let second_hits = hits.clone();
        observers.subscribe(Arc::new(move || {
            *second_hits.lock().unwrap() += 10;
        }));

        observers.notify(|observer| observer());
        assert_eq!(*hits.lock().unwrap(), 11);
        *hits.lock().unwrap() = 0;
        assert!(observers.unsubscribe(first));
        assert!(!observers.unsubscribe(first));
        observers.notify(|observer| observer());

        assert_eq!(*hits.lock().unwrap(), 10);
    }

    #[test]
    fn observer_set_notify_allows_unsubscribe_from_callback() {
        let observers = ObserverSet::<dyn Fn() + Send + Sync>::new();
        let weak_set: Arc<Mutex<Weak<ObserverSet<dyn Fn() + Send + Sync>>>> =
            Arc::new(Mutex::new(Weak::new()));
        let remove_id = Arc::new(Mutex::new(0));
        let remove_id_for_callback = remove_id.clone();
        let weak_set_for_callback = weak_set.clone();
        let id = observers.subscribe(Arc::new(move || {
            if let Some(set) = weak_set_for_callback.lock().unwrap().upgrade() {
                set.unsubscribe(*remove_id_for_callback.lock().unwrap());
            }
        }));
        *remove_id.lock().unwrap() = id;
        let shared_set = Arc::new(observers);
        *weak_set.lock().unwrap() = Arc::downgrade(&shared_set);

        shared_set.notify(|observer| observer());

        assert!(shared_set.is_empty());
    }

    #[test]
    fn observer_set_notify_uses_snapshot_for_new_subscribers() {
        let observers = Arc::new(ObserverSet::<dyn Fn() + Send + Sync>::new());
        let calls = Arc::new(Mutex::new(Vec::new()));
        let subscribed_second = Arc::new(AtomicBool::new(false));

        let observers_for_callback = observers.clone();
        let calls_for_callback = calls.clone();
        let subscribed_second_for_callback = subscribed_second.clone();
        observers.subscribe(Arc::new(move || {
            calls_for_callback.lock().unwrap().push("first");
            if !subscribed_second_for_callback.swap(true, Ordering::SeqCst) {
                let calls_for_second = calls_for_callback.clone();
                observers_for_callback.subscribe(Arc::new(move || {
                    calls_for_second.lock().unwrap().push("second");
                }));
            }
        }));

        observers.notify(|observer| observer());
        assert_eq!(calls.lock().unwrap().as_slice(), &["first"]);

        calls.lock().unwrap().clear();
        observers.notify(|observer| observer());
        let calls = calls.lock().unwrap();
        assert_eq!(calls.len(), 2);
        assert!(calls.contains(&"first"));
        assert!(calls.contains(&"second"));
    }

    #[test]
    fn observer_set_notify_allows_reentrant_notify() {
        let observers = Arc::new(ObserverSet::<dyn Fn() + Send + Sync>::new());
        let calls = Arc::new(Mutex::new(Vec::new()));
        let reentered = Arc::new(AtomicBool::new(false));

        let observers_for_callback = observers.clone();
        let calls_for_callback = calls.clone();
        let reentered_for_callback = reentered.clone();
        observers.subscribe(Arc::new(move || {
            calls_for_callback.lock().unwrap().push("call");
            if !reentered_for_callback.swap(true, Ordering::SeqCst) {
                observers_for_callback.notify(|observer| observer());
            }
        }));

        observers.notify(|observer| observer());

        assert_eq!(calls.lock().unwrap().as_slice(), &["call", "call"]);
    }

    #[test]
    fn observer_set_empty_notify_is_noop() {
        let observers = ObserverSet::<dyn Fn() + Send + Sync>::new();

        observers.notify(|observer| observer());
        assert!(observers.is_empty());
    }
