use std::cell::RefCell;
use std::collections::HashMap;

use config_store::begin;
use config_store::resolve;
use config_store::ConfigStore;
use config_store::ResolutionError;
use config_store::Step;
use config_store::StoreError;
use config_store::TargetShape;

/// A store that answers from a table, fails on chosen requests, and remembers what it was
/// asked for.
struct TableStore {
    entries: HashMap<String, String>,
    unavailable_at: Option<usize>,
    asked: RefCell<Vec<String>>,
}

impl TableStore {
    fn holding(entries: &[(&str, &str)]) -> Self {
        TableStore {
            entries: entries
                .iter()
                .map(|(key, value)| (key.to_string(), value.to_string()))
                .collect(),
            unavailable_at: None,
            asked: RefCell::new(Vec::new()),
        }
    }

    fn unavailable_at(mut self, request: usize) -> Self {
        self.unavailable_at = Some(request);
        self
    }

    fn asked(&self) -> Vec<String> {
        self.asked.borrow().clone()
    }
}

impl ConfigStore for TableStore {
    fn get_parameter(&self, key: &str) -> Result<String, StoreError> {
        let request = self.asked.borrow().len();
        self.asked.borrow_mut().push(key.to_string());
        if self.unavailable_at == Some(request) {
            return Err(StoreError::StoreUnavailable { detail: "connection reset".to_string() });
        }
        match self.entries.get(key) {
            Some(value) => Ok(value.clone()),
            None => Err(StoreError::KeyNotFound { key: key.to_string() }),
        }
    }
}

fn record(fields: &[&str]) -> TargetShape {
    TargetShape::Record { fields: fields.iter().map(|name| name.to_string()).collect() }
}

fn texts(values: &[&str]) -> Vec<String> {
    values.iter().map(|value| value.to_string()).collect()
}

#[test]
fn resolves_a_record_of_two_fields() {
    let store = TableStore::holding(&[("api-endpoint", "https://x"), ("retry-count", "3")]);
    let shape = record(&["api_endpoint", "retry_count"]);
    assert_eq!(resolve(&shape, &store), Ok(texts(&["https://x", "3"])));
    assert_eq!(store.asked(), texts(&["api-endpoint", "retry-count"]));
}

#[test]
fn fails_for_the_missing_field_after_asking_for_the_one_before() {
    let store = TableStore::holding(&[("api-endpoint", "https://x")]);
    let shape = record(&["api_endpoint", "retry_count"]);
    assert_eq!(
        resolve(&shape, &store),
        Err(ResolutionError::FieldResolutionFailed {
            field_name: "retry_count".to_string(),
            cause: StoreError::KeyNotFound { key: "retry-count".to_string() },
        })
    );
    assert_eq!(store.asked(), texts(&["api-endpoint", "retry-count"]));
}

#[test]
fn values_come_back_in_declaration_order() {
    let store = TableStore::holding(&[("c", "third"), ("a", "first"), ("b-b", "second")]);
    assert_eq!(
        resolve(&record(&["a", "b_b", "c"]), &store),
        Ok(texts(&["first", "second", "third"]))
    );
    assert_eq!(store.asked(), texts(&["a", "b-b", "c"]));

    let store = TableStore::holding(&[("c", "third"), ("a", "first"), ("b-b", "second")]);
    assert_eq!(
        resolve(&record(&["c", "a", "b_b"]), &store),
        Ok(texts(&["third", "first", "second"]))
    );
    assert_eq!(store.asked(), texts(&["c", "a", "b-b"]));
}

#[test]
fn reports_the_first_of_several_missing_fields_and_asks_no_further() {
    let store = TableStore::holding(&[("one", "1"), ("four", "4")]);
    let shape = record(&["one", "two", "three", "four"]);
    assert_eq!(
        resolve(&shape, &store),
        Err(ResolutionError::FieldResolutionFailed {
            field_name: "two".to_string(),
            cause: StoreError::KeyNotFound { key: "two".to_string() },
        })
    );
    assert_eq!(store.asked(), texts(&["one", "two"]));
}

#[test]
fn fails_at_once_when_the_first_field_is_missing() {
    let store = TableStore::holding(&[("later", "x")]);
    assert_eq!(
        resolve(&record(&["first_one", "later"]), &store),
        Err(ResolutionError::FieldResolutionFailed {
            field_name: "first_one".to_string(),
            cause: StoreError::KeyNotFound { key: "first-one".to_string() },
        })
    );
    assert_eq!(store.asked(), texts(&["first-one"]));
}

#[test]
fn an_unreachable_store_fails_the_field_being_asked_for() {
    for failing in 0..3 {
        let store = TableStore::holding(&[("f-a", "a"), ("f-b", "b"), ("f-c", "c")])
            .unavailable_at(failing);
        let names = ["f_a", "f_b", "f_c"];
        assert_eq!(
            resolve(&record(&names), &store),
            Err(ResolutionError::FieldResolutionFailed {
                field_name: names[failing].to_string(),
                cause: StoreError::StoreUnavailable { detail: "connection reset".to_string() },
            })
        );
        let keys = texts(&["f-a", "f-b", "f-c"]);
        assert_eq!(store.asked(), keys[..=failing].to_vec());
    }
}

#[test]
fn an_unreachable_store_is_not_mistaken_for_a_missing_key() {
    let store = TableStore::holding(&[]).unavailable_at(0);
    assert_eq!(
        resolve(&record(&["only"]), &store),
        Err(ResolutionError::FieldResolutionFailed {
            field_name: "only".to_string(),
            cause: StoreError::StoreUnavailable { detail: "connection reset".to_string() },
        })
    );
}

#[test]
fn a_record_without_fields_resolves_without_asking() {
    let store = TableStore::holding(&[("unused", "x")]);
    assert_eq!(resolve(&record(&[]), &store), Ok(Vec::new()));
    assert!(store.asked().is_empty());
}

#[test]
fn a_shape_that_is_no_record_is_refused_without_asking() {
    let store = TableStore::holding(&[("a", "x")]);
    assert_eq!(resolve(&TargetShape::Other, &store), Err(ResolutionError::UnsupportedShape));
    assert!(store.asked().is_empty());
}

#[test]
fn fields_that_share_a_key_are_refused_without_asking() {
    let store = TableStore::holding(&[("a-b", "x"), ("c", "y")]);
    for names in [vec!["a_b", "a-b"], vec!["a_b", "c", "a_b"], vec!["c", "a-b", "a_b"]] {
        assert_eq!(resolve(&record(&names), &store), Err(ResolutionError::UnsupportedShape));
        assert!(!record(&names).is_supported());
    }
    assert!(store.asked().is_empty());
}

#[test]
fn tells_supported_shapes_from_others() {
    assert!(record(&[]).is_supported());
    assert!(record(&["a"]).is_supported());
    assert!(record(&["a_b", "a_c", "ab"]).is_supported());
    assert!(!record(&["x", "x"]).is_supported());
    assert!(!TargetShape::Other.is_supported());
}

#[test]
fn an_empty_value_is_a_value() {
    let store = TableStore::holding(&[("blank", "")]);
    assert_eq!(resolve(&record(&["blank"]), &store), Ok(texts(&[""])));
}

#[test]
fn the_same_store_can_be_asked_again_after_a_failure() {
    let mut store = TableStore::holding(&[("a", "1")]);
    let shape = record(&["a", "b"]);
    assert!(resolve(&shape, &store).is_err());
    store.entries.insert("b".to_string(), "2".to_string());
    assert_eq!(resolve(&shape, &store), Ok(texts(&["1", "2"])));
}

#[test]
fn stepping_asks_for_one_key_at_a_time() {
    let shape = record(&["api_endpoint", "retry_count"]);
    let pending = match begin(&shape) {
        Step::Ask(pending) => pending,
        _ => panic!("a record with fields starts by asking"),
    };
    assert_eq!(pending.field_name(), "api_endpoint");
    assert_eq!(pending.key(), "api-endpoint");
    let pending = match pending.supply(Ok("https://x".to_string())) {
        Step::Ask(pending) => pending,
        _ => panic!("one field is left to ask for"),
    };
    assert_eq!(pending.field_name(), "retry_count");
    assert_eq!(pending.key(), "retry-count");
    match pending.supply(Ok("3".to_string())) {
        Step::Done(values) => assert_eq!(values, texts(&["https://x", "3"])),
        _ => panic!("the last value ends the resolution"),
    }
}

#[test]
fn stepping_stops_at_the_first_failure() {
    let shape = record(&["a", "b", "c"]);
    let pending = match begin(&shape) {
        Step::Ask(pending) => pending,
        _ => panic!("a record with fields starts by asking"),
    };
    let pending = match pending.supply(Ok("1".to_string())) {
        Step::Ask(pending) => pending,
        _ => panic!("two fields are left to ask for"),
    };
    let cause = StoreError::StoreUnavailable { detail: "throttled".to_string() };
    match pending.supply(Err(cause.clone())) {
        Step::Failed(error) => assert_eq!(
            error,
            ResolutionError::FieldResolutionFailed { field_name: "b".to_string(), cause }
        ),
        _ => panic!("a failing answer ends the resolution"),
    }
}

#[test]
fn stepping_hands_on_the_cause_as_the_store_gave_it() {
    let shape = record(&["some_field"]);
    let pending = match begin(&shape) {
        Step::Ask(pending) => pending,
        _ => panic!("a record with fields starts by asking"),
    };
    let cause = StoreError::KeyNotFound { key: "another-key".to_string() };
    match pending.supply(Err(cause.clone())) {
        Step::Failed(error) => assert_eq!(
            error,
            ResolutionError::FieldResolutionFailed { field_name: "some_field".to_string(), cause }
        ),
        _ => panic!("a failing answer ends the resolution"),
    }
}

#[test]
fn stepping_ends_at_once_where_nothing_is_to_ask() {
    assert!(matches!(begin(&record(&[])), Step::Done(values) if values.is_empty()));
    assert!(matches!(
        begin(&TargetShape::Other),
        Step::Failed(ResolutionError::UnsupportedShape)
    ));
    assert!(matches!(
        begin(&record(&["k_1", "k-1"])),
        Step::Failed(ResolutionError::UnsupportedShape)
    ));
}
