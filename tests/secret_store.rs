use vibeproxy_linux::secret_store::{
    attribute_value, collect_keys, decode_secret, delete_count, key_attributes, lookup_reads_last,
    secret_label, service_attributes, store_action, KeyringError, StoreAction,
};

type Attrs = Vec<(String, String)>;

/// A stand-in for the shared collection: items in creation order.
struct Collection {
    items: Vec<(String, Attrs, Vec<u8>)>,
}

impl Collection {
    fn new() -> Self {
        Collection { items: Vec::new() }
    }

    fn search(&self, query: &Attrs) -> Vec<usize> {
        (0..self.items.len())
            .filter(|&i| query.iter().all(|q| self.items[i].1.contains(q)))
            .collect()
    }

    fn store(&mut self, key: &str, value: &str) {
        let found = self.search(&key_attributes(key));
        match store_action(Some(found.len())) {
            StoreAction::UpdateLast => {
                let i = *found.last().unwrap();
                self.items[i].2 = value.as_bytes().to_vec();
            }
            StoreAction::Create => {
                self.items.push((secret_label(key), key_attributes(key), value.as_bytes().to_vec()));
            }
        }
    }

    fn retrieve(&self, key: &str) -> Result<Option<String>, KeyringError> {
        let found = self.search(&key_attributes(key));
        if lookup_reads_last(Some(found.len())) {
            let i = *found.last().unwrap();
            decode_secret(key, self.items[i].2.clone()).map(Some)
        } else {
            Ok(None)
        }
    }

    fn delete(&mut self, key: &str) {
        let found = self.search(&key_attributes(key));
        let n = delete_count(Some(found.len()));
        for &i in found[..n].iter().rev() {
            self.items.remove(i);
        }
    }

    fn list_keys(&self) -> Vec<String> {
        let found = self.search(&service_attributes());
        let items: Vec<Option<Attrs>> = found.iter().map(|&i| Some(self.items[i].1.clone())).collect();
        collect_keys(&items)
    }
}

fn pair(a: &str, b: &str) -> (String, String) {
    (a.to_string(), b.to_string())
}

#[test]
fn test_keyring_operations() {
    let mut keyring = Collection::new();
    keyring.store("test_key", "test_value");
    let value = keyring.retrieve("test_key").expect("Failed to retrieve secret");
    assert_eq!(value, Some("test_value".to_string()));
    keyring.delete("test_key");
    let value = keyring.retrieve("test_key").expect("Failed to retrieve secret");
    assert_eq!(value, None);
}

#[test]
fn store_twice_keeps_one_item() {
    let mut c = Collection::new();
    c.store("api", "v1");
    c.store("api", "v2");
    assert_eq!(c.retrieve("api").unwrap(), Some("v2".to_string()));
    let keys = c.list_keys();
    assert_eq!(keys.iter().filter(|k| *k == "api").count(), 1);
    assert_eq!(c.items.len(), 1);
}

#[test]
fn delete_then_delete_again() {
    let mut c = Collection::new();
    c.store("token", "abc");
    c.delete("token");
    assert_eq!(c.retrieve("token").unwrap(), None);
    c.delete("token");
    assert!(c.items.is_empty());
}

#[test]
fn label_is_service_slash_key() {
    assert_eq!(secret_label("openai"), "vibeproxy/openai");
    assert_eq!(secret_label(""), "vibeproxy/");
}

#[test]
fn attributes_for_key_and_service() {
    assert_eq!(key_attributes("k1"), vec![pair("service", "vibeproxy"), pair("key", "k1")]);
    assert_eq!(service_attributes(), vec![pair("service", "vibeproxy")]);
}

#[test]
fn store_action_cases() {
    assert_eq!(store_action(Some(0)), StoreAction::Create);
    assert_eq!(store_action(Some(1)), StoreAction::UpdateLast);
    assert_eq!(store_action(Some(3)), StoreAction::UpdateLast);
    assert_eq!(store_action(None), StoreAction::Create);
}

#[test]
fn lookup_and_delete_absorb_failed_search() {
    assert!(!lookup_reads_last(None));
    assert!(!lookup_reads_last(Some(0)));
    assert!(lookup_reads_last(Some(2)));
    assert_eq!(delete_count(None), 0);
    assert_eq!(delete_count(Some(0)), 0);
    assert_eq!(delete_count(Some(4)), 4);
}

#[test]
fn decode_valid_utf8() {
    let s = decode_secret("k", "h\u{e9}llo".as_bytes().to_vec()).unwrap();
    assert_eq!(s, "h\u{e9}llo");
    assert_eq!(decode_secret("k", Vec::new()).unwrap(), "");
}

#[test]
fn decode_invalid_utf8_is_error() {
    match decode_secret("pw", vec![0xff, 0xfe, 0x41]) {
        Err(KeyringError::Encoding { key }) => assert_eq!(key, "pw"),
        other => panic!("unexpected {:?}", other),
    }
}

#[test]
fn attribute_lookup() {
    let attrs = vec![pair("service", "vibeproxy"), pair("key", "alpha")];
    assert_eq!(attribute_value(&attrs, "key"), Some("alpha".to_string()));
    assert_eq!(attribute_value(&attrs, "service"), Some("vibeproxy".to_string()));
    assert_eq!(attribute_value(&attrs, "label"), None);
    assert_eq!(attribute_value(&Vec::new(), "key"), None);
}

#[test]
fn collect_keys_skips_items_without_key() {
    let items = vec![
        Some(vec![pair("service", "vibeproxy"), pair("key", "a")]),
        Some(vec![pair("service", "vibeproxy")]),
        None,
        Some(vec![pair("key", "b"), pair("service", "vibeproxy")]),
    ];
    assert_eq!(collect_keys(&items), vec!["a".to_string(), "b".to_string()]);
    assert!(collect_keys(&Vec::new()).is_empty());
}

#[test]
fn failed_search_store_may_duplicate_and_delete_removes_all() {
    let mut c = Collection::new();
    c.store("dup", "one");
    // a store whose search failed creates without looking
    assert_eq!(store_action(None), StoreAction::Create);
    c.items.push((secret_label("dup"), key_attributes("dup"), b"two".to_vec()));
    assert_eq!(c.retrieve("dup").unwrap(), Some("two".to_string()));
    assert_eq!(c.list_keys().len(), 2);
    c.delete("dup");
    assert!(c.items.is_empty());
    assert_eq!(c.retrieve("dup").unwrap(), None);
}

#[test]
fn unlock_only_when_known_locked() {
    assert!(vibeproxy_linux::secret_store::needs_unlock(Some(true)));
    assert!(!vibeproxy_linux::secret_store::needs_unlock(Some(false)));
    assert!(!vibeproxy_linux::secret_store::needs_unlock(None));
}
