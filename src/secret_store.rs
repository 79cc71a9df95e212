//! The protocol by which application secrets are kept in the desktop's
//! shared secret collection.
//!
//! Items are found only by attribute search. Each secret of this
//! application carries the attributes `service = vibeproxy` and `key = <key>`
//! and the label `vibeproxy/<key>`. A store updates the last item that the
//! search returns, or creates one when there is none or the search failed;
//! a lookup reads the last item returned; a delete removes every item
//! returned; a listing collects the `key` attribute of every item of the
//! service. Failed searches are absorbed on the read paths.
//!
//! The caller talks to the secret service and hands the outcomes of its
//! calls to the functions below.

use vstd::prelude::*;

verus! {

/// The value of the `service` attribute on this application's items.
pub open spec fn service_name() -> Seq<char> {
    seq!['v', 'i', 'b', 'e', 'p', 'r', 'o', 'x', 'y']
}

/// Name of the attribute that scopes an item to an application.
pub open spec fn service_attr() -> Seq<char> {
    seq!['s', 'e', 'r', 'v', 'i', 'c', 'e']
}

/// Name of the attribute that holds a secret's key.
pub open spec fn key_attr() -> Seq<char> {
    seq!['k', 'e', 'y']
}

/// The label under which the secret for `key` is created.
pub open spec fn label_of(key: Seq<char>) -> Seq<char> {
    service_name() + seq!['/'] + key
}

/// The attributes that identify the secret for `key`.
pub open spec fn key_attributes_of(key: Seq<char>) -> Seq<(Seq<char>, Seq<char>)> {
    seq![(service_attr(), service_name()), (key_attr(), key)]
}

/// The attributes that select every secret of this application.
pub open spec fn service_attributes_of() -> Seq<(Seq<char>, Seq<char>)> {
    seq![(service_attr(), service_name())]
}

/// Attribute pairs as characters.
pub open spec fn attrs_view(a: Seq<(String, String)>) -> Seq<(Seq<char>, Seq<char>)> {
    a.map_values(|p: (String, String)| (p.0@, p.1@))
}

/// The value of attribute `name` in `attrs`; where a name occurs more than
/// once, the last occurrence counts.
pub open spec fn attr_of(attrs: Seq<(Seq<char>, Seq<char>)>, name: Seq<char>) -> Option<Seq<char>>
    decreases attrs.len(),
{
    if attrs.len() == 0 {
        None
    } else if attrs.last().0 == name {
        Some(attrs.last().1)
    } else {
        attr_of(attrs.drop_last(), name)
    }
}

/// The keys found in a listing, from the attributes of each item returned
/// (`None` for an item whose attributes could not be read): items without
/// a `key` attribute are skipped.
pub open spec fn keys_in(items: Seq<Option<Seq<(Seq<char>, Seq<char>)>>>) -> Seq<Seq<char>>
    decreases items.len(),
{
    if items.len() == 0 {
        Seq::empty()
    } else {
        let rest = keys_in(items.drop_last());
        match items.last() {
            Some(a) => match attr_of(a, key_attr()) {
                Some(k) => rest.push(k),
                None => rest,
            },
            None => rest,
        }
    }
}

/// The attributes of an item as characters, where they could be read.
pub open spec fn item_attrs_view(o: Option<Vec<(String, String)>>) -> Option<Seq<(Seq<char>, Seq<char>)>> {
    match o {
        Some(a) => Some(attrs_view(a@)),
        None => None,
    }
}

/// The attributes of each item of a search result, where they could be read.
pub open spec fn items_view(items: Seq<Option<Vec<(String, String)>>>) -> Seq<Option<Seq<(Seq<char>, Seq<char>)>>> {
    items.map_values(|o: Option<Vec<(String, String)>>| item_attrs_view(o))
}

/// What a store does after its search.
#[derive(Clone, Copy, Debug, PartialEq, Eq, Structural)]
pub enum StoreAction {
    /// Overwrite the secret of the last item that the search returned.
    UpdateLast,
    /// Create a new item with the key's label and attributes.
    Create,
}

/// The store action for a search that returned `found` items (`None`: the
/// search failed).
pub open spec fn store_action_for(found: Option<nat>) -> StoreAction {
    match found {
        Some(n) => if n > 0 { StoreAction::UpdateLast } else { StoreAction::Create },
        None => StoreAction::Create,
    }
}

/// Failures of the secret store; each names the key concerned where there
/// is one, and gives the cause in words.
#[derive(Clone, Debug)]
pub enum KeyringError {
    /// No session with the secret service could be opened.
    Connection(String),
    /// The collection is locked and could not be unlocked.
    Unlock(String),
    /// A store could not write the secret.
    Store { key: String, detail: String },
    /// A lookup could not read the secret of the item it found.
    Read { key: String, detail: String },
    /// The stored secret is not valid UTF-8 text.
    Encoding { key: String },
    /// A delete could not remove an item it found.
    Delete { key: String, detail: String },
}

/// An item of the shared collection, as the secret service holds it.
pub struct ItemModel {
    pub attributes: Seq<(Seq<char>, Seq<char>)>,
    pub secret: Seq<u8>,
}

/// Whether `item` belongs to this application.
pub open spec fn of_service(item: ItemModel) -> bool {
    attr_of(item.attributes, service_attr()) == Some(service_name())
}

/// Whether a search for the secret `key` returns `item`.
pub open spec fn holds_key(item: ItemModel, key: Seq<char>) -> bool {
    of_service(item) && attr_of(item.attributes, key_attr()) == Some(key)
}

/// How many items a search for the secret `key` returns.
pub open spec fn count_key(c: Seq<ItemModel>, key: Seq<char>) -> nat
    decreases c.len(),
{
    if c.len() == 0 {
        0
    } else {
        count_key(c.drop_last(), key) + if holds_key(c.last(), key) { 1nat } else { 0nat }
    }
}

/// Position in the collection of the last item that a search for `key`
/// returns (the search returns items in collection order), or -1.
pub open spec fn last_key_index(c: Seq<ItemModel>, key: Seq<char>) -> int
    decreases c.len(),
{
    if c.len() == 0 {
        -1
    } else if holds_key(c.last(), key) {
        c.len() - 1
    } else {
        last_key_index(c.drop_last(), key)
    }
}

/// The collection after a store of `value` under `key` whose search
/// succeeded.
pub open spec fn store_in(c: Seq<ItemModel>, key: Seq<char>, value: Seq<u8>) -> Seq<ItemModel> {
    match store_action_for(Some(count_key(c, key))) {
        StoreAction::UpdateLast => {
            let i = last_key_index(c, key);
            c.update(i, ItemModel { attributes: c[i].attributes, secret: value })
        },
        StoreAction::Create => c.push(ItemModel { attributes: key_attributes_of(key), secret: value }),
    }
}

/// What a lookup of `key` whose search succeeded returns.
pub open spec fn lookup_in(c: Seq<ItemModel>, key: Seq<char>) -> Option<Seq<u8>> {
    if count_key(c, key) > 0 {
        Some(c[last_key_index(c, key)].secret)
    } else {
        None
    }
}

/// The collection after a delete of `key` whose search succeeded.
pub open spec fn delete_in(c: Seq<ItemModel>, key: Seq<char>) -> Seq<ItemModel>
    decreases c.len(),
{
    if c.len() == 0 {
        c
    } else {
        let rest = delete_in(c.drop_last(), key);
        if holds_key(c.last(), key) {
            rest
        } else {
            rest.push(c.last())
        }
    }
}

/// The attributes of the items that a search by service returns.
pub open spec fn service_items(c: Seq<ItemModel>) -> Seq<Option<Seq<(Seq<char>, Seq<char>)>>>
    decreases c.len(),
{
    if c.len() == 0 {
        Seq::empty()
    } else {
        let rest = service_items(c.drop_last());
        if of_service(c.last()) {
            rest.push(Some(c.last().attributes))
        } else {
            rest
        }
    }
}

/// What a listing whose search succeeded returns.
pub open spec fn list_in(c: Seq<ItemModel>) -> Seq<Seq<char>> {
    keys_in(service_items(c))
}

/// How often `k` occurs in `s`.
pub open spec fn occurrences(s: Seq<Seq<char>>, k: Seq<char>) -> nat
    decreases s.len(),
{
    if s.len() == 0 {
        0
    } else {
        occurrences(s.drop_last(), k) + if s.last() == k { 1nat } else { 0nat }
    }
}

proof fn lemma_last_key_index(c: Seq<ItemModel>, key: Seq<char>)
    ensures
        (count_key(c, key) > 0) == (last_key_index(c, key) >= 0),
        last_key_index(c, key) < c.len(),
        last_key_index(c, key) >= 0 ==> holds_key(c[last_key_index(c, key)], key),
    decreases c.len(),
{
    if c.len() > 0 {
        lemma_last_key_index(c.drop_last(), key);
    }
}

/// Rewriting the secret of one item leaves every search as it was.
proof fn lemma_update_keeps_search(c: Seq<ItemModel>, j: int, item: ItemModel, key: Seq<char>)
    requires
        0 <= j < c.len(),
        item.attributes == c[j].attributes,
    ensures
        count_key(c.update(j, item), key) == count_key(c, key),
        last_key_index(c.update(j, item), key) == last_key_index(c, key),
    decreases c.len(),
{
    let d = c.update(j, item);
    if j == c.len() - 1 {
        assert(d.drop_last() =~= c.drop_last());
    } else {
        assert(d.drop_last() =~= c.drop_last().update(j, item));
        lemma_update_keeps_search(c.drop_last(), j, item, key);
    }
}

proof fn lemma_new_item_holds_key(key: Seq<char>, value: Seq<u8>)
    ensures
        holds_key(ItemModel { attributes: key_attributes_of(key), secret: value }, key),
{
    let a = key_attributes_of(key);
    assert(key_attr().len() != service_attr().len());
    assert(a.drop_last() =~= seq![(service_attr(), service_name())]);
    assert(a.last().0 != service_attr());
    assert(attr_of(a.drop_last(), service_attr()) == Some(service_name()));
    assert(attr_of(a, service_attr()) == Some(service_name()));
    assert(attr_of(a, key_attr()) == Some(key));
}

/// A store leaves the stored value where a lookup finds it, and leaves as
/// many items for the key as there were, or one where there were none.
proof fn lemma_store_in(c: Seq<ItemModel>, key: Seq<char>, value: Seq<u8>)
    ensures
        lookup_in(store_in(c, key, value), key) == Some(value),
        count_key(store_in(c, key, value), key) == if count_key(c, key) == 0 {
            1
        } else {
            count_key(c, key)
        },
{
    lemma_last_key_index(c, key);
    if count_key(c, key) > 0 {
        let i = last_key_index(c, key);
        let item = ItemModel { attributes: c[i].attributes, secret: value };
        lemma_update_keeps_search(c, i, item, key);
    } else {
        let item = ItemModel { attributes: key_attributes_of(key), secret: value };
        lemma_new_item_holds_key(key, value);
        assert(c.push(item).drop_last() =~= c);
    }
}

/// A listing holds a key as often as a search for that key returns items.
proof fn lemma_list_counts(c: Seq<ItemModel>, key: Seq<char>)
    ensures
        occurrences(list_in(c), key) == count_key(c, key),
    decreases c.len(),
{
    if c.len() > 0 {
        lemma_list_counts(c.drop_last(), key);
        let rest = service_items(c.drop_last());
        if of_service(c.last()) {
            let s = rest.push(Some(c.last().attributes));
            assert(s.drop_last() =~= rest);
            match attr_of(c.last().attributes, key_attr()) {
                Some(k) => {
                    assert(keys_in(rest).push(k).drop_last() =~= keys_in(rest));
                },
                None => {},
            }
        }
    }
}

/// After a delete no search for the key returns anything.
proof fn lemma_delete_in(c: Seq<ItemModel>, key: Seq<char>)
    ensures
        count_key(delete_in(c, key), key) == 0,
    decreases c.len(),
{
    if c.len() > 0 {
        lemma_delete_in(c.drop_last(), key);
        let rest = delete_in(c.drop_last(), key);
        assert(rest.push(c.last()).drop_last() =~= rest);
    }
}

/// Deleting a key that no item holds changes nothing.
proof fn lemma_delete_absent(c: Seq<ItemModel>, key: Seq<char>)
    requires
        count_key(c, key) == 0,
    ensures
        delete_in(c, key) == c,
    decreases c.len(),
{
    if c.len() > 0 {
        lemma_delete_absent(c.drop_last(), key);
        assert(c.drop_last().push(c.last()) =~= c);
    }
}

/// Storing two values under one key and then looking it up gives the
/// second value; and where the collection held at most one item for the
/// key, a listing afterwards holds the key exactly once.
pub proof fn lemma_store_is_upsert(c: Seq<ItemModel>, key: Seq<char>, v1: Seq<u8>, v2: Seq<u8>)
    ensures
        lookup_in(store_in(store_in(c, key, v1), key, v2), key) == Some(v2),
        count_key(c, key) <= 1 ==> occurrences(list_in(store_in(store_in(c, key, v1), key, v2)), key) == 1,
{
    lemma_store_in(c, key, v1);
    lemma_store_in(store_in(c, key, v1), key, v2);
    lemma_list_counts(store_in(store_in(c, key, v1), key, v2), key);
}

/// After a store and a delete of one key, a lookup finds nothing, and a
/// second delete finds nothing to remove and leaves the collection as it was.
pub proof fn lemma_delete_closes(c: Seq<ItemModel>, key: Seq<char>, v: Seq<u8>)
    ensures
        lookup_in(delete_in(store_in(c, key, v), key), key) is None,
        count_key(delete_in(store_in(c, key, v), key), key) == 0,
        delete_in(delete_in(store_in(c, key, v), key), key) == delete_in(store_in(c, key, v), key),
{
    let d = delete_in(store_in(c, key, v), key);
    lemma_delete_in(store_in(c, key, v), key);
    lemma_delete_absent(d, key);
}

/// The text that a byte string holds as UTF-8, or `None` if it is not
/// valid UTF-8.
pub uninterp spec fn utf8_text(b: Seq<u8>) -> Option<Seq<char>>;

/// Relies on `String::from_utf8`: it succeeds exactly on valid UTF-8 input,
/// and its result depends on the bytes alone.
#[verifier::external_body]
fn utf8_decode(bytes: Vec<u8>) -> (r: Option<String>)
    ensures
        r is Some == utf8_text(bytes@) is Some,
        r is Some ==> r->Some_0@ == utf8_text(bytes@)->Some_0,
{
    String::from_utf8(bytes).ok()
}

/// The label under which the secret for `key` is created.
pub fn secret_label(key: &str) -> (r: String)
    ensures
        r@ == label_of(key@),
{
    let r = String::from_str("vibeproxy/").concat(key);
    proof {
        reveal_strlit("vibeproxy/");
        assert(r@ =~= label_of(key@));
    }
    r
}

/// The attributes that identify the secret for `key`.
pub fn key_attributes(key: &str) -> (r: Vec<(String, String)>)
    ensures
        attrs_view(r@) == key_attributes_of(key@),
{
    let s = String::from_str("service");
    let v = String::from_str("vibeproxy");
    let k = String::from_str("key");
    proof {
        reveal_strlit("service");
        reveal_strlit("vibeproxy");
        reveal_strlit("key");
        assert(s@ =~= service_attr());
        assert(v@ =~= service_name());
        assert(k@ =~= key_attr());
    }
    let r = vec![(s, v), (k, key.to_owned())];
    assert(attrs_view(r@) =~= key_attributes_of(key@));
    r
}

/// The attributes that select every secret of this application.
pub fn service_attributes() -> (r: Vec<(String, String)>)
    ensures
        attrs_view(r@) == service_attributes_of(),
{
    let s = String::from_str("service");
    let v = String::from_str("vibeproxy");
    proof {
        reveal_strlit("service");
        reveal_strlit("vibeproxy");
        assert(s@ =~= service_attr());
        assert(v@ =~= service_name());
    }
    let r = vec![(s, v)];
    assert(attrs_view(r@) =~= service_attributes_of());
    r
}

/// Whether a collection must be unlocked before use, from its lock state
/// (`None`: the state could not be read, and the collection is taken to be
/// open).
pub fn needs_unlock(locked: Option<bool>) -> (r: bool)
    ensures
        r == (locked == Some(true)),
{
    match locked {
        Some(l) => l,
        None => false,
    }
}

/// What a store does after a search that returned `found` items (`None`:
/// the search failed). It updates in place when something was found, and
/// creates otherwise, also when the search failed: a failed search may thus
/// leave two items for one key, which a later delete removes together.
pub fn store_action(found: Option<usize>) -> (r: StoreAction)
    ensures
        r == store_action_for(
            match found {
                Some(n) => Some(n as nat),
                None => None,
            },
        ),
{
    match found {
        Some(n) => if n > 0 {
            StoreAction::UpdateLast
        } else {
            StoreAction::Create
        },
        None => StoreAction::Create,
    }
}

/// Whether a lookup reads the last item of a search that returned `found`
/// items (`None`: the search failed). A failed or empty search means that
/// nothing is stored, not an error.
pub fn lookup_reads_last(found: Option<usize>) -> (r: bool)
    ensures
        r == (found matches Some(n) && n > 0),
{
    match found {
        Some(n) => n > 0,
        None => false,
    }
}

/// How many of the items that a delete's search returned it removes: all of
/// them, and none when the search failed.
pub fn delete_count(found: Option<usize>) -> (r: usize)
    ensures
        r == (match found {
            Some(n) => n,
            None => 0,
        }),
{
    match found {
        Some(n) => n,
        None => 0,
    }
}

/// The text of the secret bytes read for `key`; bytes that are not valid
/// UTF-8 are an encoding error, not a missing secret.
pub fn decode_secret(key: &str, bytes: Vec<u8>) -> (r: Result<String, KeyringError>)
    ensures
        match utf8_text(bytes@) {
            Some(t) => r is Ok && r->Ok_0@ == t,
            None => r matches Err(KeyringError::Encoding { key: k }) && k@ == key@,
        },
{
    match utf8_decode(bytes) {
        Some(s) => Ok(s),
        None => Err(KeyringError::Encoding { key: key.to_owned() }),
    }
}

/// The value of attribute `name` among an item's attributes.
pub fn attribute_value(attrs: &Vec<(String, String)>, name: &str) -> (r: Option<String>)
    ensures
        match r {
            Some(v) => attr_of(attrs_view(attrs@), name@) == Some(v@),
            None => attr_of(attrs_view(attrs@), name@) is None,
        },
{
    let target = name.to_owned();
    let mut found: Option<String> = None;
    let mut i: usize = 0;
    while i < attrs.len()
        invariant
            i <= attrs@.len(),
            target@ == name@,
            match found {
                Some(v) => attr_of(attrs_view(attrs@.subrange(0, i as int)), name@) == Some(v@),
                None => attr_of(attrs_view(attrs@.subrange(0, i as int)), name@) is None,
            },
        decreases attrs@.len() - i,
    {
        let ghost prev = attrs@.subrange(0, i as int);
        let ghost next = attrs@.subrange(0, i + 1);
        assert(attrs_view(next).drop_last() =~= attrs_view(prev));
        assert(attrs_view(next).last() == (attrs@[i as int].0@, attrs@[i as int].1@));
        if attrs[i].0 == target {
            found = Some(attrs[i].1.clone());
        }
        i = i + 1;
    }
    assert(attrs@.subrange(0, attrs@.len() as int) =~= attrs@);
    found
}

/// The keys listed from the attributes of each item that a search by
/// service returned (`None` for an item whose attributes could not be
/// read). Items without a `key` attribute are skipped.
pub fn collect_keys(items: &Vec<Option<Vec<(String, String)>>>) -> (r: Vec<String>)
    ensures
        r@.map_values(|s: String| s@) == keys_in(items_view(items@)),
{
    let mut keys: Vec<String> = Vec::new();
    let mut i: usize = 0;
    while i < items.len()
        invariant
            i <= items@.len(),
            keys@.map_values(|s: String| s@) == keys_in(items_view(items@.subrange(0, i as int))),
        decreases items@.len() - i,
    {
        let ghost prev = items_view(items@.subrange(0, i as int));
        let ghost next = items_view(items@.subrange(0, i + 1));
        assert(next.drop_last() =~= prev);
        let item = &items[i];
        assert(next.last() == item_attrs_view(*item));
        match item {
            Some(attrs) => {
                assert(next.last() == Some(attrs_view(attrs@)));
                let k = String::from_str("key");
                proof {
                    reveal_strlit("key");
                    assert(k@ =~= key_attr());
                }
                match attribute_value(attrs, k.as_str()) {
                    Some(v) => {
                        let ghost old_keys = keys@;
                        keys.push(v);
                        assert(keys@.map_values(|s: String| s@) =~= old_keys.map_values(
                            |s: String| s@,
                        ).push(v@));
                        assert(keys_in(next) == keys_in(prev).push(v@));
                    },
                    None => {
                        assert(keys_in(next) == keys_in(prev));
                    },
                }
            },
            None => {
                assert(keys_in(next) == keys_in(prev));
            },
        }
        i = i + 1;
    }
    assert(items@.subrange(0, items@.len() as int) =~= items@);
    keys
}

} // verus!
