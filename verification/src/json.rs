//! JSON documents as trees, and the structural merge of one into another.
//!
//! Reading and writing JSON text is `serde_json`'s work; the merge is done
//! here, on [`JsonValue`].

use vstd::prelude::*;

verus! {

/// A JSON number, carried as it is.
#[verifier::external_type_specification]
#[verifier::external_body]
pub struct ExJsonNumber(serde_json::Number);

/// A document as `serde_json` reads and writes it.
#[verifier::external_type_specification]
#[verifier::external_body]
pub struct ExJsonDocument(serde_json::Value);

/// A JSON document. An object is the list of its members; a key is looked
/// up from the front.
///
/// A document that was read from text names no key twice in any of its
/// objects ([`well_formed`]), and a merge of such documents is such a
/// document again. The order of the members has no meaning: a document is
/// written with the keys of each object in the order of `serde_json`'s map.
#[derive(Debug, PartialEq)]
pub enum JsonValue {
    Null,
    Bool(bool),
    Number(serde_json::Number),
    String(String),
    Array(Vec<JsonValue>),
    Object(Vec<(String, JsonValue)>),
}

/// The mathematical value of a [`JsonValue`].
pub enum JsonModel {
    Null,
    Bool(bool),
    Number(serde_json::Number),
    String(Seq<char>),
    Array(Seq<JsonModel>),
    Object(Seq<(Seq<char>, JsonModel)>),
}

impl View for JsonValue {
    type V = JsonModel;

    open spec fn view(&self) -> JsonModel
        decreases self,
    {
        match self {
            JsonValue::Null => JsonModel::Null,
            JsonValue::Bool(b) => JsonModel::Bool(*b),
            JsonValue::Number(n) => JsonModel::Number(*n),
            JsonValue::String(s) => JsonModel::String(s@),
            JsonValue::Array(items) => JsonModel::Array(items_view(items@)),
            JsonValue::Object(members) => JsonModel::Object(members_view(members@)),
        }
    }
}

/// The values of a list of documents.
pub open spec fn items_view(items: Seq<JsonValue>) -> Seq<JsonModel>
    decreases items,
{
    Seq::new(
        items.len(),
        |i: int|
            if 0 <= i < items.len() {
                items[i]@
            } else {
                JsonModel::Null
            },
    )
}

/// The values of the members of an object.
pub open spec fn members_view(members: Seq<(String, JsonValue)>) -> Seq<(Seq<char>, JsonModel)>
    decreases members,
{
    Seq::new(
        members.len(),
        |i: int|
            if 0 <= i < members.len() {
                (members[i].0@, members[i].1@)
            } else {
                (Seq::empty(), JsonModel::Null)
            },
    )
}

/// Where the first member with the given key stands.
pub open spec fn find_key(members: Seq<(Seq<char>, JsonModel)>, key: Seq<char>) -> Option<int>
    decreases members.len(),
{
    if members.len() == 0 {
        None
    } else if members[0].0 == key {
        Some(0)
    } else {
        match find_key(members.drop_first(), key) {
            Some(i) => Some(i + 1),
            None => None,
        }
    }
}

/// Whether a document is an object without members.
pub open spec fn is_empty_object(document: JsonModel) -> bool {
    document matches JsonModel::Object(members) && members.len() == 0
}

/// The structural merge of `patch` into `target`.
///
/// An object without members changes nothing, whatever the target is.
/// Where both are objects, each member of the patch is merged into the
/// target's member of the same key, or added behind the others where the
/// target has none. Anything else replaces the target wholesale.
pub open spec fn merge(target: JsonModel, patch: JsonModel) -> JsonModel
    decreases patch, 1nat, 0nat,
{
    if is_empty_object(patch) {
        target
    } else {
        match (target, patch) {
            (JsonModel::Object(members), JsonModel::Object(added)) => JsonModel::Object(
                merge_first(members, patch, added.len()),
            ),
            _ => patch,
        }
    }
}

/// The members of a target object once the first `n` members of the object
/// `patch` have been merged into `members`, one after the other.
pub open spec fn merge_first(members: Seq<(Seq<char>, JsonModel)>, patch: JsonModel, n: nat) -> Seq<
    (Seq<char>, JsonModel),
>
    decreases patch, 0nat, n,
{
    match patch {
        JsonModel::Object(added) => if 0 < n <= added.len() {
            let merged = merge_first(members, patch, (n - 1) as nat);
            let key = added[n - 1].0;
            let value = added[n - 1].1;
            match find_key(merged, key) {
                Some(i) => merged.update(i, (key, merge(merged[i].1, value))),
                None => merged.push((key, value)),
            }
        } else {
            members
        },
        _ => members,
    }
}

/// The value of the first member with the given key.
pub open spec fn member(members: Seq<(Seq<char>, JsonModel)>, key: Seq<char>) -> Option<JsonModel> {
    match find_key(members, key) {
        Some(i) => Some(members[i].1),
        None => None,
    }
}

/// Whether no two members have the same key.
pub open spec fn distinct_keys(members: Seq<(Seq<char>, JsonModel)>) -> bool {
    forall|i: int, j: int|
        0 <= i < j < members.len() ==> (#[trigger] members[i]).0 != (#[trigger] members[j]).0
}

/// Whether no object of a document, at any depth, names a key twice: what
/// every document is that was read from text.
pub open spec fn well_formed(document: JsonModel) -> bool
    decreases document,
{
    match document {
        JsonModel::Array(items) => forall|i: int|
            0 <= i < items.len() ==> well_formed(#[trigger] items[i]),
        JsonModel::Object(members) => distinct_keys(members) && forall|i: int|
            0 <= i < members.len() ==> well_formed((#[trigger] members[i]).1),
        _ => true,
    }
}

/// `find_key` gives the first position of the key, and `None` exactly
/// where no member has it.
pub proof fn lemma_find_key(members: Seq<(Seq<char>, JsonModel)>, key: Seq<char>)
    ensures
        match find_key(members, key) {
            Some(i) => 0 <= i < members.len() && members[i].0 == key && forall|j: int|
                0 <= j < i ==> (#[trigger] members[j]).0 != key,
            None => forall|j: int| 0 <= j < members.len() ==> (#[trigger] members[j]).0 != key,
        },
    decreases members.len(),
{
    if members.len() > 0 && members[0].0 != key {
        let rest = members.drop_first();
        lemma_find_key(rest, key);
        match find_key(rest, key) {
            Some(i) => {
                assert forall|j: int| 0 <= j < i + 1 implies (#[trigger] members[j]).0 != key by {
                    if j > 0 {
                        assert(rest[j - 1] == members[j]);
                    }
                }
            },
            None => {
                assert forall|j: int| 0 <= j < members.len() implies (#[trigger] members[j]).0
                    != key by {
                    if j > 0 {
                        assert(rest[j - 1] == members[j]);
                    }
                }
            },
        }
    }
}

/// The first member with the key is where `find_key` points.
proof fn lemma_find_key_first(members: Seq<(Seq<char>, JsonModel)>, key: Seq<char>, i: int)
    requires
        0 <= i < members.len(),
        members[i].0 == key,
        forall|j: int| 0 <= j < i ==> members[j].0 != key,
    ensures
        find_key(members, key) == Some(i),
    decreases members.len(),
{
    if i > 0 {
        lemma_find_key_first(members.drop_first(), key, i - 1);
    }
}

/// Where no member has the key, `find_key` finds none.
proof fn lemma_find_key_absent(members: Seq<(Seq<char>, JsonModel)>, key: Seq<char>)
    requires
        forall|j: int| 0 <= j < members.len() ==> members[j].0 != key,
    ensures
        find_key(members, key) is None,
    decreases members.len(),
{
    if members.len() > 0 {
        lemma_find_key_absent(members.drop_first(), key);
    }
}

impl JsonValue {
    /// Whether the document is an object without members.
    pub fn is_empty_object(&self) -> (empty: bool)
        ensures
            empty == is_empty_object(self@),
    {
        match self {
            JsonValue::Object(members) => {
                assert(members_view(members@).len() == members@.len());
                members.len() == 0
            },
            _ => false,
        }
    }
}

/// The index of the first member with the given key.
fn position(members: &Vec<(String, JsonValue)>, key: &String) -> (r: Option<usize>)
    ensures
        match r {
            Some(i) => find_key(members_view(members@), key@) == Some(i as int) && i
                < members.len() && members[i as int].0@ == key@,
            None => find_key(members_view(members@), key@) is None,
        },
{
    let mut i: usize = 0;
    while i < members.len()
        invariant
            i <= members.len(),
            forall|j: int| 0 <= j < i ==> members_view(members@)[j].0 != key@,
        decreases members.len() - i,
    {
        if members[i].0 == *key {
            proof {
                lemma_find_key_first(members_view(members@), key@, i as int);
            }
            return Some(i);
        }
        i += 1;
    }
    proof {
        lemma_find_key_absent(members_view(members@), key@);
    }
    None
}

/// Merges `patch` into `target`.
#[verifier::loop_isolation(false)]
pub fn json_patch(target: &mut JsonValue, patch: JsonValue)
    ensures
        final(target)@ == merge(old(target)@, patch@),
        well_formed(old(target)@) && well_formed(patch@) ==> well_formed(final(target)@),
    decreases patch,
{
    proof {
        if well_formed(target@) && well_formed(patch@) {
            lemma_merge_keeps_well_formed(target@, patch@);
        }
    }
    match patch {
        JsonValue::Object(added) => {
            if added.len() == 0 {
                assert(members_view(added@).len() == 0);
                return ;
            }
            assert(members_view(added@).len() == added@.len());
            match target {
                JsonValue::Object(members) => {
                    let ghost before = members_view(members@);
                    let ghost all = added;
                    for member in it: added
                        invariant
                            it.seq() == all@,
                            members_view(members@) == merge_first(
                                before,
                                patch@,
                                it.index() as nat,
                            ),
                    {
                        let ghost merged = members_view(members@);
                        assert(member == all@[it.index()]);
                        let (key, value) = member;
                        assert(members_view(all@)[it.index()] == (key@, value@));
                        match position(members, &key) {
                            Some(i) => {
                                let ghost held = members@;
                                assert(merged[i as int] == (held[i as int].0@, held[i as int].1@));
                                json_patch(&mut members[i].1, value);
                                assert(members@[i as int].0 == held[i as int].0);
                                assert(forall|j: int|
                                    0 <= j < held.len() && j != i ==> members@[j] == held[j]);
                                assert(members_view(members@) =~= merged.update(
                                    i as int,
                                    (key@, merge(merged[i as int].1, value@)),
                                ));
                            },
                            None => {
                                members.push((key, value));
                                assert(members_view(members@) =~= merged.push((key@, value@)));
                            },
                        }
                    }
                    assert(members_view(all@).len() == all@.len());
                    assert(old(target)@ == JsonModel::Object(before));
                },
                _ => {
                    *target = JsonValue::Object(added);
                },
            }
        },
        _ => {
            *target = patch;
        },
    }
}

/// What a merge does to each key, for a patch that names no key twice:
/// under a key of the patch stands the merge of the patch's value into the
/// target's, or the patch's value itself where the target has none; under
/// any other key stands what the target had.
pub proof fn lemma_merge_by_key(
    members: Seq<(Seq<char>, JsonModel)>,
    patch: JsonModel,
    n: nat,
    key: Seq<char>,
)
    requires
        patch is Object,
        distinct_keys(patch->Object_0),
        n <= patch->Object_0.len(),
    ensures
        member(merge_first(members, patch, n), key) == match member(
            patch->Object_0.take(n as int),
            key,
        ) {
            Some(value) => Some(
                match member(members, key) {
                    Some(held) => merge(held, value),
                    None => value,
                },
            ),
            None => member(members, key),
        },
    decreases n,
{
    let added = patch->Object_0;
    lemma_find_key(added.take(n as int), key);
    if n > 0 {
        let shorter = added.take(n - 1);
        let merged = merge_first(members, patch, (n - 1) as nat);
        let after = merge_first(members, patch, n);
        let next = added[n - 1];
        lemma_merge_by_key(members, patch, (n - 1) as nat, key);
        lemma_merge_by_key(members, patch, (n - 1) as nat, next.0);
        lemma_find_key(shorter, key);
        lemma_find_key(shorter, next.0);
        lemma_find_key(merged, key);
        lemma_find_key(merged, next.0);
        lemma_find_key(after, key);
        lemma_find_key(members, key);
        assert(forall|j: int| 0 <= j < n - 1 ==> shorter[j] == added[j]);
        assert(forall|j: int| 0 <= j < n ==> added.take(n as int)[j] == added[j]);
        assert(forall|j: int| 0 <= j < n - 1 ==> (#[trigger] shorter[j]).0 != next.0) by {
            assert forall|j: int| 0 <= j < n - 1 implies (#[trigger] shorter[j]).0 != next.0 by {
                assert(added[j].0 != added[n - 1].0);
            }
        }
        match find_key(merged, next.0) {
            Some(i) => {
                assert(after == merged.update(i, (next.0, merge(merged[i].1, next.1))));
                assert(forall|j: int|
                    0 <= j < merged.len() ==> (#[trigger] after[j]).0 == merged[j].0);
                if next.0 == key {
                    lemma_find_key_first(after, key, i);
                    lemma_find_key_first(added.take(n as int), key, n - 1);
                } else {
                    match find_key(merged, key) {
                        Some(k) => {
                            lemma_find_key_first(after, key, k);
                        },
                        None => {
                            lemma_find_key_absent(after, key);
                        },
                    }
                    match find_key(shorter, key) {
                        Some(k) => {
                            lemma_find_key_first(added.take(n as int), key, k);
                        },
                        None => {
                            lemma_find_key_absent(added.take(n as int), key);
                        },
                    }
                }
            },
            None => {
                assert(after == merged.push(next));
                assert(forall|j: int| 0 <= j < merged.len() ==> after[j] == merged[j]);
                if next.0 == key {
                    lemma_find_key_first(after, key, merged.len() as int);
                    lemma_find_key_first(added.take(n as int), key, n - 1);
                } else {
                    match find_key(merged, key) {
                        Some(k) => {
                            lemma_find_key_first(after, key, k);
                        },
                        None => {
                            lemma_find_key_absent(after, key);
                        },
                    }
                    match find_key(shorter, key) {
                        Some(k) => {
                            lemma_find_key_first(added.take(n as int), key, k);
                        },
                        None => {
                            lemma_find_key_absent(added.take(n as int), key);
                        },
                    }
                }
            },
        }
    }
}

/// A merge names no key twice where the target named none twice.
pub proof fn lemma_merge_keeps_keys_distinct(
    members: Seq<(Seq<char>, JsonModel)>,
    patch: JsonModel,
    n: nat,
)
    requires
        distinct_keys(members),
    ensures
        distinct_keys(merge_first(members, patch, n)),
        merge_first(members, patch, n).len() >= members.len(),
    decreases n,
{
    if patch is Object && 0 < n <= patch->Object_0.len() {
        let merged = merge_first(members, patch, (n - 1) as nat);
        let after = merge_first(members, patch, n);
        let next = patch->Object_0[n - 1];
        lemma_merge_keeps_keys_distinct(members, patch, (n - 1) as nat);
        lemma_find_key(merged, next.0);
        match find_key(merged, next.0) {
            Some(i) => {
                assert forall|a: int, b: int| 0 <= a < b < after.len() implies (
                #[trigger] after[a]).0 != (#[trigger] after[b]).0 by {
                    assert(after[a].0 == merged[a].0);
                    assert(after[b].0 == merged[b].0);
                }
            },
            None => {
                assert forall|a: int, b: int| 0 <= a < b < after.len() implies (
                #[trigger] after[a]).0 != (#[trigger] after[b]).0 by {
                    assert(after[a] == merged[a]);
                    if b < merged.len() {
                        assert(after[b] == merged[b]);
                    }
                }
            },
        }
    }
}

/// A merge of well-formed documents is well-formed.
pub proof fn lemma_merge_keeps_well_formed(target: JsonModel, patch: JsonModel)
    requires
        well_formed(target),
        well_formed(patch),
    ensures
        well_formed(merge(target, patch)),
    decreases patch, 1nat, 0nat,
{
    if !is_empty_object(patch) {
        match (target, patch) {
            (JsonModel::Object(members), JsonModel::Object(added)) => {
                lemma_merge_first_keeps_well_formed(members, patch, added.len());
            },
            _ => {},
        }
    }
}

/// The members of a well-formed object stay well-formed, and their keys
/// distinct, while the members of a well-formed patch are merged in.
pub proof fn lemma_merge_first_keeps_well_formed(
    members: Seq<(Seq<char>, JsonModel)>,
    patch: JsonModel,
    n: nat,
)
    requires
        well_formed(JsonModel::Object(members)),
        well_formed(patch),
    ensures
        well_formed(JsonModel::Object(merge_first(members, patch, n))),
    decreases patch, 0nat, n,
{
    if patch is Object && 0 < n <= patch->Object_0.len() {
        let merged = merge_first(members, patch, (n - 1) as nat);
        let after = merge_first(members, patch, n);
        let next = patch->Object_0[n - 1];
        lemma_merge_first_keeps_well_formed(members, patch, (n - 1) as nat);
        lemma_merge_keeps_keys_distinct(members, patch, n);
        lemma_find_key(merged, next.0);
        assert(well_formed(next.1));
        match find_key(merged, next.0) {
            Some(i) => {
                assert(well_formed(merged[i].1));
                lemma_merge_keeps_well_formed(merged[i].1, next.1);
                assert forall|j: int| 0 <= j < after.len() implies well_formed(
                    (#[trigger] after[j]).1,
                ) by {
                    if j != i {
                        assert(after[j] == merged[j]);
                    }
                }
            },
            None => {
                assert forall|j: int| 0 <= j < after.len() implies well_formed(
                    (#[trigger] after[j]).1,
                ) by {
                    if j < merged.len() {
                        assert(after[j] == merged[j]);
                    }
                }
            },
        }
    }
}

/// Merging a well-formed document into itself changes nothing.
pub proof fn lemma_merge_into_itself(document: JsonModel)
    requires
        well_formed(document),
    ensures
        merge(document, document) == document,
    decreases document, 1nat, 0nat,
{
    if document is Object {
        lemma_merge_first_into_itself(document, document->Object_0.len());
    }
}

/// The members of a well-formed object stay as they are while its own
/// members are merged into them.
proof fn lemma_merge_first_into_itself(document: JsonModel, n: nat)
    requires
        document is Object,
        well_formed(document),
        n <= document->Object_0.len(),
    ensures
        merge_first(document->Object_0, document, n) == document->Object_0,
    decreases document, 0nat, n,
{
    if n > 0 {
        let members = document->Object_0;
        lemma_merge_first_into_itself(document, (n - 1) as nat);
        lemma_merge_into_itself(members[n - 1].1);
        assert forall|j: int| 0 <= j < n - 1 implies (#[trigger] members[j]).0 != members[n
            - 1].0 by {
            assert(members[j].0 != members[n - 1].0);
        }
        lemma_find_key_first(members, members[n - 1].0, n - 1);
        assert(members.update(n - 1, (members[n - 1].0, members[n - 1].1)) =~= members);
    }
}

/// Applying a well-formed patch a second time changes nothing more.
pub proof fn lemma_merge_twice(target: JsonModel, patch: JsonModel)
    requires
        well_formed(patch),
    ensures
        merge(merge(target, patch), patch) == merge(target, patch),
    decreases patch, 1nat, 0nat,
{
    if patch is Object && !is_empty_object(patch) {
        if target is Object {
            lemma_merge_first_twice(target->Object_0, patch, patch->Object_0.len());
        } else {
            lemma_merge_into_itself(patch);
        }
    }
}

/// The members that a merge has left stay as they are while the members
/// of the same patch are merged into them again.
proof fn lemma_merge_first_twice(members: Seq<(Seq<char>, JsonModel)>, patch: JsonModel, n: nat)
    requires
        patch is Object,
        well_formed(patch),
        n <= patch->Object_0.len(),
    ensures
        merge_first(merge_first(members, patch, patch->Object_0.len()), patch, n) == merge_first(
            members,
            patch,
            patch->Object_0.len(),
        ),
    decreases patch, 0nat, n,
{
    if n > 0 {
        let added = patch->Object_0;
        let once = merge_first(members, patch, added.len());
        let key = added[n - 1].0;
        let value = added[n - 1].1;
        lemma_merge_first_twice(members, patch, (n - 1) as nat);
        lemma_merge_by_key(members, patch, added.len(), key);
        assert(added.take(added.len() as int) =~= added);
        assert forall|j: int| 0 <= j < n - 1 implies (#[trigger] added[j]).0 != key by {
            assert(added[j].0 != added[n - 1].0);
        }
        lemma_find_key_first(added, key, n - 1);
        lemma_find_key(once, key);
        let i = find_key(once, key)->Some_0;
        match member(members, key) {
            Some(held) => {
                lemma_merge_twice(held, value);
            },
            None => {
                lemma_merge_into_itself(value);
            },
        }
        assert(once.update(i, (key, once[i].1)) =~= once);
    }
}

/// Merging an object without members leaves every document as it was, be
/// it an object or not.
pub proof fn lemma_merge_empty_object(target: JsonModel)
    ensures
        merge(target, JsonModel::Object(Seq::empty())) == target,
{
}

/// A patch that is no object takes the target's place, whatever the target
/// was; so does an object with members where the target is no object.
pub proof fn lemma_merge_replaces(target: JsonModel, patch: JsonModel)
    requires
        !(patch is Object) || (!(target is Object) && !is_empty_object(patch)),
    ensures
        merge(target, patch) == patch,
{
}

/// The value of a document that may be missing.
pub open spec fn document_view(document: Option<JsonValue>) -> Option<JsonModel> {
    match document {
        Some(value) => Some(value@),
        None => None,
    }
}

/// The characters of a text that may be missing.
pub open spec fn text_view(text: Option<String>) -> Option<Seq<char>> {
    match text {
        Some(s) => Some(s@),
        None => None,
    }
}

/// The bytes of a buffer that may be missing.
pub open spec fn bytes_view(bytes: Option<Vec<u8>>) -> Option<Seq<u8>> {
    match bytes {
        Some(b) => Some(b@),
        None => None,
    }
}

/// The document that `serde_json::from_str` reads from a text, `None` where
/// it reports an error.
pub uninterp spec fn json_text_value(text: Seq<char>) -> Option<JsonModel>;

/// The document that `serde_json::from_slice` reads from bytes, `None` where
/// it reports an error.
pub uninterp spec fn json_bytes_value(bytes: Seq<u8>) -> Option<JsonModel>;

/// The text that `serde_json::to_string` writes for a document, `None`
/// where it reports an error.
pub uninterp spec fn json_value_text(value: JsonModel) -> Option<Seq<char>>;

/// The bytes that `serde_json::to_vec` writes for a document, `None` where
/// it reports an error.
pub uninterp spec fn json_value_bytes(value: JsonModel) -> Option<Seq<u8>>;

/// Moves a document of `serde_json` into a tree, variant by variant; the
/// members of an object come in the order in which its map hands them out.
#[verifier::external_body]
fn tree_of(document: serde_json::Value) -> JsonValue {
    match document {
        serde_json::Value::Null => JsonValue::Null,
        serde_json::Value::Bool(b) => JsonValue::Bool(b),
        serde_json::Value::Number(n) => JsonValue::Number(n),
        serde_json::Value::String(s) => JsonValue::String(s),
        serde_json::Value::Array(items) => JsonValue::Array(items.into_iter().map(tree_of).collect()),
        serde_json::Value::Object(map) => JsonValue::Object(
            map.into_iter().map(|(k, v)| (k, tree_of(v))).collect(),
        ),
    }
}

/// Moves a tree into a document of `serde_json`, variant by variant; of two
/// members with one key its map keeps the later one.
#[verifier::external_body]
fn document_of(tree: JsonValue) -> serde_json::Value {
    match tree {
        JsonValue::Null => serde_json::Value::Null,
        JsonValue::Bool(b) => serde_json::Value::Bool(b),
        JsonValue::Number(n) => serde_json::Value::Number(n),
        JsonValue::String(s) => serde_json::Value::String(s),
        JsonValue::Array(items) => serde_json::Value::Array(
            items.into_iter().map(document_of).collect(),
        ),
        JsonValue::Object(members) => serde_json::Value::Object(
            members.into_iter().map(|(k, v)| (k, document_of(v))).collect(),
        ),
    }
}

/// `serde_json::from_str` for a whole document: the tree of what it reads,
/// `None` where it reports an error. Its objects are maps, so none of them
/// names a key twice.
#[verifier::external_body]
pub(crate) fn parse_text(text: &str) -> (document: Option<JsonValue>)
    ensures
        document_view(document) == json_text_value(text@),
        document matches Some(tree) ==> well_formed(tree@),
{
    serde_json::from_str::<serde_json::Value>(text).ok().map(tree_of)
}

/// `serde_json::from_slice` for a whole document: the tree of what it
/// reads, `None` where it reports an error. Its objects are maps, so none
/// of them names a key twice.
#[verifier::external_body]
pub(crate) fn parse_bytes(bytes: &[u8]) -> (document: Option<JsonValue>)
    ensures
        document_view(document) == json_bytes_value(bytes@),
        document matches Some(tree) ==> well_formed(tree@),
{
    serde_json::from_slice::<serde_json::Value>(bytes).ok().map(tree_of)
}

/// `serde_json::to_string` on the document of a tree: the text it writes,
/// `None` where it reports an error.
#[verifier::external_body]
pub(crate) fn render_text(tree: JsonValue) -> (text: Option<String>)
    ensures
        text_view(text) == json_value_text(tree@),
{
    serde_json::to_string(&document_of(tree)).ok()
}

/// `serde_json::to_vec` on the document of a tree: the bytes it writes,
/// `None` where it reports an error.
#[verifier::external_body]
pub(crate) fn render_bytes(tree: JsonValue) -> (bytes: Option<Vec<u8>>)
    ensures
        bytes_view(bytes) == json_value_bytes(tree@),
{
    serde_json::to_vec(&document_of(tree)).ok()
}

} // verus!
