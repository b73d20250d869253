//! JSON values, as the messages between an asker and a faucet carry them.
//!
//! `serde_json` reads and writes the text. A [`Json`] holds a value of it in the
//! open, so that what a message says can be reasoned about.

use crate::text;
use crate::text::decimal;
use vstd::prelude::*;

verus! {

/// `serde_json::Value`, a JSON value as `serde_json` holds it.
#[verifier::external_type_specification]
#[verifier::external_body]
pub struct ExValue(serde_json::Value);

/// What a JSON value is: the mathematical counterpart of [`Json`].
///
/// An object is a map, so neither the order of its members nor a repeated key
/// is part of it.
pub enum JsonTree {
    Null,
    Bool(bool),
    /// A number that is a `u64`.
    Unsigned(u64),
    /// Any other number, by the numeral that `serde_json` writes for it.
    Number(Seq<char>),
    Text(Seq<char>),
    Array(Seq<JsonTree>),
    Object(Map<Seq<char>, JsonTree>),
}

/// What a `serde_json::Value` holds.
pub uninterp spec fn json_of(value: serde_json::Value) -> JsonTree;

/// What `serde_json::from_str` makes of a text: the value that it holds, or what
/// its error says where it is not JSON.
pub uninterp spec fn json_read(text: Seq<char>) -> Result<JsonTree, Seq<char>>;

/// Whether `serde_json` reads this value from a text.
pub open spec fn reads(text: Seq<char>, tree: JsonTree) -> bool {
    json_read(text) matches Ok(read) && read == tree
}

/// The text that `serde_json` writes for a value.
pub uninterp spec fn json_text(tree: JsonTree) -> Seq<char>;

/// A JSON value, in the open.
///
/// A key that occurs twice in an object has the value of its last occurrence.
pub enum Json {
    Null,
    Bool(bool),
    /// A number that is a `u64`.
    Unsigned(u64),
    /// Any other number.
    Number(OtherNumber),
    Text(String),
    Array(Vec<Json>),
    Object(Vec<(String, Json)>),
}

/// A number that is not a `u64`, kept as `serde_json` holds it.
pub struct OtherNumber {
    value: serde_json::Value,
}

impl OtherNumber {
    /// The number as a tree.
    pub closed spec fn view(&self) -> JsonTree {
        json_of(self.value)
    }

    #[verifier::type_invariant]
    spec fn well_formed(self) -> bool {
        json_of(self.value) is Number
    }
}

/// The members of an object that is listed as keys and values: a later entry
/// for a key replaces an earlier one.
pub open spec fn object_of(entries: Seq<(Seq<char>, JsonTree)>) -> Map<Seq<char>, JsonTree>
    decreases entries.len(),
{
    if entries.len() == 0 {
        Map::empty()
    } else {
        object_of(entries.drop_last()).insert(entries.last().0, entries.last().1)
    }
}

/// The member `key` of a value, where the value is an object that has it.
pub open spec fn member(tree: JsonTree, key: Seq<char>) -> Option<JsonTree> {
    match tree {
        JsonTree::Object(members) => if members.dom().contains(key) {
            Some(members[key])
        } else {
            None
        },
        _ => None,
    }
}

/// The member `inner` of the member `outer` of a value.
pub open spec fn member_of_member(tree: JsonTree, outer: Seq<char>, inner: Seq<char>) -> Option<
    JsonTree,
> {
    match member(tree, outer) {
        Some(found) => member(found, inner),
        None => None,
    }
}

/// The text that a value is, where it is one.
pub open spec fn text_of(tree: Option<JsonTree>) -> Option<Seq<char>> {
    match tree {
        Some(JsonTree::Text(s)) => Some(s),
        _ => None,
    }
}

/// Whether a numeral is that of a negative `i64`.
pub open spec fn is_negative(numeral: Seq<char>) -> bool {
    exists|n: nat| 1 <= n <= 0x8000_0000_0000_0000 && numeral == "-"@ + #[trigger] decimal(n)
}

/// Whether `serde_json` reads back what it writes for a value: arrays and
/// objects nest at most `depth` deep in it, and each number in it is a `u64` or
/// a negative `i64`.
pub open spec fn reads_back(tree: JsonTree, depth: nat) -> bool
    decreases depth,
{
    match tree {
        JsonTree::Number(numeral) => is_negative(numeral),
        JsonTree::Array(items) => depth > 0 && forall|i: int|
            0 <= i < items.len() ==> reads_back(#[trigger] items[i], (depth - 1) as nat),
        JsonTree::Object(members) => depth > 0 && forall|key: Seq<char>|
            members.dom().contains(key) ==> reads_back(
                #[trigger] members[key],
                (depth - 1) as nat,
            ),
        _ => true,
    }
}

/// How deep arrays and objects may nest in a text for `serde_json` to read it.
pub const MAX_DEPTH: u64 = 127;

impl Json {
    /// The value as a tree.
    pub open spec fn view(&self) -> JsonTree
        decreases self,
    {
        match self {
            Json::Null => JsonTree::Null,
            Json::Bool(b) => JsonTree::Bool(*b),
            Json::Unsigned(n) => JsonTree::Unsigned(*n),
            Json::Number(n) => n.view(),
            Json::Text(s) => JsonTree::Text(s@),
            Json::Array(items) => JsonTree::Array(trees(items@)),
            Json::Object(entries) => JsonTree::Object(object_of(entry_trees(entries@))),
        }
    }
}

/// The trees of a list of values.
pub open spec fn trees(items: Seq<Json>) -> Seq<JsonTree>
    decreases items,
{
    Seq::new(
        items.len(),
        |i: int|
            if 0 <= i < items.len() {
                items[i].view()
            } else {
                JsonTree::Null
            },
    )
}

/// The keys and the trees of a list of members.
pub open spec fn entry_trees(entries: Seq<(String, Json)>) -> Seq<(Seq<char>, JsonTree)>
    decreases entries,
{
    Seq::new(
        entries.len(),
        |i: int|
            if 0 <= i < entries.len() {
                (entries[i].0@, entries[i].1.view())
            } else {
                (Seq::empty(), JsonTree::Null)
            },
    )
}

/// One level of a `serde_json::Value`: what it is, with the values inside it
/// still closed.
enum Opened<'a> {
    Null,
    Bool(bool),
    Unsigned(u64),
    Number(String),
    Text(String),
    Array(&'a Vec<serde_json::Value>),
    Object(Vec<(String, &'a serde_json::Value)>),
}

/// The same, on the way to a `serde_json::Value`.
enum Closing {
    Null,
    Bool(bool),
    Unsigned(u64),
    Text(String),
    Array(Vec<serde_json::Value>),
    Object(Vec<(String, serde_json::Value)>),
}

spec fn value_trees(items: Seq<serde_json::Value>) -> Seq<JsonTree> {
    Seq::new(items.len(), |i: int| json_of(items[i]))
}

spec fn value_entries(entries: Seq<(String, serde_json::Value)>) -> Seq<(Seq<char>, JsonTree)> {
    Seq::new(entries.len(), |i: int| (entries[i].0@, json_of(entries[i].1)))
}

spec fn value_ref_entries(entries: Seq<(String, &serde_json::Value)>) -> Seq<
    (Seq<char>, JsonTree),
> {
    Seq::new(entries.len(), |i: int| (entries[i].0@, json_of(*entries[i].1)))
}

spec fn distinct_keys(entries: Seq<(Seq<char>, JsonTree)>) -> bool {
    forall|i: int, j: int|
        0 <= i < j < entries.len() ==> (#[trigger] entries[i]).0 != (#[trigger] entries[j]).0
}

impl<'a> Opened<'a> {
    spec fn tree(self) -> JsonTree {
        match self {
            Opened::Null => JsonTree::Null,
            Opened::Bool(b) => JsonTree::Bool(b),
            Opened::Unsigned(n) => JsonTree::Unsigned(n),
            Opened::Number(numeral) => JsonTree::Number(numeral@),
            Opened::Text(s) => JsonTree::Text(s@),
            Opened::Array(items) => JsonTree::Array(value_trees(items@)),
            Opened::Object(entries) => JsonTree::Object(object_of(value_ref_entries(entries@))),
        }
    }
}

impl Closing {
    spec fn tree(self) -> JsonTree {
        match self {
            Closing::Null => JsonTree::Null,
            Closing::Bool(b) => JsonTree::Bool(b),
            Closing::Unsigned(n) => JsonTree::Unsigned(n),
            Closing::Text(s) => JsonTree::Text(s@),
            Closing::Array(items) => JsonTree::Array(value_trees(items@)),
            Closing::Object(entries) => JsonTree::Object(object_of(value_entries(entries@))),
        }
    }
}

/// Reads a text with `serde_json::from_str`: it returns the value that the text
/// holds, or, where the text is not JSON, what its error says. Both depend on the
/// text alone.
#[verifier::external_body]
fn read_value(text: &str) -> (r: Result<serde_json::Value, String>)
    ensures
        r is Ok <==> json_read(text@) is Ok,
        r matches Ok(value) ==> json_of(value) == json_read(text@)->Ok_0,
        r matches Err(error) ==> error@ == json_read(text@)->Err_0,
{
    serde_json::from_str(text).map_err(|error: serde_json::Error| error.to_string())
}

/// Writes a value with the `to_string` of `serde_json::Value`: the text depends on
/// what the value holds alone. `serde_json::from_str` reads that text back to
/// the same value, where the value does not nest deeper than it reads and holds
/// no number besides integers (a floating-point one can come back changed).
#[verifier::external_body]
fn write_value(value: &serde_json::Value) -> (r: String)
    ensures
        r@ == json_text(json_of(*value)),
        reads_back(json_of(*value), MAX_DEPTH as nat) ==> json_read(r@) is Ok,
        reads_back(json_of(*value), MAX_DEPTH as nat) ==> json_read(r@)->Ok_0 == json_of(*value),
{
    value.to_string()
}

/// Tells the variants of `serde_json::Value` apart, and a `u64` from the other
/// numbers (`Number::as_u64`). No two members of an object have the same key.
#[verifier::external_body]
fn open_value<'a>(value: &'a serde_json::Value) -> (r: Opened<'a>)
    ensures
        r.tree() == json_of(*value),
        r matches Opened::Object(entries) ==> distinct_keys(value_ref_entries(entries@)),
{
    match value {
        serde_json::Value::Null => Opened::Null,
        serde_json::Value::Bool(b) => Opened::Bool(*b),
        serde_json::Value::Number(n) => match n.as_u64() {
            Some(unsigned) => Opened::Unsigned(unsigned),
            None => Opened::Number(n.to_string()),
        },
        serde_json::Value::String(s) => Opened::Text(s.clone()),
        serde_json::Value::Array(items) => Opened::Array(items),
        serde_json::Value::Object(m) => Opened::Object(m.iter().map(|(k, v)| (k.clone(), v)).collect()),
    }
}

/// Makes a `serde_json::Value` of the same variant. An object is collected into a
/// `serde_json::Map`, in which a later entry for a key replaces an earlier one.
#[verifier::external_body]
fn close_value(layer: Closing) -> (r: serde_json::Value)
    ensures
        json_of(r) == layer.tree(),
{
    match layer {
        Closing::Null => serde_json::Value::Null,
        Closing::Bool(b) => serde_json::Value::Bool(b),
        Closing::Unsigned(n) => serde_json::Value::from(n),
        Closing::Text(s) => serde_json::Value::String(s),
        Closing::Array(items) => serde_json::Value::Array(items),
        Closing::Object(entries) => serde_json::Value::Object(entries.into_iter().collect()),
    }
}

/// `Clone` of `serde_json::Value`: the copy holds what the value holds.
#[verifier::external_body]
fn copy_value(value: &serde_json::Value) -> (r: serde_json::Value)
    ensures
        json_of(r) == json_of(*value),
{
    value.clone()
}

proof fn lemma_object_finite(entries: Seq<(Seq<char>, JsonTree)>)
    ensures
        object_of(entries).dom().finite(),
    decreases entries.len(),
{
    if entries.len() > 0 {
        lemma_object_finite(entries.drop_last());
    }
}

/// An entry whose key no later entry has is the member of that key.
proof fn lemma_object_last(entries: Seq<(Seq<char>, JsonTree)>, i: int)
    requires
        0 <= i < entries.len(),
        forall|j: int| i < j < entries.len() ==> (#[trigger] entries[j]).0 != entries[i].0,
    ensures
        object_of(entries).dom().contains(entries[i].0),
        object_of(entries)[entries[i].0] == entries[i].1,
    decreases entries.len(),
{
    if i < entries.len() - 1 {
        let rest = entries.drop_last();
        assert(entries[entries.len() - 1].0 != entries[i].0);
        assert forall|j: int| i < j < rest.len() implies (#[trigger] rest[j]).0 != rest[i].0 by {
            assert(entries[j].0 != entries[i].0);
        }
        lemma_object_last(rest, i);
    }
}

/// A key that no entry has is no member.
proof fn lemma_object_absent(entries: Seq<(Seq<char>, JsonTree)>, key: Seq<char>)
    requires
        forall|j: int| 0 <= j < entries.len() ==> (#[trigger] entries[j]).0 != key,
    ensures
        !object_of(entries).dom().contains(key),
    decreases entries.len(),
{
    if entries.len() > 0 {
        let rest = entries.drop_last();
        assert(entries[entries.len() - 1].0 != key);
        assert forall|j: int| 0 <= j < rest.len() implies (#[trigger] rest[j]).0 != key by {
            assert(entries[j].0 != key);
        }
        lemma_object_absent(rest, key);
    }
}

impl Json {
    /// The value that a `serde_json::Value` holds.
    pub fn from_value(value: &serde_json::Value) -> (r: Json)
        ensures
            r.view() == json_of(*value),
        decreases json_of(*value),
    {
        match open_value(value) {
            Opened::Null => Json::Null,
            Opened::Bool(b) => Json::Bool(b),
            Opened::Unsigned(n) => Json::Unsigned(n),
            Opened::Number(_) => Json::Number(OtherNumber { value: copy_value(value) }),
            Opened::Text(s) => Json::Text(s),
            Opened::Array(items) => {
                let mut out: Vec<Json> = Vec::new();
                let mut i: usize = 0;
                while i < items.len()
                    invariant
                        json_of(*value) == JsonTree::Array(value_trees(items@)),
                        i <= items@.len(),
                        out@.len() == i,
                        forall|k: int| 0 <= k < i ==> (#[trigger] out@[k]).view() == json_of(items@[k]),
                    decreases items@.len() - i,
                {
                    proof {
                        let all = value_trees(items@);
                        assert(all[i as int] == json_of(items@[i as int]));
                        let whole = json_of(*value);
                        assert(whole->Array_0 == all);
                        assert(decreases_to!(whole => whole->Array_0));
                        assert(decreases_to!(all => all[i as int]));
                    }
                    let item = Json::from_value(&items[i]);
                    out.push(item);
                    i = i + 1;
                }
                proof {
                    assert(trees(out@) =~= value_trees(items@));
                }
                Json::Array(out)
            },
            Opened::Object(entries) => {
                let mut out: Vec<(String, Json)> = Vec::new();
                let mut i: usize = 0;
                let ghost all = value_ref_entries(entries@);
                while i < entries.len()
                    invariant
                        all == value_ref_entries(entries@),
                        json_of(*value) == JsonTree::Object(object_of(all)),
                        distinct_keys(all),
                        i <= entries@.len(),
                        out@.len() == i,
                        forall|k: int|
                            0 <= k < i ==> (#[trigger] out@[k]).0@ == entries@[k].0@
                                && out@[k].1.view() == json_of(*entries@[k].1),
                    decreases entries@.len() - i,
                {
                    proof {
                        lemma_object_finite(all);
                        let key = all[i as int].0;
                        assert forall|j: int| i < j < all.len() implies (#[trigger] all[j]).0
                            != all[i as int].0 by {
                            assert(all[i as int].0 != all[j].0);
                        }
                        lemma_object_last(all, i as int);
                        let members = object_of(all);
                        let whole = json_of(*value);
                        assert(whole->Object_0 == members);
                        assert(decreases_to!(whole => whole->Object_0));
                        assert(decreases_to!(members => members[key]));
                    }
                    let item = Json::from_value(entries[i].1);
                    out.push((entries[i].0.clone(), item));
                    i = i + 1;
                }
                proof {
                    assert(entry_trees(out@) =~= all);
                }
                Json::Object(out)
            },
        }
    }

    /// The same value as a `serde_json::Value`.
    pub fn to_value(&self) -> (r: serde_json::Value)
        ensures
            json_of(r) == self.view(),
        decreases self,
    {
        match self {
            Json::Null => close_value(Closing::Null),
            Json::Bool(b) => close_value(Closing::Bool(*b)),
            Json::Unsigned(n) => close_value(Closing::Unsigned(*n)),
            Json::Number(n) => copy_value(&n.value),
            Json::Text(s) => close_value(Closing::Text(s.clone())),
            Json::Array(items) => {
                let mut out: Vec<serde_json::Value> = Vec::new();
                let mut i: usize = 0;
                while i < items.len()
                    invariant
                        self == Json::Array(*items),
                        i <= items@.len(),
                        out@.len() == i,
                        forall|k: int| 0 <= k < i ==> json_of(#[trigger] out@[k]) == items@[k].view(),
                    decreases items@.len() - i,
                {
                    assert(decreases_to!(self => self->Array_0));
                    assert(decreases_to!(items@ => items@[i as int]));
                    let item = items[i].to_value();
                    out.push(item);
                    i = i + 1;
                }
                proof {
                    assert(value_trees(out@) =~= trees(items@));
                }
                close_value(Closing::Array(out))
            },
            Json::Object(entries) => {
                let mut out: Vec<(String, serde_json::Value)> = Vec::new();
                let mut i: usize = 0;
                while i < entries.len()
                    invariant
                        self == Json::Object(*entries),
                        i <= entries@.len(),
                        out@.len() == i,
                        forall|k: int|
                            0 <= k < i ==> (#[trigger] out@[k]).0@ == entries@[k].0@
                                && json_of(out@[k].1) == entries@[k].1.view(),
                    decreases entries@.len() - i,
                {
                    assert(decreases_to!(self => self->Object_0));
                    assert(decreases_to!(entries@ => entries@[i as int]));
                    assert(decreases_to!(entries@[i as int] => entries@[i as int].1));
                    let item = entries[i].1.to_value();
                    out.push((entries[i].0.clone(), item));
                    i = i + 1;
                }
                proof {
                    assert(value_entries(out@) =~= entry_trees(entries@));
                }
                close_value(Closing::Object(out))
            },
        }
    }

    /// Reads a text: the value that it holds, or why it is not JSON.
    pub fn parse(text: &str) -> (r: Result<Json, String>)
        ensures
            r is Ok <==> json_read(text@) is Ok,
            r matches Ok(json) ==> reads(text@, json.view()),
            r matches Err(error) ==> error@ == json_read(text@)->Err_0,
    {
        match read_value(text) {
            Ok(value) => Ok(Json::from_value(&value)),
            Err(error) => Err(error),
        }
    }

    /// Writes the value as a text.
    pub fn to_text(&self) -> (r: String)
        ensures
            r@ == json_text(self.view()),
            reads_back(self.view(), MAX_DEPTH as nat) ==> reads(r@, self.view()),
    {
        write_value(&self.to_value())
    }

    /// The member `key`, where the value is an object that has it.
    pub fn get(&self, key: &str) -> (r: Option<&Json>)
        ensures
            r is Some <==> member(self.view(), key@) is Some,
            r matches Some(found) ==> member(self.view(), key@) == Some(found.view()),
    {
        match self {
            Json::Object(entries) => {
                let ghost all = entry_trees(entries@);
                let mut i: usize = entries.len();
                while i > 0
                    invariant
                        self.view() == JsonTree::Object(object_of(all)),
                        all == entry_trees(entries@),
                        i <= entries@.len(),
                        forall|k: int| i <= k < all.len() ==> (#[trigger] all[k]).0 != key@,
                    decreases i,
                {
                    i = i - 1;
                    if text::same(entries[i].0.as_str(), key) {
                        proof {
                            assert(all[i as int].0 == key@);
                            lemma_object_last(all, i as int);
                        }
                        return Some(&entries[i].1);
                    }
                }
                proof {
                    lemma_object_absent(all, key@);
                }
                None
            },
            Json::Number(n) => {
                proof {
                    use_type_invariant(n);
                }
                None
            },
            _ => None,
        }
    }

    /// The member `inner` of the member `outer`.
    pub fn get_in(&self, outer: &str, inner: &str) -> (r: Option<&Json>)
        ensures
            r is Some <==> member_of_member(self.view(), outer@, inner@) is Some,
            r matches Some(found) ==> member_of_member(self.view(), outer@, inner@) == Some(
                found.view(),
            ),
    {
        match self.get(outer) {
            Some(found) => found.get(inner),
            None => None,
        }
    }

    /// The items of the value, where it is an array.
    pub fn as_array(&self) -> (r: Option<&Vec<Json>>)
        ensures
            r is Some <==> self.view() is Array,
            r matches Some(items) ==> self.view() == JsonTree::Array(trees(items@)),
    {
        match self {
            Json::Array(items) => Some(items),
            Json::Number(n) => {
                proof {
                    use_type_invariant(n);
                }
                None
            },
            _ => None,
        }
    }

    /// Whether the value is a number.
    pub fn is_number(&self) -> (r: bool)
        ensures
            r == (self.view() is Unsigned || self.view() is Number),
    {
        match self {
            Json::Unsigned(_) => true,
            Json::Number(n) => {
                proof {
                    use_type_invariant(n);
                }
                true
            },
            _ => false,
        }
    }

    /// The text that the value is, where it is one.
    pub fn as_text(&self) -> (r: Option<String>)
        ensures
            r is Some <==> text_of(Some(self.view())) is Some,
            r matches Some(s) ==> text_of(Some(self.view())) == Some(s@),
    {
        match self {
            Json::Text(s) => Some(s.clone()),
            Json::Number(n) => {
                proof {
                    use_type_invariant(n);
                }
                None
            },
            _ => None,
        }
    }
}

/// What a value in the open stands for: itself, with its texts and its items as values.
pub proof fn law_json_stands_for_itself(json: Json)
    ensures
        json is Null ==> json@ == JsonTree::Null,
        json matches Json::Bool(b) ==> json@ == JsonTree::Bool(b),
        json matches Json::Unsigned(n) ==> json@ == JsonTree::Unsigned(n),
        json matches Json::Text(s) ==> json@ == JsonTree::Text(s@),
        json matches Json::Array(items) ==> (json@ matches JsonTree::Array(held) && held.len()
            == items@.len() && forall|i: int|
            0 <= i < items@.len() ==> #[trigger] held[i] == items@[i]@),
        json matches Json::Object(_) ==> json@ is Object,
{
}

/// An object has the members that are listed in it, and no others; of two with the same key,
/// the later counts.
pub proof fn law_object_has_its_entries(entries: Vec<(String, Json)>, i: int, key: Seq<char>)
    requires
        0 <= i < entries@.len(),
        forall|j: int| i < j < entries@.len() ==> (#[trigger] entries@[j]).0@ != entries@[i].0@,
        forall|j: int| 0 <= j < entries@.len() ==> (#[trigger] entries@[j]).0@ != key,
    ensures
        Json::Object(entries)@ matches JsonTree::Object(members) && members.dom().contains(
            entries@[i].0@,
        ) && members[entries@[i].0@] == entries@[i].1@ && !members.dom().contains(key),
{
    let listed = entry_trees(entries@);
    assert forall|j: int| i < j < listed.len() implies (#[trigger] listed[j]).0 != listed[i].0 by {
        assert(entries@[j].0@ != entries@[i].0@);
    }
    assert forall|j: int| 0 <= j < listed.len() implies (#[trigger] listed[j]).0 != key by {
        assert(entries@[j].0@ != key);
    }
    lemma_object_last(listed, i);
    lemma_object_absent(listed, key);
}

/// A member is found where an object has it, and nowhere else.
pub proof fn law_member_is_found(json: &Json, key: &str, found: Option<&Json>)
    requires
        call_ensures(Json::get, (json, key), found),
    ensures
        json@ matches JsonTree::Object(members) ==> (found is Some <==> members.dom().contains(
            key@,
        )) && (found matches Some(value) ==> value@ == members[key@]),
        !(json@ is Object) ==> found is None,
{
}

/// A member of a member is found by looking twice.
pub proof fn law_inner_member_is_found(
    json: &Json,
    outer: &str,
    inner: &str,
    found: Option<&Json>,
)
    requires
        call_ensures(Json::get_in, (json, outer, inner), found),
    ensures
        found matches Some(value) ==> (json@ matches JsonTree::Object(members)
            && members.dom().contains(outer@) && (members[outer@] matches JsonTree::Object(deeper)
            && deeper.dom().contains(inner@) && deeper[inner@] == value@)),
        found is None ==> (json@ matches JsonTree::Object(members) ==> members.dom().contains(outer@)
            ==> (members[outer@] matches JsonTree::Object(deeper) ==> !deeper.dom().contains(
            inner@,
        ))),
{
}

/// A value is taken for a text, a list or a number where it is one, and nowhere else.
pub proof fn law_values_are_told_apart(
    json: &Json,
    text: Option<String>,
    items: Option<&Vec<Json>>,
    number: bool,
)
    requires
        call_ensures(Json::as_text, (json,), text),
        call_ensures(Json::as_array, (json,), items),
        call_ensures(Json::is_number, (json,), number),
    ensures
        text is Some <==> json@ is Text,
        text matches Some(s) ==> json@ == JsonTree::Text(s@),
        items is Some <==> json@ is Array,
        items matches Some(listed) ==> (json@ matches JsonTree::Array(held) && held.len()
            == listed@.len() && forall|i: int|
            0 <= i < held.len() ==> #[trigger] held[i] == listed@[i]@),
        number <==> (json@ is Unsigned || json@ is Number),
{
}

/// What is written reads back: a value of integers, texts and the like, not nested too deep,
/// comes back from its text as it was.
pub proof fn law_json_reads_back(
    json: &Json,
    text: String,
    carried: &str,
    r: Result<Json, String>,
)
    requires
        reads_back(json@, 127),
        call_ensures(Json::to_text, (json,), text),
        carried@ == text@,
        call_ensures(Json::parse, (carried,), r),
    ensures
        r matches Ok(read) && read@ == json@,
{
}

/// A value goes through `serde_json::Value` and back as it was.
pub proof fn law_json_through_value(json: &Json, value: serde_json::Value, r: Json)
    requires
        call_ensures(Json::to_value, (json,), value),
        call_ensures(Json::from_value, (&value,), r),
    ensures
        r@ == json@,
{
}

}
