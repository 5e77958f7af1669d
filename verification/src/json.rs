//! A generic structured-text document: objects, arrays and scalars, with no
//! schema attached.

use vstd::prelude::*;

verus! {

/// The mathematical value of a document: what two documents must share to be
/// the same document. An object is a map from field names to values.
pub enum JsonTree {
    Null,
    Bool(bool),
    Number(Seq<char>),
    Text(Seq<char>),
    Array(Seq<JsonTree>),
    Object(Map<Seq<char>, JsonTree>),
}

/// One field of an object.
#[derive(Debug, PartialEq, Eq)]
pub struct Member {
    pub key: String,
    pub value: JsonValue,
}

/// The fields of an object, in the order in which they were first set. Where
/// two members have the same key, the later one counts.
#[derive(Debug, PartialEq, Eq)]
pub struct JsonObject {
    pub members: Vec<Member>,
}

/// A document value.
#[derive(Debug, PartialEq, Eq)]
pub enum JsonValue {
    Null,
    Bool(bool),
    /// A number, by the decimal text that denotes it.
    Number(String),
    Text(String),
    Array(Vec<JsonValue>),
    Object(JsonObject),
}

/// The values of a run of array items, item by item.
pub open spec fn items_view(items: Seq<JsonValue>) -> Seq<JsonTree>
    decreases items,
{
    if items.len() == 0 {
        Seq::empty()
    } else {
        items_view(items.drop_last()).push(value_view(items.last()))
    }
}

/// The fields that a run of members defines: a later member overrides an
/// earlier one of the same key.
pub open spec fn members_view(members: Seq<Member>) -> Map<Seq<char>, JsonTree>
    decreases members,
{
    if members.len() == 0 {
        Map::empty()
    } else {
        members_view(members.drop_last()).insert(
            members.last().key@,
            value_view(members.last().value),
        )
    }
}

/// The value of a document.
pub open spec fn value_view(value: JsonValue) -> JsonTree
    decreases value,
{
    match value {
        JsonValue::Null => JsonTree::Null,
        JsonValue::Bool(b) => JsonTree::Bool(b),
        JsonValue::Number(text) => JsonTree::Number(text@),
        JsonValue::Text(text) => JsonTree::Text(text@),
        JsonValue::Array(items) => JsonTree::Array(items_view(items@)),
        JsonValue::Object(object) => JsonTree::Object(members_view(object.members@)),
    }
}

impl View for JsonValue {
    type V = JsonTree;

    open spec fn view(&self) -> JsonTree {
        value_view(*self)
    }
}

impl View for JsonObject {
    type V = Map<Seq<char>, JsonTree>;

    open spec fn view(&self) -> Map<Seq<char>, JsonTree> {
        members_view(self.members@)
    }
}

/// `items_view` keeps the length and reads each item by its own value.
pub proof fn lemma_items_view(items: Seq<JsonValue>)
    ensures
        items_view(items).len() == items.len(),
        forall|i: int| 0 <= i < items.len() ==> #[trigger] items_view(items)[i] == items[i]@,
    decreases items.len(),
{
    if items.len() > 0 {
        lemma_items_view(items.drop_last());
    }
}

/// Appending an item appends its value.
pub proof fn lemma_items_view_push(items: Seq<JsonValue>, item: JsonValue)
    ensures
        items_view(items.push(item)) == items_view(items).push(item@),
{
    assert(items.push(item).drop_last() =~= items);
}

/// Appending a member sets its field.
pub proof fn lemma_members_view_push(members: Seq<Member>, member: Member)
    ensures
        members_view(members.push(member)) == members_view(members).insert(
            member.key@,
            member.value@,
        ),
{
    assert(members.push(member).drop_last() =~= members);
}

/// A key that no member has is no field.
pub proof fn lemma_members_absent(members: Seq<Member>, key: Seq<char>)
    requires
        forall|i: int| 0 <= i < members.len() ==> (#[trigger] members[i]).key@ != key,
    ensures
        !members_view(members).contains_key(key),
    decreases members.len(),
{
    if members.len() > 0 {
        lemma_members_absent(members.drop_last(), key);
    }
}

/// The last member with a key gives the field of that key.
pub proof fn lemma_members_found(members: Seq<Member>, at: int, key: Seq<char>)
    requires
        0 <= at < members.len(),
        members[at].key@ == key,
        forall|i: int| at < i < members.len() ==> (#[trigger] members[i]).key@ != key,
    ensures
        members_view(members).contains_key(key),
        members_view(members)[key] == members[at].value@,
    decreases members.len(),
{
    if at < members.len() - 1 {
        lemma_members_found(members.drop_last(), at, key);
    }
}

/// Replacing the last member with a key sets the field of that key.
pub proof fn lemma_members_view_update(members: Seq<Member>, at: int, member: Member)
    requires
        0 <= at < members.len(),
        members[at].key@ == member.key@,
        forall|i: int| at < i < members.len() ==> (#[trigger] members[i]).key@ != member.key@,
    ensures
        members_view(members.update(at, member)) == members_view(members).insert(
            member.key@,
            member.value@,
        ),
    decreases members.len(),
{
    let updated = members.update(at, member);
    if at == members.len() - 1 {
        assert(updated.drop_last() =~= members.drop_last());
        assert(members_view(updated) =~= members_view(members).insert(
            member.key@,
            member.value@,
        ));
    } else {
        lemma_members_view_update(members.drop_last(), at, member);
        assert(updated.drop_last() =~= members.drop_last().update(at, member));
        assert(updated.last() == members.last());
        assert(members_view(updated) =~= members_view(members).insert(
            member.key@,
            member.value@,
        ));
    }
}

impl JsonObject {
    /// An object without fields.
    pub fn new() -> (r: JsonObject)
        ensures
            r@ == Map::<Seq<char>, JsonTree>::empty(),
    {
        JsonObject { members: Vec::new() }
    }

    /// Where the member stands that gives the field `key`: the last one
    /// with that key.
    fn position(&self, key: &str) -> (r: Option<usize>)
        ensures
            match r {
                Some(at) => {
                    &&& at < self.members@.len()
                    &&& self.members@[at as int].key@ == key@
                    &&& forall|i: int|
                        at < i < self.members@.len() ==> (#[trigger] self.members@[i]).key@
                            != key@
                },
                None => forall|i: int|
                    0 <= i < self.members@.len() ==> (#[trigger] self.members@[i]).key@ != key@,
            },
    {
        let wanted = key.to_owned();
        let mut at: usize = self.members.len();
        while at > 0
            invariant
                at <= self.members.len(),
                wanted@ == key@,
                forall|i: int|
                    at <= i < self.members.len() ==> (#[trigger] self.members@[i]).key@ != key@,
            decreases at,
        {
            at = at - 1;
            if self.members[at].key == wanted {
                return Some(at);
            }
        }
        None
    }

    /// The value of the field `key`, if the object has it.
    pub fn get(&self, key: &str) -> (r: Option<&JsonValue>)
        ensures
            match r {
                Some(value) => self@.contains_key(key@) && value@ == self@[key@],
                None => !self@.contains_key(key@),
            },
    {
        match self.position(key) {
            Some(at) => {
                proof {
                    lemma_members_found(self.members@, at as int, key@);
                }
                Some(&self.members[at].value)
            },
            None => {
                proof {
                    lemma_members_absent(self.members@, key@);
                }
                None
            },
        }
    }

    /// Whether the object has the field `key`.
    pub fn contains_key(&self, key: &str) -> (r: bool)
        ensures
            r == self@.contains_key(key@),
    {
        self.get(key).is_some()
    }

    /// Sets the field `key` to `value`. A field that the object has keeps
    /// its place; a new one comes last.
    pub fn insert(&mut self, key: String, value: JsonValue)
        ensures
            final(self)@ == old(self)@.insert(key@, value@),
    {
        match self.position(key.as_str()) {
            Some(at) => {
                proof {
                    lemma_members_view_update(self.members@, at as int, Member { key, value });
                }
                self.members.set(at, Member { key, value });
            },
            None => {
                proof {
                    lemma_members_view_push(self.members@, Member { key, value });
                }
                self.members.push(Member { key, value });
            },
        }
    }
}

/// A copy of a run of array items.
fn clone_items(items: &Vec<JsonValue>) -> (r: Vec<JsonValue>)
    ensures
        items_view(r@) == items_view(items@),
    decreases items,
{
    let mut copy: Vec<JsonValue> = Vec::new();
    let mut at: usize = 0;
    while at < items.len()
        invariant
            at <= items.len(),
            items_view(copy@) == items_view(items@.take(at as int)),
        decreases items.len() - at,
    {
        let item = items[at].clone();
        proof {
            lemma_items_view_push(copy@, item);
            lemma_items_view_push(items@.take(at as int), items@[at as int]);
            assert(items@.take(at as int).push(items@[at as int]) =~= items@.take(at + 1));
        }
        copy.push(item);
        at = at + 1;
    }
    assert(items@.take(at as int) =~= items@);
    copy
}

/// A copy of a run of members.
fn clone_members(members: &Vec<Member>) -> (r: Vec<Member>)
    ensures
        members_view(r@) == members_view(members@),
    decreases members,
{
    let mut copy: Vec<Member> = Vec::new();
    let mut at: usize = 0;
    while at < members.len()
        invariant
            at <= members.len(),
            members_view(copy@) == members_view(members@.take(at as int)),
        decreases members.len() - at,
    {
        let member = Member { key: members[at].key.clone(), value: members[at].value.clone() };
        proof {
            lemma_members_view_push(copy@, member);
            lemma_members_view_push(members@.take(at as int), members@[at as int]);
            assert(members@.take(at as int).push(members@[at as int]) =~= members@.take(
                at + 1,
            ));
        }
        copy.push(member);
        at = at + 1;
    }
    assert(members@.take(at as int) =~= members@);
    copy
}

impl Clone for JsonValue {
    /// A copy that is the same document.
    fn clone(&self) -> (r: JsonValue)
        ensures
            r@ == self@,
        decreases self,
    {
        match self {
            JsonValue::Null => JsonValue::Null,
            JsonValue::Bool(b) => JsonValue::Bool(*b),
            JsonValue::Number(text) => JsonValue::Number(text.clone()),
            JsonValue::Text(text) => JsonValue::Text(text.clone()),
            JsonValue::Array(items) => JsonValue::Array(clone_items(items)),
            JsonValue::Object(object) => JsonValue::Object(
                JsonObject { members: clone_members(&object.members) },
            ),
        }
    }
}

impl Clone for JsonObject {
    /// A copy with the same fields.
    fn clone(&self) -> (r: JsonObject)
        ensures
            r@ == self@,
    {
        JsonObject { members: clone_members(&self.members) }
    }
}

} // verus!
