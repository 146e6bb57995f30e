//! JSON values as trees: reading members and items, building request bodies,
//! deep-merging one value into another, and the text form.
//!
//! Parsing and writing text are done by `serde_json`; the tree type here is
//! the crate's own, so that what the crate reads from a value and does to it
//! is verified. Numbers are kept as `serde_json::Number` and never looked
//! into, except to ask for their value as a 64-bit float.

use crate::text::same_text;
use vstd::prelude::*;
use vstd::string::*;

verus! {

/// `serde_json::Number`, carried through unopened.
#[verifier::external_type_specification]
#[verifier::external_body]
pub struct ExNumber(serde_json::Number);

/// `serde_json::Value`, the form in which `serde_json` reads and writes.
#[verifier::external_type_specification]
#[verifier::external_body]
pub struct ExValue(serde_json::Value);

/// `serde_json::Error`, what `serde_json` reports for a text that it cannot
/// read.
#[verifier::external_type_specification]
#[verifier::external_body]
pub struct ExJsonError(serde_json::Error);

/// One member of a JSON object.
#[derive(Debug, PartialEq)]
pub struct Member {
    pub name: String,
    pub value: Json,
}

/// A JSON value. An object is a list of members; where a name occurs more than
/// once, the last member of that name is the one that counts.
#[derive(Debug, PartialEq)]
pub enum Json {
    Null,
    Bool(bool),
    Number(serde_json::Number),
    String(String),
    Array(Vec<Json>),
    Object(Vec<Member>),
}

/// The mathematical form of a [`Member`].
pub struct MemberView {
    pub name: Seq<char>,
    pub value: JsonView,
}

/// The members of an object in mathematical form, in order.
pub type MembersView = Seq<MemberView>;

/// The mathematical form of a [`Json`] value.
pub enum JsonView {
    Null,
    Bool(bool),
    Number(serde_json::Number),
    String(Seq<char>),
    Array(Seq<JsonView>),
    Object(MembersView),
}

impl View for Member {
    type V = MemberView;

    open spec fn view(&self) -> MemberView {
        MemberView { name: self.name@, value: self.value@ }
    }
}

/// The mathematical form of a list of values.
pub open spec fn items_view(items: Seq<Json>) -> Seq<JsonView> {
    Seq::new(items.len(), |i: int| items[i]@)
}

/// The mathematical form of a list of members.
pub open spec fn members_view(members: Seq<Member>) -> MembersView {
    Seq::new(members.len(), |i: int| members[i]@)
}

impl View for Json {
    type V = JsonView;

    open spec fn view(&self) -> JsonView
        decreases self,
    {
        match self {
            Json::Null => JsonView::Null,
            Json::Bool(b) => JsonView::Bool(*b),
            Json::Number(n) => JsonView::Number(*n),
            Json::String(s) => JsonView::String(s@),
            Json::Array(items) => JsonView::Array(
                Seq::new(
                    items@.len(),
                    |i: int|
                        if 0 <= i < items@.len() {
                            items@[i].view()
                        } else {
                            JsonView::Null
                        },
                ),
            ),
            Json::Object(members) => JsonView::Object(
                Seq::new(
                    members@.len(),
                    |i: int|
                        if 0 <= i < members@.len() {
                            MemberView {
                                name: members@[i].name@,
                                value: members@[i].value.view(),
                            }
                        } else {
                            MemberView { name: Seq::empty(), value: JsonView::Null }
                        },
                ),
            ),
        }
    }
}

/// The view of an array is the list of its items' views, and the view of an
/// object the list of its members' views.
pub proof fn lemma_view_of_lists(j: Json)
    ensures
        j matches Json::Array(items) ==> j@ == JsonView::Array(items_view(items@)),
        j matches Json::Object(members) ==> j@ == JsonView::Object(members_view(members@)),
{
    match j {
        Json::Array(items) => {
            assert(j@->Array_0 =~= items_view(items@));
        },
        Json::Object(members) => {
            assert(j@ is Object);
            assert(j@->Object_0.len() == members@.len());
            assert forall|i: int| 0 <= i < members@.len() implies j@->Object_0[i]
                == members_view(members@)[i] by {
                assert(members_view(members@)[i] == members@[i]@);
            }
            assert(j@->Object_0 =~= members_view(members@));
        },
        _ => {},
    }
}

/// The place of the member that counts for `key`: the last one of that name.
pub open spec fn find_member(members: MembersView, key: Seq<char>) -> Option<int>
    decreases members.len(),
{
    if members.len() == 0 {
        None
    } else if members.last().name == key {
        Some(members.len() - 1)
    } else {
        find_member(members.drop_last(), key)
    }
}

/// `find_member` gives a place in range that holds the key, and no later place
/// holds it; it gives none only where no member has that name.
pub proof fn lemma_find_member(members: MembersView, key: Seq<char>)
    ensures
        match find_member(members, key) {
            Some(i) => 0 <= i < members.len() && members[i].name == key && forall|j: int|
                i < j < members.len() ==> members[j].name != key,
            None => forall|j: int| 0 <= j < members.len() ==> members[j].name != key,
        },
    decreases members.len(),
{
    if members.len() > 0 && members.last().name != key {
        let rest = members.drop_last();
        lemma_find_member(rest, key);
        assert forall|j: int| 0 <= j < rest.len() implies rest[j] == members[j] by {}
    }
}

impl JsonView {
    /// The value of the member `key` of an object; none for a value that is no
    /// object or has no such member.
    pub open spec fn member(self, key: Seq<char>) -> Option<JsonView> {
        match self {
            JsonView::Object(members) => match find_member(members, key) {
                Some(i) => Some(members[i].value),
                None => None,
            },
            _ => None,
        }
    }

    /// The item at `index` of an array; none for a value that is no array or
    /// is too short.
    pub open spec fn item(self, index: int) -> Option<JsonView> {
        match self {
            JsonView::Array(items) => if 0 <= index < items.len() {
                Some(items[index])
            } else {
                None
            },
            _ => None,
        }
    }

    /// An object with one more member at its end; any other value as it is.
    pub open spec fn with(self, name: Seq<char>, value: JsonView) -> JsonView {
        match self {
            JsonView::Object(members) => JsonView::Object(members.push(MemberView { name, value })),
            _ => self,
        }
    }

    /// The items of an array; none for a value that is no array.
    pub open spec fn items(self) -> Option<Seq<JsonView>> {
        match self {
            JsonView::Array(items) => Some(items),
            _ => None,
        }
    }
}

/// The place of the last member named `key`, if there is one.
pub fn position_of(members: &Vec<Member>, key: &str) -> (r: Option<usize>)
    ensures
        match r {
            Some(i) => i < members@.len() && find_member(members_view(members@), key@) == Some(
                i as int,
            ),
            None => find_member(members_view(members@), key@) is None,
        },
{
    let mut i: usize = members.len();
    assert(members_view(members@).take(i as int) =~= members_view(members@));
    while i > 0
        invariant
            i <= members@.len(),
            find_member(members_view(members@), key@) == find_member(
                members_view(members@).take(i as int),
                key@,
            ),
        decreases i,
    {
        let ghost all = members_view(members@);
        assert(all.take(i as int).last() == members@[i - 1]@);
        assert(all.take(i as int).drop_last() =~= all.take(i - 1));
        if same_text(members[i - 1].name.as_str(), key) {
            return Some(i - 1);
        }
        i -= 1;
    }
    assert(members_view(members@).take(0).len() == 0);
    None
}

impl Json {
    /// The JSON string with the characters of `text`.
    pub fn text(text: &str) -> (r: Json)
        ensures
            r@ == JsonView::String(text@),
    {
        Json::String(String::from_str(text))
    }

    /// The JSON array whose one item is the string `text`.
    pub fn one_text(text: &str) -> (r: Json)
        ensures
            r@ == JsonView::Array(seq![JsonView::String(text@)]),
    {
        let mut items: Vec<Json> = Vec::new();
        items.push(Json::text(text));
        let array = Json::Array(items);
        proof {
            lemma_view_of_lists(array);
            assert(array@->Array_0 =~= seq![JsonView::String(text@)]);
        }
        array
    }

    /// The JSON object with no members.
    pub fn object() -> (r: Json)
        ensures
            r@ == JsonView::Object(Seq::<MemberView>::empty()),
    {
        let object = Json::Object(Vec::new());
        proof {
            lemma_view_of_lists(object);
            assert(object@->Object_0 =~= Seq::<MemberView>::empty());
        }
        object
    }

    /// Adds the member `name` at the end of an object. On a value that is no
    /// object nothing is done.
    pub fn add(&mut self, name: &str, value: Json)
        ensures
            final(self)@ == old(self)@.with(name@, value@),
    {
        let mut taken = Json::Null;
        std::mem::swap(self, &mut taken);
        proof {
            lemma_view_of_lists(taken);
        }
        match taken {
            Json::Object(members) => {
                let mut members = members;
                let ghost before = members_view(members@);
                members.push(Member { name: String::from_str(name), value });
                assert(members_view(members@) =~= before.push(
                    MemberView { name: name@, value: value@ },
                ));
                let object = Json::Object(members);
                proof {
                    lemma_view_of_lists(object);
                }
                *self = object;
            },
            other => {
                *self = other;
            },
        }
    }

    /// The value of the member `key`, where this is an object that has one.
    pub fn get(&self, key: &str) -> (r: Option<&Json>)
        ensures
            match r {
                Some(v) => self@.member(key@) == Some(v@),
                None => self@.member(key@) is None,
            },
    {
        proof {
            lemma_view_of_lists(*self);
        }
        match self {
            Json::Object(members) => match position_of(members, key) {
                Some(i) => Some(&members[i].value),
                None => None,
            },
            _ => None,
        }
    }

    /// The item at `index`, where this is an array that is long enough.
    pub fn at(&self, index: usize) -> (r: Option<&Json>)
        ensures
            match r {
                Some(v) => self@.item(index as int) == Some(v@),
                None => self@.item(index as int) is None,
            },
    {
        match self {
            Json::Array(items) => if index < items.len() {
                Some(&items[index])
            } else {
                None
            },
            _ => None,
        }
    }

    /// The items, where this is an array.
    pub fn as_array(&self) -> (r: Option<&Vec<Json>>)
        ensures
            match r {
                Some(items) => self@.items() == Some(items_view(items@)),
                None => self@.items() is None,
            },
    {
        proof {
            lemma_view_of_lists(*self);
        }
        match self {
            Json::Array(items) => Some(items),
            _ => None,
        }
    }
}

/// `ours` after one member has been merged in: where `ours` has a member of
/// that name, its value is merged with the new one; else the new member is
/// added at the end.
pub open spec fn merged_member(ours: MembersView, theirs: MemberView) -> MembersView
    decreases theirs, 0nat,
{
    match find_member(ours, theirs.name) {
        Some(i) => ours.update(
            i,
            MemberView { name: ours[i].name, value: merged(ours[i].value, theirs.value) },
        ),
        None => ours.push(theirs),
    }
}

/// `ours` after the first `n` members of `theirs` have been merged in, one
/// after the other.
pub open spec fn merged_members(ours: MembersView, theirs: MembersView, n: nat) -> MembersView
    decreases theirs, n,
{
    if n == 0 || n > theirs.len() {
        ours
    } else {
        merged_member(merged_members(ours, theirs, (n - 1) as nat), theirs[n - 1])
    }
}

/// The deep merge of `b` into `a`: where both are objects, the members of `b`
/// are merged into those of `a` one after the other, values under a shared
/// name recursively; in every other case the result is `b`.
pub open spec fn merged(a: JsonView, b: JsonView) -> JsonView
    decreases b, 0nat,
{
    match (a, b) {
        (JsonView::Object(ours), JsonView::Object(theirs)) => JsonView::Object(
            merged_members(ours, theirs, theirs.len()),
        ),
        _ => b,
    }
}

/// Where one of the two values is no object, the merge is the second value.
pub proof fn lemma_merge_overwrites(a: JsonView, b: JsonView)
    requires
        !(a is Object) || !(b is Object),
    ensures
        merged(a, b) == b,
{
}

/// Whether the names of the members differ from each other.
pub open spec fn distinct_names(members: MembersView) -> bool {
    forall|i: int, j: int| 0 <= i < j < members.len() ==> members[i].name != members[j].name
}

/// The value that members give to a name.
pub open spec fn value_of(members: MembersView, key: Seq<char>) -> Option<JsonView> {
    JsonView::Object(members).member(key)
}

/// The value under a name after a merge: what `ours` had where `theirs` has
/// nothing under the name, what `theirs` has where `ours` had nothing, and the
/// merge of the two where both have something.
pub open spec fn merged_value(ours: Option<JsonView>, theirs: Option<JsonView>) -> Option<
    JsonView,
> {
    match (ours, theirs) {
        (_, None) => ours,
        (None, Some(new)) => Some(new),
        (Some(old), Some(new)) => Some(merged(old, new)),
    }
}

/// Replacing a member by one of the same name moves no name.
proof fn lemma_find_after_update(members: MembersView, i: int, member: MemberView, key: Seq<char>)
    requires
        0 <= i < members.len(),
        member.name == members[i].name,
    ensures
        find_member(members.update(i, member), key) == find_member(members, key),
    decreases members.len(),
{
    let updated = members.update(i, member);
    if updated.last().name != key {
        if i < members.len() - 1 {
            assert(updated.drop_last() =~= members.drop_last().update(i, member));
            lemma_find_after_update(members.drop_last(), i, member, key);
        } else {
            assert(updated.drop_last() =~= members.drop_last());
        }
    }
}

/// Merging one member in changes the value under its name and no other.
proof fn lemma_merged_member_value(ours: MembersView, theirs: MemberView, key: Seq<char>)
    ensures
        value_of(merged_member(ours, theirs), key) == if key == theirs.name {
            merged_value(value_of(ours, key), Some(theirs.value))
        } else {
            value_of(ours, key)
        },
{
    lemma_find_member(ours, theirs.name);
    lemma_find_member(ours, key);
    match find_member(ours, theirs.name) {
        Some(i) => {
            let member = MemberView {
                name: ours[i].name,
                value: merged(ours[i].value, theirs.value),
            };
            lemma_find_after_update(ours, i, member, key);
        },
        None => {
            assert(ours.push(theirs).drop_last() =~= ours);
        },
    }
}

/// The value under a name after the first `n` members of `theirs` have been
/// merged in.
proof fn lemma_merged_members_value(ours: MembersView, theirs: MembersView, n: nat, key: Seq<char>)
    requires
        n <= theirs.len(),
        distinct_names(theirs),
    ensures
        value_of(merged_members(ours, theirs, n), key) == merged_value(
            value_of(ours, key),
            value_of(theirs.take(n as int), key),
        ),
    decreases n,
{
    if n == 0 {
        assert(theirs.take(0).len() == 0);
        assert(find_member(theirs.take(0), key) is None);
    } else {
        let before = merged_members(ours, theirs, (n - 1) as nat);
        let next = theirs[n - 1];
        let earlier = theirs.take(n - 1);
        let now = theirs.take(n as int);
        lemma_merged_members_value(ours, theirs, (n - 1) as nat, key);
        lemma_merged_member_value(before, next, key);
        assert(merged_members(ours, theirs, n) == merged_member(before, next));
        assert(now.drop_last() =~= earlier);
        assert(now.last() == next);
        if key == next.name {
            assert(find_member(now, key) == Some(n - 1));
            lemma_find_member(earlier, key);
            assert(find_member(earlier, key) is None) by {
                if find_member(earlier, key) is Some {
                    let j = find_member(earlier, key).unwrap();
                    assert(earlier[j] == theirs[j]);
                }
            }
        } else {
            assert(find_member(now, key) == find_member(earlier, key));
            if find_member(earlier, key) is Some {
                lemma_find_member(earlier, key);
                let j = find_member(earlier, key).unwrap();
                assert(earlier[j] == now[j]);
            }
        }
    }
}

/// The members of a merge of two objects, name by name: under a name that
/// only one of the two has, the merge has what that one has; under a name
/// that both have, it has the merge of the two values. This holds where the
/// names of the second object differ from each other.
pub proof fn lemma_merged_object(ours: MembersView, theirs: MembersView, key: Seq<char>)
    requires
        distinct_names(theirs),
    ensures
        merged(JsonView::Object(ours), JsonView::Object(theirs)).member(key) == merged_value(
            JsonView::Object(ours).member(key),
            JsonView::Object(theirs).member(key),
        ),
{
    lemma_merged_members_value(ours, theirs, theirs.len(), key);
    assert(theirs.take(theirs.len() as int) =~= theirs);
}

/// The tree that a `serde_json::Value` holds, the members of each object in
/// the order in which the value walks them.
pub uninterp spec fn value_tree(value: serde_json::Value) -> JsonView;

/// What `serde_json` reads from a text: the tree that the text stands for, or
/// for a text that it rejects the message of its error.
pub uninterp spec fn parsed_json(text: Seq<char>) -> Result<JsonView, Seq<char>>;

/// The message of a `serde_json::Error`.
pub uninterp spec fn error_message(error: serde_json::Error) -> Seq<char>;

/// The tree held by the `serde_json::Value` that is built from `tree` by
/// collecting the items of each array and the members of each object in order.
pub uninterp spec fn settled(tree: JsonView) -> JsonView;

/// The compact text that `serde_json` writes for a value that holds `tree`.
pub uninterp spec fn json_text(tree: JsonView) -> Seq<char>;

/// The bits of the 64-bit float that `serde_json` gives for a number; none
/// where it gives no float.
pub uninterp spec fn number_bits(number: serde_json::Number) -> Option<u64>;

/// The text that [`Json::to_text`] writes for a tree.
pub open spec fn written(tree: JsonView) -> Seq<char> {
    json_text(settled(tree))
}

/// `serde_json::from_str` at the type `serde_json::Value`: a value holding the
/// tree that the text stands for, or the crate's error.
#[verifier::external_body]
fn parse_value(text: &str) -> (r: Result<serde_json::Value, serde_json::Error>)
    ensures
        match r {
            Ok(value) => parsed_json(text@) == Ok::<JsonView, Seq<char>>(value_tree(value)),
            Err(error) => parsed_json(text@) == Err::<JsonView, Seq<char>>(error_message(error)),
        },
{
    serde_json::from_str::<serde_json::Value>(text)
}

/// The `Display` of `serde_json::Error`: its message.
#[verifier::external_body]
fn json_error_text(error: &serde_json::Error) -> (r: String)
    ensures
        r@ == error_message(*error),
{
    error.to_string()
}

/// Moves a `serde_json::Value` into a [`Json`], variant by variant; the result
/// holds the same tree.
#[verifier::external_body]
fn value_to_json(value: serde_json::Value) -> (r: Json)
    ensures
        r@ == value_tree(value),
{
    match value {
        serde_json::Value::Null => Json::Null,
        serde_json::Value::Bool(b) => Json::Bool(b),
        serde_json::Value::Number(n) => Json::Number(n),
        serde_json::Value::String(s) => Json::String(s),
        serde_json::Value::Array(a) => Json::Array(a.into_iter().map(value_to_json).collect()),
        serde_json::Value::Object(o) => Json::Object(
            o.into_iter().map(|(name, v)| Member { name, value: value_to_json(v) }).collect(),
        ),
    }
}

/// Copies a [`Json`] into a `serde_json::Value`, variant by variant, collecting
/// the members of an object into a `serde_json::Map`; the result holds the
/// settled form of the tree.
#[verifier::external_body]
fn json_to_value(json: &Json) -> (r: serde_json::Value)
    ensures
        value_tree(r) == settled(json@),
{
    match json {
        Json::Null => serde_json::Value::Null,
        Json::Bool(b) => serde_json::Value::Bool(*b),
        Json::Number(n) => serde_json::Value::Number(n.clone()),
        Json::String(s) => serde_json::Value::String(s.clone()),
        Json::Array(a) => serde_json::Value::Array(a.iter().map(json_to_value).collect()),
        Json::Object(o) => serde_json::Value::Object(
            o.iter().map(|m| (m.name.clone(), json_to_value(&m.value))).collect(),
        ),
    }
}

/// The `Display` of `serde_json::Value`: the compact text of the tree that the
/// value holds.
#[verifier::external_body]
fn value_text(value: &serde_json::Value) -> (r: String)
    ensures
        r@ == json_text(value_tree(*value)),
{
    value.to_string()
}

/// `serde_json::Number::as_f64`, the float taken by its bits.
#[verifier::external_body]
fn number_as_bits(number: &serde_json::Number) -> (r: Option<u64>)
    ensures
        r == number_bits(*number),
{
    number.as_f64().map(|x| x.to_bits())
}

/// The members in the opposite order.
fn reversed(members: Vec<Member>) -> (r: Vec<Member>)
    ensures
        r@ == members@.reverse(),
{
    let mut rest = members;
    let mut out: Vec<Member> = Vec::new();
    let ghost all = rest@;
    while rest.len() > 0
        invariant
            rest@.len() + out@.len() == all.len(),
            rest@ == all.take(rest@.len() as int),
            forall|i: int| 0 <= i < out@.len() ==> out@[i] == all[all.len() - 1 - i],
        decreases rest@.len(),
    {
        let last = rest.pop().unwrap();
        assert(rest@ =~= all.take(rest@.len() as int));
        out.push(last);
    }
    assert(out@ =~= all.reverse());
    out
}

/// Merges one member into `ours`.
fn merge_member(ours: Vec<Member>, theirs: Member) -> (r: Vec<Member>)
    ensures
        members_view(r@) == merged_member(members_view(ours@), theirs@),
    decreases theirs, 0nat,
{
    let mut ours = ours;
    let ghost before = members_view(ours@);
    match position_of(&ours, theirs.name.as_str()) {
        Some(i) => {
            proof {
                lemma_find_member(before, theirs.name@);
            }
            let old_member = ours.remove(i);
            let value = merge_values(old_member.value, theirs.value);
            ours.insert(i, Member { name: old_member.name, value });
            assert(members_view(ours@) =~= merged_member(before, theirs@));
        },
        None => {
            ours.push(theirs);
            assert(members_view(ours@) =~= merged_member(before, theirs@));
        },
    }
    ours
}

/// The deep merge of `b` into `a`.
fn merge_values(a: Json, b: Json) -> (r: Json)
    ensures
        r@ == merged(a@, b@),
    decreases b, 1nat,
{
    proof {
        lemma_view_of_lists(a);
        lemma_view_of_lists(b);
    }
    match a {
        Json::Object(ours) => match b {
            Json::Object(theirs) => {
                let ghost start = members_view(ours@);
                let ghost all = members_view(theirs@);
                let ghost their_members = theirs@;
                let mut current = ours;
                let mut rest = reversed(theirs);
                while rest.len() > 0
                    invariant
                        rest@.len() <= their_members.len(),
                        all == members_view(their_members),
                        forall|i: int|
                            0 <= i < rest@.len() ==> rest@[i] == their_members[their_members.len()
                                - 1 - i],
                        members_view(current@) == merged_members(
                            start,
                            all,
                            (their_members.len() - rest@.len()) as nat,
                        ),
                        forall|i: int|
                            0 <= i < their_members.len() ==> decreases_to!(b => their_members[i]),
                    decreases rest@.len(),
                {
                    let ghost done = their_members.len() - rest@.len();
                    let next = rest.pop().unwrap();
                    assert(next == their_members[done]);
                    assert(all[done] == next@);
                    current = merge_member(current, next);
                }
                let merged_object = Json::Object(current);
                proof {
                    lemma_view_of_lists(merged_object);
                }
                merged_object
            },
            other => other,
        },
        _ => b,
    }
}

/// Deep-merges `b` into `a`: where both are objects, each member of `b` is
/// merged into `a`, values under a shared name recursively; in every other
/// case `a` becomes `b`.
pub fn merge(a: &mut Json, b: Json)
    ensures
        final(a)@ == merged(old(a)@, b@),
{
    let mut ours = Json::Null;
    std::mem::swap(a, &mut ours);
    *a = merge_values(ours, b);
}

impl JsonView {
    /// The bits of a number's value as a 64-bit float; none for a value that
    /// is no number.
    pub open spec fn float_bits(self) -> Option<u64> {
        match self {
            JsonView::Number(n) => number_bits(n),
            _ => None,
        }
    }
}

impl Json {
    /// Reads a JSON text. The error is the message of `serde_json`.
    pub fn parse(text: &str) -> (r: Result<Json, String>)
        ensures
            match r {
                Ok(json) => parsed_json(text@) == Ok::<JsonView, Seq<char>>(json@),
                Err(message) => parsed_json(text@) == Err::<JsonView, Seq<char>>(message@),
            },
    {
        match parse_value(text) {
            Ok(value) => Ok(value_to_json(value)),
            Err(error) => Err(json_error_text(&error)),
        }
    }

    /// Writes the value as compact JSON text.
    pub fn to_text(&self) -> (r: String)
        ensures
            r@ == written(self@),
    {
        let value = json_to_value(self);
        value_text(&value)
    }

    /// The value of a number as the bits of a 64-bit float.
    pub fn float_bits(&self) -> (r: Option<u64>)
        ensures
            r == self@.float_bits(),
    {
        match self {
            Json::Number(n) => number_as_bits(n),
            _ => None,
        }
    }
}

} // verus!
