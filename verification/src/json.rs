//! JSON values, as far as the node reads and writes them.

use crate::text::str_eq;
use vstd::prelude::*;

verus! {

/// A JSON value: a string, a non-negative integer, an object with its members
/// in their order, or anything else (`null`, a boolean, an array, any other
/// number), which the node neither reads nor writes.
#[derive(Debug, PartialEq, Eq)]
pub enum Json {
    Text(String),
    Number(u64),
    Object(Vec<(String, Json)>),
    Other,
}

pub enum JsonView {
    Text(Seq<char>),
    Number(u64),
    Object(Seq<(Seq<char>, JsonView)>),
    Other,
}

impl Json {
    /// The value as the contracts see it.
    pub open spec fn model(&self) -> JsonView
        decreases self,
    {
        match self {
            Json::Text(t) => JsonView::Text(t@),
            Json::Number(n) => JsonView::Number(*n),
            Json::Object(members) => JsonView::Object(
                Seq::new(
                    members@.len(),
                    |i: int|
                        if 0 <= i < members@.len() {
                            (members@[i].0@, members@[i].1.model())
                        } else {
                            (Seq::empty(), JsonView::Other)
                        },
                ),
            ),
            Json::Other => JsonView::Other,
        }
    }
}

impl View for Json {
    type V = JsonView;

    open spec fn view(&self) -> JsonView {
        self.model()
    }
}

/// The members of an object as the contracts see them: the name and the value
/// of each, in their order.
pub open spec fn members_view(members: Seq<(String, Json)>) -> Seq<(Seq<char>, JsonView)> {
    Seq::new(members.len(), |i: int| (members[i].0@, members[i].1@))
}

/// An object is seen as the object of its members.
pub proof fn lemma_object_view(members: Vec<(String, Json)>)
    ensures
        Json::Object(members)@ == JsonView::Object(members_view(members@)),
{
    assert(Json::Object(members).model()->Object_0 =~= members_view(members@));
}

/// The value of the first member called `key`, if there is one.
pub open spec fn find(members: Seq<(Seq<char>, JsonView)>, key: Seq<char>) -> Option<JsonView>
    decreases members.len(),
{
    if members.len() == 0 {
        None
    } else if members[0].0 == key {
        Some(members[0].1)
    } else {
        find(members.drop_first(), key)
    }
}

/// The text of the first member called `key`, if there is one and it is a string.
pub open spec fn text_at(members: Seq<(Seq<char>, JsonView)>, key: Seq<char>) -> Option<
    Seq<char>,
> {
    match find(members, key) {
        Some(JsonView::Text(t)) => Some(t),
        _ => None,
    }
}

/// The members of the first member called `key`, if there is one and it is an object.
pub open spec fn members_at(members: Seq<(Seq<char>, JsonView)>, key: Seq<char>) -> Option<
    Seq<(Seq<char>, JsonView)>,
> {
    match find(members, key) {
        Some(JsonView::Object(m)) => Some(m),
        _ => None,
    }
}

/// Members among which no name stands twice, as in an object that was read
/// from JSON text.
pub open spec fn distinct_names(members: Seq<(Seq<char>, JsonView)>) -> bool {
    forall|i: int, j: int|
        0 <= i < j < members.len() ==> (#[trigger] members[i]).0 != (#[trigger] members[j]).0
}

/// What is found under a name is the value of a member of that name, and
/// nothing is found only where no member has the name.
pub proof fn lemma_find_is_a_member(members: Seq<(Seq<char>, JsonView)>, key: Seq<char>)
    ensures
        match find(members, key) {
            Some(v) => exists|i: int|
                0 <= i < members.len() && (#[trigger] members[i]) == (key, v),
            None => forall|i: int| 0 <= i < members.len() ==> (#[trigger] members[i]).0 != key,
        },
    decreases members.len(),
{
    if members.len() > 0 && members[0].0 != key {
        let rest = members.drop_first();
        lemma_find_is_a_member(rest, key);
        match find(rest, key) {
            Some(v) => {
                let i = choose|i: int| 0 <= i < rest.len() && (#[trigger] rest[i]) == (key, v);
                assert(members[i + 1] == (key, v));
            },
            None => {
                assert forall|i: int| 0 <= i < members.len() implies (#[trigger] members[i]).0
                    != key by {
                    if i > 0 {
                        assert(rest[i - 1] == members[i]);
                    }
                }
            },
        }
    } else if members.len() > 0 {
        assert(members[0] == (key, members[0].1));
    }
}

/// Where no name stands twice, the members are a mapping: what is found under
/// the name of a member is the value of that member, wherever it stands.
pub proof fn lemma_find_the_only_member(members: Seq<(Seq<char>, JsonView)>, i: int)
    requires
        distinct_names(members),
        0 <= i < members.len(),
    ensures
        find(members, members[i].0) == Some(members[i].1),
    decreases members.len(),
{
    if i > 0 {
        let rest = members.drop_first();
        assert(members[0].0 != members[i].0);
        assert forall|a: int, b: int| 0 <= a < b < rest.len() implies (#[trigger] rest[a]).0 != (
        #[trigger] rest[b]).0 by {
            assert(rest[a] == members[a + 1]);
            assert(rest[b] == members[b + 1]);
        }
        assert(rest[i - 1] == members[i]);
        lemma_find_the_only_member(rest, i - 1);
    }
}

/// The place of the first member called `key`, if there is one.
pub fn position(members: &Vec<(String, Json)>, key: &str) -> (place: Option<usize>)
    ensures
        match place {
            Some(i) => {
                &&& i < members.len()
                &&& members[i as int].0@ == key@
                &&& forall|j: int| 0 <= j < i ==> (#[trigger] members[j]).0@ != key@
                &&& find(members_view(members@), key@) == Some(members[i as int].1@)
            },
            None => find(members_view(members@), key@) is None,
        },
{
    let ghost all = members_view(members@);
    let mut i: usize = 0;
    assert(all.skip(0) =~= all);
    while i < members.len()
        invariant
            i <= members.len(),
            all == members_view(members@),
            find(all, key@) == find(all.skip(i as int), key@),
            forall|j: int| 0 <= j < i ==> (#[trigger] members[j]).0@ != key@,
        decreases members.len() - i,
    {
        assert(all.skip(i as int).drop_first() =~= all.skip(i + 1));
        if str_eq(members[i].0.as_str(), key) {
            return Some(i);
        }
        i += 1;
    }
    None
}

/// Looks a member up by its name.
pub fn lookup<'a>(members: &'a Vec<(String, Json)>, key: &str) -> (found: Option<&'a Json>)
    ensures
        match found {
            Some(v) => find(members_view(members@), key@) == Some(v@),
            None => find(members_view(members@), key@) is None,
        },
{
    match position(members, key) {
        Some(i) => Some(&members[i].1),
        None => None,
    }
}

/// The text of a member, where the member is there and is a string.
pub fn lookup_text<'a>(members: &'a Vec<(String, Json)>, key: &str) -> (found: Option<&'a String>)
    ensures
        match found {
            Some(t) => text_at(members_view(members@), key@) == Some(t@),
            None => text_at(members_view(members@), key@) is None,
        },
{
    match lookup(members, key) {
        Some(Json::Text(t)) => Some(t),
        _ => None,
    }
}

} // verus!
