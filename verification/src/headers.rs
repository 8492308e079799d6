//! Which of the headers that the server asks for go out with a relayed request.

use crate::json::{members_view, Json, JsonView};
use crate::outside::{header_name_accepted, header_value_accepted, is_field_name, is_field_value};
use crate::text::{matches_ignoring_case, same_ignoring_case};
use vstd::prelude::*;
use vstd::utf8::is_ascii_chars;

verus! {

/// One header of a request or of a response.
#[derive(Debug, PartialEq, Eq)]
pub struct Header {
    pub name: String,
    pub value: String,
}

impl DeepView for Header {
    type V = (Seq<char>, Seq<char>);

    open spec fn deep_view(&self) -> (Seq<char>, Seq<char>) {
        (self.name@, self.value@)
    }
}

impl View for Header {
    type V = (Seq<char>, Seq<char>);

    open spec fn view(&self) -> (Seq<char>, Seq<char>) {
        self.deep_view()
    }
}

/// The header names that are never relayed, in lower case.
pub open spec fn denylist() -> Seq<Seq<char>> {
    seq![
        "origin"@,
        "referer"@,
        "access-control-request-headers"@,
        "access-control-request-method"@,
        "access-control-allow-origin"@,
        "cookie"@,
        "date"@,
        "dnt"@,
        "trailer"@,
        "upgrade"@,
    ]
}

/// A name that, in some mix of upper and lower case, is on the denylist.
pub open spec fn is_denied(name: Seq<char>) -> bool {
    exists|k: int| 0 <= k < denylist().len() && same_ignoring_case(name, #[trigger] denylist()[k])
}

/// A member that is relayed: its name is not denied and is a header name, and
/// its value is a string that can be a header value.
pub open spec fn is_relayed(m: (Seq<char>, JsonView)) -> bool {
    &&& !is_denied(m.0)
    &&& m.1 is Text
    &&& is_field_name(m.0)
    &&& is_field_value(m.1->Text_0)
}

/// The headers that go out, for the members of the `headers` object in the
/// order in which they stand there: the relayed ones, each with its name and
/// its text as they came.
pub open spec fn relayed_headers(members: Seq<(Seq<char>, JsonView)>) -> Seq<
    (Seq<char>, Seq<char>),
>
    decreases members.len(),
{
    if members.len() == 0 {
        seq![]
    } else {
        let before = relayed_headers(members.drop_last());
        let m = members.last();
        if is_relayed(m) {
            before.push((m.0, m.1->Text_0))
        } else {
            before
        }
    }
}

fn denied_name(k: usize) -> (name: &'static str)
    requires
        k < 10,
    ensures
        denylist().len() == 10,
        name@ == denylist()[k as int],
        is_ascii_chars(name@),
{
    proof {
        reveal_strlit("origin");
        reveal_strlit("referer");
        reveal_strlit("access-control-request-headers");
        reveal_strlit("access-control-request-method");
        reveal_strlit("access-control-allow-origin");
        reveal_strlit("cookie");
        reveal_strlit("date");
        reveal_strlit("dnt");
        reveal_strlit("trailer");
        reveal_strlit("upgrade");
    }
    if k == 0 {
        "origin"
    } else if k == 1 {
        "referer"
    } else if k == 2 {
        "access-control-request-headers"
    } else if k == 3 {
        "access-control-request-method"
    } else if k == 4 {
        "access-control-allow-origin"
    } else if k == 5 {
        "cookie"
    } else if k == 6 {
        "date"
    } else if k == 7 {
        "dnt"
    } else if k == 8 {
        "trailer"
    } else {
        "upgrade"
    }
}

/// Whether a header name is on the denylist, whatever the case of its letters.
pub fn is_denied_name(name: &str) -> (denied: bool)
    ensures
        denied == is_denied(name@),
{
    let mut k: usize = 0;
    while k < 10
        invariant
            k <= 10,
            denylist().len() == 10,
            forall|j: int| 0 <= j < k ==> !same_ignoring_case(name@, #[trigger] denylist()[j]),
        decreases 10 - k,
    {
        let entry = denied_name(k);
        if matches_ignoring_case(name, entry) {
            return true;
        }
        k += 1;
    }
    false
}

/// The headers to send, out of the members of the `headers` object.
pub fn relay_headers(members: &Vec<(String, Json)>) -> (out: Vec<Header>)
    ensures
        out.deep_view() == relayed_headers(members_view(members@)),
{
    let ghost all = members_view(members@);
    let mut out: Vec<Header> = Vec::new();
    let mut i: usize = 0;
    while i < members.len()
        invariant
            i <= members.len(),
            all == members_view(members@),
            out.deep_view() == relayed_headers(all.take(i as int)),
        decreases members.len() - i,
    {
        let name = &members[i].0;
        assert(all.take(i + 1).drop_last() =~= all.take(i as int));
        if !is_denied_name(name.as_str()) {
            if let Json::Text(text) = &members[i].1 {
                if header_name_accepted(name.as_str()) && header_value_accepted(text.as_str()) {
                    out.push(Header { name: name.clone(), value: text.clone() });
                }
            }
        }
        i += 1;
    }
    assert(all.take(members.len() as int) =~= all);
    out
}

/// No header with a denied name goes out: whatever goes out has a name that
/// is not denied.
pub proof fn lemma_relayed_is_not_denied(members: Seq<(Seq<char>, JsonView)>, j: int)
    requires
        0 <= j < relayed_headers(members).len(),
    ensures
        !is_denied(relayed_headers(members)[j].0),
    decreases members.len(),
{
    if members.len() > 0 {
        let before = relayed_headers(members.drop_last());
        if j < before.len() {
            lemma_relayed_is_not_denied(members.drop_last(), j);
        }
    }
}

/// A name on the denylist, in whatever case it is written, is the name of no
/// header that goes out, in whatever case that one is written.
pub proof fn lemma_denied_never_relayed(members: Seq<(Seq<char>, JsonView)>, name: Seq<char>)
    requires
        is_denied(name),
    ensures
        forall|j: int|
            0 <= j < relayed_headers(members).len() ==> !same_ignoring_case(
                (#[trigger] relayed_headers(members)[j]).0,
                name,
            ),
{
    assert forall|j: int| 0 <= j < relayed_headers(members).len() implies !same_ignoring_case(
        (#[trigger] relayed_headers(members)[j]).0,
        name,
    ) by {
        lemma_relayed_is_not_denied(members, j);
        if same_ignoring_case(relayed_headers(members)[j].0, name) {
            lemma_denied_in_any_case(relayed_headers(members)[j].0, name);
        }
    }
}

/// Every header that goes out is one that was asked for, with the name and the
/// text that it came with, and it is a relayed one.
pub proof fn lemma_relayed_came_in(members: Seq<(Seq<char>, JsonView)>, j: int)
    requires
        0 <= j < relayed_headers(members).len(),
    ensures
        exists|i: int|
            0 <= i < members.len() && is_relayed(#[trigger] members[i]) && relayed_headers(
                members,
            )[j] == (members[i].0, members[i].1->Text_0),
    decreases members.len(),
{
    if members.len() > 0 {
        let rest = members.drop_last();
        let before = relayed_headers(rest);
        if j < before.len() {
            lemma_relayed_came_in(rest, j);
            let i = choose|i: int|
                0 <= i < rest.len() && is_relayed(#[trigger] rest[i]) && before[j] == (
                    rest[i].0,
                    rest[i].1->Text_0,
                );
            assert(members[i] == rest[i]);
        } else {
            assert(is_relayed(members[members.len() - 1]));
        }
    }
}

/// A header whose name is not denied and is a header name, and whose value is a
/// string that can be a header value, goes out with its name and text unchanged.
pub proof fn lemma_others_relayed_unchanged(members: Seq<(Seq<char>, JsonView)>, i: int)
    requires
        0 <= i < members.len(),
        is_relayed(members[i]),
    ensures
        relayed_headers(members).contains((members[i].0, members[i].1->Text_0)),
    decreases members.len(),
{
    let rest = members.drop_last();
    let before = relayed_headers(rest);
    let wanted = (members[i].0, members[i].1->Text_0);
    if i == members.len() - 1 {
        let out = relayed_headers(members);
        assert(out[out.len() - 1] == wanted);
    } else {
        lemma_others_relayed_unchanged(rest, i);
        let j = choose|j: int| 0 <= j < before.len() && before[j] == wanted;
        assert(relayed_headers(members)[j] == wanted);
    }
}

/// Whether a name is denied does not depend on the case of its letters.
pub proof fn lemma_denied_in_any_case(a: Seq<char>, b: Seq<char>)
    requires
        same_ignoring_case(a, b),
    ensures
        is_denied(a) == is_denied(b),
{
}

/// Each name on the denylist is denied, and so is its every spelling.
pub proof fn lemma_denylist_is_denied(k: int, name: Seq<char>)
    requires
        0 <= k < denylist().len(),
        same_ignoring_case(name, denylist()[k]),
    ensures
        is_denied(name),
        is_denied(denylist()[k]),
{
}

} // verus!
