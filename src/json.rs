//! JSON documents as plain values, and ordered object members.
use vstd::prelude::*;

verus! {

/// A JSON document. Object members keep the order in which they were written.
#[derive(Debug, PartialEq)]
pub enum Json {
    Null,
    Bool(bool),
    /// A number, kept in its textual form.
    Number(String),
    Str(String),
    Array(Vec<Json>),
    Object(Vec<(String, Json)>),
}

/// `j` is the string `t`.
pub open spec fn is_text(j: Json, t: Seq<char>) -> bool {
    match j {
        Json::Str(s) => s@ == t,
        _ => false,
    }
}

/// `i` is the first position of `members` whose key is `key`.
pub open spec fn key_at(members: Seq<(String, Json)>, key: Seq<char>, i: int) -> bool {
    &&& 0 <= i < members.len()
    &&& members[i].0@ == key
    &&& forall|j: int| 0 <= j < i ==> members[j].0@ != key
}

/// Some member of `members` has key `key`.
pub open spec fn has_key(members: Seq<(String, Json)>, key: Seq<char>) -> bool {
    exists|i: int| 0 <= i < members.len() && members[i].0@ == key
}

/// The position of the first member with key `key`, if any.
pub open spec fn find_key(members: Seq<(String, Json)>, key: Seq<char>) -> Option<int> {
    if has_key(members, key) {
        Some(choose|i: int| key_at(members, key, i))
    } else {
        None
    }
}

/// The value of the first member with key `key`, if any.
pub open spec fn member(members: Seq<(String, Json)>, key: Seq<char>) -> Option<Json> {
    match find_key(members, key) {
        Some(i) => Some(members[i].1),
        None => None,
    }
}

/// `after` is `before` with the member `key` set to `v`: an existing member keeps
/// its place and key, a new one is appended.
pub open spec fn put_member(
    before: Seq<(String, Json)>,
    key: Seq<char>,
    v: Json,
    after: Seq<(String, Json)>,
) -> bool {
    match find_key(before, key) {
        Some(i) => after == before.update(i, (before[i].0, v)),
        None => {
            &&& after.len() == before.len() + 1
            &&& after.drop_last() == before
            &&& after.last().0@ == key
            &&& after.last().1 == v
        },
    }
}

/// `members` without its first member with key `key`; unchanged if there is none.
pub open spec fn drop_member(members: Seq<(String, Json)>, key: Seq<char>) -> Seq<(String, Json)> {
    match find_key(members, key) {
        Some(i) => members.remove(i),
        None => members,
    }
}

/// There is only one first position of a key.
pub proof fn lemma_key_at_unique(members: Seq<(String, Json)>, key: Seq<char>, i: int, j: int)
    requires
        key_at(members, key, i),
        key_at(members, key, j),
    ensures
        i == j,
{
}

/// A key that occurs has a first position.
pub proof fn lemma_first_position(members: Seq<(String, Json)>, key: Seq<char>, i: int)
    requires
        0 <= i < members.len(),
        members[i].0@ == key,
    ensures
        exists|j: int| key_at(members, key, j),
    decreases i,
{
    if forall|j: int| 0 <= j < i ==> members[j].0@ != key {
        assert(key_at(members, key, i));
    } else {
        let j = choose|j: int| 0 <= j < i && members[j].0@ == key;
        lemma_first_position(members, key, j);
    }
}

/// `find_key` gives the first position of the key.
pub proof fn lemma_find_key(members: Seq<(String, Json)>, key: Seq<char>)
    ensures
        match find_key(members, key) {
            Some(i) => key_at(members, key, i),
            None => forall|j: int| 0 <= j < members.len() ==> members[j].0@ != key,
        },
{
    if has_key(members, key) {
        let i = choose|i: int| 0 <= i < members.len() && members[i].0@ == key;
        lemma_first_position(members, key, i);
    }
}

/// The member at a first position is the one that `member` finds.
pub proof fn lemma_member_at(members: Seq<(String, Json)>, key: Seq<char>, i: int)
    requires
        key_at(members, key, i),
    ensures
        find_key(members, key) == Some(i),
        member(members, key) == Some(members[i].1),
{
    lemma_find_key(members, key);
    let k = find_key(members, key)->0;
    lemma_key_at_unique(members, key, i, k);
}

/// Setting one key leaves every other key's value as it was, and the key itself
/// then holds the new value.
pub proof fn lemma_put_member(
    before: Seq<(String, Json)>,
    key: Seq<char>,
    v: Json,
    after: Seq<(String, Json)>,
    other: Seq<char>,
)
    requires
        put_member(before, key, v, after),
    ensures
        member(after, key) == Some(v),
        other != key ==> member(after, other) == member(before, other),
{
    lemma_find_key(before, key);
    lemma_find_key(before, other);
    match find_key(before, key) {
        Some(i) => {
            assert(key_at(after, key, i));
            lemma_member_at(after, key, i);
            if other != key {
                match find_key(before, other) {
                    Some(k) => {
                        assert(key_at(after, other, k));
                        lemma_member_at(after, other, k);
                    },
                    None => {
                        lemma_find_key(after, other);
                    },
                }
            }
        },
        None => {
            let n = before.len() as int;
            assert forall|j: int| 0 <= j < n implies after[j] == before[j] by {
                assert(after.drop_last()[j] == after[j]);
            }
            assert(key_at(after, key, n));
            lemma_member_at(after, key, n);
            if other != key {
                match find_key(before, other) {
                    Some(k) => {
                        assert(key_at(after, other, k));
                        lemma_member_at(after, other, k);
                    },
                    None => {
                        lemma_find_key(after, other);
                    },
                }
            }
        },
    }
}

/// Whether `a` reads `b`.
pub fn text_eq(a: &String, b: &str) -> (r: bool)
    ensures
        r == (a@ == b@),
{
    let t = String::from_str(b);
    *a == t
}

/// The position of the first member with key `key`.
pub fn find_member(members: &Vec<(String, Json)>, key: &str) -> (r: Option<usize>)
    ensures
        r matches Some(i) ==> i < members@.len() && find_key(members@, key@) == Some(i as int),
        r is None ==> find_key(members@, key@) is None,
{
    let mut i: usize = 0;
    while i < members.len()
        invariant
            i <= members@.len(),
            forall|j: int| 0 <= j < i ==> members@[j].0@ != key@,
        decreases members@.len() - i,
    {
        if text_eq(&members[i].0, key) {
            proof {
                lemma_member_at(members@, key@, i as int);
            }
            return Some(i);
        }
        i = i + 1;
    }
    proof {
        lemma_find_key(members@, key@);
    }
    None
}

/// Sets the member `key` to `v`, in place if it exists, appended otherwise.
pub fn set_member(members: &mut Vec<(String, Json)>, key: &str, v: Json)
    ensures
        put_member(old(members)@, key@, v, final(members)@),
{
    match find_member(members, key) {
        Some(i) => {
            let (k, _previous) = members.remove(i);
            members.insert(i, (k, v));
            assert(final(members)@ =~= old(members)@.update(i as int, (old(members)@[i as int].0, v)));
        },
        None => {
            members.push((String::from_str(key), v));
            assert(final(members)@.drop_last() =~= old(members)@);
        },
    }
}

/// Removes the first member with key `key`, if there is one.
pub fn remove_member(members: &mut Vec<(String, Json)>, key: &str)
    ensures
        final(members)@ == drop_member(old(members)@, key@),
{
    match find_member(members, key) {
        Some(i) => {
            members.remove(i);
        },
        None => {},
    }
}

} // verus!
