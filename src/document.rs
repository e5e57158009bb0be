use vstd::prelude::*;

verus! {

/// A floating-point JSON number, held as what the coercions read of it.
pub struct FloatNumber {
    /// The value truncated toward zero, saturated at the bounds of `i64`.
    pub truncated: i64,
    /// Whether the value differs from zero.
    pub nonzero: bool,
    /// The shortest decimal text that reads back as the value.
    pub text: String,
}

/// A JSON number, kept in the same three kinds as the parser reports it;
/// every number is of exactly one of them.
pub enum Number {
    /// A non-negative integer that fits in 64 unsigned bits.
    PosInt(u64),
    /// A negative integer that fits in 64 signed bits.
    NegInt(i64),
    /// A number with a fraction or an exponent.
    Float(FloatNumber),
}

/// A node of a parsed JSON document.
pub enum Json {
    Null,
    Bool(bool),
    Number(Number),
    String(String),
    Array(Vec<Json>),
    /// The members of an object in order; a lookup by name finds the first
    /// member of that name.
    Object(Vec<(String, Json)>),
}

/// What selects a child of a node: a member name of an object or a
/// position in an array.
pub enum Key {
    Name(String),
    Index(usize),
}

impl Key {
    /// A key that selects the member named `name`.
    pub fn name(name: &str) -> (r: Key)
        ensures
            r is Name && r->Name_0@ == name@,
    {
        Key::Name(name.to_owned())
    }

    /// A key that selects the array element at `index`.
    pub fn index(index: usize) -> (r: Key)
        ensures
            r == Key::Index(index),
    {
        Key::Index(index)
    }
}

/// The position of the first member of `members` named `name`, if any.
pub open spec fn first_member(members: Seq<(String, Json)>, name: Seq<char>) -> Option<int> {
    if exists|i: int| 0 <= i < members.len() && #[trigger] members[i].0@ == name {
        Some(choose|i: int|
            0 <= i < members.len() && members[i].0@ == name && forall|j: int|
                0 <= j < i ==> #[trigger] members[j].0@ != name)
    } else {
        None
    }
}

/// The child of `node` that `key` selects.
pub open spec fn child(node: Json, key: Key) -> Option<Json> {
    match node {
        Json::Object(members) => match key {
            Key::Name(name) => match first_member(members@, name@) {
                Some(i) => Some(members@[i].1),
                None => None,
            },
            Key::Index(_) => None,
        },
        Json::Array(items) => match key {
            Key::Index(i) => if i < items.len() {
                Some(items@[i as int])
            } else {
                None
            },
            Key::Name(_) => None,
        },
        _ => None,
    }
}

impl Json {
    /// The child that `key` selects: a member of an object by name, an
    /// element of an array by position; nothing in any other case.
    pub fn get(&self, key: &Key) -> (r: Option<&Json>)
        ensures
            r is Some == child(*self, *key) is Some,
            r is Some ==> *r->Some_0 == child(*self, *key)->Some_0,
    {
        match (self, key) {
            (Json::Object(members), Key::Name(name)) => {
                let mut i: usize = 0;
                while i < members.len()
                    invariant
                        *self == Json::Object(*members),
                        *key == Key::Name(*name),
                        0 <= i <= members.len(),
                        forall|j: int| 0 <= j < i ==> #[trigger] members@[j].0@ != name@,
                    decreases members.len() - i,
                {
                    if members[i].0 == *name {
                        proof {
                            let ii = i as int;
                            assert(members@[ii].0@ == name@);
                            assert(0 <= ii < members@.len() && members@[ii].0@ == name@
                                && forall|j: int| 0 <= j < ii ==> #[trigger] members@[j].0@ != name@);
                            let w = first_member(members@, name@)->Some_0;
                            assert(w == ii) by {
                                if w < ii {
                                    assert(members@[w].0@ != name@);
                                }
                            }
                        }
                        return Some(&members[i].1);
                    }
                    i += 1;
                }
                None
            },
            (Json::Array(items), Key::Index(i)) => {
                if *i < items.len() {
                    Some(&items[*i])
                } else {
                    None
                }
            },
            _ => None,
        }
    }
}

} // verus!
