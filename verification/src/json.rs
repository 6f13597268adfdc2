//! A JSON document as the configuration patch logic reads it.
//!
//! Objects keep their members in order; a lookup finds the first member with
//! the given name, as a JSON object has at most one member of each name.
use crate::text::str_eq;
use vstd::prelude::*;

verus! {

/// A JSON number: its value as an unsigned 64-bit integer when it is one, and its
/// decimal text as JSON writes it.
#[derive(Debug)]
pub struct JsonNumber {
    pub unsigned: Option<u64>,
    pub text: String,
}

/// A JSON value.
#[derive(Debug)]
pub enum JsonValue {
    Null,
    Bool(bool),
    Number(JsonNumber),
    Str(String),
    Array(Vec<JsonValue>),
    Object(Vec<(String, JsonValue)>),
}

/// Index of the first member named `key`, or the number of members when there is none.
pub open spec fn member_index(members: Seq<(String, JsonValue)>, key: Seq<char>) -> int
    decreases members.len(),
{
    if members.len() == 0 {
        0
    } else if members[0].0@ == key {
        0
    } else {
        1 + member_index(members.drop_first(), key)
    }
}

pub proof fn lemma_member_index(members: Seq<(String, JsonValue)>, key: Seq<char>, i: int)
    requires
        0 <= i <= members.len(),
        forall|j: int| 0 <= j < i ==> (#[trigger] members[j]).0@ != key,
        i == members.len() || members[i].0@ == key,
    ensures
        member_index(members, key) == i,
    decreases i,
{
    if i > 0 {
        let t = members.drop_first();
        assert forall|j: int| 0 <= j < i - 1 implies (#[trigger] t[j]).0@ != key by {
            assert(t[j] == members[j + 1]);
        }
        if i - 1 < t.len() {
            assert(t[i - 1] == members[i]);
        }
        lemma_member_index(t, key, i - 1);
    }
}

impl JsonValue {
    /// `value.get(key)`: the member named `key` when this is an object that has one.
    pub open spec fn spec_get(self, key: Seq<char>) -> Option<JsonValue> {
        match self {
            JsonValue::Object(m) => {
                let i = member_index(m@, key);
                if i < m@.len() {
                    Some(m@[i].1)
                } else {
                    None
                }
            },
            _ => None,
        }
    }

    pub open spec fn spec_as_u64(self) -> Option<u64> {
        match self {
            JsonValue::Number(n) => n.unsigned,
            _ => None,
        }
    }

    pub open spec fn spec_as_bool(self) -> Option<bool> {
        match self {
            JsonValue::Bool(b) => Some(b),
            _ => None,
        }
    }

    pub open spec fn spec_as_str(self) -> Option<Seq<char>> {
        match self {
            JsonValue::Str(s) => Some(s@),
            _ => None,
        }
    }

    pub open spec fn spec_is_null(self) -> bool {
        self is Null
    }

    pub fn get(&self, key: &str) -> (r: Option<&JsonValue>)
        ensures
            match r {
                Some(v) => self.spec_get(key@) == Some(*v),
                None => self.spec_get(key@) is None,
            },
    {
        match self {
            JsonValue::Object(m) => {
                let n = m.len();
                let mut i: usize = 0;
                #[verifier::loop_isolation(false)]
                while i < n
                    invariant
                        n == m@.len(),
                        i <= n,
                        forall|j: int| 0 <= j < i ==> (#[trigger] m@[j]).0@ != key@,
                    decreases n - i,
                {
                    if str_eq(m[i].0.as_str(), key) {
                        proof {
                            lemma_member_index(m@, key@, i as int);
                        }
                        return Some(&m[i].1);
                    }
                    i = i + 1;
                }
                proof {
                    lemma_member_index(m@, key@, n as int);
                }
                None
            },
            _ => None,
        }
    }

    pub fn as_u64(&self) -> (r: Option<u64>)
        ensures
            r == self.spec_as_u64(),
    {
        match self {
            JsonValue::Number(n) => n.unsigned,
            _ => None,
        }
    }

    pub fn as_bool(&self) -> (r: Option<bool>)
        ensures
            r == self.spec_as_bool(),
    {
        match self {
            JsonValue::Bool(b) => Some(*b),
            _ => None,
        }
    }

    pub fn as_str(&self) -> (r: Option<&str>)
        ensures
            match r {
                Some(s) => self.spec_as_str() == Some(s@),
                None => self.spec_as_str() is None,
            },
    {
        match self {
            JsonValue::Str(s) => Some(s.as_str()),
            _ => None,
        }
    }

    pub fn is_null(&self) -> (r: bool)
        ensures
            r == self.spec_is_null(),
    {
        match self {
            JsonValue::Null => true,
            _ => false,
        }
    }

    /// The number when this is one (`as_f64` reads it).
    pub fn as_number(&self) -> (r: Option<&JsonNumber>)
        ensures
            match r {
                Some(n) => *self == JsonValue::Number(*n),
                None => !(self is Number),
            },
    {
        match self {
            JsonValue::Number(n) => Some(n),
            _ => None,
        }
    }
}

} // verus!
