//! The JSON values that the protocol engine works on.

use vstd::prelude::*;

verus! {

/// A JSON value. Numbers keep the three-way split that the wire format
/// distinguishes: signed integers, unsigned integers, and fractional
/// numbers. A fractional number is carried as its IEEE-754 bit pattern,
/// so that the transport layer can echo it back unchanged while the
/// engine itself never computes with it.
#[derive(Debug, PartialEq, Eq)]
pub enum JsonValue {
    Null,
    Bool(bool),
    Int(i64),
    Uint(u64),
    /// The bit pattern of a 64-bit fractional number.
    Float(u64),
    Str(String),
    Array(Vec<JsonValue>),
    Object(Vec<(String, JsonValue)>),
}

impl JsonValue {
    /// A number in any of its three wire representations.
    pub open spec fn is_number(self) -> bool {
        self is Int || self is Uint || self is Float
    }

    /// A value that can stand as a request id: number, string or null.
    pub open spec fn is_id_shaped(self) -> bool {
        self.is_number() || self is Str || self is Null
    }

    /// The field named `key` of an object, first match wins.
    pub open spec fn spec_field(fields: Seq<(String, JsonValue)>, key: Seq<char>) -> Option<JsonValue>
        decreases fields.len(),
    {
        if fields.len() == 0 {
            None
        } else if fields[0].0@ == key {
            Some(fields[0].1)
        } else {
            Self::spec_field(fields.drop_first(), key)
        }
    }

    /// What looking a key up in this value yields: a field of an object,
    /// nothing on any other shape of value.
    pub open spec fn spec_get(self, key: Seq<char>) -> Option<JsonValue> {
        match self {
            JsonValue::Object(fields) => Self::spec_field(fields@, key),
            _ => None,
        }
    }

    /// Look up a field by name; `None` on anything but an object or
    /// when no field has that name.
    pub fn get<'a>(&'a self, key: &str) -> (r: Option<&'a JsonValue>)
        ensures
            match r {
                Some(v) => self.spec_get(key@) == Some(*v),
                None => self.spec_get(key@) is None,
            },
    {
        match self {
            JsonValue::Object(fields) => {
                let key_string = String::from_str(key);
                let mut i: usize = 0;
                proof {
                    assert(fields@.skip(0) =~= fields@);
                }
                while i < fields.len()
                    invariant
                        i <= fields@.len(),
                        *self == JsonValue::Object(*fields),
                        key_string@ == key@,
                        Self::spec_field(fields@.skip(i as int), key@)
                            == Self::spec_field(fields@, key@),
                    decreases fields@.len() - i,
                {
                    proof {
                        assert(fields@.skip(i as int).drop_first() =~= fields@.skip(i + 1));
                    }
                    if fields[i].0 == key_string {
                        proof {
                            assert(fields@.skip(i as int)[0] == fields@[i as int]);
                            assert(Self::spec_field(fields@.skip(i as int), key@)
                                == Some(fields@[i as int].1));
                        }
                        return Some(&fields[i].1);
                    }
                    i = i + 1;
                }
                proof {
                    assert(fields@.skip(i as int) =~= Seq::<(String, JsonValue)>::empty());
                }
                None
            },
            _ => None,
        }
    }

    /// A copy of a scalar value; aggregate values are not duplicated here.
    pub fn duplicate(&self) -> (r: JsonValue)
        requires
            !(self is Array),
            !(self is Object),
        ensures
            r == *self,
    {
        match self {
            JsonValue::Null => JsonValue::Null,
            JsonValue::Bool(b) => JsonValue::Bool(*b),
            JsonValue::Int(n) => JsonValue::Int(*n),
            JsonValue::Uint(n) => JsonValue::Uint(*n),
            JsonValue::Float(bits) => JsonValue::Float(*bits),
            JsonValue::Str(s) => JsonValue::Str(s.clone()),
            JsonValue::Array(_) => JsonValue::Null,
            JsonValue::Object(_) => JsonValue::Null,
        }
    }
}

} // verus!
