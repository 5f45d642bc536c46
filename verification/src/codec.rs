//! Writing and reading the JSON values that envelopes are made of.
use crate::json::{
    distinct_keys, json_number, json_object, json_shape, json_text, keyed, members_of,
    value_as_str, value_as_u64, value_from_entries, value_from_number, value_from_text,
    value_is_null, JsonShape,
};
use vstd::prelude::*;
use vstd::string::*;

verus! {

/// The number that a JSON value is, if it is an integer that fits 32 bits.
pub open spec fn number_of(value: serde_json::Value) -> Option<u32> {
    match json_shape(value) {
        JsonShape::Number(Some(n)) => if n <= u32::MAX {
            Some(n as u32)
        } else {
            None
        },
        _ => None,
    }
}

/// The text that a JSON value is, if it is a string.
pub open spec fn text_of(value: serde_json::Value) -> Option<Seq<char>> {
    match json_shape(value) {
        JsonShape::Text(text) => Some(text),
        _ => None,
    }
}

/// What a member that may be missing or `null` holds as a number: `Some(None)`
/// where there is none, `None` where the member is something else.
pub open spec fn optional_number_of(member: Option<serde_json::Value>) -> Option<Option<u32>> {
    match member {
        None => Some(None),
        Some(value) => if json_shape(value) is Null {
            Some(None)
        } else {
            match number_of(value) {
                Some(n) => Some(Some(n)),
                None => None,
            }
        },
    }
}

/// What a member that may be missing or `null` holds as a text: `Some(None)`
/// where there is none, `None` where the member is something else.
pub open spec fn optional_text_of(member: Option<serde_json::Value>) -> Option<
    Option<Seq<char>>,
> {
    match member {
        None => Some(None),
        Some(value) => if json_shape(value) is Null {
            Some(None)
        } else {
            match text_of(value) {
                Some(text) => Some(Some(text)),
                None => None,
            }
        },
    }
}

/// Whether a JSON value is a number, and which.
pub open spec fn is_number(value: serde_json::Value, n: u32) -> bool {
    json_shape(value) == JsonShape::Number(Some(n as u64))
}

/// Whether a JSON value is a string, and which.
pub open spec fn is_text(value: serde_json::Value, text: Seq<char>) -> bool {
    json_shape(value) == JsonShape::Text(text)
}

/// Whether a JSON value is a given number, or `null` where there is none.
pub open spec fn is_optional_number(value: serde_json::Value, n: Option<u32>) -> bool {
    match n {
        Some(n) => is_number(value, n),
        None => json_shape(value) is Null,
    }
}

/// Whether a JSON value is a given text, or `null` where there is none.
pub open spec fn is_optional_text(value: serde_json::Value, text: Option<Seq<char>>) -> bool {
    match text {
        Some(text) => is_text(value, text),
        None => json_shape(value) is Null,
    }
}

/// Reads a number of 32 bits.
pub fn read_number(value: &serde_json::Value) -> (res: Option<u32>)
    ensures
        res == number_of(*value),
{
    match value_as_u64(value) {
        Some(n) => if n <= 0xffff_ffff {
            Some(n as u32)
        } else {
            None
        },
        None => None,
    }
}

/// Reads a text.
pub fn read_text(value: &serde_json::Value) -> (res: Option<String>)
    ensures
        match res {
            Some(text) => text_of(*value) == Some(text@),
            None => text_of(*value) is None,
        },
{
    match value_as_str(value) {
        Some(text) => Some(String::from_str(text)),
        None => None,
    }
}

/// Reads a member that may be missing or `null` as a number.
pub fn read_optional_number(member: Option<&serde_json::Value>) -> (res: Option<Option<u32>>)
    ensures
        res == optional_number_of(
            match member {
                Some(value) => Some(*value),
                None => None,
            },
        ),
{
    match member {
        None => Some(None),
        Some(value) => if value_is_null(value) {
            Some(None)
        } else {
            match read_number(value) {
                Some(n) => Some(Some(n)),
                None => None,
            }
        },
    }
}

/// Reads a member that may be missing or `null` as a text.
pub fn read_optional_text(member: Option<&serde_json::Value>) -> (res: Option<Option<String>>)
    ensures
        match res {
            Some(Some(text)) => optional_text_of(
                match member {
                    Some(value) => Some(*value),
                    None => None,
                },
            ) == Some(Some(text@)),
            Some(None) => optional_text_of(
                match member {
                    Some(value) => Some(*value),
                    None => None,
                },
            ) == Some(None::<Seq<char>>),
            None => optional_text_of(
                match member {
                    Some(value) => Some(*value),
                    None => None,
                },
            ) is None,
        },
{
    match member {
        None => Some(None),
        Some(value) => if value_is_null(value) {
            Some(None)
        } else {
            match read_text(value) {
                Some(text) => Some(Some(text)),
                None => None,
            }
        },
    }
}

/// The JSON value that a number of 32 bits is written as, `null` where
/// there is none.
pub open spec fn number_form(n: Option<u32>) -> serde_json::Value {
    json_number(
        match n {
            Some(n) => Some(n as u64),
            None => None,
        },
    )
}

/// The JSON value that a text is written as, `null` where there is none.
pub open spec fn text_form(text: Option<Seq<char>>) -> serde_json::Value {
    json_text(text)
}

/// Writes a number.
pub fn write_number(n: u32) -> (value: serde_json::Value)
    ensures
        value == number_form(Some(n)),
        is_number(value, n),
{
    value_from_number(Some(n as u64))
}

/// Writes a text.
pub fn write_text(text: &str) -> (value: serde_json::Value)
    ensures
        value == text_form(Some(text@)),
        is_text(value, text@),
{
    value_from_text(Some(String::from_str(text)))
}

/// Writes a number, or `null` where there is none.
pub fn write_optional_number(n: Option<u32>) -> (value: serde_json::Value)
    ensures
        value == number_form(n),
        is_optional_number(value, n),
{
    match n {
        Some(n) => value_from_number(Some(n as u64)),
        None => value_from_number(None),
    }
}

/// The text of a text that may be missing.
pub open spec fn optional_text(text: Option<String>) -> Option<Seq<char>> {
    match text {
        Some(text) => Some(text@),
        None => None,
    }
}

/// Writes a text, or `null` where there is none.
pub fn write_optional_text(text: &Option<String>) -> (value: serde_json::Value)
    ensures
        value == text_form(optional_text(*text)),
        is_optional_text(value, optional_text(*text)),
{
    match text {
        Some(text) => value_from_text(Some(text.clone())),
        None => value_from_text(None),
    }
}

/// Collects the members of a JSON object, each under a key of its own.
pub struct ObjectWriter {
    entries: Vec<(String, serde_json::Value)>,
}

impl View for ObjectWriter {
    type V = Map<Seq<char>, serde_json::Value>;

    /// The members collected so far.
    closed spec fn view(&self) -> Map<Seq<char>, serde_json::Value> {
        members_of(keyed(self.entries@))
    }
}

/// Adding an entry to a list adds it to the map of the list.
proof fn lemma_members_push(
    entries: Seq<(Seq<char>, serde_json::Value)>,
    entry: (Seq<char>, serde_json::Value),
)
    ensures
        members_of(entries.push(entry)) == members_of(entries).insert(entry.0, entry.1),
{
    assert(entries.push(entry).drop_last() =~= entries);
}

impl ObjectWriter {
    #[verifier::type_invariant]
    spec fn keys_are_members(self) -> bool {
        &&& distinct_keys(keyed(self.entries@))
        &&& forall|i: int|
            0 <= i < self.entries@.len() ==> members_of(keyed(self.entries@)).contains_key(
                (#[trigger] keyed(self.entries@)[i]).0,
            )
    }

    /// The members collected so far, in the order in which they were added.
    pub closed spec fn entries(&self) -> Seq<(Seq<char>, serde_json::Value)> {
        keyed(self.entries@)
    }

    /// An object without members.
    pub fn new() -> (writer: Self)
        ensures
            writer@ == Map::<Seq<char>, serde_json::Value>::empty(),
            writer.entries() == Seq::<(Seq<char>, serde_json::Value)>::empty(),
    {
        let writer = ObjectWriter { entries: Vec::new() };
        assert(writer.entries() =~= Seq::<(Seq<char>, serde_json::Value)>::empty());
        writer
    }

    /// Adds a member under a key that the object does not have yet.
    pub fn put(self, key: &str, value: serde_json::Value) -> (writer: Self)
        requires
            !self@.contains_key(key@),
        ensures
            writer@ == self@.insert(key@, value),
            writer.entries() == self.entries().push((key@, value)),
    {
        proof {
            use_type_invariant(&self);
        }
        let ghost before = keyed(self.entries@);
        let mut entries = self.entries;
        let entry = (String::from_str(key), value);
        entries.push(entry);
        proof {
            let after = keyed(entries@);
            assert(after =~= before.push((key@, value)));
            lemma_members_push(before, (key@, value));
            assert forall|i: int| 0 <= i < after.len() implies members_of(after).contains_key(
                (#[trigger] after[i]).0,
            ) by {
                if i < before.len() {
                    assert(after[i] == before[i]);
                }
            }
            assert forall|i: int, j: int| 0 <= i < j < after.len() implies (#[trigger] after[i]).0
                != (#[trigger] after[j]).0 by {
                assert(after[i] == before[i]);
                if j < before.len() {
                    assert(after[j] == before[j]);
                }
            }
        }
        ObjectWriter { entries }
    }

    /// The object that holds the members.
    pub fn finish(self) -> (value: serde_json::Value)
        ensures
            value == json_object(self.entries()),
            json_shape(value) == JsonShape::Object(self@),
    {
        proof {
            use_type_invariant(&self);
        }
        value_from_entries(self.entries)
    }
}

} // verus!
