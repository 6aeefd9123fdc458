//! The structured data that a stored point carries.

use crate::config::{KEY_CONTENT, KEY_ID, KEY_ROWS};
use crate::file::{File, FileView};
use crate::text::texts;
use vstd::prelude::*;
use vstd::string::StringExecFns;

verus! {

/// One value of a payload.
#[derive(Debug, PartialEq, Eq)]
pub enum PayloadValue {
    Null,
    Bool(bool),
    Integer(i64),
    /// A double-precision number, held as its bit pattern.
    Number(u64),
    Text(String),
    List(Vec<PayloadValue>),
    Object(Vec<PayloadField>),
}

/// A named value of a payload.
#[derive(Debug, PartialEq, Eq)]
pub struct PayloadField {
    pub key: String,
    pub value: PayloadValue,
}

/// The payload of a point: named values, looked up by key.
#[derive(Debug, PartialEq, Eq)]
pub struct Payload {
    pub fields: Vec<PayloadField>,
}

impl PayloadValue {
    /// The characters of a text value; `None` for any other value.
    pub open spec fn as_text(self) -> Option<Seq<char>> {
        match self {
            PayloadValue::Text(s) => Some(s@),
            _ => None,
        }
    }

    /// The items of a list whose items are all text; `None` for any other value.
    pub open spec fn as_texts(self) -> Option<Seq<Seq<char>>> {
        match self {
            PayloadValue::List(items) => if forall|i: int|
                0 <= i < items@.len() ==> (#[trigger] items@[i]).as_text() is Some {
                Some(Seq::new(items@.len(), |i: int| items@[i].as_text()->0))
            } else {
                None
            },
            _ => None,
        }
    }

    /// A list value with one text item per given string, in order.
    pub fn list_of(items: &Vec<String>) -> (value: PayloadValue)
        ensures
            value.as_texts() == Some(texts(items@)),
    {
        let mut values: Vec<PayloadValue> = Vec::new();
        let mut i: usize = 0;
        while i < items.len()
            invariant
                i <= items.len(),
                values@.len() == i,
                forall|j: int| 0 <= j < i ==> (#[trigger] values@[j]).as_text() == Some(items@[j]@),
            decreases items.len() - i,
        {
            values.push(PayloadValue::Text(items[i].clone()));
            i += 1;
        }
        let value = PayloadValue::List(values);
        assert(value.as_texts()->0 =~= texts(items@));
        value
    }
}

/// The value of the first field named `key`, if there is one.
pub open spec fn lookup(fields: Seq<PayloadField>, key: Seq<char>) -> Option<PayloadValue>
    decreases fields.len(),
{
    if fields.len() == 0 {
        None
    } else if fields[0].key@ == key {
        Some(fields[0].value)
    } else {
        lookup(fields.drop_first(), key)
    }
}

/// Whether `payload` is the payload of a point of `doc`: the document's path
/// under the id key, its full text under the content key and all its rows
/// under the rows key, in that order and nothing else.
pub open spec fn is_document_payload(payload: Payload, doc: FileView) -> bool {
    let fields = payload.fields@;
    &&& fields.len() == 3
    &&& fields[0].key@ == KEY_ID@
    &&& fields[0].value.as_text() == Some(doc.path)
    &&& fields[1].key@ == KEY_CONTENT@
    &&& fields[1].value.as_text() == Some(doc.contents)
    &&& fields[2].key@ == KEY_ROWS@
    &&& fields[2].value.as_texts() == Some(doc.rows)
}

impl Payload {
    /// The value of the first field named `key`, if there is one.
    pub fn get(&self, key: &str) -> (found: Option<&PayloadValue>)
        ensures
            match found {
                Some(value) => lookup(self.fields@, key@) == Some(*value),
                None => lookup(self.fields@, key@) is None,
            },
    {
        let wanted = String::from_str(key);
        let mut i: usize = 0;
        assert(self.fields@.subrange(0, self.fields@.len() as int) =~= self.fields@);
        while i < self.fields.len()
            invariant
                i <= self.fields.len(),
                wanted@ == key@,
                lookup(self.fields@, key@) == lookup(
                    self.fields@.subrange(i as int, self.fields@.len() as int),
                    key@,
                ),
            decreases self.fields.len() - i,
        {
            let ghost rest = self.fields@.subrange(i as int, self.fields@.len() as int);
            assert(rest[0] == self.fields@[i as int]);
            if self.fields[i].key == wanted {
                return Some(&self.fields[i].value);
            }
            assert(rest.drop_first() =~= self.fields@.subrange(
                i + 1,
                self.fields@.len() as int,
            ));
            i += 1;
        }
        None
    }

    /// The payload of every point of `doc`: the whole document, whichever row
    /// the point's vector embeds.
    pub fn of_document(doc: &File) -> (payload: Payload)
        ensures
            is_document_payload(payload, doc@),
    {
        let mut fields: Vec<PayloadField> = Vec::new();
        fields.push(
            PayloadField { key: String::from_str(KEY_ID), value: PayloadValue::Text(doc.path.clone()) },
        );
        fields.push(
            PayloadField {
                key: String::from_str(KEY_CONTENT),
                value: PayloadValue::Text(doc.contents.clone()),
            },
        );
        fields.push(
            PayloadField { key: String::from_str(KEY_ROWS), value: PayloadValue::list_of(&doc.rows) },
        );
        Payload { fields }
    }
}

/// Looked up by key, a document's payload gives the document's path, its
/// full text and all its rows.
pub proof fn lemma_document_payload_fields(payload: Payload, doc: FileView)
    requires
        is_document_payload(payload, doc),
    ensures
        lookup(payload.fields@, KEY_ID@) matches Some(value) && value.as_text() == Some(doc.path),
        lookup(payload.fields@, KEY_CONTENT@) matches Some(value) && value.as_text() == Some(
            doc.contents,
        ),
        lookup(payload.fields@, KEY_ROWS@) matches Some(value) && value.as_texts() == Some(
            doc.rows,
        ),
{
    reveal_strlit("id");
    reveal_strlit("content");
    reveal_strlit("rows");
    let fields = payload.fields@;
    assert(KEY_ID@.len() != KEY_CONTENT@.len());
    assert(KEY_ID@.len() != KEY_ROWS@.len());
    assert(KEY_CONTENT@.len() != KEY_ROWS@.len());
    assert(fields.drop_first()[0] == fields[1]);
    assert(fields.drop_first().drop_first()[0] == fields[2]);
    reveal_with_fuel(lookup, 3);
}

} // verus!
