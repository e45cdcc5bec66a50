//! Stream entries as the broker hands them out, and the verification message
//! that a usable entry yields.

use vstd::prelude::*;
use vstd::string::*;
use vstd::utf8::*;

verus! {

/// What the broker stored under one field of an entry.
#[derive(Debug, PartialEq, Eq)]
pub enum FieldValue {
    /// A byte string.
    Data(Vec<u8>),
    /// Any other kind of reply value: nothing that could hold text.
    Other,
}

/// A field's value as plain data.
pub ghost enum FieldContent {
    Data(Seq<u8>),
    Other,
}

impl View for FieldValue {
    type V = FieldContent;

    open spec fn view(&self) -> FieldContent {
        match self {
            FieldValue::Data(bytes) => FieldContent::Data(bytes@),
            FieldValue::Other => FieldContent::Other,
        }
    }
}

/// One named field.
#[derive(Debug)]
pub struct Field {
    pub name: String,
    pub value: FieldValue,
}

/// The fields of one entry. A name has at most one value: inserting under a
/// name that is already there replaces what it had.
#[derive(Debug)]
pub struct FieldMap {
    fields: Vec<Field>,
}

/// The map that a list of fields stands for: a later field overrides an
/// earlier one of the same name.
pub open spec fn fields_map(fields: Seq<Field>) -> Map<Seq<char>, FieldContent>
    decreases fields.len(),
{
    if fields.len() == 0 {
        Map::empty()
    } else {
        fields_map(fields.drop_last()).insert(fields.last().name@, fields.last().value@)
    }
}

/// What a map holds under `key`, if anything.
pub open spec fn lookup(m: Map<Seq<char>, FieldContent>, key: Seq<char>) -> Option<FieldContent> {
    if m.contains_key(key) {
        Some(m[key])
    } else {
        None
    }
}

impl View for FieldMap {
    type V = Map<Seq<char>, FieldContent>;

    closed spec fn view(&self) -> Map<Seq<char>, FieldContent> {
        fields_map(self.fields@)
    }
}

impl FieldMap {
    /// A map without fields.
    pub fn new() -> (r: FieldMap)
        ensures
            r@ == Map::<Seq<char>, FieldContent>::empty(),
    {
        FieldMap { fields: Vec::new() }
    }

    /// Stores `value` under `name`, in place of what was there.
    pub fn insert(&mut self, name: String, value: FieldValue)
        ensures
            final(self)@ == old(self)@.insert(name@, value@),
    {
        let ghost before = self.fields@;
        self.fields.push(Field { name, value });
        assert(self.fields@.drop_last() =~= before);
    }

    /// The value stored under `key`.
    pub fn get(&self, key: &str) -> (r: Option<&FieldValue>)
        ensures
            match r {
                Some(value) => lookup(self@, key@) == Some(value@),
                None => lookup(self@, key@) is None,
            },
    {
        let wanted = String::from_str(key);
        let mut i: usize = self.fields.len();
        assert(self.fields@.take(i as int) =~= self.fields@);
        while i > 0
            invariant
                i <= self.fields.len(),
                wanted@ == key@,
                lookup(self@, key@) == lookup(fields_map(self.fields@.take(i as int)), key@),
            decreases i,
        {
            let ghost prefix = self.fields@.take(i as int);
            assert(prefix.drop_last() =~= self.fields@.take(i - 1));
            assert(prefix.last() == self.fields@[i - 1]);
            i = i - 1;
            if self.fields[i].name == wanted {
                return Some(&self.fields[i].value);
            }
        }
        None
    }
}

/// The text of the field `key`: present where the field exists, holds a byte
/// string, and the bytes are well-formed UTF-8.
pub open spec fn field_text(m: Map<Seq<char>, FieldContent>, key: Seq<char>) -> Option<Seq<char>> {
    match lookup(m, key) {
        Some(FieldContent::Data(bytes)) => if valid_utf8(bytes) {
            Some(decode_utf8(bytes))
        } else {
            None
        },
        _ => None,
    }
}

/// `String::from_utf8` of std, on a copy of the bytes: the text that the bytes
/// encode, where they are well-formed UTF-8, and nothing where they are not.
#[verifier::external_body]
fn utf8_string(bytes: &Vec<u8>) -> (r: Option<String>)
    ensures
        r is Some <==> valid_utf8(bytes@),
        r is Some ==> r.unwrap()@ == decode_utf8(bytes@),
{
    String::from_utf8(bytes.clone()).ok()
}

/// Reads the field `key` as text.
pub fn parse_field(map: &FieldMap, key: &str) -> (r: Option<String>)
    ensures
        match r {
            Some(text) => field_text(map@, key@) == Some(text@),
            None => field_text(map@, key@) is None,
        },
{
    match map.get(key) {
        Some(FieldValue::Data(bytes)) => utf8_string(bytes),
        _ => None,
    }
}

/// One entry of the stream: the identifier that the broker gave it, and its
/// fields.
#[derive(Debug)]
pub struct StreamEntry {
    pub id: String,
    pub map: FieldMap,
}

/// An entry as plain data.
pub ghost struct StreamEntryView {
    pub id: Seq<char>,
    pub map: Map<Seq<char>, FieldContent>,
}

impl View for StreamEntry {
    type V = StreamEntryView;

    open spec fn view(&self) -> StreamEntryView {
        StreamEntryView { id: self.id@, map: self.map@ }
    }
}

/// One request to verify an address: where the email goes, and the token that
/// it carries.
#[derive(Debug, PartialEq, Eq)]
pub struct VerificationMessage {
    pub email: String,
    pub hash: String,
}

/// A verification message as plain text values.
pub ghost struct MessageView {
    pub email: Seq<char>,
    pub hash: Seq<char>,
}

impl View for VerificationMessage {
    type V = MessageView;

    open spec fn view(&self) -> MessageView {
        MessageView { email: self.email@, hash: self.hash@ }
    }
}

impl Clone for VerificationMessage {
    fn clone(&self) -> (r: Self)
        ensures
            r@ == self@,
    {
        VerificationMessage { email: self.email.clone(), hash: self.hash.clone() }
    }
}

/// The message that an entry yields: one, where both `email` and
/// `verification_hash` can be read as text, and none otherwise.
pub open spec fn message_of(entry: StreamEntryView) -> Option<MessageView> {
    match (field_text(entry.map, "email"@), field_text(entry.map, "verification_hash"@)) {
        (Some(email), Some(hash)) => Some(MessageView { email, hash }),
        _ => None,
    }
}

/// Extracts the verification message from an entry.
pub fn parse_entry(entry: &StreamEntry) -> (r: Option<VerificationMessage>)
    ensures
        match r {
            Some(msg) => message_of(entry@) == Some(msg@),
            None => message_of(entry@) is None,
        },
{
    let email = parse_field(&entry.map, "email");
    let verification_hash = parse_field(&entry.map, "verification_hash");
    match (email, verification_hash) {
        (Some(email), Some(hash)) => Some(VerificationMessage { email, hash }),
        _ => None,
    }
}

} // verus!
