//! The fields of a message's header: typed values, each under a small integer
//! code, kept in the order in which they were added.

use vstd::prelude::*;
use crate::data::Value;

verus! {

/// The most fields that one message holds, rounded up to a multiple of eight.
pub const MAX_FIELDS_IN_MESSAGE: usize = 16;

/// The code that says what a field of the header means.
#[derive(Structural, Clone, Copy, Debug, PartialEq, Eq, Hash)]
pub struct MessageFieldCode(pub u8);

/// One field of a message's header.
#[derive(Debug, PartialEq, Eq)]
pub struct MessageField {
    code: MessageFieldCode,
    value: Value,
}

impl MessageField {
    pub closed spec fn spec_code(&self) -> MessageFieldCode {
        self.code
    }

    pub closed spec fn spec_value(&self) -> Value {
        self.value
    }

    pub fn new(code: MessageFieldCode, value: Value) -> (field: MessageField)
        ensures
            field.spec_code() == code,
            field.spec_value() == value,
    {
        MessageField { code, value }
    }

    #[verifier::when_used_as_spec(spec_code)]
    pub fn code(&self) -> (code: MessageFieldCode)
        ensures
            code == self.spec_code(),
    {
        self.code
    }

    pub fn value(&self) -> (value: &Value)
        ensures
            *value == self.spec_value(),
    {
        &self.value
    }

    pub fn into_value(self) -> (value: Value)
        ensures
            value == self.spec_value(),
    {
        self.value
    }
}

/// Whether `fields[i]` is the first field under `code`.
pub open spec fn is_first(fields: Seq<MessageField>, code: MessageFieldCode, i: int) -> bool {
    &&& 0 <= i < fields.len()
    &&& fields[i].code() == code
    &&& forall|j: int| 0 <= j < i ==> (#[trigger] fields[j]).code() != code
}

/// Whether no field stands under `code`.
pub open spec fn is_absent(fields: Seq<MessageField>, code: MessageFieldCode) -> bool {
    forall|j: int| 0 <= j < fields.len() ==> (#[trigger] fields[j]).code() != code
}

/// The fields of a message's header, in the order in which they were added.
#[derive(Debug)]
pub struct MessageFields(Vec<MessageField>);

impl View for MessageFields {
    type V = Seq<MessageField>;

    closed spec fn view(&self) -> Seq<MessageField> {
        self.0@
    }
}

impl MessageFields {
    /// No fields, with room for as many as a message holds.
    pub fn new() -> (fields: MessageFields)
        ensures
            fields@ == Seq::<MessageField>::empty(),
    {
        MessageFields(Vec::with_capacity(MAX_FIELDS_IN_MESSAGE))
    }

    /// The given fields, in the given order.
    pub fn new_from_vec(fields: Vec<MessageField>) -> (made: MessageFields)
        ensures
            made@ == fields@,
    {
        MessageFields(fields)
    }

    /// Appends a field behind those that are there.
    pub fn add(&mut self, field: MessageField)
        ensures
            final(self)@ == old(self)@.push(field),
    {
        self.0.push(field);
    }

    /// The fields.
    pub fn get(&self) -> (fields: &Vec<MessageField>)
        ensures
            fields@ == self@,
    {
        &self.0
    }

    /// The fields, to change in place: what the caller leaves in the vector
    /// is what the header then holds.
    pub fn get_mut(&mut self) -> (fields: &mut Vec<MessageField>)
        ensures
            fields@ == old(self)@,
            final(self)@ == final(fields)@,
    {
        &mut self.0
    }

    /// Gives up the fields.
    pub fn into_inner(self) -> (fields: Vec<MessageField>)
        ensures
            fields@ == self@,
    {
        self.0
    }

    /// Where the first field under `code` stands.
    fn position(&self, code: MessageFieldCode) -> (r: Option<usize>)
        ensures
            match r {
                Some(i) => is_first(self@, code, i as int),
                None => is_absent(self@, code),
            },
    {
        let mut i: usize = 0;
        while i < self.0.len()
            invariant
                i <= self.0@.len(),
                forall|j: int| 0 <= j < i ==> (#[trigger] self.0@[j]).code() != code,
            decreases self.0.len() - i,
        {
            if self.0[i].code() == code {
                return Some(i);
            }
            i += 1;
        }
        None
    }

    /// The first field under `code`, if there is one.
    pub fn get_field(&self, code: MessageFieldCode) -> (r: Option<&MessageField>)
        ensures
            match r {
                Some(field) => exists|i: int| is_first(self@, code, i) && self@[i] == *field,
                None => is_absent(self@, code),
            },
    {
        match self.position(code) {
            Some(i) => Some(&self.0[i]),
            None => None,
        }
    }

    /// Takes the first field under `code` out of the header, if there is
    /// one, and drops the rest.
    pub fn take_field(self, code: MessageFieldCode) -> (r: Option<MessageField>)
        ensures
            match r {
                Some(field) => exists|i: int| is_first(self@, code, i) && self@[i] == field,
                None => is_absent(self@, code),
            },
    {
        match self.position(code) {
            Some(i) => {
                let mut fields = self.0;
                Some(fields.remove(i))
            },
            None => None,
        }
    }
}

impl Default for MessageFields {
    fn default() -> (fields: MessageFields)
        ensures
            fields@ == Seq::<MessageField>::empty(),
    {
        MessageFields::new()
    }
}

impl std::ops::Deref for MessageFields {
    type Target = Vec<MessageField>;

    fn deref(&self) -> (fields: &Vec<MessageField>)
        ensures
            fields@ == self@,
    {
        self.get()
    }
}

impl std::ops::DerefMut for MessageFields {
    fn deref_mut(&mut self) -> (fields: &mut Vec<MessageField>)
        ensures
            fields@ == old(self)@,
            final(self)@ == final(fields)@,
    {
        self.get_mut()
    }
}

} // verus!
