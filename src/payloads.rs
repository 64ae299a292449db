//! The parameters that a device receives with a request, each with its
//! declared kind, and their extraction as typed payloads.
use vstd::prelude::*;

use indexmap::IndexMap;

use crate::error::{Error, ErrorKind};
use crate::index_map::{
    entries_lookup, entry_names, inserted, payload_entries, payloads_get,
    payloads_insert, payloads_new, payloads_swap_remove, swap_removed,
};
use crate::named::first_index;
use crate::parameters::{ParameterKind, ParameterValue};

verus! {

/// A parameter received with a request: its declared kind and its value.
#[derive(Debug, Clone, PartialEq)]
pub struct ParameterPayload {
    /// Parameter metadata.
    pub kind: ParameterKind,
    /// Parameter value.
    pub value: ParameterValue,
}

impl ParameterPayload {
    /// Creates a payload.
    pub fn new(kind: ParameterKind, value: ParameterValue) -> (r: ParameterPayload)
        ensures
            r == (ParameterPayload { kind, value }),
    {
        ParameterPayload { kind, value }
    }
}

/// A `bool` payload.
#[derive(Debug, Clone, Copy, PartialEq, Eq, Structural)]
pub struct BoolPayload {
    /// Value.
    pub value: bool,
    /// Default value.
    pub default: bool,
}

impl BoolPayload {
    /// Creates a payload.
    pub fn new(value: bool, default: bool) -> (r: BoolPayload)
        ensures
            r == (BoolPayload { value, default }),
    {
        BoolPayload { value, default }
    }
}

/// A `u8` payload.
#[derive(Debug, Clone, Copy, PartialEq, Eq, Structural)]
pub struct U8Payload {
    /// Value.
    pub value: u8,
    /// Default value.
    pub default: u8,
    /// Minimum value.
    pub min: u8,
    /// Maximum value.
    pub max: u8,
}

impl U8Payload {
    /// Creates a payload.
    pub fn new(value: u8, default: u8, min: u8, max: u8) -> (r: U8Payload)
        ensures
            r == (U8Payload { value, default, min, max }),
    {
        U8Payload { value, default, min, max }
    }
}

/// A `u16` payload.
#[derive(Debug, Clone, Copy, PartialEq, Eq, Structural)]
pub struct U16Payload {
    /// Value.
    pub value: u16,
    /// Default value.
    pub default: u16,
    /// Minimum value.
    pub min: u16,
    /// Maximum value.
    pub max: u16,
}

impl U16Payload {
    /// Creates a payload.
    pub fn new(value: u16, default: u16, min: u16, max: u16) -> (r: U16Payload)
        ensures
            r == (U16Payload { value, default, min, max }),
    {
        U16Payload { value, default, min, max }
    }
}

/// A `u32` payload.
#[derive(Debug, Clone, Copy, PartialEq, Eq, Structural)]
pub struct U32Payload {
    /// Value.
    pub value: u32,
    /// Default value.
    pub default: u32,
    /// Minimum value.
    pub min: u32,
    /// Maximum value.
    pub max: u32,
}

impl U32Payload {
    /// Creates a payload.
    pub fn new(value: u32, default: u32, min: u32, max: u32) -> (r: U32Payload)
        ensures
            r == (U32Payload { value, default, min, max }),
    {
        U32Payload { value, default, min, max }
    }
}

/// A `u64` payload.
#[derive(Debug, Clone, Copy, PartialEq, Eq, Structural)]
pub struct U64Payload {
    /// Value.
    pub value: u64,
    /// Default value.
    pub default: u64,
    /// Minimum value.
    pub min: u64,
    /// Maximum value.
    pub max: u64,
}

impl U64Payload {
    /// Creates a payload.
    pub fn new(value: u64, default: u64, min: u64, max: u64) -> (r: U64Payload)
        ensures
            r == (U64Payload { value, default, min, max }),
    {
        U64Payload { value, default, min, max }
    }
}

/// A single-precision payload; every number is its decimal text.
#[derive(Debug, Clone, PartialEq)]
pub struct F32Payload {
    /// Value.
    pub value: String,
    /// Default value.
    pub default: String,
    /// Minimum value.
    pub min: String,
    /// Maximum value.
    pub max: String,
    /// Step.
    pub step: String,
}

impl F32Payload {
    /// Creates a payload.
    pub fn new(value: String, default: String, min: String, max: String, step: String) -> (r:
        F32Payload)
        ensures
            r == (F32Payload { value, default, min, max, step }),
    {
        F32Payload { value, default, min, max, step }
    }
}

/// A double-precision payload; every number is its decimal text.
#[derive(Debug, Clone, PartialEq)]
pub struct F64Payload {
    /// Value.
    pub value: String,
    /// Default value.
    pub default: String,
    /// Minimum value.
    pub min: String,
    /// Maximum value.
    pub max: String,
    /// Step.
    pub step: String,
}

impl F64Payload {
    /// Creates a payload.
    pub fn new(value: String, default: String, min: String, max: String, step: String) -> (r:
        F64Payload)
        ensures
            r == (F64Payload { value, default, min, max, step }),
    {
        F64Payload { value, default, min, max, step }
    }
}

/// A characters sequence payload.
#[derive(Debug, Clone, PartialEq)]
pub struct CharsSequencePayload {
    /// Value.
    pub value: String,
    /// Default value.
    pub default: String,
}

impl CharsSequencePayload {
    /// Creates a payload.
    pub fn new(value: String, default: String) -> (r: CharsSequencePayload)
        ensures
            r == (CharsSequencePayload { value, default }),
    {
        CharsSequencePayload { value, default }
    }
}

/// The error for a parameter that is missing or of another kind.
pub open spec fn payload_error(name: Seq<char>, found: bool, type_text: Seq<char>) -> Seq<char> {
    if found {
        "`"@ + name + "` is not a `"@ + type_text + "` kind"@
    } else {
        "`"@ + name + "` not found."@
    }
}

fn invalid_data(message: &String) -> (r: Error)
    ensures
        r.kind == ErrorKind::InvalidParameter,
        r.description@ == message@,
{
    Error::new(ErrorKind::InvalidParameter, message.as_str())
}

fn kind_error(name: &str, type_text: &str) -> (r: Error)
    ensures
        r.kind == ErrorKind::InvalidParameter,
        r.description@ == payload_error(name@, true, type_text@),
{
    let mut message = String::from_str("`");
    message.append(name);
    message.append("` is not a `");
    message.append(type_text);
    message.append("` kind");
    invalid_data(&message)
}

/// The parameters received with a request, keyed by name.
#[derive(Debug, Clone, PartialEq)]
pub struct ParametersPayloads {
    map: IndexMap<String, ParameterPayload>,
}

impl ParametersPayloads {
    /// Each name with its payload, in map order.
    pub closed spec fn entries(&self) -> Seq<(Seq<char>, ParameterPayload)> {
        payload_entries(self.map)
    }

    /// The payload held under `name`, if any.
    pub open spec fn lookup(&self, name: Seq<char>) -> Option<ParameterPayload> {
        entries_lookup(self.entries(), name)
    }

    /// Whether `self` is `before` after the payload under `name`, if any,
    /// was taken out.
    pub open spec fn extracted_from(&self, before: ParametersPayloads, name: Seq<char>) -> bool {
        let i = first_index(entry_names(before.entries()), name);
        if i >= 0 {
            swap_removed(before.entries(), self.entries(), i)
        } else {
            self.entries() == before.entries()
        }
    }

    /// Creates an empty set of payloads.
    pub fn new() -> (r: ParametersPayloads)
        ensures
            r.entries() == Seq::<(Seq<char>, ParameterPayload)>::empty(),
    {
        ParametersPayloads { map: payloads_new() }
    }

    /// Holds a payload under a name, in place of one held before.
    pub fn insert(&mut self, name: String, payload: ParameterPayload)
        ensures
            inserted(old(self).entries(), final(self).entries(), name@, payload),
    {
        payloads_insert(&mut self.map, name, payload);
    }

    /// The payload held under a name, if any.
    pub fn get(&self, name: &str) -> (r: Option<&ParameterPayload>)
        ensures
            match r {
                Some(p) => self.lookup(name@) == Some(*p),
                None => self.lookup(name@) is None,
            },
    {
        payloads_get(&self.map, name)
    }

    /// Takes the payload held under a name out, if any.
    pub fn extract(&mut self, name: &str) -> (r: Option<ParameterPayload>)
        ensures
            r == old(self).lookup(name@),
            final(self).extracted_from(*old(self), name@),
    {
        payloads_swap_remove(&mut self.map, name)
    }

    /// Takes out the `bool` parameter with the given name.
    pub fn bool(&mut self, name: &str) -> (r: Result<BoolPayload, Error>)
        ensures
            final(self).extracted_from(*old(self), name@),
            match old(self).lookup(name@) {
                Some(
                    ParameterPayload { value: ParameterValue::Bool(v), kind: ParameterKind::Bool { default } },
                ) => r == Ok::<BoolPayload, Error>(BoolPayload { value: v, default }),
                Some(_) => r matches Err(e) && e.kind == ErrorKind::InvalidParameter && e.description@
                    == payload_error(name@, true, "bool"@),
                None => r matches Err(e) && e.kind == ErrorKind::InvalidParameter && e.description@
                    == payload_error(name@, false, ""@),
            },
    {
        match self.take(name) {
            Err(e) => Err(e),
            Ok(payload) => match (payload.value, payload.kind) {
                (ParameterValue::Bool(v), ParameterKind::Bool { default }) => Ok(
                    BoolPayload::new(v, default),
                ),
                _ => Err(kind_error(name, "bool")),
            },
        }
    }

    /// Takes out the `u8` parameter with the given name.
    pub fn u8(&mut self, name: &str) -> (r: Result<U8Payload, Error>)
        ensures
            final(self).extracted_from(*old(self), name@),
            match old(self).lookup(name@) {
                Some(
                    ParameterPayload {
                        value: ParameterValue::U8(v),
                        kind: ParameterKind::U8 { default, min, max },
                    },
                ) => r == Ok::<U8Payload, Error>(U8Payload { value: v, default, min, max }),
                Some(_) => r matches Err(e) && e.kind == ErrorKind::InvalidParameter && e.description@
                    == payload_error(name@, true, "u8"@),
                None => r matches Err(e) && e.kind == ErrorKind::InvalidParameter && e.description@
                    == payload_error(name@, false, ""@),
            },
    {
        match self.take(name) {
            Err(e) => Err(e),
            Ok(payload) => match (payload.value, payload.kind) {
                (ParameterValue::U8(v), ParameterKind::U8 { default, min, max }) => Ok(
                    U8Payload::new(v, default, min, max),
                ),
                _ => Err(kind_error(name, "u8")),
            },
        }
    }

    /// Takes out the `u16` parameter with the given name.
    pub fn u16(&mut self, name: &str) -> (r: Result<U16Payload, Error>)
        ensures
            final(self).extracted_from(*old(self), name@),
            match old(self).lookup(name@) {
                Some(
                    ParameterPayload {
                        value: ParameterValue::U16(v),
                        kind: ParameterKind::U16 { default, min, max },
                    },
                ) => r == Ok::<U16Payload, Error>(U16Payload { value: v, default, min, max }),
                Some(_) => r matches Err(e) && e.kind == ErrorKind::InvalidParameter && e.description@
                    == payload_error(name@, true, "u16"@),
                None => r matches Err(e) && e.kind == ErrorKind::InvalidParameter && e.description@
                    == payload_error(name@, false, ""@),
            },
    {
        match self.take(name) {
            Err(e) => Err(e),
            Ok(payload) => match (payload.value, payload.kind) {
                (ParameterValue::U16(v), ParameterKind::U16 { default, min, max }) => Ok(
                    U16Payload::new(v, default, min, max),
                ),
                _ => Err(kind_error(name, "u16")),
            },
        }
    }

    /// Takes out the `u32` parameter with the given name; a `u32` range
    /// counts too.
    pub fn u32(&mut self, name: &str) -> (r: Result<U32Payload, Error>)
        ensures
            final(self).extracted_from(*old(self), name@),
            match old(self).lookup(name@) {
                Some(
                    ParameterPayload {
                        value: ParameterValue::U32(v),
                        kind: ParameterKind::U32 { default, min, max },
                    },
                ) => r == Ok::<U32Payload, Error>(U32Payload { value: v, default, min, max }),
                Some(
                    ParameterPayload {
                        value: ParameterValue::U32(v),
                        kind: ParameterKind::RangeU32 { default, min, max, .. },
                    },
                ) => r == Ok::<U32Payload, Error>(U32Payload { value: v, default, min, max }),
                Some(_) => r matches Err(e) && e.kind == ErrorKind::InvalidParameter && e.description@
                    == payload_error(name@, true, "u32"@),
                None => r matches Err(e) && e.kind == ErrorKind::InvalidParameter && e.description@
                    == payload_error(name@, false, ""@),
            },
    {
        match self.take(name) {
            Err(e) => Err(e),
            Ok(payload) => match (payload.value, payload.kind) {
                (ParameterValue::U32(v), ParameterKind::U32 { default, min, max }) => Ok(
                    U32Payload::new(v, default, min, max),
                ),
                (ParameterValue::U32(v), ParameterKind::RangeU32 { default, min, max, .. }) => Ok(
                    U32Payload::new(v, default, min, max),
                ),
                _ => Err(kind_error(name, "u32")),
            },
        }
    }

    /// Takes out the `u64` parameter with the given name; a `u64` range
    /// counts too.
    pub fn u64(&mut self, name: &str) -> (r: Result<U64Payload, Error>)
        ensures
            final(self).extracted_from(*old(self), name@),
            match old(self).lookup(name@) {
                Some(
                    ParameterPayload {
                        value: ParameterValue::U64(v),
                        kind: ParameterKind::U64 { default, min, max },
                    },
                ) => r == Ok::<U64Payload, Error>(U64Payload { value: v, default, min, max }),
                Some(
                    ParameterPayload {
                        value: ParameterValue::U64(v),
                        kind: ParameterKind::RangeU64 { default, min, max, .. },
                    },
                ) => r == Ok::<U64Payload, Error>(U64Payload { value: v, default, min, max }),
                Some(_) => r matches Err(e) && e.kind == ErrorKind::InvalidParameter && e.description@
                    == payload_error(name@, true, "u64"@),
                None => r matches Err(e) && e.kind == ErrorKind::InvalidParameter && e.description@
                    == payload_error(name@, false, ""@),
            },
    {
        match self.take(name) {
            Err(e) => Err(e),
            Ok(payload) => match (payload.value, payload.kind) {
                (ParameterValue::U64(v), ParameterKind::U64 { default, min, max }) => Ok(
                    U64Payload::new(v, default, min, max),
                ),
                (ParameterValue::U64(v), ParameterKind::RangeU64 { default, min, max, .. }) => Ok(
                    U64Payload::new(v, default, min, max),
                ),
                _ => Err(kind_error(name, "u64")),
            },
        }
    }

    /// Takes out the single-precision parameter with the given name.
    pub fn float32(&mut self, name: &str) -> (r: Result<F32Payload, Error>)
        ensures
            final(self).extracted_from(*old(self), name@),
            match old(self).lookup(name@) {
                Some(
                    ParameterPayload {
                        value: ParameterValue::F32(v),
                        kind: ParameterKind::F32 { default, min, max, step },
                    },
                ) => r == Ok::<F32Payload, Error>(F32Payload { value: v, default, min, max, step }),
                Some(_) => r matches Err(e) && e.kind == ErrorKind::InvalidParameter && e.description@
                    == payload_error(name@, true, "f32"@),
                None => r matches Err(e) && e.kind == ErrorKind::InvalidParameter && e.description@
                    == payload_error(name@, false, ""@),
            },
    {
        match self.take(name) {
            Err(e) => Err(e),
            Ok(payload) => match (payload.value, payload.kind) {
                (ParameterValue::F32(v), ParameterKind::F32 { default, min, max, step }) => Ok(
                    F32Payload::new(v, default, min, max, step),
                ),
                _ => Err(kind_error(name, "f32")),
            },
        }
    }

    /// Takes out the double-precision parameter with the given name; a
    /// double-precision range counts too.
    pub fn float64(&mut self, name: &str) -> (r: Result<F64Payload, Error>)
        ensures
            final(self).extracted_from(*old(self), name@),
            match old(self).lookup(name@) {
                Some(
                    ParameterPayload {
                        value: ParameterValue::F64(v),
                        kind: ParameterKind::F64 { default, min, max, step },
                    },
                ) => r == Ok::<F64Payload, Error>(F64Payload { value: v, default, min, max, step }),
                Some(
                    ParameterPayload {
                        value: ParameterValue::F64(v),
                        kind: ParameterKind::RangeF64 { default, min, max, step },
                    },
                ) => r == Ok::<F64Payload, Error>(F64Payload { value: v, default, min, max, step }),
                Some(_) => r matches Err(e) && e.kind == ErrorKind::InvalidParameter && e.description@
                    == payload_error(name@, true, "f64"@),
                None => r matches Err(e) && e.kind == ErrorKind::InvalidParameter && e.description@
                    == payload_error(name@, false, ""@),
            },
    {
        match self.take(name) {
            Err(e) => Err(e),
            Ok(payload) => match (payload.value, payload.kind) {
                (ParameterValue::F64(v), ParameterKind::F64 { default, min, max, step }) => Ok(
                    F64Payload::new(v, default, min, max, step),
                ),
                (ParameterValue::F64(v), ParameterKind::RangeF64 { default, min, max, step }) => Ok(
                    F64Payload::new(v, default, min, max, step),
                ),
                _ => Err(kind_error(name, "f64")),
            },
        }
    }

    /// Takes out the characters sequence parameter with the given name.
    pub fn chars_sequence(&mut self, name: &str) -> (r: Result<CharsSequencePayload, Error>)
        ensures
            final(self).extracted_from(*old(self), name@),
            match old(self).lookup(name@) {
                Some(
                    ParameterPayload {
                        value: ParameterValue::CharsSequence(v),
                        kind: ParameterKind::CharsSequence { default },
                    },
                ) => r == Ok::<CharsSequencePayload, Error>(CharsSequencePayload { value: v, default }),
                Some(_) => r matches Err(e) && e.kind == ErrorKind::InvalidParameter && e.description@
                    == payload_error(name@, true, "characters sequence"@),
                None => r matches Err(e) && e.kind == ErrorKind::InvalidParameter && e.description@
                    == payload_error(name@, false, ""@),
            },
    {
        match self.take(name) {
            Err(e) => Err(e),
            Ok(payload) => match (payload.value, payload.kind) {
                (ParameterValue::CharsSequence(v), ParameterKind::CharsSequence { default }) => Ok(
                    CharsSequencePayload::new(v, default),
                ),
                _ => Err(kind_error(name, "characters sequence")),
            },
        }
    }

    fn take(&mut self, name: &str) -> (r: Result<ParameterPayload, Error>)
        ensures
            final(self).extracted_from(*old(self), name@),
            match old(self).lookup(name@) {
                Some(p) => r == Ok::<ParameterPayload, Error>(p),
                None => r matches Err(e) && e.kind == ErrorKind::InvalidParameter && e.description@
                    == payload_error(name@, false, ""@),
            },
    {
        match self.extract(name) {
            Some(payload) => Ok(payload),
            None => {
                let mut message = String::from_str("`");
                message.append(name);
                message.append("` not found.");
                Err(invalid_data(&message))
            },
        }
    }
}

} // verus!
