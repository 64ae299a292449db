use vstd::prelude::*;

use indexmap::IndexMap;

use crate::index_map::{
    entries_lookup, entry_names, entry_values, inserted, kind_entries, kinds_get, kinds_get_index,
    kinds_insert, kinds_len, kinds_new, lemma_inserted, value_entries, values_get,
    values_get_index, values_insert, values_len, values_new,
};
use crate::named::first_index;
use crate::text::{bool_str, bool_text, decimal, decimal_text};

verus! {

/// All supported kinds of route input parameters.
///
/// Floating-point limits, steps and defaults are held as their decimal text;
/// an empty text stands for a limit that was not set.
#[derive(Debug, Clone, PartialEq)]
pub enum ParameterKind {
    /// A `bool` value.
    Bool {
        /// The initial value, also used when the parameter is missing.
        default: bool,
    },
    /// A `u8` value.
    U8 {
        /// The initial value, also used when the parameter is missing.
        default: u8,
        /// The minimum value allowed.
        min: u8,
        /// The maximum value allowed.
        max: u8,
    },
    /// A `u16` value.
    U16 {
        /// The initial value, also used when the parameter is missing.
        default: u16,
        /// The minimum value allowed.
        min: u16,
        /// The maximum value allowed.
        max: u16,
    },
    /// A `u32` value.
    U32 {
        /// The initial value, also used when the parameter is missing.
        default: u32,
        /// The minimum value allowed.
        min: u32,
        /// The maximum value allowed.
        max: u32,
    },
    /// A `u64` value.
    U64 {
        /// The initial value, also used when the parameter is missing.
        default: u64,
        /// The minimum value allowed.
        min: u64,
        /// The maximum value allowed.
        max: u64,
    },
    /// A single-precision floating-point value.
    F32 {
        /// The initial value, also used when the parameter is missing.
        default: String,
        /// The minimum value allowed.
        min: String,
        /// The maximum value allowed.
        max: String,
        /// The decimal step of the value.
        step: String,
    },
    /// A double-precision floating-point value.
    F64 {
        /// The initial value, also used when the parameter is missing.
        default: String,
        /// The minimum value allowed.
        min: String,
        /// The maximum value allowed.
        max: String,
        /// The decimal step of the value.
        step: String,
    },
    /// A range of `u32` values.
    RangeU32 {
        /// The minimum value allowed.
        min: u32,
        /// The maximum value allowed.
        max: u32,
        /// The distance between two allowed values.
        step: u32,
        /// The initial value.
        default: u32,
    },
    /// A range of `u64` values.
    RangeU64 {
        /// The minimum value allowed.
        min: u64,
        /// The maximum value allowed.
        max: u64,
        /// The distance between two allowed values.
        step: u64,
        /// The initial value.
        default: u64,
    },
    /// A range of double-precision floating-point values.
    RangeF64 {
        /// The minimum value allowed.
        min: String,
        /// The maximum value allowed.
        max: String,
        /// The distance between two allowed values.
        step: String,
        /// The initial value.
        default: String,
    },
    /// A characters sequence.
    CharsSequence {
        /// The default text.
        default: String,
    },
}

/// The type name of the values that a parameter kind accepts.
pub open spec fn kind_type(kind: ParameterKind) -> Seq<char> {
    match kind {
        ParameterKind::Bool { .. } => "bool"@,
        ParameterKind::U8 { .. } => "u8"@,
        ParameterKind::U16 { .. } => "u16"@,
        ParameterKind::U32 { .. } => "u32"@,
        ParameterKind::RangeU32 { .. } => "u32"@,
        ParameterKind::U64 { .. } => "u64"@,
        ParameterKind::RangeU64 { .. } => "u64"@,
        ParameterKind::F32 { .. } => "f32"@,
        ParameterKind::F64 { .. } => "f64"@,
        ParameterKind::RangeF64 { .. } => "f64"@,
        ParameterKind::CharsSequence { .. } => "String"@,
    }
}

/// The value a parameter takes when the caller does not give one.
pub open spec fn default_value(kind: ParameterKind) -> ParameterValue {
    match kind {
        ParameterKind::Bool { default } => ParameterValue::Bool(default),
        ParameterKind::U8 { default, .. } => ParameterValue::U8(default),
        ParameterKind::U16 { default, .. } => ParameterValue::U16(default),
        ParameterKind::U32 { default, .. } => ParameterValue::U32(default),
        ParameterKind::RangeU32 { default, .. } => ParameterValue::U32(default),
        ParameterKind::U64 { default, .. } => ParameterValue::U64(default),
        ParameterKind::RangeU64 { default, .. } => ParameterValue::U64(default),
        ParameterKind::F32 { default, .. } => ParameterValue::F32(default),
        ParameterKind::F64 { default, .. } => ParameterValue::F64(default),
        ParameterKind::RangeF64 { default, .. } => ParameterValue::F64(default),
        ParameterKind::CharsSequence { default } => ParameterValue::CharsSequence(default),
    }
}

/// Whether a value has the type that a parameter kind accepts.
pub open spec fn kind_matches(value: ParameterValue, kind: ParameterKind) -> bool {
    match (value, kind) {
        (ParameterValue::Bool(_), ParameterKind::Bool { .. }) => true,
        (ParameterValue::U8(_), ParameterKind::U8 { .. }) => true,
        (ParameterValue::U16(_), ParameterKind::U16 { .. }) => true,
        (ParameterValue::U32(_), ParameterKind::U32 { .. }) => true,
        (ParameterValue::U32(_), ParameterKind::RangeU32 { .. }) => true,
        (ParameterValue::U64(_), ParameterKind::U64 { .. }) => true,
        (ParameterValue::U64(_), ParameterKind::RangeU64 { .. }) => true,
        (ParameterValue::F32(_), ParameterKind::F32 { .. }) => true,
        (ParameterValue::F64(_), ParameterKind::F64 { .. }) => true,
        (ParameterValue::F64(_), ParameterKind::RangeF64 { .. }) => true,
        (ParameterValue::CharsSequence(_), ParameterKind::CharsSequence { .. }) => true,
        _ => false,
    }
}

impl ParameterKind {
    /// The name of the kind.
    pub fn name(&self) -> (r: &'static str)
        ensures
            r@ == match *self {
                ParameterKind::Bool { .. } => "Bool"@,
                ParameterKind::U8 { .. } => "U8"@,
                ParameterKind::U16 { .. } => "U16"@,
                ParameterKind::U32 { .. } => "U32"@,
                ParameterKind::RangeU32 { .. } => "RangeU32"@,
                ParameterKind::U64 { .. } => "U64"@,
                ParameterKind::RangeU64 { .. } => "RangeU64"@,
                ParameterKind::F32 { .. } => "F32"@,
                ParameterKind::F64 { .. } => "F64"@,
                ParameterKind::RangeF64 { .. } => "RangeF64"@,
                ParameterKind::CharsSequence { .. } => "CharsSequence"@,
            },
    {
        match self {
            ParameterKind::Bool { .. } => "Bool",
            ParameterKind::U8 { .. } => "U8",
            ParameterKind::U16 { .. } => "U16",
            ParameterKind::U32 { .. } => "U32",
            ParameterKind::RangeU32 { .. } => "RangeU32",
            ParameterKind::U64 { .. } => "U64",
            ParameterKind::RangeU64 { .. } => "RangeU64",
            ParameterKind::F32 { .. } => "F32",
            ParameterKind::F64 { .. } => "F64",
            ParameterKind::RangeF64 { .. } => "RangeF64",
            ParameterKind::CharsSequence { .. } => "CharsSequence",
        }
    }

    /// The type name of the values that the kind accepts.
    pub fn as_type(&self) -> (r: &'static str)
        ensures
            r@ == kind_type(*self),
    {
        match self {
            ParameterKind::Bool { .. } => "bool",
            ParameterKind::U8 { .. } => "u8",
            ParameterKind::U16 { .. } => "u16",
            ParameterKind::U32 { .. } => "u32",
            ParameterKind::RangeU32 { .. } => "u32",
            ParameterKind::U64 { .. } => "u64",
            ParameterKind::RangeU64 { .. } => "u64",
            ParameterKind::F32 { .. } => "f32",
            ParameterKind::F64 { .. } => "f64",
            ParameterKind::RangeF64 { .. } => "f64",
            ParameterKind::CharsSequence { .. } => "String",
        }
    }
}

/// Floating-point decimal precision.
#[derive(Debug, Clone, Copy, PartialEq, Eq, Structural)]
pub enum DecimalPrecision {
    /// One digit.
    OneDigit,
    /// Two digits.
    TwoDigits,
    /// Three digits.
    ThreeDigits,
    /// Any digits.
    Any,
}

/// The step that a decimal precision stands for, as decimal text.
pub open spec fn precision_step(p: DecimalPrecision) -> Seq<char> {
    match p {
        DecimalPrecision::OneDigit => "0.1"@,
        DecimalPrecision::TwoDigits => "0.01"@,
        DecimalPrecision::ThreeDigits => "0.001"@,
        DecimalPrecision::Any => "0"@,
    }
}

impl DecimalPrecision {
    /// The step that the precision stands for, as decimal text.
    pub fn step(self) -> (r: &'static str)
        ensures
            r@ == precision_step(self),
    {
        match self {
            DecimalPrecision::OneDigit => "0.1",
            DecimalPrecision::TwoDigits => "0.01",
            DecimalPrecision::ThreeDigits => "0.001",
            DecimalPrecision::Any => "0",
        }
    }
}

/// A parameter value given with a request.
///
/// Floating-point values are held as their decimal text.
#[derive(Debug, Clone, PartialEq)]
pub enum ParameterValue {
    /// A `bool` value.
    Bool(bool),
    /// A `u8` value.
    U8(u8),
    /// A `u16` value.
    U16(u16),
    /// A `u32` value.
    U32(u32),
    /// A `u64` value.
    U64(u64),
    /// A single-precision floating-point value.
    F32(String),
    /// A double-precision floating-point value.
    F64(String),
    /// A characters sequence.
    CharsSequence(String),
}

/// The type name of a value.
pub open spec fn value_type(value: ParameterValue) -> Seq<char> {
    match value {
        ParameterValue::Bool(_) => "bool"@,
        ParameterValue::U8(_) => "u8"@,
        ParameterValue::U16(_) => "u16"@,
        ParameterValue::U32(_) => "u32"@,
        ParameterValue::U64(_) => "u64"@,
        ParameterValue::F32(_) => "f32"@,
        ParameterValue::F64(_) => "f64"@,
        ParameterValue::CharsSequence(_) => "String"@,
    }
}

/// The text of a value, as it stands in a route path or a request body.
pub open spec fn value_text(value: ParameterValue) -> Seq<char> {
    match value {
        ParameterValue::Bool(b) => bool_text(b),
        ParameterValue::U8(n) => decimal(n as nat),
        ParameterValue::U16(n) => decimal(n as nat),
        ParameterValue::U32(n) => decimal(n as nat),
        ParameterValue::U64(n) => decimal(n as nat),
        ParameterValue::F32(s) => s@,
        ParameterValue::F64(s) => s@,
        ParameterValue::CharsSequence(s) => s@,
    }
}

impl ParameterValue {
    /// The value a parameter of the given kind takes by default.
    pub fn from_parameter_kind(parameter_kind: &ParameterKind) -> (r: ParameterValue)
        ensures
            r == default_value(*parameter_kind),
    {
        match parameter_kind {
            ParameterKind::Bool { default } => ParameterValue::Bool(*default),
            ParameterKind::U8 { default, .. } => ParameterValue::U8(*default),
            ParameterKind::U16 { default, .. } => ParameterValue::U16(*default),
            ParameterKind::U32 { default, .. } => ParameterValue::U32(*default),
            ParameterKind::RangeU32 { default, .. } => ParameterValue::U32(*default),
            ParameterKind::U64 { default, .. } => ParameterValue::U64(*default),
            ParameterKind::RangeU64 { default, .. } => ParameterValue::U64(*default),
            ParameterKind::F32 { default, .. } => ParameterValue::F32(default.clone()),
            ParameterKind::F64 { default, .. } => ParameterValue::F64(default.clone()),
            ParameterKind::RangeF64 { default, .. } => ParameterValue::F64(default.clone()),
            ParameterKind::CharsSequence { default } => ParameterValue::CharsSequence(
                default.clone(),
            ),
        }
    }

    /// The type name of the value.
    pub fn as_type(&self) -> (r: &'static str)
        ensures
            r@ == value_type(*self),
    {
        match self {
            ParameterValue::Bool(_) => "bool",
            ParameterValue::U8(_) => "u8",
            ParameterValue::U16(_) => "u16",
            ParameterValue::U32(_) => "u32",
            ParameterValue::U64(_) => "u64",
            ParameterValue::F32(_) => "f32",
            ParameterValue::F64(_) => "f64",
            ParameterValue::CharsSequence(_) => "String",
        }
    }

    /// Whether the value has the type that the given kind accepts.
    pub fn match_kind(&self, parameter_kind: &ParameterKind) -> (r: bool)
        ensures
            r == kind_matches(*self, *parameter_kind),
    {
        match (self, parameter_kind) {
            (ParameterValue::Bool(_), ParameterKind::Bool { .. }) => true,
            (ParameterValue::U8(_), ParameterKind::U8 { .. }) => true,
            (ParameterValue::U16(_), ParameterKind::U16 { .. }) => true,
            (ParameterValue::U32(_), ParameterKind::U32 { .. }) => true,
            (ParameterValue::U32(_), ParameterKind::RangeU32 { .. }) => true,
            (ParameterValue::U64(_), ParameterKind::U64 { .. }) => true,
            (ParameterValue::U64(_), ParameterKind::RangeU64 { .. }) => true,
            (ParameterValue::F32(_), ParameterKind::F32 { .. }) => true,
            (ParameterValue::F64(_), ParameterKind::F64 { .. }) => true,
            (ParameterValue::F64(_), ParameterKind::RangeF64 { .. }) => true,
            (ParameterValue::CharsSequence(_), ParameterKind::CharsSequence { .. }) => true,
            _ => false,
        }
    }

    /// The text of the value, as it stands in a route path or a request
    /// body.
    pub fn text(&self) -> (r: String)
        ensures
            r@ == value_text(*self),
    {
        match self {
            ParameterValue::Bool(b) => String::from_str(bool_str(*b)),
            ParameterValue::U8(n) => decimal_text(*n as u64),
            ParameterValue::U16(n) => decimal_text(*n as u64),
            ParameterValue::U32(n) => decimal_text(*n as u64),
            ParameterValue::U64(n) => decimal_text(*n),
            ParameterValue::F32(s) => s.clone(),
            ParameterValue::F64(s) => s.clone(),
            ParameterValue::CharsSequence(s) => s.clone(),
        }
    }
}

/// The parameters of a route: each name with its kind, in declaration order.
#[derive(Debug, Clone, PartialEq)]
pub struct ParametersData {
    map: IndexMap<String, ParameterKind>,
}

impl ParametersData {
    /// Each declared name with its kind, in declaration order.
    pub closed spec fn entries(&self) -> Seq<(Seq<char>, ParameterKind)> {
        kind_entries(self.map)
    }

    /// The declared names, in order.
    pub open spec fn names(&self) -> Seq<Seq<char>> {
        entry_names(self.entries())
    }

    /// The declared kinds, in the order of their names.
    pub open spec fn values(&self) -> Seq<ParameterKind> {
        entry_values(self.entries())
    }

    /// The kind declared under `name`, if any.
    pub open spec fn lookup(&self, name: Seq<char>) -> Option<ParameterKind> {
        entries_lookup(self.entries(), name)
    }

    /// Names and kinds come in pairs.
    pub proof fn lemma_lengths(&self)
        ensures
            self.names().len() == self.values().len(),
            self.names().len() == self.entries().len(),
    {
    }

    /// Creates an empty set of parameters.
    pub fn new() -> (r: ParametersData)
        ensures
            r.entries() == Seq::<(Seq<char>, ParameterKind)>::empty(),
    {
        ParametersData { map: kinds_new() }
    }

    /// Declares a parameter, in place of one of the same name.
    pub fn add(&mut self, name: String, kind: ParameterKind)
        ensures
            inserted(old(self).entries(), final(self).entries(), name@, kind),
    {
        kinds_insert(&mut self.map, name, kind);
    }

    /// Declares a parameter and returns the updated set.
    pub fn insert(self, name: String, kind: ParameterKind) -> (r: ParametersData)
        ensures
            inserted(self.entries(), r.entries(), name@, kind),
    {
        let mut r = self;
        r.add(name, kind);
        r
    }

    /// The kind of the parameter with the given name, if declared.
    pub fn get(&self, key: &str) -> (r: Option<&ParameterKind>)
        ensures
            match r {
                Some(k) => self.lookup(key@) == Some(*k),
                None => self.lookup(key@) is None,
            },
    {
        kinds_get(&self.map, key)
    }

    /// Whether no parameter is declared.
    pub fn is_empty(&self) -> (r: bool)
        ensures
            r == (self.names().len() == 0),
    {
        kinds_len(&self.map) == 0
    }

    /// The number of declared parameters.
    pub fn len(&self) -> (r: usize)
        ensures
            r as nat == self.names().len(),
            r as nat == self.values().len(),
    {
        kinds_len(&self.map)
    }

    /// The name at position `i`.
    pub fn name_at(&self, i: usize) -> (r: &String)
        requires
            i < self.names().len(),
        ensures
            r@ == self.names()[i as int],
    {
        kinds_get_index(&self.map, i).unwrap().0
    }

    /// The kind at position `i`.
    pub fn value_at(&self, i: usize) -> (r: &ParameterKind)
        requires
            i < self.values().len(),
        ensures
            *r == self.values()[i as int],
    {
        kinds_get_index(&self.map, i).unwrap().1
    }
}

/// A builder of route parameters.
#[derive(Debug, Clone)]
pub struct Parameters {
    data: ParametersData,
}

impl Parameters {
    /// The parameters added so far.
    pub closed spec fn data(&self) -> ParametersData {
        self.data
    }

    /// Creates an empty builder.
    pub fn new() -> (r: Parameters)
        ensures
            r.data().entries() == Seq::<(Seq<char>, ParameterKind)>::empty(),
    {
        Parameters { data: ParametersData::new() }
    }

    fn create_parameter(self, name: &str, kind: ParameterKind) -> (r: Parameters)
        ensures
            inserted(self.data().entries(), r.data().entries(), name@, kind),
    {
        Parameters { data: self.data.insert(String::from_str(name), kind) }
    }
    /// Adds a `bool` parameter.
    pub fn bool(self, name: &str, default: bool) -> (r: Parameters)
        ensures
            inserted(self.data().entries(), r.data().entries(), name@, ParameterKind::Bool { default }),
    {
        self.create_parameter(name, ParameterKind::Bool { default })
    }

    /// Adds a `u8` parameter without limits.
    pub fn u8(self, name: &str, default: u8) -> (r: Parameters)
        ensures
            inserted(self.data().entries(), r.data().entries(), name@, ParameterKind::U8 { default, min: u8::MAX, max: u8::MIN }),
    {
        self.create_parameter(name, ParameterKind::U8 { default, min: u8::MAX, max: u8::MIN })
    }

    /// Adds a `u8` parameter with limits.
    pub fn u8_with_limits(self, name: &str, default: u8, min: u8, max: u8) -> (r: Parameters)
        ensures
            inserted(self.data().entries(), r.data().entries(), name@, ParameterKind::U8 { default, min, max }),
    {
        self.create_parameter(name, ParameterKind::U8 { default, min, max })
    }

    /// Adds a `u16` parameter without limits.
    pub fn u16(self, name: &str, default: u16) -> (r: Parameters)
        ensures
            inserted(
                self.data().entries(),
                r.data().entries(),
                name@,
                ParameterKind::U16 { default, min: u16::MAX, max: u16::MIN },
            ),
    {
        self.create_parameter(name, ParameterKind::U16 { default, min: u16::MAX, max: u16::MIN })
    }

    /// Adds a `u16` parameter with limits.
    pub fn u16_with_limits(self, name: &str, default: u16, min: u16, max: u16) -> (r: Parameters)
        ensures
            inserted(self.data().entries(), r.data().entries(), name@, ParameterKind::U16 { default, min, max }),
    {
        self.create_parameter(name, ParameterKind::U16 { default, min, max })
    }

    /// Adds a `u32` parameter without limits.
    pub fn u32(self, name: &str, default: u32) -> (r: Parameters)
        ensures
            inserted(
                self.data().entries(),
                r.data().entries(),
                name@,
                ParameterKind::U32 { default, min: u32::MAX, max: u32::MIN },
            ),
    {
        self.create_parameter(name, ParameterKind::U32 { default, min: u32::MAX, max: u32::MIN })
    }

    /// Adds a `u32` parameter with limits.
    pub fn u32_with_limits(self, name: &str, default: u32, min: u32, max: u32) -> (r: Parameters)
        ensures
            inserted(self.data().entries(), r.data().entries(), name@, ParameterKind::U32 { default, min, max }),
    {
        self.create_parameter(name, ParameterKind::U32 { default, min, max })
    }

    /// Adds a `u64` parameter without limits.
    pub fn u64(self, name: &str, default: u64) -> (r: Parameters)
        ensures
            inserted(
                self.data().entries(),
                r.data().entries(),
                name@,
                ParameterKind::U64 { default, min: u64::MAX, max: u64::MIN },
            ),
    {
        self.create_parameter(name, ParameterKind::U64 { default, min: u64::MAX, max: u64::MIN })
    }

    /// Adds a `u64` parameter with limits.
    pub fn u64_with_limits(self, name: &str, default: u64, min: u64, max: u64) -> (r: Parameters)
        ensures
            inserted(self.data().entries(), r.data().entries(), name@, ParameterKind::U64 { default, min, max }),
    {
        self.create_parameter(name, ParameterKind::U64 { default, min, max })
    }

    /// Adds a single-precision parameter without limits; `default` is its
    /// decimal text.
    pub fn float32(self, name: &str, default: &str) -> (r: Parameters)
        ensures
            r.data().names() == self.data().names() || r.data().names() == self.data().names().push(name@),
            r.data().lookup(name@) matches Some(ParameterKind::F32 { default: d, min, max, step }) && d@
                == default@ && min@.len() == 0 && max@.len() == 0 && step@.len() == 0,
    {
        let kind = ParameterKind::F32 {
            default: String::from_str(default),
            min: String::new(),
            max: String::new(),
            step: String::new(),
        };
        let r = self.create_parameter(name, kind);
        proof {
            r.lemma_inserted(self, name@, kind);
        }
        r
    }

    /// Adds a single-precision parameter with limits, all given as decimal
    /// text.
    pub fn f32_with_limits(
        self,
        name: &str,
        default: &str,
        min: &str,
        max: &str,
        decimal_precision: DecimalPrecision,
    ) -> (r: Parameters)
        ensures
            r.data().names() == self.data().names() || r.data().names() == self.data().names().push(name@),
            r.data().lookup(name@) matches Some(ParameterKind::F32 { default: d, min: lo, max: hi, step })
                && d@ == default@ && lo@ == min@ && hi@ == max@ && step@
                == precision_step(decimal_precision),
    {
        let kind = ParameterKind::F32 {
            default: String::from_str(default),
            min: String::from_str(min),
            max: String::from_str(max),
            step: String::from_str(decimal_precision.step()),
        };
        let r = self.create_parameter(name, kind);
        proof {
            r.lemma_inserted(self, name@, kind);
        }
        r
    }

    /// Adds a double-precision parameter without limits; `default` is its
    /// decimal text.
    pub fn float64(self, name: &str, default: &str) -> (r: Parameters)
        ensures
            r.data().names() == self.data().names() || r.data().names() == self.data().names().push(name@),
            r.data().lookup(name@) matches Some(ParameterKind::F64 { default: d, min, max, step }) && d@
                == default@ && min@.len() == 0 && max@.len() == 0 && step@.len() == 0,
    {
        let kind = ParameterKind::F64 {
            default: String::from_str(default),
            min: String::new(),
            max: String::new(),
            step: String::new(),
        };
        let r = self.create_parameter(name, kind);
        proof {
            r.lemma_inserted(self, name@, kind);
        }
        r
    }

    /// Adds a double-precision parameter with limits, all given as decimal
    /// text.
    pub fn f64_with_limits(
        self,
        name: &str,
        default: &str,
        min: &str,
        max: &str,
        decimal_precision: DecimalPrecision,
    ) -> (r: Parameters)
        ensures
            r.data().names() == self.data().names() || r.data().names() == self.data().names().push(name@),
            r.data().lookup(name@) matches Some(ParameterKind::F64 { default: d, min: lo, max: hi, step })
                && d@ == default@ && lo@ == min@ && hi@ == max@ && step@
                == precision_step(decimal_precision),
    {
        let kind = ParameterKind::F64 {
            default: String::from_str(default),
            min: String::from_str(min),
            max: String::from_str(max),
            step: String::from_str(decimal_precision.step()),
        };
        let r = self.create_parameter(name, kind);
        proof {
            r.lemma_inserted(self, name@, kind);
        }
        r
    }

    /// Adds a `u32` range whose default is zero.
    pub fn rangeu32(self, name: &str, range: (u32, u32, u32)) -> (r: Parameters)
        ensures
            inserted(
                self.data().entries(),
                r.data().entries(),
                name@,
                ParameterKind::RangeU32 { min: range.0, max: range.1, step: range.2, default: 0 },
            ),
    {
        self.rangeu32_with_default(name, range, 0)
    }

    /// Adds a `u32` range with a default value.
    pub fn rangeu32_with_default(self, name: &str, range: (u32, u32, u32), default: u32) -> (r:
        Parameters)
        ensures
            inserted(
                self.data().entries(),
                r.data().entries(),
                name@,
                ParameterKind::RangeU32 { min: range.0, max: range.1, step: range.2, default },
            ),
    {
        self.create_parameter(
            name,
            ParameterKind::RangeU32 { min: range.0, max: range.1, step: range.2, default },
        )
    }

    /// Adds a `u64` range whose default is zero.
    pub fn rangeu64(self, name: &str, range: (u64, u64, u64)) -> (r: Parameters)
        ensures
            inserted(
                self.data().entries(),
                r.data().entries(),
                name@,
                ParameterKind::RangeU64 { min: range.0, max: range.1, step: range.2, default: 0 },
            ),
    {
        self.rangeu64_with_default(name, range, 0)
    }

    /// Adds a `u64` range with a default value.
    pub fn rangeu64_with_default(self, name: &str, range: (u64, u64, u64), default: u64) -> (r:
        Parameters)
        ensures
            inserted(
                self.data().entries(),
                r.data().entries(),
                name@,
                ParameterKind::RangeU64 { min: range.0, max: range.1, step: range.2, default },
            ),
    {
        self.create_parameter(
            name,
            ParameterKind::RangeU64 { min: range.0, max: range.1, step: range.2, default },
        )
    }

    /// Adds a double-precision range whose default is zero; the limits and
    /// the step are decimal text.
    pub fn rangef64(self, name: &str, range: (&str, &str, &str)) -> (r: Parameters)
        ensures
            r.data().names() == self.data().names() || r.data().names() == self.data().names().push(name@),
            r.data().lookup(name@) matches Some(ParameterKind::RangeF64 { min, max, step, default })
                && min@ == range.0@ && max@ == range.1@ && step@ == range.2@ && default@ == "0"@,
    {
        self.rangef64_with_default(name, range, "0")
    }

    /// Adds a double-precision range with a default value, all given as
    /// decimal text.
    pub fn rangef64_with_default(self, name: &str, range: (&str, &str, &str), default: &str) -> (r:
        Parameters)
        ensures
            r.data().names() == self.data().names() || r.data().names() == self.data().names().push(name@),
            r.data().lookup(name@) matches Some(ParameterKind::RangeF64 { min, max, step, default: d })
                && min@ == range.0@ && max@ == range.1@ && step@ == range.2@ && d@ == default@,
    {
        let kind = ParameterKind::RangeF64 {
            min: String::from_str(range.0),
            max: String::from_str(range.1),
            step: String::from_str(range.2),
            default: String::from_str(default),
        };
        let r = self.create_parameter(name, kind);
        proof {
            r.lemma_inserted(self, name@, kind);
        }
        r
    }

    /// Adds a characters sequence with a default text.
    pub fn characters_sequence(self, name: &str, default: &str) -> (r: Parameters)
        ensures
            r.data().names() == self.data().names() || r.data().names() == self.data().names().push(name@),
            r.data().lookup(name@) matches Some(ParameterKind::CharsSequence { default: d }) && d@
                == default@,
    {
        let kind = ParameterKind::CharsSequence { default: String::from_str(default) };
        let r = self.create_parameter(name, kind);
        proof {
            r.lemma_inserted(self, name@, kind);
        }
        r
    }

    proof fn lemma_inserted(&self, before: Parameters, name: Seq<char>, kind: ParameterKind)
        requires
            inserted(before.data().entries(), self.data().entries(), name, kind),
        ensures
            self.data().names() == before.data().names() || self.data().names()
                == before.data().names().push(name),
            self.data().lookup(name) == Some(kind),
    {
        lemma_inserted(before.data().entries(), self.data().entries(), name, kind);
    }

    /// Turns the builder into the parameters of a route.
    pub fn serialize_data(self) -> (r: ParametersData)
        ensures
            r == self.data(),
    {
        self.data
    }

    /// Whether no parameter was added.
    pub fn is_empty(&self) -> (r: bool)
        ensures
            r == (self.data().names().len() == 0),
    {
        self.data.is_empty()
    }
}

/// The parameter values given with a request: each name with its value, in
/// the order in which they were given.
#[derive(Debug, Clone, PartialEq)]
pub struct ParametersValues {
    map: IndexMap<String, ParameterValue>,
}

impl ParametersValues {
    /// Each given name with its value, in order.
    pub closed spec fn entries(&self) -> Seq<(Seq<char>, ParameterValue)> {
        value_entries(self.map)
    }

    /// The given names, in order.
    pub open spec fn names(&self) -> Seq<Seq<char>> {
        entry_names(self.entries())
    }

    /// The given values, in the order of their names.
    pub open spec fn values(&self) -> Seq<ParameterValue> {
        entry_values(self.entries())
    }

    /// The value given under `name`, if any.
    pub open spec fn lookup(&self, name: Seq<char>) -> Option<ParameterValue> {
        entries_lookup(self.entries(), name)
    }

    /// Names and values come in pairs.
    pub proof fn lemma_lengths(&self)
        ensures
            self.names().len() == self.values().len(),
            self.names().len() == self.entries().len(),
    {
    }

    /// Without any value, every name holds nothing.
    pub proof fn lemma_empty(&self)
        requires
            self.names().len() == 0,
        ensures
            forall|name: Seq<char>| #[trigger] self.lookup(name) is None,
    {
        assert forall|name: Seq<char>| #[trigger] self.lookup(name) is None by {
            assert(first_index(self.names(), name) == -1);
        }
    }

    /// Creates an empty set of values.
    pub fn new() -> (r: ParametersValues)
        ensures
            r.entries() == Seq::<(Seq<char>, ParameterValue)>::empty(),
    {
        ParametersValues { map: values_new() }
    }

    /// Gives a value to a parameter, in place of one given before.
    pub fn parameter_value(&mut self, name: &str, parameter_value: ParameterValue)
        ensures
            inserted(old(self).entries(), final(self).entries(), name@, parameter_value),
    {
        values_insert(&mut self.map, String::from_str(name), parameter_value);
    }

    /// Gives a `bool` value.
    pub fn bool(&mut self, name: &str, value: bool)
        ensures
            inserted(old(self).entries(), final(self).entries(), name@, ParameterValue::Bool(value)),
    {
        self.parameter_value(name, ParameterValue::Bool(value));
    }

    /// Gives a `u8` value.
    pub fn u8(&mut self, name: &str, value: u8)
        ensures
            inserted(old(self).entries(), final(self).entries(), name@, ParameterValue::U8(value)),
    {
        self.parameter_value(name, ParameterValue::U8(value));
    }

    /// Gives a `u16` value.
    pub fn u16(&mut self, name: &str, value: u16)
        ensures
            inserted(old(self).entries(), final(self).entries(), name@, ParameterValue::U16(value)),
    {
        self.parameter_value(name, ParameterValue::U16(value));
    }

    /// Gives a `u32` value.
    pub fn u32(&mut self, name: &str, value: u32)
        ensures
            inserted(old(self).entries(), final(self).entries(), name@, ParameterValue::U32(value)),
    {
        self.parameter_value(name, ParameterValue::U32(value));
    }

    /// Gives a `u64` value.
    pub fn u64(&mut self, name: &str, value: u64)
        ensures
            inserted(old(self).entries(), final(self).entries(), name@, ParameterValue::U64(value)),
    {
        self.parameter_value(name, ParameterValue::U64(value));
    }

    /// Gives a single-precision value as its decimal text.
    pub fn float32(&mut self, name: &str, value: &str)
        ensures
            exists|s: String|
                s@ == value@ && inserted(
                    old(self).entries(),
                    final(self).entries(),
                    name@,
                    ParameterValue::F32(s),
                ),
    {
        let v = ParameterValue::F32(String::from_str(value));
        self.parameter_value(name, v);
    }

    /// Gives a double-precision value as its decimal text.
    pub fn float64(&mut self, name: &str, value: &str)
        ensures
            exists|s: String|
                s@ == value@ && inserted(
                    old(self).entries(),
                    final(self).entries(),
                    name@,
                    ParameterValue::F64(s),
                ),
    {
        let v = ParameterValue::F64(String::from_str(value));
        self.parameter_value(name, v);
    }

    /// Gives a characters sequence.
    pub fn characters_sequence(&mut self, name: &str, value: String)
        ensures
            inserted(
                old(self).entries(),
                final(self).entries(),
                name@,
                ParameterValue::CharsSequence(value),
            ),
    {
        self.parameter_value(name, ParameterValue::CharsSequence(value));
    }

    /// The value given to the named parameter, if any.
    pub fn get(&self, name: &str) -> (r: Option<&ParameterValue>)
        ensures
            match r {
                Some(v) => self.lookup(name@) == Some(*v),
                None => self.lookup(name@) is None,
            },
    {
        values_get(&self.map, name)
    }

    /// Whether no value was given.
    pub fn is_empty(&self) -> (r: bool)
        ensures
            r == (self.names().len() == 0),
    {
        values_len(&self.map) == 0
    }

    /// The number of given values.
    pub fn len(&self) -> (r: usize)
        ensures
            r as nat == self.names().len(),
            r as nat == self.values().len(),
    {
        values_len(&self.map)
    }

    /// The name at position `i`.
    pub fn name_at(&self, i: usize) -> (r: &String)
        requires
            i < self.names().len(),
        ensures
            r@ == self.names()[i as int],
    {
        values_get_index(&self.map, i).unwrap().0
    }

    /// The value at position `i`.
    pub fn value_at(&self, i: usize) -> (r: &ParameterValue)
        requires
            i < self.values().len(),
        ensures
            *r == self.values()[i as int],
    {
        values_get_index(&self.map, i).unwrap().1
    }
}

} // verus!
