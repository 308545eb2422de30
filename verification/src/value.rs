//! Decoded values.
//!
//! One deserialization pass produces a tree of `Value`s: a pure value with no
//! pointers back into the source bytes, safe to hold after the pass. Its
//! mathematical model is `SpecValue`, reached through the view `@`.
//!
//! A 32-bit float field is carried as its raw bit pattern (`F32Bits`); the
//! interpretation of those bits is left to consumers.

use vstd::prelude::*;

verus! {

/// A typed record: the stream's type hash and version tag, then one decoded
/// value per declared field, in declaration order. A field whose version
/// threshold lies above the stream's version tag holds its default.
#[derive(Debug, PartialEq)]
pub struct ObjectValue {
    pub type_hash: u32,
    pub version: u32,
    pub fields: Vec<Value>,
}

/// A polymorphic attachment: a byte blob tagged at read time with a runtime
/// type hash, interpreted lazily through `downcast`.
#[derive(Debug, PartialEq)]
pub struct AttachmentValue {
    pub runtime_hash: u32,
    pub payload: Vec<u8>,
}

/// A decoded hash-coded enumeration value: the index of the arm that contains
/// the raw integer, and the offset of the raw integer within that arm.
#[derive(Debug, PartialEq, Eq, Clone, Copy, Structural)]
pub struct EnumValue {
    pub arm: usize,
    pub offset: u64,
}

/// A decoded dynamic value.
#[derive(Debug, PartialEq)]
pub enum Value {
    Bool(bool),
    U8(u8),
    U16(u16),
    U32(u32),
    I8(i8),
    I32(i32),
    /// The raw bits of a 32-bit float field.
    F32Bits(u32),
    /// A counted string, carried as its raw bytes.
    Str(Vec<u8>),
    /// An array of values.
    List(Vec<Value>),
    Object(ObjectValue),
    Attachment(AttachmentValue),
    EnumV(EnumValue),
}

/// The mathematical model of a decoded value.
pub enum SpecValue {
    Bool(bool),
    U8(u8),
    U16(u16),
    U32(u32),
    I8(i8),
    I32(i32),
    F32Bits(u32),
    Str(Seq<u8>),
    List(Seq<SpecValue>),
    Object { type_hash: u32, version: u32, fields: Seq<SpecValue> },
    Attachment { runtime_hash: u32, payload: Seq<u8> },
    EnumV { arm: int, offset: u64 },
}

/// The model of a value.
pub open spec fn value_view(v: Value) -> SpecValue
    decreases v via value_view_dec
{
    match v {
        Value::Bool(b) => SpecValue::Bool(b),
        Value::U8(x) => SpecValue::U8(x),
        Value::U16(x) => SpecValue::U16(x),
        Value::U32(x) => SpecValue::U32(x),
        Value::I8(x) => SpecValue::I8(x),
        Value::I32(x) => SpecValue::I32(x),
        Value::F32Bits(x) => SpecValue::F32Bits(x),
        Value::Str(s) => SpecValue::Str(s@),
        Value::List(vs) => SpecValue::List(
            Seq::new(
                vs@.len(),
                |i: int|
                    if 0 <= i < vs@.len() {
                        value_view(vs@[i])
                    } else {
                        SpecValue::Bool(false)
                    },
            ),
        ),
        Value::Object(ov) => SpecValue::Object {
            type_hash: ov.type_hash,
            version: ov.version,
            fields: Seq::new(
                ov.fields@.len(),
                |i: int|
                    if 0 <= i < ov.fields@.len() {
                        value_view(ov.fields@[i])
                    } else {
                        SpecValue::Bool(false)
                    },
            ),
        },
        Value::Attachment(av) => SpecValue::Attachment {
            runtime_hash: av.runtime_hash,
            payload: av.payload@,
        },
        Value::EnumV(ev) => SpecValue::EnumV { arm: ev.arm as int, offset: ev.offset },
    }
}

#[via_fn]
proof fn value_view_dec(v: Value) {
    match v {
        Value::List(vs) => {
            assert forall|i: int| 0 <= i < vs@.len() implies decreases_to!(v => vs@[i]) by {
                assert(decreases_to!(v => vs));
                assert(decreases_to!(vs => vs@));
                assert(decreases_to!(vs@ => vs@[i]));
            }
        },
        Value::Object(ov) => {
            assert forall|i: int| 0 <= i < ov.fields@.len() implies decreases_to!(
                v => ov.fields@[i],
            ) by {
                assert(decreases_to!(v => ov));
                assert(decreases_to!(ov => ov.fields));
                assert(decreases_to!(ov.fields => ov.fields@));
                assert(decreases_to!(ov.fields@ => ov.fields@[i]));
            }
        },
        _ => {},
    }
}

impl View for Value {
    type V = SpecValue;

    open spec fn view(&self) -> SpecValue {
        value_view(*self)
    }
}

impl Value {
    /// The record under this value, if it is one.
    pub fn as_object(&self) -> (r: Option<&ObjectValue>)
        ensures
            match r {
                Some(ov) => *self == Value::Object(*ov),
                None => !(*self is Object),
            },
    {
        match self {
            Value::Object(ov) => Some(ov),
            _ => None,
        }
    }

    /// The elements under this value, if it is a list.
    pub fn as_list(&self) -> (r: Option<&Vec<Value>>)
        ensures
            match r {
                Some(vs) => *self == Value::List(*vs),
                None => !(*self is List),
            },
    {
        match self {
            Value::List(vs) => Some(vs),
            _ => None,
        }
    }

    /// The raw bytes under this value, if it is a string.
    pub fn as_bytes(&self) -> (r: Option<&Vec<u8>>)
        ensures
            match r {
                Some(b) => *self == Value::Str(*b),
                None => !(*self is Str),
            },
    {
        match self {
            Value::Str(b) => Some(b),
            _ => None,
        }
    }

    /// The attachment under this value, if it is one.
    pub fn as_attachment(&self) -> (r: Option<&AttachmentValue>)
        ensures
            match r {
                Some(av) => *self == Value::Attachment(*av),
                None => !(*self is Attachment),
            },
    {
        match self {
            Value::Attachment(av) => Some(av),
            _ => None,
        }
    }
}

/// The models of a sequence of values, element by element.
pub open spec fn views_of(s: Seq<Value>) -> Seq<SpecValue> {
    Seq::new(s.len(), |i: int| value_view(s[i]))
}

/// A decoded list models as the list of its elements' models.
pub proof fn lemma_list_view(vs: Vec<Value>)
    ensures
        value_view(Value::List(vs)) == SpecValue::List(views_of(vs@)),
{
    let lhs = value_view(Value::List(vs));
    assert(lhs is List);
    assert(lhs->List_0 =~= views_of(vs@));
    assert(lhs == SpecValue::List(lhs->List_0));
}

/// A decoded record models as its tags and the models of its fields.
pub proof fn lemma_object_view(ov: ObjectValue)
    ensures
        value_view(Value::Object(ov)) == (SpecValue::Object {
            type_hash: ov.type_hash,
            version: ov.version,
            fields: views_of(ov.fields@),
        }),
{
    let lhs = value_view(Value::Object(ov));
    assert(lhs is Object);
    assert(lhs->fields =~= views_of(ov.fields@));
    assert(lhs == (SpecValue::Object {
        type_hash: lhs->type_hash,
        version: lhs->version,
        fields: lhs->fields,
    }));
}

} // verus!
