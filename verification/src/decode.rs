//! The object deserializer.
//!
//! `decode_object` reads a leading (type hash, version) tag, resolves the
//! hash through the registry — dispatching on the hash found in the stream,
//! not on what any caller expects — and decodes the declared fields in
//! order. A versioned field below the stream's version tag takes its
//! declared default and consumes no bytes. Each routine returns the position
//! just past the bytes it consumed: no overlap and no gap, so a whole pass
//! is pinned down by the spec-level decoder `spec_decode_object`, which maps
//! the same bytes and registry to the same value tree every time.
//!
//! Failure is explicit: reads past the end fail with `Truncated`, domain
//! violations with `InvalidField`, uncontained enumeration values with
//! `UnknownEnumValue`, and unregistered hashes with `UnknownType`; nothing
//! is ever silently coerced.

use crate::bytes::{le32, read_bytes, read_u16, read_u32, read_u8, spec_take_bytes, spec_take_u16,
    spec_take_u32, spec_take_u8};
use crate::error::DecodeError;
use crate::registry::{lemma_resolve_from, spec_find_arm, spec_resolve, ElemKind, EnumArm,
    EnumWidth, FieldDesc, FieldKind, Registry, RegistryV};
use crate::value::{value_view, views_of, AttachmentValue, EnumValue, ObjectValue, SpecValue, Value,
    lemma_list_view, lemma_object_view};
use vstd::prelude::*;

verus! {

/// The documented default of an element kind, taken by an absent versioned
/// field: zero for numbers and raw float bits, false for booleans, empty for
/// strings, the zero-tagged empty record for objects and attachments, and
/// the first arm at offset zero for enumerations.
pub open spec fn spec_default_elem(ek: ElemKind) -> SpecValue {
    match ek {
        ElemKind::Bool => SpecValue::Bool(false),
        ElemKind::U8 => SpecValue::U8(0),
        ElemKind::U16 => SpecValue::U16(0),
        ElemKind::U32 => SpecValue::U32(0),
        ElemKind::I8 => SpecValue::I8(0),
        ElemKind::I32 => SpecValue::I32(0),
        ElemKind::F32Raw => SpecValue::F32Bits(0),
        ElemKind::Str => SpecValue::Str(Seq::empty()),
        ElemKind::Enum(_) => SpecValue::EnumV { arm: 0, offset: 0 },
        ElemKind::Object => SpecValue::Object {
            type_hash: 0,
            version: 0,
            fields: Seq::empty(),
        },
        ElemKind::Attachment => SpecValue::Attachment {
            runtime_hash: 0,
            payload: Seq::empty(),
        },
    }
}

/// The documented default of a field kind: the element default for an atom,
/// the empty list for a counted array, a list of element defaults for a
/// fixed-size array.
pub open spec fn spec_default_value(k: FieldKind) -> SpecValue {
    match k {
        FieldKind::Atom(e) => spec_default_elem(e),
        FieldKind::Array(_) => SpecValue::List(Seq::empty()),
        FieldKind::FixedArray(e, n) => SpecValue::List(
            Seq::new(n as nat, |i: int| spec_default_elem(e)),
        ),
    }
}

/// What reading an enumeration's raw integer of the given width yields,
/// zero-extended.
pub open spec fn spec_read_raw(s: Seq<u8>, pos: int, w: EnumWidth) -> Result<
    (u64, int),
    DecodeError,
> {
    match w {
        EnumWidth::U8 => match spec_take_u8(s, pos) {
            Ok((v, p)) => Ok((v as u64, p)),
            Err(e) => Err(e),
        },
        EnumWidth::U16 => match spec_take_u16(s, pos) {
            Ok((v, p)) => Ok((v as u64, p)),
            Err(e) => Err(e),
        },
        EnumWidth::U32 => match spec_take_u32(s, pos) {
            Ok((v, p)) => Ok((v as u64, p)),
            Err(e) => Err(e),
        },
    }
}

/// What decoding one element of the given kind at `pos` yields.
pub open spec fn spec_decode_atom(reg: RegistryV, s: Seq<u8>, ek: ElemKind, pos: int) -> Result<
    (SpecValue, int),
    DecodeError,
>
    decreases s.len() - pos, 1int, 0int,
{
    match ek {
        ElemKind::Bool => match spec_take_u8(s, pos) {
            Ok((b, p)) => if b == 0 {
                Ok((SpecValue::Bool(false), p))
            } else if b == 1 {
                Ok((SpecValue::Bool(true), p))
            } else {
                Err(DecodeError::InvalidField(pos as usize))
            },
            Err(e) => Err(e),
        },
        ElemKind::U8 => match spec_take_u8(s, pos) {
            Ok((v, p)) => Ok((SpecValue::U8(v), p)),
            Err(e) => Err(e),
        },
        ElemKind::U16 => match spec_take_u16(s, pos) {
            Ok((v, p)) => Ok((SpecValue::U16(v), p)),
            Err(e) => Err(e),
        },
        ElemKind::U32 => match spec_take_u32(s, pos) {
            Ok((v, p)) => Ok((SpecValue::U32(v), p)),
            Err(e) => Err(e),
        },
        ElemKind::I8 => match spec_take_u8(s, pos) {
            Ok((v, p)) => Ok((SpecValue::I8(v as i8), p)),
            Err(e) => Err(e),
        },
        ElemKind::I32 => match spec_take_u32(s, pos) {
            Ok((v, p)) => Ok((SpecValue::I32(v as i32), p)),
            Err(e) => Err(e),
        },
        ElemKind::F32Raw => match spec_take_u32(s, pos) {
            Ok((v, p)) => Ok((SpecValue::F32Bits(v), p)),
            Err(e) => Err(e),
        },
        ElemKind::Str => match spec_take_u32(s, pos) {
            Ok((n, p)) => match spec_take_bytes(s, p, n as int) {
                Ok((b, p2)) => Ok((SpecValue::Str(b), p2)),
                Err(e) => Err(e),
            },
            Err(e) => Err(e),
        },
        ElemKind::Enum(t) => if t >= reg.enums.len() {
            Err(DecodeError::InvalidField(pos as usize))
        } else {
            match spec_read_raw(s, pos, reg.enums[t as int].width) {
                Ok((raw, p)) => match spec_find_arm(reg.enums[t as int].arms, raw, 0) {
                    Some((a, off)) => Ok((SpecValue::EnumV { arm: a, offset: off }, p)),
                    None => Err(DecodeError::UnknownEnumValue(raw, pos as usize)),
                },
                Err(e) => Err(e),
            }
        },
        ElemKind::Object => spec_decode_object(reg, s, pos),
        ElemKind::Attachment => match spec_take_u32(s, pos) {
            Ok((h, p)) => match spec_take_u32(s, p) {
                Ok((n, p2)) => match spec_take_bytes(s, p2, n as int) {
                    Ok((b, p3)) => Ok(
                        (SpecValue::Attachment { runtime_hash: h, payload: b }, p3),
                    ),
                    Err(e) => Err(e),
                },
                Err(e) => Err(e),
            },
            Err(e) => Err(e),
        },
    }
}

/// What decoding `count` consecutive elements at `pos` yields: the decoded
/// sequence, failing fast on the first element that fails.
pub open spec fn spec_decode_elems(
    reg: RegistryV,
    s: Seq<u8>,
    ek: ElemKind,
    count: int,
    pos: int,
) -> Result<(Seq<SpecValue>, int), DecodeError>
    decreases s.len() - pos, 2int, count,
{
    if count <= 0 {
        Ok((Seq::empty(), pos))
    } else {
        match spec_decode_atom(reg, s, ek, pos) {
            Ok((v, p)) => if pos <= p <= s.len() {
                match spec_decode_elems(reg, s, ek, count - 1, p) {
                    Ok((vs, end)) => Ok((seq![v] + vs, end)),
                    Err(e) => Err(e),
                }
            } else {
                // Decoding never moves backwards or past the end; this
                // branch is outside the reachable range of `p`.
                Err(DecodeError::Truncated(pos as usize))
            },
            Err(e) => Err(e),
        }
    }
}

/// What decoding one declared field at `pos` yields: the element itself, a
/// counted array, or a fixed-size array.
pub open spec fn spec_decode_value(reg: RegistryV, s: Seq<u8>, kind: FieldKind, pos: int) -> Result<
    (SpecValue, int),
    DecodeError,
>
    decreases s.len() - pos, 3int, 0int,
{
    match kind {
        FieldKind::Atom(ek) => spec_decode_atom(reg, s, ek, pos),
        FieldKind::Array(ek) => if pos + 4 <= s.len() && 0 <= pos {
            match spec_decode_elems(reg, s, ek, le32(s, pos) as int, pos + 4) {
                Ok((vs, end)) => Ok((SpecValue::List(vs), end)),
                Err(e) => Err(e),
            }
        } else {
            Err(DecodeError::Truncated(pos as usize))
        },
        FieldKind::FixedArray(ek, n) => match spec_decode_elems(reg, s, ek, n as int, pos) {
            Ok((vs, end)) => Ok((SpecValue::List(vs), end)),
            Err(e) => Err(e),
        },
    }
}

/// What decoding the declared fields from index `i` on yields, under the
/// stream's `version` tag: one value per field, where a field introduced
/// above `version` contributes its default and consumes nothing.
pub open spec fn spec_decode_fields(
    reg: RegistryV,
    s: Seq<u8>,
    fields: Seq<FieldDesc>,
    version: u32,
    i: int,
    pos: int,
) -> Result<(Seq<SpecValue>, int), DecodeError>
    decreases s.len() - pos, 4int, fields.len() - i,
{
    if i < 0 || i >= fields.len() {
        Ok((Seq::empty(), pos))
    } else if version >= fields[i].min_version {
        match spec_decode_value(reg, s, fields[i].kind, pos) {
            Ok((v, p)) => if pos <= p <= s.len() {
                match spec_decode_fields(reg, s, fields, version, i + 1, p) {
                    Ok((vs, end)) => Ok((seq![v] + vs, end)),
                    Err(e) => Err(e),
                }
            } else {
                // Decoding never moves backwards or past the end; this
                // branch is outside the reachable range of `p`.
                Err(DecodeError::Truncated(pos as usize))
            },
            Err(e) => Err(e),
        }
    } else {
        match spec_decode_fields(reg, s, fields, version, i + 1, pos) {
            Ok((vs, end)) => Ok((seq![spec_default_value(fields[i].kind)] + vs, end)),
            Err(e) => Err(e),
        }
    }
}

/// What decoding one object at `pos` yields: its (type hash, version) tag,
/// then its fields under the layout registered for the hash found in the
/// stream.
pub open spec fn spec_decode_object(reg: RegistryV, s: Seq<u8>, pos: int) -> Result<
    (SpecValue, int),
    DecodeError,
>
    decreases s.len() - pos, 0int, 0int,
{
    if 0 <= pos && pos + 8 <= s.len() {
        let hash = le32(s, pos);
        let version = le32(s, pos + 4);
        match spec_resolve(reg, hash) {
            Ok(t) => match spec_decode_fields(reg, s, reg.types[t].fields, version, 0, pos + 8) {
                Ok((vals, end)) => Ok(
                    (SpecValue::Object { type_hash: hash, version, fields: vals }, end),
                ),
                Err(e) => Err(e),
            },
            Err(e) => Err(e),
        }
    } else {
        Err(DecodeError::Truncated(pos as usize))
    }
}

/// What decoding a whole byte range as one object yields: the object, which
/// must account for every byte of the range.
pub open spec fn spec_decode_root(reg: RegistryV, s: Seq<u8>) -> Result<SpecValue, DecodeError> {
    match spec_decode_object(reg, s, 0) {
        Ok((v, end)) => if end == s.len() {
            Ok(v)
        } else {
            Err(DecodeError::InvalidField(end as usize))
        },
        Err(e) => Err(e),
    }
}

/// What probing an attachment for the type with registered hash `want`
/// yields: no value when the runtime hash differs (the expected outcome of
/// probing, not an error), the decoded payload when it matches.
pub open spec fn spec_downcast(
    reg: RegistryV,
    runtime_hash: u32,
    payload: Seq<u8>,
    want: u32,
) -> Result<Option<SpecValue>, DecodeError> {
    if runtime_hash != want {
        Ok(None)
    } else {
        match spec_decode_root(reg, payload) {
            Ok(v) => Ok(Some(v)),
            Err(e) => Err(e),
        }
    }
}

/// The exec result `r` realizes the spec outcome `sp`, with its final
/// position inside `[lo, hi]`.
pub open spec fn val_agrees(
    r: Result<(Value, usize), DecodeError>,
    sp: Result<(SpecValue, int), DecodeError>,
    lo: int,
    hi: int,
) -> bool {
    match r {
        Ok((v, p)) => sp == Ok::<_, DecodeError>((value_view(v), p as int)) && lo <= p as int <= hi,
        Err(e) => sp == Err::<(SpecValue, int), _>(e),
    }
}

/// The default value of an element kind.
fn default_elem(ek: ElemKind) -> (r: Value)
    ensures
        r@ == spec_default_elem(ek),
{
    match ek {
        ElemKind::Bool => Value::Bool(false),
        ElemKind::U8 => Value::U8(0),
        ElemKind::U16 => Value::U16(0),
        ElemKind::U32 => Value::U32(0),
        ElemKind::I8 => Value::I8(0),
        ElemKind::I32 => Value::I32(0),
        ElemKind::F32Raw => Value::F32Bits(0),
        ElemKind::Str => Value::Str(Vec::new()),
        ElemKind::Enum(_) => Value::EnumV(EnumValue { arm: 0, offset: 0 }),
        ElemKind::Object => {
            let ov = ObjectValue { type_hash: 0, version: 0, fields: Vec::new() };
            proof {
                lemma_object_view(ov);
                assert(views_of(ov.fields@) =~= Seq::<SpecValue>::empty());
            }
            Value::Object(ov)
        },
        ElemKind::Attachment => Value::Attachment(
            AttachmentValue { runtime_hash: 0, payload: Vec::new() },
        ),
    }
}

/// The default value of a field kind.
fn default_value(k: FieldKind) -> (r: Value)
    ensures
        r@ == spec_default_value(k),
{
    match k {
        FieldKind::Atom(e) => default_elem(e),
        FieldKind::Array(_) => {
            let vs: Vec<Value> = Vec::new();
            proof {
                lemma_list_view(vs);
                assert(views_of(vs@) =~= Seq::<SpecValue>::empty());
            }
            Value::List(vs)
        },
        FieldKind::FixedArray(e, n) => {
            let mut vs: Vec<Value> = Vec::new();
            let mut i: usize = 0;
            while i < n
                invariant
                    i <= n,
                    vs@.len() == i,
                    views_of(vs@) == Seq::new(i as nat, |j: int| spec_default_elem(e)),
                decreases n - i,
            {
                let d = default_elem(e);
                let ghost prev = vs@;
                vs.push(d);
                i = i + 1;
                proof {
                    assert forall|j: int| 0 <= j < i implies views_of(vs@)[j]
                        == spec_default_elem(e) by {
                        if j < i - 1 {
                            assert(vs@[j] == prev[j]);
                            assert(views_of(prev)[j] == value_view(prev[j]));
                        } else {
                            assert(vs@[j] == d);
                        }
                    }
                    assert(views_of(vs@) =~= Seq::new(i as nat, |j: int| spec_default_elem(e)));
                }
            }
            proof {
                lemma_list_view(vs);
                assert(views_of(vs@) =~= Seq::new(n as nat, |j: int| spec_default_elem(e)));
            }
            Value::List(vs)
        },
    }
}

/// Read an enumeration's raw integer of the given width, zero-extended.
fn read_raw(data: &[u8], pos: usize, w: EnumWidth) -> (r: Result<(u64, usize), DecodeError>)
    requires
        pos <= data@.len(),
    ensures
        match r {
            Ok((v, p)) => spec_read_raw(data@, pos as int, w) == Ok::<_, DecodeError>((v, p as int))
                && pos <= p <= data@.len(),
            Err(e) => spec_read_raw(data@, pos as int, w) == Err::<(u64, int), _>(e),
        },
{
    match w {
        EnumWidth::U8 => match read_u8(data, pos) {
            Ok((v, p)) => Ok((v as u64, p)),
            Err(e) => Err(e),
        },
        EnumWidth::U16 => match read_u16(data, pos) {
            Ok((v, p)) => Ok((v as u64, p)),
            Err(e) => Err(e),
        },
        EnumWidth::U32 => match read_u32(data, pos) {
            Ok((v, p)) => Ok((v as u64, p)),
            Err(e) => Err(e),
        },
    }
}

/// Find the arm containing a raw value, in declaration order.
fn find_arm(arms: &Vec<EnumArm>, raw: u64) -> (r: Option<(usize, u64)>)
    ensures
        match r {
            Some((a, off)) => spec_find_arm(arms@, raw, 0) == Some((a as int, off)),
            None => spec_find_arm(arms@, raw, 0) is None,
        },
{
    let mut i: usize = 0;
    while i < arms.len()
        invariant
            i <= arms@.len(),
            spec_find_arm(arms@, raw, 0) == spec_find_arm(arms@, raw, i as int),
        decreases arms@.len() - i,
    {
        if arms[i].first <= raw && raw <= arms[i].last {
            return Some((i, raw - arms[i].first));
        }
        i = i + 1;
    }
    None
}

/// Decode one element of the given kind at `pos`.
fn decode_atom(reg: &Registry, data: &[u8], ek: ElemKind, pos: usize) -> (r: Result<
    (Value, usize),
    DecodeError,
>)
    requires
        pos <= data@.len(),
    ensures
        val_agrees(r, spec_decode_atom(reg@, data@, ek, pos as int), pos as int, data@.len() as int),
    decreases data@.len() - pos, 1int, 0int,
{
    match ek {
        ElemKind::Bool => match read_u8(data, pos) {
            Ok((b, p)) => if b == 0 {
                Ok((Value::Bool(false), p))
            } else if b == 1 {
                Ok((Value::Bool(true), p))
            } else {
                Err(DecodeError::InvalidField(pos))
            },
            Err(e) => Err(e),
        },
        ElemKind::U8 => match read_u8(data, pos) {
            Ok((v, p)) => Ok((Value::U8(v), p)),
            Err(e) => Err(e),
        },
        ElemKind::U16 => match read_u16(data, pos) {
            Ok((v, p)) => Ok((Value::U16(v), p)),
            Err(e) => Err(e),
        },
        ElemKind::U32 => match read_u32(data, pos) {
            Ok((v, p)) => Ok((Value::U32(v), p)),
            Err(e) => Err(e),
        },
        ElemKind::I8 => match read_u8(data, pos) {
            Ok((v, p)) => Ok((Value::I8(v as i8), p)),
            Err(e) => Err(e),
        },
        ElemKind::I32 => match read_u32(data, pos) {
            Ok((v, p)) => Ok((Value::I32(v as i32), p)),
            Err(e) => Err(e),
        },
        ElemKind::F32Raw => match read_u32(data, pos) {
            Ok((v, p)) => Ok((Value::F32Bits(v), p)),
            Err(e) => Err(e),
        },
        ElemKind::Str => match read_u32(data, pos) {
            Ok((n, p)) => match read_bytes(data, p, n as usize) {
                Ok((b, p2)) => Ok((Value::Str(b), p2)),
                Err(e) => Err(e),
            },
            Err(e) => Err(e),
        },
        ElemKind::Enum(t) => {
            if t >= reg.enums.len() {
                return Err(DecodeError::InvalidField(pos));
            }
            let ed = &reg.enums[t];
            proof {
                assert(reg@.enums[t as int] == reg.enums@[t as int]@);
            }
            match read_raw(data, pos, ed.width) {
                Ok((raw, p)) => match find_arm(&ed.arms, raw) {
                    Some((a, off)) => Ok((Value::EnumV(EnumValue { arm: a, offset: off }), p)),
                    None => Err(DecodeError::UnknownEnumValue(raw, pos)),
                },
                Err(e) => Err(e),
            }
        },
        ElemKind::Object => decode_object(reg, data, pos),
        ElemKind::Attachment => match read_u32(data, pos) {
            Ok((h, p)) => match read_u32(data, p) {
                Ok((n, p2)) => match read_bytes(data, p2, n as usize) {
                    Ok((b, p3)) => Ok(
                        (Value::Attachment(AttachmentValue { runtime_hash: h, payload: b }), p3),
                    ),
                    Err(e) => Err(e),
                },
                Err(e) => Err(e),
            },
            Err(e) => Err(e),
        },
    }
}

/// Decode `count` consecutive elements at `pos`, appending them to `out`.
fn decode_elems(
    reg: &Registry,
    data: &[u8],
    ek: ElemKind,
    count: usize,
    pos: usize,
    out: &mut Vec<Value>,
) -> (r: Result<usize, DecodeError>)
    requires
        pos <= data@.len(),
    ensures
        match spec_decode_elems(reg@, data@, ek, count as int, pos as int) {
            Ok((vs, end)) => {
                &&& r matches Ok(p) && p as int == end && pos <= p <= data@.len()
                &&& views_of(final(out)@) == views_of(old(out)@) + vs
            },
            Err(e) => r == Err::<usize, DecodeError>(e),
        },
    decreases data@.len() - pos, 2int, count,
{
    if count == 0 {
        proof {
            assert(views_of(final(out)@) =~= views_of(old(out)@) + Seq::<SpecValue>::empty());
        }
        return Ok(pos);
    }
    match decode_atom(reg, data, ek, pos) {
        Ok((v, p)) => {
            let ghost mid = out@;
            out.push(v);
            proof {
                assert(views_of(out@) =~= views_of(mid) + seq![value_view(v)]);
            }
            match decode_elems(reg, data, ek, count - 1, p, out) {
                Ok(end) => {
                    proof {
                        let sp = spec_decode_atom(reg@, data@, ek, pos as int);
                        let rest = spec_decode_elems(reg@, data@, ek, count - 1, p as int);
                        if rest is Ok {
                            let (vs, e2) = rest->Ok_0;
                            assert(views_of(final(out)@) =~= views_of(old(out)@) + (seq![
                                value_view(v),
                            ] + vs));
                        }
                    }
                    Ok(end)
                },
                Err(e) => Err(e),
            }
        },
        Err(e) => Err(e),
    }
}

/// Decode the declared fields from index `i` on under the stream's version
/// tag, appending their values to `out`.
fn decode_fields(
    reg: &Registry,
    data: &[u8],
    fields: &Vec<FieldDesc>,
    version: u32,
    i: usize,
    pos: usize,
    out: &mut Vec<Value>,
) -> (r: Result<usize, DecodeError>)
    requires
        pos <= data@.len(),
        i <= fields@.len(),
    ensures
        match spec_decode_fields(reg@, data@, fields@, version, i as int, pos as int) {
            Ok((vs, end)) => {
                &&& r matches Ok(p) && p as int == end && pos <= p <= data@.len()
                &&& views_of(final(out)@) == views_of(old(out)@) + vs
            },
            Err(e) => r == Err::<usize, DecodeError>(e),
        },
    decreases data@.len() - pos, 4int, fields@.len() - i,
{
    if i == fields.len() {
        proof {
            assert(views_of(final(out)@) =~= views_of(old(out)@) + Seq::<SpecValue>::empty());
        }
        return Ok(pos);
    }
    let fd = fields[i];
    if version >= fd.min_version {
        match decode_value(reg, data, fd.kind, pos) {
            Ok((v, p)) => {
                let ghost mid = out@;
                out.push(v);
                proof {
                    assert(views_of(out@) =~= views_of(mid) + seq![value_view(v)]);
                }
                match decode_fields(reg, data, fields, version, i + 1, p, out) {
                    Ok(end) => {
                        proof {
                            let rest = spec_decode_fields(
                                reg@,
                                data@,
                                fields@,
                                version,
                                i + 1,
                                p as int,
                            );
                            if rest is Ok {
                                let (vs, e2) = rest->Ok_0;
                                assert(views_of(final(out)@) =~= views_of(old(out)@) + (seq![
                                    value_view(v),
                                ] + vs));
                            }
                        }
                        Ok(end)
                    },
                    Err(e) => Err(e),
                }
            },
            Err(e) => Err(e),
        }
    } else {
        let v = default_value(fd.kind);
        let ghost mid = out@;
        out.push(v);
        proof {
            assert(views_of(out@) =~= views_of(mid) + seq![value_view(v)]);
        }
        match decode_fields(reg, data, fields, version, i + 1, pos, out) {
            Ok(end) => {
                proof {
                    let rest = spec_decode_fields(reg@, data@, fields@, version, i + 1, pos as int);
                    if rest is Ok {
                        let (vs, e2) = rest->Ok_0;
                        assert(views_of(final(out)@) =~= views_of(old(out)@) + (seq![
                            spec_default_value(fields@[i as int].kind),
                        ] + vs));
                    }
                }
                Ok(end)
            },
            Err(e) => Err(e),
        }
    }
}

/// Decode one declared field at `pos`.
fn decode_value(reg: &Registry, data: &[u8], kind: FieldKind, pos: usize) -> (r: Result<
    (Value, usize),
    DecodeError,
>)
    requires
        pos <= data@.len(),
    ensures
        val_agrees(
            r,
            spec_decode_value(reg@, data@, kind, pos as int),
            pos as int,
            data@.len() as int,
        ),
    decreases data@.len() - pos, 3int, 0int,
{
    match kind {
        FieldKind::Atom(ek) => decode_atom(reg, data, ek, pos),
        FieldKind::Array(ek) => match read_u32(data, pos) {
            Ok((n, p)) => {
                let mut vs: Vec<Value> = Vec::new();
                match decode_elems(reg, data, ek, n as usize, p, &mut vs) {
                    Ok(end) => {
                        proof {
                            lemma_list_view(vs);
                            let sp = spec_decode_elems(
                                reg@,
                                data@,
                                ek,
                                n as int,
                                pos + 4,
                            );
                            if sp is Ok {
                                assert(views_of(vs@) =~= sp->Ok_0.0);
                            }
                        }
                        Ok((Value::List(vs), end))
                    },
                    Err(e) => Err(e),
                }
            },
            Err(e) => Err(e),
        },
        FieldKind::FixedArray(ek, n) => {
            let mut vs: Vec<Value> = Vec::new();
            match decode_elems(reg, data, ek, n, pos, &mut vs) {
                Ok(end) => {
                    proof {
                        lemma_list_view(vs);
                        let sp = spec_decode_elems(reg@, data@, ek, n as int, pos as int);
                        if sp is Ok {
                            assert(views_of(vs@) =~= sp->Ok_0.0);
                        }
                    }
                    Ok((Value::List(vs), end))
                },
                Err(e) => Err(e),
            }
        },
    }
}

/// Decode one object at `pos`: read the (type hash, version) tag, resolve
/// the hash found in the stream, decode the registered fields. Returns the
/// object and the position just past the bytes it consumed; fails with
/// `UnknownType` on a registry gap and with the field's own error on
/// malformed data.
pub fn decode_object(reg: &Registry, data: &[u8], pos: usize) -> (r: Result<
    (Value, usize),
    DecodeError,
>)
    requires
        pos <= data@.len(),
    ensures
        val_agrees(
            r,
            spec_decode_object(reg@, data@, pos as int),
            pos as int,
            data@.len() as int,
        ),
    decreases data@.len() - pos, 0int, 0int,
{
    if data.len() - pos < 8 {
        return Err(DecodeError::Truncated(pos));
    }
    let (hash, p1) = match read_u32(data, pos) {
        Ok(x) => x,
        Err(e) => return Err(e),
    };
    let (version, p2) = match read_u32(data, p1) {
        Ok(x) => x,
        Err(e) => return Err(e),
    };
    let t = match reg.resolve(hash) {
        Ok(t) => t,
        Err(e) => return Err(e),
    };
    proof {
        lemma_resolve_from(reg@.types, hash, 0);
        assert(reg@.types[t as int] == reg.types@[t as int]@);
    }
    let fields = &reg.types[t].fields;
    let mut vals: Vec<Value> = Vec::new();
    match decode_fields(reg, data, fields, version, 0, p2, &mut vals) {
        Ok(end) => {
            let ov = ObjectValue { type_hash: hash, version, fields: vals };
            proof {
                lemma_object_view(ov);
                let sp = spec_decode_fields(reg@, data@, fields@, version, 0, pos + 8);
                if sp is Ok {
                    assert(views_of(ov.fields@) =~= sp->Ok_0.0);
                }
            }
            Ok((Value::Object(ov), end))
        },
        Err(e) => Err(e),
    }
}

/// Decode `count` consecutive elements, the count supplied by the caller
/// (read from the stream by an enclosing field, or known out of band).
/// Fails fast on the first element's failure; no partial result survives.
pub fn decode_array(reg: &Registry, data: &[u8], pos: usize, ek: ElemKind, count: usize) -> (r:
    Result<(Vec<Value>, usize), DecodeError>)
    requires
        pos <= data@.len(),
    ensures
        match spec_decode_elems(reg@, data@, ek, count as int, pos as int) {
            Ok((vs, end)) => {
                &&& r matches Ok(x) && views_of(x.0@) == vs && x.1 as int == end && pos <= x.1
                    <= data@.len()
            },
            Err(e) => r == Err::<(Vec<Value>, usize), DecodeError>(e),
        },
{
    let mut vs: Vec<Value> = Vec::new();
    match decode_elems(reg, data, ek, count, pos, &mut vs) {
        Ok(end) => {
            proof {
                let sp = spec_decode_elems(reg@, data@, ek, count as int, pos as int);
                if sp is Ok {
                    assert(views_of(vs@) =~= sp->Ok_0.0);
                }
            }
            Ok((vs, end))
        },
        Err(e) => Err(e),
    }
}

/// Decode a whole byte range as one object; every byte must be accounted
/// for.
pub fn decode_root(reg: &Registry, data: &[u8]) -> (r: Result<Value, DecodeError>)
    ensures
        match r {
            Ok(v) => spec_decode_root(reg@, data@) == Ok::<_, DecodeError>(v@),
            Err(e) => spec_decode_root(reg@, data@) == Err::<SpecValue, _>(e),
        },
{
    match decode_object(reg, data, 0) {
        Ok((v, end)) => if end == data.len() {
            Ok(v)
        } else {
            Err(DecodeError::InvalidField(end))
        },
        Err(e) => Err(e),
    }
}

/// Probe an attachment for the type with registered hash `want`.
///
/// A runtime hash that differs from `want` is no error: it is the expected,
/// frequent outcome of probing several candidate types against the same
/// attachment, and yields `Ok(None)`. Only on a hash match is the payload
/// decoded, and only then can decoding fail.
pub fn downcast(reg: &Registry, att: &AttachmentValue, want: u32) -> (r: Result<
    Option<Value>,
    DecodeError,
>)
    ensures
        match r {
            Ok(Some(v)) => spec_downcast(reg@, att.runtime_hash, att.payload@, want) == Ok::<
                _,
                DecodeError,
            >(Some(v@)),
            Ok(None) => spec_downcast(reg@, att.runtime_hash, att.payload@, want) == Ok::<
                Option<SpecValue>,
                DecodeError,
            >(None) && att.runtime_hash != want,
            Err(e) => spec_downcast(reg@, att.runtime_hash, att.payload@, want) == Err::<
                Option<SpecValue>,
                _,
            >(e),
        },
{
    if att.runtime_hash != want {
        return Ok(None);
    }
    match decode_root(reg, att.payload.as_slice()) {
        Ok(v) => Ok(Some(v)),
        Err(e) => Err(e),
    }
}


/// A presence threshold is monotone by construction: a field read at one
/// version is read at every later version, within one descriptor's range.
pub proof fn lemma_presence_monotone(fd: FieldDesc, v1: u32, v2: u32)
    requires
        v1 <= v2,
        v1 >= fd.min_version,
    ensures
        v2 >= fd.min_version,
{
}

/// A decoded element ends inside the bytes and past its start.
pub proof fn lemma_atom_advances(reg: RegistryV, s: Seq<u8>, ek: ElemKind, pos: int)
    requires
        spec_decode_atom(reg, s, ek, pos) is Ok,
    ensures
        pos < spec_decode_atom(reg, s, ek, pos)->Ok_0.1 <= s.len(),
    decreases s.len() - pos, 1int, 0int,
{
    match ek {
        ElemKind::Object => {
            lemma_object_advances(reg, s, pos);
        },
        _ => {},
    }
}

/// Decoded elements end inside the bytes, at or past their start.
pub proof fn lemma_elems_advance(reg: RegistryV, s: Seq<u8>, ek: ElemKind, count: int, pos: int)
    requires
        spec_decode_elems(reg, s, ek, count, pos) is Ok,
        pos <= s.len(),
    ensures
        pos <= spec_decode_elems(reg, s, ek, count, pos)->Ok_0.1 <= s.len(),
    decreases s.len() - pos, 2int, count,
{
    if count > 0 {
        let (v, p) = spec_decode_atom(reg, s, ek, pos)->Ok_0;
        lemma_atom_advances(reg, s, ek, pos);
        lemma_elems_advance(reg, s, ek, count - 1, p);
    }
}

/// A decoded field value ends inside the bytes, at or past its start.
pub proof fn lemma_value_advances(reg: RegistryV, s: Seq<u8>, kind: FieldKind, pos: int)
    requires
        spec_decode_value(reg, s, kind, pos) is Ok,
        pos <= s.len(),
    ensures
        pos <= spec_decode_value(reg, s, kind, pos)->Ok_0.1 <= s.len(),
    decreases s.len() - pos, 3int, 0int,
{
    match kind {
        FieldKind::Atom(ek) => {
            lemma_atom_advances(reg, s, ek, pos);
        },
        FieldKind::Array(ek) => {
            lemma_elems_advance(reg, s, ek, le32(s, pos) as int, pos + 4);
        },
        FieldKind::FixedArray(ek, n) => {
            lemma_elems_advance(reg, s, ek, n as int, pos);
        },
    }
}

/// Decoded fields end inside the bytes, at or past their start.
pub proof fn lemma_fields_advance(
    reg: RegistryV,
    s: Seq<u8>,
    fields: Seq<FieldDesc>,
    version: u32,
    i: int,
    pos: int,
)
    requires
        spec_decode_fields(reg, s, fields, version, i, pos) is Ok,
        pos <= s.len(),
    ensures
        pos <= spec_decode_fields(reg, s, fields, version, i, pos)->Ok_0.1 <= s.len(),
    decreases s.len() - pos, 4int, fields.len() - i,
{
    if 0 <= i < fields.len() {
        if version >= fields[i].min_version {
            let (v, p) = spec_decode_value(reg, s, fields[i].kind, pos)->Ok_0;
            lemma_value_advances(reg, s, fields[i].kind, pos);
            lemma_fields_advance(reg, s, fields, version, i + 1, p);
        } else {
            lemma_fields_advance(reg, s, fields, version, i + 1, pos);
        }
    }
}

/// The cursor discipline at the object level: a decoded object accounts
/// for its eight tag bytes and everything its fields consumed, ending
/// inside the bytes — no overlap with what preceded it and no gap behind
/// it.
pub proof fn lemma_object_advances(reg: RegistryV, s: Seq<u8>, pos: int)
    requires
        spec_decode_object(reg, s, pos) is Ok,
    ensures
        pos + 8 <= spec_decode_object(reg, s, pos)->Ok_0.1 <= s.len(),
    decreases s.len() - pos, 0int, 0int,
{
    let hash = le32(s, pos);
    let version = le32(s, pos + 4);
    let t = spec_resolve(reg, hash)->Ok_0;
    lemma_fields_advance(reg, s, reg.types[t].fields, version, 0, pos + 8);
}

/// Decoding is deterministic: one byte range, decoded twice under one
/// registry, yields the identical object graph. This is the spec-level
/// statement; the ensures of `decode_object` pins each call's result to
/// `spec_decode_object`, so two runs agree value for value.
pub proof fn lemma_decode_deterministic(
    reg: RegistryV,
    s: Seq<u8>,
    pos: int,
    r1: Result<(SpecValue, int), DecodeError>,
    r2: Result<(SpecValue, int), DecodeError>,
)
    requires
        r1 == spec_decode_object(reg, s, pos),
        r2 == spec_decode_object(reg, s, pos),
    ensures
        r1 == r2,
{
}

/// A field introduced above the stream's version tag is never populated
/// from stream data: among the values decoded for fields `i ..`, every
/// field whose threshold lies above `version` holds exactly its declared
/// default.
pub proof fn lemma_fields_above_version_default(
    reg: RegistryV,
    s: Seq<u8>,
    fields: Seq<FieldDesc>,
    version: u32,
    i: int,
    pos: int,
)
    requires
        0 <= i <= fields.len(),
        spec_decode_fields(reg, s, fields, version, i, pos) is Ok,
    ensures
        ({
            let (vals, end) = spec_decode_fields(reg, s, fields, version, i, pos)->Ok_0;
            &&& vals.len() == fields.len() - i
            &&& forall|k: int|
                i <= k < fields.len() && version < (#[trigger] fields[k]).min_version ==> vals[k
                    - i] == spec_default_value(fields[k].kind)
        }),
    decreases fields.len() - i,
{
    if i == fields.len() {
    } else if version >= fields[i].min_version {
        let sp = spec_decode_value(reg, s, fields[i].kind, pos);
        let (v, p) = sp->Ok_0;
        lemma_fields_above_version_default(reg, s, fields, version, i + 1, p);
    } else {
        lemma_fields_above_version_default(reg, s, fields, version, i + 1, pos);
    }
}

/// Version monotonicity at the object level: if a stream tagged with a
/// version below a field's threshold decodes successfully, that field of
/// the decoded object holds exactly its declared default.
pub proof fn lemma_version_monotonic(
    reg: RegistryV,
    s: Seq<u8>,
    pos: int,
    v: SpecValue,
    end: int,
    t: int,
    k: int,
)
    requires
        spec_decode_object(reg, s, pos) == Ok::<_, DecodeError>((v, end)),
        spec_resolve(reg, v->type_hash) == Ok::<int, DecodeError>(t),
        0 <= k < reg.types[t].fields.len(),
        v->version < reg.types[t].fields[k].min_version,
    ensures
        v->fields[k] == spec_default_value(reg.types[t].fields[k].kind),
{
    lemma_fields_above_version_default(
        reg,
        s,
        reg.types[t].fields,
        v->version,
        0,
        pos + 8,
    );
}

/// Downcast exclusivity: for an attachment with runtime hash `H`, probes
/// for two distinct hashes can never both yield a value — at most the probe
/// for `H` itself does.
pub proof fn lemma_downcast_exclusive(
    reg: RegistryV,
    runtime_hash: u32,
    payload: Seq<u8>,
    w1: u32,
    w2: u32,
)
    requires
        w1 != w2,
    ensures
        !((spec_downcast(reg, runtime_hash, payload, w1) matches Ok(Some(_))) && (spec_downcast(
            reg,
            runtime_hash,
            payload,
            w2,
        ) matches Ok(Some(_)))),
{
}

} // verus!
