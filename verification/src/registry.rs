//! The type registry: the schema substitute.
//!
//! The source format carries no schema, so the registry is the schema. It is
//! built once, from declarative registrations, and never mutated afterward:
//! a table of type descriptors (type hash, declared version, field layout)
//! and a table of hash-coded enumerations (disjoint arms over an integer
//! domain). Construction validates everything eagerly — a duplicate type
//! hash, a reversed arm, overlapping arms, or a dangling enumeration
//! reference is a defect in the declarations and is reported at build time,
//! never at decode time.

use crate::error::{DecodeError, RegistryError};
use vstd::prelude::*;

verus! {

/// The scalar shape of one stream element.
#[derive(Debug, Clone, Copy)]
pub enum ElemKind {
    /// One byte that must be 0 or 1.
    Bool,
    U8,
    U16,
    U32,
    I8,
    I32,
    /// A 32-bit float field, decoded to its raw bits.
    F32Raw,
    /// A 32-bit count followed by that many raw bytes.
    Str,
    /// A hash-coded enumeration, decoded through the arm table at this index.
    Enum(usize),
    /// A nested record with its own leading (type hash, version) tag,
    /// dispatched on the hash found in the stream.
    Object,
    /// A polymorphic attachment: runtime type hash, payload length, payload.
    Attachment,
}

/// The shape of one declared field.
#[derive(Debug, Clone, Copy)]
pub enum FieldKind {
    /// A single element.
    Atom(ElemKind),
    /// A 32-bit count followed by that many elements.
    Array(ElemKind),
    /// A fixed number of elements with no leading count.
    FixedArray(ElemKind, usize),
}

/// One declared field: its shape and the version at which it was introduced.
///
/// The field is present in the stream exactly when the enclosing object's
/// version tag is at or above `min_version`; below it, the field takes the
/// kind's default instead of consuming stream bytes.
#[derive(Debug, Clone, Copy)]
pub struct FieldDesc {
    pub kind: FieldKind,
    pub min_version: u32,
}

/// One type descriptor: a (type hash, declared version) registration, the
/// logical name it was registered under, and the field layout it decodes
/// with. The name never reaches the stream — it serves diagnosis; the
/// hash alone identifies the registration.
#[derive(Debug)]
pub struct TypeDesc {
    pub name: &'static str,
    pub type_hash: u32,
    pub declared_version: u32,
    pub fields: Vec<FieldDesc>,
}

/// The width of a hash-coded enumeration's raw integer in the stream.
///
/// A signed declaration is read by its unsigned bit pattern of the same
/// width; arms are stated over that pattern.
#[derive(Debug, Clone, Copy)]
pub enum EnumWidth {
    U8,
    U16,
    U32,
}

/// One arm of a hash-coded enumeration: the inclusive range
/// `first ..= last` of raw values it covers. A singleton is an arm with
/// `first == last`.
#[derive(Debug, Clone, Copy, PartialEq, Eq, Structural)]
pub struct EnumArm {
    pub first: u64,
    pub last: u64,
}

/// One hash-coded enumeration: the raw integer's width and the declared
/// arms, whose order gives the decoded arm index.
#[derive(Debug)]
pub struct EnumDesc {
    pub width: EnumWidth,
    pub arms: Vec<EnumArm>,
}

/// The model of a type descriptor.
pub struct TypeDescV {
    pub name: Seq<char>,
    pub type_hash: u32,
    pub declared_version: u32,
    pub fields: Seq<FieldDesc>,
}

/// The model of an enumeration descriptor.
pub struct EnumDescV {
    pub width: EnumWidth,
    pub arms: Seq<EnumArm>,
}

/// The model of a registry.
pub struct RegistryV {
    pub types: Seq<TypeDescV>,
    pub enums: Seq<EnumDescV>,
}

impl View for TypeDesc {
    type V = TypeDescV;

    open spec fn view(&self) -> TypeDescV {
        TypeDescV {
            name: self.name@,
            type_hash: self.type_hash,
            declared_version: self.declared_version,
            fields: self.fields@,
        }
    }
}

impl View for EnumDesc {
    type V = EnumDescV;

    open spec fn view(&self) -> EnumDescV {
        EnumDescV { width: self.width, arms: self.arms@ }
    }
}

/// The static table mapping type hashes to decode layouts, plus the
/// enumeration arm tables. Read-only after construction.
#[derive(Debug)]
pub struct Registry {
    pub(crate) types: Vec<TypeDesc>,
    pub(crate) enums: Vec<EnumDesc>,
}

impl View for Registry {
    type V = RegistryV;

    open(crate) spec fn view(&self) -> RegistryV {
        RegistryV {
            types: Seq::new(self.types@.len(), |i: int| self.types@[i]@),
            enums: Seq::new(self.enums@.len(), |i: int| self.enums@[i]@),
        }
    }
}

/// An arm's bounds are in order.
pub open spec fn arm_wf(a: EnumArm) -> bool {
    a.first <= a.last
}

/// Two arms cover no raw value in common.
pub open spec fn arms_disjoint(a: EnumArm, b: EnumArm) -> bool {
    a.last < b.first || b.last < a.first
}

/// An arm contains a raw value.
pub open spec fn arm_contains(a: EnumArm, raw: u64) -> bool {
    a.first <= raw <= a.last
}

/// An enumeration is well-formed: every arm in order, all arms pairwise
/// disjoint.
pub open spec fn enum_wf(e: EnumDescV) -> bool {
    &&& forall|i: int| 0 <= i < e.arms.len() ==> arm_wf(#[trigger] e.arms[i])
    &&& forall|i: int, j: int|
        0 <= i < j < e.arms.len() ==> arms_disjoint(#[trigger] e.arms[i], #[trigger] e.arms[j])
}

/// An element shape only names enumeration tables that exist.
pub open spec fn elem_wf(k: ElemKind, n_enums: int) -> bool {
    match k {
        ElemKind::Enum(t) => (t as int) < n_enums,
        _ => true,
    }
}

/// A field shape only names enumeration tables that exist.
pub open spec fn kind_wf(k: FieldKind, n_enums: int) -> bool {
    match k {
        FieldKind::Atom(e) => elem_wf(e, n_enums),
        FieldKind::Array(e) => elem_wf(e, n_enums),
        FieldKind::FixedArray(e, _) => elem_wf(e, n_enums),
    }
}

/// A type descriptor's fields are all well-formed.
pub open spec fn type_wf(t: TypeDescV, n_enums: int) -> bool {
    forall|i: int| 0 <= i < t.fields.len() ==> kind_wf((#[trigger] t.fields[i]).kind, n_enums)
}

/// A registry is well-formed: type hashes unique, enumerations disjoint,
/// every enumeration reference resolvable.
pub open spec fn registry_wf(r: RegistryV) -> bool {
    &&& forall|i: int, j: int|
        0 <= i < j < r.types.len() ==> (#[trigger] r.types[i]).type_hash != (
        #[trigger] r.types[j]).type_hash
    &&& forall|i: int| 0 <= i < r.enums.len() ==> enum_wf(#[trigger] r.enums[i])
    &&& forall|i: int| 0 <= i < r.types.len() ==> type_wf(#[trigger] r.types[i], r.enums.len() as int)
}

/// The registration matching a hash: the first (and, in a well-formed
/// registry, only) descriptor index with that type hash, or `UnknownType`.
pub open spec fn spec_resolve_from(types: Seq<TypeDescV>, hash: u32, i: int) -> Result<
    int,
    DecodeError,
>
    decreases types.len() - i,
{
    if i < 0 || i >= types.len() {
        Err(DecodeError::UnknownType(hash))
    } else if types[i].type_hash == hash {
        Ok(i)
    } else {
        spec_resolve_from(types, hash, i + 1)
    }
}

/// What resolving a hash against the registry yields.
pub open spec fn spec_resolve(reg: RegistryV, hash: u32) -> Result<int, DecodeError> {
    spec_resolve_from(reg.types, hash, 0)
}

/// A successful resolution is in range and matches the hash; a failure means
/// no descriptor from `i` on matches.
pub proof fn lemma_resolve_from(types: Seq<TypeDescV>, hash: u32, i: int)
    requires
        0 <= i <= types.len(),
    ensures
        match spec_resolve_from(types, hash, i) {
            Ok(t) => i <= t < types.len() && types[t].type_hash == hash,
            Err(e) => e == DecodeError::UnknownType(hash) && forall|j: int|
                i <= j < types.len() ==> (#[trigger] types[j]).type_hash != hash,
        },
    decreases types.len() - i,
{
    if i < types.len() && types[i].type_hash != hash {
        lemma_resolve_from(types, hash, i + 1);
    }
}

/// The arm containing a raw value, searched in declaration order: the arm
/// index and the offset of the value within the arm, or nothing when no
/// arm contains it.
pub open spec fn spec_find_arm(arms: Seq<EnumArm>, raw: u64, i: int) -> Option<(int, u64)>
    decreases arms.len() - i,
{
    if i < 0 || i >= arms.len() {
        None
    } else if arm_contains(arms[i], raw) {
        Some((i, (raw - arms[i].first) as u64))
    } else {
        spec_find_arm(arms, raw, i + 1)
    }
}

/// Disjointness of a well-formed enumeration's arms is exclusive: no raw
/// value lies in two distinct arms.
pub proof fn lemma_arm_unique(e: EnumDescV, raw: u64, i: int, j: int)
    requires
        enum_wf(e),
        0 <= i < e.arms.len(),
        0 <= j < e.arms.len(),
        arm_contains(e.arms[i], raw),
        arm_contains(e.arms[j], raw),
    ensures
        i == j,
{
    if i < j {
        assert(arms_disjoint(e.arms[i], e.arms[j]));
    } else if j < i {
        assert(arms_disjoint(e.arms[j], e.arms[i]));
    }
}

impl Registry {
    /// The number of registered type descriptors.
    pub fn type_count(&self) -> (r: usize)
        ensures
            r == self@.types.len(),
    {
        self.types.len()
    }

    /// The registration matching a runtime hash, irrespective of what any
    /// caller expects: the descriptor index, or `UnknownType` for a registry
    /// gap — which is distinct from malformed data.
    pub fn resolve(&self, hash: u32) -> (r: Result<usize, DecodeError>)
        ensures
            match r {
                Ok(t) => spec_resolve(self@, hash) == Ok::<int, DecodeError>(t as int),
                Err(e) => spec_resolve(self@, hash) == Err::<int, DecodeError>(e),
            },
    {
        let mut i: usize = 0;
        while i < self.types.len()
            invariant
                i <= self@.types.len(),
                spec_resolve_from(self@.types, hash, 0) == spec_resolve_from(
                    self@.types,
                    hash,
                    i as int,
                ),
            decreases self@.types.len() - i,
        {
            if self.types[i].type_hash == hash {
                return Ok(i);
            }
            i = i + 1;
        }
        Err(DecodeError::UnknownType(hash))
    }

    /// The logical name a hash was registered under, for diagnosis: a
    /// decode error's type hash resolves here to something printable.
    pub fn name_of(&self, hash: u32) -> (r: Option<&str>)
        ensures
            match r {
                Some(n) => spec_resolve(self@, hash) matches Ok(t) && self@.types[t].name == n@,
                None => spec_resolve(self@, hash) is Err,
            },
    {
        match self.resolve(hash) {
            Ok(t) => {
                proof {
                    lemma_resolve_from(self@.types, hash, 0);
                }
                Some(self.types[t].name)
            },
            Err(_) => None,
        }
    }

    /// Build the registry from declarations, validating everything eagerly.
    ///
    /// Succeeds if and only if the declarations are well-formed; on failure
    /// the error names the offending declaration. In particular, two
    /// overlapping arms of one enumeration are rejected here, once, not
    /// detected per decode.
    pub fn build(types: Vec<TypeDesc>, enums: Vec<EnumDesc>) -> (r: Result<Registry, RegistryError>)
        ensures
            match r {
                Ok(reg) => registry_wf(reg@) && reg@.types.len() == types@.len() && reg@.enums.len()
                    == enums@.len() && (forall|i: int|
                    0 <= i < types@.len() ==> reg@.types[i] == (#[trigger] types@[i])@) && (forall|
                    i: int,
                |
                    0 <= i < enums@.len() ==> reg@.enums[i] == (#[trigger] enums@[i])@),
                Err(e) => {
                    let rv = RegistryV {
                        types: Seq::new(types@.len(), |i: int| types@[i]@),
                        enums: Seq::new(enums@.len(), |i: int| enums@[i]@),
                    };
                    !registry_wf(rv) && match e {
                        RegistryError::DuplicateType(h) => exists|i: int, j: int|
                            0 <= i < j < types@.len() && (#[trigger] types@[i]).type_hash == h && (
                            #[trigger] types@[j]).type_hash == h,
                        RegistryError::InvalidArm(e_i, a_i) => e_i < enums@.len() && a_i
                            < enums@[e_i as int].arms@.len() && !arm_wf(
                            enums@[e_i as int].arms@[a_i as int],
                        ),
                        RegistryError::OverlappingArms(e_i, a_i, a_j) => e_i < enums@.len() && a_i
                            < a_j && a_j < enums@[e_i as int].arms@.len() && !arms_disjoint(
                            enums@[e_i as int].arms@[a_i as int],
                            enums@[e_i as int].arms@[a_j as int],
                        ),
                        RegistryError::UnknownEnumTable(t_i, f_i) => t_i < types@.len() && f_i
                            < types@[t_i as int].fields@.len() && !kind_wf(
                            types@[t_i as int].fields@[f_i as int].kind,
                            enums@.len() as int,
                        ),
                    }
                },
            },
    {
        // Duplicate type hashes.
        let mut i: usize = 0;
        while i < types.len()
            invariant
                i <= types@.len(),
                forall|a: int, b: int|
                    0 <= a < b < types@.len() && a < i ==> (#[trigger] types@[a]).type_hash != (
                    #[trigger] types@[b]).type_hash,
            decreases types@.len() - i,
        {
            let mut j: usize = i + 1;
            while j < types.len()
                invariant
                    i < types@.len(),
                    i < j <= types@.len(),
                    forall|b: int|
                        i < b < j ==> (#[trigger] types@[b]).type_hash != types@[i as int].type_hash,
                decreases types@.len() - j,
            {
                if types[j].type_hash == types[i].type_hash {
                    proof {
                        let rv = RegistryV {
                            types: Seq::new(types@.len(), |k: int| types@[k]@),
                            enums: Seq::new(enums@.len(), |k: int| enums@[k]@),
                        };
                        assert(rv.types[i as int].type_hash == types@[i as int].type_hash);
                        assert(rv.types[j as int].type_hash == types@[j as int].type_hash);
                        assert(!registry_wf(rv));
                    }
                    return Err(RegistryError::DuplicateType(types[i].type_hash));
                }
                j = j + 1;
            }
            i = i + 1;
        }
        // Enumeration arms: ordered bounds, pairwise disjoint.
        let mut e_i: usize = 0;
        while e_i < enums.len()
            invariant
                e_i <= enums@.len(),
                forall|a: int| 0 <= a < e_i ==> enum_wf((#[trigger] enums@[a])@),
                forall|a: int, b: int|
                    0 <= a < b < types@.len() ==> (#[trigger] types@[a]).type_hash != (
                    #[trigger] types@[b]).type_hash,
            decreases enums@.len() - e_i,
        {
            let arms = &enums[e_i].arms;
            let mut a_i: usize = 0;
            while a_i < arms.len()
                invariant
                    a_i <= arms@.len(),
                    arms@ == enums@[e_i as int].arms@,
                    e_i < enums@.len(),
                    forall|a: int| 0 <= a < a_i ==> arm_wf(#[trigger] arms@[a]),
                    forall|a: int, b: int|
                        0 <= a < b < arms@.len() && a < a_i ==> arms_disjoint(
                            #[trigger] arms@[a],
                            #[trigger] arms@[b],
                        ),
                decreases arms@.len() - a_i,
            {
                if arms[a_i].first > arms[a_i].last {
                    proof {
                        let rv = RegistryV {
                            types: Seq::new(types@.len(), |k: int| types@[k]@),
                            enums: Seq::new(enums@.len(), |k: int| enums@[k]@),
                        };
                        assert(rv.enums[e_i as int].arms[a_i as int] == arms@[a_i as int]);
                        assert(!registry_wf(rv));
                    }
                    return Err(RegistryError::InvalidArm(e_i, a_i));
                }
                let mut a_j: usize = a_i + 1;
                while a_j < arms.len()
                    invariant
                        arms@ == enums@[e_i as int].arms@,
                        e_i < enums@.len(),
                        a_i < arms@.len(),
                        a_i < a_j <= arms@.len(),
                        forall|b: int|
                            a_i < b < a_j ==> arms_disjoint(
                                arms@[a_i as int],
                                #[trigger] arms@[b],
                            ),
                    decreases arms@.len() - a_j,
                {
                    if arms[a_j].first <= arms[a_i].last && arms[a_i].first <= arms[a_j].last {
                        proof {
                            let rv = RegistryV {
                                types: Seq::new(types@.len(), |k: int| types@[k]@),
                                enums: Seq::new(enums@.len(), |k: int| enums@[k]@),
                            };
                            assert(rv.enums[e_i as int].arms[a_i as int] == arms@[a_i as int]);
                            assert(rv.enums[e_i as int].arms[a_j as int] == arms@[a_j as int]);
                            assert(!arms_disjoint(arms@[a_i as int], arms@[a_j as int]));
                            assert(!registry_wf(rv));
                        }
                        return Err(RegistryError::OverlappingArms(e_i, a_i, a_j));
                    }
                    a_j = a_j + 1;
                }
                a_i = a_i + 1;
            }
            e_i = e_i + 1;
        }
        // Enumeration references inside field shapes.
        let mut t_i: usize = 0;
        while t_i < types.len()
            invariant
                t_i <= types@.len(),
                forall|a: int|
                    0 <= a < t_i ==> type_wf((#[trigger] types@[a])@, enums@.len() as int),
                forall|a: int| 0 <= a < enums@.len() ==> enum_wf((#[trigger] enums@[a])@),
                forall|a: int, b: int|
                    0 <= a < b < types@.len() ==> (#[trigger] types@[a]).type_hash != (
                    #[trigger] types@[b]).type_hash,
            decreases types@.len() - t_i,
        {
            let fields = &types[t_i].fields;
            let mut f_i: usize = 0;
            while f_i < fields.len()
                invariant
                    f_i <= fields@.len(),
                    t_i < types@.len(),
                    fields@ == types@[t_i as int].fields@,
                    forall|a: int|
                        0 <= a < f_i ==> kind_wf(
                            (#[trigger] fields@[a]).kind,
                            enums@.len() as int,
                        ),
                decreases fields@.len() - f_i,
            {
                let ek = match fields[f_i].kind {
                    FieldKind::Atom(e) => e,
                    FieldKind::Array(e) => e,
                    FieldKind::FixedArray(e, _) => e,
                };
                if let ElemKind::Enum(t) = ek {
                    if t >= enums.len() {
                        proof {
                            let rv = RegistryV {
                                types: Seq::new(types@.len(), |k: int| types@[k]@),
                                enums: Seq::new(enums@.len(), |k: int| enums@[k]@),
                            };
                            assert(rv.types[t_i as int].fields[f_i as int]
                                == types@[t_i as int].fields@[f_i as int]);
                            assert(!kind_wf(
                                types@[t_i as int].fields@[f_i as int].kind,
                                enums@.len() as int,
                            ));
                            assert(!type_wf(rv.types[t_i as int], rv.enums.len() as int));
                            assert(!registry_wf(rv));
                        }
                        return Err(RegistryError::UnknownEnumTable(t_i, f_i));
                    }
                }
                f_i = f_i + 1;
            }
            t_i = t_i + 1;
        }
        let reg = Registry { types, enums };
        proof {
            let rv = reg@;
            assert forall|a: int| 0 <= a < rv.types.len() implies rv.types[a]
                == (#[trigger] reg.types@[a])@ by {}
            assert forall|a: int| 0 <= a < rv.enums.len() implies rv.enums[a]
                == (#[trigger] reg.enums@[a])@ by {}
            assert(registry_wf(rv));
        }
        Ok(reg)
    }
}

} // verus!
