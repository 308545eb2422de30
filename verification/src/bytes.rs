//! Little-endian primitive readers over a byte slice.
//!
//! Every reader takes the slice and a position and, on success, returns the
//! value together with the position just past the bytes it consumed. A read
//! past the end of the slice fails with `Truncated`.

use crate::error::DecodeError;
use vstd::prelude::*;

verus! {

/// The unsigned 16-bit value stored little-endian at `i`.
pub open spec fn le16(s: Seq<u8>, i: int) -> u16 {
    (s[i] as int + s[i + 1] as int * 0x100) as u16
}

/// The unsigned 32-bit value stored little-endian at `i`.
pub open spec fn le32(s: Seq<u8>, i: int) -> u32 {
    (s[i] as int + s[i + 1] as int * 0x100 + s[i + 2] as int * 0x10000 + s[i + 3] as int
        * 0x1000000) as u32
}

/// What reading one byte at `pos` yields.
pub open spec fn spec_take_u8(s: Seq<u8>, pos: int) -> Result<(u8, int), DecodeError> {
    if pos + 1 <= s.len() {
        Ok((s[pos], pos + 1))
    } else {
        Err(DecodeError::Truncated(pos as usize))
    }
}

/// What reading a little-endian 16-bit value at `pos` yields.
pub open spec fn spec_take_u16(s: Seq<u8>, pos: int) -> Result<(u16, int), DecodeError> {
    if pos + 2 <= s.len() {
        Ok((le16(s, pos), pos + 2))
    } else {
        Err(DecodeError::Truncated(pos as usize))
    }
}

/// What reading a little-endian 32-bit value at `pos` yields.
pub open spec fn spec_take_u32(s: Seq<u8>, pos: int) -> Result<(u32, int), DecodeError> {
    if pos + 4 <= s.len() {
        Ok((le32(s, pos), pos + 4))
    } else {
        Err(DecodeError::Truncated(pos as usize))
    }
}

/// What reading `n` raw bytes at `pos` yields.
pub open spec fn spec_take_bytes(s: Seq<u8>, pos: int, n: int) -> Result<
    (Seq<u8>, int),
    DecodeError,
> {
    if pos + n <= s.len() {
        Ok((s.subrange(pos, pos + n), pos + n))
    } else {
        Err(DecodeError::Truncated(pos as usize))
    }
}

pub fn read_u8(data: &[u8], pos: usize) -> (r: Result<(u8, usize), DecodeError>)
    requires
        pos <= data@.len(),
    ensures
        match r {
            Ok((v, p)) => spec_take_u8(data@, pos as int) == Ok::<_, DecodeError>((v, p as int))
                && pos < p <= data@.len(),
            Err(e) => spec_take_u8(data@, pos as int) == Err::<(u8, int), _>(e),
        },
{
    if data.len() - pos < 1 {
        return Err(DecodeError::Truncated(pos));
    }
    Ok((data[pos], pos + 1))
}

pub fn read_u16(data: &[u8], pos: usize) -> (r: Result<(u16, usize), DecodeError>)
    requires
        pos <= data@.len(),
    ensures
        match r {
            Ok((v, p)) => spec_take_u16(data@, pos as int) == Ok::<_, DecodeError>((v, p as int))
                && pos < p <= data@.len(),
            Err(e) => spec_take_u16(data@, pos as int) == Err::<(u16, int), _>(e),
        },
{
    if data.len() - pos < 2 {
        return Err(DecodeError::Truncated(pos));
    }
    let b0 = data[pos] as u16;
    let b1 = data[pos + 1] as u16;
    Ok((b0 + b1 * 0x100, pos + 2))
}

pub fn read_u32(data: &[u8], pos: usize) -> (r: Result<(u32, usize), DecodeError>)
    requires
        pos <= data@.len(),
    ensures
        match r {
            Ok((v, p)) => spec_take_u32(data@, pos as int) == Ok::<_, DecodeError>((v, p as int))
                && pos < p <= data@.len(),
            Err(e) => spec_take_u32(data@, pos as int) == Err::<(u32, int), _>(e),
        },
{
    if data.len() - pos < 4 {
        return Err(DecodeError::Truncated(pos));
    }
    let b0 = data[pos] as u32;
    let b1 = data[pos + 1] as u32;
    let b2 = data[pos + 2] as u32;
    let b3 = data[pos + 3] as u32;
    Ok((b0 + b1 * 0x100 + b2 * 0x10000 + b3 * 0x1000000, pos + 4))
}

pub fn read_bytes(data: &[u8], pos: usize, n: usize) -> (r: Result<(Vec<u8>, usize), DecodeError>)
    requires
        pos <= data@.len(),
    ensures
        match r {
            Ok((v, p)) => {
                &&& spec_take_bytes(data@, pos as int, n as int) matches Ok(sp)
                &&& sp.0 == v@
                &&& sp.1 == p as int
                &&& pos <= p <= data@.len()
            },
            Err(e) => spec_take_bytes(data@, pos as int, n as int) == Err::<(Seq<u8>, int), _>(e),
        },
{
    if data.len() - pos < n {
        return Err(DecodeError::Truncated(pos));
    }
    let end: usize = pos + n;
    let mut v: Vec<u8> = Vec::new();
    let mut j: usize = pos;
    while j < end
        invariant
            pos <= j <= end,
            end == pos + n,
            end <= data@.len(),
            v@ == data@.subrange(pos as int, j as int),
        decreases end - j,
    {
        v.push(data[j]);
        j = j + 1;
        proof {
            assert(v@ =~= data@.subrange(pos as int, j as int));
        }
    }
    Ok((v, end))
}

} // verus!
