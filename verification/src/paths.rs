//! Logical paths of per-monster collision assets.
//!
//! A monster's collision file lives at a path built from its identifier and
//! sub-identifier, zero-padded to three and two decimal digits: large
//! monsters under `enemy/em.../collision/`, small ones under
//! `enemy/ems.../collision/`.

use vstd::prelude::*;

verus! {

/// The ASCII digit for `d % 10`.
pub open spec fn spec_digit(d: u32) -> u8 {
    (0x30 + d % 10) as u8
}

/// `n` as three zero-padded ASCII decimal digits (for `n < 1000`).
pub open spec fn spec_dec3(n: u32) -> Seq<u8> {
    seq![spec_digit(n / 100), spec_digit(n / 10), spec_digit(n)]
}

/// `n` as two zero-padded ASCII decimal digits (for `n < 100`).
pub open spec fn spec_dec2(n: u32) -> Seq<u8> {
    seq![spec_digit(n / 10), spec_digit(n)]
}

pub open spec fn lit_enemy_em() -> Seq<u8> {
    seq!['e' as u8, 'n' as u8, 'e' as u8, 'm' as u8, 'y' as u8, '/' as u8, 'e' as u8, 'm' as u8]
}

pub open spec fn lit_enemy_ems() -> Seq<u8> {
    seq!['e' as u8, 'n' as u8, 'e' as u8, 'm' as u8, 'y' as u8, '/' as u8, 'e' as u8, 'm' as u8, 's' as u8]
}

pub open spec fn lit_slash() -> Seq<u8> {
    seq!['/' as u8]
}

pub open spec fn lit_collision_em() -> Seq<u8> {
    seq!['/' as u8, 'c' as u8, 'o' as u8, 'l' as u8, 'l' as u8, 'i' as u8, 's' as u8, 'i' as u8, 'o' as u8, 'n' as u8, '/' as u8, 'e' as u8, 'm' as u8]
}

pub open spec fn lit_collision_ems() -> Seq<u8> {
    seq!['/' as u8, 'c' as u8, 'o' as u8, 'l' as u8, 'l' as u8, 'i' as u8, 's' as u8, 'i' as u8, 'o' as u8, 'n' as u8, '/' as u8, 'e' as u8, 'm' as u8, 's' as u8]
}

pub open spec fn lit_underscore() -> Seq<u8> {
    seq!['_' as u8]
}

pub open spec fn lit_colliders_rcol() -> Seq<u8> {
    seq!['_' as u8, 'c' as u8, 'o' as u8, 'l' as u8, 'l' as u8, 'i' as u8, 'd' as u8, 'e' as u8, 'r' as u8, 's' as u8, '.' as u8, 'r' as u8, 'c' as u8, 'o' as u8, 'l' as u8]
}

/// The collision-file path of a large monster:
/// `enemy/emIII/SS/collision/emIII_SS_colliders.rcol` with the identifier
/// `III` and sub-identifier `SS` zero-padded.
pub open spec fn spec_em_collider_path(id: u32, sub_id: u32) -> Seq<u8> {
    lit_enemy_em() + spec_dec3(id) + lit_slash() + spec_dec2(sub_id) + lit_collision_em()
        + spec_dec3(id) + lit_underscore() + spec_dec2(sub_id) + lit_colliders_rcol()
}

/// The collision-file path of a small monster:
/// `enemy/emsIII/SS/collision/emsIII_SS_colliders.rcol`.
pub open spec fn spec_ems_collider_path(id: u32, sub_id: u32) -> Seq<u8> {
    lit_enemy_ems() + spec_dec3(id) + lit_slash() + spec_dec2(sub_id) + lit_collision_ems()
        + spec_dec3(id) + lit_underscore() + spec_dec2(sub_id) + lit_colliders_rcol()
}

fn push_digit(v: &mut Vec<u8>, d: u32)
    ensures
        final(v)@ == old(v)@.push(spec_digit(d)),
{
    let b: u8 = 0x30 + (d % 10) as u8;
    v.push(b);
}

fn push_dec3(v: &mut Vec<u8>, n: u32)
    ensures
        final(v)@ == old(v)@ + spec_dec3(n),
{
    push_digit(v, n / 100);
    push_digit(v, n / 10);
    push_digit(v, n);
    proof {
        assert(final(v)@ =~= old(v)@ + spec_dec3(n));
    }
}

fn push_dec2(v: &mut Vec<u8>, n: u32)
    ensures
        final(v)@ == old(v)@ + spec_dec2(n),
{
    push_digit(v, n / 10);
    push_digit(v, n);
    proof {
        assert(final(v)@ =~= old(v)@ + spec_dec2(n));
    }
}

fn push_lit_enemy_em(v: &mut Vec<u8>)
    ensures
        final(v)@ == old(v)@ + lit_enemy_em(),
{
    v.push('e' as u8);
    v.push('n' as u8);
    v.push('e' as u8);
    v.push('m' as u8);
    v.push('y' as u8);
    v.push('/' as u8);
    v.push('e' as u8);
    v.push('m' as u8);
    proof {
        assert(final(v)@ =~= old(v)@ + lit_enemy_em());
    }
}

fn push_lit_enemy_ems(v: &mut Vec<u8>)
    ensures
        final(v)@ == old(v)@ + lit_enemy_ems(),
{
    v.push('e' as u8);
    v.push('n' as u8);
    v.push('e' as u8);
    v.push('m' as u8);
    v.push('y' as u8);
    v.push('/' as u8);
    v.push('e' as u8);
    v.push('m' as u8);
    v.push('s' as u8);
    proof {
        assert(final(v)@ =~= old(v)@ + lit_enemy_ems());
    }
}

fn push_lit_slash(v: &mut Vec<u8>)
    ensures
        final(v)@ == old(v)@ + lit_slash(),
{
    v.push('/' as u8);
    proof {
        assert(final(v)@ =~= old(v)@ + lit_slash());
    }
}

fn push_lit_collision_em(v: &mut Vec<u8>)
    ensures
        final(v)@ == old(v)@ + lit_collision_em(),
{
    v.push('/' as u8);
    v.push('c' as u8);
    v.push('o' as u8);
    v.push('l' as u8);
    v.push('l' as u8);
    v.push('i' as u8);
    v.push('s' as u8);
    v.push('i' as u8);
    v.push('o' as u8);
    v.push('n' as u8);
    v.push('/' as u8);
    v.push('e' as u8);
    v.push('m' as u8);
    proof {
        assert(final(v)@ =~= old(v)@ + lit_collision_em());
    }
}

fn push_lit_collision_ems(v: &mut Vec<u8>)
    ensures
        final(v)@ == old(v)@ + lit_collision_ems(),
{
    v.push('/' as u8);
    v.push('c' as u8);
    v.push('o' as u8);
    v.push('l' as u8);
    v.push('l' as u8);
    v.push('i' as u8);
    v.push('s' as u8);
    v.push('i' as u8);
    v.push('o' as u8);
    v.push('n' as u8);
    v.push('/' as u8);
    v.push('e' as u8);
    v.push('m' as u8);
    v.push('s' as u8);
    proof {
        assert(final(v)@ =~= old(v)@ + lit_collision_ems());
    }
}

fn push_lit_underscore(v: &mut Vec<u8>)
    ensures
        final(v)@ == old(v)@ + lit_underscore(),
{
    v.push('_' as u8);
    proof {
        assert(final(v)@ =~= old(v)@ + lit_underscore());
    }
}

fn push_lit_colliders_rcol(v: &mut Vec<u8>)
    ensures
        final(v)@ == old(v)@ + lit_colliders_rcol(),
{
    v.push('_' as u8);
    v.push('c' as u8);
    v.push('o' as u8);
    v.push('l' as u8);
    v.push('l' as u8);
    v.push('i' as u8);
    v.push('d' as u8);
    v.push('e' as u8);
    v.push('r' as u8);
    v.push('s' as u8);
    v.push('.' as u8);
    v.push('r' as u8);
    v.push('c' as u8);
    v.push('o' as u8);
    v.push('l' as u8);
    proof {
        assert(final(v)@ =~= old(v)@ + lit_colliders_rcol());
    }
}

/// The collision-file path of a large monster, as path bytes for the
/// archive store.
pub fn gen_em_collider_path(id: u32, sub_id: u32) -> (r: Vec<u8>)
    ensures
        r@ == spec_em_collider_path(id, sub_id),
{
    let mut v: Vec<u8> = Vec::new();
    push_lit_enemy_em(&mut v);
    push_dec3(&mut v, id);
    push_lit_slash(&mut v);
    push_dec2(&mut v, sub_id);
    push_lit_collision_em(&mut v);
    push_dec3(&mut v, id);
    push_lit_underscore(&mut v);
    push_dec2(&mut v, sub_id);
    push_lit_colliders_rcol(&mut v);
    proof {
        assert(v@ =~= spec_em_collider_path(id, sub_id));
    }
    v
}

/// The collision-file path of a small monster, as path bytes for the
/// archive store.
pub fn gen_ems_collider_path(id: u32, sub_id: u32) -> (r: Vec<u8>)
    ensures
        r@ == spec_ems_collider_path(id, sub_id),
{
    let mut v: Vec<u8> = Vec::new();
    push_lit_enemy_ems(&mut v);
    push_dec3(&mut v, id);
    push_lit_slash(&mut v);
    push_dec2(&mut v, sub_id);
    push_lit_collision_ems(&mut v);
    push_dec3(&mut v, id);
    push_lit_underscore(&mut v);
    push_dec2(&mut v, sub_id);
    push_lit_colliders_rcol(&mut v);
    proof {
        assert(v@ =~= spec_ems_collider_path(id, sub_id));
    }
    v
}

} // verus!
