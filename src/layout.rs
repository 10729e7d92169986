use vstd::prelude::*;

use crate::align::Align;
use crate::block::WebGPUItem;
use crate::error::ErrorKind;
use crate::value::Value;

verus! {

/// What encoding one value adds to a block: the items, the raw bytes, and the
/// alignment that the value reports to its parent.
pub type Encoded = (Seq<WebGPUItem>, Seq<u8>, Align);

/// Little-endian bytes of a 16-bit pattern.
pub open spec fn le2(x: u16) -> Seq<u8> {
    seq![(x % 256) as u8, (x / 256) as u8]
}

/// Little-endian bytes of a 32-bit pattern.
pub open spec fn le4(x: u32) -> Seq<u8> {
    seq![(x % 256) as u8, (x / 256 % 256) as u8, (x / 65536 % 256) as u8, (x / 16777216) as u8]
}

/// The type name under which half-precision floats present themselves.
pub open spec fn half_name() -> Seq<u8> {
    seq![102u8, 49u8, 54u8]
}

/// The name `vec<n>@<kind>` of a vector type.
pub open spec fn vec_name(n: nat, kind: Seq<u8>) -> Seq<u8> {
    seq![118u8, 101u8, 99u8, (48 + n) as u8, 64u8] + kind
}

pub open spec fn is_word_kind(kind: Seq<u8>) -> bool {
    kind == seq![105u8, 51u8, 50u8] || kind == seq![117u8, 51u8, 50u8] || kind == seq![102u8, 51u8, 50u8]
}

/// The alignment forced by the name of a named tuple of `len` fields: vectors of
/// two, three or four half-precision or 32-bit scalars have one, all else `Align0`.
pub open spec fn forced_align(name: Seq<u8>, len: nat) -> Align {
    if 2 <= len <= 4 && name == vec_name(len, half_name()) {
        if len == 2 { Align::Align4 } else { Align::Align8 }
    } else if 2 <= len <= 4 && name.len() == 8 && name.subrange(0, 5) == vec_name(len, seq![])
        && is_word_kind(name.subrange(5, 8)) {
        if len == 2 { Align::Align8 } else { Align::Align16 }
    } else {
        Align::Align0
    }
}

/// A value that pads to `pre` and then appends `raw`, reporting `report`.
pub open spec fn padded(pre: Align, raw: Seq<u8>, report: Align) -> Result<Encoded, ErrorKind> {
    Ok((seq![WebGPUItem::Align(pre), WebGPUItem::Data(raw.len() as usize)], raw, report))
}

/// A value that appends `raw` without padding, reporting `report`.
pub open spec fn unpadded(raw: Seq<u8>, report: Align) -> Result<Encoded, ErrorKind> {
    Ok((seq![WebGPUItem::Data(raw.len() as usize)], raw, report))
}

/// Closes a composite whose members encoded to `members`: a marker holding the
/// members' combined alignment before and after them; no member alignment at all
/// is an error. The composite reports its own alignment combined with `forced`.
pub open spec fn close(members: Result<Encoded, ErrorKind>, forced: Align) -> Result<Encoded, ErrorKind> {
    match members {
        Err(e) => Err(e),
        Ok((items, raw, m)) => if m == Align::Align0 {
            Err(ErrorKind::ZeroSize)
        } else {
            Ok((seq![WebGPUItem::Align(m)] + items + seq![WebGPUItem::Align(m)], raw, m.join(forced)))
        },
    }
}

/// The encoding of a value: the dispatch over its shape.
pub open spec fn enc(v: Value) -> Result<Encoded, ErrorKind>
    decreases v, 1nat,
{
    match v {
        Value::Bool(b) => unpadded(seq![if b { 1u8 } else { 0u8 }], Align::Align1),
        Value::I8(x) => unpadded(seq![x as u8], Align::Align1),
        Value::U8(x) => unpadded(seq![x], Align::Align1),
        Value::I16(x) => padded(Align::Align2, le2(x as u16), Align::Align4),
        Value::U16(x) => padded(Align::Align4, le2(x), Align::Align4),
        Value::I32(x) => padded(Align::Align4, le4(x as u32), Align::Align4),
        Value::U32(x) => padded(Align::Align4, le4(x), Align::Align4),
        Value::F32(bits) => padded(Align::Align4, le4(bits), Align::Align4),
        Value::Char(c) => padded(Align::Align4, le4(c as u32), Align::Align4),
        Value::Str(b) => padded(Align::Align1, b@, Align::Align1),
        Value::Bytes(b) => padded(Align::Align1, b@, Align::Align1),
        Value::I64(_) | Value::U64(_) | Value::F64(_) => Err(ErrorKind::UnsupportedWidth),
        Value::Optional | Value::Variant | Value::KeyValueMap => Err(ErrorKind::UnsupportedShape),
        Value::Unit | Value::UnitStruct(_) => close(Ok((Seq::empty(), Seq::empty(), Align::Align0)), Align::Align0),
        Value::NewtypeStruct(name, inner) => if name@ == half_name() {
            enc(*inner)
        } else {
            close(enc(*inner), Align::Align0)
        },
        Value::Sequence(m) | Value::Tuple(m) | Value::Struct(m) => close(enc_members(m@, m@.len()), Align::Align0),
        Value::TupleStruct(name, m) => close(enc_members(m@, m@.len()), forced_align(name@, m@.len())),
    }
}

/// The encoding of the first `n` members of a composite, in order; the first
/// member that fails decides the error.
pub open spec fn enc_members(s: Seq<Value>, n: nat) -> Result<Encoded, ErrorKind>
    decreases s, n,
{
    if n == 0 || n > s.len() {
        Ok((Seq::empty(), Seq::empty(), Align::Align0))
    } else {
        match enc_members(s, (n - 1) as nat) {
            Err(e) => Err(e),
            Ok((items, raw, m)) => match enc(s[n - 1]) {
                Err(e) => Err(e),
                Ok((items2, raw2, a)) => Ok((items + items2, raw + raw2, m.join(a))),
            },
        }
    }
}

/// Once a prefix of the members fails, every longer prefix fails the same way.
pub proof fn lemma_members_err_persists(s: Seq<Value>, i: nat, n: nat)
    requires
        i <= n <= s.len(),
        enc_members(s, i) is Err,
    ensures
        enc_members(s, n) == enc_members(s, i),
    decreases n - i,
{
    if i < n {
        lemma_members_err_persists(s, i, (n - 1) as nat);
    }
}

} // verus!
