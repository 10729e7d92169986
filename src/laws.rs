use vstd::prelude::*;

use crate::align::Align;
use crate::block::{WebGPUItem, data_total, padding, resolve, zeros};
use crate::encode::{layout, lemma_padding_aligns, lemma_resolve_ends_aligned};
use crate::layout::{enc, enc_members, half_name};
use crate::value::Value;

verus! {

/// Scalars of a fixed width whose start is aligned to what they report.
pub open spec fn is_fixed_scalar(v: Value) -> bool {
    v is Bool || v is I8 || v is U8 || v is U16 || v is I32 || v is U32 || v is F32 || v is Char
}

/// The width in bytes of a fixed-width scalar.
pub open spec fn scalar_width(v: Value) -> nat {
    if v is Bool || v is I8 || v is U8 {
        1
    } else if v is U16 {
        2
    } else {
        4
    }
}

/// Scalars of four bytes.
pub open spec fn is_word_scalar(v: Value) -> bool {
    v is I32 || v is U32 || v is F32 || v is Char
}

/// Values laid out by the composite rule.
pub open spec fn is_composite(v: Value) -> bool {
    match v {
        Value::Unit | Value::UnitStruct(_) | Value::Sequence(_) | Value::Tuple(_) | Value::Struct(_)
        | Value::TupleStruct(_, _) => true,
        Value::NewtypeStruct(name, _) => name@ != half_name(),
        _ => false,
    }
}

/// The alignment that a composite's members require together.
pub open spec fn members_align(v: Value) -> Align {
    match v {
        Value::Sequence(m) | Value::Tuple(m) | Value::Struct(m) | Value::TupleStruct(_, m) => enc_members(
            m@,
            m@.len(),
        )->Ok_0.2,
        Value::NewtypeStruct(_, inner) => enc(*inner)->Ok_0.2,
        _ => Align::Align0,
    }
}

/// Combining alignments is commutative and associative, and picks the larger.
pub proof fn lemma_join_lattice(a: Align, b: Align, c: Align)
    ensures
        a.join(b) == b.join(a),
        a.join(b).join(c) == a.join(b.join(c)),
        a.join(b).spec_value() >= a.spec_value(),
        a.join(b).spec_value() >= b.spec_value(),
        a.join(b) == a || a.join(b) == b,
{
}

/// Raw bytes past what the items read change nothing in their resolution.
pub proof fn lemma_resolve_extra_raw(items: Seq<WebGPUItem>, raw: Seq<u8>, extra: Seq<u8>)
    requires
        data_total(items) <= raw.len(),
    ensures
        resolve(items, raw + extra) == resolve(items, raw),
    decreases items.len(),
{
    if items.len() > 0 {
        lemma_resolve_extra_raw(items.drop_last(), raw, extra);
        let start = data_total(items.drop_last());
        match items.last() {
            WebGPUItem::Data(n) => {
                assert((raw + extra).subrange(start as int, start + n) =~= raw.subrange(start as int, start + n));
            },
            WebGPUItem::Align(_) => {},
        }
    }
}

/// Appending one data item of `bytes` to a consistent block appends exactly
/// those bytes to its resolution.
proof fn lemma_resolve_push_data(items: Seq<WebGPUItem>, raw: Seq<u8>, bytes: Seq<u8>)
    requires
        data_total(items) == raw.len(),
        bytes.len() <= usize::MAX,
    ensures
        resolve(items.push(WebGPUItem::Data(bytes.len() as usize)), raw + bytes) == resolve(items, raw) + bytes,
{
    let t = items.push(WebGPUItem::Data(bytes.len() as usize));
    assert(t.drop_last() =~= items);
    lemma_resolve_extra_raw(items, raw, bytes);
    assert((raw + bytes).subrange(raw.len() as int, (raw.len() + bytes.len()) as int) =~= bytes);
}

/// Appending a marker to a consistent block pads its resolution to the marker.
proof fn lemma_resolve_push_marker(items: Seq<WebGPUItem>, raw: Seq<u8>, a: Align)
    ensures
        resolve(items.push(WebGPUItem::Align(a)), raw) == resolve(items, raw) + zeros(
            padding(resolve(items, raw).len(), a.spec_value()),
        ),
        data_total(items.push(WebGPUItem::Align(a))) == data_total(items),
{
    assert(items.push(WebGPUItem::Align(a)).drop_last() =~= items);
}

/// A fixed-width scalar occupies exactly its width, and starts at an offset
/// that is a multiple of the alignment it reports, wherever it is appended.
pub proof fn lemma_scalar_placement(v: Value, items: Seq<WebGPUItem>, raw: Seq<u8>)
    requires
        is_fixed_scalar(v),
        data_total(items) == raw.len(),
    ensures
        enc(v) is Ok,
        ({
            let (si, sr, a) = enc(v)->Ok_0;
            let before = resolve(items, raw);
            let after = resolve(items + si, raw + sr);
            let start = after.len() - sr.len();
            &&& sr.len() == scalar_width(v)
            &&& before.len() <= start
            &&& after.subrange(0, before.len() as int) == before
            &&& after.subrange(start, after.len() as int) == sr
            &&& start % (a.spec_value() as int) == 0
        }),
{
    let (si, sr, a) = enc(v)->Ok_0;
    let before = resolve(items, raw);
    if v is Bool || v is I8 || v is U8 {
        assert(items + si =~= items.push(WebGPUItem::Data(sr.len() as usize)));
        lemma_resolve_push_data(items, raw, sr);
        let after = resolve(items + si, raw + sr);
        assert(after.subrange(0, before.len() as int) =~= before);
        assert(after.subrange(before.len() as int, after.len() as int) =~= sr);
    } else {
        let p = si[0]->Align_0;
        let mid = items.push(WebGPUItem::Align(p));
        assert(items + si =~= mid.push(WebGPUItem::Data(sr.len() as usize)));
        lemma_resolve_push_marker(items, raw, p);
        lemma_resolve_push_data(mid, raw, sr);
        lemma_padding_aligns(before.len(), p.spec_value());
        let after = resolve(items + si, raw + sr);
        let rm = resolve(mid, raw);
        assert(after == rm + sr);
        assert(after.subrange(0, before.len() as int) =~= before);
        assert(after.subrange(rm.len() as int, after.len() as int) =~= sr);
    }
}

/// A composite's bytes, laid out alone, fill a multiple of the alignment its
/// members require together, and that alignment is never zero.
pub proof fn lemma_composite_length(v: Value)
    requires
        is_composite(v),
        layout(v) is Ok,
    ensures
        members_align(v) != Align::Align0,
        layout(v)->Ok_0.len() % members_align(v).spec_value() == 0,
{
    let (items, raw, _) = enc(v)->Ok_0;
    let m = members_align(v);
    assert(items.last() == WebGPUItem::Align(m));
    lemma_resolve_ends_aligned(items, raw, m);
}

/// Appending a four-byte scalar at a four-byte boundary appends exactly its bytes.
proof fn lemma_word_at_boundary(v: Value, items: Seq<WebGPUItem>, raw: Seq<u8>)
    requires
        is_word_scalar(v),
        data_total(items) == raw.len(),
        resolve(items, raw).len() % 4 == 0,
    ensures
        enc(v) is Ok,
        enc(v)->Ok_0.2 == Align::Align4,
        enc(v)->Ok_0.1.len() == 4,
        resolve(items + enc(v)->Ok_0.0, raw + enc(v)->Ok_0.1) == resolve(items, raw) + enc(v)->Ok_0.1,
        data_total(items + enc(v)->Ok_0.0) == raw.len() + 4,
{
    let (si, sr, a) = enc(v)->Ok_0;
    let mid = items.push(WebGPUItem::Align(Align::Align4));
    assert(items + si =~= mid.push(WebGPUItem::Data(sr.len() as usize)));
    lemma_resolve_push_marker(items, raw, Align::Align4);
    lemma_resolve_push_data(mid, raw, sr);
    assert(zeros(0) =~= Seq::<u8>::empty());
    assert(resolve(mid, raw) =~= resolve(items, raw));
    assert(mid.push(WebGPUItem::Data(sr.len() as usize)).drop_last() =~= mid);
}

/// Lays out a struct of two four-byte scalars: their bytes in order, no padding.
proof fn lemma_word_pair(x: Value, y: Value, fields: Vec<Value>)
    requires
        is_word_scalar(x),
        is_word_scalar(y),
        fields@ == seq![x, y],
    ensures
        layout(Value::Struct(fields)) == Ok::<Seq<u8>, crate::error::ErrorKind>(enc(x)->Ok_0.1 + enc(y)->Ok_0.1),
{
    let (sx, rx, ax) = enc(x)->Ok_0;
    let (sy, ry, ay) = enc(y)->Ok_0;
    let s = fields@;
    assert(s[0] == x && s[1] == y);
    assert(enc_members(s, 0) == Ok::<_, crate::error::ErrorKind>((Seq::<WebGPUItem>::empty(), Seq::<u8>::empty(), Align::Align0)));
    assert(Seq::<WebGPUItem>::empty() + sx =~= sx);
    assert(Seq::<u8>::empty() + rx =~= rx);
    assert(enc_members(s, 1) == Ok::<_, crate::error::ErrorKind>((sx, rx, Align::Align4)));
    assert(enc_members(s, 2) == Ok::<_, crate::error::ErrorKind>((sx + sy, rx + ry, Align::Align4)));
    let i0 = seq![WebGPUItem::Align(Align::Align4)];
    let e: Seq<u8> = Seq::empty();
    assert(i0 =~= Seq::<WebGPUItem>::empty().push(WebGPUItem::Align(Align::Align4)));
    lemma_resolve_push_marker(Seq::empty(), e, Align::Align4);
    assert(resolve(i0, e) =~= e);
    lemma_word_at_boundary(x, i0, e);
    assert(e + rx =~= rx);
    let i1 = i0 + sx;
    lemma_word_at_boundary(y, i1, rx);
    let i2 = i1 + sy;
    lemma_resolve_push_marker(i2, rx + ry, Align::Align4);
    assert(resolve(i2.push(WebGPUItem::Align(Align::Align4)), rx + ry) =~= rx + ry);
    assert(i2.push(WebGPUItem::Align(Align::Align4)) =~= seq![WebGPUItem::Align(Align::Align4)] + (sx + sy) + seq![WebGPUItem::Align(Align::Align4)]);
}

/// Swapping two four-byte fields of a struct keeps its length and swaps their
/// bytes: the layout follows field order, so it changes whenever the two fields
/// encode differently.
pub proof fn lemma_swap_fields(x: Value, y: Value, xy: Vec<Value>, yx: Vec<Value>)
    requires
        is_word_scalar(x),
        is_word_scalar(y),
        xy@ == seq![x, y],
        yx@ == seq![y, x],
    ensures
        layout(Value::Struct(xy)) is Ok,
        layout(Value::Struct(yx)) is Ok,
        layout(Value::Struct(xy))->Ok_0.len() == layout(Value::Struct(yx))->Ok_0.len(),
        layout(Value::Struct(xy))->Ok_0 == enc(x)->Ok_0.1 + enc(y)->Ok_0.1,
        layout(Value::Struct(yx))->Ok_0 == enc(y)->Ok_0.1 + enc(x)->Ok_0.1,
        enc(x)->Ok_0.1 != enc(y)->Ok_0.1 ==> layout(Value::Struct(xy)) != layout(Value::Struct(yx)),
{
    lemma_word_pair(x, y, xy);
    lemma_word_pair(y, x, yx);
    let rx = enc(x)->Ok_0.1;
    let ry = enc(y)->Ok_0.1;
    if rx != ry {
        if rx + ry == ry + rx {
            assert(rx =~= (rx + ry).subrange(0, 4));
            assert(ry =~= (ry + rx).subrange(0, 4));
        }
    }
}

} // verus!
