use vstd::prelude::*;

use crate::align::Align;
use crate::block::{WebGPUBlock, WebGPUItem};
use crate::error::{ErrorKind, WebGPUSerializeError};
use crate::layout::{enc, enc_members, close, lemma_members_err_persists, forced_align, half_name, le2, le4, vec_name};
use crate::value::Value;

verus! {

/// The alignment forced on a named tuple of `len` fields by its name.
pub fn vec_align(name: &Vec<u8>, len: usize) -> (r: Align)
    ensures
        r == forced_align(name@, len as nat),
{
    if len < 2 || len > 4 || name.len() != 8 {
        return Align::Align0;
    }
    let digit: u8 = (48 + len) as u8;
    if name[0] != 118u8 || name[1] != 101u8 || name[2] != 99u8 || name[3] != digit || name[4] != 64u8 {
        proof {
            assert(name@.subrange(0, 5) != vec_name(len as nat, seq![]));
            assert(name@ != vec_name(len as nat, half_name()));
        }
        return Align::Align0;
    }
    proof {
        assert(name@.subrange(0, 5) =~= vec_name(len as nat, seq![]));
    }
    if name[5] == 102u8 && name[6] == 49u8 && name[7] == 54u8 {
        proof {
            assert(name@ =~= vec_name(len as nat, half_name()));
        }
        if len == 2 { Align::Align4 } else { Align::Align8 }
    } else {
        proof {
            assert(name@ != vec_name(len as nat, half_name()));
        }
        let kind_ok = (name[5] == 105u8 || name[5] == 117u8 || name[5] == 102u8) && name[6] == 51u8
            && name[7] == 50u8;
        proof {
            let k = name@.subrange(5, 8);
            if kind_ok {
                if name[5] == 105u8 {
                    assert(k =~= seq![105u8, 51u8, 50u8]);
                } else if name[5] == 117u8 {
                    assert(k =~= seq![117u8, 51u8, 50u8]);
                } else {
                    assert(k =~= seq![102u8, 51u8, 50u8]);
                }
            } else {
                assert(k[0] == name[5] && k[1] == name[6] && k[2] == name[7]);
            }
        }
        if !kind_ok {
            Align::Align0
        } else if len == 2 {
            Align::Align8
        } else {
            Align::Align16
        }
    }
}

/// Whether a wrapper's name marks a half-precision float.
pub fn is_half_name(name: &Vec<u8>) -> (r: bool)
    ensures
        r == (name@ == half_name()),
{
    let r = name.len() == 3 && name[0] == 102u8 && name[1] == 49u8 && name[2] == 54u8;
    proof {
        if r {
            assert(name@ =~= half_name());
        } else if name@.len() == 3 {
            assert(name@ != half_name() || (name@[0] == 102u8 && name@[1] == 49u8 && name@[2] == 54u8));
        }
    }
    r
}

/// Pads to `pre`, then appends `bytes` as one data item.
fn append_padded(write: &mut WebGPUBlock, pre: Align, bytes: &[u8])
    requires
        old(write).wf(),
    ensures
        final(write).wf(),
        final(write).items@ == old(write).items@ + seq![WebGPUItem::Align(pre), WebGPUItem::Data(bytes@.len() as usize)],
        final(write).buffer@ == old(write).buffer@ + bytes@,
{
    write.align(pre);
    write.append(bytes);
    proof {
        assert(write.items@ =~= old(write).items@ + seq![WebGPUItem::Align(pre), WebGPUItem::Data(bytes@.len() as usize)]);
    }
}

/// Little-endian bytes of a 16-bit pattern.
fn le2_bytes(x: u16) -> (r: Vec<u8>)
    ensures
        r@ == le2(x),
{
    let r = vec![(x % 256) as u8, (x / 256) as u8];
    proof {
        assert(r@ =~= le2(x));
    }
    r
}

/// Little-endian bytes of a 32-bit pattern.
fn le4_bytes(x: u32) -> (r: Vec<u8>)
    ensures
        r@ == le4(x),
{
    let r = vec![(x % 256) as u8, (x / 256 % 256) as u8, (x / 65536 % 256) as u8, (x / 16777216) as u8];
    proof {
        assert(r@ =~= le4(x));
    }
    r
}

/// A composite under construction: the position of its alignment marker, and
/// the alignment that its type forces on it.
pub struct WebGPUSerializeStruct {
    pub align_index: usize,
    pub ext_align: Align,
}

impl WebGPUSerializeStruct {
    /// Whether the marker of this composite stands in `write`.
    pub open spec fn marks(&self, write: &WebGPUBlock) -> bool {
        &&& write.wf()
        &&& self.align_index < write.items@.len()
        &&& write.items@[self.align_index as int] is Align
    }

    /// The alignment that the members visited so far require.
    pub open spec fn current(&self, write: &WebGPUBlock) -> Align {
        write.items@[self.align_index as int]->Align_0
    }

    /// Starts a composite: reserves its marker, unconstrained for now.
    pub fn new(write: &mut WebGPUBlock, ext_align: Align) -> (r: Self)
        requires
            old(write).wf(),
        ensures
            r.marks(final(write)),
            r.align_index == old(write).items@.len(),
            r.ext_align == ext_align,
            final(write).items@ == old(write).items@.push(WebGPUItem::Align(Align::Align0)),
            final(write).buffer@ == old(write).buffer@,
    {
        let align_index = write.align(Align::Align0);
        WebGPUSerializeStruct { align_index, ext_align }
    }

    /// Strengthens this composite's marker by a member's alignment.
    pub fn align_to(&self, write: &mut WebGPUBlock, align: Align)
        requires
            self.marks(old(write)),
        ensures
            self.marks(final(write)),
            final(write).buffer@ == old(write).buffer@,
            final(write).items@ == old(write).items@.update(
                self.align_index as int,
                WebGPUItem::Align(self.current(old(write)).join(align)),
            ),
    {
        write.align_append(self.align_index, align);
    }

    /// Encodes one member and strengthens the marker by what it reports.
    pub fn serialize_element(&self, write: &mut WebGPUBlock, value: &Value) -> (r: Result<(), WebGPUSerializeError>)
        requires
            self.marks(old(write)),
        ensures
            final(write).wf(),
            match enc(*value) {
                Ok((items, raw, a)) => {
                    &&& r is Ok
                    &&& self.marks(final(write))
                    &&& final(write).items@ == (old(write).items@ + items).update(
                        self.align_index as int,
                        WebGPUItem::Align(self.current(old(write)).join(a)),
                    )
                    &&& final(write).buffer@ == old(write).buffer@ + raw
                },
                Err(e) => r is Err && r->Err_0.kind == e,
            },
        decreases value, 2nat,
    {
        match serialize_value(value, write) {
            Err(e) => Err(e),
            Ok(align) => {
                proof {
                    let items = enc(*value)->Ok_0.0;
                    assert((old(write).items@ + items)[self.align_index as int] == old(write).items@[self.align_index as int]);
                }
                self.align_to(write, align);
                Ok(())
            },
        }
    }

    /// Finishes the composite: fails if no member required any alignment, else
    /// pads to the members' alignment and reports it combined with the forced one.
    pub fn end(self, write: &mut WebGPUBlock) -> (r: Result<Align, WebGPUSerializeError>)
        requires
            self.marks(old(write)),
        ensures
            final(write).wf(),
            self.current(old(write)) == Align::Align0 ==> r is Err && r->Err_0.kind == ErrorKind::ZeroSize,
            self.current(old(write)) != Align::Align0 ==> {
                &&& r == Ok::<Align, WebGPUSerializeError>(self.current(old(write)).join(self.ext_align))
                &&& final(write).items@ == old(write).items@.push(WebGPUItem::Align(self.current(old(write))))
                &&& final(write).buffer@ == old(write).buffer@
            },
    {
        let align = write.get_align(self.align_index);
        if align == Align::Align0 {
            return Err(WebGPUSerializeError::new(ErrorKind::ZeroSize));
        }
        write.align(align);
        Ok(align.with(self.ext_align))
    }
}

/// Encodes the members of a composite in order and closes it.
fn serialize_members(members: &Vec<Value>, forced: Align, write: &mut WebGPUBlock) -> (r: Result<Align, WebGPUSerializeError>)
    requires
        old(write).wf(),
    ensures
        final(write).wf(),
        match close(enc_members(members@, members@.len()), forced) {
            Ok((items, raw, a)) => {
                &&& r == Ok::<Align, WebGPUSerializeError>(a)
                &&& final(write).items@ == old(write).items@ + items
                &&& final(write).buffer@ == old(write).buffer@ + raw
            },
            Err(e) => r is Err && r->Err_0.kind == e,
        },
    decreases members, 0nat,
{
    let s = WebGPUSerializeStruct::new(write, forced);
    let n = members.len();
    let mut i: usize = 0;
    while i < n
        invariant
            n == members@.len(),
            i <= n,
            s.align_index == old(write).items@.len(),
            s.ext_align == forced,
            s.marks(write),
            enc_members(members@, i as nat) is Ok,
            ({
                let (items, raw, m) = enc_members(members@, i as nat)->Ok_0;
                &&& write.items@ == old(write).items@ + seq![WebGPUItem::Align(m)] + items
                &&& write.buffer@ == old(write).buffer@ + raw
            }),
        decreases n - i,
    {
        let ghost before = *write;
        let ghost (items0, raw0, m0) = enc_members(members@, i as nat)->Ok_0;
        proof {
            assert(before.items@[s.align_index as int] == WebGPUItem::Align(m0));
        }
        match s.serialize_element(write, &members[i]) {
            Err(e) => {
                proof {
                    assert(enc_members(members@, (i + 1) as nat) is Err);
                    lemma_members_err_persists(members@, (i + 1) as nat, n as nat);
                }
                return Err(e);
            },
            Ok(()) => {},
        }
        proof {
            let (items1, raw1, a) = enc(members@[i as int])->Ok_0;
            assert(write.items@ =~= old(write).items@ + seq![WebGPUItem::Align(m0.join(a))] + (items0 + items1));
            assert(write.buffer@ =~= old(write).buffer@ + (raw0 + raw1));
        }
        i = i + 1;
    }
    let ghost (items0, raw0, m0) = enc_members(members@, n as nat)->Ok_0;
    proof {
        assert(write.items@[s.align_index as int] == WebGPUItem::Align(m0));
    }
    let r = s.end(write);
    proof {
        if m0 != Align::Align0 {
            assert(write.items@ =~= old(write).items@ + (seq![WebGPUItem::Align(m0)] + items0 + seq![WebGPUItem::Align(m0)]));
        }
    }
    r
}

/// Encodes one value into `write`, by its shape, and returns the alignment it reports.
pub fn serialize_value(value: &Value, write: &mut WebGPUBlock) -> (r: Result<Align, WebGPUSerializeError>)
    requires
        old(write).wf(),
    ensures
        final(write).wf(),
        match enc(*value) {
            Ok((items, raw, a)) => {
                &&& r == Ok::<Align, WebGPUSerializeError>(a)
                &&& final(write).items@ == old(write).items@ + items
                &&& final(write).buffer@ == old(write).buffer@ + raw
            },
            Err(e) => r is Err && r->Err_0.kind == e,
        },
    decreases value, 1nat,
{
    match value {
        Value::Bool(b) => {
            let bytes = vec![if *b { 1u8 } else { 0u8 }];
            write.append(bytes.as_slice());
            proof { assert(bytes@ =~= seq![if *b { 1u8 } else { 0u8 }]); }
            Ok(Align::Align1)
        },
        Value::I8(x) => {
            let bytes = vec![*x as u8];
            write.append(bytes.as_slice());
            proof { assert(bytes@ =~= seq![*x as u8]); }
            Ok(Align::Align1)
        },
        Value::U8(x) => {
            let bytes = vec![*x];
            write.append(bytes.as_slice());
            proof { assert(bytes@ =~= seq![*x]); }
            Ok(Align::Align1)
        },
        Value::I16(x) => {
            let bytes = le2_bytes(*x as u16);
            append_padded(write, Align::Align2, bytes.as_slice());
            Ok(Align::Align4)
        },
        Value::U16(x) => {
            let bytes = le2_bytes(*x);
            append_padded(write, Align::Align4, bytes.as_slice());
            Ok(Align::Align4)
        },
        Value::I32(x) => {
            let bytes = le4_bytes(*x as u32);
            append_padded(write, Align::Align4, bytes.as_slice());
            Ok(Align::Align4)
        },
        Value::U32(x) => {
            let bytes = le4_bytes(*x);
            append_padded(write, Align::Align4, bytes.as_slice());
            Ok(Align::Align4)
        },
        Value::F32(bits) => {
            let bytes = le4_bytes(*bits);
            append_padded(write, Align::Align4, bytes.as_slice());
            Ok(Align::Align4)
        },
        Value::Char(c) => {
            let bytes = le4_bytes(*c as u32);
            append_padded(write, Align::Align4, bytes.as_slice());
            Ok(Align::Align4)
        },
        Value::Str(b) | Value::Bytes(b) => {
            append_padded(write, Align::Align1, b.as_slice());
            Ok(Align::Align1)
        },
        Value::I64(_) | Value::U64(_) | Value::F64(_) => Err(WebGPUSerializeError::new(ErrorKind::UnsupportedWidth)),
        Value::Optional | Value::Variant | Value::KeyValueMap => Err(WebGPUSerializeError::new(ErrorKind::UnsupportedShape)),
        Value::Unit | Value::UnitStruct(_) => {
            let s = WebGPUSerializeStruct::new(write, Align::Align0);
            s.end(write)
        },
        Value::NewtypeStruct(name, inner) => {
            if is_half_name(name) {
                return serialize_value(inner, write);
            }
            let s = WebGPUSerializeStruct::new(write, Align::Align0);
            let ghost mid = *write;
            match s.serialize_element(write, inner) {
                Err(e) => Err(e),
                Ok(()) => {
                    let ghost (items, raw, a) = enc(**inner)->Ok_0;
                    proof {
                        assert(write.items@[s.align_index as int] == WebGPUItem::Align(a));
                    }
                    let r = s.end(write);
                    proof {
                        assert(Align::Align0.join(a) == a);
                        if a != Align::Align0 {
                            assert(write.items@ =~= old(write).items@ + (seq![WebGPUItem::Align(a)] + items + seq![WebGPUItem::Align(a)]));
                        }
                    }
                    r
                },
            }
        },
        Value::Sequence(m) | Value::Tuple(m) | Value::Struct(m) => serialize_members(m, Align::Align0, write),
        Value::TupleStruct(name, m) => {
            let forced = vec_align(name, m.len());
            serialize_members(m, forced, write)
        },
    }
}

} // verus!
