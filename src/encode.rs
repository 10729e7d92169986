use vstd::prelude::*;

use crate::align::Align;
use crate::block::{WebGPUBlock, WebGPUItem, padding, resolve};
use crate::error::{ErrorKind, WebGPUSerializeError};
use crate::layout::enc;
use crate::serializer::serialize_value;
use crate::value::Value;

verus! {

/// The bytes that a value lays out to, with no trailing padding.
pub open spec fn layout(v: Value) -> Result<Seq<u8>, ErrorKind> {
    match enc(v) {
        Ok((items, raw, _)) => Ok(resolve(items, raw)),
        Err(e) => Err(e),
    }
}

/// The bytes that a value lays out to, padded at the end to a 16-byte boundary.
pub open spec fn buffer_layout(v: Value) -> Result<Seq<u8>, ErrorKind> {
    match enc(v) {
        Ok((items, raw, _)) => Ok(resolve(items.push(WebGPUItem::Align(Align::Align16)), raw)),
        Err(e) => Err(e),
    }
}

pub proof fn lemma_padding_aligns(len: nat, a: nat)
    requires
        a > 0,
    ensures
        (len + padding(len, a)) % a == 0,
        padding(len, a) < a,
{
    if len % a != 0 {
        vstd::arithmetic::div_mod::lemma_fundamental_div_mod(len as int, a as int);
        let q = len as int / a as int;
        assert(len + padding(len, a) == (q + 1) * a) by (nonlinear_arith)
            requires
                len == a * q + len % a,
                padding(len, a) == a - len % a,
        ;
        vstd::arithmetic::div_mod::lemma_mod_multiples_basic(q + 1, a as int);
    }
}

/// Resolving items that end in a non-zero marker yields a length that is a
/// multiple of that marker's alignment.
pub proof fn lemma_resolve_ends_aligned(items: Seq<WebGPUItem>, raw: Seq<u8>, a: Align)
    requires
        items.len() > 0,
        items.last() == WebGPUItem::Align(a),
        a != Align::Align0,
    ensures
        resolve(items, raw).len() % a.spec_value() == 0,
{
    let prev = resolve(items.drop_last(), raw);
    lemma_padding_aligns(prev.len(), a.spec_value());
}

fn serialize_webgpu_base(value: &Value) -> (r: Result<WebGPUBlock, WebGPUSerializeError>)
    ensures
        match enc(*value) {
            Ok((items, raw, _)) => {
                &&& r is Ok
                &&& r->Ok_0.wf()
                &&& r->Ok_0.items@ == items
                &&& r->Ok_0.buffer@ == raw
            },
            Err(e) => r is Err && r->Err_0.kind == e,
        },
{
    let mut block = WebGPUBlock::new();
    match serialize_value(value, &mut block) {
        Err(e) => Err(e),
        Ok(_) => {
            proof {
                let (items, raw, _) = enc(*value)->Ok_0;
                assert(block.items@ =~= items);
                assert(block.buffer@ =~= raw);
            }
            Ok(block)
        },
    }
}

/// Lays a value out with its internal alignment and padding, and no trailing padding.
pub fn serialize_webgpu(value: &Value) -> (r: Result<Vec<u8>, WebGPUSerializeError>)
    ensures
        match layout(*value) {
            Ok(bytes) => r is Ok && r->Ok_0@ == bytes,
            Err(e) => r is Err && r->Err_0.kind == e,
        },
{
    match serialize_webgpu_base(value) {
        Err(e) => Err(e),
        Ok(block) => Ok(block.compute_layout()),
    }
}

/// Lays a value out as `serialize_webgpu` does, then pads the end with zeros to
/// a multiple of 16 bytes.
pub fn serialize_webgpu_buffer(value: &Value) -> (r: Result<Vec<u8>, WebGPUSerializeError>)
    ensures
        match buffer_layout(*value) {
            Ok(bytes) => r is Ok && r->Ok_0@ == bytes,
            Err(e) => r is Err && r->Err_0.kind == e,
        },
        r is Ok ==> r->Ok_0@.len() % 16 == 0,
{
    match serialize_webgpu_base(value) {
        Err(e) => Err(e),
        Ok(block) => {
            let mut block = block;
            block.align(Align::Align16);
            proof {
                lemma_resolve_ends_aligned(block.items@, block.buffer@, Align::Align16);
            }
            Ok(block.compute_layout())
        },
    }
}

} // verus!
