use vstd::prelude::*;

use crate::align::Align;

verus! {

/// One entry of a block's item list: an alignment marker, or a span of raw bytes.
#[derive(Copy, Clone, Debug, PartialEq, Eq, Structural)]
pub enum WebGPUItem {
    Align(Align),
    Data(usize),
}

/// Total number of raw bytes that the `Data` items of `items` stand for.
pub open spec fn data_total(items: Seq<WebGPUItem>) -> nat
    decreases items.len(),
{
    if items.len() == 0 {
        0
    } else {
        data_total(items.drop_last()) + match items.last() {
            WebGPUItem::Data(n) => n as nat,
            WebGPUItem::Align(_) => 0,
        }
    }
}

/// Number of zero bytes that bring `len` up to a multiple of `a` (for `a > 0`).
pub open spec fn padding(len: nat, a: nat) -> nat {
    if a == 0 || len % a == 0 {
        0
    } else {
        (a - len % a) as nat
    }
}

pub open spec fn zeros(n: nat) -> Seq<u8> {
    Seq::new(n, |i: int| 0u8)
}

/// The bytes that resolving `items` against the raw store `raw` produces:
/// markers become zero padding, data items copy their span of `raw`.
pub open spec fn resolve(items: Seq<WebGPUItem>, raw: Seq<u8>) -> Seq<u8>
    decreases items.len(),
{
    if items.len() == 0 {
        Seq::empty()
    } else {
        let prev = resolve(items.drop_last(), raw);
        match items.last() {
            WebGPUItem::Align(a) => prev + zeros(padding(prev.len(), a.spec_value())),
            WebGPUItem::Data(n) => {
                let start = data_total(items.drop_last());
                prev + raw.subrange(start as int, start + n)
            },
        }
    }
}

pub proof fn lemma_data_total_concat(a: Seq<WebGPUItem>, b: Seq<WebGPUItem>)
    ensures
        data_total(a + b) == data_total(a) + data_total(b),
    decreases b.len(),
{
    if b.len() == 0 {
        assert(a + b =~= a);
    } else {
        lemma_data_total_concat(a, b.drop_last());
        assert((a + b).drop_last() =~= a + b.drop_last());
    }
}

pub proof fn lemma_data_total_update_marker(s: Seq<WebGPUItem>, i: int, a: Align)
    requires
        0 <= i < s.len(),
        s[i] is Align,
    ensures
        data_total(s.update(i, WebGPUItem::Align(a))) == data_total(s),
    decreases s.len(),
{
    let t = s.update(i, WebGPUItem::Align(a));
    if i < s.len() - 1 {
        lemma_data_total_update_marker(s.drop_last(), i, a);
        assert(t.drop_last() =~= s.drop_last().update(i, WebGPUItem::Align(a)));
    } else {
        assert(t.drop_last() =~= s.drop_last());
    }
}

/// The deferred-layout buffer: raw bytes, and the items that say how to lay them out.
#[derive(Clone, Debug)]
pub struct WebGPUBlock {
    pub buffer: Vec<u8>,
    pub items: Vec<WebGPUItem>,
}

impl WebGPUBlock {
    /// The data items account for exactly the raw bytes held.
    pub open spec fn wf(&self) -> bool {
        data_total(self.items@) == self.buffer@.len()
    }

    pub fn new() -> (r: Self)
        ensures
            r.wf(),
            r.items@ == Seq::<WebGPUItem>::empty(),
            r.buffer@ == Seq::<u8>::empty(),
    {
        WebGPUBlock { buffer: Vec::new(), items: Vec::new() }
    }

    /// Appends raw bytes as one data item.
    pub fn append(&mut self, i: &[u8])
        requires
            old(self).wf(),
        ensures
            final(self).wf(),
            final(self).buffer@ == old(self).buffer@ + i@,
            final(self).items@ == old(self).items@.push(WebGPUItem::Data(i@.len() as usize)),
    {
        self.buffer.extend_from_slice(i);
        self.items.push(WebGPUItem::Data(i.len()));
        proof {
            assert(self.buffer@ =~= old(self).buffer@ + i@);
            assert(self.items@.drop_last() =~= old(self).items@);
        }
    }

    /// Appends an alignment marker and returns its position.
    pub fn align(&mut self, align: Align) -> (index: usize)
        requires
            old(self).wf(),
        ensures
            final(self).wf(),
            index == old(self).items@.len(),
            final(self).buffer@ == old(self).buffer@,
            final(self).items@ == old(self).items@.push(WebGPUItem::Align(align)),
    {
        let index = self.items.len();
        self.items.push(WebGPUItem::Align(align));
        proof {
            assert(self.items@.drop_last() =~= old(self).items@);
        }
        index
    }

    /// The current value of the marker at `index`.
    pub fn get_align(&self, index: usize) -> (r: Align)
        requires
            index < self.items@.len(),
            self.items@[index as int] is Align,
        ensures
            self.items@[index as int] == WebGPUItem::Align(r),
    {
        match self.items[index] {
            WebGPUItem::Align(a) => a,
            WebGPUItem::Data(_) => Align::Align0,
        }
    }

    /// Strengthens the marker at `index` by `align`.
    pub fn align_append(&mut self, index: usize, align: Align)
        requires
            old(self).wf(),
            index < old(self).items@.len(),
            old(self).items@[index as int] is Align,
        ensures
            final(self).wf(),
            final(self).buffer@ == old(self).buffer@,
            final(self).items@ == old(self).items@.update(
                index as int,
                WebGPUItem::Align(old(self).items@[index as int]->Align_0.join(align)),
            ),
    {
        let mut a = self.get_align(index);
        a.append(align);
        self.items.set(index, WebGPUItem::Align(a));
        proof {
            lemma_data_total_update_marker(old(self).items@, index as int, a);
        }
    }
    /// Resolves the layout: a single forward pass that turns markers into zero
    /// padding and copies each data span out of the raw store.
    pub fn compute_layout(&self) -> (r: Vec<u8>)
        requires
            self.wf(),
        ensures
            r@ == resolve(self.items@, self.buffer@),
    {
        let mut buffer: Vec<u8> = Vec::new();
        let mut offset: usize = 0;
        let n = self.items.len();
        let total = self.buffer.len();
        let mut k: usize = 0;
        while k < n
            invariant
                n == self.items@.len(),
                total == self.buffer@.len(),
                k <= n,
                self.wf(),
                buffer@ == resolve(self.items@.take(k as int), self.buffer@),
                offset == data_total(self.items@.take(k as int)),
            decreases n - k,
        {
            proof {
                assert(self.items@.take(k as int + 1).drop_last() =~= self.items@.take(k as int));
                lemma_data_total_concat(self.items@.take(k as int + 1), self.items@.skip(k as int + 1));
                assert(self.items@.take(k as int + 1) + self.items@.skip(k as int + 1) =~= self.items@);
                assert(self.items@.take(k as int + 1).last() == self.items@[k as int]);
            }
            match self.items[k] {
                WebGPUItem::Align(align) => {
                    let a = align.value();
                    if a != 0 {
                        let p = buffer.len();
                        let pad: usize = if p % a == 0 { 0 } else { a - p % a };
                        let ghost before = buffer@;
                        let mut j: usize = 0;
                        while j < pad
                            invariant
                                j <= pad,
                                buffer@ == before + zeros(j as nat),
                            decreases pad - j,
                        {
                            buffer.push(0);
                            j = j + 1;
                            proof {
                                assert(buffer@ =~= before + zeros(j as nat));
                            }
                        }
                    } else {
                        proof {
                            assert(buffer@ =~= buffer@ + zeros(0));
                        }
                    }
                },
                WebGPUItem::Data(length) => {
                    proof {
                        let t = self.items@.take(k as int + 1);
                        assert(data_total(t) == data_total(t.drop_last()) + length);
                        assert(data_total(t) <= data_total(self.items@));
                    }
                    let next_offset = offset + length;
                    let ghost before = buffer@;
                    let mut j: usize = offset;
                    while j < next_offset
                        invariant
                            offset <= j <= next_offset,
                            next_offset <= self.buffer@.len(),
                            buffer@ == before + self.buffer@.subrange(offset as int, j as int),
                        decreases next_offset - j,
                    {
                        buffer.push(self.buffer[j]);
                        j = j + 1;
                        proof {
                            assert(buffer@ =~= before + self.buffer@.subrange(offset as int, j as int));
                        }
                    }
                    offset = next_offset;
                },
            }
            k = k + 1;
        }
        proof {
            assert(self.items@.take(n as int) =~= self.items@);
        }
        buffer
    }
}

} // verus!
