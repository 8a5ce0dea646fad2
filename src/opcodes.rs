//! Shared pieces of the opcode handlers: expected operation sequences,
//! memory helpers, and the recording loops for byte runs.
use vstd::prelude::*;
use crate::builder::{record, refs_since, stamped, MEMORY_LIMIT};
use crate::operation::{
    CallContextField, CallContextOp, MemoryOp, Op, OpRef, OpView, OperationContainer,
    OperationView, RW, StackOp,
};

verus! {

/// A read of a call-context field.
pub open spec fn cc_read(call_id: u64, field: CallContextField, value: u64) -> (RW, OpView) {
    (RW::Read, OpView::CallContext(CallContextOp { call_id, field, value }))
}

/// A read of a stack slot.
pub open spec fn stack_read(call_id: u64, address: u64, value: u64) -> (RW, OpView) {
    (RW::Read, OpView::Stack(StackOp { call_id, address, value }))
}

/// Reads of consecutive memory bytes from `offset` on.
pub open spec fn memory_reads(call_id: u64, offset: int, bytes: Seq<u8>) -> Seq<(RW, OpView)> {
    Seq::new(
        bytes.len(),
        |i: int| (RW::Read, OpView::Memory(MemoryOp { call_id, address: (offset + i) as u64, value: bytes[i] })),
    )
}

/// Writes of consecutive memory bytes from `offset` on.
pub open spec fn memory_writes(call_id: u64, offset: int, bytes: Seq<u8>) -> Seq<(RW, OpView)> {
    Seq::new(
        bytes.len(),
        |i: int| (RW::Write, OpView::Memory(MemoryOp { call_id, address: (offset + i) as u64, value: bytes[i] })),
    )
}

/// A flag as a call-context value.
pub open spec fn flag(b: bool) -> u64 {
    if b {
        1
    } else {
        0
    }
}

/// A flag as a call-context value.
pub fn flag_value(b: bool) -> (r: u64)
    ensures
        r == flag(b),
{
    if b {
        1
    } else {
        0
    }
}

/// Memory grown with zero bytes to at least `size` bytes.
pub open spec fn extended(m: Seq<u8>, size: int) -> Seq<u8> {
    if m.len() >= size {
        m
    } else {
        m + Seq::new((size - m.len()) as nat, |i: int| 0u8)
    }
}

/// Memory with `bytes` written from `offset` on.
pub open spec fn written(m: Seq<u8>, offset: int, bytes: Seq<u8>) -> Seq<u8> {
    m.subrange(0, offset) + bytes + m.subrange(offset + bytes.len(), m.len() as int)
}

/// Grows memory with zero bytes to at least `size` bytes.
pub fn extend_memory(m: &mut Vec<u8>, size: u64)
    requires
        size <= MEMORY_LIMIT,
        old(m)@.len() <= MEMORY_LIMIT,
    ensures
        final(m)@ == extended(old(m)@, size as int),
        final(m)@.len() <= MEMORY_LIMIT,
{
    let ghost m0 = old(m)@;
    if (m.len() as u64) < size {
        let n = size as usize;
        while m.len() < n
            invariant
                m0.len() <= m@.len() <= n,
                n == size,
                m@ == m0 + Seq::new((m@.len() - m0.len()) as nat, |i: int| 0u8),
            decreases n - m@.len(),
        {
            m.push(0u8);
            assert(m@ =~= m0 + Seq::new((m@.len() - m0.len()) as nat, |i: int| 0u8));
        }
    }
}

/// The bytes of memory from `offset` on, `len` of them.
pub fn read_memory(m: &Vec<u8>, offset: u64, len: u64) -> (r: Vec<u8>)
    requires
        offset + len <= m@.len(),
    ensures
        r@ == m@.subrange(offset as int, offset + len),
{
    let mut r: Vec<u8> = Vec::new();
    let mut i: u64 = 0;
    let n = m.len();
    while i < len
        invariant
            i <= len,
            n == m@.len(),
            offset + len <= m@.len(),
            r@ == m@.subrange(offset as int, offset + i),
        decreases len - i,
    {
        r.push(m[(offset + i) as usize]);
        i = i + 1;
        assert(r@ =~= m@.subrange(offset as int, offset + i));
    }
    r
}

/// Records reads of consecutive memory bytes.
pub fn record_memory_reads(
    c: &mut OperationContainer,
    refs: &mut Vec<OpRef>,
    call_id: u64,
    offset: u64,
    bytes: &Vec<u8>,
    Ghost(base): Ghost<Seq<OperationView>>,
    Ghost(done): Ghost<Seq<(RW, OpView)>>,
) -> (r: Ghost<Seq<(RW, OpView)>>)
    requires
        old(c).wf(),
        old(c).ops@.len() + bytes@.len() < u64::MAX,
        offset + bytes@.len() <= u64::MAX,
        old(c).ops() == base + stamped(base.len(), done),
        refs_since(old(c), old(refs)@, base.len()),
    ensures
        r@ == done + memory_reads(call_id, offset as int, bytes@),
        final(c).wf(),
        final(c).ops@.len() == old(c).ops@.len() + bytes@.len(),
        final(c).ops() == base + stamped(base.len(), r@),
        refs_since(final(c), final(refs)@, base.len()),
{
    let mut d: Ghost<Seq<(RW, OpView)>> = Ghost(done);
    let mut i: usize = 0;
    assert(done + memory_reads(call_id, offset as int, bytes@.subrange(0, 0)) =~= done);
    while i < bytes.len()
        invariant
            i <= bytes@.len(),
            c.wf(),
            c.ops@.len() == old(c).ops@.len() + i,
            old(c).ops@.len() + bytes@.len() < u64::MAX,
            offset + bytes@.len() <= u64::MAX,
            d@ == done + memory_reads(call_id, offset as int, bytes@.subrange(0, i as int)),
            c.ops() == base + stamped(base.len(), d@),
            refs_since(c, refs@, base.len()),
        decreases bytes@.len() - i,
    {
        let op = Op::Memory(MemoryOp { call_id, address: offset + i as u64, value: bytes[i] });
        d = record(c, refs, RW::Read, op, Ghost(base), d);
        i = i + 1;
        assert(d@ =~= done + memory_reads(call_id, offset as int, bytes@.subrange(0, i as int)));
    }
    assert(bytes@.subrange(0, bytes@.len() as int) =~= bytes@);
    d
}

/// Writes consecutive bytes into memory and records each write.
pub fn record_memory_writes(
    c: &mut OperationContainer,
    refs: &mut Vec<OpRef>,
    m: &mut Vec<u8>,
    call_id: u64,
    offset: u64,
    bytes: &Vec<u8>,
    Ghost(base): Ghost<Seq<OperationView>>,
    Ghost(done): Ghost<Seq<(RW, OpView)>>,
) -> (r: Ghost<Seq<(RW, OpView)>>)
    requires
        old(c).wf(),
        old(c).ops@.len() + bytes@.len() < u64::MAX,
        offset + bytes@.len() <= old(m)@.len(),
        old(c).ops() == base + stamped(base.len(), done),
        refs_since(old(c), old(refs)@, base.len()),
    ensures
        r@ == done + memory_writes(call_id, offset as int, bytes@),
        final(c).wf(),
        final(c).ops@.len() == old(c).ops@.len() + bytes@.len(),
        final(c).ops() == base + stamped(base.len(), r@),
        refs_since(final(c), final(refs)@, base.len()),
        final(m)@ == written(old(m)@, offset as int, bytes@),
{
    let mut d: Ghost<Seq<(RW, OpView)>> = Ghost(done);
    let mut i: usize = 0;
    let ghost m0 = m@;
    let n = m.len();
    assert(done + memory_writes(call_id, offset as int, bytes@.subrange(0, 0)) =~= done);
    assert(written(m0, offset as int, bytes@.subrange(0, 0)) =~= m0);
    while i < bytes.len()
        invariant
            i <= bytes@.len(),
            c.wf(),
            c.ops@.len() == old(c).ops@.len() + i,
            old(c).ops@.len() + bytes@.len() < u64::MAX,
            offset + bytes@.len() <= m0.len(),
            m0 == old(m)@,
            n == m0.len(),
            m@.len() == n,
            m@ == written(m0, offset as int, bytes@.subrange(0, i as int)),
            d@ == done + memory_writes(call_id, offset as int, bytes@.subrange(0, i as int)),
            c.ops() == base + stamped(base.len(), d@),
            refs_since(c, refs@, base.len()),
        decreases bytes@.len() - i,
    {
        let a = offset + i as u64;
        let b = bytes[i];
        m.set(a as usize, b);
        let op = Op::Memory(MemoryOp { call_id, address: a, value: b });
        d = record(c, refs, RW::Write, op, Ghost(base), d);
        i = i + 1;
        assert(d@ =~= done + memory_writes(call_id, offset as int, bytes@.subrange(0, i as int)));
        assert(m@ =~= written(m0, offset as int, bytes@.subrange(0, i as int)));
    }
    assert(bytes@.subrange(0, bytes@.len() as int) =~= bytes@);
    d
}

proof fn lemma_written_at(m: Seq<u8>, size1: int, size2: int, offset: int, bytes: Seq<u8>, j: int)
    requires
        0 <= offset,
        offset + bytes.len() <= size2,
        0 <= j < written(extended(extended(m, size1), size2), offset, bytes).len(),
    ensures
        written(extended(extended(m, size1), size2), offset, bytes).len() == extended(
            extended(m, size1),
            size2,
        ).len(),
        extended(extended(m, size1), size2).len() >= m.len(),
        extended(extended(m, size1), size2).len() >= size1,
        extended(extended(m, size1), size2).len() >= size2,
        extended(extended(m, size1), size2).len() == m.len() || extended(extended(m, size1), size2).len()
            == size1 || extended(extended(m, size1), size2).len() == size2,
        written(extended(extended(m, size1), size2), offset, bytes)[j] == if offset <= j < offset
            + bytes.len() {
            bytes[j - offset]
        } else if j < m.len() {
            m[j]
        } else {
            0u8
        },
{
    let e1 = extended(m, size1);
    let e = extended(e1, size2);
    assert(e1.len() >= m.len());
    assert(forall|i: int| 0 <= i < e1.len() ==> e1[i] == if i < m.len() { m[i] } else { 0u8 });
    assert(forall|i: int| 0 <= i < e.len() ==> e[i] == if i < e1.len() { e1[i] } else { 0u8 });
}

/// Whether `look` is memory `m` grown to `size1`, then to `size2`, with
/// `bytes` written from `offset` on.
pub fn matches_after_write(
    m: &Vec<u8>,
    size1: u64,
    size2: u64,
    offset: u64,
    bytes: &Vec<u8>,
    look: &Vec<u8>,
) -> (r: bool)
    requires
        size1 <= MEMORY_LIMIT,
        size2 <= MEMORY_LIMIT,
        offset + bytes@.len() <= size2,
    ensures
        r == (look@ == written(extended(extended(m@, size1 as int), size2 as int), offset as int, bytes@)),
{
    let ghost w = written(extended(extended(m@, size1 as int), size2 as int), offset as int, bytes@);
    let mu = m.len();
    let mlen = mu as u64;
    let mut n = mlen;
    if n < size1 {
        n = size1;
    }
    if n < size2 {
        n = size2;
    }
    proof {
        if w.len() > 0 {
            lemma_written_at(m@, size1 as int, size2 as int, offset as int, bytes@, 0);
        } else {
            assert(extended(extended(m@, size1 as int), size2 as int).len() >= size2);
            assert(written(extended(extended(m@, size1 as int), size2 as int), offset as int, bytes@).len()
                == extended(extended(m@, size1 as int), size2 as int).len());
        }
    }
    let lu = look.len();
    if lu as u64 != n {
        return false;
    }
    let bu = bytes.len();
    let blen = bu as u64;
    let mut j: u64 = 0;
    while j < n
        invariant
            j <= n,
            n == look@.len(),
            n == lu,
            n == w.len(),
            mlen == m@.len(),
            mlen == mu,
            blen == bytes@.len(),
            blen == bu,
            offset + blen <= size2,
            size2 <= MEMORY_LIMIT,
            size1 <= MEMORY_LIMIT,
            w == written(extended(extended(m@, size1 as int), size2 as int), offset as int, bytes@),
            forall|i: int| 0 <= i < j ==> look@[i] == w[i],
        decreases n - j,
    {
        proof {
            lemma_written_at(m@, size1 as int, size2 as int, offset as int, bytes@, j as int);
        }
        let e = if offset <= j && j < offset + blen {
            let k = (j - offset) as usize;
            assert(k == j - offset);
            bytes[k]
        } else if j < mlen {
            let k = j as usize;
            assert(k == j);
            m[k]
        } else {
            0u8
        };
        let ju = j as usize;
        assert(ju == j);
        if look[ju] != e {
            return false;
        }
        j = j + 1;
    }
    assert(look@ =~= w);
    true
}

} // verus!
