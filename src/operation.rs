//! Read/write operations and the per-kind operation container.
use vstd::prelude::*;

verus! {

/// Whether an operation reads or writes its target.
#[derive(Clone, Copy, Debug, PartialEq, Eq, Structural)]
pub enum RW {
    Read,
    Write,
}

/// The kind of state an operation touches; each kind has its own log.
#[derive(Clone, Copy, Debug, PartialEq, Eq, Structural)]
pub enum Target {
    Memory,
    Stack,
    Storage,
    CallContext,
    TxAccessListAccount,
    TxAccessListAccountStorage,
    TxRefund,
    Account,
}

/// The fields of a call frame that a step may read from its call context.
#[derive(Clone, Copy, Debug, PartialEq, Eq, Structural)]
pub enum CallContextField {
    TxId,
    CallerId,
    CallDataLength,
    CallDataOffset,
    IsStatic,
    IsPersistent,
    RwCounterEndOfReversion,
    CalleeAddress,
}

/// The fields of an account that an operation may touch.
#[derive(Clone, Copy, Debug, PartialEq, Eq, Structural)]
pub enum AccountField {
    Nonce,
    Balance,
    CodeHash,
}

/// An access to one stack slot of a call.
#[derive(Clone, Copy, Debug, PartialEq, Eq, Structural)]
pub struct StackOp {
    pub call_id: u64,
    pub address: u64,
    pub value: u64,
}

/// An access to one memory byte of a call.
#[derive(Clone, Copy, Debug, PartialEq, Eq, Structural)]
pub struct MemoryOp {
    pub call_id: u64,
    pub address: u64,
    pub value: u8,
}

/// A read of one call-context field.
#[derive(Clone, Copy, Debug, PartialEq, Eq, Structural)]
pub struct CallContextOp {
    pub call_id: u64,
    pub field: CallContextField,
    pub value: u64,
}

/// A warmth transition of an account in a transaction's access list.
#[derive(Clone, Copy, Debug, PartialEq, Eq, Structural)]
pub struct TxAccessListAccountOp {
    pub tx_id: u64,
    pub address: u64,
    pub is_warm: bool,
    pub is_warm_prev: bool,
}

/// A change of a transaction's gas refund counter.
#[derive(Clone, Copy, Debug, PartialEq, Eq, Structural)]
pub struct TxRefundOp {
    pub tx_id: u64,
    pub value: u64,
    pub value_prev: u64,
}

/// An access to one storage slot; words are 32 big-endian bytes.
#[derive(Debug)]
pub struct StorageOp {
    pub address: u64,
    pub key: Vec<u8>,
    pub value: Vec<u8>,
    pub value_prev: Vec<u8>,
    pub tx_id: u64,
    pub committed_value: Vec<u8>,
}

/// A warmth transition of a storage slot in a transaction's access list.
#[derive(Debug)]
pub struct TxAccessListAccountStorageOp {
    pub tx_id: u64,
    pub address: u64,
    pub key: Vec<u8>,
    pub is_warm: bool,
    pub is_warm_prev: bool,
}

/// An access to one account field.
#[derive(Debug)]
pub struct AccountOp {
    pub address: u64,
    pub field: AccountField,
    pub value: Vec<u8>,
    pub value_prev: Vec<u8>,
}

pub struct StorageOpView {
    pub address: u64,
    pub key: Seq<u8>,
    pub value: Seq<u8>,
    pub value_prev: Seq<u8>,
    pub tx_id: u64,
    pub committed_value: Seq<u8>,
}

pub struct TxAccessListAccountStorageOpView {
    pub tx_id: u64,
    pub address: u64,
    pub key: Seq<u8>,
    pub is_warm: bool,
    pub is_warm_prev: bool,
}

pub struct AccountOpView {
    pub address: u64,
    pub field: AccountField,
    pub value: Seq<u8>,
    pub value_prev: Seq<u8>,
}

impl View for StorageOp {
    type V = StorageOpView;

    open spec fn view(&self) -> StorageOpView {
        StorageOpView {
            address: self.address,
            key: self.key@,
            value: self.value@,
            value_prev: self.value_prev@,
            tx_id: self.tx_id,
            committed_value: self.committed_value@,
        }
    }
}

impl View for TxAccessListAccountStorageOp {
    type V = TxAccessListAccountStorageOpView;

    open spec fn view(&self) -> TxAccessListAccountStorageOpView {
        TxAccessListAccountStorageOpView {
            tx_id: self.tx_id,
            address: self.address,
            key: self.key@,
            is_warm: self.is_warm,
            is_warm_prev: self.is_warm_prev,
        }
    }
}

impl View for AccountOp {
    type V = AccountOpView;

    open spec fn view(&self) -> AccountOpView {
        AccountOpView {
            address: self.address,
            field: self.field,
            value: self.value@,
            value_prev: self.value_prev@,
        }
    }
}

/// The payload of an operation, one variant per target.
#[derive(Debug)]
pub enum Op {
    Memory(MemoryOp),
    Stack(StackOp),
    Storage(StorageOp),
    CallContext(CallContextOp),
    TxAccessListAccount(TxAccessListAccountOp),
    TxAccessListAccountStorage(TxAccessListAccountStorageOp),
    TxRefund(TxRefundOp),
    Account(AccountOp),
}

/// The mathematical value of an [`Op`].
pub enum OpView {
    Memory(MemoryOp),
    Stack(StackOp),
    Storage(StorageOpView),
    CallContext(CallContextOp),
    TxAccessListAccount(TxAccessListAccountOp),
    TxAccessListAccountStorage(TxAccessListAccountStorageOpView),
    TxRefund(TxRefundOp),
    Account(AccountOpView),
}

impl View for Op {
    type V = OpView;

    open spec fn view(&self) -> OpView {
        match self {
            Op::Memory(o) => OpView::Memory(*o),
            Op::Stack(o) => OpView::Stack(*o),
            Op::Storage(o) => OpView::Storage(o@),
            Op::CallContext(o) => OpView::CallContext(*o),
            Op::TxAccessListAccount(o) => OpView::TxAccessListAccount(*o),
            Op::TxAccessListAccountStorage(o) => OpView::TxAccessListAccountStorage(o@),
            Op::TxRefund(o) => OpView::TxRefund(*o),
            Op::Account(o) => OpView::Account(o@),
        }
    }
}

impl OpView {
    pub open spec fn target(self) -> Target {
        match self {
            OpView::Memory(_) => Target::Memory,
            OpView::Stack(_) => Target::Stack,
            OpView::Storage(_) => Target::Storage,
            OpView::CallContext(_) => Target::CallContext,
            OpView::TxAccessListAccount(_) => Target::TxAccessListAccount,
            OpView::TxAccessListAccountStorage(_) => Target::TxAccessListAccountStorage,
            OpView::TxRefund(_) => Target::TxRefund,
            OpView::Account(_) => Target::Account,
        }
    }
}

impl Op {
    /// The log this operation belongs in.
    pub fn target(&self) -> (r: Target)
        ensures
            r == self@.target(),
    {
        match self {
            Op::Memory(_) => Target::Memory,
            Op::Stack(_) => Target::Stack,
            Op::Storage(_) => Target::Storage,
            Op::CallContext(_) => Target::CallContext,
            Op::TxAccessListAccount(_) => Target::TxAccessListAccount,
            Op::TxAccessListAccountStorage(_) => Target::TxAccessListAccountStorage,
            Op::TxRefund(_) => Target::TxRefund,
            Op::Account(_) => Target::Account,
        }
    }
}

/// An operation as stored: its read/write counter, direction and payload.
#[derive(Debug)]
pub struct Operation {
    pub rwc: u64,
    pub rw: RW,
    pub op: Op,
}

pub struct OperationView {
    pub rwc: u64,
    pub rw: RW,
    pub op: OpView,
}

impl View for Operation {
    type V = OperationView;

    open spec fn view(&self) -> OperationView {
        OperationView { rwc: self.rwc, rw: self.rw, op: self.op@ }
    }
}

/// A reference to an operation: its log and its index in that log.
#[derive(Clone, Copy, Debug, PartialEq, Eq, Structural)]
pub struct OpRef {
    pub target: Target,
    pub index: usize,
}

/// All operations in the order they were created, where the `i`-th (from
/// zero) has counter `i + 1`, and one append-only log per target holding the
/// positions of that target's operations.
pub struct OperationContainer {
    pub ops: Vec<Operation>,
    pub memory: Vec<usize>,
    pub stack: Vec<usize>,
    pub storage: Vec<usize>,
    pub call_context: Vec<usize>,
    pub tx_access_list_account: Vec<usize>,
    pub tx_access_list_account_storage: Vec<usize>,
    pub tx_refund: Vec<usize>,
    pub account: Vec<usize>,
}

impl OperationContainer {
    /// The log of one target: positions into the creation order.
    pub open spec fn log(&self, t: Target) -> Seq<usize> {
        match t {
            Target::Memory => self.memory@,
            Target::Stack => self.stack@,
            Target::Storage => self.storage@,
            Target::CallContext => self.call_context@,
            Target::TxAccessListAccount => self.tx_access_list_account@,
            Target::TxAccessListAccountStorage => self.tx_access_list_account_storage@,
            Target::TxRefund => self.tx_refund@,
            Target::Account => self.account@,
        }
    }

    /// The position in the creation order of the operation a reference names.
    pub open spec fn pos(&self, r: OpRef) -> int {
        self.log(r.target)[r.index as int] as int
    }

    /// Whether a reference names a logged operation.
    pub open spec fn valid_ref(&self, r: OpRef) -> bool {
        r.index < self.log(r.target).len()
    }

    /// All operations, in the order they were created.
    pub open spec fn ops(&self) -> Seq<OperationView> {
        Seq::new(self.ops@.len(), |i: int| self.ops@[i]@)
    }

    /// The operation a reference names.
    pub open spec fn at(&self, r: OpRef) -> OperationView {
        self.ops()[self.pos(r)]
    }

    /// Counters follow the creation order from 1, and each log holds
    /// positions of operations of its own target.
    pub open spec fn wf(&self) -> bool {
        &&& forall|i: int| 0 <= i < self.ops@.len() ==> (#[trigger] self.ops@[i]).rwc == i + 1
        &&& forall|t: Target, j: int|
            0 <= j < self.log(t).len() ==> {
                let p = #[trigger] self.log(t)[j];
                &&& p < self.ops@.len()
                &&& self.ops@[p as int].op@.target() == t
            }
    }

    pub fn new() -> (r: Self)
        ensures
            r.wf(),
            r.ops@.len() == 0,
            forall|t: Target| #[trigger] r.log(t).len() == 0,
    {
        OperationContainer {
            ops: Vec::new(),
            memory: Vec::new(),
            stack: Vec::new(),
            storage: Vec::new(),
            call_context: Vec::new(),
            tx_access_list_account: Vec::new(),
            tx_access_list_account_storage: Vec::new(),
            tx_refund: Vec::new(),
            account: Vec::new(),
        }
    }

    /// The number of operations created so far.
    pub fn len(&self) -> (r: usize)
        ensures
            r == self.ops@.len(),
    {
        self.ops.len()
    }

    /// The operation a reference names.
    pub fn get(&self, r: OpRef) -> (o: &Operation)
        requires
            self.wf(),
            self.valid_ref(r),
        ensures
            o@ == self.at(r),
    {
        let p = match r.target {
            Target::Memory => self.memory[r.index],
            Target::Stack => self.stack[r.index],
            Target::Storage => self.storage[r.index],
            Target::CallContext => self.call_context[r.index],
            Target::TxAccessListAccount => self.tx_access_list_account[r.index],
            Target::TxAccessListAccountStorage => self.tx_access_list_account_storage[r.index],
            Target::TxRefund => self.tx_refund[r.index],
            Target::Account => self.account[r.index],
        };
        assert(self.log(r.target)[r.index as int] == p);
        &self.ops[p]
    }

    /// Appends an operation with the next counter and logs it under its
    /// target.
    pub fn insert(&mut self, rw: RW, op: Op) -> (r: OpRef)
        requires
            old(self).wf(),
            old(self).ops@.len() < u64::MAX,
        ensures
            final(self).wf(),
            r.target == op@.target(),
            r.index == old(self).log(op@.target()).len(),
            final(self).valid_ref(r),
            final(self).pos(r) == old(self).ops@.len(),
            final(self).ops@.len() == old(self).ops@.len() + 1,
            final(self).ops() == old(self).ops().push(
                OperationView { rwc: (old(self).ops@.len() + 1) as u64, rw, op: op@ },
            ),
            forall|t: Target| t != r.target ==> #[trigger] final(self).log(t) == old(self).log(t),
            final(self).log(r.target) == old(self).log(r.target).push(old(self).ops@.len() as usize),
            forall|q: OpRef| #[trigger] old(self).valid_ref(q) ==> final(self).valid_ref(q)
                && final(self).pos(q) == old(self).pos(q),
    {
        let t = op.target();
        let p = self.ops.len();
        let rwc = p as u64 + 1;
        let ghost v = op@;
        self.ops.push(Operation { rwc, rw, op });
        let index: usize;
        match t {
            Target::Memory => {
                index = self.memory.len();
                self.memory.push(p);
            },
            Target::Stack => {
                index = self.stack.len();
                self.stack.push(p);
            },
            Target::Storage => {
                index = self.storage.len();
                self.storage.push(p);
            },
            Target::CallContext => {
                index = self.call_context.len();
                self.call_context.push(p);
            },
            Target::TxAccessListAccount => {
                index = self.tx_access_list_account.len();
                self.tx_access_list_account.push(p);
            },
            Target::TxAccessListAccountStorage => {
                index = self.tx_access_list_account_storage.len();
                self.tx_access_list_account_storage.push(p);
            },
            Target::TxRefund => {
                index = self.tx_refund.len();
                self.tx_refund.push(p);
            },
            Target::Account => {
                index = self.account.len();
                self.account.push(p);
            },
        }
        let r = OpRef { target: t, index };
        proof {
            let o = old(self);
            assert(forall|tt: Target| tt != t ==> #[trigger] self.log(tt) == o.log(tt));
            assert(self.log(t) == o.log(t).push(p));
            assert forall|tt: Target, j: int| 0 <= j < self.log(tt).len() implies {
                let q = #[trigger] self.log(tt)[j];
                &&& q < self.ops@.len()
                &&& self.ops@[q as int].op@.target() == tt
            } by {
                if tt != t || j < o.log(tt).len() {
                    assert(self.log(tt)[j] == o.log(tt)[j]);
                }
            }
            assert(self.ops() =~= o.ops().push(OperationView { rwc, rw, op: v }));
            assert forall|q: OpRef| #[trigger] o.valid_ref(q) implies self.valid_ref(q)
                && self.pos(q) == o.pos(q) by {
                if q.target == t {
                    assert(self.log(t)[q.index as int] == o.log(t)[q.index as int]);
                }
            }
        }
        r
    }
}

/// Law: the counters of all created operations, taken in creation order,
/// are exactly 1, 2, ..., N, and every logged operation is one of them.
pub proof fn lemma_rw_counters_consecutive(c: &OperationContainer)
    requires
        c.wf(),
    ensures
        forall|i: int| 0 <= i < c.ops().len() ==> #[trigger] c.ops()[i].rwc == i + 1,
        forall|r: OpRef| #[trigger] c.valid_ref(r) ==> 0 <= c.pos(r) < c.ops().len()
            && c.at(r).op.target() == r.target,
{
    assert forall|r: OpRef| #[trigger] c.valid_ref(r) implies 0 <= c.pos(r) < c.ops().len()
        && c.at(r).op.target() == r.target by {
        let p = c.log(r.target)[r.index as int];
        assert(p < c.ops@.len());
    }
}

} // verus!
