use vstd::prelude::*;

use crate::host::ActorID;
use crate::host::BlockId;
use crate::host::BlockModel;
use crate::host::BlockStat;
use crate::host::Codec;
use crate::host::Host;
use crate::host::HostError;
use crate::host::HostOp;
use crate::host::Invocation;
use crate::host::MethodNum;
use crate::host::TokenAmount;
use crate::host::read_slice;

verus! {

/// One stored block of the in-memory host: the codec tag, the size its `stat`
/// declares, and the bytes its `read` serves. Keeping `declared_size` apart
/// from `data` lets a host that mis-declares a size be set up deliberately.
pub struct MemoryBlock {
    pub codec: Codec,
    pub declared_size: u64,
    pub data: Vec<u8>,
}

/// The model of one stored block.
pub open spec fn block_model(b: MemoryBlock) -> BlockModel {
    BlockModel { codec: b.codec, declared_size: b.declared_size, content: b.data@ }
}

/// The map view of a list of stored blocks; on a duplicated id the earliest
/// entry wins, matching a front-to-back lookup.
pub open spec fn entries_map(s: Seq<(BlockId, MemoryBlock)>) -> Map<BlockId, BlockModel>
    decreases s.len(),
{
    if s.len() == 0 {
        Map::empty()
    } else {
        entries_map(s.subrange(1, s.len() as int)).insert(s[0].0, block_model(s[0].1))
    }
}

proof fn lemma_entries_map_first(s: Seq<(BlockId, MemoryBlock)>, id: BlockId, i: int)
    requires
        0 <= i < s.len(),
        s[i].0 == id,
        forall|j: int| 0 <= j < i ==> s[j].0 != id,
    ensures
        entries_map(s).contains_key(id),
        entries_map(s)[id] == block_model(s[i].1),
    decreases s.len(),
{
    if i > 0 {
        let t = s.subrange(1, s.len() as int);
        assert(forall|j: int| 0 <= j < i - 1 ==> t[j].0 != id);
        lemma_entries_map_first(t, id, i - 1);
    }
}

proof fn lemma_entries_map_absent(s: Seq<(BlockId, MemoryBlock)>, id: BlockId)
    requires
        forall|j: int| 0 <= j < s.len() ==> s[j].0 != id,
    ensures
        !entries_map(s).contains_key(id),
    decreases s.len(),
{
    if s.len() > 0 {
        lemma_entries_map_absent(s.subrange(1, s.len() as int), id);
    }
}

/// Index of the first entry holding `id`, if any.
fn find_index(store: &Vec<(BlockId, MemoryBlock)>, id: BlockId) -> (r: Option<usize>)
    ensures
        r matches Some(i) ==> i < store@.len() && store@[i as int].0 == id && (forall|j: int|
            0 <= j < i ==> store@[j].0 != id),
        r is None ==> forall|j: int| 0 <= j < store@.len() ==> store@[j].0 != id,
{
    let mut i: usize = 0;
    while i < store.len()
        invariant
            i <= store@.len(),
            forall|j: int| 0 <= j < i ==> store@[j].0 != id,
        decreases store@.len() - i,
    {
        if store[i].0 == id {
            return Some(i);
        }
        i = i + 1;
    }
    None
}

/// The bytes of `data` from `offset`, at most `max_len` of them, clipped to
/// the end, as a fresh buffer.
fn copy_range(data: &Vec<u8>, offset: u64, max_len: u64) -> (r: Vec<u8>)
    ensures
        r@ == read_slice(data@, offset, max_len),
{
    let dlen: usize = data.len();
    let start: usize = if offset >= dlen as u64 {
        dlen
    } else {
        offset as usize
    };
    let room: usize = dlen - start;
    let count: usize = if max_len >= room as u64 {
        room
    } else {
        max_len as usize
    };
    let mut out: Vec<u8> = Vec::new();
    let mut i: usize = 0;
    while i < count
        invariant
            dlen == data@.len(),
            start + count <= dlen,
            i <= count,
            out@ == data@.subrange(start as int, start as int + i as int),
        decreases count - i,
    {
        proof {
            assert(data@.subrange(start as int, start as int + i as int).push(
                data@[start as int + i as int],
            ) =~= data@.subrange(start as int, start as int + i + 1));
        }
        out.push(data[start + i]);
        i = i + 1;
    }
    proof {
        assert(out@ =~= read_slice(data@, offset, max_len));
    }
    out
}

/// An in-memory host: a set of blocks plus fixed invocation facts, answering
/// the boundary operations without any outside runtime. It is the injectable
/// stand-in for the real host; `stat_count` and `read_count` mirror the ghost
/// operation log in plain counters (which stop at `u64::MAX`) so that
/// unverified callers can observe how many block operations were issued.
pub struct MemoryHost {
    pub store: Vec<(BlockId, MemoryBlock)>,
    pub caller_id: ActorID,
    pub receiver_id: ActorID,
    pub method_num: MethodNum,
    pub value: TokenAmount,
    pub stat_count: u64,
    pub read_count: u64,
    pub ops_log: Ghost<Seq<HostOp>>,
}

impl MemoryHost {
    /// A host holding no blocks, reporting the given invocation facts.
    pub fn new(caller: ActorID, receiver: ActorID, method: MethodNum, value: TokenAmount) -> (h:
        MemoryHost)
        ensures
            h.blocks() == Map::<BlockId, BlockModel>::empty(),
            h.invocation() == (Invocation { caller, receiver, method, value }),
            h.ops() == Seq::<HostOp>::empty(),
            h.stat_count == 0,
            h.read_count == 0,
    {
        MemoryHost {
            store: Vec::new(),
            caller_id: caller,
            receiver_id: receiver,
            method_num: method,
            value,
            stat_count: 0,
            read_count: 0,
            ops_log: Ghost(Seq::empty()),
        }
    }

    /// Stores a block under `id`: `stat` will declare `codec` and
    /// `declared_size`, and `read` will serve `data`. An earlier block under
    /// the same id is superseded.
    pub fn put_block(&mut self, id: BlockId, codec: Codec, declared_size: u64, data: Vec<u8>)
        ensures
            final(self).blocks() == old(self).blocks().insert(
                id,
                (BlockModel { codec, declared_size, content: data@ }),
            ),
            final(self).invocation() == old(self).invocation(),
            final(self).ops() == old(self).ops(),
            final(self).stat_count == old(self).stat_count,
            final(self).read_count == old(self).read_count,
    {
        let block = MemoryBlock { codec, declared_size, data };
        self.store.insert(0, (id, block));
        proof {
            assert(self.store@.subrange(1, self.store@.len() as int) =~= old(self).store@);
        }
    }
}

impl Host for MemoryHost {
    open spec fn blocks(&self) -> Map<BlockId, BlockModel> {
        entries_map(self.store@)
    }

    open spec fn invocation(&self) -> Invocation {
        Invocation {
            caller: self.caller_id,
            receiver: self.receiver_id,
            method: self.method_num,
            value: self.value,
        }
    }

    open spec fn ops(&self) -> Seq<HostOp> {
        self.ops_log@
    }

    fn caller(&self) -> (r: Result<ActorID, HostError>)
        ensures
            r == Ok::<ActorID, HostError>(self.invocation().caller),
    {
        Ok(self.caller_id)
    }

    fn receiver(&self) -> (r: Result<ActorID, HostError>)
        ensures
            r == Ok::<ActorID, HostError>(self.invocation().receiver),
    {
        Ok(self.receiver_id)
    }

    fn method_number(&self) -> (r: Result<MethodNum, HostError>)
        ensures
            r == Ok::<MethodNum, HostError>(self.invocation().method),
    {
        Ok(self.method_num)
    }

    fn value_received(&self) -> (r: Result<TokenAmount, HostError>)
        ensures
            r == Ok::<TokenAmount, HostError>(self.invocation().value),
    {
        Ok(self.value)
    }

    fn stat(&mut self, id: BlockId) -> (r: Result<BlockStat, HostError>)
        ensures
            old(self).stat_count < u64::MAX ==> final(self).stat_count == old(self).stat_count
                + 1,
            old(self).stat_count == u64::MAX ==> final(self).stat_count == u64::MAX,
            final(self).read_count == old(self).read_count,
    {
        self.ops_log = Ghost(self.ops_log@.push(HostOp::Stat(id)));
        if self.stat_count < u64::MAX {
            self.stat_count = self.stat_count + 1;
        }
        match find_index(&self.store, id) {
            Some(i) => {
                proof {
                    lemma_entries_map_first(self.store@, id, i as int);
                }
                let b = &self.store[i].1;
                Ok(BlockStat { codec: b.codec, size: b.declared_size })
            },
            None => {
                proof {
                    lemma_entries_map_absent(self.store@, id);
                }
                Err(HostError::InvalidHandle)
            },
        }
    }

    fn read(&mut self, id: BlockId, offset: u64, max_len: u64) -> (r: Result<Vec<u8>, HostError>)
        ensures
            old(self).read_count < u64::MAX ==> final(self).read_count == old(self).read_count
                + 1,
            old(self).read_count == u64::MAX ==> final(self).read_count == u64::MAX,
            final(self).stat_count == old(self).stat_count,
    {
        self.ops_log = Ghost(self.ops_log@.push(HostOp::Read(id, offset, max_len)));
        if self.read_count < u64::MAX {
            self.read_count = self.read_count + 1;
        }
        match find_index(&self.store, id) {
            Some(i) => {
                proof {
                    lemma_entries_map_first(self.store@, id, i as int);
                }
                let buf = copy_range(&self.store[i].1.data, offset, max_len);
                Ok(buf)
            },
            None => {
                proof {
                    lemma_entries_map_absent(self.store@, id);
                }
                Err(HostError::InvalidHandle)
            },
        }
    }
}

} // verus!
