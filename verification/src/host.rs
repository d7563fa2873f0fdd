use vstd::prelude::*;

verus! {

/// Host-scoped handle naming a block of bytes; the value `0` is the reserved
/// "no data supplied" sentinel and never names a real block.
pub type BlockId = u32;

/// Small integer tag identifying the byte-level encoding of a block's contents.
pub type Codec = u64;

/// Identifier of an actor, as the host reports it.
pub type ActorID = u64;

/// Method selector of the current invocation.
pub type MethodNum = u64;

/// Value attached to an invocation, exactly as the host reports it: 128 bits
/// split into a low and a high word. This layer treats it as an opaque
/// unsigned amount and does no arithmetic on it.
#[derive(Clone, Copy, PartialEq, Eq, Structural, Debug)]
pub struct TokenAmount {
    pub lo: u64,
    pub hi: u64,
}

impl TokenAmount {
    /// The amount as a single unbounded integer.
    pub open spec fn atto(self) -> int {
        self.lo + self.hi * 0x1_0000_0000_0000_0000
    }
}

/// Metadata the host reports for a block before it is read.
#[derive(Clone, Copy, PartialEq, Eq, Structural, Debug)]
pub struct BlockStat {
    pub codec: Codec,
    pub size: u64,
}

/// An error reported at the host boundary. These are the recoverable tier of
/// failures: they propagate unchanged to the caller, which decides what to do.
#[derive(Clone, Copy, PartialEq, Eq, Structural, Debug)]
pub enum HostError {
    /// The handle does not name a block the host can reach.
    InvalidHandle,
}

/// Model of one block as the host holds it: its codec tag, the size `stat`
/// declares for it, and the bytes `read` serves. A well-behaved host keeps
/// `declared_size` equal to `content.len()`; the model keeps the two apart so
/// that a host breaking that contract can be described as well.
pub struct BlockModel {
    pub codec: Codec,
    pub declared_size: u64,
    pub content: Seq<u8>,
}

/// The facts of the current invocation, fixed for its whole lifetime.
pub struct Invocation {
    pub caller: ActorID,
    pub receiver: ActorID,
    pub method: MethodNum,
    pub value: TokenAmount,
}

/// One operation issued across the host boundary.
pub enum HostOp {
    Stat(BlockId),
    Read(BlockId, u64, u64),
}

/// What `read` returns for a block holding `content`: the bytes from `offset`
/// up to at most `max_len` of them, clipped to the end of the block.
pub open spec fn read_slice(content: Seq<u8>, offset: u64, max_len: u64) -> Seq<u8> {
    let start = if offset <= content.len() { offset as int } else { content.len() as int };
    let end = if offset + max_len <= content.len() {
        offset + max_len
    } else {
        content.len() as int
    };
    content.subrange(start, end)
}

/// The host capability boundary: the six syscall-shaped operations this layer
/// ever issues. The spec functions give the model the contracts are stated
/// over: which blocks the host holds, the fixed facts of the invocation, and
/// the log of block operations issued so far. The identifier getters read
/// fixed data and issue no logged block operation.
pub trait Host {
    /// The blocks the host can serve, by handle.
    spec fn blocks(&self) -> Map<BlockId, BlockModel>;

    /// Caller, receiver, method number and attached value of this invocation.
    spec fn invocation(&self) -> Invocation;

    /// Every `stat` and `read` issued so far, in order.
    spec fn ops(&self) -> Seq<HostOp>;

    /// Identifier of the invoking actor.
    fn caller(&self) -> (r: Result<ActorID, HostError>)
        ensures
            r matches Ok(a) ==> a == self.invocation().caller,
    ;

    /// Identifier of the actor currently executing.
    fn receiver(&self) -> (r: Result<ActorID, HostError>)
        ensures
            r matches Ok(a) ==> a == self.invocation().receiver,
    ;

    /// Method selector of the current invocation.
    fn method_number(&self) -> (r: Result<MethodNum, HostError>)
        ensures
            r matches Ok(m) ==> m == self.invocation().method,
    ;

    /// Value attached to the current invocation.
    fn value_received(&self) -> (r: Result<TokenAmount, HostError>)
        ensures
            r matches Ok(v) ==> v == self.invocation().value,
    ;

    /// Size and codec of the block `id` names. Exactly one `Stat` operation is
    /// issued; it succeeds if and only if the host holds such a block.
    fn stat(&mut self, id: BlockId) -> (r: Result<BlockStat, HostError>)
        ensures
            final(self).blocks() == old(self).blocks(),
            final(self).invocation() == old(self).invocation(),
            final(self).ops() == old(self).ops().push(HostOp::Stat(id)),
            r is Ok <==> old(self).blocks().contains_key(id),
            r matches Ok(st) ==> st == (BlockStat {
                codec: old(self).blocks()[id].codec,
                size: old(self).blocks()[id].declared_size,
            }),
            r matches Err(e) ==> e == HostError::InvalidHandle,
    ;

    /// Bytes of block `id` starting at `offset`, at most `max_len` of them.
    /// Exactly one `Read` operation is issued; it succeeds if and only if the
    /// host holds the block, and the bytes come back as `read_slice` says.
    fn read(&mut self, id: BlockId, offset: u64, max_len: u64) -> (r: Result<
        Vec<u8>,
        HostError,
    >)
        ensures
            final(self).blocks() == old(self).blocks(),
            final(self).invocation() == old(self).invocation(),
            final(self).ops() == old(self).ops().push(HostOp::Read(id, offset, max_len)),
            r is Ok <==> old(self).blocks().contains_key(id),
            r matches Ok(buf) ==> buf@ == read_slice(
                old(self).blocks()[id].content,
                offset,
                max_len,
            ),
            r matches Err(e) ==> e == HostError::InvalidHandle,
    ;
}

} // verus!
