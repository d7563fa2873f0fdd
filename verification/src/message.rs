use vstd::prelude::*;

use crate::host::ActorID;
use crate::host::BlockId;
use crate::host::BlockModel;
use crate::host::Codec;
use crate::host::Host;
use crate::host::HostError;
use crate::host::HostOp;
use crate::host::MethodNum;
use crate::host::TokenAmount;
use crate::host::read_slice;

verus! {

/// BlockId representing nil parameters or return data.
pub const NO_DATA_BLOCK_ID: u32 = 0;

/// Codec tag of the canonical parameter encoding (DAG-CBOR). It doubles as
/// the placeholder codec of an absent parameter block: the tag space has no
/// "nil" codec, so callers that branch on this tag to detect absence rely on
/// exactly this value coming back for the sentinel id.
pub const DAG_CBOR: u64 = 0x71;

/// What `params_raw` resolves `id` to against a host holding `blocks`: the
/// sentinel id resolves to the placeholder codec and no bytes without
/// consulting the host; a held block resolves to its codec tag and the bytes
/// a full-length read from offset 0 serves; any other id is a boundary error.
pub open spec fn raw_params_of(blocks: Map<BlockId, BlockModel>, id: BlockId) -> Result<
    (Codec, Seq<u8>),
    HostError,
> {
    if id == NO_DATA_BLOCK_ID {
        Ok((DAG_CBOR, Seq::empty()))
    } else if blocks.contains_key(id) {
        Ok((blocks[id].codec, read_slice(blocks[id].content, 0, blocks[id].declared_size)))
    } else {
        Err(HostError::InvalidHandle)
    }
}

/// Returns the ID address of the caller.
pub fn caller<H: Host>(h: &H) -> (r: Result<ActorID, HostError>)
    ensures
        r matches Ok(a) ==> a == h.invocation().caller,
{
    h.caller()
}

/// Returns the ID address of the actor currently executing.
pub fn receiver<H: Host>(h: &H) -> (r: Result<ActorID, HostError>)
    ensures
        r matches Ok(a) ==> a == h.invocation().receiver,
{
    h.receiver()
}

/// Returns the message's method number.
pub fn method_number<H: Host>(h: &H) -> (r: Result<MethodNum, HostError>)
    ensures
        r matches Ok(m) ==> m == h.invocation().method,
{
    h.method_number()
}

/// Returns the value received from the caller, as the host reports it.
pub fn value_received<H: Host>(h: &H) -> (r: Result<TokenAmount, HostError>)
    ensures
        r matches Ok(v) ==> v == h.invocation().value,
{
    h.value_received()
}

/// Returns the message codec and parameters: resolves `id` exactly as
/// `raw_params_of` states, leaving the host's blocks untouched.
///
/// The sentinel id costs no host call. Any other id costs exactly one `stat`
/// and — if the block exists — exactly one full-length `read`; a boundary
/// failure propagates unchanged. The buffer is exactly what the host's read
/// served: never more than the declared size, and exactly the declared size
/// whenever the host holds at least that many bytes.
pub fn params_raw<H: Host>(h: &mut H, id: BlockId) -> (r: Result<(Codec, Vec<u8>), HostError>)
    ensures
        final(h).blocks() == old(h).blocks(),
        final(h).invocation() == old(h).invocation(),
        raw_params_of(old(h).blocks(), id) matches Ok(p) ==> r matches Ok(q) && q.0 == p.0
            && q.1@ == p.1,
        raw_params_of(old(h).blocks(), id) matches Err(e) ==> r == Err::<(Codec, Vec<u8>),
            HostError,
        >(e),
        id == NO_DATA_BLOCK_ID ==> final(h).ops() == old(h).ops(),
        id != NO_DATA_BLOCK_ID && old(h).blocks().contains_key(id) ==> final(h).ops() == old(
            h,
        ).ops().push(HostOp::Stat(id)).push(
            HostOp::Read(id, 0, old(h).blocks()[id].declared_size),
        ),
        id != NO_DATA_BLOCK_ID && !old(h).blocks().contains_key(id) ==> final(h).ops() == old(
            h,
        ).ops().push(HostOp::Stat(id)),
        id != NO_DATA_BLOCK_ID ==> (r matches Ok(q) ==> q.1@.len() <= old(
            h,
        ).blocks()[id].declared_size),
        id != NO_DATA_BLOCK_ID && old(h).blocks().contains_key(id) && old(
            h,
        ).blocks()[id].content.len() >= old(h).blocks()[id].declared_size ==> (r matches Ok(q)
            ==> q.1@.len() == old(h).blocks()[id].declared_size),
{
    if id == NO_DATA_BLOCK_ID {
        return Ok((DAG_CBOR, Vec::new()));
    }
    let st = match h.stat(id) {
        Ok(st) => st,
        Err(e) => {
            return Err(e);
        },
    };
    match h.read(id, 0, st.size) {
        Ok(buf) => Ok((st.codec, buf)),
        Err(e) => Err(e),
    }
}

/// Resolving a block id is a function of the host's blocks alone: against
/// unchanged blocks — and `params_raw` leaves the blocks unchanged — the same
/// id resolves to the same codec and a byte-identical buffer every time.
pub proof fn lemma_params_raw_idempotent(
    blocks_before: Map<BlockId, BlockModel>,
    blocks_after: Map<BlockId, BlockModel>,
    id: BlockId,
)
    requires
        blocks_before == blocks_after,
    ensures
        raw_params_of(blocks_before, id) == raw_params_of(blocks_after, id),
{
}

/// How a typed parameter decode can fail.
///
/// `IllegalArgument` and `Host` are the ordinary, recoverable tier: the
/// decoder was invoked without parameters, or the host boundary itself
/// failed. `SerializationAbort` is the fatal tier: the bytes were accepted as
/// parameters but do not decode, and the invocation must not continue — the
/// enclosing dispatch harness observes this variant and terminates the
/// invocation with a serialization-error status instead of handing control
/// back to actor logic.
#[derive(Debug)]
pub enum ParamsError {
    /// The sentinel id was passed where parameters were required.
    IllegalArgument,
    /// A host-boundary failure, propagated unchanged.
    Host(HostError),
    /// The parameter bytes are not valid canonical-format data; the message
    /// describes the underlying decode error.
    SerializationAbort { message: String },
}

/// Relies on `fvm_ipld_encoding::from_slice`: deserializes a DAG-CBOR byte
/// stream into `T`, handing back the decode error's description on failure.
/// Nothing is assumed of the outcome; the caller states what holds of its own
/// result for every value this returns.
#[verifier::external_body]
fn decode_dag_cbor<T: serde::de::DeserializeOwned>(bytes: &Vec<u8>) -> (r: Result<T, String>) {
    match fvm_ipld_encoding::from_slice::<T>(bytes.as_slice()) {
        Ok(v) => Ok(v),
        Err(e) => Err(e.description),
    }
}

/// Folds the outcome of the canonical decode into the typed decoder's result:
/// a decoded value is handed back as-is, and a decode failure becomes the
/// fatal serialization abort carrying the decoder's message.
pub fn typed_from_decoded<T>(decoded: Result<T, String>) -> (r: Result<T, ParamsError>)
    ensures
        decoded matches Ok(v) ==> r matches Ok(w) && w == v,
        decoded matches Err(m) ==> r == Err::<T, ParamsError>(
            (ParamsError::SerializationAbort { message: m }),
        ),
{
    match decoded {
        Ok(v) => Ok(v),
        Err(message) => Err(ParamsError::SerializationAbort { message }),
    }
}

/// Fetches the input parameters as raw bytes and decodes them from the
/// canonical encoding into `T`.
///
/// The sentinel id is a caller contract violation: it fails with
/// `IllegalArgument` before any host call, and that error comes on no other
/// input. A host-boundary failure propagates unchanged, after the one `stat`.
/// Otherwise the block is fetched at the cost of exactly one `stat` and one
/// `read`, and either decodes into the returned value or ends in the fatal
/// `SerializationAbort` — never in anything else. A codec tag other than
/// `DAG_CBOR` is a caller contract violation this layer tolerates: the bytes
/// still go to the decoder, whose failure aborts.
pub fn params_cbor<T: serde::de::DeserializeOwned, H: Host>(h: &mut H, id: BlockId) -> (r: Result<
    T,
    ParamsError,
>)
    ensures
        final(h).blocks() == old(h).blocks(),
        final(h).invocation() == old(h).invocation(),
        r == Err::<T, ParamsError>(ParamsError::IllegalArgument) <==> id == NO_DATA_BLOCK_ID,
        id == NO_DATA_BLOCK_ID ==> final(h).ops() == old(h).ops(),
        id != NO_DATA_BLOCK_ID && !old(h).blocks().contains_key(id) ==> r == Err::<T, ParamsError>(
            ParamsError::Host(HostError::InvalidHandle),
        ) && final(h).ops() == old(h).ops().push(HostOp::Stat(id)),
        id != NO_DATA_BLOCK_ID && old(h).blocks().contains_key(id) ==> (r matches Ok(_) || (
        r matches Err(e) && e is SerializationAbort)) && final(h).ops() == old(h).ops().push(
            HostOp::Stat(id),
        ).push(HostOp::Read(id, 0, old(h).blocks()[id].declared_size)),
{
    if id == NO_DATA_BLOCK_ID {
        return Err(ParamsError::IllegalArgument);
    }
    match params_raw(h, id) {
        Err(e) => Err(ParamsError::Host(e)),
        Ok((_, raw)) => {
            let decoded = decode_dag_cbor::<T>(&raw);
            typed_from_decoded(decoded)
        },
    }
}

} // verus!
