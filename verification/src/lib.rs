//! Parameter and message marshalling between a sandboxed actor and its host
//! runtime: resolve an opaque block handle into raw bytes with their codec
//! tag, and decode the canonical parameter encoding (DAG-CBOR) into typed
//! values — or fail in a well-defined way.

mod host;
mod memory;
mod message;

pub use host::ActorID;
pub use host::BlockId;
pub use host::BlockModel;
pub use host::BlockStat;
pub use host::Codec;
pub use host::Host;
pub use host::HostError;
pub use host::HostOp;
pub use host::Invocation;
pub use host::MethodNum;
pub use host::TokenAmount;
pub use host::read_slice;
pub use memory::MemoryBlock;
pub use memory::MemoryHost;
pub use memory::block_model;
pub use memory::entries_map;
pub use message::DAG_CBOR;
pub use message::NO_DATA_BLOCK_ID;
pub use message::ParamsError;
pub use message::caller;
pub use message::lemma_params_raw_idempotent;
pub use message::method_number;
pub use message::params_cbor;
pub use message::params_raw;
pub use message::raw_params_of;
pub use message::receiver;
pub use message::typed_from_decoded;
pub use message::value_received;
