use fvm_message::DAG_CBOR;
use fvm_message::HostError;
use fvm_message::MemoryHost;
use fvm_message::NO_DATA_BLOCK_ID;
use fvm_message::ParamsError;
use fvm_message::TokenAmount;
use fvm_message::caller;
use fvm_message::method_number;
use fvm_message::params_cbor;
use fvm_message::params_raw;
use fvm_message::receiver;
use fvm_message::value_received;

#[derive(Debug, Clone, Copy, PartialEq, Eq)]
struct Point {
    x: u64,
    y: u64,
}

impl serde::Serialize for Point {
    fn serialize<S: serde::Serializer>(&self, s: S) -> Result<S::Ok, S::Error> {
        (self.x, self.y).serialize(s)
    }
}

impl<'de> serde::Deserialize<'de> for Point {
    fn deserialize<D: serde::Deserializer<'de>>(d: D) -> Result<Self, D::Error> {
        let (x, y): (u64, u64) = serde::Deserialize::deserialize(d)?;
        Ok(Point { x, y })
    }
}

fn fresh_host() -> MemoryHost {
    MemoryHost::new(100, 200, 3, TokenAmount { lo: 5, hi: 0 })
}

#[test]
fn sentinel_raw_params_empty() {
    let mut h = fresh_host();
    let r = params_raw(&mut h, NO_DATA_BLOCK_ID);
    assert_eq!(r, Ok((DAG_CBOR, Vec::new())));
    assert_eq!(h.stat_count, 0);
    assert_eq!(h.read_count, 0);
}

#[test]
fn sentinel_typed_decode_illegal() {
    let mut h = fresh_host();
    let r = params_cbor::<Point, MemoryHost>(&mut h, NO_DATA_BLOCK_ID);
    assert!(matches!(r, Err(ParamsError::IllegalArgument)));
    let r2 = params_cbor::<u64, MemoryHost>(&mut h, NO_DATA_BLOCK_ID);
    assert!(matches!(r2, Err(ParamsError::IllegalArgument)));
    assert_eq!(h.stat_count, 0);
    assert_eq!(h.read_count, 0);
}

#[test]
fn raw_block_passthrough() {
    let mut h = fresh_host();
    h.put_block(7, 0x55, 4, vec![0x44, 0x01, 0x02, 0x03]);
    let r = params_raw(&mut h, 7);
    assert_eq!(r, Ok((0x55, vec![0x44, 0x01, 0x02, 0x03])));
    assert_eq!(h.stat_count, 1);
    assert_eq!(h.read_count, 1);
}

#[test]
fn typed_decode_point() {
    let mut h = fresh_host();
    let bytes = fvm_ipld_encoding::to_vec(&Point { x: 1, y: 2 }).unwrap();
    let size = bytes.len() as u64;
    h.put_block(9, DAG_CBOR, size, bytes);
    let r = params_cbor::<Point, MemoryHost>(&mut h, 9);
    assert_eq!(r.unwrap(), Point { x: 1, y: 2 });
    assert_eq!(h.stat_count, 1);
    assert_eq!(h.read_count, 1);
}

#[test]
fn typed_decode_malformed_aborts() {
    let mut h = fresh_host();
    h.put_block(9, DAG_CBOR, 3, vec![0xff, 0xff, 0xff]);
    let r = params_cbor::<Point, MemoryHost>(&mut h, 9);
    match r {
        Err(ParamsError::SerializationAbort { message }) => {
            assert!(!message.is_empty());
        }
        other => panic!("expected a serialization abort, got {:?}", other.err()),
    }
}

#[test]
fn short_read_returns_truncated_buffer() {
    let mut h = fresh_host();
    h.put_block(5, DAG_CBOR, 10, vec![1, 2, 3]);
    let r = params_raw(&mut h, 5);
    assert_eq!(r, Ok((DAG_CBOR, vec![1, 2, 3])));
}

#[test]
fn overlong_block_clipped_to_declared_size() {
    let mut h = fresh_host();
    h.put_block(6, DAG_CBOR, 2, vec![9, 8, 7]);
    let r = params_raw(&mut h, 6);
    assert_eq!(r, Ok((DAG_CBOR, vec![9, 8])));
}

#[test]
fn round_trip_typed_value() {
    let mut h = fresh_host();
    let v = Point { x: u64::MAX, y: 12345678901234567890 };
    let bytes = fvm_ipld_encoding::to_vec(&v).unwrap();
    let size = bytes.len() as u64;
    h.put_block(11, DAG_CBOR, size, bytes);
    let r = params_cbor::<Point, MemoryHost>(&mut h, 11);
    assert_eq!(r.unwrap(), v);
}

#[test]
fn raw_read_idempotent() {
    let mut h = fresh_host();
    h.put_block(7, DAG_CBOR, 4, vec![0x44, 0x01, 0x02, 0x03]);
    let first = params_raw(&mut h, 7);
    let second = params_raw(&mut h, 7);
    assert_eq!(first, second);
    assert_eq!(h.stat_count, 2);
    assert_eq!(h.read_count, 2);
}

#[test]
fn unknown_block_propagates_host_error() {
    let mut h = fresh_host();
    h.put_block(7, DAG_CBOR, 0, Vec::new());
    let r = params_raw(&mut h, 42);
    assert_eq!(r, Err(HostError::InvalidHandle));
    assert_eq!(h.stat_count, 1);
    assert_eq!(h.read_count, 0);
    let r2 = params_cbor::<Point, MemoryHost>(&mut h, 42);
    assert!(matches!(r2, Err(ParamsError::Host(HostError::InvalidHandle))));
}

#[test]
fn replaced_block_reads_new_bytes() {
    let mut h = fresh_host();
    h.put_block(7, DAG_CBOR, 2, vec![1, 2]);
    h.put_block(7, 0x55, 3, vec![4, 5, 6]);
    let r = params_raw(&mut h, 7);
    assert_eq!(r, Ok((0x55, vec![4, 5, 6])));
}

#[test]
fn invocation_getters_report_host_facts() {
    let h = fresh_host();
    assert_eq!(caller(&h), Ok(100));
    assert_eq!(receiver(&h), Ok(200));
    assert_eq!(method_number(&h), Ok(3));
    assert_eq!(value_received(&h), Ok(TokenAmount { lo: 5, hi: 0 }));
}

#[test]
fn codec_tag_matches_canonical_encoding() {
    assert_eq!(DAG_CBOR, fvm_ipld_encoding::DAG_CBOR);
}

#[test]
fn empty_parameters_decode_as_nothing() {
    let mut h = fresh_host();
    let bytes = fvm_ipld_encoding::to_vec(&()).unwrap();
    let size = bytes.len() as u64;
    h.put_block(4, DAG_CBOR, size, bytes);
    let r = params_cbor::<(), MemoryHost>(&mut h, 4);
    assert!(r.is_ok());
}
