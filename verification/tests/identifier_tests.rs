use cid::CidGeneric;
use multihash::Multihash;
use namespaced_data::{
    Error, Namespace, NamespacedDataId, RowId, NAMESPACED_DATA_ID_CODEC,
    NAMESPACED_DATA_ID_MULTIHASH_CODE, NAMESPACED_DATA_ID_SIZE, NS_SIZE, ROW_ID_SIZE,
};

#[test]
fn round_trip() {
    let ns = Namespace::new_v0(&[0, 1]).unwrap();
    let data_id = NamespacedDataId::new(ns, 5, 100).unwrap();
    let cid = data_id.to_cid();

    let multihash = cid.hash();
    assert_eq!(multihash.code(), NAMESPACED_DATA_ID_MULTIHASH_CODE);
    assert_eq!(multihash.size(), NAMESPACED_DATA_ID_SIZE as u8);

    let deserialized_data_id = NamespacedDataId::from_cid(&cid).unwrap();
    assert_eq!(data_id, deserialized_data_id);
}

#[test]
fn from_buffer() {
    let bytes = [
        0x01, // CIDv1
        0xA0, 0xF0, 0x01, // CID codec = 7820
        0xA1, 0xF0, 0x01, // multihash code = 7821
        0x27, // len = NAMESPACED_DATA_ID_SIZE = 39
        64, 0, 0, 0, 0, 0, 0, 0, // block height = 64
        7, 0, // row = 7
        0, 0, 0, 0, 0, 0, 0, 0, 0, 0, 0, 0, 0, 0, 0, 0, 0, 0, 0, 0, 0, 0, 0, 0, 0, 0, 0, 0,
        1, // NS = 1
    ];

    let cid = CidGeneric::<39>::read_bytes(bytes.as_ref()).unwrap();
    assert_eq!(cid.codec(), NAMESPACED_DATA_ID_CODEC);
    let mh = cid.hash();
    assert_eq!(mh.code(), NAMESPACED_DATA_ID_MULTIHASH_CODE);
    assert_eq!(mh.size(), NAMESPACED_DATA_ID_SIZE as u8);
    let data_id = NamespacedDataId::from_cid(&cid).unwrap();
    assert_eq!(data_id.namespace, Namespace::new_v0(&[1]).unwrap());
    assert_eq!(data_id.row.block_height, 64);
    assert_eq!(data_id.row.index, 7);
}

#[test]
fn multihash_invalid_code() {
    let multihash = Multihash::<39>::wrap(888, &[0; 39]).unwrap();
    let cid = CidGeneric::<39>::new_v1(NAMESPACED_DATA_ID_CODEC, multihash);
    let axis_err = NamespacedDataId::from_cid(&cid).unwrap_err();
    assert_eq!(
        axis_err,
        Error::InvalidHashCode(888, NAMESPACED_DATA_ID_MULTIHASH_CODE)
    );
}

#[test]
fn cid_invalid_codec() {
    let multihash = Multihash::<39>::wrap(NAMESPACED_DATA_ID_MULTIHASH_CODE, &[0; 39]).unwrap();
    let cid = CidGeneric::<39>::new_v1(4321, multihash);
    let axis_err = NamespacedDataId::from_cid(&cid).unwrap_err();
    assert_eq!(axis_err, Error::InvalidCodec(4321));
}

#[test]
fn end_to_end_example() {
    // namespace = 29 zero bytes with the last byte set to 1
    let mut ns_bytes = vec![0u8; NS_SIZE];
    ns_bytes[NS_SIZE - 1] = 1;
    let ns = Namespace::from_raw(&ns_bytes).unwrap();

    let id = NamespacedDataId::new(ns, 7, 64).unwrap();
    let encoded = id.encode();
    assert_eq!(encoded.len(), 39);

    let cid = id.to_cid();
    assert_eq!(cid.codec(), 0x7820);
    assert_eq!(cid.hash().code(), 0x7821);
    assert_eq!(cid.hash().size(), 39);
    // the digest is the 39-byte encoding verbatim, not a hash of it
    assert_eq!(cid.hash().digest(), encoded.as_slice());

    let decoded = NamespacedDataId::from_cid(&cid).unwrap();
    assert_eq!(decoded.row.index, 7);
    assert_eq!(decoded.row.block_height, 64);
    assert_eq!(decoded.namespace.as_bytes(), ns_bytes.as_slice());
}

#[test]
fn encoded_length_is_fixed() {
    assert_eq!(NamespacedDataId::size(), 39);
    assert_eq!(RowId::size(), 10);
    assert_eq!(ROW_ID_SIZE + NS_SIZE, NAMESPACED_DATA_ID_SIZE);

    let ns = Namespace::new_v0(&[9, 8, 7]).unwrap();
    let id = NamespacedDataId::new(ns, 65535, u64::MAX).unwrap();
    assert_eq!(id.encode().len(), 39);
}

#[test]
fn zero_height_is_rejected() {
    let ns = Namespace::new_v0(&[1]).unwrap();
    assert_eq!(
        NamespacedDataId::new(ns, 0, 0).unwrap_err(),
        Error::ZeroBlockHeight
    );
    assert_eq!(RowId::new(5, 0).unwrap_err(), Error::ZeroBlockHeight);
    assert!(RowId::new(5, 1).is_ok());
}

#[test]
fn decode_rejects_wrong_length() {
    assert_eq!(
        NamespacedDataId::decode(&[0u8; 38]).unwrap_err(),
        Error::InvalidLength(38)
    );
    assert_eq!(
        NamespacedDataId::decode(&[]).unwrap_err(),
        Error::InvalidLength(0)
    );
    assert_eq!(RowId::decode(&[0u8; 9]).unwrap_err(), Error::InvalidLength(9));
}

#[test]
fn decode_rejects_zero_height_buffer() {
    // 39 zero bytes encode block height zero
    assert_eq!(
        NamespacedDataId::decode(&[0u8; 39]).unwrap_err(),
        Error::ZeroBlockHeight
    );
}

#[test]
fn foreign_hash_code_is_rejected() {
    let ns = Namespace::new_v0(&[2, 3]).unwrap();
    let id = NamespacedDataId::new(ns, 1, 2).unwrap();
    let digest = id.encode();

    // same 39-byte digest, arbitrary unrelated hash code
    let mh = Multihash::<39>::wrap(999, digest.as_slice()).unwrap();
    let cid = CidGeneric::<39>::new_v1(NAMESPACED_DATA_ID_CODEC, mh);
    assert_eq!(
        NamespacedDataId::from_cid(&cid).unwrap_err(),
        Error::InvalidHashCode(999, NAMESPACED_DATA_ID_MULTIHASH_CODE)
    );
}

#[test]
fn foreign_codec_is_rejected() {
    let ns = Namespace::new_v0(&[2, 3]).unwrap();
    let id = NamespacedDataId::new(ns, 1, 2).unwrap();
    let digest = id.encode();

    // correct length and hash code, unrelated codec tag
    let mh = Multihash::<39>::wrap(NAMESPACED_DATA_ID_MULTIHASH_CODE, digest.as_slice()).unwrap();
    let cid = CidGeneric::<39>::new_v1(0x9999, mh);
    assert_eq!(
        NamespacedDataId::from_cid(&cid).unwrap_err(),
        Error::InvalidCodec(0x9999)
    );
}

#[test]
fn codec_check_precedes_other_checks() {
    // wrong codec together with wrong length and wrong hash code: the
    // codec mismatch must be the reported error
    let mh = Multihash::<39>::wrap(888, &[0u8; 10]).unwrap();
    let cid = CidGeneric::<39>::new_v1(4321, mh);
    assert_eq!(
        NamespacedDataId::from_cid(&cid).unwrap_err(),
        Error::InvalidCodec(4321)
    );
}

#[test]
fn length_check_precedes_hash_code_check() {
    // correct codec, wrong digest length together with wrong hash code:
    // the length mismatch must be the reported error
    let mh = Multihash::<39>::wrap(888, &[0u8; 10]).unwrap();
    let cid = CidGeneric::<39>::new_v1(NAMESPACED_DATA_ID_CODEC, mh);
    assert_eq!(
        NamespacedDataId::from_cid(&cid).unwrap_err(),
        Error::InvalidLength(10)
    );
}

#[test]
fn namespace_construction_bounds() {
    assert_eq!(
        Namespace::new_v0(&[0u8; 11]).unwrap_err(),
        Error::InvalidNamespaceSize(11)
    );
    assert_eq!(
        Namespace::from_raw(&[0u8; 28]).unwrap_err(),
        Error::InvalidNamespaceSize(28)
    );
    let ns = Namespace::new_v0(&[5]).unwrap();
    assert_eq!(ns.as_bytes().len(), NS_SIZE);
    assert_eq!(ns.as_bytes()[NS_SIZE - 1], 5);
    assert!(ns.as_bytes()[..NS_SIZE - 1].iter().all(|b| *b == 0));
}
