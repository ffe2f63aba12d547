use champ::proto::api::{BlockData, Data, Transaction, TxClaim, TxDelegate, TxSend};
use champ::proto::wire::{
    put_bytes, put_int32, put_key, put_message, put_raw, put_uint64, put_varint,
    WIRE_LENGTH_DELIMITED, WIRE_VARINT,
};
use prost::encoding::{encode_key, encode_varint, WireType};

fn varint(value: u64) -> Vec<u8> {
    let mut out = Vec::new();
    put_varint(&mut out, value);
    out
}

#[test]
fn varints_have_seven_bits_to_the_byte() {
    assert_eq!(varint(0), vec![0x00]);
    assert_eq!(varint(1), vec![0x01]);
    assert_eq!(varint(127), vec![0x7f]);
    assert_eq!(varint(128), vec![0x80, 0x01]);
    assert_eq!(varint(300), vec![0xac, 0x02]);
    assert_eq!(varint(16383), vec![0xff, 0x7f]);
    assert_eq!(varint(16384), vec![0x80, 0x80, 0x01]);
    assert_eq!(
        varint(u64::MAX),
        vec![0xff, 0xff, 0xff, 0xff, 0xff, 0xff, 0xff, 0xff, 0xff, 0x01]
    );
}

#[test]
fn varints_are_appended() {
    let mut out = vec![9u8, 8];
    put_varint(&mut out, 300);
    put_varint(&mut out, 0);
    assert_eq!(out, vec![9, 8, 0xac, 0x02, 0x00]);
}

#[test]
fn varints_are_those_of_prost() {
    let mut samples: Vec<u64> = (0..70000).collect();
    for shift in 0..64 {
        samples.push(1u64 << shift);
        samples.push((1u64 << shift) - 1);
        samples.push(u64::MAX >> shift);
    }
    for value in samples {
        let mut expected = Vec::new();
        encode_varint(value, &mut expected);
        assert_eq!(varint(value), expected);
    }
}

#[test]
fn keys_hold_number_and_wire_type() {
    assert_eq!(WIRE_VARINT, 0);
    assert_eq!(WIRE_LENGTH_DELIMITED, 2);
    let mut out = Vec::new();
    put_key(&mut out, 1, WIRE_VARINT);
    put_key(&mut out, 1, WIRE_LENGTH_DELIMITED);
    put_key(&mut out, 6, WIRE_LENGTH_DELIMITED);
    put_key(&mut out, 16, WIRE_VARINT);
    assert_eq!(out, vec![0x08, 0x0a, 0x32, 0x80, 0x01]);
    for field in [1u32, 2, 15, 16, 2047, 2048, 0x1FFF_FFFF] {
        let mut ours = Vec::new();
        put_key(&mut ours, field, WIRE_LENGTH_DELIMITED);
        put_key(&mut ours, field, WIRE_VARINT);
        let mut expected = Vec::new();
        encode_key(field, WireType::LengthDelimited, &mut expected);
        encode_key(field, WireType::Varint, &mut expected);
        assert_eq!(ours, expected);
    }
}

#[test]
fn default_values_are_left_out() {
    let mut out = Vec::new();
    put_uint64(&mut out, 3, 0);
    put_int32(&mut out, 1, 0);
    put_bytes(&mut out, 5, &[]);
    put_raw(&mut out, &[]);
    assert!(out.is_empty());
    put_message(&mut out, 6, &[]);
    assert_eq!(out, vec![0x32, 0x00]);
}

#[test]
fn fields_are_those_of_prost() {
    for value in [1u64, 100, 127, 128, 1 << 32, u64::MAX] {
        let mut ours = vec![0xee];
        put_uint64(&mut ours, 3, value);
        let mut expected = vec![0xee];
        prost::encoding::uint64::encode(3, &value, &mut expected);
        assert_eq!(ours, expected);
    }
    for value in [1i32, -1, 2, -2, 127, 128, i32::MAX, i32::MIN, -300] {
        let mut ours = Vec::new();
        put_int32(&mut ours, 2, value);
        let mut expected = Vec::new();
        prost::encoding::int32::encode(2, &value, &mut expected);
        assert_eq!(ours, expected);
    }
    for length in [1usize, 2, 127, 128, 300] {
        let bytes: Vec<u8> = (0..length).map(|i| (i % 251) as u8).collect();
        let mut ours = Vec::new();
        put_bytes(&mut ours, 5, &bytes);
        let mut expected = Vec::new();
        prost::encoding::bytes::encode(5, &bytes, &mut expected);
        assert_eq!(ours, expected);
        let mut embedded = Vec::new();
        put_message(&mut embedded, 5, &bytes);
        assert_eq!(embedded, expected);
    }
}

#[test]
fn a_negative_int32_takes_ten_bytes() {
    let mut out = Vec::new();
    put_int32(&mut out, 1, -1);
    assert_eq!(
        out,
        vec![0x08, 0xff, 0xff, 0xff, 0xff, 0xff, 0xff, 0xff, 0xff, 0xff, 0x01]
    );
    let mut least = Vec::new();
    put_int32(&mut least, 1, i32::MIN);
    assert_eq!(
        least,
        vec![0x08, 0x80, 0x80, 0x80, 0x80, 0xf8, 0xff, 0xff, 0xff, 0xff, 0x01]
    );
}

#[test]
fn a_send_encodes_receiver_amount_and_data() {
    let send = TxSend { receiver: b"ab".to_vec(), amount: 10, data: vec![1, 2, 3] };
    assert_eq!(
        send.encode_to_vec(),
        vec![0x0a, 0x02, b'a', b'b', 0x10, 0x0a, 0x1a, 0x03, 1, 2, 3]
    );
    let bare = TxSend { receiver: vec![], amount: 0, data: vec![] };
    assert!(bare.encode_to_vec().is_empty());
    let amount_only = TxSend { receiver: vec![], amount: 300, data: vec![] };
    assert_eq!(amount_only.encode_to_vec(), vec![0x10, 0xac, 0x02]);
}

#[test]
fn a_transaction_encodes_its_payload_as_one_field() {
    let send = Transaction {
        data: Some(Data::TxSend(TxSend { receiver: b"ab".to_vec(), amount: 10, data: vec![] })),
    };
    assert_eq!(send.encode_to_vec(), vec![0x0a, 0x06, 0x0a, 0x02, b'a', b'b', 0x10, 0x0a]);
    let claim = Transaction {
        data: Some(Data::TxCollect(TxClaim { transaction_id: vec![7, 7] })),
    };
    assert_eq!(claim.encode_to_vec(), vec![0x12, 0x04, 0x0a, 0x02, 7, 7]);
    assert_eq!(
        TxClaim { transaction_id: vec![7, 7] }.encode_to_vec(),
        vec![0x0a, 0x02, 7, 7]
    );
    let delegation = Transaction {
        data: Some(Data::TxDelegate(TxDelegate { representative: vec![5] })),
    };
    assert_eq!(delegation.encode_to_vec(), vec![0x1a, 0x03, 0x0a, 0x01, 5]);
    assert_eq!(TxDelegate { representative: vec![5] }.encode_to_vec(), vec![0x0a, 0x01, 5]);
    let empty_send = Transaction {
        data: Some(Data::TxSend(TxSend { receiver: vec![], amount: 0, data: vec![] })),
    };
    assert_eq!(empty_send.encode_to_vec(), vec![0x0a, 0x00]);
    assert!(Transaction { data: None }.encode_to_vec().is_empty());
}

#[test]
fn block_data_encodes_its_fields_in_order() {
    let data = BlockData {
        version: 1,
        signature_type: 2,
        balance: 100,
        height: 5,
        previous: vec![0xaa, 0xbb],
        transactions: vec![
            Transaction {
                data: Some(Data::TxSend(TxSend {
                    receiver: b"ab".to_vec(),
                    amount: 10,
                    data: vec![],
                })),
            },
            Transaction { data: None },
            Transaction { data: Some(Data::TxCollect(TxClaim { transaction_id: vec![7] })) },
        ],
    };
    let expected: Vec<u8> = vec![
        0x08, 0x01, // version
        0x10, 0x02, // signature_type
        0x18, 0x64, // balance
        0x20, 0x05, // height
        0x2a, 0x02, 0xaa, 0xbb, // previous
        0x32, 0x08, 0x0a, 0x06, 0x0a, 0x02, b'a', b'b', 0x10, 0x0a, // send
        0x32, 0x00, // transaction without payload
        0x32, 0x05, 0x12, 0x03, 0x0a, 0x01, 7, // claim
    ];
    assert_eq!(data.encode_to_vec(), expected);

    let blank = BlockData {
        version: 0,
        signature_type: 0,
        balance: 0,
        height: 0,
        previous: vec![],
        transactions: vec![],
    };
    assert!(blank.encode_to_vec().is_empty());
}

#[test]
fn block_data_is_composed_as_prost_composes_messages() {
    let send = TxSend { receiver: vec![3u8; 200], amount: u64::MAX, data: vec![4u8; 130] };
    let transaction = Transaction { data: Some(Data::TxSend(send.clone())) };
    let data = BlockData {
        version: -1,
        signature_type: 7,
        balance: 1 << 40,
        height: 129,
        previous: vec![1u8; 32],
        transactions: vec![transaction.clone(), transaction.clone()],
    };

    let mut body = Vec::new();
    prost::encoding::bytes::encode(1, &send.receiver, &mut body);
    prost::encoding::uint64::encode(2, &send.amount, &mut body);
    prost::encoding::bytes::encode(3, &send.data, &mut body);
    assert_eq!(send.encode_to_vec(), body);

    let mut wrapped = Vec::new();
    prost::encoding::bytes::encode(1, &body, &mut wrapped);
    assert_eq!(transaction.encode_to_vec(), wrapped);

    let mut expected = Vec::new();
    prost::encoding::int32::encode(1, &data.version, &mut expected);
    prost::encoding::int32::encode(2, &data.signature_type, &mut expected);
    prost::encoding::uint64::encode(3, &data.balance, &mut expected);
    prost::encoding::uint64::encode(4, &data.height, &mut expected);
    prost::encoding::bytes::encode(5, &data.previous, &mut expected);
    prost::encoding::bytes::encode(6, &wrapped, &mut expected);
    prost::encoding::bytes::encode(6, &wrapped, &mut expected);
    assert_eq!(data.encode_to_vec(), expected);
}
