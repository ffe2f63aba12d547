use champ::p2p::{Admission, P2pConfig, RETRY_DELAY_MILLIS};
use champ::proto::api::{BlockData, Data, SignedBlock, Transaction, TxSend};
use champ::storage::scylla::Scylla;
use champ::storage::{DatabaseError, LedgerSnapshot, StoredTransaction};

fn config(max_connections: u16) -> P2pConfig {
    P2pConfig {
        max_connections,
        max_incoming_connections: max_connections,
        listening_port: "127.0.0.1:7899",
        is_delegate: false,
    }
}

fn send(amount: u64) -> Transaction {
    Transaction {
        data: Some(Data::TxSend(TxSend { receiver: b"r".to_vec(), amount, data: vec![] })),
    }
}

fn head() -> SignedBlock {
    SignedBlock {
        signature: b"thisIsNewSignature".to_vec(),
        public_key: b"someOtherKey".to_vec(),
        timestamp: 1,
        data: Some(BlockData {
            version: 0,
            signature_type: 0,
            balance: 100,
            height: 4,
            previous: b"blockBeforeMe".to_vec(),
            transactions: vec![],
        }),
    }
}

#[test]
fn connections_are_admitted_below_the_limit() {
    let five = config(5);
    for open in 0..5 {
        assert_eq!(five.admission(open), Admission::Accept);
    }
    assert_eq!(five.admission(5), Admission::Wait(1000));
    assert_eq!(five.admission(6), Admission::Wait(RETRY_DELAY_MILLIS));
    assert_eq!(five.admission(usize::MAX), Admission::Wait(RETRY_DELAY_MILLIS));
    assert_eq!(RETRY_DELAY_MILLIS, 1000);
}

#[test]
fn a_limit_of_zero_admits_nothing() {
    assert_eq!(config(0).admission(0), Admission::Wait(RETRY_DELAY_MILLIS));
    assert_eq!(config(u16::MAX).admission(65534), Admission::Accept);
    assert_eq!(config(u16::MAX).admission(65535), Admission::Wait(RETRY_DELAY_MILLIS));
}

#[test]
fn the_incoming_limit_plays_no_part_in_admission() {
    let mut settings = config(2);
    settings.max_incoming_connections = 0;
    settings.is_delegate = true;
    assert_eq!(settings.admission(1), Admission::Accept);
    assert_eq!(settings.admission(2), Admission::Wait(RETRY_DELAY_MILLIS));
}

#[test]
fn a_new_scylla_backend_has_no_session() {
    assert!(Scylla::new().session.is_none());
    assert!(Scylla::default().session.is_none());
}

#[test]
fn a_snapshot_answers_for_its_own_account() {
    let account = [1u8; 24];
    let snapshot = LedgerSnapshot::new(account, Ok(head()));
    assert_eq!(snapshot.account, account);
    assert_eq!(snapshot.head, Ok(head()));
    assert!(snapshot.transactions.is_empty());
    assert_eq!(snapshot.get_latest_block_by_account(&account), Ok(&head()));
    assert_eq!(snapshot.get_latest_block_by_account(&[2u8; 24]), Err(DatabaseError::NotFound));

    for error in [
        DatabaseError::NoLastBlock,
        DatabaseError::NotFound,
        DatabaseError::Conflict,
        DatabaseError::StorageError,
    ] {
        let failed = LedgerSnapshot::new(account, Err(error));
        assert_eq!(failed.get_latest_block_by_account(&account), Err(error));
        assert_eq!(failed.get_latest_block_by_account(&[2u8; 24]), Err(DatabaseError::NotFound));
    }
}

#[test]
fn a_snapshot_finds_the_first_record_under_an_identifier() {
    let mut snapshot = LedgerSnapshot::new([1u8; 24], Err(DatabaseError::NoLastBlock));
    assert_eq!(snapshot.get_transaction_by_id(&[1u8; 32]), Err(DatabaseError::NotFound));
    snapshot.record_transaction([1u8; 32], send(10));
    snapshot.record_transaction([2u8; 32], send(20));
    snapshot.record_transaction([1u8; 32], send(30));
    assert_eq!(snapshot.get_transaction_by_id(&[1u8; 32]), Ok(&send(10)));
    assert_eq!(snapshot.get_transaction_by_id(&[2u8; 32]), Ok(&send(20)));
    assert_eq!(snapshot.get_transaction_by_id(&[3u8; 32]), Err(DatabaseError::NotFound));
    let mut near = [2u8; 32];
    near[31] = 3;
    assert_eq!(snapshot.get_transaction_by_id(&near), Err(DatabaseError::NotFound));
    assert_eq!(
        snapshot.transactions,
        vec![
            StoredTransaction { id: [1u8; 32], transaction: send(10) },
            StoredTransaction { id: [2u8; 32], transaction: send(20) },
            StoredTransaction { id: [1u8; 32], transaction: send(30) },
        ]
    );
    assert_eq!(snapshot.head, Err(DatabaseError::NoLastBlock));
    assert_eq!(snapshot.account, [1u8; 24]);
}
