//! The banking protocol end to end: wire encodings, the ledger, and the
//! server session against its clients' checks.

use dst_demo::bank::{transaction_from_text, format_transaction, LocalBank, Transaction};
use dst_demo::banker::{
    check_balance_response, check_create_response, check_get_transaction_response,
    check_list_response, ListCheck,
};
use dst_demo::health_checker::check_health_response;
use dst_demo::message::{append_chunk, extract_message, frame_message};
use dst_demo::money::{format_cents, parse_cents};
use dst_demo::server::{ServerAction, ServerSession, SessionError, SessionMode};

#[test]
fn cents_render_exactly() {
    assert_eq!(format_cents(0), b"0.00".to_vec());
    assert_eq!(format_cents(5), b"0.05".to_vec());
    assert_eq!(format_cents(500), b"5.00".to_vec());
    assert_eq!(format_cents(-1234), b"-12.34".to_vec());
    assert_eq!(format_cents(123456789), b"1234567.89".to_vec());
}

#[test]
fn cents_parse_back() {
    assert_eq!(parse_cents(&b"0.00".to_vec()), Some(0));
    assert_eq!(parse_cents(&b"-12.34".to_vec()), Some(-1234));
    assert_eq!(parse_cents(&b"1234567.89".to_vec()), Some(123456789));
    assert_eq!(parse_cents(&b"12".to_vec()), None);
    assert_eq!(parse_cents(&b"12.345".to_vec()), None);
    assert_eq!(parse_cents(&b".00".to_vec()), None);
    assert_eq!(parse_cents(&b"12.3x".to_vec()), None);
}

#[test]
fn transaction_renders_exactly() {
    let t = Transaction { id: 1, amount: 500, created_at: 2 };
    assert_eq!(format_transaction(&t), b"id=1 created_at=2 amount=$5.00".to_vec());
    let t = Transaction { id: 7, amount: -1234, created_at: 99 };
    assert_eq!(format_transaction(&t), b"id=7 created_at=99 amount=$-12.34".to_vec());
}

#[test]
fn transaction_parses_back() {
    let t = Transaction { id: 42, amount: -987654, created_at: 123456 };
    let text = format_transaction(&t);
    assert_eq!(transaction_from_text(&text), Some(t));
    assert_eq!(transaction_from_text(&b"id=1 created_at=2".to_vec()), None);
    assert_eq!(transaction_from_text(&b"id=x created_at=2 amount=$5.00".to_vec()), None);
    assert_eq!(transaction_from_text(&b"".to_vec()), None);
}

#[test]
fn action_names_round_trip() {
    let actions = [
        ServerAction::Health,
        ServerAction::ListTransactions,
        ServerAction::GetTransaction,
        ServerAction::CreateTransaction,
        ServerAction::VoidTransaction,
        ServerAction::GetBalance,
        ServerAction::Close,
        ServerAction::Exit,
    ];
    for action in actions {
        assert_eq!(ServerAction::from_text(&action.to_text()), Some(action));
    }
    assert_eq!(ServerAction::from_text(&b"health".to_vec()), None);
    assert_eq!(ServerAction::from_text(&b"HEALTH".to_vec()), Some(ServerAction::Health));
}

#[test]
fn ledger_loads_and_rejects() {
    let empty = LocalBank::new(&Vec::new()).unwrap();
    assert_eq!(empty.list_transactions().len(), 0);
    assert_eq!(empty.get_balance(), 0);

    let file = b"id=1 created_at=2 amount=$5.00\nid=2 created_at=3 amount=$-1.00\n".to_vec();
    let bank = LocalBank::new(&file).unwrap();
    assert_eq!(bank.list_transactions().len(), 2);
    assert_eq!(bank.get_balance(), 0);
    assert_eq!(
        bank.get_transaction(2),
        Some(Transaction { id: 2, amount: -100, created_at: 3 })
    );
    assert_eq!(bank.get_transaction(9), None);

    let malformed = b"id=1 created_at=2 amount=$5.00\nnot a record\n".to_vec();
    assert!(LocalBank::new(&malformed).is_err());
}

#[test]
fn ledger_creates_and_voids() {
    let mut bank = LocalBank::new(&Vec::new()).unwrap();
    let t1 = bank.create_transaction(500, 10);
    assert_eq!(t1, Transaction { id: 1, amount: 500, created_at: 10 });
    let t2 = bank.create_transaction(-200, 11);
    assert_eq!(t2.id, 2);
    assert_eq!(bank.get_balance(), 300);

    let voided = bank.void_transaction(1, 12).unwrap();
    assert_eq!(voided, Transaction { id: 3, amount: -500, created_at: 12 });
    assert_eq!(bank.get_balance(), -200);
    assert_eq!(bank.void_transaction(99, 13), None);
    assert_eq!(bank.get_balance(), -200);
}

#[test]
fn session_answers_health() {
    let mut bank = LocalBank::new(&Vec::new()).unwrap();
    let mut session = ServerSession::new();
    let out = session.on_message(&mut bank, &b"HEALTH".to_vec(), 1);
    assert_eq!(out.replies.len(), 1);
    assert_eq!(out.replies[0], b"healthy".to_vec());
    assert!(!out.close && !out.exit && out.error.is_none());
    assert!(check_health_response(&out.replies[0]));
}

#[test]
fn session_creates_transaction() {
    let mut bank = LocalBank::new(&Vec::new()).unwrap();
    let mut session = ServerSession::new();
    let out = session.on_message(&mut bank, &b"CREATE_TRANSACTION".to_vec(), 5);
    assert_eq!(out.replies[0], b"Enter the transaction amount:".to_vec());
    assert!(matches!(session.mode, SessionMode::AwaitingAmount));
    let out = session.on_message(&mut bank, &b"12.50".to_vec(), 6);
    assert_eq!(out.replies[0], b"id=1 created_at=6 amount=$12.50".to_vec());
    assert!(check_create_response(&out.replies[0]));
    assert_eq!(bank.get_balance(), 1250);
}

#[test]
fn session_rejects_bad_amount() {
    let mut bank = LocalBank::new(&Vec::new()).unwrap();
    let mut session = ServerSession::new();
    session.on_message(&mut bank, &b"CREATE_TRANSACTION".to_vec(), 5);
    let out = session.on_message(&mut bank, &b"money".to_vec(), 6);
    assert_eq!(out.error, Some(SessionError::BadAmount));
    assert_eq!(out.replies.len(), 0);
    assert_eq!(bank.list_transactions().len(), 0);
}

#[test]
fn session_looks_up_transactions() {
    let mut bank = LocalBank::new(&Vec::new()).unwrap();
    let mut session = ServerSession::new();
    session.on_message(&mut bank, &b"CREATE_TRANSACTION".to_vec(), 5);
    session.on_message(&mut bank, &b"3.00".to_vec(), 5);

    let out = session.on_message(&mut bank, &b"GET_TRANSACTION".to_vec(), 6);
    assert_eq!(out.replies[0], b"Enter the transaction ID:".to_vec());
    let out = session.on_message(&mut bank, &b"1".to_vec(), 6);
    assert_eq!(out.replies[0], b"id=1 created_at=5 amount=$3.00".to_vec());
    assert!(check_get_transaction_response(&out.replies[0], 1));

    session.on_message(&mut bank, &b"GET_TRANSACTION".to_vec(), 7);
    let out = session.on_message(&mut bank, &b"42".to_vec(), 7);
    assert_eq!(out.replies[0], b"Transaction not found".to_vec());
    assert!(check_get_transaction_response(&out.replies[0], 42));

    session.on_message(&mut bank, &b"GET_TRANSACTION".to_vec(), 8);
    let out = session.on_message(&mut bank, &b"one".to_vec(), 8);
    assert_eq!(out.error, Some(SessionError::BadTransactionId));
}

#[test]
fn session_lists_and_balances() {
    let mut bank = LocalBank::new(&Vec::new()).unwrap();
    let mut session = ServerSession::new();
    session.on_message(&mut bank, &b"CREATE_TRANSACTION".to_vec(), 5);
    session.on_message(&mut bank, &b"3.00".to_vec(), 5);
    session.on_message(&mut bank, &b"CREATE_TRANSACTION".to_vec(), 6);
    session.on_message(&mut bank, &b"-1.50".to_vec(), 6);

    let out = session.on_message(&mut bank, &b"LIST_TRANSACTIONS".to_vec(), 7);
    assert_eq!(
        out.replies[0],
        b"id=1 created_at=5 amount=$3.00\nid=2 created_at=6 amount=$-1.50".to_vec()
    );
    let listing = out.replies[0].clone();
    assert_eq!(check_list_response(&listing, &vec![300, -150]), ListCheck::AllPresent);
    assert_eq!(
        check_list_response(&listing, &vec![300, -150, 42]),
        ListCheck::TooFew
    );
    assert_eq!(
        check_list_response(&listing, &vec![300, 4200]),
        ListCheck::Missing { amount: 4200 }
    );
    assert_eq!(check_list_response(&b"garbage".to_vec(), &vec![]), ListCheck::Malformed);

    let out = session.on_message(&mut bank, &b"GET_BALANCE".to_vec(), 8);
    assert_eq!(out.replies[0], b"$1.50".to_vec());
    assert!(check_balance_response(&out.replies[0]));
    assert!(!check_balance_response(&b"1.50".to_vec()));
}

#[test]
fn session_closes_and_exits() {
    let mut bank = LocalBank::new(&Vec::new()).unwrap();
    let mut session = ServerSession::new();
    let out = session.on_message(&mut bank, &b"CLOSE".to_vec(), 1);
    assert!(out.close && !out.exit);
    let out = session.on_message(&mut bank, &b"EXIT".to_vec(), 1);
    assert!(out.close && out.exit);
    let out = session.on_message(&mut bank, &b"DANCE".to_vec(), 1);
    assert_eq!(out.error, Some(SessionError::UnknownAction));
}

#[test]
fn framing_reassembles_messages() {
    let framed = frame_message(&b"HEALTH".to_vec());
    assert_eq!(framed, b"HEALTH\0".to_vec());

    let mut buffer: Vec<u8> = Vec::new();
    append_chunk(&mut buffer, &b"HEA".to_vec());
    assert_eq!(extract_message(&mut buffer), None);
    append_chunk(&mut buffer, &b"LTH\0GET_".to_vec());
    assert_eq!(extract_message(&mut buffer), Some(b"HEALTH".to_vec()));
    append_chunk(&mut buffer, &b"BALANCE\0".to_vec());
    assert_eq!(extract_message(&mut buffer), Some(b"GET_BALANCE".to_vec()));
    assert_eq!(extract_message(&mut buffer), None);
    assert_eq!(buffer.len(), 0);
}
