//! The sample banking server as a message-driven state machine.
//!
//! One connection holds one session. The surrounding process feeds the
//! session each complete message it receives and sends back the replies the
//! session returns; everything the server decides — which action a message
//! names, which prompt to send, what the ledger does — is here.

use vstd::prelude::*;
use vstd::string::StrSliceExecFns;
use vstd::string::StringSliceAdditionalSpecFns;

use crate::bank::{
    find_transaction, transaction_text, transactions_text, LocalBank, Transaction,
};
use crate::money::{cents_parse_spec, cents_text, format_cents, parse_cents};
use crate::text::{bytes_eq, int_parse_spec, parse_i32};

verus! {

/// The actions a client can name on the wire.
#[derive(Clone, Copy, Debug, PartialEq, Eq, Structural)]
pub enum ServerAction {
    Health,
    ListTransactions,
    GetTransaction,
    CreateTransaction,
    VoidTransaction,
    GetBalance,
    Close,
    Exit,
}

/// The wire name of each action.
pub open spec fn action_text(a: ServerAction) -> Seq<u8> {
    match a {
        ServerAction::Health => "HEALTH".spec_bytes(),
        ServerAction::ListTransactions => "LIST_TRANSACTIONS".spec_bytes(),
        ServerAction::GetTransaction => "GET_TRANSACTION".spec_bytes(),
        ServerAction::CreateTransaction => "CREATE_TRANSACTION".spec_bytes(),
        ServerAction::VoidTransaction => "VOID_TRANSACTION".spec_bytes(),
        ServerAction::GetBalance => "GET_BALANCE".spec_bytes(),
        ServerAction::Close => "CLOSE".spec_bytes(),
        ServerAction::Exit => "EXIT".spec_bytes(),
    }
}

/// Which action a message names, if any.
pub open spec fn action_parse_spec(s: Seq<u8>) -> Option<ServerAction> {
    if s == action_text(ServerAction::Health) {
        Some(ServerAction::Health)
    } else if s == action_text(ServerAction::ListTransactions) {
        Some(ServerAction::ListTransactions)
    } else if s == action_text(ServerAction::GetTransaction) {
        Some(ServerAction::GetTransaction)
    } else if s == action_text(ServerAction::CreateTransaction) {
        Some(ServerAction::CreateTransaction)
    } else if s == action_text(ServerAction::VoidTransaction) {
        Some(ServerAction::VoidTransaction)
    } else if s == action_text(ServerAction::GetBalance) {
        Some(ServerAction::GetBalance)
    } else if s == action_text(ServerAction::Close) {
        Some(ServerAction::Close)
    } else if s == action_text(ServerAction::Exit) {
        Some(ServerAction::Exit)
    } else {
        None
    }
}

impl ServerAction {
    /// The wire name of this action.
    pub fn to_text(&self) -> (r: Vec<u8>)
        ensures
            r@ == action_text(*self),
    {
        match self {
            ServerAction::Health => "HEALTH".as_bytes_vec(),
            ServerAction::ListTransactions => "LIST_TRANSACTIONS".as_bytes_vec(),
            ServerAction::GetTransaction => "GET_TRANSACTION".as_bytes_vec(),
            ServerAction::CreateTransaction => "CREATE_TRANSACTION".as_bytes_vec(),
            ServerAction::VoidTransaction => "VOID_TRANSACTION".as_bytes_vec(),
            ServerAction::GetBalance => "GET_BALANCE".as_bytes_vec(),
            ServerAction::Close => "CLOSE".as_bytes_vec(),
            ServerAction::Exit => "EXIT".as_bytes_vec(),
        }
    }

    /// Parse a wire name.
    pub fn from_text(s: &Vec<u8>) -> (r: Option<ServerAction>)
        ensures
            r == action_parse_spec(s@),
    {
        if bytes_eq(s, &"HEALTH".as_bytes_vec()) {
            Some(ServerAction::Health)
        } else if bytes_eq(s, &"LIST_TRANSACTIONS".as_bytes_vec()) {
            Some(ServerAction::ListTransactions)
        } else if bytes_eq(s, &"GET_TRANSACTION".as_bytes_vec()) {
            Some(ServerAction::GetTransaction)
        } else if bytes_eq(s, &"CREATE_TRANSACTION".as_bytes_vec()) {
            Some(ServerAction::CreateTransaction)
        } else if bytes_eq(s, &"VOID_TRANSACTION".as_bytes_vec()) {
            Some(ServerAction::VoidTransaction)
        } else if bytes_eq(s, &"GET_BALANCE".as_bytes_vec()) {
            Some(ServerAction::GetBalance)
        } else if bytes_eq(s, &"CLOSE".as_bytes_vec()) {
            Some(ServerAction::Close)
        } else if bytes_eq(s, &"EXIT".as_bytes_vec()) {
            Some(ServerAction::Exit)
        } else {
            None
        }
    }
}

/// An action's wire name parses back to that action.
pub proof fn lemma_action_round_trip(a: ServerAction)
    ensures
        action_parse_spec(action_text(a)) == Some(a),
{
    reveal_strlit("HEALTH");
    reveal_strlit("LIST_TRANSACTIONS");
    reveal_strlit("GET_TRANSACTION");
    reveal_strlit("CREATE_TRANSACTION");
    reveal_strlit("VOID_TRANSACTION");
    reveal_strlit("GET_BALANCE");
    reveal_strlit("CLOSE");
    reveal_strlit("EXIT");
    broadcast use vstd::string::is_ascii_spec_bytes;

    assert("HEALTH".is_ascii());
    assert("LIST_TRANSACTIONS".is_ascii());
    assert("GET_TRANSACTION".is_ascii());
    assert("CREATE_TRANSACTION".is_ascii());
    assert("VOID_TRANSACTION".is_ascii());
    assert("GET_BALANCE".is_ascii());
    assert("CLOSE".is_ascii());
    assert("EXIT".is_ascii());
    assert(action_text(ServerAction::Health).len() == 6);
    assert(action_text(ServerAction::ListTransactions).len() == 17);
    assert(action_text(ServerAction::GetTransaction).len() == 15);
    assert(action_text(ServerAction::CreateTransaction).len() == 18);
    assert(action_text(ServerAction::VoidTransaction).len() == 16);
    assert(action_text(ServerAction::GetBalance).len() == 11);
    assert(action_text(ServerAction::Close).len() == 5);
    assert(action_text(ServerAction::Exit).len() == 4);
}

/// The prompt sent before a transaction identifier is read.
pub open spec fn id_prompt() -> Seq<u8> {
    "Enter the transaction ID:".spec_bytes()
}

/// The prompt sent before an amount is read.
pub open spec fn amount_prompt() -> Seq<u8> {
    "Enter the transaction amount:".spec_bytes()
}

/// The reply for an identifier no record carries.
pub open spec fn not_found_text() -> Seq<u8> {
    "Transaction not found".spec_bytes()
}

/// The health reply.
pub open spec fn healthy_text() -> Seq<u8> {
    "healthy".spec_bytes()
}

/// The balance reply: a dollar sign, then the balance.
pub open spec fn balance_text(balance: int) -> Seq<u8> {
    seq![36u8] + cents_text(balance)
}

/// What a session is waiting for next.
#[derive(Clone, Copy, Debug, PartialEq, Eq, Structural)]
pub enum SessionMode {
    /// The next message names an action.
    AwaitingAction,
    /// The next message is the identifier to look up.
    AwaitingGetId,
    /// The next message is the identifier to void.
    AwaitingVoidId,
    /// The next message is the amount to accept.
    AwaitingAmount,
}

/// A message the session could not use; the connection goes on.
#[derive(Clone, Copy, Debug, PartialEq, Eq, Structural)]
pub enum SessionError {
    UnknownAction,
    BadTransactionId,
    BadAmount,
}

/// What one message makes the session do.
pub struct SessionOutput {
    /// Messages to send back, in order, each to be framed on the wire.
    pub replies: Vec<Vec<u8>>,
    /// Close this connection.
    pub close: bool,
    /// Shut the whole server down.
    pub exit: bool,
    /// A message that could not be used, for the caller's log.
    pub error: Option<SessionError>,
}

/// One client connection's protocol state.
pub struct ServerSession {
    pub mode: SessionMode,
}

impl ServerSession {
    /// A fresh connection awaits an action.
    pub fn new() -> (r: Self)
        ensures
            r.mode == SessionMode::AwaitingAction,
    {
        ServerSession { mode: SessionMode::AwaitingAction }
    }

    /// Feed one complete message to the session against the given ledger at
    /// the given virtual second. The output pins the replies, the next
    /// state, and what happened to the ledger, for every case.
    pub fn on_message(
        &mut self,
        bank: &mut LocalBank,
        msg: &Vec<u8>,
        now_seconds: i64,
    ) -> (out: SessionOutput)
        requires
            old(bank).wf(),
            old(bank).current_id() < i32::MAX,
            now_seconds >= 1,
            -crate::bank::BALANCE_HEADROOM <= old(bank).balance()
                <= crate::bank::BALANCE_HEADROOM,
        ensures
            final(bank).wf(),
            out.exit ==> out.close,
            match old(self).mode {
                SessionMode::AwaitingAction => match action_parse_spec(msg@) {
                    None => {
                        &&& *final(bank) == *old(bank)
                        &&& final(self).mode == SessionMode::AwaitingAction
                        &&& out.replies@.len() == 0
                        &&& !out.close
                        &&& out.error == Some(SessionError::UnknownAction)
                    },
                    Some(a) => {
                        &&& out.error is None
                        &&& match a {
                            ServerAction::Health => {
                                &&& *final(bank) == *old(bank)
                                &&& final(self).mode == SessionMode::AwaitingAction
                                &&& out.replies@.len() == 1 && out.replies@[0]@ == healthy_text()
                                &&& !out.close
                            },
                            ServerAction::ListTransactions => {
                                &&& *final(bank) == *old(bank)
                                &&& final(self).mode == SessionMode::AwaitingAction
                                &&& out.replies@.len() == 1 && out.replies@[0]@
                                    == transactions_text(old(bank).transactions())
                                &&& !out.close
                            },
                            ServerAction::GetTransaction => {
                                &&& *final(bank) == *old(bank)
                                &&& final(self).mode == SessionMode::AwaitingGetId
                                &&& out.replies@.len() == 1 && out.replies@[0]@ == id_prompt()
                                &&& !out.close
                            },
                            ServerAction::CreateTransaction => {
                                &&& *final(bank) == *old(bank)
                                &&& final(self).mode == SessionMode::AwaitingAmount
                                &&& out.replies@.len() == 1 && out.replies@[0]@ == amount_prompt()
                                &&& !out.close
                            },
                            ServerAction::VoidTransaction => {
                                &&& *final(bank) == *old(bank)
                                &&& final(self).mode == SessionMode::AwaitingVoidId
                                &&& out.replies@.len() == 1 && out.replies@[0]@ == id_prompt()
                                &&& !out.close
                            },
                            ServerAction::GetBalance => {
                                &&& *final(bank) == *old(bank)
                                &&& final(self).mode == SessionMode::AwaitingAction
                                &&& out.replies@.len() == 1 && out.replies@[0]@ == balance_text(
                                    old(bank).balance() as int,
                                )
                                &&& !out.close
                            },
                            ServerAction::Close => {
                                &&& *final(bank) == *old(bank)
                                &&& out.replies@.len() == 0
                                &&& out.close && !out.exit
                            },
                            ServerAction::Exit => {
                                &&& *final(bank) == *old(bank)
                                &&& out.replies@.len() == 0
                                &&& out.close && out.exit
                            },
                        }
                    },
                },
                SessionMode::AwaitingGetId => {
                    &&& final(self).mode == SessionMode::AwaitingAction
                    &&& !out.close
                    &&& match int_parse_spec(msg@) {
                        Some(v) => if i32::MIN <= v <= i32::MAX {
                            &&& *final(bank) == *old(bank)
                            &&& out.error is None
                            &&& out.replies@.len() == 1
                            &&& match find_transaction(old(bank).transactions(), v as i32) {
                                Some(t) => out.replies@[0]@ == transaction_text(t),
                                None => out.replies@[0]@ == not_found_text(),
                            }
                        } else {
                            &&& *final(bank) == *old(bank)
                            &&& out.error == Some(SessionError::BadTransactionId)
                            &&& out.replies@.len() == 0
                        },
                        None => {
                            &&& *final(bank) == *old(bank)
                            &&& out.error == Some(SessionError::BadTransactionId)
                            &&& out.replies@.len() == 0
                        },
                    }
                },
                SessionMode::AwaitingVoidId => {
                    &&& final(self).mode == SessionMode::AwaitingAction
                    &&& !out.close
                    &&& match int_parse_spec(msg@) {
                        Some(v) => if i32::MIN <= v <= i32::MAX {
                            &&& out.error is None
                            &&& out.replies@.len() == 1
                            &&& match find_transaction(old(bank).transactions(), v as i32) {
                                Some(existing) => {
                                    &&& final(bank).transactions() == old(
                                        bank,
                                    ).transactions().push(
                                        Transaction {
                                            id: old(bank).current_id(),
                                            amount: (-existing.amount) as i128,
                                            created_at: now_seconds,
                                        },
                                    )
                                    &&& final(bank).balance() == old(bank).balance()
                                        - existing.amount
                                    &&& out.replies@[0]@ == transaction_text(
                                        Transaction {
                                            id: old(bank).current_id(),
                                            amount: (-existing.amount) as i128,
                                            created_at: now_seconds,
                                        },
                                    )
                                },
                                None => {
                                    &&& *final(bank) == *old(bank)
                                    &&& out.replies@[0]@ == not_found_text()
                                },
                            }
                        } else {
                            &&& *final(bank) == *old(bank)
                            &&& out.error == Some(SessionError::BadTransactionId)
                            &&& out.replies@.len() == 0
                        },
                        None => {
                            &&& *final(bank) == *old(bank)
                            &&& out.error == Some(SessionError::BadTransactionId)
                            &&& out.replies@.len() == 0
                        },
                    }
                },
                SessionMode::AwaitingAmount => {
                    &&& final(self).mode == SessionMode::AwaitingAction
                    &&& !out.close
                    &&& match cents_parse_spec(msg@) {
                        Some(a) => {
                            &&& out.error is None
                            &&& final(bank).transactions() == old(bank).transactions().push(
                                Transaction {
                                    id: old(bank).current_id(),
                                    amount: a as i128,
                                    created_at: now_seconds,
                                },
                            )
                            &&& final(bank).balance() == old(bank).balance() + a
                            &&& out.replies@.len() == 1
                            &&& out.replies@[0]@ == transaction_text(
                                Transaction {
                                    id: old(bank).current_id(),
                                    amount: a as i128,
                                    created_at: now_seconds,
                                },
                            )
                        },
                        None => {
                            &&& *final(bank) == *old(bank)
                            &&& out.error == Some(SessionError::BadAmount)
                            &&& out.replies@.len() == 0
                        },
                    }
                },
            },
    {
        let mode = self.mode;
        match mode {
            SessionMode::AwaitingAction => {
                let action = match ServerAction::from_text(msg) {
                    Some(a) => a,
                    None => {
                        return SessionOutput {
                            replies: Vec::new(),
                            close: false,
                            exit: false,
                            error: Some(SessionError::UnknownAction),
                        };
                    },
                };
                match action {
                    ServerAction::Health => {
                        let mut replies: Vec<Vec<u8>> = Vec::new();
                        replies.push("healthy".as_bytes_vec());
                        SessionOutput { replies, close: false, exit: false, error: None }
                    },
                    ServerAction::ListTransactions => {
                        let mut replies: Vec<Vec<u8>> = Vec::new();
                        replies.push(bank.render_transactions());
                        SessionOutput { replies, close: false, exit: false, error: None }
                    },
                    ServerAction::GetTransaction => {
                        self.mode = SessionMode::AwaitingGetId;
                        let mut replies: Vec<Vec<u8>> = Vec::new();
                        replies.push("Enter the transaction ID:".as_bytes_vec());
                        SessionOutput { replies, close: false, exit: false, error: None }
                    },
                    ServerAction::CreateTransaction => {
                        self.mode = SessionMode::AwaitingAmount;
                        let mut replies: Vec<Vec<u8>> = Vec::new();
                        replies.push("Enter the transaction amount:".as_bytes_vec());
                        SessionOutput { replies, close: false, exit: false, error: None }
                    },
                    ServerAction::VoidTransaction => {
                        self.mode = SessionMode::AwaitingVoidId;
                        let mut replies: Vec<Vec<u8>> = Vec::new();
                        replies.push("Enter the transaction ID:".as_bytes_vec());
                        SessionOutput { replies, close: false, exit: false, error: None }
                    },
                    ServerAction::GetBalance => {
                        let balance = bank.get_balance();
                        let mut reply: Vec<u8> = Vec::new();
                        reply.push(36);
                        let mut body = format_cents(balance);
                        reply.append(&mut body);
                        proof {
                            assert(reply@ =~= balance_text(bank.balance() as int));
                        }
                        let mut replies: Vec<Vec<u8>> = Vec::new();
                        replies.push(reply);
                        SessionOutput { replies, close: false, exit: false, error: None }
                    },
                    ServerAction::Close => SessionOutput {
                        replies: Vec::new(),
                        close: true,
                        exit: false,
                        error: None,
                    },
                    ServerAction::Exit => SessionOutput {
                        replies: Vec::new(),
                        close: true,
                        exit: true,
                        error: None,
                    },
                }
            },
            SessionMode::AwaitingGetId => {
                self.mode = SessionMode::AwaitingAction;
                let id = match parse_i32(msg) {
                    Some(v) => v,
                    None => {
                        return SessionOutput {
                            replies: Vec::new(),
                            close: false,
                            exit: false,
                            error: Some(SessionError::BadTransactionId),
                        };
                    },
                };
                let mut replies: Vec<Vec<u8>> = Vec::new();
                match bank.get_transaction(id) {
                    Some(t) => {
                        proof {
                            crate::bank::lemma_find_transaction_found(bank.transactions(), id);
                        }
                        replies.push(crate::bank::format_transaction(&t));
                    },
                    None => {
                        replies.push("Transaction not found".as_bytes_vec());
                    },
                }
                SessionOutput { replies, close: false, exit: false, error: None }
            },
            SessionMode::AwaitingVoidId => {
                self.mode = SessionMode::AwaitingAction;
                let id = match parse_i32(msg) {
                    Some(v) => v,
                    None => {
                        return SessionOutput {
                            replies: Vec::new(),
                            close: false,
                            exit: false,
                            error: Some(SessionError::BadTransactionId),
                        };
                    },
                };
                let ghost pre_bank = *bank;
                let mut replies: Vec<Vec<u8>> = Vec::new();
                match bank.void_transaction(id, now_seconds) {
                    Some(t) => {
                        proof {
                            crate::bank::lemma_find_transaction_found(pre_bank.transactions(), id);
                        }
                        replies.push(crate::bank::format_transaction(&t));
                    },
                    None => {
                        replies.push("Transaction not found".as_bytes_vec());
                    },
                }
                SessionOutput { replies, close: false, exit: false, error: None }
            },
            SessionMode::AwaitingAmount => {
                self.mode = SessionMode::AwaitingAction;
                let amount = match parse_cents(msg) {
                    Some(a) => a,
                    None => {
                        return SessionOutput {
                            replies: Vec::new(),
                            close: false,
                            exit: false,
                            error: Some(SessionError::BadAmount),
                        };
                    },
                };
                proof {
                    crate::money::lemma_cents_parse_bounds(msg@);
                }
                let t = bank.create_transaction(amount, now_seconds);
                let mut replies: Vec<Vec<u8>> = Vec::new();
                replies.push(crate::bank::format_transaction(&t));
                SessionOutput { replies, close: false, exit: false, error: None }
            },
        }
    }
}

} // verus!
