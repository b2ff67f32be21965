use vstd::prelude::*;
use vstd::string::StringExecFns;
use vstd::string::StrSliceExecFns;

verus! {

/// A payment to process. The handler reads only the order it belongs to.
#[derive(Clone, Debug, PartialEq, Eq)]
pub struct PaymentRequest {
    pub order_id: String,
}

/// The answer to a [`PaymentRequest`].
#[derive(Clone, Debug, PartialEq, Eq)]
pub struct PaymentResponse {
    pub success: bool,
    pub confirmation: String,
}

/// A request for a user's transaction history.
#[derive(Clone, Debug, PartialEq, Eq)]
pub struct TransactionRequest {
    pub user_id: String,
}

/// One item of a transaction history; `amount` is in whole currency units.
#[derive(Clone, Debug, PartialEq, Eq)]
pub struct TransactionRecord {
    pub transaction_id: String,
    pub amount: u64,
}

/// A chat line, inbound or outbound.
#[derive(Clone, Debug, PartialEq, Eq)]
pub struct ChatMessage {
    pub user_id: String,
    pub message: String,
}

/// The logical content of a [`ChatMessage`].
pub ghost struct ChatMessageView {
    pub user_id: Seq<char>,
    pub message: Seq<char>,
}

impl View for ChatMessage {
    type V = ChatMessageView;

    open spec fn view(&self) -> ChatMessageView {
        ChatMessageView { user_id: self.user_id@, message: self.message@ }
    }
}

/// The logical content of a [`TransactionRecord`].
pub ghost struct TransactionRecordView {
    pub transaction_id: Seq<char>,
    pub amount: nat,
}

impl View for TransactionRecord {
    type V = TransactionRecordView;

    open spec fn view(&self) -> TransactionRecordView {
        TransactionRecordView { transaction_id: self.transaction_id@, amount: self.amount as nat }
    }
}

pub open spec fn digit_char(d: nat) -> char {
    if d == 0 {
        '0'
    } else if d == 1 {
        '1'
    } else if d == 2 {
        '2'
    } else if d == 3 {
        '3'
    } else if d == 4 {
        '4'
    } else if d == 5 {
        '5'
    } else if d == 6 {
        '6'
    } else if d == 7 {
        '7'
    } else if d == 8 {
        '8'
    } else {
        '9'
    }
}

/// The decimal digits of `n`, most significant first, without leading zeros.
pub open spec fn decimal(n: nat) -> Seq<char>
    decreases n,
{
    if n < 10 {
        seq![digit_char(n)]
    } else {
        decimal(n / 10).push(digit_char(n % 10))
    }
}

/// `n` written in decimal.
pub fn decimal_string(n: u64) -> (s: String)
    ensures
        s@ == decimal(n as nat),
    decreases n,
{
    let digits = "0123456789";
    proof {
        reveal_strlit("0123456789");
    }
    let d: usize = (n % 10) as usize;
    let one = digits.substring_char(d, d + 1);
    assert(one@ =~= seq![digit_char(d as nat)]);
    if n < 10 {
        String::from_str(one)
    } else {
        let mut s = decimal_string(n / 10);
        s.append(one);
        s
    }
}

} // verus!
