//! What the API answers with, and the names that its enumerations have on
//! the wire.

use vstd::prelude::*;
use crate::amount::Decimal;
use crate::time::Timestamp;

verus! {

/// One currency that the exchange lists.
#[derive(Clone, Debug)]
pub struct CurrencyInfo {
    pub id: String,
    pub full_name: String,
    pub crypto: bool,
    pub payin_enabled: bool,
    pub payin_payment_id: bool,
    pub payin_confirmations: u64,
    pub payout_enabled: bool,
    pub payout_is_payment_id: bool,
    pub payout_fee: Decimal,
    pub transfer_enabled: bool,
    pub delisted: bool,
}

/// Where to send a deposit.
#[derive(Clone, Debug)]
pub struct DepositAddressInfo {
    pub address: String,
    pub payment_id: Option<String>,
}

/// How far a transaction has come.
#[derive(Clone, Copy, Debug, PartialEq, Eq, Hash, Structural)]
pub enum TransactionStatus {
    Pending,
    Failed,
    Success,
}

/// What a transaction moves, and in which direction.
#[derive(Clone, Copy, Debug, PartialEq, Eq, Hash, Structural)]
pub enum TransactionType {
    Payout,
    Payin,
    Deposit,
    Withdraw,
    BankToExchange,
    ExchangeToBank,
}

/// One entry of the account's history.
#[derive(Clone, Debug)]
pub struct Transaction {
    /// The 128 bits of the transaction's UUID.
    pub id: u128,
    pub index: u64,
    pub currency: String,
    pub amount: Decimal,
    pub fee: Decimal,
    pub network_fee: Decimal,
    pub address: String,
    pub payment_id: Option<String>,
    pub hash: String,
    pub status: TransactionStatus,
    pub transaction_type: TransactionType,
    pub created_at: Timestamp,
    pub updated_at: Timestamp,
}

/// The direction of a transfer between the bank account and the trading
/// account.
#[derive(Clone, Copy, Debug, PartialEq, Eq, Structural)]
pub enum AccountMoneyTransferDirection {
    BankToExchange,
    ExchangeToBank,
}

fn same_text(left: &str, right: &str) -> (same: bool)
    ensures
        same == (left@ == right@),
{
    left.to_owned() == right.to_owned()
}

impl TransactionStatus {
    /// The status that the API calls `name`, if there is one. The names are
    /// those of the variants in lower case.
    pub open spec fn named(name: Seq<char>) -> Option<TransactionStatus> {
        if name == "pending"@ {
            Some(TransactionStatus::Pending)
        } else if name == "failed"@ {
            Some(TransactionStatus::Failed)
        } else if name == "success"@ {
            Some(TransactionStatus::Success)
        } else {
            None
        }
    }

    /// Reads a status from its name on the wire. Any other text, a name in
    /// another case included, is no status.
    pub fn from_wire_name(name: &str) -> (status: Option<TransactionStatus>)
        ensures
            status == Self::named(name@),
    {
        if same_text(name, "pending") {
            Some(TransactionStatus::Pending)
        } else if same_text(name, "failed") {
            Some(TransactionStatus::Failed)
        } else if same_text(name, "success") {
            Some(TransactionStatus::Success)
        } else {
            None
        }
    }
}

impl TransactionType {
    /// The type that the API calls `name`, if there is one. The names are
    /// those of the variants in lower case, written as one word.
    pub open spec fn named(name: Seq<char>) -> Option<TransactionType> {
        if name == "payout"@ {
            Some(TransactionType::Payout)
        } else if name == "payin"@ {
            Some(TransactionType::Payin)
        } else if name == "deposit"@ {
            Some(TransactionType::Deposit)
        } else if name == "withdraw"@ {
            Some(TransactionType::Withdraw)
        } else if name == "banktoexchange"@ {
            Some(TransactionType::BankToExchange)
        } else if name == "exchangetobank"@ {
            Some(TransactionType::ExchangeToBank)
        } else {
            None
        }
    }

    /// Reads a type from its name on the wire. Any other text is no type.
    pub fn from_wire_name(name: &str) -> (kind: Option<TransactionType>)
        ensures
            kind == Self::named(name@),
    {
        if same_text(name, "payout") {
            Some(TransactionType::Payout)
        } else if same_text(name, "payin") {
            Some(TransactionType::Payin)
        } else if same_text(name, "deposit") {
            Some(TransactionType::Deposit)
        } else if same_text(name, "withdraw") {
            Some(TransactionType::Withdraw)
        } else if same_text(name, "banktoexchange") {
            Some(TransactionType::BankToExchange)
        } else if same_text(name, "exchangetobank") {
            Some(TransactionType::ExchangeToBank)
        } else {
            None
        }
    }
}

impl AccountMoneyTransferDirection {
    /// The name of the direction in a request: that of the variant, with a
    /// small first letter.
    pub open spec fn wire_name(self) -> Seq<char> {
        match self {
            AccountMoneyTransferDirection::BankToExchange => "bankToExchange"@,
            AccountMoneyTransferDirection::ExchangeToBank => "exchangeToBank"@,
        }
    }

    /// The name of the direction in a request.
    pub fn as_str(&self) -> (name: &'static str)
        ensures
            name@ == self.wire_name(),
    {
        match self {
            AccountMoneyTransferDirection::BankToExchange => "bankToExchange",
            AccountMoneyTransferDirection::ExchangeToBank => "exchangeToBank",
        }
    }
}

/// The two directions have different names.
pub proof fn direction_names_differ()
    ensures
        AccountMoneyTransferDirection::BankToExchange.wire_name()
            != AccountMoneyTransferDirection::ExchangeToBank.wire_name(),
{
    reveal_strlit("bankToExchange");
    reveal_strlit("exchangeToBank");
    assert("bankToExchange"@[0] == 'b');
    assert("exchangeToBank"@[0] == 'e');
}

} // verus!
