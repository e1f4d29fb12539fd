//! The paths of the API and the parameters that each call sends.

use vstd::prelude::*;
use vstd::string::*;
use crate::digits::{decimal_digits, u64_to_decimal};
use crate::models::AccountMoneyTransferDirection;
use crate::query::{present, Query};

verus! {

/// The path of the list of currencies.
pub open spec fn currencies_path() -> Seq<char> {
    "/api/v2/public/currency"@
}

/// The path of the deposit address for `currency`. The code goes into the
/// path as it is given.
pub open spec fn deposit_address_path(currency: Seq<char>) -> Seq<char> {
    "/api/2/account/crypto/address/"@ + currency
}

/// The path of the account's whole history.
pub open spec fn transactions_root() -> Seq<char> {
    "/api/v2/account/transactions"@
}

/// The path of the history, or of the one transaction `id` in it.
pub open spec fn transactions_path(id: Option<Seq<char>>) -> Seq<char> {
    match id {
        Some(id) => transactions_root() + "/"@ + id,
        None => transactions_root(),
    }
}

/// The path of a transfer between the two accounts.
pub open spec fn transfer_path() -> Seq<char> {
    "/api/v2/account/transfer"@
}

/// The decimal notation of a limit, if there is one.
pub open spec fn limit_text(limit: Option<u64>) -> Option<Seq<char>> {
    match limit {
        Some(n) => Some(decimal_digits(n as nat)),
        None => None,
    }
}

/// The parameters of a query of the history: `from`, `till` and `limit`, each
/// only if it is given, `from` and `till` by their text.
pub open spec fn history_pairs(
    from: Option<Seq<char>>,
    till: Option<Seq<char>>,
    limit: Option<u64>,
) -> Seq<(Seq<char>, Seq<char>)> {
    present("from"@, from) + present("till"@, till) + present("limit"@, limit_text(limit))
}

/// The parameters of a transfer: `currency`, `amount` by its text, and
/// `type`, the name of the direction.
pub open spec fn transfer_pairs(
    currency: Seq<char>,
    amount: Seq<char>,
    direction: AccountMoneyTransferDirection,
) -> Seq<(Seq<char>, Seq<char>)> {
    seq![("currency"@, currency), ("amount"@, amount), ("type"@, direction.wire_name())]
}

/// Writes the path of the deposit address for `currency`.
pub fn make_deposit_address_path(currency: &str) -> (path: String)
    ensures
        path@ == deposit_address_path(currency@),
{
    let mut path = "/api/2/account/crypto/address/".to_owned();
    path.append(currency);
    path
}

/// Writes the path of the history, with the identifier as a further segment
/// if there is one.
pub fn make_transactions_path(transaction_id: Option<String>) -> (path: String)
    ensures
        path@ == transactions_path(transaction_id.deep_view()),
{
    let mut path = "/api/v2/account/transactions".to_owned();
    if let Some(id) = transaction_id {
        path.append("/");
        path.append(id.as_str());
    }
    path
}

/// Collects the parameters of a query of the history. A filter that is not
/// given leaves no trace in the query.
pub fn history_query(from: Option<String>, till: Option<String>, limit: Option<u64>) -> (query:
    Query)
    ensures
        query@ == history_pairs(from.deep_view(), till.deep_view(), limit),
{
    let mut query = Query::new();
    query.push_present("from", from);
    query.push_present("till", till);
    let limit_digits = match limit {
        Some(n) => Some(u64_to_decimal(n)),
        None => None,
    };
    query.push_present("limit", limit_digits);
    assert(query@ =~= history_pairs(from.deep_view(), till.deep_view(), limit));
    query
}

/// Collects the parameters of a transfer.
pub fn transfer_query(
    currency: String,
    amount: String,
    direction: AccountMoneyTransferDirection,
) -> (query: Query)
    ensures
        query@ == transfer_pairs(currency@, amount@, direction),
{
    let mut query = Query::new();
    query.push("currency", currency);
    query.push("amount", amount);
    query.push("type", direction.as_str().to_owned());
    assert(query@ =~= transfer_pairs(currency@, amount@, direction));
    query
}

/// Without an identifier the path of the history has no further segment;
/// with one, it is that path, a `/`, and the identifier as it was given.
pub proof fn transactions_path_segments(id: Seq<char>)
    ensures
        transactions_path(None) == transactions_root(),
        transactions_path(Some(id)) == transactions_root() + "/"@ + id,
        transactions_path(Some(id)).len() == transactions_root().len() + 1 + id.len(),
        transactions_path(Some(id)).subrange(0, transactions_root().len() as int)
            == transactions_root(),
        transactions_path(Some(id))[transactions_root().len() as int] == '/',
        transactions_path(Some(id)).skip(transactions_root().len() as int + 1) == id,
{
    reveal_strlit("/");
    let root = transactions_root();
    let path = transactions_path(Some(id));
    assert(path.subrange(0, root.len() as int) =~= root);
    assert(path.skip(root.len() as int + 1) =~= id);
}

/// With no filter at all the query has no parameter.
pub proof fn history_without_filters()
    ensures
        history_pairs(None, None, None) == Seq::<(Seq<char>, Seq<char>)>::empty(),
{
    assert(history_pairs(None, None, None) =~= Seq::<(Seq<char>, Seq<char>)>::empty());
}

/// No key occurs twice among the parameters of a query of the history,
/// whichever filters are given.
pub proof fn history_keys_differ(
    from: Option<Seq<char>>,
    till: Option<Seq<char>>,
    limit: Option<u64>,
)
    ensures
        forall|i: int, j: int|
            0 <= i < j < history_pairs(from, till, limit).len() ==> history_pairs(
                from,
                till,
                limit,
            )[i].0 != history_pairs(from, till, limit)[j].0,
{
    reveal_strlit("from");
    reveal_strlit("till");
    reveal_strlit("limit");
    assert("from"@[0] == 'f');
    assert("till"@[0] == 't');
    assert("limit"@[0] == 'l');
}

/// With a limit as the only filter the query has the one parameter `limit`,
/// whose value is the limit in decimal notation.
pub proof fn history_with_limit_only(limit: u64)
    ensures
        history_pairs(None, None, Some(limit)) == seq![("limit"@, decimal_digits(limit as nat))],
{
    assert(history_pairs(None, None, Some(limit)) =~= seq![
        ("limit"@, decimal_digits(limit as nat)),
    ]);
}

/// The three parameters of a transfer have three different keys, and the
/// value of `type` is the name of the direction.
pub proof fn transfer_pairs_shape(
    currency: Seq<char>,
    amount: Seq<char>,
    direction: AccountMoneyTransferDirection,
)
    ensures
        transfer_pairs(currency, amount, direction).len() == 3,
        transfer_pairs(currency, amount, direction)[0].0 != transfer_pairs(
            currency,
            amount,
            direction,
        )[1].0,
        transfer_pairs(currency, amount, direction)[0].0 != transfer_pairs(
            currency,
            amount,
            direction,
        )[2].0,
        transfer_pairs(currency, amount, direction)[1].0 != transfer_pairs(
            currency,
            amount,
            direction,
        )[2].0,
        transfer_pairs(currency, amount, direction)[2] == ("type"@, direction.wire_name()),
{
    reveal_strlit("currency");
    reveal_strlit("amount");
    reveal_strlit("type");
    assert("currency"@.len() == 8);
    assert("amount"@.len() == 6);
    assert("type"@.len() == 4);
}

} // verus!
