//! The client in its two states, anonymous and authenticated, and the
//! request that each call of the API comes to.

use vstd::prelude::*;
use crate::amount::Decimal;
use crate::auth::{basic_authorization, basic_credentials};
use crate::endpoint::{
    currencies_path, deposit_address_path, history_pairs, history_query,
    make_deposit_address_path, make_transactions_path, transactions_path, transfer_pairs,
    transfer_path, transfer_query,
};
use crate::error::ErrorKind;
use crate::models::AccountMoneyTransferDirection;
use crate::query::Query;
use crate::request::{outcome, prepare, prepared, Method, Request, RequestView};
use crate::time::Timestamp;

verus! {

/// The anonymous client. It holds the transport that its requests are meant
/// for, and nothing else.
#[derive(Clone, Debug)]
pub struct Client<T> {
    http_client: T,
}

/// The authenticated client: an anonymous client and the one pair of
/// credentials that signs every request it makes of its own.
#[derive(Clone, Debug)]
pub struct AuthenticatedClient<T> {
    public: Client<T>,
    api_key: String,
    api_secret: String,
}

/// The text of an instant that may be absent: nothing to send where there is
/// no instant, and no answer at all where there is one that has no text.
pub open spec fn optional_text(instant: Option<Timestamp>) -> Option<Option<Seq<char>>> {
    match instant {
        Some(instant) => match instant.text() {
            Some(text) => Some(Some(text)),
            None => None,
        },
        None => Some(None),
    }
}

/// What a query of the history comes to: a serialization error where `from`
/// or `till` has no text or the parameters cannot be encoded, and else a
/// `GET` of the history's path with the filters that are given.
pub open spec fn history_request(
    authorization: Option<Seq<u8>>,
    transaction_id: Option<Seq<char>>,
    from: Option<Timestamp>,
    till: Option<Timestamp>,
    limit: Option<u64>,
) -> Result<RequestView, ErrorKind> {
    match (optional_text(from), optional_text(till)) {
        (Some(from), Some(till)) => prepared(
            authorization,
            Method::Get,
            transactions_path(transaction_id),
            history_pairs(from, till, limit),
        ),
        _ => Err(ErrorKind::Serialization),
    }
}

fn optional_rfc3339(instant: Option<Timestamp>) -> (text: Result<Option<String>, ErrorKind>)
    ensures
        match text {
            Ok(text) => optional_text(instant) == Some(text.deep_view()),
            Err(kind) => kind == ErrorKind::Serialization && optional_text(instant) is None,
        },
{
    match instant {
        Some(instant) => match instant.to_rfc3339() {
            Some(text) => Ok(Some(text)),
            None => Err(ErrorKind::Serialization),
        },
        None => Ok(None),
    }
}

impl<T> Client<T> {
    /// The transport that the client holds.
    pub closed spec fn transport(self) -> T {
        self.http_client
    }

    /// This client with the credentials `api_key` and `api_secret`.
    pub closed spec fn logged_in(self, api_key: String, api_secret: String) -> AuthenticatedClient<
        T,
    > {
        AuthenticatedClient { public: self, api_key, api_secret }
    }

    /// A client for the transport `http_client`. Nothing is sent.
    pub fn new(http_client: T) -> (client: Self)
        ensures
            client.transport() == http_client,
    {
        Client { http_client }
    }

    /// The transport that the client's requests are meant for.
    pub fn http_client(&self) -> (http_client: &T)
        ensures
            *http_client == self.transport(),
    {
        &self.http_client
    }

    fn request(&self, method: Method, path: &str, query: &Query) -> (result: Result<
        Request,
        ErrorKind,
    >)
        ensures
            outcome(result) == prepared(None, method, path@, query@),
            query@.len() == 0 ==> result is Ok && result->Ok_0@.query == Seq::<char>::empty(),
    {
        prepare(None, method, path, query)
    }

    /// The request for the list of currencies: an unsigned `GET` without
    /// parameters.
    pub fn get_currencies(&self) -> (result: Result<Request, ErrorKind>)
        ensures
            result matches Ok(request) && request@ == (RequestView {
                method: Method::Get,
                path: currencies_path(),
                query: Seq::empty(),
                authorization: None,
            }),
    {
        let query = Query::new();
        self.request(Method::Get, "/api/v2/public/currency", &query)
    }

    /// Turns the client into an authenticated one. The credentials are taken
    /// as they are: nothing is sent and nothing is checked.
    pub fn login(self, api_key: String, api_secret: String) -> (authenticated: AuthenticatedClient<
        T,
    >)
        ensures
            authenticated == self.logged_in(api_key, api_secret),
            authenticated.public_client() == self,
            authenticated.key() == api_key@,
            authenticated.secret() == api_secret@,
    {
        AuthenticatedClient { public: self, api_key, api_secret }
    }
}

impl<T> AuthenticatedClient<T> {
    /// The anonymous client inside this one.
    pub closed spec fn public_client(self) -> Client<T> {
        self.public
    }

    /// The API key.
    pub closed spec fn key(self) -> Seq<char> {
        self.api_key@
    }

    /// The API secret.
    pub closed spec fn secret(self) -> Seq<char> {
        self.api_secret@
    }

    /// The value of the `Authorization` header on every signed request of
    /// this client.
    pub open spec fn signature(self) -> Seq<u8> {
        basic_credentials(self.key(), self.secret())
    }

    /// The anonymous client inside this one, for the calls that need no
    /// credentials.
    pub fn as_public(&self) -> (client: &Client<T>)
        ensures
            *client == self.public_client(),
    {
        &self.public
    }

    /// Gives up the credentials and hands back the anonymous client.
    pub fn logout(self) -> (client: Client<T>)
        ensures
            client == self.public_client(),
    {
        self.public
    }

    fn request(&self, method: Method, path: &str, query: &Query) -> (result: Result<
        Request,
        ErrorKind,
    >)
        ensures
            outcome(result) == prepared(Some(self.signature()), method, path@, query@),
            query@.len() == 0 ==> result is Ok && result->Ok_0@.query == Seq::<char>::empty(),
    {
        let authorization = basic_authorization(self.api_key.as_str(), self.api_secret.as_str());
        prepare(Some(authorization), method, path, query)
    }

    /// The request for the list of currencies. It is the anonymous client's
    /// and carries no credentials.
    pub fn get_currencies(&self) -> (result: Result<Request, ErrorKind>)
        ensures
            result matches Ok(request) && request@ == (RequestView {
                method: Method::Get,
                path: currencies_path(),
                query: Seq::empty(),
                authorization: None,
            }),
    {
        self.public.get_currencies()
    }

    /// The request for the deposit address of `currency`: a signed `POST`
    /// without parameters, the currency being part of the path.
    pub fn get_deposit_address(&self, currency: String) -> (result: Result<Request, ErrorKind>)
        ensures
            result matches Ok(request) && request@ == (RequestView {
                method: Method::Post,
                path: deposit_address_path(currency@),
                query: Seq::empty(),
                authorization: Some(self.signature()),
            }),
    {
        let path = make_deposit_address_path(currency.as_str());
        let query = Query::new();
        let result = self.request(Method::Post, path.as_str(), &query);
        proof {
            let view = prepared(
                Some(self.signature()),
                Method::Post,
                path@,
                Seq::<(Seq<char>, Seq<char>)>::empty(),
            );
            assert(outcome(result) == view);
        }
        result
    }

    /// The request for the account's history, or for the one transaction
    /// `transaction_id` in it: a signed `GET`. Each of `from`, `till` and
    /// `limit` is sent only if it is given; with none of them the query is
    /// empty and the call succeeds.
    pub fn get_transactions_history(
        &self,
        transaction_id: Option<String>,
        from: Option<Timestamp>,
        till: Option<Timestamp>,
        limit: Option<u64>,
    ) -> (result: Result<Request, ErrorKind>)
        ensures
            outcome(result) == history_request(
                Some(self.signature()),
                transaction_id.deep_view(),
                from,
                till,
                limit,
            ),
            result matches Ok(request) ==> request@.path == transactions_path(
                transaction_id.deep_view(),
            ) && request@.authorization == Some(self.signature()),
            from is None && till is None && limit is None ==> result is Ok && result->Ok_0@.query
                == Seq::<char>::empty(),
    {
        let path = make_transactions_path(transaction_id);
        let from_text = match optional_rfc3339(from) {
            Ok(text) => text,
            Err(kind) => {
                return Err(kind);
            },
        };
        let till_text = match optional_rfc3339(till) {
            Ok(text) => text,
            Err(kind) => {
                return Err(kind);
            },
        };
        let query = history_query(from_text, till_text, limit);
        proof {
            if from is None && till is None && limit is None {
                crate::endpoint::history_without_filters();
            }
        }
        self.request(Method::Get, path.as_str(), &query)
    }

    /// The request that moves `amount` of `currency` between the bank
    /// account and the trading account: a signed `POST` with the parameters
    /// `currency`, `amount` and `type`.
    pub fn transfer_account_money(
        &self,
        currency: String,
        amount: Decimal,
        direction: AccountMoneyTransferDirection,
    ) -> (result: Result<Request, ErrorKind>)
        ensures
            outcome(result) == prepared(
                Some(self.signature()),
                Method::Post,
                transfer_path(),
                transfer_pairs(currency@, amount.text(), direction),
            ),
            result matches Ok(request) ==> request@.authorization == Some(self.signature()),
    {
        let amount_text = amount.to_text();
        let query = transfer_query(currency, amount_text, direction);
        self.request(Method::Post, "/api/v2/account/transfer", &query)
    }
}

/// Logging in and out again gives back the client that logged in, with the
/// transport it had: of the credentials nothing is left. The authenticated
/// client in between holds that client and exactly the pair it was given.
pub proof fn login_then_logout<T>(client: Client<T>, api_key: String, api_secret: String)
    ensures
        client.logged_in(api_key, api_secret).public_client() == client,
        client.logged_in(api_key, api_secret).public_client().transport() == client.transport(),
        client.logged_in(api_key, api_secret).key() == api_key@,
        client.logged_in(api_key, api_secret).secret() == api_secret@,
{
}

/// An authenticated client that logs out and in again with the pair it had
/// signs its requests as before.
pub proof fn logout_then_login<T>(
    authenticated: AuthenticatedClient<T>,
    api_key: String,
    api_secret: String,
)
    requires
        api_key@ == authenticated.key(),
        api_secret@ == authenticated.secret(),
    ensures
        authenticated.public_client().logged_in(api_key, api_secret).signature()
            == authenticated.signature(),
        authenticated.public_client().logged_in(api_key, api_secret).public_client()
            == authenticated.public_client(),
{
}

} // verus!
