//! The requests that read from the account, and the replies that this crate
//! knows how to read.

use vstd::prelude::*;
use vstd::string::*;
use crate::deposit::{deposits_from_json, deposits_view, spec_decode_deposits, ComdirectDeposit, DepositView};
use crate::error::Error;
use crate::http::{fields_view, push_field, spec_status_error, Field, HttpMethod, HttpReply, HttpRequest, HttpRequestView};
use crate::json::{parsed_json, Json};
use crate::lifecycle::ApiClient;
use crate::order::{orders_from_json, spec_decode_order, spec_decode_orders, Order, RawOrder};
use crate::session::{spec_session_request, Session, SessionView};

verus! {

/// The address that all resources of the API lie under.
pub open spec fn spec_api_url() -> Seq<char> {
    "https://api.comdirect.de/api"@
}

/// A request that reads: a GET of `url` with the query `query`, marked and
/// authorized as every request of the session.
pub open spec fn spec_retrieval_request(
    session: SessionView,
    url: Seq<char>,
    query: Seq<(Seq<char>, Seq<char>)>,
    request_id: Seq<char>,
) -> HttpRequestView {
    HttpRequestView {
        query,
        ..spec_session_request(
            HttpMethod::Get,
            url,
            session.tokens.access_token,
            session.session_id,
            request_id,
        )
    }
}

/// What asking the client for a request that reads amounts to: without a
/// session it is [`Error::NoActiveSession`]; otherwise the request.
pub open spec fn spec_retrieval(
    client: ApiClient,
    url: Seq<char>,
    query: Seq<(Seq<char>, Seq<char>)>,
    request_id: Seq<char>,
    request: Result<HttpRequest, Error>,
) -> bool {
    match client.session {
        Some(session) => request matches Ok(sent) && sent@ == spec_retrieval_request(
            session@,
            url,
            query,
            request_id,
        ),
        None => request matches Err(error) && error == Error::NoActiveSession,
    }
}

/// What a reply that carries a JSON document amounts to: the error of its
/// status, or [`Error::ResponseDecodeFailure`] for a body that is no JSON,
/// or the document.
pub open spec fn spec_json_outcome(reply: HttpReply) -> Result<Json, Error> {
    match spec_status_error(reply) {
        Some(error) => Err(error),
        None => match parsed_json(reply->Answer_0.body@) {
            Some(json) => Ok(json),
            None => Err(Error::ResponseDecodeFailure),
        },
    }
}

/// Reads the JSON document that a reply carries.
pub fn read_json_reply(reply: &HttpReply) -> (outcome: Result<Json, Error>)
    ensures
        outcome == spec_json_outcome(*reply),
{
    match reply.check_status() {
        Ok(response) => response.json(),
        Err(error) => Err(error),
    }
}

/// Reads the deposits that a reply lists. A document that is no list of
/// deposits is refused as [`Error::UnexpectedResponseShape`].
pub fn read_deposits_reply(reply: &HttpReply) -> (outcome: Result<Vec<ComdirectDeposit>, Error>)
    ensures
        match outcome {
            Ok(deposits) => spec_json_outcome(*reply) matches Ok(json) && spec_decode_deposits(
                json,
            ) == Some(deposits_view(deposits@)),
            Err(error) => match spec_json_outcome(*reply) {
                Ok(json) => error == Error::UnexpectedResponseShape && spec_decode_deposits(json)
                    is None,
                Err(failure) => error == failure,
            },
        },
{
    match read_json_reply(reply) {
        Ok(json) => deposits_from_json(&json),
        Err(error) => Err(error),
    }
}

/// Reads the orders that a reply lists, and puts each into the deposit
/// `deposit`. A document that is no list of orders is refused as
/// [`Error::UnexpectedResponseShape`].
pub fn read_orders_reply(reply: &HttpReply, deposit: &ComdirectDeposit) -> (outcome: Result<
    Vec<Order>,
    Error,
>)
    ensures
        match outcome {
            Ok(orders) => {
                &&& spec_json_outcome(*reply) matches Ok(json)
                &&& spec_decode_orders(json) matches Some(raw)
                &&& raw.len() == orders@.len()
                &&& forall|i: int|
                    0 <= i < orders@.len() ==> (#[trigger] orders@[i]).raw == raw[i] && orders@[i].deposit
                        == *deposit
            },
            Err(error) => match spec_json_outcome(*reply) {
                Ok(json) => error == Error::UnexpectedResponseShape && spec_decode_orders(json)
                    is None,
                Err(failure) => error == failure,
            },
        },
{
    match read_json_reply(reply) {
        Ok(json) => orders_from_json(&json, deposit),
        Err(error) => Err(error),
    }
}

/// Reads the order that a reply describes, and puts it into the deposit
/// `deposit`. A document that is no order is refused as
/// [`Error::UnexpectedResponseShape`].
pub fn read_order_reply(reply: &HttpReply, deposit: ComdirectDeposit) -> (outcome: Result<
    Order,
    Error,
>)
    ensures
        match outcome {
            Ok(order) => spec_json_outcome(*reply) matches Ok(json) && spec_decode_order(json)
                == Some(order.raw) && order.deposit == deposit,
            Err(error) => match spec_json_outcome(*reply) {
                Ok(json) => error == Error::UnexpectedResponseShape && spec_decode_order(json)
                    is None,
                Err(failure) => error == failure,
            },
        },
{
    match read_json_reply(reply) {
        Ok(json) => match RawOrder::from_json(&json) {
            Some(raw) => Ok(Order::from_raw(raw, deposit)),
            None => Err(Error::UnexpectedResponseShape),
        },
        Err(error) => Err(error),
    }
}

/// A list of fields followed by another.
pub fn join_fields(first: Vec<Field>, second: Vec<Field>) -> (joined: Vec<Field>)
    ensures
        fields_view(joined@) == fields_view(first@) + fields_view(second@),
{
    let mut joined = first;
    let mut rest = second;
    joined.append(&mut rest);
    assert(fields_view(joined@) =~= fields_view(first@) + fields_view(second@));
    joined
}

fn one_field(name: &str, value: &str) -> (fields: Vec<Field>)
    ensures
        fields_view(fields@) == seq![(name@, value@)],
{
    let mut fields: Vec<Field> = Vec::new();
    push_field(&mut fields, name, String::from_str(value));
    assert(fields_view(fields@) =~= seq![(name@, value@)]);
    fields
}

impl Session {
    /// Builds a request that reads within this session.
    pub fn retrieval(&self, url: String, query: Vec<Field>, request_id: &str) -> (request:
        HttpRequest)
        ensures
            request@ == spec_retrieval_request(self@, url@, fields_view(query@), request_id@),
    {
        let plain = self.request(HttpMethod::Get, url, request_id);
        HttpRequest {
            method: plain.method,
            url: plain.url,
            query,
            bearer: plain.bearer,
            headers: plain.headers,
            body: plain.body,
        }
    }
}

impl ApiClient {
    /// Builds a request that reads, within the session of the client.
    pub fn retrieve(&self, url: String, query: Vec<Field>, request_id: &str) -> (request: Result<
        HttpRequest,
        Error,
    >)
        ensures
            spec_retrieval(*self, url@, fields_view(query@), request_id@, request),
    {
        match &self.session {
            Some(session) => Ok(session.retrieval(url, query, request_id)),
            None => Err(Error::NoActiveSession),
        }
    }

    /// The request for the deposits of the user.
    pub fn get_deposits(&self, request_id: &str) -> (request: Result<HttpRequest, Error>)
        ensures
            spec_retrieval(
                *self,
                spec_api_url() + "/brokerage/clients/user/v3/depots"@,
                seq![],
                request_id@,
                request,
            ),
    {
        let url = String::from_str("https://api.comdirect.de/api").concat(
            "/brokerage/clients/user/v3/depots",
        );
        let query: Vec<Field> = Vec::new();
        assert(fields_view(query@) =~= seq![]);
        self.retrieve(url, query, request_id)
    }

    /// The request for the positions in a deposit. The answer leaves the
    /// deposit out.
    pub fn get_positions(&self, deposit: &ComdirectDeposit, request_id: &str) -> (request: Result<
        HttpRequest,
        Error,
    >)
        ensures
            spec_retrieval(
                *self,
                spec_api_url() + "/brokerage/v3/depots"@ + "/"@ + deposit.id@ + "/positions"@,
                seq![("without-attr"@, "depot"@)],
                request_id@,
                request,
            ),
    {
        let url = String::from_str("https://api.comdirect.de/api").concat("/brokerage/v3/depots")
            .concat("/").concat(deposit.id.as_str()).concat("/positions");
        self.retrieve(url, one_field("without-attr", "depot"), request_id)
    }

    /// The request for one position in a deposit. The answer leaves the
    /// deposit out.
    pub fn get_position(&self, deposit: &ComdirectDeposit, position_id: &str, request_id: &str) -> (request:
        Result<HttpRequest, Error>)
        ensures
            spec_retrieval(
                *self,
                spec_api_url() + "/brokerage/v3/depots"@ + "/"@ + deposit.id@ + "/positions/"@
                    + position_id@,
                seq![("without-attr"@, "depot"@)],
                request_id@,
                request,
            ),
    {
        let url = String::from_str("https://api.comdirect.de/api").concat("/brokerage/v3/depots")
            .concat("/").concat(deposit.id.as_str()).concat("/positions/").concat(position_id);
        self.retrieve(url, one_field("without-attr", "depot"), request_id)
    }

    /// The request that reads one position anew. It is the request for that
    /// position.
    pub fn update_position(
        &self,
        deposit: &ComdirectDeposit,
        position_id: &str,
        request_id: &str,
    ) -> (request: Result<HttpRequest, Error>)
        ensures
            spec_retrieval(
                *self,
                spec_api_url() + "/brokerage/v3/depots"@ + "/"@ + deposit.id@ + "/positions/"@
                    + position_id@,
                seq![("without-attr"@, "depot"@)],
                request_id@,
                request,
            ),
    {
        self.get_position(deposit, position_id, request_id)
    }

    /// The request for the transactions of a deposit. The answer leaves the
    /// instruments out.
    pub fn get_deposit_transactions(&self, deposit: &ComdirectDeposit, request_id: &str) -> (request:
        Result<HttpRequest, Error>)
        ensures
            spec_retrieval(
                *self,
                spec_api_url() + "/brokerage/v3/depots"@ + "/"@ + deposit.id@ + "/transactions"@,
                seq![("without-attr"@, "instrument"@)],
                request_id@,
                request,
            ),
    {
        let none: Vec<Field> = Vec::new();
        assert(fields_view(none@) =~= seq![]);
        assert(seq![("without-attr"@, "instrument"@)] + Seq::<(Seq<char>, Seq<char>)>::empty()
            =~= seq![("without-attr"@, "instrument"@)]);
        self.get_deposit_transactions_filtered(deposit, none, request_id)
    }

    /// The request for those transactions of a deposit that pass the filters
    /// in `filter_parameters`. The answer leaves the instruments out.
    pub fn get_deposit_transactions_filtered(
        &self,
        deposit: &ComdirectDeposit,
        filter_parameters: Vec<Field>,
        request_id: &str,
    ) -> (request: Result<HttpRequest, Error>)
        ensures
            spec_retrieval(
                *self,
                spec_api_url() + "/brokerage/v3/depots"@ + "/"@ + deposit.id@ + "/transactions"@,
                seq![("without-attr"@, "instrument"@)] + fields_view(filter_parameters@),
                request_id@,
                request,
            ),
    {
        let url = String::from_str("https://api.comdirect.de/api").concat("/brokerage/v3/depots")
            .concat("/").concat(deposit.id.as_str()).concat("/transactions");
        let query = join_fields(one_field("without-attr", "instrument"), filter_parameters);
        self.retrieve(url, query, request_id)
    }

    /// The request for an instrument, by its WKN, ISIN or symbol, with what
    /// the API knows of it as a derivative and as a fund.
    pub fn get_instrument(&self, derivative: &str, request_id: &str) -> (request: Result<
        HttpRequest,
        Error,
    >)
        ensures
            spec_retrieval(
                *self,
                spec_api_url() + "/brokerage/v1/instruments/"@ + "/"@ + derivative@,
                seq![("with-attr"@, "derivativeData"@), ("with-attr"@, "fundDistribution"@)],
                request_id@,
                request,
            ),
    {
        let url = String::from_str("https://api.comdirect.de/api").concat(
            "/brokerage/v1/instruments/",
        ).concat("/").concat(derivative);
        let query = join_fields(
            one_field("with-attr", "derivativeData"),
            one_field("with-attr", "fundDistribution"),
        );
        assert(fields_view(query@) =~= seq![
            ("with-attr"@, "derivativeData"@),
            ("with-attr"@, "fundDistribution"@),
        ]);
        self.retrieve(url, query, request_id)
    }

    /// The request for the market places and what can be ordered at them.
    pub fn get_marketplaces(&self, request_id: &str) -> (request: Result<HttpRequest, Error>)
        ensures
            spec_retrieval(
                *self,
                spec_api_url() + "/brokerage/v3/orders/dimensions"@,
                seq![],
                request_id@,
                request,
            ),
    {
        let none: Vec<Field> = Vec::new();
        assert(fields_view(none@) =~= seq![]);
        self.get_marketplaces_filtered(none, request_id)
    }

    /// The request for those market places that pass the filters in
    /// `filter_parameters`.
    pub fn get_marketplaces_filtered(&self, filter_parameters: Vec<Field>, request_id: &str) -> (request:
        Result<HttpRequest, Error>)
        ensures
            spec_retrieval(
                *self,
                spec_api_url() + "/brokerage/v3/orders/dimensions"@,
                fields_view(filter_parameters@),
                request_id@,
                request,
            ),
    {
        let url = String::from_str("https://api.comdirect.de/api").concat(
            "/brokerage/v3/orders/dimensions",
        );
        self.retrieve(url, filter_parameters, request_id)
    }

    /// The request for the orders of a deposit.
    pub fn get_orders(&self, deposit: &ComdirectDeposit, request_id: &str) -> (request: Result<
        HttpRequest,
        Error,
    >)
        ensures
            spec_retrieval(
                *self,
                spec_api_url() + "/brokerage/depots"@ + "/"@ + deposit.id@ + "/v3/orders"@,
                seq![],
                request_id@,
                request,
            ),
    {
        let none: Vec<Field> = Vec::new();
        assert(fields_view(none@) =~= seq![]);
        self.get_orders_filtered(deposit, none, request_id)
    }

    /// The request for those orders of a deposit that pass the filters in
    /// `filter_parameters`.
    pub fn get_orders_filtered(
        &self,
        deposit: &ComdirectDeposit,
        filter_parameters: Vec<Field>,
        request_id: &str,
    ) -> (request: Result<HttpRequest, Error>)
        ensures
            spec_retrieval(
                *self,
                spec_api_url() + "/brokerage/depots"@ + "/"@ + deposit.id@ + "/v3/orders"@,
                fields_view(filter_parameters@),
                request_id@,
                request,
            ),
    {
        let url = String::from_str("https://api.comdirect.de/api").concat("/brokerage/depots")
            .concat("/").concat(deposit.id.as_str()).concat("/v3/orders");
        self.retrieve(url, filter_parameters, request_id)
    }

    /// The request for one order.
    pub fn get_order(&self, order_id: &str, request_id: &str) -> (request: Result<
        HttpRequest,
        Error,
    >)
        ensures
            spec_retrieval(
                *self,
                spec_api_url() + "/brokerage/v3/orders"@ + "/"@ + order_id@,
                seq![],
                request_id@,
                request,
            ),
    {
        let url = String::from_str("https://api.comdirect.de/api").concat("/brokerage/v3/orders")
            .concat("/").concat(order_id);
        let query: Vec<Field> = Vec::new();
        assert(fields_view(query@) =~= seq![]);
        self.retrieve(url, query, request_id)
    }
}

} // verus!
