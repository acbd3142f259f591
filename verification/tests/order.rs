use comdirect_api::authorize::{Inspection, MutationIntent, TransactionAuthorizer};
use comdirect_api::deposit::ComdirectDeposit;
use comdirect_api::error::Error;
use comdirect_api::http::HttpResponse;
use comdirect_api::json::Json;
use comdirect_api::lifecycle::ApiClient;
use comdirect_api::order::{
    amount_text, change_order_outcome, change_single_order, delete_order_outcome, member_text,
    orders_from_json, place_order_outcome, Amount, ComdirectOrderValidityType, Order,
    OrderChange, OrderStatus, OrderValidity, RawCombinationOrder, RawOrder, RawSingleOrder,
    SubOrder,
};
use comdirect_api::session::{Session, SessionId, TokenPair};

fn parse(text: &str) -> Option<Json> {
    HttpResponse { status: 200, headers: vec![], body: text.to_string() }.json().ok()
}

fn deposit() -> ComdirectDeposit {
    ComdirectDeposit::new("DEPOT-1".to_string(), "1234567".to_string())
}

fn amount(value: &str, unit: &str) -> Amount {
    Amount::new(value.to_string(), unit.to_string())
}

fn single(id: &str) -> RawSingleOrder {
    RawSingleOrder {
        id: id.to_string(),
        status: OrderStatus::Open,
        limit: Some(amount("10", "EUR")),
        trigger_limit: None,
        absolute_trailing_limit: Some(amount("1", "EUR")),
        relative_trailing_limit: None,
        validity: OrderValidity::OneDay,
    }
}

fn single_order() -> Order {
    Order::from_raw(RawOrder::SingleOrder(single("S-1")), deposit())
}

fn combination_order() -> Order {
    Order::from_raw(
        RawOrder::CombinationOrder(RawCombinationOrder {
            id: "C-1".to_string(),
            sub_orders: (single("C-1a"), single("C-1b")),
        }),
        deposit(),
    )
}

fn client_with_session() -> ApiClient {
    let mut client = ApiClient::new(
        "CLIENT".to_string(),
        "SECRET".to_string(),
        "USER".to_string(),
        "PASS".to_string(),
    );
    client.session = Some(Session {
        session_id: SessionId::new("0123456789abcdef0123456789abcdef".to_string()).unwrap(),
        session_uuid: "UUID-1".to_string(),
        tokens: TokenPair {
            access_token: "AT1".to_string(),
            refresh_token: "RT1".to_string(),
            expires_at: 1_000,
        },
    });
    client
}

fn ok_response(body: &str) -> Result<HttpResponse, Error> {
    Ok(HttpResponse { status: 200, headers: vec![], body: body.to_string() })
}

#[test]
fn validity_kinds_have_their_wire_names() {
    assert_eq!(ComdirectOrderValidityType::GoodForDay.as_str(), "GFD");
    assert_eq!(ComdirectOrderValidityType::GoodTillDate.as_str(), "GTD");
    assert_eq!(OrderValidity::OneDay.kind(), ComdirectOrderValidityType::GoodForDay);
    assert_eq!(
        OrderValidity::TillDate("2030-01-31".to_string()).kind(),
        ComdirectOrderValidityType::GoodTillDate
    );
}

#[test]
fn order_status_is_read_from_all_its_names() {
    let names = [
        ("OPEN", OrderStatus::Open),
        ("EXECUTED", OrderStatus::Executed),
        ("SETTLED", OrderStatus::Executed),
        ("PARTIALLY_EXECUTED", OrderStatus::PartiallyExecuted),
        ("CANCELED", OrderStatus::Canceled),
        ("CANCELLED_SYSTEM", OrderStatus::Canceled),
        ("CANCELLED_TRADE", OrderStatus::Canceled),
        ("CANCELLED_USER", OrderStatus::Canceled),
        ("PARTIALLY_CANCELED", OrderStatus::PartiallyCanceled),
        ("EXPIRED", OrderStatus::Expired),
        ("PENDING", OrderStatus::Pending),
        ("WAITING", OrderStatus::Pending),
        ("UNKNOWN", OrderStatus::Unknown),
    ];
    for (name, status) in names {
        assert_eq!(OrderStatus::from_name(name), Some(status));
    }
    for name in ["", "open", "CANCELLED", "DONE"] {
        assert_eq!(OrderStatus::from_name(name), None);
    }
}

#[test]
fn orders_know_their_id_and_status() {
    assert_eq!(single_order().id(), "S-1");
    assert_eq!(combination_order().id(), "C-1");
    assert_eq!(single_order().raw().id(), "S-1");
    assert_eq!(single_order().status0(), OrderStatus::Open);
    let mut raw = combination_order().into_raw();
    if let RawOrder::CombinationOrder(combination) = &mut raw {
        combination.sub_orders.0.status = OrderStatus::Executed;
        combination.sub_orders.1.status = OrderStatus::Canceled;
    }
    assert_eq!(Order::from_raw(raw, deposit()).status0(), OrderStatus::Executed);
    assert_eq!(single_order().deposit(), &deposit());
}

#[test]
fn targets_are_the_order_or_one_of_its_two() {
    let order = single_order();
    assert_eq!(order.raw.target(SubOrder::First).id, "S-1");
    assert_eq!(order.raw.target(SubOrder::Second).id, "S-1");
    let order = combination_order();
    assert_eq!(order.raw.target(SubOrder::First).id, "C-1a");
    assert_eq!(order.raw.target(SubOrder::Second).id, "C-1b");
}

#[test]
fn a_fresh_change_changes_nothing() {
    let change = OrderChange::from_order0(single_order());
    assert_eq!(change.get_limit(), &None);
    assert_eq!(change.get_trigger_limit(), &None);
    assert_eq!(change.get_absolute_trailing_limit(), &None);
    assert_eq!(change.get_relative_trailing_limit(), &None);
    assert_eq!(change.get_validity(), &None);
    assert_eq!(change.order_id(), "S-1");
    assert_eq!(change.get_raw_single_order(), &single("S-1"));
    assert_eq!(change.payload(), "{\"orderId\":\"S-1\"}");
    assert_eq!(change.change_order(), single_order());
}

#[test]
fn changes_aim_at_the_chosen_sub_order() {
    assert_eq!(OrderChange::from_order0(combination_order()).order_id(), "C-1a");
    assert_eq!(OrderChange::from_order1(combination_order()).order_id(), "C-1b");
    assert_eq!(OrderChange::from_order1(single_order()).order_id(), "S-1");
}

#[test]
fn builders_set_what_the_change_names() {
    let change = OrderChange::from_order0(single_order())
        .limit(amount("5.0", "EUR"))
        .trigger_limit(amount("4.5", "EUR"))
        .absolute_trailing_limit(amount("0.5", "EUR"))
        .relative_trailing_limit("1.5".to_string())
        .validity(OrderValidity::TillDate("2030-01-31".to_string()));
    assert_eq!(change.get_limit(), &Some(amount("5.0", "EUR")));
    assert_eq!(change.get_trigger_limit(), &Some(amount("4.5", "EUR")));
    assert_eq!(change.get_absolute_trailing_limit(), &Some(amount("0.5", "EUR")));
    assert_eq!(change.get_relative_trailing_limit(), &Some("1.5".to_string()));
    assert_eq!(change.get_validity(), &Some(OrderValidity::TillDate("2030-01-31".to_string())));
    assert_eq!(change.order, single_order());
}

#[test]
fn payload_lists_what_the_change_sets() {
    let change = OrderChange::from_order0(single_order())
        .limit(amount("5.0", "EUR"))
        .trigger_limit(amount("4.5", "EUR"))
        .absolute_trailing_limit(amount("0.5", "EUR"))
        .relative_trailing_limit("1.5".to_string())
        .validity(OrderValidity::TillDate("2030-01-31".to_string()));
    assert_eq!(
        change.payload(),
        "{\"orderId\":\"S-1\",\"limit\":{\"value\":\"5.0\",\"unit\":\"EUR\"},\"triggerLimit\":{\"value\":\"4.5\",\"unit\":\"EUR\"},\"absoluteTrailingLimit\":{\"value\":\"0.5\",\"unit\":\"EUR\"},\"relativeTrailingLimit\":\"1.5\",\"validityType\":\"GTD\",\"validity\":\"2030-01-31\"}"
    );
    let change = OrderChange::from_order1(combination_order())
        .limit(amount("7", "USD"))
        .validity(OrderValidity::OneDay);
    assert_eq!(
        change.payload(),
        "{\"orderId\":\"C-1b\",\"limit\":{\"value\":\"7\",\"unit\":\"USD\"},\"validityType\":\"GFD\"}"
    );
}

#[test]
fn payload_is_json_even_with_odd_texts() {
    let mut order = single_order();
    if let RawOrder::SingleOrder(raw) = &mut order.raw {
        raw.id = "a\"b".to_string();
    }
    let change = OrderChange::from_order0(order).relative_trailing_limit("1\\5".to_string());
    let parsed = parse(&change.payload()).unwrap();
    assert_eq!(parsed.member("orderId").unwrap().as_text().unwrap(), "a\"b");
    assert_eq!(parsed.member("relativeTrailingLimit").unwrap().as_text().unwrap(), "1\\5");
}

#[test]
fn json_pieces_are_put_together() {
    assert_eq!(member_text("limit", "{}"), ",\"limit\":{}");
    assert_eq!(amount_text("\"1\"", "\"EUR\""), "{\"value\":\"1\",\"unit\":\"EUR\"}");
    assert_eq!(amount("12.50", "EUR").to_json_text(), "{\"value\":\"12.50\",\"unit\":\"EUR\"}");
}

#[test]
fn change_intent_aims_at_the_single_order() {
    let change = OrderChange::from_order0(combination_order()).limit(amount("5", "EUR"));
    assert_eq!(
        change.intent(),
        MutationIntent::Change { order_id: "C-1a".to_string(), payload: change.payload() }
    );
    assert_eq!(
        single_order().deletion(),
        MutationIntent::Delete { order_id: "S-1".to_string() }
    );
}

#[test]
fn a_change_sets_only_what_it_names() {
    let change = OrderChange::from_order0(single_order())
        .trigger_limit(amount("9", "EUR"))
        .validity(OrderValidity::TillDate("2031-12-24".to_string()));
    let changed = change.change_order();
    let mut expected = single("S-1");
    expected.trigger_limit = Some(amount("9", "EUR"));
    expected.validity = OrderValidity::TillDate("2031-12-24".to_string());
    assert_eq!(changed, Order::from_raw(RawOrder::SingleOrder(expected), deposit()));
}

#[test]
fn a_change_overwrites_a_limit_that_was_set() {
    let changed = OrderChange::from_order0(single_order())
        .limit(amount("11", "EUR"))
        .absolute_trailing_limit(amount("2", "EUR"))
        .relative_trailing_limit("3".to_string())
        .change_order();
    let mut expected = single("S-1");
    expected.limit = Some(amount("11", "EUR"));
    expected.absolute_trailing_limit = Some(amount("2", "EUR"));
    expected.relative_trailing_limit = Some("3".to_string());
    assert_eq!(changed, Order::from_raw(RawOrder::SingleOrder(expected), deposit()));
}

#[test]
fn a_change_of_the_second_sub_order_leaves_the_first() {
    let changed = OrderChange::from_order1(combination_order())
        .limit(amount("11", "EUR"))
        .change_order();
    let mut second = single("C-1b");
    second.limit = Some(amount("11", "EUR"));
    assert_eq!(
        changed.raw,
        RawOrder::CombinationOrder(RawCombinationOrder {
            id: "C-1".to_string(),
            sub_orders: (single("C-1a"), second),
        })
    );
    let changed = OrderChange::from_order0(combination_order())
        .limit(amount("12", "EUR"))
        .change_order();
    let mut first = single("C-1a");
    first.limit = Some(amount("12", "EUR"));
    assert_eq!(
        changed.raw,
        RawOrder::CombinationOrder(RawCombinationOrder {
            id: "C-1".to_string(),
            sub_orders: (first, single("C-1b")),
        })
    );
}

#[test]
fn single_orders_are_changed_field_by_field() {
    let changed = change_single_order(single("X"), None, None, None, None, None);
    assert_eq!(changed, single("X"));
    let changed = change_single_order(
        single("X"),
        Some(amount("1", "A")),
        Some(amount("2", "B")),
        Some(amount("3", "C")),
        Some("4".to_string()),
        Some(OrderValidity::TillDate("D".to_string())),
    );
    assert_eq!(
        changed,
        RawSingleOrder {
            id: "X".to_string(),
            status: OrderStatus::Open,
            limit: Some(amount("1", "A")),
            trigger_limit: Some(amount("2", "B")),
            absolute_trailing_limit: Some(amount("3", "C")),
            relative_trailing_limit: Some("4".to_string()),
            validity: OrderValidity::TillDate("D".to_string()),
        }
    );
}

#[test]
fn an_abandoned_change_gives_the_order_back() {
    let change = OrderChange::from_order0(single_order()).limit(amount("5", "EUR"));
    assert_eq!(change.into_order(), single_order());
}

#[test]
fn a_committed_change_is_made_on_the_order() {
    let change = OrderChange::from_order0(single_order()).limit(amount("5", "EUR"));
    let changed = change_order_outcome(change, ok_response("")).unwrap();
    let mut expected = single("S-1");
    expected.limit = Some(amount("5", "EUR"));
    assert_eq!(changed, Order::from_raw(RawOrder::SingleOrder(expected), deposit()));
}

#[test]
fn a_failed_change_leaves_the_order_as_it_was() {
    let change = OrderChange::from_order0(single_order()).limit(amount("5", "EUR"));
    assert_eq!(
        change_order_outcome(change, Err(Error::ServerError)),
        Err((Error::ServerError, single_order()))
    );
}

#[test]
fn a_deletion_gives_the_order_back_only_on_failure() {
    assert_eq!(delete_order_outcome(single_order(), ok_response("")), Ok(()));
    assert_eq!(
        delete_order_outcome(combination_order(), Err(Error::NotFound)),
        Err((Error::NotFound, combination_order()))
    );
}

#[test]
fn amounts_are_read_from_json() {
    let json = parse("{\"value\":\"12.5\",\"unit\":\"EUR\"}").unwrap();
    assert_eq!(Amount::from_json(&json), Some(amount("12.5", "EUR")));
    let json = parse("{\"value\":12.5,\"unit\":\"XXX\"}").unwrap();
    assert_eq!(Amount::from_json(&json), Some(amount("12.5", "XXX")));
    for text in ["{}", "{\"value\":\"1\"}", "{\"unit\":\"EUR\"}", "{\"value\":true,\"unit\":\"EUR\"}", "{\"value\":\"1\",\"unit\":1}", "[]"] {
        assert_eq!(Amount::from_json(&parse(text).unwrap()), None, "{}", text);
    }
}

#[test]
fn single_orders_are_read_from_json() {
    let json = parse(
        "{\"orderId\":\"S-9\",\"orderStatus\":\"WAITING\",\"limit\":{\"value\":\"10\",\"unit\":\"EUR\"},\"triggerLimit\":null,\"trailingLimitDistRel\":2.5,\"validityType\":\"GTD\",\"validity\":\"2030-01-01\",\"side\":\"BUY\"}",
    )
    .unwrap();
    assert_eq!(
        RawSingleOrder::from_json(&json),
        Some(RawSingleOrder {
            id: "S-9".to_string(),
            status: OrderStatus::Pending,
            limit: Some(amount("10", "EUR")),
            trigger_limit: None,
            absolute_trailing_limit: None,
            relative_trailing_limit: Some("2.5".to_string()),
            validity: OrderValidity::OneDay,
        })
    );
}

#[test]
fn single_orders_refuse_malformed_documents() {
    let documents = [
        "{}",
        "[]",
        "{\"orderId\":\"S\"}",
        "{\"orderStatus\":\"OPEN\"}",
        "{\"orderId\":5,\"orderStatus\":\"OPEN\"}",
        "{\"orderId\":\"S\",\"orderStatus\":\"NOPE\"}",
        "{\"orderId\":\"S\",\"orderStatus\":\"OPEN\",\"limit\":5}",
        "{\"orderId\":\"S\",\"orderStatus\":\"OPEN\",\"triggerLimit\":{\"value\":\"1\"}}",
        "{\"orderId\":\"S\",\"orderStatus\":\"OPEN\",\"trailingLimitDistAbs\":\"1\"}",
        "{\"orderId\":\"S\",\"orderStatus\":\"OPEN\",\"trailingLimitDistRel\":true}",
    ];
    for document in documents {
        let json = parse(document).unwrap();
        assert_eq!(RawSingleOrder::from_json(&json), None, "{}", document);
    }
}

#[test]
fn combinations_are_read_before_single_orders() {
    let text = "{\"orderId\":\"C\",\"orderStatus\":\"OPEN\",\"subOrders\":[{\"orderId\":\"a\",\"orderStatus\":\"OPEN\"},{\"orderId\":\"b\",\"orderStatus\":\"EXPIRED\"}]}";
    let json = parse(text).unwrap();
    match RawOrder::from_json(&json) {
        Some(RawOrder::CombinationOrder(combination)) => {
            assert_eq!(combination.id, "C");
            assert_eq!(combination.sub_orders.0.id, "a");
            assert_eq!(combination.sub_orders.1.id, "b");
            assert_eq!(combination.sub_orders.1.status, OrderStatus::Expired);
        },
        other => panic!("expected a combination, got {:?}", other),
    }
    let text = "{\"orderId\":\"C\",\"orderStatus\":\"OPEN\",\"subOrders\":[{\"orderId\":\"a\",\"orderStatus\":\"OPEN\"}]}";
    let json = parse(text).unwrap();
    assert_eq!(RawCombinationOrder::from_json(&json), None);
    match RawOrder::from_json(&json) {
        Some(RawOrder::SingleOrder(single)) => assert_eq!(single.id, "C"),
        other => panic!("expected a single order, got {:?}", other),
    }
    assert_eq!(RawOrder::from_json(&Json::Null), None);
}

#[test]
fn placed_orders_are_read_from_the_answer() {
    let placed =
        place_order_outcome(ok_response("{\"orderId\":\"P\",\"orderStatus\":\"OPEN\"}"), deposit())
            .unwrap();
    assert_eq!(placed.id(), "P");
    assert_eq!(placed.deposit, deposit());
    assert_eq!(
        place_order_outcome(ok_response("{\"orderId\":\"P\"}"), deposit()).err(),
        Some(Error::UnexpectedResponseShape)
    );
    assert_eq!(
        place_order_outcome(ok_response("oops"), deposit()).err(),
        Some(Error::ResponseDecodeFailure)
    );
    assert_eq!(
        place_order_outcome(Err(Error::UnprocessableRequest), deposit()).err(),
        Some(Error::UnprocessableRequest)
    );
}

#[test]
fn order_lists_are_read_into_the_deposit() {
    let json = parse(
        "{\"paging\":{},\"values\":[{\"orderId\":\"1\",\"orderStatus\":\"OPEN\"},{\"orderId\":\"2\",\"orderStatus\":\"SETTLED\"}]}",
    )
    .unwrap();
    let orders = orders_from_json(&json, &deposit()).unwrap();
    assert_eq!(orders.len(), 2);
    assert_eq!(orders[0].id(), "1");
    assert_eq!(orders[1].id(), "2");
    assert_eq!(orders[1].status0(), OrderStatus::Executed);
    assert!(orders.iter().all(|order| order.deposit == deposit()));
    let empty = parse("{\"values\":[]}").unwrap();
    assert_eq!(orders_from_json(&empty, &deposit()), Ok(vec![]));
    for text in ["{}", "[]", "{\"values\":{}}", "{\"values\":[{\"orderId\":\"1\"}]}"] {
        let json = parse(text).unwrap();
        assert_eq!(
            orders_from_json(&json, &deposit()).err(),
            Some(Error::UnexpectedResponseShape),
            "{}",
            text
        );
    }
}

#[test]
fn client_starts_order_actions_within_its_session() {
    let client = client_with_session();
    let session = client.session.clone().unwrap();
    let outline = "{\"depotId\":\"DEPOT-1\"}".to_string();
    let (state, request) = client.place_order(outline.clone(), "r1").unwrap();
    assert_eq!(
        (state, request),
        TransactionAuthorizer::validate(
            &session,
            MutationIntent::Create { payload: outline.clone() },
            "r1"
        )
    );
    let change = OrderChange::from_order0(single_order()).limit(amount("5", "EUR"));
    assert_eq!(
        client.change_order(&change, "r2").unwrap(),
        TransactionAuthorizer::validate(&session, change.intent(), "r2")
    );
    assert_eq!(
        client.delete_order(&single_order(), "r3").unwrap(),
        TransactionAuthorizer::validate(&session, single_order().deletion(), "r3")
    );
    assert_eq!(
        client.pre_validate_order_outline(outline.clone(), "r4"),
        client.inspect(
            &MutationIntent::Create { payload: outline.clone() },
            Inspection::Prevalidation,
            "r4"
        )
    );
    assert_eq!(
        client.pre_validate_order_change(&change, "r5"),
        client.inspect(&change.intent(), Inspection::Prevalidation, "r5")
    );
    assert_eq!(
        client.pre_validate_order_deletion(&single_order(), "r6"),
        client.inspect(&single_order().deletion(), Inspection::Prevalidation, "r6")
    );
    assert_eq!(
        client.order_cost_indication(outline.clone(), "r7"),
        client.inspect(
            &MutationIntent::Create { payload: outline },
            Inspection::CostIndication,
            "r7"
        )
    );
    assert_eq!(
        client.order_change_cost_indication(&change, "r8"),
        client.inspect(&change.intent(), Inspection::CostIndication, "r8")
    );
    assert!(client.pre_validate_order_change(&change, "r5").unwrap().url.ends_with(
        "/brokerage/v3/orders/S-1/prevalidation"
    ));
    assert!(client.order_change_cost_indication(&change, "r8").unwrap().url.ends_with(
        "/brokerage/v3/orders/S-1/costindicationexante"
    ));
}

#[test]
fn order_actions_need_a_session() {
    let client = ApiClient::new(
        "CLIENT".to_string(),
        "SECRET".to_string(),
        "USER".to_string(),
        "PASS".to_string(),
    );
    let change = OrderChange::from_order0(single_order());
    assert_eq!(client.place_order("{}".to_string(), "r").err(), Some(Error::NoActiveSession));
    assert_eq!(client.change_order(&change, "r").err(), Some(Error::NoActiveSession));
    assert_eq!(client.delete_order(&single_order(), "r").err(), Some(Error::NoActiveSession));
    assert_eq!(
        client.pre_validate_order_outline("{}".to_string(), "r").err(),
        Some(Error::NoActiveSession)
    );
    assert_eq!(
        client.order_cost_indication("{}".to_string(), "r").err(),
        Some(Error::NoActiveSession)
    );
}
