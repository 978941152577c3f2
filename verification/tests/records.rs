use cell_payments::account::{MerchantAccount, PUBLISHABLE_KEY};
use cell_payments::attempt::{PaymentAttempt, ATTEMPT_COLUMNS};
use cell_payments::cassandra::{insert_attempt_cql, insert_intent_cql};
use cell_payments::enums::{
    AttemptStatus, AuthenticationType, CaptureMethod, Currency, PaymentMethod,
};
use cell_payments::intent::{PaymentIntent, INTENT_COLUMNS};
use cell_payments::payload::{
    duplicate_documents, get_large_value, DateTime, JsonText, MandateAmountData, MandateDataType,
    MandateDetails, FILLER, LARGE_VALUE,
};
use cell_payments::statement::{
    e_for_opt, enum_parse, for_opt, opt_string, Bind, BindError, Consistency, Encodable,
    Statement,
};

const MAX: DateTime = DateTime {
    year: 9999,
    month: 12,
    day: 31,
    hour: 23,
    minute: 59,
    second: 59,
    nanosecond: 999_999_999,
};

#[test]
fn new_intent_with_client_id_is_the_stock_record() {
    let pi = PaymentIntent::new("cellA", "pay_1".to_owned(), true);
    assert_eq!(pi.payment_id, "pay_1");
    assert_eq!(pi.merchant_id, "kaps");
    assert_eq!(pi.status, "Processing");
    assert_eq!(pi.amount, 1234);
    assert_eq!(pi.currency, Some(Currency::USD));
    assert_eq!(pi.amount_captured, None);
    assert_eq!(pi.customer_id, None);
    assert_eq!(pi.description.as_deref(), Some(FILLER));
    assert_eq!(pi.description.as_deref(), Some("randomeString12412953w23421"));
    assert!(pi.metadata.is_none());
    assert_eq!(pi.created_at, MAX);
    assert_eq!(pi.modified_at, MAX);
    assert_eq!(pi.last_synced, Some(MAX));
    assert_eq!(pi.setup_future_usage.as_deref(), Some("OffSession"));
    assert_eq!(pi.off_session, Some(false));
    assert_eq!(pi.active_attempt_id, "asdasdas");
    assert_eq!(pi.business_country, None);
    assert!(pi.order_details.is_none());
    assert_eq!(pi.connector_metadata.unwrap().text, LARGE_VALUE);
    assert_eq!(pi.feature_metadata.unwrap().text, LARGE_VALUE);
    assert_eq!(pi.attempt_count, i16::MAX);
    assert_eq!(pi.payment_confirm_source, None);
    assert_eq!(pi.updated_by, "asdasds");
    assert_eq!(pi.authorization_count, None);
    assert_eq!(pi.session_expiry, Some(MAX));
    assert_eq!(pi.request_external_three_ds_authentication, Some(false));
    assert!(pi.charges.is_none());
    assert!(pi.frm_metadata.is_none());
}

#[test]
fn new_intent_without_client_id_gets_a_generated_id() {
    let pi = PaymentIntent::new("cellA", "seed".to_owned(), false);
    assert!(pi.payment_id.starts_with("cellA_pai_"));
    assert!(pi.payment_id.ends_with("_seed"));
    assert_eq!(pi.status, "Processing");
    let at = PaymentIntent::new_at("cellA", "seed".to_owned(), false, 1_700_000_000_000);
    assert_eq!(at.payment_id, "cellA_pai_1700000000000_seed");
    let own = PaymentIntent::new_at("cellA", "seed".to_owned(), true, 1_700_000_000_000);
    assert_eq!(own.payment_id, "seed");
}

#[test]
fn new_attempt_is_the_stock_record() {
    let pa = PaymentAttempt::new_at("cellA", "pay_1".to_owned(), "v3".to_owned(), 42);
    assert_eq!(pa.payment_id, "pay_1");
    assert_eq!(pa.merchant_id, "kaps");
    assert_eq!(pa.attempt_id, "cellA_paa_42_v3");
    assert_eq!(pa.status, AttemptStatus::AuthenticationFailed);
    assert_eq!(pa.amount, i64::MAX);
    assert_eq!(pa.currency, Some(Currency::USD));
    assert_eq!(pa.save_to_locker, Some(false));
    assert_eq!(pa.connector.as_deref(), Some(FILLER));
    assert_eq!(pa.offer_amount, Some(i64::MAX));
    assert_eq!(pa.payment_method, Some(PaymentMethod::Card));
    assert_eq!(pa.capture_method, Some(CaptureMethod::Automatic));
    assert_eq!(pa.capture_on, Some(MAX));
    assert!(pa.confirm);
    assert_eq!(pa.authentication_type, Some(AuthenticationType::NoThreeDs));
    assert_eq!(pa.created_at, MAX);
    assert!(pa.browser_info.is_none());
    assert_eq!(pa.connector_metadata.unwrap().text, LARGE_VALUE);
    assert_eq!(pa.payment_experience, None);
    assert_eq!(pa.payment_method_type, None);
    assert_eq!(pa.payment_method_data.unwrap().text, LARGE_VALUE);
    assert!(pa.mandate_details.is_none());
    assert_eq!(pa.multiple_capture_count, None);
    assert_eq!(pa.amount_capturable, i64::MAX);
    assert_eq!(pa.updated_by, "foo");
    assert_eq!(pa.authentication_data.unwrap().text, LARGE_VALUE);
    assert_eq!(pa.net_amount, Some(i64::MAX));
    assert_eq!(pa.external_three_ds_authentication_attempted, None);
    assert!(pa.mandate_data.is_none());
    assert_eq!(pa.client_version.as_deref(), Some(FILLER));
    let live = PaymentAttempt::new("cellA", "pay_1".to_owned(), "v3".to_owned());
    assert!(live.attempt_id.starts_with("cellA_paa_"));
    assert!(live.attempt_id.ends_with("_v3"));
}

#[test]
fn new_account_is_the_stock_record() {
    let account = MerchantAccount::new("m1".to_owned());
    assert_eq!(account.merchant_id, "m1");
    assert_eq!(account.return_url.as_deref(), Some("www.google.co.in"));
    assert!(!account.enable_payment_response_hash);
    assert_eq!(account.payment_response_hash_key.as_deref(), Some("hash"));
    assert!(account.redirect_to_merchant_with_http_post);
    assert_eq!(account.merchant_name.as_deref(), Some("kaps"));
    assert_eq!(account.merchant_details, None);
    assert_eq!(account.webhook_details.as_deref(), Some("callback_url"));
    assert_eq!(account.publishable_key.as_deref(), Some(PUBLISHABLE_KEY));
    assert_eq!(account.storage_scheme, "cassandra");
    assert_eq!(account.routing_algorithm.as_deref(), Some(LARGE_VALUE));
    assert_eq!(account.primary_business_details, LARGE_VALUE);
    assert_eq!(account.created_at, 0);
    assert_eq!(account.modified_at, 0);
    assert_eq!(account.frm_routing_algorithm.as_deref(), Some(LARGE_VALUE));
    assert_eq!(account.payout_routing_algorithm.as_deref(), Some(LARGE_VALUE));
    assert_eq!(account.organization_id, "kaps");
    assert!(!account.is_recon_enabled);
    assert_eq!(account.recon_status, "NONE");
    assert_eq!(account.payment_link_config.as_deref(), Some("link_config"));
    assert_eq!(account.pm_collect_link_config, None);
}

#[test]
fn large_value_is_the_canonical_text_of_its_document() {
    let text = get_large_value().text;
    let value: serde_json::Value = serde_json::from_str(&text).unwrap();
    assert_eq!(serde_json::to_string(&value).unwrap(), text);
    assert_eq!(value["merchant_id"], "merchantasd");
    assert_eq!(value["locker_id"], "m0010");
    assert_eq!(value["merchant_name"], "NewAge Retailer");
    assert_eq!(value["merchant_details"]["primary_email"], "JohnTest@test.com");
    assert_eq!(value["merchant_details"]["address"]["city"], "San Fransico");
    assert_eq!(value["merchant_details"]["address"]["zip"], "94122");
    assert_eq!(value["return_url"], "https://google.com/success");
    assert_eq!(value["webhook_details"]["webhook_username"], "ekart_retail");
    assert_eq!(value["webhook_details"]["payment_created_enabled"], true);
    assert_eq!(value["webhook_details"]["webhook_version"].as_f64(), Some(123124.12312412));
    assert_eq!(value["routing_algorithm"]["type"], "single");
    assert_eq!(value["routing_algorithm"]["data"], "stripe");
    assert_eq!(value["sub_merchants_enabled"], false);
    assert_eq!(value["metadata"]["unit"], "245");
    assert_eq!(value["primary_business_details"][0]["country"], "US");
    assert_eq!(value["primary_business_details"][0]["business"], "default");
    assert_eq!(value.as_object().unwrap().len(), 10);
}

#[test]
fn intent_row_has_one_value_for_each_column() {
    let pi = PaymentIntent::with_id("pay_1".to_owned());
    let row = pi.binds();
    assert_eq!(row.len(), INTENT_COLUMNS);
    assert_eq!(row.len(), 43);
    assert!(matches!(&row[0], Bind::Text(s) if s == "pay_1"));
    assert!(matches!(&row[1], Bind::Text(s) if s == "kaps"));
    assert!(matches!(&row[2], Bind::Text(s) if s == "Processing"));
    assert!(matches!(&row[3], Bind::BigInt(1234)));
    assert!(matches!(&row[4], Bind::Json(Encodable::Currency(Currency::USD))));
    assert!(matches!(&row[5], Bind::Null));
    assert!(matches!(&row[6], Bind::Null));
    assert!(matches!(&row[7], Bind::Text(s) if s == FILLER));
    assert!(matches!(&row[9], Bind::Null));
    assert!(matches!(&row[15], Bind::Json(Encodable::Time(t)) if *t == MAX));
    assert!(matches!(&row[16], Bind::Json(Encodable::Time(t)) if *t == MAX));
    assert!(matches!(&row[17], Bind::Json(Encodable::Time(t)) if *t == MAX));
    assert!(matches!(&row[18], Bind::Text(s) if s == "OffSession"));
    assert!(matches!(&row[19], Bind::Bool(false)));
    assert!(matches!(&row[21], Bind::Text(s) if s == "asdasdas"));
    assert!(matches!(&row[24], Bind::Null));
    assert!(matches!(&row[26], Bind::Json(Encodable::Document(d)) if d.text == LARGE_VALUE));
    assert!(matches!(&row[27], Bind::Json(Encodable::Document(d)) if d.text == LARGE_VALUE));
    assert!(matches!(&row[28], Bind::SmallInt(i16::MAX)));
    assert!(matches!(&row[33], Bind::Text(s) if s == "asdasds"));
    assert!(matches!(&row[37], Bind::Null));
    assert!(matches!(&row[40], Bind::Bool(false)));
    assert!(matches!(&row[42], Bind::Null));
    for i in 0..INTENT_COLUMNS {
        assert!(!matches!(&row[i], Bind::Unset));
    }
}

#[test]
fn attempt_row_has_one_value_for_each_column() {
    let pa = PaymentAttempt::with_ids("pay_1".to_owned(), "att_1".to_owned());
    let row = pa.binds();
    assert_eq!(row.len(), ATTEMPT_COLUMNS);
    assert_eq!(row.len(), 56);
    assert!(matches!(&row[0], Bind::Text(s) if s == "pay_1"));
    assert!(matches!(&row[1], Bind::Text(s) if s == "kaps"));
    assert!(matches!(&row[2], Bind::Text(s) if s == "att_1"));
    assert!(matches!(
        &row[3],
        Bind::Json(Encodable::Status(AttemptStatus::AuthenticationFailed))
    ));
    assert!(matches!(&row[4], Bind::BigInt(i64::MAX)));
    assert!(matches!(&row[5], Bind::Json(Encodable::Currency(Currency::USD))));
    assert!(matches!(&row[6], Bind::Bool(false)));
    assert!(matches!(&row[9], Bind::BigInt(i64::MAX)));
    assert!(matches!(&row[13], Bind::Json(Encodable::Method(PaymentMethod::Card))));
    assert!(matches!(&row[15], Bind::Json(Encodable::Capture(CaptureMethod::Automatic))));
    assert!(matches!(&row[16], Bind::Json(Encodable::Time(t)) if *t == MAX));
    assert!(matches!(&row[17], Bind::Bool(true)));
    assert!(matches!(
        &row[18],
        Bind::Json(Encodable::Authentication(AuthenticationType::NoThreeDs))
    ));
    assert!(matches!(&row[19], Bind::Json(Encodable::Time(t)) if *t == MAX));
    assert!(matches!(&row[25], Bind::Null));
    assert!(matches!(&row[28], Bind::Json(Encodable::Document(d)) if d.text == LARGE_VALUE));
    assert!(matches!(&row[29], Bind::Null));
    assert!(matches!(&row[35], Bind::Null));
    assert!(matches!(&row[37], Bind::Null));
    assert!(matches!(&row[39], Bind::BigInt(i64::MAX)));
    assert!(matches!(&row[40], Bind::Text(s) if s == "foo"));
    assert!(matches!(&row[47], Bind::Null));
    assert!(matches!(&row[50], Bind::Null));
    assert!(matches!(&row[55], Bind::Text(s) if s == FILLER));
}

#[test]
fn populate_statement_binds_every_column_of_an_intent() {
    let pi = PaymentIntent::with_id("pay_1".to_owned());
    let mut stmt = Statement::new(insert_intent_cql());
    assert_eq!(stmt.params.len(), 43);
    assert!(stmt.params.iter().all(|p| matches!(p, Bind::Unset)));
    assert_eq!(pi.populate_statement(&mut stmt), Ok(()));
    assert_eq!(stmt.params.len(), 43);
    assert!(stmt.params.iter().all(|p| !matches!(p, Bind::Unset)));
    assert_eq!(format!("{:?}", stmt.params), format!("{:?}", pi.binds()));
    assert_eq!(stmt.query, insert_intent_cql());
    assert_eq!(stmt.consistency, None);
}

#[test]
fn populate_statement_binds_every_column_of_an_attempt() {
    let pa = PaymentAttempt::with_ids("pay_1".to_owned(), "att_1".to_owned());
    let mut stmt = Statement::new(insert_attempt_cql());
    assert_eq!(stmt.params.len(), 56);
    assert_eq!(pa.populate_statement(&mut stmt), Ok(()));
    assert_eq!(format!("{:?}", stmt.params), format!("{:?}", pa.binds()));
}

#[test]
fn populate_statement_fails_on_a_statement_that_is_too_short() {
    let pi = PaymentIntent::with_id("pay_1".to_owned());
    let mut stmt = Statement::new("INSERT INTO t (a, b, c) VALUES (?, ?, ?);".to_owned());
    assert_eq!(pi.populate_statement(&mut stmt), Err(BindError::IndexOutOfBounds));
    assert_eq!(stmt.params.len(), 3);
    assert!(matches!(&stmt.params[0], Bind::Text(s) if s == "pay_1"));
    assert!(matches!(&stmt.params[1], Bind::Text(s) if s == "kaps"));
    assert!(matches!(&stmt.params[2], Bind::Text(s) if s == "Processing"));
}

#[test]
fn populate_statement_leaves_further_parameters_alone() {
    let pi = PaymentIntent::with_id("pay_1".to_owned());
    let mut query = insert_intent_cql();
    query.push_str(" -- ? ?");
    let mut stmt = Statement::new(query);
    assert_eq!(stmt.params.len(), 45);
    assert_eq!(stmt.bind(44, Bind::BigInt(9)), Ok(()));
    assert_eq!(pi.populate_statement(&mut stmt), Ok(()));
    assert!(matches!(&stmt.params[42], Bind::Null));
    assert!(matches!(&stmt.params[43], Bind::Unset));
    assert!(matches!(&stmt.params[44], Bind::BigInt(9)));
}

#[test]
fn statement_has_one_parameter_for_each_question_mark() {
    assert_eq!(Statement::new(String::new()).params.len(), 0);
    assert_eq!(Statement::new("SELECT 1".to_owned()).params.len(), 0);
    assert_eq!(Statement::new("? ?? ?".to_owned()).params.len(), 4);
}

#[test]
fn bind_sets_one_parameter_or_fails() {
    let mut stmt = Statement::new("a = ? AND b = ?".to_owned());
    assert_eq!(stmt.bind(1, Bind::Text("x".to_owned())), Ok(()));
    assert!(matches!(&stmt.params[0], Bind::Unset));
    assert!(matches!(&stmt.params[1], Bind::Text(s) if s == "x"));
    assert_eq!(stmt.bind(2, Bind::Bool(true)), Err(BindError::IndexOutOfBounds));
    assert_eq!(stmt.bind_null(7), Err(BindError::IndexOutOfBounds));
    assert_eq!(stmt.params.len(), 2);
    assert!(matches!(&stmt.params[0], Bind::Unset));
    assert_eq!(stmt.bind_null(0), Ok(()));
    assert!(matches!(&stmt.params[0], Bind::Null));
    assert_eq!(stmt.bind(1, Bind::Int(5)), Ok(()));
    assert!(matches!(&stmt.params[1], Bind::Int(5)));
    stmt.set_consistency(Consistency::EachQuorum);
    assert_eq!(stmt.consistency, Some(Consistency::EachQuorum));
    assert_eq!(stmt.query, "a = ? AND b = ?");
}

#[test]
fn bind_row_binds_from_the_first_position() {
    let mut stmt = Statement::new("? ? ?".to_owned());
    let row = vec![Bind::BigInt(1), Bind::Null];
    assert_eq!(stmt.bind_row(row), Ok(()));
    assert!(matches!(&stmt.params[0], Bind::BigInt(1)));
    assert!(matches!(&stmt.params[1], Bind::Null));
    assert!(matches!(&stmt.params[2], Bind::Unset));
    let long = vec![Bind::Bool(true), Bind::Bool(false), Bind::Int(3), Bind::Int(4)];
    assert_eq!(stmt.bind_row(long), Err(BindError::IndexOutOfBounds));
    assert!(matches!(&stmt.params[0], Bind::Bool(true)));
    assert!(matches!(&stmt.params[1], Bind::Bool(false)));
    assert!(matches!(&stmt.params[2], Bind::Int(3)));
    assert_eq!(stmt.params.len(), 3);
    assert_eq!(stmt.bind_row(Vec::new()), Ok(()));
}

#[test]
fn optional_values_are_bound_as_themselves_or_as_null() {
    let mut stmt = Statement::new("? ? ? ? ? ? ? ?".to_owned());
    assert_eq!(for_opt(&mut stmt, &Some(Currency::EUR), 0), Ok(()));
    assert_eq!(for_opt::<Currency>(&mut stmt, &None, 1), Ok(()));
    assert_eq!(opt_string(&mut stmt, &Some("text".to_owned()), 2), Ok(()));
    assert_eq!(opt_string(&mut stmt, &None, 3), Ok(()));
    assert_eq!(e_for_opt(&mut stmt, &Some(17i64), 4), Ok(()));
    assert_eq!(e_for_opt(&mut stmt, &Some(true), 5), Ok(()));
    assert_eq!(e_for_opt(&mut stmt, &Some(3i16), 6), Ok(()));
    assert_eq!(e_for_opt::<i32>(&mut stmt, &None, 7), Ok(()));
    assert!(matches!(&stmt.params[0], Bind::Json(Encodable::Currency(Currency::EUR))));
    assert!(matches!(&stmt.params[1], Bind::Null));
    assert!(matches!(&stmt.params[2], Bind::Text(s) if s == "text"));
    assert!(matches!(&stmt.params[3], Bind::Null));
    assert!(matches!(&stmt.params[4], Bind::BigInt(17)));
    assert!(matches!(&stmt.params[5], Bind::Bool(true)));
    assert!(matches!(&stmt.params[6], Bind::SmallInt(3)));
    assert!(matches!(&stmt.params[7], Bind::Null));
    assert_eq!(for_opt(&mut stmt, &Some(Currency::EUR), 8), Err(BindError::IndexOutOfBounds));
    assert_eq!(opt_string(&mut stmt, &None, 8), Err(BindError::IndexOutOfBounds));
    assert_eq!(e_for_opt(&mut stmt, &Some(1i32), 8), Err(BindError::IndexOutOfBounds));
    assert!(matches!(e_for_opt(&mut stmt, &Some(1i32), 0), Ok(())));
    assert!(matches!(&stmt.params[0], Bind::Int(1)));
}

#[test]
fn encoded_values_keep_what_they_hold() {
    let doc = JsonText { text: "{\"a\":1}".to_owned() };
    assert!(matches!(enum_parse(&doc), Bind::Json(Encodable::Document(d)) if d.text == "{\"a\":1}"));
    let docs = vec![JsonText { text: "1".to_owned() }, JsonText { text: "[2]".to_owned() }];
    match enum_parse(&docs) {
        Bind::Json(Encodable::Documents(copy)) => {
            assert_eq!(copy.len(), 2);
            assert_eq!(copy[0].text, "1");
            assert_eq!(copy[1].text, "[2]");
        }
        other => panic!("unexpected {:?}", other),
    }
    let copy = duplicate_documents(&docs);
    assert_eq!(copy.len(), 2);
    assert_eq!(copy[1].text, "[2]");
    let mandate = MandateDataType::SingleUse(MandateAmountData {
        amount: 5,
        currency: Currency::INR,
        start_date: Some(MAX),
        end_date: None,
        metadata: Some(JsonText { text: "{}".to_owned() }),
    });
    match enum_parse(&mandate) {
        Bind::Json(Encodable::Mandate(MandateDataType::SingleUse(data))) => {
            assert_eq!(data.amount, 5);
            assert_eq!(data.currency, Currency::INR);
            assert_eq!(data.start_date, Some(MAX));
            assert_eq!(data.end_date, None);
            assert_eq!(data.metadata.unwrap().text, "{}");
        }
        other => panic!("unexpected {:?}", other),
    }
    assert!(matches!(
        enum_parse(&MandateDataType::MultiUse(None)),
        Bind::Json(Encodable::Mandate(MandateDataType::MultiUse(None)))
    ));
    let details = MandateDetails { update_mandate_id: Some("m".to_owned()) };
    match enum_parse(&details) {
        Bind::Json(Encodable::MandateRef(d)) => {
            assert_eq!(d.update_mandate_id.as_deref(), Some("m"))
        }
        other => panic!("unexpected {:?}", other),
    }
    assert!(matches!(
        enum_parse(&AttemptStatus::Charged),
        Bind::Json(Encodable::Status(AttemptStatus::Charged))
    ));
}

#[test]
fn date_time_validity_follows_the_calendar() {
    assert!(DateTime::max().valid());
    assert_eq!(DateTime::max(), MAX);
    let base = DateTime { year: 2024, month: 2, day: 29, hour: 0, minute: 0, second: 0, nanosecond: 0 };
    assert!(base.valid());
    assert!(!DateTime { year: 2023, ..base }.valid());
    assert!(!DateTime { year: 1900, ..base }.valid());
    assert!(DateTime { year: 2000, ..base }.valid());
    assert!(!DateTime { month: 4, day: 31, ..base }.valid());
    assert!(DateTime { month: 4, day: 30, ..base }.valid());
    assert!(!DateTime { month: 0, ..base }.valid());
    assert!(!DateTime { month: 13, ..base }.valid());
    assert!(!DateTime { day: 0, ..base }.valid());
    assert!(!DateTime { hour: 24, ..base }.valid());
    assert!(!DateTime { minute: 60, ..base }.valid());
    assert!(!DateTime { second: 60, ..base }.valid());
    assert!(!DateTime { nanosecond: 1_000_000_000, ..base }.valid());
    assert!(!DateTime { year: 10_000, month: 1, day: 1, ..base }.valid());
    assert!(DateTime { year: -9999, month: 1, day: 1, ..base }.valid());
    assert!(!DateTime { year: -10_000, month: 1, day: 1, ..base }.valid());
}

#[test]
fn sample_times_agree_with_the_time_libraries() {
    let max = time::PrimitiveDateTime::MAX;
    let ours = DateTime::max();
    assert_eq!(ours.year, max.year());
    assert_eq!(ours.month, u8::from(max.month()));
    assert_eq!(ours.day, max.day());
    assert_eq!(ours.hour, max.hour());
    assert_eq!(ours.minute, max.minute());
    assert_eq!(ours.second, max.second());
    assert_eq!(ours.nanosecond, max.nanosecond());
    let epoch = chrono::DateTime::<chrono::Utc>::default();
    let account = MerchantAccount::new("m".to_owned());
    assert_eq!(account.created_at, epoch.timestamp_millis());
    assert_eq!(account.modified_at, epoch.timestamp_millis());
}

#[test]
fn charged_attempt_differs_in_status_only() {
    let mut pa = PaymentAttempt::with_ids("pay_1".to_owned(), "att_1".to_owned());
    pa.amount = 77;
    pa.connector = Some("stripe".to_owned());
    pa.browser_info = Some(JsonText { text: "{}".to_owned() });
    let before = format!("{:?}", pa.binds());
    let charged = pa.charged();
    assert_eq!(charged.status, AttemptStatus::Charged);
    assert_eq!(charged.amount, 77);
    assert_eq!(charged.connector.as_deref(), Some("stripe"));
    assert_eq!(charged.payment_id, "pay_1");
    assert_eq!(charged.attempt_id, "att_1");
    let after = charged.binds();
    assert!(matches!(&after[3], Bind::Json(Encodable::Status(AttemptStatus::Charged))));
    let expected = before.replace("Status(AuthenticationFailed)", "Status(Charged)");
    assert_eq!(format!("{:?}", after), expected);
}

#[test]
fn succeed_copies_every_column_but_the_status() {
    let mut pi = PaymentIntent::with_id("pay_1".to_owned());
    pi.amount = 5;
    pi.customer_id = Some("c9".to_owned());
    pi.metadata = Some(JsonText { text: "[1]".to_owned() });
    pi.order_details = Some(vec![JsonText { text: "1".to_owned() }]);
    let copy = pi.duplicate();
    assert_eq!(format!("{:?}", copy.binds()), format!("{:?}", pi.binds()));
    let done = pi.succeed();
    assert_eq!(done.status, "SUCCESS");
    assert_eq!(done.amount, 5);
    assert_eq!(done.customer_id.as_deref(), Some("c9"));
    assert_eq!(done.metadata.as_ref().unwrap().text, "[1]");
    assert_eq!(done.order_details.as_ref().unwrap()[0].text, "1");
    let mut expected = pi.binds();
    expected[2] = Bind::Text("SUCCESS".to_owned());
    assert_eq!(format!("{:?}", done.binds()), format!("{:?}", expected));
    assert_eq!(pi.status, "Processing");
}
