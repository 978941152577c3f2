use aws_sdk_dynamodb::types::AttributeValue;
use cell_payments::attempt::PaymentAttempt;
use cell_payments::cassandra::{
    create_account_consistency, create_attempt_statement, create_intent_statement,
    insert_attempt_cql, insert_intent_cql, retrieve_account_consistency,
    retrieve_all_statement, retrieve_by_id, retrieve_by_id_statement, retrieve_intent_statement,
    retrieve_payment_cql, rows_found, select_payment_attempt_all, update_attempt_cql,
    update_attempt_statement, update_intent_cql, update_intent_statement,
};
use cell_payments::config::{
    cassandra_port, known_nodes, node, parse_port, port_or, server_port, MissingSetting,
    RedisSettingError, RedisSettings, StargateConfig,
};
use cell_payments::cql::{insert_cql, select_cql, update_cql};
use cell_payments::dynamo::{
    account_query, attempt_query, intent_query, items_found, last_item, mark_charged,
    mark_success, set_attribute, unless_exists,
};
use cell_payments::error::StoreError;
use cell_payments::intent::PaymentIntent;
use cell_payments::metrics::{
    latency_buckets, latency_labels, LATENCY_METRIC, REPLICATION_LAG_METRIC,
};
use cell_payments::notifier::{PeerEndpoint, POOL_IDLE_TIMEOUT_SECS, POOL_MAX_IDLE_PER_HOST};
use cell_payments::enums::AttemptStatus;
use cell_payments::redis::{
    account_field, create_account_write, create_write, field_found, field_of, fields_found,
    update_write, RecordKind, WriteMode, ATTEMPT_PATTERN,
};
use cell_payments::statement::{Bind, Consistency, Encodable};

#[test]
fn insert_statements_have_a_parameter_for_every_column() {
    assert_eq!(insert_intent_cql().matches('?').count(), 43);
    assert_eq!(insert_attempt_cql().matches('?').count(), 56);
    assert_eq!(
        insert_intent_cql(),
        "INSERT INTO payments.payment_intents (payment_id, merchant_id, status, amount, currency, amount_captured, customer_id, description, return_url, metadata, connector_id, shipping_address_id, billing_address_id, statement_descriptor_name, statement_descriptor_suffix, created_at, modified_at, last_synced, setup_future_usage, off_session, client_secret, active_attempt_id, business_country, business_label, order_details, allowed_payment_method_types, connector_metadata, feature_metadata, attempt_count, profile_id, merchant_decision, payment_link_id, payment_confirm_source, updated_by, surcharge_applicable, request_incremental_authorization, incremental_authorization_allowed, authorization_count, session_expiry, fingerprint_id, request_external_three_ds_authentication, charges, frm_metadata) VALUES(?, ?, ?, ?, ?, ?, ?, ?, ?, ?, ?, ?, ?, ?, ?, ?, ?, ?, ?, ?, ?, ?, ?, ?, ?, ?, ?, ?, ?, ?, ?, ?, ?, ?, ?, ?, ?, ?, ?, ?, ?, ?, ?) IF NOT EXISTS;"
    );
    let attempt = insert_attempt_cql();
    assert!(attempt.starts_with(
        "INSERT INTO payments.payment_attempts (payment_id, merchant_id, attempt_id, status, amount,"
    ));
    assert!(attempt.contains(", charge_id, client_source, client_version) VALUES(?, ?, "));
    assert!(attempt.ends_with("?, ?) IF NOT EXISTS;"));
    assert_eq!(attempt.matches(", ").count(), 2 * 55);
}

#[test]
fn statement_texts_name_their_tables() {
    assert_eq!(
        select_payment_attempt_all(),
        "SELECT * FROM payments.payment_attempts WHERE payment_id = ? AND merchant_id = ?;"
    );
    assert_eq!(
        update_attempt_cql(),
        "UPDATE payments.payment_attempts set status = ? WHERE payment_id = ? AND merchant_id = ? AND attempt_id = ?;"
    );
    assert_eq!(
        update_intent_cql(),
        "UPDATE payments.payment_intents set status = ? WHERE payment_id = ? AND merchant_id = ?;"
    );
    assert_eq!(
        retrieve_by_id(),
        "SELECT * FROM payments.payment_attempts WHERE payment_id = ? AND merchant_id = ? AND attempt_id = ?;"
    );
    assert_eq!(
        retrieve_payment_cql(),
        "SELECT * FROM payments.payment_intents WHERE payment_id = ? AND merchant_id = ?;"
    );
}

#[test]
fn create_statements_carry_the_whole_record() {
    let pi = PaymentIntent::with_id("pay_1".to_owned());
    let stmt = create_intent_statement(&pi);
    assert_eq!(stmt.query, insert_intent_cql());
    assert_eq!(stmt.consistency, Some(Consistency::One));
    assert_eq!(format!("{:?}", stmt.params), format!("{:?}", pi.binds()));

    let pa = PaymentAttempt::with_ids("pay_1".to_owned(), "att_1".to_owned());
    let stmt = create_attempt_statement(&pa);
    assert_eq!(stmt.query, insert_attempt_cql());
    assert_eq!(stmt.consistency, Some(Consistency::One));
    assert_eq!(format!("{:?}", stmt.params), format!("{:?}", pa.binds()));
}

#[test]
fn lookup_statements_bind_payment_and_merchant() {
    let stmt = retrieve_intent_statement("pay_1");
    assert_eq!(stmt.query, retrieve_payment_cql());
    assert_eq!(stmt.consistency, Some(Consistency::LocalQuorum));
    assert_eq!(stmt.params.len(), 2);
    assert!(matches!(&stmt.params[0], Bind::Text(s) if s == "pay_1"));
    assert!(matches!(&stmt.params[1], Bind::Text(s) if s == "kaps"));

    let stmt = retrieve_all_statement("pay_2");
    assert_eq!(stmt.query, select_payment_attempt_all());
    assert_eq!(stmt.consistency, Some(Consistency::LocalQuorum));
    assert_eq!(stmt.params.len(), 2);
    assert!(matches!(&stmt.params[0], Bind::Text(s) if s == "pay_2"));
    assert!(matches!(&stmt.params[1], Bind::Text(s) if s == "kaps"));

    let stmt = retrieve_by_id_statement("att_1", "pay_3");
    assert_eq!(stmt.query, retrieve_by_id());
    assert_eq!(stmt.consistency, Some(Consistency::LocalQuorum));
    assert_eq!(stmt.params.len(), 3);
    assert!(matches!(&stmt.params[0], Bind::Text(s) if s == "pay_3"));
    assert!(matches!(&stmt.params[1], Bind::Text(s) if s == "kaps"));
    assert!(matches!(&stmt.params[2], Bind::Text(s) if s == "att_1"));
}

#[test]
fn update_statements_bind_the_new_value_first() {
    let stmt = update_intent_statement("pay_1");
    assert_eq!(stmt.query, update_intent_cql());
    assert_eq!(stmt.consistency, Some(Consistency::One));
    assert_eq!(stmt.params.len(), 3);
    assert!(matches!(&stmt.params[0], Bind::Text(s) if s == "SUCCESS"));
    assert!(matches!(&stmt.params[1], Bind::Text(s) if s == "pay_1"));
    assert!(matches!(&stmt.params[2], Bind::Text(s) if s == "kaps"));

    let stmt = update_attempt_statement("pay_1", "att_9");
    assert_eq!(stmt.query, update_attempt_cql());
    assert_eq!(stmt.consistency, Some(Consistency::One));
    assert_eq!(stmt.params.len(), 4);
    assert!(matches!(
        &stmt.params[0],
        Bind::Json(Encodable::Status(AttemptStatus::Charged))
    ));
    assert!(matches!(&stmt.params[1], Bind::Text(s) if s == "pay_1"));
    assert!(matches!(&stmt.params[2], Bind::Text(s) if s == "kaps"));
    assert!(matches!(&stmt.params[3], Bind::Text(s) if s == "att_9"));
}

#[test]
fn account_operations_have_their_consistency_levels() {
    assert_eq!(create_account_consistency(), Consistency::EachQuorum);
    assert_eq!(retrieve_account_consistency(), Consistency::LocalQuorum);
}

#[test]
fn no_rows_means_not_found() {
    assert_eq!(rows_found(0), Err(StoreError::NotFound));
    assert_eq!(rows_found(1), Ok(()));
    assert_eq!(rows_found(u64::MAX), Ok(()));
}

#[test]
fn redis_fields_are_named_after_the_payment() {
    let f = field_of(RecordKind::Intent, "pay_1");
    assert_eq!(f.key, "mer_kaps_pay_pay_1");
    assert_eq!(f.field, "pi_pay_1");
    let f = field_of(RecordKind::Attempt, "pay_1");
    assert_eq!(f.key, "mer_kaps_pay_pay_1");
    assert_eq!(f.field, "pa_pay_1");
    let f = field_of(RecordKind::Intent, "");
    assert_eq!(f.key, "mer_kaps_pay_");
    assert_eq!(f.field, "pi_");
    assert_eq!(ATTEMPT_PATTERN, "pa_*");
}

#[test]
fn redis_creates_without_clobbering_and_updates_by_overwriting() {
    let w = create_write(RecordKind::Intent, "p");
    assert_eq!(w.mode, WriteMode::IfAbsent);
    assert_eq!(w.target.key, "mer_kaps_pay_p");
    assert_eq!(w.target.field, "pi_p");
    let w = create_write(RecordKind::Attempt, "p");
    assert_eq!(w.mode, WriteMode::IfAbsent);
    assert_eq!(w.target.field, "pa_p");
    let w = update_write(RecordKind::Intent, "p");
    assert_eq!(w.mode, WriteMode::Overwrite);
    assert_eq!(w.target.field, "pi_p");
    let w = update_write(RecordKind::Attempt, "p");
    assert_eq!(w.mode, WriteMode::Overwrite);
    assert_eq!(w.target.key, "mer_kaps_pay_p");
    assert_eq!(w.target.field, "pa_p");
}

#[test]
fn redis_answers_without_a_field_are_not_found() {
    assert_eq!(field_found(true), Ok(()));
    assert_eq!(field_found(false), Err(StoreError::NotFound));
    assert_eq!(fields_found(0), Err(StoreError::NotFound));
    assert_eq!(fields_found(3), Ok(()));
}

fn text_pairs(list: &[(String, String)]) -> Vec<(&str, &str)> {
    list.iter().map(|(a, b)| (a.as_str(), b.as_str())).collect()
}

#[test]
fn dynamo_queries_name_table_and_keys() {
    let q = intent_query("pay_1");
    assert_eq!(q.table, "payment_intents");
    assert_eq!(q.key_condition, "#key = :value");
    assert_eq!(text_pairs(&q.names), vec![("#key", "payment_id")]);
    assert_eq!(text_pairs(&q.values), vec![(":value", "pay_1")]);

    let q = attempt_query("pay_1", None);
    assert_eq!(q.table, "payment_attempts");
    assert_eq!(q.key_condition, "#key = :value");
    assert_eq!(text_pairs(&q.names), vec![("#key", "payment_id")]);
    assert_eq!(text_pairs(&q.values), vec![(":value", "pay_1")]);

    let q = attempt_query("pay_1", Some("att_2"));
    assert_eq!(q.table, "payment_attempts");
    assert_eq!(q.key_condition, "#key = :value AND #sort = :sort");
    assert_eq!(
        text_pairs(&q.names),
        vec![("#key", "payment_id"), ("#sort", "attempt_id")]
    );
    assert_eq!(text_pairs(&q.values), vec![(":value", "pay_1"), (":sort", "att_2")]);
}

#[test]
fn dynamo_answers_without_items_are_not_found() {
    assert_eq!(last_item::<u8>(None), Err(StoreError::NotFound));
    assert_eq!(last_item::<u8>(Some(Vec::new())), Err(StoreError::NotFound));
    assert_eq!(last_item(Some(vec![1u8, 2, 3])), Ok(3));
    assert_eq!(last_item(Some(vec![7u8])), Ok(7));
    assert_eq!(items_found::<u8>(&None), Err(StoreError::NotFound));
    assert_eq!(items_found::<u8>(&Some(Vec::new())), Err(StoreError::NotFound));
    assert_eq!(items_found(&Some(vec![1u8])), Ok(()));
}

#[test]
fn mark_success_sets_the_status_and_nothing_else() {
    let item = vec![
        ("payment_id".to_owned(), AttributeValue::S("pay_1".to_owned())),
        ("status".to_owned(), AttributeValue::S("Processing".to_owned())),
        ("amount".to_owned(), AttributeValue::N("1234".to_owned())),
        ("off_session".to_owned(), AttributeValue::Bool(false)),
    ];
    let marked = mark_success(item).unwrap();
    assert_eq!(
        marked,
        vec![
            ("payment_id".to_owned(), AttributeValue::S("pay_1".to_owned())),
            ("status".to_owned(), AttributeValue::S("SUCCESS".to_owned())),
            ("amount".to_owned(), AttributeValue::N("1234".to_owned())),
            ("off_session".to_owned(), AttributeValue::Bool(false)),
        ]
    );
    let again = mark_success(marked.clone()).unwrap();
    assert_eq!(again, marked);
}

#[test]
fn set_attribute_replaces_the_first_attribute_of_that_name() {
    let item = vec![
        ("a".to_owned(), AttributeValue::N("1".to_owned())),
        ("b".to_owned(), AttributeValue::N("2".to_owned())),
        ("a".to_owned(), AttributeValue::N("3".to_owned())),
    ];
    let changed = set_attribute(item.clone(), "a", AttributeValue::Bool(true)).unwrap();
    assert_eq!(
        changed,
        vec![
            ("a".to_owned(), AttributeValue::Bool(true)),
            ("b".to_owned(), AttributeValue::N("2".to_owned())),
            ("a".to_owned(), AttributeValue::N("3".to_owned())),
        ]
    );
    let changed = set_attribute(item.clone(), "b", AttributeValue::Null(true)).unwrap();
    assert_eq!(changed[0], item[0]);
    assert_eq!(changed[1], ("b".to_owned(), AttributeValue::Null(true)));
    assert_eq!(changed[2], item[2]);
    assert_eq!(
        set_attribute(item, "c", AttributeValue::Bool(true)),
        Err(StoreError::BackendWriteError)
    );
}

#[test]
fn mark_success_fails_without_a_status() {
    let item = vec![
        ("payment_id".to_owned(), AttributeValue::S("pay_1".to_owned())),
        ("Status".to_owned(), AttributeValue::S("Processing".to_owned())),
    ];
    assert_eq!(mark_success(item), Err(StoreError::BackendWriteError));
    assert_eq!(mark_success(Vec::new()), Err(StoreError::BackendWriteError));
}

#[test]
fn peer_endpoint_builds_the_signal_address() {
    let peer = PeerEndpoint::new("10.0.0.7");
    assert_eq!(peer.addr, "http://10.0.0.7:8000/record_lag/");
    assert_eq!(
        peer.request_url("pay_1", 1_700_000_000_123),
        "http://10.0.0.7:8000/record_lag/pay_1/1700000000123"
    );
    assert_eq!(peer.request_url("", -1), "http://10.0.0.7:8000/record_lag//-1");
    assert_eq!(POOL_MAX_IDLE_PER_HOST, 10);
    assert_eq!(POOL_IDLE_TIMEOUT_SECS, 90);
}

#[test]
fn ports_are_read_or_defaulted() {
    assert_eq!(parse_port("9042"), Some(9042));
    assert_eq!(parse_port("65535"), Some(65535));
    assert_eq!(parse_port("65536"), None);
    assert_eq!(parse_port("-1"), None);
    assert_eq!(parse_port(""), None);
    assert_eq!(parse_port("+80"), Some(80));
    for text in ["0", "1", "65535", "65536", "x", "", "080", "+7", "-0", "99999999999999999999"] {
        assert_eq!(parse_port(text), text.parse::<u16>().ok(), "text {:?}", text);
    }
    assert_eq!(cassandra_port(None), 9042);
    assert_eq!(cassandra_port(Some("9142")), 9142);
    assert_eq!(cassandra_port(Some("no")), 9042);
    assert_eq!(cassandra_port(Some("70000")), 9042);
    assert_eq!(port_or(Some("x"), 1), 1);
    assert_eq!(port_or(Some("2"), 1), 2);
    assert_eq!(server_port(None), Some(8000));
    assert_eq!(server_port(Some("8080")), Some(8080));
    assert_eq!(server_port(Some("http")), None);
}

#[test]
fn known_nodes_pairs_every_host_with_the_port() {
    assert_eq!(known_nodes("10.0.0.1", 9042), vec!["10.0.0.1:9042"]);
    assert_eq!(
        known_nodes("10.0.0.1,10.0.0.2,db.local", 9142),
        vec!["10.0.0.1:9142", "10.0.0.2:9142", "db.local:9142"]
    );
    assert_eq!(known_nodes("", 1), vec![":1"]);
    assert_eq!(known_nodes("a,", 1), vec!["a:1", ":1"]);
    assert_eq!(known_nodes(",a", 1), vec![":1", "a:1"]);
    assert_eq!(known_nodes(",,", 0), vec![":0", ":0", ":0"]);
    for (url, port) in [("h1,h2", 7u16), ("", 0), ("a,,b", 65535), ("\u{e9},x", 9)] {
        let expected: Vec<String> = url.split(',').map(|ip| format!("{}:{}", ip, port)).collect();
        assert_eq!(known_nodes(url, port), expected);
    }
    assert_eq!(node("h", 65535), "h:65535");
}

#[test]
fn redis_settings_are_read_from_three_texts() {
    assert_eq!(
        RedisSettings::parse("8", "1000", "2"),
        Ok(RedisSettings { pool_size: 8, replicas: 2, timeout: 1000 })
    );
    assert_eq!(
        RedisSettings::parse("1", "-5", "+0"),
        Ok(RedisSettings { pool_size: 1, replicas: 0, timeout: -5 })
    );
    assert_eq!(RedisSettings::parse("-1", "1", "1"), Err(RedisSettingError::PoolSize));
    assert_eq!(RedisSettings::parse("", "x", "y"), Err(RedisSettingError::PoolSize));
    assert_eq!(RedisSettings::parse("1", "x", "y"), Err(RedisSettingError::Replicas));
    assert_eq!(RedisSettings::parse("1", "x", "1"), Err(RedisSettingError::Timeout));
    assert_eq!(
        RedisSettings::parse("1", "9223372036854775808", "1"),
        Err(RedisSettingError::Timeout)
    );
}

#[test]
fn gateway_address_is_made_of_database_and_region() {
    let config =
        StargateConfig::new("db-123".to_owned(), "SECRET-REDACTED".to_owned(), "eu-west-1".to_owned());
    assert_eq!(config.astra_uri(), "https://db-123-eu-west-1.apps.astra.datastax.com/stargate");
    assert_eq!(config.cluster_id, "db-123");
    assert_eq!(config.region, "eu-west-1");
}

#[test]
fn metrics_are_named_and_labelled() {
    assert_eq!(LATENCY_METRIC, "latency_tracker_e");
    assert_eq!(REPLICATION_LAG_METRIC, "replication_lag");
    let labels = latency_labels("payment_intent", "CREATE", "cellA");
    assert_eq!(
        text_pairs(&labels),
        vec![("model", "payment_intent"), ("operation", "CREATE"), ("cell", "cellA")]
    );
    let buckets = latency_buckets();
    assert_eq!(buckets, vec![10, 50, 100, 300, 500, 750, 1000, 1500, 2000, 3000, 5000]);
    assert!(buckets.windows(2).all(|w| w[0] < w[1]));
}

#[test]
fn statement_texts_are_built_from_their_parts() {
    assert_eq!(
        insert_cql("t", &vec!["a", "b", "c"]),
        "INSERT INTO t (a, b, c) VALUES(?, ?, ?) IF NOT EXISTS;"
    );
    assert_eq!(insert_cql("t", &vec!["a"]), "INSERT INTO t (a) VALUES(?) IF NOT EXISTS;");
    assert_eq!(insert_cql("t", &Vec::new()), "INSERT INTO t () VALUES() IF NOT EXISTS;");
    assert_eq!(select_cql("t", &vec!["k"]), "SELECT * FROM t WHERE k = ?;");
    assert_eq!(select_cql("t", &vec!["k", "l"]), "SELECT * FROM t WHERE k = ? AND l = ?;");
    assert_eq!(update_cql("t", "v", &vec!["k", "l"]), "UPDATE t set v = ? WHERE k = ? AND l = ?;");
}

#[test]
fn column_names_follow_the_order_of_the_tables() {
    let names = PaymentIntent::column_names();
    assert_eq!(names.len(), 43);
    assert_eq!(names[0], "payment_id");
    assert_eq!(names[2], "status");
    assert_eq!(names[21], "active_attempt_id");
    assert_eq!(names[42], "frm_metadata");
    let names = PaymentAttempt::column_names();
    assert_eq!(names.len(), 56);
    assert_eq!(names[2], "attempt_id");
    assert_eq!(names[28], "connector_metadata");
    assert_eq!(names[55], "client_version");
    assert!(names.iter().all(|n| !n.contains('?')));
}

#[test]
fn accounts_have_their_own_fields_and_queries() {
    let f = account_field("m1");
    assert_eq!(f.key, "mer_m1");
    assert_eq!(f.field, "account");
    let w = create_account_write("m1");
    assert_eq!(w.mode, WriteMode::IfAbsent);
    assert_eq!(w.target.key, "mer_m1");
    assert_eq!(w.target.field, "account");
    let q = account_query("m1");
    assert_eq!(q.table, "merchant_accounts");
    assert_eq!(q.key_condition, "#key = :value");
    assert_eq!(text_pairs(&q.names), vec![("#key", "merchant_id")]);
    assert_eq!(text_pairs(&q.values), vec![(":value", "m1")]);
}

#[test]
fn creation_is_conditional_on_the_key_attribute() {
    assert_eq!(unless_exists("payment_id"), "attribute_not_exists(payment_id)");
    assert_eq!(unless_exists("merchant_id"), "attribute_not_exists(merchant_id)");
    assert_eq!(unless_exists(""), "attribute_not_exists()");
}

#[test]
fn gateway_settings_need_database_region_and_token() {
    let some = |s: &str| Some(s.to_owned());
    let config = StargateConfig::from_vars(some("db"), some("eu"), some("tok")).unwrap();
    assert_eq!(config.cluster_id, "db");
    assert_eq!(config.region, "eu");
    assert_eq!(config.token, "tok");
    assert_eq!(
        StargateConfig::from_vars(None, some("eu"), some("tok")).err(),
        Some(MissingSetting::DatabaseId)
    );
    assert_eq!(
        StargateConfig::from_vars(some("db"), None, some("tok")).err(),
        Some(MissingSetting::Region)
    );
    assert_eq!(
        StargateConfig::from_vars(some("db"), some("eu"), None).err(),
        Some(MissingSetting::Token)
    );
    assert_eq!(
        StargateConfig::from_vars(None, None, None).err(),
        Some(MissingSetting::DatabaseId)
    );
    assert_eq!(
        StargateConfig::from_vars(some("db"), None, None).err(),
        Some(MissingSetting::Region)
    );
}

#[test]
fn mark_charged_sets_the_status_of_an_attempt() {
    let item = vec![
        ("attempt_id".to_owned(), AttributeValue::S("att_1".to_owned())),
        ("status".to_owned(), AttributeValue::S("AuthenticationFailed".to_owned())),
    ];
    assert_eq!(
        mark_charged(item),
        Ok(vec![
            ("attempt_id".to_owned(), AttributeValue::S("att_1".to_owned())),
            ("status".to_owned(), AttributeValue::S("Charged".to_owned())),
        ])
    );
    assert_eq!(mark_charged(Vec::new()), Err(StoreError::BackendWriteError));
}
