//! Payment intents: what a customer has agreed to pay.

use crate::cql::{plain_names, slices};
use crate::enums::Currency;
use crate::ident::{record_id, GenerateId};
use crate::payload::{
    get_large_value, holds_document, holds_text, large_value_text, DateTime, JsonText, FILLER,
};
use crate::statement::{
    bind_views, copy_document, copy_documents, copy_text, enum_parse, json_or_null,
    scalar_or_null, spec_bind_row, text_of, text_or_null, Bind, BindError, BindView,
    EncodableView, Encode, Statement,
};
use crate::text::free_of;
use vstd::prelude::*;

verus! {

/// The number of columns of the table.
pub const INTENT_COLUMNS: usize = 43;

/// The number of the column that holds the status.
pub const INTENT_STATUS_COLUMN: usize = 2;

/// A payment intent, with all the columns of its table.
#[derive(Debug)]
pub struct PaymentIntent {
    pub payment_id: String,
    pub merchant_id: String,
    pub status: String,
    pub amount: i64,
    pub currency: Option<Currency>,
    pub amount_captured: Option<i64>,
    pub customer_id: Option<String>,
    pub description: Option<String>,
    pub return_url: Option<String>,
    pub metadata: Option<JsonText>,
    pub connector_id: Option<String>,
    pub shipping_address_id: Option<String>,
    pub billing_address_id: Option<String>,
    pub statement_descriptor_name: Option<String>,
    pub statement_descriptor_suffix: Option<String>,
    pub created_at: DateTime,
    pub modified_at: DateTime,
    pub last_synced: Option<DateTime>,
    pub setup_future_usage: Option<String>,
    pub off_session: Option<bool>,
    pub client_secret: Option<String>,
    pub active_attempt_id: String,
    pub business_country: Option<String>,
    pub business_label: Option<String>,
    pub order_details: Option<Vec<JsonText>>,
    pub allowed_payment_method_types: Option<JsonText>,
    pub connector_metadata: Option<JsonText>,
    pub feature_metadata: Option<JsonText>,
    pub attempt_count: i16,
    pub profile_id: Option<String>,
    pub merchant_decision: Option<String>,
    pub payment_link_id: Option<String>,
    pub payment_confirm_source: Option<String>,
    pub updated_by: String,
    pub surcharge_applicable: Option<bool>,
    pub request_incremental_authorization: Option<String>,
    pub incremental_authorization_allowed: Option<bool>,
    pub authorization_count: Option<i32>,
    pub session_expiry: Option<DateTime>,
    pub fingerprint_id: Option<String>,
    pub request_external_three_ds_authentication: Option<bool>,
    pub charges: Option<JsonText>,
    pub frm_metadata: Option<JsonText>,
}

impl PaymentIntent {
    /// Whether the record is the stock record with the given identifier and
    /// status: every other field holds its fixed sample value.
    pub open spec fn is_stock(self, payment_id: Seq<char>, status: Seq<char>) -> bool {
        &&& self.payment_id@ == payment_id
        &&& self.merchant_id@ == "kaps"@
        &&& self.status@ == status
        &&& self.amount == 1234
        &&& self.currency == Some(Currency::USD)
        &&& self.amount_captured is None
        &&& self.customer_id is None
        &&& holds_text(self.description, FILLER@)
        &&& holds_text(self.return_url, FILLER@)
        &&& self.metadata is None
        &&& holds_text(self.connector_id, FILLER@)
        &&& holds_text(self.shipping_address_id, FILLER@)
        &&& holds_text(self.billing_address_id, FILLER@)
        &&& holds_text(self.statement_descriptor_name, FILLER@)
        &&& holds_text(self.statement_descriptor_suffix, FILLER@)
        &&& self.created_at == DateTime::spec_max()
        &&& self.modified_at == DateTime::spec_max()
        &&& self.last_synced == Some(DateTime::spec_max())
        &&& holds_text(self.setup_future_usage, "OffSession"@)
        &&& self.off_session == Some(false)
        &&& holds_text(self.client_secret, FILLER@)
        &&& self.active_attempt_id@ == "asdasdas"@
        &&& self.business_country is None
        &&& holds_text(self.business_label, FILLER@)
        &&& self.order_details is None
        &&& self.allowed_payment_method_types is None
        &&& holds_document(self.connector_metadata, large_value_text())
        &&& holds_document(self.feature_metadata, large_value_text())
        &&& self.attempt_count == i16::MAX
        &&& holds_text(self.profile_id, FILLER@)
        &&& holds_text(self.merchant_decision, FILLER@)
        &&& holds_text(self.payment_link_id, FILLER@)
        &&& self.payment_confirm_source is None
        &&& self.updated_by@ == "asdasds"@
        &&& self.surcharge_applicable == Some(false)
        &&& self.request_incremental_authorization is None
        &&& self.incremental_authorization_allowed == Some(false)
        &&& self.authorization_count is None
        &&& self.session_expiry == Some(DateTime::spec_max())
        &&& holds_text(self.fingerprint_id, FILLER@)
        &&& self.request_external_three_ds_authentication == Some(false)
        &&& self.charges is None
        &&& self.frm_metadata is None
    }

    /// Whether the record is the stock record with the given identifier, as
    /// it is when it was just created.
    pub open spec fn is_template(self, payment_id: Seq<char>) -> bool {
        self.is_stock(payment_id, "Processing"@)
    }

    /// The value of column number `i` of the record, counted from 0 in the
    /// order of the table.
    pub open spec fn column(self, i: int) -> BindView {
        if i == 0 {
            text_of(self.payment_id@)
        } else if i == 1 {
            text_of(self.merchant_id@)
        } else if i == 2 {
            text_of(self.status@)
        } else if i == 3 {
            BindView::BigInt(self.amount)
        } else if i == 4 {
            json_or_null(self.currency)
        } else if i == 5 {
            scalar_or_null(self.amount_captured)
        } else if i == 6 {
            text_or_null(self.customer_id)
        } else if i == 7 {
            text_or_null(self.description)
        } else if i == 8 {
            text_or_null(self.return_url)
        } else if i == 9 {
            json_or_null(self.metadata)
        } else if i == 10 {
            text_or_null(self.connector_id)
        } else if i == 11 {
            text_or_null(self.shipping_address_id)
        } else if i == 12 {
            text_or_null(self.billing_address_id)
        } else if i == 13 {
            text_or_null(self.statement_descriptor_name)
        } else if i == 14 {
            text_or_null(self.statement_descriptor_suffix)
        } else if i == 15 {
            BindView::Json(self.created_at.encoding())
        } else if i == 16 {
            BindView::Json(self.modified_at.encoding())
        } else if i == 17 {
            json_or_null(self.last_synced)
        } else if i == 18 {
            text_or_null(self.setup_future_usage)
        } else if i == 19 {
            scalar_or_null(self.off_session)
        } else if i == 20 {
            text_or_null(self.client_secret)
        } else if i == 21 {
            text_of(self.active_attempt_id@)
        } else if i == 22 {
            text_or_null(self.business_country)
        } else if i == 23 {
            text_or_null(self.business_label)
        } else if i == 24 {
            json_or_null(self.order_details)
        } else if i == 25 {
            json_or_null(self.allowed_payment_method_types)
        } else if i == 26 {
            json_or_null(self.connector_metadata)
        } else if i == 27 {
            json_or_null(self.feature_metadata)
        } else if i == 28 {
            BindView::SmallInt(self.attempt_count)
        } else if i == 29 {
            text_or_null(self.profile_id)
        } else if i == 30 {
            text_or_null(self.merchant_decision)
        } else if i == 31 {
            text_or_null(self.payment_link_id)
        } else if i == 32 {
            text_or_null(self.payment_confirm_source)
        } else if i == 33 {
            text_of(self.updated_by@)
        } else if i == 34 {
            scalar_or_null(self.surcharge_applicable)
        } else if i == 35 {
            text_or_null(self.request_incremental_authorization)
        } else if i == 36 {
            scalar_or_null(self.incremental_authorization_allowed)
        } else if i == 37 {
            scalar_or_null(self.authorization_count)
        } else if i == 38 {
            json_or_null(self.session_expiry)
        } else if i == 39 {
            text_or_null(self.fingerprint_id)
        } else if i == 40 {
            scalar_or_null(self.request_external_three_ds_authentication)
        } else if i == 41 {
            json_or_null(self.charges)
        } else {
            json_or_null(self.frm_metadata)
        }
    }

    /// The values of the record's columns, in the order of the table.
    pub open spec fn row(self) -> Seq<BindView> {
        Seq::new(INTENT_COLUMNS as nat, |i: int| self.column(i))
    }

    /// The value of column number `i` of the stock record with the given
    /// identifier and status.
    pub open spec fn stock_column(payment_id: Seq<char>, status: Seq<char>, i: int) -> BindView {
        if i == 0 {
            text_of(payment_id)
        } else if i == 1 {
            text_of("kaps"@)
        } else if i == 2 {
            text_of(status)
        } else if i == 3 {
            BindView::BigInt(1234)
        } else if i == 4 {
            json_or_null(Some(Currency::USD))
        } else if i == 5 {
            BindView::Null
        } else if i == 6 {
            BindView::Null
        } else if i == 7 {
            text_of(FILLER@)
        } else if i == 8 {
            text_of(FILLER@)
        } else if i == 9 {
            BindView::Null
        } else if i == 10 {
            text_of(FILLER@)
        } else if i == 11 {
            text_of(FILLER@)
        } else if i == 12 {
            text_of(FILLER@)
        } else if i == 13 {
            text_of(FILLER@)
        } else if i == 14 {
            text_of(FILLER@)
        } else if i == 15 {
            BindView::Json(DateTime::spec_max().encoding())
        } else if i == 16 {
            BindView::Json(DateTime::spec_max().encoding())
        } else if i == 17 {
            json_or_null(Some(DateTime::spec_max()))
        } else if i == 18 {
            text_of("OffSession"@)
        } else if i == 19 {
            scalar_or_null(Some(false))
        } else if i == 20 {
            text_of(FILLER@)
        } else if i == 21 {
            text_of("asdasdas"@)
        } else if i == 22 {
            BindView::Null
        } else if i == 23 {
            text_of(FILLER@)
        } else if i == 24 {
            BindView::Null
        } else if i == 25 {
            BindView::Null
        } else if i == 26 {
            BindView::Json(EncodableView::Document(large_value_text()))
        } else if i == 27 {
            BindView::Json(EncodableView::Document(large_value_text()))
        } else if i == 28 {
            BindView::SmallInt(i16::MAX)
        } else if i == 29 {
            text_of(FILLER@)
        } else if i == 30 {
            text_of(FILLER@)
        } else if i == 31 {
            text_of(FILLER@)
        } else if i == 32 {
            BindView::Null
        } else if i == 33 {
            text_of("asdasds"@)
        } else if i == 34 {
            scalar_or_null(Some(false))
        } else if i == 35 {
            BindView::Null
        } else if i == 36 {
            scalar_or_null(Some(false))
        } else if i == 37 {
            BindView::Null
        } else if i == 38 {
            json_or_null(Some(DateTime::spec_max()))
        } else if i == 39 {
            text_of(FILLER@)
        } else if i == 40 {
            scalar_or_null(Some(false))
        } else if i == 41 {
            BindView::Null
        } else {
            BindView::Null
        }
    }

    /// The columns of the stock record with the given identifier and
    /// status.
    pub open spec fn stock_row(payment_id: Seq<char>, status: Seq<char>) -> Seq<BindView> {
        Seq::new(INTENT_COLUMNS as nat, |i: int| Self::stock_column(payment_id, status, i))
    }

    /// The columns of a stock record are the stock columns.
    pub proof fn lemma_stock_row(self, payment_id: Seq<char>, status: Seq<char>)
        requires
            self.is_stock(payment_id, status),
        ensures
            self.row() == Self::stock_row(payment_id, status),
    {
        assert(self.row() =~= Self::stock_row(payment_id, status));
    }

    /// A record that differs from this one in the status alone differs from
    /// it in the status column alone.
    pub proof fn lemma_status_is_a_column(self, changed: Self)
        requires
            changed == (PaymentIntent { status: changed.status, ..self }),
        ensures
            changed.row() == self.row().update(
                INTENT_STATUS_COLUMN as int,
                text_of(changed.status@),
            ),
    {
        assert(changed.row() =~= self.row().update(
            INTENT_STATUS_COLUMN as int,
            text_of(changed.status@),
        ));
    }

    /// A copy of the record: every column as it is.
    pub fn duplicate(&self) -> (r: Self)
        ensures
            r.row() == self.row(),
    {
        let r = PaymentIntent {
            payment_id: self.payment_id.clone(),
            merchant_id: self.merchant_id.clone(),
            status: self.status.clone(),
            amount: self.amount,
            currency: self.currency,
            amount_captured: self.amount_captured,
            customer_id: copy_text(&self.customer_id),
            description: copy_text(&self.description),
            return_url: copy_text(&self.return_url),
            metadata: copy_document(&self.metadata),
            connector_id: copy_text(&self.connector_id),
            shipping_address_id: copy_text(&self.shipping_address_id),
            billing_address_id: copy_text(&self.billing_address_id),
            statement_descriptor_name: copy_text(&self.statement_descriptor_name),
            statement_descriptor_suffix: copy_text(&self.statement_descriptor_suffix),
            created_at: self.created_at,
            modified_at: self.modified_at,
            last_synced: self.last_synced,
            setup_future_usage: copy_text(&self.setup_future_usage),
            off_session: self.off_session,
            client_secret: copy_text(&self.client_secret),
            active_attempt_id: self.active_attempt_id.clone(),
            business_country: copy_text(&self.business_country),
            business_label: copy_text(&self.business_label),
            order_details: copy_documents(&self.order_details),
            allowed_payment_method_types: copy_document(&self.allowed_payment_method_types),
            connector_metadata: copy_document(&self.connector_metadata),
            feature_metadata: copy_document(&self.feature_metadata),
            attempt_count: self.attempt_count,
            profile_id: copy_text(&self.profile_id),
            merchant_decision: copy_text(&self.merchant_decision),
            payment_link_id: copy_text(&self.payment_link_id),
            payment_confirm_source: copy_text(&self.payment_confirm_source),
            updated_by: self.updated_by.clone(),
            surcharge_applicable: self.surcharge_applicable,
            request_incremental_authorization: copy_text(&self.request_incremental_authorization),
            incremental_authorization_allowed: self.incremental_authorization_allowed,
            authorization_count: self.authorization_count,
            session_expiry: self.session_expiry,
            fingerprint_id: copy_text(&self.fingerprint_id),
            request_external_three_ds_authentication: self.request_external_three_ds_authentication,
            charges: copy_document(&self.charges),
            frm_metadata: copy_document(&self.frm_metadata),
        };
        assert(r.row() =~= self.row());
        r
    }

    /// A copy of the record in its final status: every other column as it
    /// is.
    pub fn succeed(&self) -> (r: Self)
        ensures
            r.row() == self.row().update(INTENT_STATUS_COLUMN as int, text_of("SUCCESS"@)),
    {
        let copy = self.duplicate();
        let mut r = copy;
        r.status = "SUCCESS".to_owned();
        proof {
            copy.lemma_status_is_a_column(r);
        }
        r
    }

    /// The stock intent with the given identifier.
    pub fn with_id(payment_id: String) -> (r: Self)
        ensures
            r.is_template(payment_id@),
    {
        PaymentIntent {
            payment_id,
            merchant_id: "kaps".to_owned(),
            status: "Processing".to_owned(),
            amount: 1234,
            currency: Some(Currency::USD),
            amount_captured: None,
            customer_id: None,
            description: Some(FILLER.to_owned()),
            return_url: Some(FILLER.to_owned()),
            metadata: None,
            connector_id: Some(FILLER.to_owned()),
            shipping_address_id: Some(FILLER.to_owned()),
            billing_address_id: Some(FILLER.to_owned()),
            statement_descriptor_name: Some(FILLER.to_owned()),
            statement_descriptor_suffix: Some(FILLER.to_owned()),
            created_at: DateTime::max(),
            modified_at: DateTime::max(),
            last_synced: Some(DateTime::max()),
            setup_future_usage: Some("OffSession".to_owned()),
            off_session: Some(false),
            client_secret: Some(FILLER.to_owned()),
            active_attempt_id: "asdasdas".to_owned(),
            business_country: None,
            business_label: Some(FILLER.to_owned()),
            order_details: None,
            allowed_payment_method_types: None,
            connector_metadata: Some(get_large_value()),
            feature_metadata: Some(get_large_value()),
            attempt_count: i16::MAX,
            profile_id: Some(FILLER.to_owned()),
            merchant_decision: Some(FILLER.to_owned()),
            payment_link_id: Some(FILLER.to_owned()),
            payment_confirm_source: None,
            updated_by: "asdasds".to_owned(),
            surcharge_applicable: Some(false),
            request_incremental_authorization: None,
            incremental_authorization_allowed: Some(false),
            authorization_count: None,
            session_expiry: Some(DateTime::max()),
            fingerprint_id: Some(FILLER.to_owned()),
            request_external_three_ds_authentication: Some(false),
            charges: None,
            frm_metadata: None,
        }
    }

    /// The value of column number `i` of the record.
    fn bind_at(&self, i: usize) -> (b: Bind)
        requires
            i < INTENT_COLUMNS,
        ensures
            b@ == self.column(i as int),
    {
        match i {
            0 => Bind::text(&self.payment_id),
            1 => Bind::text(&self.merchant_id),
            2 => Bind::text(&self.status),
            3 => Bind::BigInt(self.amount),
            4 => Bind::json_opt(&self.currency),
            5 => Bind::scalar_opt(&self.amount_captured),
            6 => Bind::text_opt(&self.customer_id),
            7 => Bind::text_opt(&self.description),
            8 => Bind::text_opt(&self.return_url),
            9 => Bind::json_opt(&self.metadata),
            10 => Bind::text_opt(&self.connector_id),
            11 => Bind::text_opt(&self.shipping_address_id),
            12 => Bind::text_opt(&self.billing_address_id),
            13 => Bind::text_opt(&self.statement_descriptor_name),
            14 => Bind::text_opt(&self.statement_descriptor_suffix),
            15 => enum_parse(&self.created_at),
            16 => enum_parse(&self.modified_at),
            17 => Bind::json_opt(&self.last_synced),
            18 => Bind::text_opt(&self.setup_future_usage),
            19 => Bind::scalar_opt(&self.off_session),
            20 => Bind::text_opt(&self.client_secret),
            21 => Bind::text(&self.active_attempt_id),
            22 => Bind::text_opt(&self.business_country),
            23 => Bind::text_opt(&self.business_label),
            24 => Bind::json_opt(&self.order_details),
            25 => Bind::json_opt(&self.allowed_payment_method_types),
            26 => Bind::json_opt(&self.connector_metadata),
            27 => Bind::json_opt(&self.feature_metadata),
            28 => Bind::SmallInt(self.attempt_count),
            29 => Bind::text_opt(&self.profile_id),
            30 => Bind::text_opt(&self.merchant_decision),
            31 => Bind::text_opt(&self.payment_link_id),
            32 => Bind::text_opt(&self.payment_confirm_source),
            33 => Bind::text(&self.updated_by),
            34 => Bind::scalar_opt(&self.surcharge_applicable),
            35 => Bind::text_opt(&self.request_incremental_authorization),
            36 => Bind::scalar_opt(&self.incremental_authorization_allowed),
            37 => Bind::scalar_opt(&self.authorization_count),
            38 => Bind::json_opt(&self.session_expiry),
            39 => Bind::text_opt(&self.fingerprint_id),
            40 => Bind::scalar_opt(&self.request_external_three_ds_authentication),
            41 => Bind::json_opt(&self.charges),
            _ => Bind::json_opt(&self.frm_metadata),
        }
    }

    /// The name of column number `i` of the table, counted from 0.
    pub open spec fn column_name(i: int) -> Seq<char> {
        if i == 0 {
            "payment_id"@
        } else if i == 1 {
            "merchant_id"@
        } else if i == 2 {
            "status"@
        } else if i == 3 {
            "amount"@
        } else if i == 4 {
            "currency"@
        } else if i == 5 {
            "amount_captured"@
        } else if i == 6 {
            "customer_id"@
        } else if i == 7 {
            "description"@
        } else if i == 8 {
            "return_url"@
        } else if i == 9 {
            "metadata"@
        } else if i == 10 {
            "connector_id"@
        } else if i == 11 {
            "shipping_address_id"@
        } else if i == 12 {
            "billing_address_id"@
        } else if i == 13 {
            "statement_descriptor_name"@
        } else if i == 14 {
            "statement_descriptor_suffix"@
        } else if i == 15 {
            "created_at"@
        } else if i == 16 {
            "modified_at"@
        } else if i == 17 {
            "last_synced"@
        } else if i == 18 {
            "setup_future_usage"@
        } else if i == 19 {
            "off_session"@
        } else if i == 20 {
            "client_secret"@
        } else if i == 21 {
            "active_attempt_id"@
        } else if i == 22 {
            "business_country"@
        } else if i == 23 {
            "business_label"@
        } else if i == 24 {
            "order_details"@
        } else if i == 25 {
            "allowed_payment_method_types"@
        } else if i == 26 {
            "connector_metadata"@
        } else if i == 27 {
            "feature_metadata"@
        } else if i == 28 {
            "attempt_count"@
        } else if i == 29 {
            "profile_id"@
        } else if i == 30 {
            "merchant_decision"@
        } else if i == 31 {
            "payment_link_id"@
        } else if i == 32 {
            "payment_confirm_source"@
        } else if i == 33 {
            "updated_by"@
        } else if i == 34 {
            "surcharge_applicable"@
        } else if i == 35 {
            "request_incremental_authorization"@
        } else if i == 36 {
            "incremental_authorization_allowed"@
        } else if i == 37 {
            "authorization_count"@
        } else if i == 38 {
            "session_expiry"@
        } else if i == 39 {
            "fingerprint_id"@
        } else if i == 40 {
            "request_external_three_ds_authentication"@
        } else if i == 41 {
            "charges"@
        } else {
            "frm_metadata"@
        }
    }

    /// The names of the columns, in the order of the table.
    pub open spec fn names() -> Seq<Seq<char>> {
        Seq::new(INTENT_COLUMNS as nat, |i: int| Self::column_name(i))
    }

    /// No name of a column holds a placeholder.
    pub proof fn lemma_names_are_plain()
        ensures
            plain_names(Self::names()),
    {
        reveal_strlit("payment_id");
        reveal_strlit("merchant_id");
        reveal_strlit("status");
        reveal_strlit("amount");
        reveal_strlit("currency");
        reveal_strlit("amount_captured");
        reveal_strlit("customer_id");
        reveal_strlit("description");
        reveal_strlit("return_url");
        reveal_strlit("metadata");
        reveal_strlit("connector_id");
        reveal_strlit("shipping_address_id");
        reveal_strlit("billing_address_id");
        reveal_strlit("statement_descriptor_name");
        reveal_strlit("statement_descriptor_suffix");
        reveal_strlit("created_at");
        reveal_strlit("modified_at");
        reveal_strlit("last_synced");
        reveal_strlit("setup_future_usage");
        reveal_strlit("off_session");
        reveal_strlit("client_secret");
        reveal_strlit("active_attempt_id");
        reveal_strlit("business_country");
        reveal_strlit("business_label");
        reveal_strlit("order_details");
        reveal_strlit("allowed_payment_method_types");
        reveal_strlit("connector_metadata");
        reveal_strlit("feature_metadata");
        reveal_strlit("attempt_count");
        reveal_strlit("profile_id");
        reveal_strlit("merchant_decision");
        reveal_strlit("payment_link_id");
        reveal_strlit("payment_confirm_source");
        reveal_strlit("updated_by");
        reveal_strlit("surcharge_applicable");
        reveal_strlit("request_incremental_authorization");
        reveal_strlit("incremental_authorization_allowed");
        reveal_strlit("authorization_count");
        reveal_strlit("session_expiry");
        reveal_strlit("fingerprint_id");
        reveal_strlit("request_external_three_ds_authentication");
        reveal_strlit("charges");
        reveal_strlit("frm_metadata");
        assert forall|i: int| 0 <= i < Self::names().len() implies free_of(
            #[trigger] Self::names()[i],
            '?',
        ) by {
            assert(Self::names()[i] == Self::column_name(i));
        }
    }

    /// The name of column number `i` of the table.
    fn name_at(i: usize) -> (name: &'static str)
        requires
            i < INTENT_COLUMNS,
        ensures
            name@ == Self::column_name(i as int),
    {
        match i {
            0 => "payment_id",
            1 => "merchant_id",
            2 => "status",
            3 => "amount",
            4 => "currency",
            5 => "amount_captured",
            6 => "customer_id",
            7 => "description",
            8 => "return_url",
            9 => "metadata",
            10 => "connector_id",
            11 => "shipping_address_id",
            12 => "billing_address_id",
            13 => "statement_descriptor_name",
            14 => "statement_descriptor_suffix",
            15 => "created_at",
            16 => "modified_at",
            17 => "last_synced",
            18 => "setup_future_usage",
            19 => "off_session",
            20 => "client_secret",
            21 => "active_attempt_id",
            22 => "business_country",
            23 => "business_label",
            24 => "order_details",
            25 => "allowed_payment_method_types",
            26 => "connector_metadata",
            27 => "feature_metadata",
            28 => "attempt_count",
            29 => "profile_id",
            30 => "merchant_decision",
            31 => "payment_link_id",
            32 => "payment_confirm_source",
            33 => "updated_by",
            34 => "surcharge_applicable",
            35 => "request_incremental_authorization",
            36 => "incremental_authorization_allowed",
            37 => "authorization_count",
            38 => "session_expiry",
            39 => "fingerprint_id",
            40 => "request_external_three_ds_authentication",
            41 => "charges",
            _ => "frm_metadata",
        }
    }

    /// The names of the columns, in the order of the table. None of them
    /// holds a placeholder.
    pub fn column_names() -> (list: Vec<&'static str>)
        ensures
            slices(list@) == Self::names(),
            plain_names(Self::names()),
    {
        let mut list: Vec<&'static str> = Vec::new();
        let mut i: usize = 0;
        while i < INTENT_COLUMNS
            invariant
                i <= INTENT_COLUMNS,
                list@.len() == i,
                forall|j: int| 0 <= j < i ==> (#[trigger] list@[j])@ == Self::column_name(j),
            decreases INTENT_COLUMNS - i,
        {
            list.push(Self::name_at(i));
            i = i + 1;
        }
        proof {
            assert(slices(list@) =~= Self::names());
            Self::lemma_names_are_plain();
        }
        list
    }

    /// The values of the record's columns, in the order of the table.
    pub fn binds(&self) -> (row: Vec<Bind>)
        ensures
            bind_views(row@) == self.row(),
            row@.len() == INTENT_COLUMNS,
    {
        let mut row: Vec<Bind> = Vec::new();
        let mut i: usize = 0;
        while i < INTENT_COLUMNS
            invariant
                i <= INTENT_COLUMNS,
                row@.len() == i,
                forall|j: int| 0 <= j < i ==> row@[j]@ == self.column(j),
            decreases INTENT_COLUMNS - i,
        {
            row.push(self.bind_at(i));
            i = i + 1;
        }
        assert(bind_views(row@) =~= self.row());
        row
    }

    /// Binds the record's columns to the parameters of an insert statement,
    /// the first column at position 0. Fails if the statement has fewer
    /// parameters than the record has columns; the columns that have a
    /// parameter are bound all the same.
    pub fn populate_statement(&self, stmt: &mut Statement) -> (r: Result<(), BindError>)
        ensures
            (final(stmt)@, r) == spec_bind_row(old(stmt)@, self.row()),
    {
        stmt.bind_row(self.binds())
    }

    /// A new intent. With `use_client_id` the caller's `i` is its identifier;
    /// else an identifier is made for this cell and the current time, with `i`
    /// as the seed.
    pub fn new(cell: &str, i: String, use_client_id: bool) -> (r: Self)
        ensures
            use_client_id ==> r.is_template(i@),
            !use_client_id ==> exists|now_ms: i64|
                r.is_template(#[trigger] record_id(cell@, Self::table_name(), now_ms as int, i@)),
    {
        if use_client_id {
            Self::with_id(i)
        } else {
            Self::with_id(Self::generate_id(cell, i.as_str()))
        }
    }

    /// A new intent as [`PaymentIntent::new`] makes it, with `now_ms` in place
    /// of the current time.
    pub fn new_at(cell: &str, i: String, use_client_id: bool, now_ms: i64) -> (r: Self)
        ensures
            r.is_template(
                if use_client_id {
                    i@
                } else {
                    record_id(cell@, Self::table_name(), now_ms as int, i@)
                },
            ),
    {
        if use_client_id {
            Self::with_id(i)
        } else {
            Self::with_id(Self::generate_id_at(cell, i.as_str(), now_ms))
        }
    }
}

impl GenerateId for PaymentIntent {
    open spec fn table_name() -> Seq<char> {
        "pai"@
    }

    fn get_table_name() -> (s: String) {
        "pai".to_owned()
    }
}

/// What the creation of an intent hands back: its identifier.
#[derive(Debug)]
pub struct PaymentIntentResponse {
    pub pi: String,
}

} // verus!
