//! Payment attempts: the tries at settling a payment intent.

use crate::cql::{plain_names, slices};
use crate::enums::{
    AttemptStatus, AuthenticationType, CaptureMethod, Currency, PaymentExperience, PaymentMethod,
    PaymentMethodType,
};
use crate::ident::{record_id, GenerateId};
use crate::payload::{
    get_large_value, holds_document, holds_text, large_value_text, DateTime, JsonText,
    MandateDataType, MandateDetails, FILLER,
};
use crate::statement::{
    bind_views, enum_parse, json_or_null, scalar_or_null, spec_bind_row, text_of, text_or_null,
    Bind, BindError, BindView, EncodableView, Encode, Statement,
};
use crate::text::free_of;
use vstd::prelude::*;

verus! {

/// The number of columns of the table.
pub const ATTEMPT_COLUMNS: usize = 56;

/// The number of the column that holds the status.
pub const ATTEMPT_STATUS_COLUMN: usize = 3;

/// A payment attempt, with all the columns of its table.
#[derive(Debug)]
pub struct PaymentAttempt {
    pub payment_id: String,
    pub merchant_id: String,
    pub attempt_id: String,
    pub status: AttemptStatus,
    pub amount: i64,
    pub currency: Option<Currency>,
    pub save_to_locker: Option<bool>,
    pub connector: Option<String>,
    pub error_message: Option<String>,
    pub offer_amount: Option<i64>,
    pub surcharge_amount: Option<i64>,
    pub tax_amount: Option<i64>,
    pub payment_method_id: Option<String>,
    pub payment_method: Option<PaymentMethod>,
    pub connector_transaction_id: Option<String>,
    pub capture_method: Option<CaptureMethod>,
    pub capture_on: Option<DateTime>,
    pub confirm: bool,
    pub authentication_type: Option<AuthenticationType>,
    pub created_at: DateTime,
    pub modified_at: DateTime,
    pub last_synced: Option<DateTime>,
    pub cancellation_reason: Option<String>,
    pub amount_to_capture: Option<i64>,
    pub mandate_id: Option<String>,
    pub browser_info: Option<JsonText>,
    pub error_code: Option<String>,
    pub payment_token: Option<String>,
    pub connector_metadata: Option<JsonText>,
    pub payment_experience: Option<PaymentExperience>,
    pub payment_method_type: Option<PaymentMethodType>,
    pub payment_method_data: Option<JsonText>,
    pub business_sub_label: Option<String>,
    pub straight_through_algorithm: Option<JsonText>,
    pub preprocessing_step_id: Option<String>,
    pub mandate_details: Option<MandateDataType>,
    pub error_reason: Option<String>,
    pub multiple_capture_count: Option<i16>,
    pub connector_response_reference_id: Option<String>,
    pub amount_capturable: i64,
    pub updated_by: String,
    pub merchant_connector_id: Option<String>,
    pub authentication_data: Option<JsonText>,
    pub encoded_data: Option<String>,
    pub unified_code: Option<String>,
    pub unified_message: Option<String>,
    pub net_amount: Option<i64>,
    pub external_three_ds_authentication_attempted: Option<bool>,
    pub authentication_connector: Option<String>,
    pub authentication_id: Option<String>,
    pub mandate_data: Option<MandateDetails>,
    pub fingerprint_id: Option<String>,
    pub payment_method_billing_address_id: Option<String>,
    pub charge_id: Option<String>,
    pub client_source: Option<String>,
    pub client_version: Option<String>,
}

impl PaymentAttempt {
    /// Whether the record is the stock record with the given identifiers and
    /// status: every other field holds its fixed sample value.
    pub open spec fn is_stock(self, payment_id: Seq<char>, attempt_id: Seq<char>, status: AttemptStatus) -> bool {
        &&& self.payment_id@ == payment_id
        &&& self.merchant_id@ == "kaps"@
        &&& self.attempt_id@ == attempt_id
        &&& self.status == status
        &&& self.amount == i64::MAX
        &&& self.currency == Some(Currency::USD)
        &&& self.save_to_locker == Some(false)
        &&& holds_text(self.connector, FILLER@)
        &&& holds_text(self.error_message, FILLER@)
        &&& self.offer_amount == Some(i64::MAX)
        &&& self.surcharge_amount == Some(i64::MAX)
        &&& self.tax_amount == Some(i64::MAX)
        &&& holds_text(self.payment_method_id, FILLER@)
        &&& self.payment_method == Some(PaymentMethod::Card)
        &&& holds_text(self.connector_transaction_id, FILLER@)
        &&& self.capture_method == Some(CaptureMethod::Automatic)
        &&& self.capture_on == Some(DateTime::spec_max())
        &&& self.confirm == true
        &&& self.authentication_type == Some(AuthenticationType::NoThreeDs)
        &&& self.created_at == DateTime::spec_max()
        &&& self.modified_at == DateTime::spec_max()
        &&& self.last_synced == Some(DateTime::spec_max())
        &&& holds_text(self.cancellation_reason, FILLER@)
        &&& self.amount_to_capture == Some(i64::MAX)
        &&& holds_text(self.mandate_id, FILLER@)
        &&& self.browser_info is None
        &&& holds_text(self.error_code, FILLER@)
        &&& holds_text(self.payment_token, FILLER@)
        &&& holds_document(self.connector_metadata, large_value_text())
        &&& self.payment_experience is None
        &&& self.payment_method_type is None
        &&& holds_document(self.payment_method_data, large_value_text())
        &&& holds_text(self.business_sub_label, FILLER@)
        &&& self.straight_through_algorithm is None
        &&& holds_text(self.preprocessing_step_id, FILLER@)
        &&& self.mandate_details is None
        &&& holds_text(self.error_reason, FILLER@)
        &&& self.multiple_capture_count is None
        &&& holds_text(self.connector_response_reference_id, FILLER@)
        &&& self.amount_capturable == i64::MAX
        &&& self.updated_by@ == "foo"@
        &&& holds_text(self.merchant_connector_id, FILLER@)
        &&& holds_document(self.authentication_data, large_value_text())
        &&& holds_text(self.encoded_data, FILLER@)
        &&& holds_text(self.unified_code, FILLER@)
        &&& holds_text(self.unified_message, FILLER@)
        &&& self.net_amount == Some(i64::MAX)
        &&& self.external_three_ds_authentication_attempted is None
        &&& holds_text(self.authentication_connector, FILLER@)
        &&& holds_text(self.authentication_id, FILLER@)
        &&& self.mandate_data is None
        &&& holds_text(self.fingerprint_id, FILLER@)
        &&& holds_text(self.payment_method_billing_address_id, FILLER@)
        &&& holds_text(self.charge_id, FILLER@)
        &&& holds_text(self.client_source, FILLER@)
        &&& holds_text(self.client_version, FILLER@)
    }

    /// Whether the record is the stock record with the given identifiers, as
    /// it is when it was just created.
    pub open spec fn is_template(self, payment_id: Seq<char>, attempt_id: Seq<char>) -> bool {
        self.is_stock(payment_id, attempt_id, AttemptStatus::AuthenticationFailed)
    }

    /// The value of column number `i` of the record, counted from 0 in the
    /// order of the table.
    pub open spec fn column(self, i: int) -> BindView {
        if i == 0 {
            text_of(self.payment_id@)
        } else if i == 1 {
            text_of(self.merchant_id@)
        } else if i == 2 {
            text_of(self.attempt_id@)
        } else if i == 3 {
            BindView::Json(self.status.encoding())
        } else if i == 4 {
            BindView::BigInt(self.amount)
        } else if i == 5 {
            json_or_null(self.currency)
        } else if i == 6 {
            scalar_or_null(self.save_to_locker)
        } else if i == 7 {
            text_or_null(self.connector)
        } else if i == 8 {
            text_or_null(self.error_message)
        } else if i == 9 {
            scalar_or_null(self.offer_amount)
        } else if i == 10 {
            scalar_or_null(self.surcharge_amount)
        } else if i == 11 {
            scalar_or_null(self.tax_amount)
        } else if i == 12 {
            text_or_null(self.payment_method_id)
        } else if i == 13 {
            json_or_null(self.payment_method)
        } else if i == 14 {
            text_or_null(self.connector_transaction_id)
        } else if i == 15 {
            json_or_null(self.capture_method)
        } else if i == 16 {
            json_or_null(self.capture_on)
        } else if i == 17 {
            BindView::Bool(self.confirm)
        } else if i == 18 {
            json_or_null(self.authentication_type)
        } else if i == 19 {
            BindView::Json(self.created_at.encoding())
        } else if i == 20 {
            BindView::Json(self.modified_at.encoding())
        } else if i == 21 {
            json_or_null(self.last_synced)
        } else if i == 22 {
            text_or_null(self.cancellation_reason)
        } else if i == 23 {
            scalar_or_null(self.amount_to_capture)
        } else if i == 24 {
            text_or_null(self.mandate_id)
        } else if i == 25 {
            json_or_null(self.browser_info)
        } else if i == 26 {
            text_or_null(self.error_code)
        } else if i == 27 {
            text_or_null(self.payment_token)
        } else if i == 28 {
            json_or_null(self.connector_metadata)
        } else if i == 29 {
            json_or_null(self.payment_experience)
        } else if i == 30 {
            json_or_null(self.payment_method_type)
        } else if i == 31 {
            json_or_null(self.payment_method_data)
        } else if i == 32 {
            text_or_null(self.business_sub_label)
        } else if i == 33 {
            json_or_null(self.straight_through_algorithm)
        } else if i == 34 {
            text_or_null(self.preprocessing_step_id)
        } else if i == 35 {
            json_or_null(self.mandate_details)
        } else if i == 36 {
            text_or_null(self.error_reason)
        } else if i == 37 {
            scalar_or_null(self.multiple_capture_count)
        } else if i == 38 {
            text_or_null(self.connector_response_reference_id)
        } else if i == 39 {
            BindView::BigInt(self.amount_capturable)
        } else if i == 40 {
            text_of(self.updated_by@)
        } else if i == 41 {
            text_or_null(self.merchant_connector_id)
        } else if i == 42 {
            json_or_null(self.authentication_data)
        } else if i == 43 {
            text_or_null(self.encoded_data)
        } else if i == 44 {
            text_or_null(self.unified_code)
        } else if i == 45 {
            text_or_null(self.unified_message)
        } else if i == 46 {
            scalar_or_null(self.net_amount)
        } else if i == 47 {
            scalar_or_null(self.external_three_ds_authentication_attempted)
        } else if i == 48 {
            text_or_null(self.authentication_connector)
        } else if i == 49 {
            text_or_null(self.authentication_id)
        } else if i == 50 {
            json_or_null(self.mandate_data)
        } else if i == 51 {
            text_or_null(self.fingerprint_id)
        } else if i == 52 {
            text_or_null(self.payment_method_billing_address_id)
        } else if i == 53 {
            text_or_null(self.charge_id)
        } else if i == 54 {
            text_or_null(self.client_source)
        } else {
            text_or_null(self.client_version)
        }
    }

    /// The values of the record's columns, in the order of the table.
    pub open spec fn row(self) -> Seq<BindView> {
        Seq::new(ATTEMPT_COLUMNS as nat, |i: int| self.column(i))
    }

    /// The value of column number `i` of the stock record with the given
    /// identifiers and status.
    pub open spec fn stock_column(payment_id: Seq<char>, attempt_id: Seq<char>, status: AttemptStatus, i: int) -> BindView {
        if i == 0 {
            text_of(payment_id)
        } else if i == 1 {
            text_of("kaps"@)
        } else if i == 2 {
            text_of(attempt_id)
        } else if i == 3 {
            BindView::Json(status.encoding())
        } else if i == 4 {
            BindView::BigInt(i64::MAX)
        } else if i == 5 {
            json_or_null(Some(Currency::USD))
        } else if i == 6 {
            scalar_or_null(Some(false))
        } else if i == 7 {
            text_of(FILLER@)
        } else if i == 8 {
            text_of(FILLER@)
        } else if i == 9 {
            scalar_or_null(Some(i64::MAX))
        } else if i == 10 {
            scalar_or_null(Some(i64::MAX))
        } else if i == 11 {
            scalar_or_null(Some(i64::MAX))
        } else if i == 12 {
            text_of(FILLER@)
        } else if i == 13 {
            json_or_null(Some(PaymentMethod::Card))
        } else if i == 14 {
            text_of(FILLER@)
        } else if i == 15 {
            json_or_null(Some(CaptureMethod::Automatic))
        } else if i == 16 {
            json_or_null(Some(DateTime::spec_max()))
        } else if i == 17 {
            BindView::Bool(true)
        } else if i == 18 {
            json_or_null(Some(AuthenticationType::NoThreeDs))
        } else if i == 19 {
            BindView::Json(DateTime::spec_max().encoding())
        } else if i == 20 {
            BindView::Json(DateTime::spec_max().encoding())
        } else if i == 21 {
            json_or_null(Some(DateTime::spec_max()))
        } else if i == 22 {
            text_of(FILLER@)
        } else if i == 23 {
            scalar_or_null(Some(i64::MAX))
        } else if i == 24 {
            text_of(FILLER@)
        } else if i == 25 {
            BindView::Null
        } else if i == 26 {
            text_of(FILLER@)
        } else if i == 27 {
            text_of(FILLER@)
        } else if i == 28 {
            BindView::Json(EncodableView::Document(large_value_text()))
        } else if i == 29 {
            BindView::Null
        } else if i == 30 {
            BindView::Null
        } else if i == 31 {
            BindView::Json(EncodableView::Document(large_value_text()))
        } else if i == 32 {
            text_of(FILLER@)
        } else if i == 33 {
            BindView::Null
        } else if i == 34 {
            text_of(FILLER@)
        } else if i == 35 {
            BindView::Null
        } else if i == 36 {
            text_of(FILLER@)
        } else if i == 37 {
            BindView::Null
        } else if i == 38 {
            text_of(FILLER@)
        } else if i == 39 {
            BindView::BigInt(i64::MAX)
        } else if i == 40 {
            text_of("foo"@)
        } else if i == 41 {
            text_of(FILLER@)
        } else if i == 42 {
            BindView::Json(EncodableView::Document(large_value_text()))
        } else if i == 43 {
            text_of(FILLER@)
        } else if i == 44 {
            text_of(FILLER@)
        } else if i == 45 {
            text_of(FILLER@)
        } else if i == 46 {
            scalar_or_null(Some(i64::MAX))
        } else if i == 47 {
            BindView::Null
        } else if i == 48 {
            text_of(FILLER@)
        } else if i == 49 {
            text_of(FILLER@)
        } else if i == 50 {
            BindView::Null
        } else if i == 51 {
            text_of(FILLER@)
        } else if i == 52 {
            text_of(FILLER@)
        } else if i == 53 {
            text_of(FILLER@)
        } else if i == 54 {
            text_of(FILLER@)
        } else {
            text_of(FILLER@)
        }
    }

    /// The columns of the stock record with the given identifiers and
    /// status.
    pub open spec fn stock_row(payment_id: Seq<char>, attempt_id: Seq<char>, status: AttemptStatus) -> Seq<BindView> {
        Seq::new(ATTEMPT_COLUMNS as nat, |i: int| Self::stock_column(payment_id, attempt_id, status, i))
    }

    /// The columns of a stock record are the stock columns.
    pub proof fn lemma_stock_row(self, payment_id: Seq<char>, attempt_id: Seq<char>, status: AttemptStatus)
        requires
            self.is_stock(payment_id, attempt_id, status),
        ensures
            self.row() == Self::stock_row(payment_id, attempt_id, status),
    {
        assert(self.row() =~= Self::stock_row(payment_id, attempt_id, status));
    }

    /// A record that differs from this one in the status alone differs from
    /// it in the status column alone.
    pub proof fn lemma_status_is_a_column(self, changed: Self)
        requires
            changed == (PaymentAttempt { status: changed.status, ..self }),
        ensures
            changed.row() == self.row().update(
                ATTEMPT_STATUS_COLUMN as int,
                BindView::Json(changed.status.encoding()),
            ),
    {
        assert(changed.row() =~= self.row().update(
            ATTEMPT_STATUS_COLUMN as int,
            BindView::Json(changed.status.encoding()),
        ));
    }

    /// The record in its final status, `Charged`: every other field as it
    /// is.
    pub fn charged(self) -> (r: Self)
        ensures
            r == (PaymentAttempt { status: AttemptStatus::Charged, ..self }),
            r.row() == self.row().update(
                ATTEMPT_STATUS_COLUMN as int,
                BindView::Json(AttemptStatus::Charged.encoding()),
            ),
    {
        let mut r = self;
        r.status = AttemptStatus::Charged;
        proof {
            self.lemma_status_is_a_column(r);
        }
        r
    }

    /// The stock attempt with the given identifiers.
    pub fn with_ids(payment_id: String, attempt_id: String) -> (r: Self)
        ensures
            r.is_template(payment_id@, attempt_id@),
    {
        PaymentAttempt {
            payment_id,
            merchant_id: "kaps".to_owned(),
            attempt_id,
            status: AttemptStatus::AuthenticationFailed,
            amount: i64::MAX,
            currency: Some(Currency::USD),
            save_to_locker: Some(false),
            connector: Some(FILLER.to_owned()),
            error_message: Some(FILLER.to_owned()),
            offer_amount: Some(i64::MAX),
            surcharge_amount: Some(i64::MAX),
            tax_amount: Some(i64::MAX),
            payment_method_id: Some(FILLER.to_owned()),
            payment_method: Some(PaymentMethod::Card),
            connector_transaction_id: Some(FILLER.to_owned()),
            capture_method: Some(CaptureMethod::Automatic),
            capture_on: Some(DateTime::max()),
            confirm: true,
            authentication_type: Some(AuthenticationType::NoThreeDs),
            created_at: DateTime::max(),
            modified_at: DateTime::max(),
            last_synced: Some(DateTime::max()),
            cancellation_reason: Some(FILLER.to_owned()),
            amount_to_capture: Some(i64::MAX),
            mandate_id: Some(FILLER.to_owned()),
            browser_info: None,
            error_code: Some(FILLER.to_owned()),
            payment_token: Some(FILLER.to_owned()),
            connector_metadata: Some(get_large_value()),
            payment_experience: None,
            payment_method_type: None,
            payment_method_data: Some(get_large_value()),
            business_sub_label: Some(FILLER.to_owned()),
            straight_through_algorithm: None,
            preprocessing_step_id: Some(FILLER.to_owned()),
            mandate_details: None,
            error_reason: Some(FILLER.to_owned()),
            multiple_capture_count: None,
            connector_response_reference_id: Some(FILLER.to_owned()),
            amount_capturable: i64::MAX,
            updated_by: "foo".to_owned(),
            merchant_connector_id: Some(FILLER.to_owned()),
            authentication_data: Some(get_large_value()),
            encoded_data: Some(FILLER.to_owned()),
            unified_code: Some(FILLER.to_owned()),
            unified_message: Some(FILLER.to_owned()),
            net_amount: Some(i64::MAX),
            external_three_ds_authentication_attempted: None,
            authentication_connector: Some(FILLER.to_owned()),
            authentication_id: Some(FILLER.to_owned()),
            mandate_data: None,
            fingerprint_id: Some(FILLER.to_owned()),
            payment_method_billing_address_id: Some(FILLER.to_owned()),
            charge_id: Some(FILLER.to_owned()),
            client_source: Some(FILLER.to_owned()),
            client_version: Some(FILLER.to_owned()),
        }
    }

    /// The value of column number `i` of the record.
    fn bind_at(&self, i: usize) -> (b: Bind)
        requires
            i < ATTEMPT_COLUMNS,
        ensures
            b@ == self.column(i as int),
    {
        match i {
            0 => Bind::text(&self.payment_id),
            1 => Bind::text(&self.merchant_id),
            2 => Bind::text(&self.attempt_id),
            3 => enum_parse(&self.status),
            4 => Bind::BigInt(self.amount),
            5 => Bind::json_opt(&self.currency),
            6 => Bind::scalar_opt(&self.save_to_locker),
            7 => Bind::text_opt(&self.connector),
            8 => Bind::text_opt(&self.error_message),
            9 => Bind::scalar_opt(&self.offer_amount),
            10 => Bind::scalar_opt(&self.surcharge_amount),
            11 => Bind::scalar_opt(&self.tax_amount),
            12 => Bind::text_opt(&self.payment_method_id),
            13 => Bind::json_opt(&self.payment_method),
            14 => Bind::text_opt(&self.connector_transaction_id),
            15 => Bind::json_opt(&self.capture_method),
            16 => Bind::json_opt(&self.capture_on),
            17 => Bind::Bool(self.confirm),
            18 => Bind::json_opt(&self.authentication_type),
            19 => enum_parse(&self.created_at),
            20 => enum_parse(&self.modified_at),
            21 => Bind::json_opt(&self.last_synced),
            22 => Bind::text_opt(&self.cancellation_reason),
            23 => Bind::scalar_opt(&self.amount_to_capture),
            24 => Bind::text_opt(&self.mandate_id),
            25 => Bind::json_opt(&self.browser_info),
            26 => Bind::text_opt(&self.error_code),
            27 => Bind::text_opt(&self.payment_token),
            28 => Bind::json_opt(&self.connector_metadata),
            29 => Bind::json_opt(&self.payment_experience),
            30 => Bind::json_opt(&self.payment_method_type),
            31 => Bind::json_opt(&self.payment_method_data),
            32 => Bind::text_opt(&self.business_sub_label),
            33 => Bind::json_opt(&self.straight_through_algorithm),
            34 => Bind::text_opt(&self.preprocessing_step_id),
            35 => Bind::json_opt(&self.mandate_details),
            36 => Bind::text_opt(&self.error_reason),
            37 => Bind::scalar_opt(&self.multiple_capture_count),
            38 => Bind::text_opt(&self.connector_response_reference_id),
            39 => Bind::BigInt(self.amount_capturable),
            40 => Bind::text(&self.updated_by),
            41 => Bind::text_opt(&self.merchant_connector_id),
            42 => Bind::json_opt(&self.authentication_data),
            43 => Bind::text_opt(&self.encoded_data),
            44 => Bind::text_opt(&self.unified_code),
            45 => Bind::text_opt(&self.unified_message),
            46 => Bind::scalar_opt(&self.net_amount),
            47 => Bind::scalar_opt(&self.external_three_ds_authentication_attempted),
            48 => Bind::text_opt(&self.authentication_connector),
            49 => Bind::text_opt(&self.authentication_id),
            50 => Bind::json_opt(&self.mandate_data),
            51 => Bind::text_opt(&self.fingerprint_id),
            52 => Bind::text_opt(&self.payment_method_billing_address_id),
            53 => Bind::text_opt(&self.charge_id),
            54 => Bind::text_opt(&self.client_source),
            _ => Bind::text_opt(&self.client_version),
        }
    }

    /// The name of column number `i` of the table, counted from 0.
    pub open spec fn column_name(i: int) -> Seq<char> {
        if i == 0 {
            "payment_id"@
        } else if i == 1 {
            "merchant_id"@
        } else if i == 2 {
            "attempt_id"@
        } else if i == 3 {
            "status"@
        } else if i == 4 {
            "amount"@
        } else if i == 5 {
            "currency"@
        } else if i == 6 {
            "save_to_locker"@
        } else if i == 7 {
            "connector"@
        } else if i == 8 {
            "error_message"@
        } else if i == 9 {
            "offer_amount"@
        } else if i == 10 {
            "surcharge_amount"@
        } else if i == 11 {
            "tax_amount"@
        } else if i == 12 {
            "payment_method_id"@
        } else if i == 13 {
            "payment_method"@
        } else if i == 14 {
            "connector_transaction_id"@
        } else if i == 15 {
            "capture_method"@
        } else if i == 16 {
            "capture_on"@
        } else if i == 17 {
            "confirm"@
        } else if i == 18 {
            "authentication_type"@
        } else if i == 19 {
            "created_at"@
        } else if i == 20 {
            "modified_at"@
        } else if i == 21 {
            "last_synced"@
        } else if i == 22 {
            "cancellation_reason"@
        } else if i == 23 {
            "amount_to_capture"@
        } else if i == 24 {
            "mandate_id"@
        } else if i == 25 {
            "browser_info"@
        } else if i == 26 {
            "error_code"@
        } else if i == 27 {
            "payment_token"@
        } else if i == 28 {
            "connector_metadata"@
        } else if i == 29 {
            "payment_experience"@
        } else if i == 30 {
            "payment_method_type"@
        } else if i == 31 {
            "payment_method_data"@
        } else if i == 32 {
            "business_sub_label"@
        } else if i == 33 {
            "straight_through_algorithm"@
        } else if i == 34 {
            "preprocessing_step_id"@
        } else if i == 35 {
            "mandate_details"@
        } else if i == 36 {
            "error_reason"@
        } else if i == 37 {
            "multiple_capture_count"@
        } else if i == 38 {
            "connector_response_reference_id"@
        } else if i == 39 {
            "amount_capturable"@
        } else if i == 40 {
            "updated_by"@
        } else if i == 41 {
            "merchant_connector_id"@
        } else if i == 42 {
            "authentication_data"@
        } else if i == 43 {
            "encoded_data"@
        } else if i == 44 {
            "unified_code"@
        } else if i == 45 {
            "unified_message"@
        } else if i == 46 {
            "net_amount"@
        } else if i == 47 {
            "external_three_ds_authentication_attempted"@
        } else if i == 48 {
            "authentication_connector"@
        } else if i == 49 {
            "authentication_id"@
        } else if i == 50 {
            "mandate_data"@
        } else if i == 51 {
            "fingerprint_id"@
        } else if i == 52 {
            "payment_method_billing_address_id"@
        } else if i == 53 {
            "charge_id"@
        } else if i == 54 {
            "client_source"@
        } else {
            "client_version"@
        }
    }

    /// The names of the columns, in the order of the table.
    pub open spec fn names() -> Seq<Seq<char>> {
        Seq::new(ATTEMPT_COLUMNS as nat, |i: int| Self::column_name(i))
    }

    /// No name of a column holds a placeholder.
    pub proof fn lemma_names_are_plain()
        ensures
            plain_names(Self::names()),
    {
        reveal_strlit("payment_id");
        reveal_strlit("merchant_id");
        reveal_strlit("attempt_id");
        reveal_strlit("status");
        reveal_strlit("amount");
        reveal_strlit("currency");
        reveal_strlit("save_to_locker");
        reveal_strlit("connector");
        reveal_strlit("error_message");
        reveal_strlit("offer_amount");
        reveal_strlit("surcharge_amount");
        reveal_strlit("tax_amount");
        reveal_strlit("payment_method_id");
        reveal_strlit("payment_method");
        reveal_strlit("connector_transaction_id");
        reveal_strlit("capture_method");
        reveal_strlit("capture_on");
        reveal_strlit("confirm");
        reveal_strlit("authentication_type");
        reveal_strlit("created_at");
        reveal_strlit("modified_at");
        reveal_strlit("last_synced");
        reveal_strlit("cancellation_reason");
        reveal_strlit("amount_to_capture");
        reveal_strlit("mandate_id");
        reveal_strlit("browser_info");
        reveal_strlit("error_code");
        reveal_strlit("payment_token");
        reveal_strlit("connector_metadata");
        reveal_strlit("payment_experience");
        reveal_strlit("payment_method_type");
        reveal_strlit("payment_method_data");
        reveal_strlit("business_sub_label");
        reveal_strlit("straight_through_algorithm");
        reveal_strlit("preprocessing_step_id");
        reveal_strlit("mandate_details");
        reveal_strlit("error_reason");
        reveal_strlit("multiple_capture_count");
        reveal_strlit("connector_response_reference_id");
        reveal_strlit("amount_capturable");
        reveal_strlit("updated_by");
        reveal_strlit("merchant_connector_id");
        reveal_strlit("authentication_data");
        reveal_strlit("encoded_data");
        reveal_strlit("unified_code");
        reveal_strlit("unified_message");
        reveal_strlit("net_amount");
        reveal_strlit("external_three_ds_authentication_attempted");
        reveal_strlit("authentication_connector");
        reveal_strlit("authentication_id");
        reveal_strlit("mandate_data");
        reveal_strlit("fingerprint_id");
        reveal_strlit("payment_method_billing_address_id");
        reveal_strlit("charge_id");
        reveal_strlit("client_source");
        reveal_strlit("client_version");
        assert forall|i: int| 0 <= i < Self::names().len() implies free_of(
            #[trigger] Self::names()[i],
            '?',
        ) by {
            assert(Self::names()[i] == Self::column_name(i));
        }
    }

    /// The name of column number `i` of the table.
    fn name_at(i: usize) -> (name: &'static str)
        requires
            i < ATTEMPT_COLUMNS,
        ensures
            name@ == Self::column_name(i as int),
    {
        match i {
            0 => "payment_id",
            1 => "merchant_id",
            2 => "attempt_id",
            3 => "status",
            4 => "amount",
            5 => "currency",
            6 => "save_to_locker",
            7 => "connector",
            8 => "error_message",
            9 => "offer_amount",
            10 => "surcharge_amount",
            11 => "tax_amount",
            12 => "payment_method_id",
            13 => "payment_method",
            14 => "connector_transaction_id",
            15 => "capture_method",
            16 => "capture_on",
            17 => "confirm",
            18 => "authentication_type",
            19 => "created_at",
            20 => "modified_at",
            21 => "last_synced",
            22 => "cancellation_reason",
            23 => "amount_to_capture",
            24 => "mandate_id",
            25 => "browser_info",
            26 => "error_code",
            27 => "payment_token",
            28 => "connector_metadata",
            29 => "payment_experience",
            30 => "payment_method_type",
            31 => "payment_method_data",
            32 => "business_sub_label",
            33 => "straight_through_algorithm",
            34 => "preprocessing_step_id",
            35 => "mandate_details",
            36 => "error_reason",
            37 => "multiple_capture_count",
            38 => "connector_response_reference_id",
            39 => "amount_capturable",
            40 => "updated_by",
            41 => "merchant_connector_id",
            42 => "authentication_data",
            43 => "encoded_data",
            44 => "unified_code",
            45 => "unified_message",
            46 => "net_amount",
            47 => "external_three_ds_authentication_attempted",
            48 => "authentication_connector",
            49 => "authentication_id",
            50 => "mandate_data",
            51 => "fingerprint_id",
            52 => "payment_method_billing_address_id",
            53 => "charge_id",
            54 => "client_source",
            _ => "client_version",
        }
    }

    /// The names of the columns, in the order of the table. None of them
    /// holds a placeholder.
    pub fn column_names() -> (list: Vec<&'static str>)
        ensures
            slices(list@) == Self::names(),
            plain_names(Self::names()),
    {
        let mut list: Vec<&'static str> = Vec::new();
        let mut i: usize = 0;
        while i < ATTEMPT_COLUMNS
            invariant
                i <= ATTEMPT_COLUMNS,
                list@.len() == i,
                forall|j: int| 0 <= j < i ==> (#[trigger] list@[j])@ == Self::column_name(j),
            decreases ATTEMPT_COLUMNS - i,
        {
            list.push(Self::name_at(i));
            i = i + 1;
        }
        proof {
            assert(slices(list@) =~= Self::names());
            Self::lemma_names_are_plain();
        }
        list
    }

    /// The values of the record's columns, in the order of the table.
    pub fn binds(&self) -> (row: Vec<Bind>)
        ensures
            bind_views(row@) == self.row(),
            row@.len() == ATTEMPT_COLUMNS,
    {
        let mut row: Vec<Bind> = Vec::new();
        let mut i: usize = 0;
        while i < ATTEMPT_COLUMNS
            invariant
                i <= ATTEMPT_COLUMNS,
                row@.len() == i,
                forall|j: int| 0 <= j < i ==> row@[j]@ == self.column(j),
            decreases ATTEMPT_COLUMNS - i,
        {
            row.push(self.bind_at(i));
            i = i + 1;
        }
        assert(bind_views(row@) =~= self.row());
        row
    }

    /// Binds the record's columns to the parameters of an insert statement,
    /// the first column at position 0. Fails if the statement has fewer
    /// parameters than the record has columns; the columns that have a
    /// parameter are bound all the same.
    pub fn populate_statement(&self, stmt: &mut Statement) -> (r: Result<(), BindError>)
        ensures
            (final(stmt)@, r) == spec_bind_row(old(stmt)@, self.row()),
    {
        stmt.bind_row(self.binds())
    }

    /// A new attempt at the payment `i`. Its identifier is made for this cell
    /// and the current time, with `version` as the seed.
    pub fn new(cell: &str, i: String, version: String) -> (r: Self)
        ensures
            exists|now_ms: i64|
                r.is_template(
                    i@,
                    #[trigger] record_id(cell@, Self::table_name(), now_ms as int, version@),
                ),
    {
        let attempt_id = Self::generate_id(cell, version.as_str());
        Self::with_ids(i, attempt_id)
    }

    /// A new attempt as [`PaymentAttempt::new`] makes it, with `now_ms` in
    /// place of the current time.
    pub fn new_at(cell: &str, i: String, version: String, now_ms: i64) -> (r: Self)
        ensures
            r.is_template(i@, record_id(cell@, Self::table_name(), now_ms as int, version@)),
    {
        let attempt_id = Self::generate_id_at(cell, version.as_str(), now_ms);
        Self::with_ids(i, attempt_id)
    }
}

impl GenerateId for PaymentAttempt {
    open spec fn table_name() -> Seq<char> {
        "paa"@
    }

    fn get_table_name() -> (s: String) {
        "paa".to_owned()
    }
}

/// What the creation of an attempt hands back: its identifier.
#[derive(Debug)]
pub struct PaymentAttemptResponse {
    pub pa: String,
}

} // verus!
