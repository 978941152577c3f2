//! Merchant accounts and customers.

use crate::payload::{holds_text, large_value_text, text_view, LARGE_VALUE};
use vstd::prelude::*;

verus! {

/// The publishable key that new merchant accounts carry.
pub const PUBLISHABLE_KEY: &'static str =
    "AAAAB3NzaC1yc2EAAAADAQABAAACAQC+gCy875BbJDjy/KDczr84xswL1edCE82IkOCBeYuOPbmhR251K9r7UFjlXioa5UnMpRals/pMSkz9MF7yUTzPDg+NjfmsZ8rgHqTKJ7z/yUWEyxd3TcUh0xkkYMCfrA+9rLqgolBiasAOApBDYTi0BsBlfAgNIaTgg7xTX7PHUzceAvujJel1Q6V+bABnFvlDu6kWUhXlrPafWRPUSQz2wEsO7vqrE9UfP+CtuXrJ+t6pMbkVDGc0+JWaPJjBXMjxljBfZHw7UVbHmPlYYTwOGD/IWOgisFfvnutR4JvDZA5elWqkXj+ZEsOw4QFXw71o+b2YWrRBa8l+AFn//zPQvLB753wQVuhzmsidToLss2DfGLdrYKVuCTX7a7OhxKDYRYeyZgeqWK8xVqiyayXgvuxcZV2g+mHi2WuUGGJ6Ycj+JZ9Vh67EnplDmJAKCFXCenS4ou9rMCHqD6i9UVgzakzxy/wd5Cj6R26uKqKo8rZDw9D6zKDzF45NbVh+obAFh/9MuzSCaaL5pXWPUI0kI7iZ8lU7rC8HAj5HhynLZd+rfQazVo+qcoQMxO+A9+fFubru41Aku6siQgv6oXNiGSOcb4bgEDlCBQ/uQgNCn9Vdq3f1yWqC1eAQtwoB4YTE2DZrY1TVZiN202JQNweIIOQUANyKRVV2ITZketmeZQ==";

/// A merchant account: the counterparty that payments are made to.
/// Times are in milliseconds since the Unix epoch.
#[derive(Debug)]
pub struct MerchantAccount {
    pub merchant_id: String,
    pub return_url: Option<String>,
    pub enable_payment_response_hash: bool,
    pub payment_response_hash_key: Option<String>,
    pub redirect_to_merchant_with_http_post: bool,
    pub merchant_name: Option<String>,
    pub merchant_details: Option<String>,
    pub webhook_details: Option<String>,
    pub sub_merchants_enabled: Option<bool>,
    pub parent_merchant_id: Option<String>,
    pub publishable_key: Option<String>,
    pub storage_scheme: String,
    pub locker_id: Option<String>,
    pub metadata: Option<String>,
    pub routing_algorithm: Option<String>,
    pub primary_business_details: String,
    pub intent_fulfillment_time: Option<i64>,
    pub created_at: i64,
    pub modified_at: i64,
    pub frm_routing_algorithm: Option<String>,
    pub payout_routing_algorithm: Option<String>,
    pub organization_id: String,
    pub is_recon_enabled: bool,
    pub default_profile: Option<String>,
    pub recon_status: String,
    pub payment_link_config: Option<String>,
    pub pm_collect_link_config: Option<String>,
}

/// What a [`MerchantAccount`] holds, with strings as sequences of characters.
pub struct MerchantAccountView {
    pub merchant_id: Seq<char>,
    pub return_url: Option<Seq<char>>,
    pub enable_payment_response_hash: bool,
    pub payment_response_hash_key: Option<Seq<char>>,
    pub redirect_to_merchant_with_http_post: bool,
    pub merchant_name: Option<Seq<char>>,
    pub merchant_details: Option<Seq<char>>,
    pub webhook_details: Option<Seq<char>>,
    pub sub_merchants_enabled: Option<bool>,
    pub parent_merchant_id: Option<Seq<char>>,
    pub publishable_key: Option<Seq<char>>,
    pub storage_scheme: Seq<char>,
    pub locker_id: Option<Seq<char>>,
    pub metadata: Option<Seq<char>>,
    pub routing_algorithm: Option<Seq<char>>,
    pub primary_business_details: Seq<char>,
    pub intent_fulfillment_time: Option<i64>,
    pub created_at: i64,
    pub modified_at: i64,
    pub frm_routing_algorithm: Option<Seq<char>>,
    pub payout_routing_algorithm: Option<Seq<char>>,
    pub organization_id: Seq<char>,
    pub is_recon_enabled: bool,
    pub default_profile: Option<Seq<char>>,
    pub recon_status: Seq<char>,
    pub payment_link_config: Option<Seq<char>>,
    pub pm_collect_link_config: Option<Seq<char>>,
}

impl View for MerchantAccount {
    type V = MerchantAccountView;

    open spec fn view(&self) -> MerchantAccountView {
        MerchantAccountView {
            merchant_id: self.merchant_id@,
            return_url: text_view(self.return_url),
            enable_payment_response_hash: self.enable_payment_response_hash,
            payment_response_hash_key: text_view(self.payment_response_hash_key),
            redirect_to_merchant_with_http_post: self.redirect_to_merchant_with_http_post,
            merchant_name: text_view(self.merchant_name),
            merchant_details: text_view(self.merchant_details),
            webhook_details: text_view(self.webhook_details),
            sub_merchants_enabled: self.sub_merchants_enabled,
            parent_merchant_id: text_view(self.parent_merchant_id),
            publishable_key: text_view(self.publishable_key),
            storage_scheme: self.storage_scheme@,
            locker_id: text_view(self.locker_id),
            metadata: text_view(self.metadata),
            routing_algorithm: text_view(self.routing_algorithm),
            primary_business_details: self.primary_business_details@,
            intent_fulfillment_time: self.intent_fulfillment_time,
            created_at: self.created_at,
            modified_at: self.modified_at,
            frm_routing_algorithm: text_view(self.frm_routing_algorithm),
            payout_routing_algorithm: text_view(self.payout_routing_algorithm),
            organization_id: self.organization_id@,
            is_recon_enabled: self.is_recon_enabled,
            default_profile: text_view(self.default_profile),
            recon_status: self.recon_status@,
            payment_link_config: text_view(self.payment_link_config),
            pm_collect_link_config: text_view(self.pm_collect_link_config),
        }
    }
}

impl MerchantAccount {
    /// Whether the account is the stock account of the given merchant: every
    /// other field holds its fixed sample value, the routing fields and the
    /// business details hold the text of the sample document, and both times
    /// are the epoch.
    pub open spec fn is_template(self, merchant_id: Seq<char>) -> bool {
        &&& self.merchant_id@ == merchant_id
        &&& holds_text(self.return_url, "www.google.co.in"@)
        &&& self.enable_payment_response_hash == false
        &&& holds_text(self.payment_response_hash_key, "hash"@)
        &&& self.redirect_to_merchant_with_http_post == true
        &&& holds_text(self.merchant_name, "kaps"@)
        &&& self.merchant_details is None
        &&& holds_text(self.webhook_details, "callback_url"@)
        &&& self.sub_merchants_enabled is None
        &&& self.parent_merchant_id is None
        &&& holds_text(self.publishable_key, PUBLISHABLE_KEY@)
        &&& self.storage_scheme@ == "cassandra"@
        &&& self.locker_id is None
        &&& self.metadata is None
        &&& holds_text(self.routing_algorithm, large_value_text())
        &&& self.primary_business_details@ == large_value_text()
        &&& self.intent_fulfillment_time is None
        &&& self.created_at == 0
        &&& self.modified_at == 0
        &&& holds_text(self.frm_routing_algorithm, large_value_text())
        &&& holds_text(self.payout_routing_algorithm, large_value_text())
        &&& self.organization_id@ == "kaps"@
        &&& self.is_recon_enabled == false
        &&& self.default_profile is None
        &&& self.recon_status@ == "NONE"@
        &&& holds_text(self.payment_link_config, "link_config"@)
        &&& self.pm_collect_link_config is None
    }

    /// What the stock account of the given merchant holds.
    pub open spec fn stock_view(merchant_id: Seq<char>) -> MerchantAccountView {
        MerchantAccountView {
            merchant_id,
            return_url: Some("www.google.co.in"@),
            enable_payment_response_hash: false,
            payment_response_hash_key: Some("hash"@),
            redirect_to_merchant_with_http_post: true,
            merchant_name: Some("kaps"@),
            merchant_details: None,
            webhook_details: Some("callback_url"@),
            sub_merchants_enabled: None,
            parent_merchant_id: None,
            publishable_key: Some(PUBLISHABLE_KEY@),
            storage_scheme: "cassandra"@,
            locker_id: None,
            metadata: None,
            routing_algorithm: Some(large_value_text()),
            primary_business_details: large_value_text(),
            intent_fulfillment_time: None,
            created_at: 0,
            modified_at: 0,
            frm_routing_algorithm: Some(large_value_text()),
            payout_routing_algorithm: Some(large_value_text()),
            organization_id: "kaps"@,
            is_recon_enabled: false,
            default_profile: None,
            recon_status: "NONE"@,
            payment_link_config: Some("link_config"@),
            pm_collect_link_config: None,
        }
    }

    /// A stock account holds what the stock account of its merchant holds.
    pub proof fn lemma_stock_view(self, merchant_id: Seq<char>)
        requires
            self.is_template(merchant_id),
        ensures
            self@ == Self::stock_view(merchant_id),
    {
    }

    /// The stock account of the merchant `merchant_id`.
    pub fn new(merchant_id: String) -> (r: Self)
        ensures
            r.is_template(merchant_id@),
    {
        MerchantAccount {
            merchant_id,
            return_url: Some("www.google.co.in".to_owned()),
            enable_payment_response_hash: false,
            payment_response_hash_key: Some("hash".to_owned()),
            redirect_to_merchant_with_http_post: true,
            merchant_name: Some("kaps".to_owned()),
            merchant_details: None,
            webhook_details: Some("callback_url".to_owned()),
            sub_merchants_enabled: None,
            parent_merchant_id: None,
            publishable_key: Some(PUBLISHABLE_KEY.to_owned()),
            storage_scheme: "cassandra".to_owned(),
            locker_id: None,
            metadata: None,
            routing_algorithm: Some(LARGE_VALUE.to_owned()),
            primary_business_details: LARGE_VALUE.to_owned(),
            intent_fulfillment_time: None,
            created_at: 0,
            modified_at: 0,
            frm_routing_algorithm: Some(LARGE_VALUE.to_owned()),
            payout_routing_algorithm: Some(LARGE_VALUE.to_owned()),
            organization_id: "kaps".to_owned(),
            is_recon_enabled: false,
            default_profile: None,
            recon_status: "NONE".to_owned(),
            payment_link_config: Some("link_config".to_owned()),
            pm_collect_link_config: None,
        }
    }
}

/// A customer of a merchant. Times are in milliseconds since the Unix epoch.
#[derive(Debug)]
pub struct Customer {
    pub id: i32,
    pub customer_id: String,
    pub merchant_id: String,
    pub name: Option<String>,
    pub email: Option<String>,
    pub phone: Option<String>,
    pub phone_country_code: Option<String>,
    pub description: Option<String>,
    pub created_at: i64,
    pub metadata: Option<String>,
    pub connector_customer: Option<String>,
    pub modified_at: i64,
    pub address_id: Option<String>,
    pub default_payment_method_id: Option<String>,
    pub updated_by: Option<String>,
}

} // verus!
