//! The values that payment records carry besides plain numbers and strings:
//! calendar times, JSON documents and mandate data.

use crate::enums::Currency;
use vstd::prelude::*;

verus! {

/// A calendar date and time of day, without a time zone.
#[derive(Clone, Copy, Debug, PartialEq, Eq, Structural)]
pub struct DateTime {
    pub year: i32,
    pub month: u8,
    pub day: u8,
    pub hour: u8,
    pub minute: u8,
    pub second: u8,
    pub nanosecond: u32,
}

/// Whether `year` is a leap year of the Gregorian calendar.
pub open spec fn is_leap_year(year: int) -> bool {
    year % 4 == 0 && (year % 100 != 0 || year % 400 == 0)
}

/// The number of days of a month; zero if `month` is none of 1 to 12.
pub open spec fn days_in_month(year: int, month: int) -> int {
    if month == 2 {
        if is_leap_year(year) {
            29
        } else {
            28
        }
    } else if month == 4 || month == 6 || month == 9 || month == 11 {
        30
    } else if 1 <= month <= 12 {
        31
    } else {
        0
    }
}

impl DateTime {
    /// Whether the fields name a moment that exists: a year of at most four
    /// digits, a day that its month has, and a time of day.
    pub open spec fn is_valid(self) -> bool {
        &&& -9999 <= self.year <= 9999
        &&& 1 <= self.month <= 12
        &&& 1 <= self.day <= days_in_month(self.year as int, self.month as int)
        &&& self.hour < 24
        &&& self.minute < 60
        &&& self.second < 60
        &&& self.nanosecond < 1_000_000_000
    }

    /// The last moment that can be written down.
    pub open spec fn spec_max() -> DateTime {
        DateTime {
            year: 9999,
            month: 12,
            day: 31,
            hour: 23,
            minute: 59,
            second: 59,
            nanosecond: 999_999_999,
        }
    }

    /// The last moment that can be written down: the end of the year 9999.
    pub fn max() -> (d: DateTime)
        ensures
            d == Self::spec_max(),
            d.is_valid(),
    {
        DateTime {
            year: 9999,
            month: 12,
            day: 31,
            hour: 23,
            minute: 59,
            second: 59,
            nanosecond: 999_999_999,
        }
    }

    /// Whether the fields name a moment that exists.
    pub fn valid(&self) -> (b: bool)
        ensures
            b == self.is_valid(),
    {
        if self.year < -9999 || self.year > 9999 {
            return false;
        }
        if self.month < 1 || self.month > 12 || self.day < 1 {
            return false;
        }
        let leap = self.year % 4 == 0 && (self.year % 100 != 0 || self.year % 400 == 0);
        let days: u8 = if self.month == 2 {
            if leap {
                29
            } else {
                28
            }
        } else if self.month == 4 || self.month == 6 || self.month == 9 || self.month == 11 {
            30
        } else {
            31
        };
        self.day <= days && self.hour < 24 && self.minute < 60 && self.second < 60
            && self.nanosecond < 1_000_000_000
    }
}

/// A JSON document, held as its text. The library never looks inside.
#[derive(Debug)]
pub struct JsonText {
    pub text: String,
}

impl View for JsonText {
    type V = Seq<char>;

    open spec fn view(&self) -> Seq<char> {
        self.text@
    }
}

impl JsonText {
    /// A copy of the document.
    pub fn duplicate(&self) -> (r: JsonText)
        ensures
            r@ == self@,
    {
        JsonText { text: self.text.clone() }
    }
}

/// The texts of a list of documents.
pub open spec fn texts(docs: Seq<JsonText>) -> Seq<Seq<char>> {
    docs.map_values(|d: JsonText| d@)
}

/// A copy of a list of documents.
pub fn duplicate_documents(docs: &Vec<JsonText>) -> (r: Vec<JsonText>)
    ensures
        texts(r@) == texts(docs@),
{
    let mut r: Vec<JsonText> = Vec::new();
    let mut i: usize = 0;
    while i < docs.len()
        invariant
            i <= docs.len(),
            r@.len() == i,
            forall|j: int| 0 <= j < i ==> r@[j]@ == docs@[j]@,
        decreases docs.len() - i,
    {
        r.push(docs[i].duplicate());
        i = i + 1;
    }
    assert(texts(r@) =~= texts(docs@));
    r
}

/// The text of the sample document that fills the metadata fields of new
/// records: the description of a merchant, with contact details, address,
/// webhook settings and routing, in compact form with sorted keys.
pub const LARGE_VALUE: &'static str =
    "{\"locker_id\":\"m0010\",\"merchant_details\":{\"about_business\":\"Online Retail with a wide selection of organic products for North America\",\"address\":{\"city\":\"San Fransico\",\"country\":\"US\",\"line1\":\"1467\",\"line2\":\"Harrison Street\",\"line3\":\"Harrison Street\",\"state\":\"California\",\"zip\":\"94122\"},\"primary_contact_person\":\"John Test\",\"primary_email\":\"JohnTest@test.com\",\"primary_phone\":\"sunt laborum\",\"secondary_contact_person\":\"John Test2\",\"secondary_email\":\"JohnTest2@test.com\",\"secondary_phone\":\"cillum do dolor id\",\"website\":\"www.example.com\"},\"merchant_id\":\"merchantasd\",\"merchant_name\":\"NewAge Retailer\",\"metadata\":{\"city\":\"NY\",\"unit\":\"245\"},\"primary_business_details\":[{\"business\":\"default\",\"country\":\"US\"}],\"return_url\":\"https://google.com/success\",\"routing_algorithm\":{\"data\":\"stripe\",\"type\":\"single\"},\"sub_merchants_enabled\":false,\"webhook_details\":{\"payment_created_enabled\":true,\"payment_failed_enabled\":true,\"payment_succeeded_enabled\":true,\"webhook_password\":\"password_ekart@123\",\"webhook_username\":\"ekart_retail\",\"webhook_version\":123124.12312412}}";

/// The text of the sample document.
pub open spec fn large_value_text() -> Seq<char> {
    LARGE_VALUE@
}

/// A sizeable JSON document. New records carry it in their metadata fields,
/// so that they have a realistic size.
pub fn get_large_value() -> (v: JsonText)
    ensures
        v@ == large_value_text(),
{
    JsonText { text: LARGE_VALUE.to_owned() }
}

/// The limits of a mandate.
#[derive(Debug)]
pub struct MandateAmountData {
    pub amount: i64,
    pub currency: Currency,
    pub start_date: Option<DateTime>,
    pub end_date: Option<DateTime>,
    pub metadata: Option<JsonText>,
}

/// What [`MandateAmountData`] holds, with the metadata as text.
pub struct MandateAmountView {
    pub amount: i64,
    pub currency: Currency,
    pub start_date: Option<DateTime>,
    pub end_date: Option<DateTime>,
    pub metadata: Option<Seq<char>>,
}

impl View for MandateAmountData {
    type V = MandateAmountView;

    open spec fn view(&self) -> MandateAmountView {
        MandateAmountView {
            amount: self.amount,
            currency: self.currency,
            start_date: self.start_date,
            end_date: self.end_date,
            metadata: match self.metadata {
                Some(m) => Some(m@),
                None => None,
            },
        }
    }
}

impl MandateAmountData {
    /// A copy of the limits.
    pub fn duplicate(&self) -> (r: MandateAmountData)
        ensures
            r@ == self@,
    {
        MandateAmountData {
            amount: self.amount,
            currency: self.currency,
            start_date: self.start_date,
            end_date: self.end_date,
            metadata: match &self.metadata {
                Some(m) => Some(m.duplicate()),
                None => None,
            },
        }
    }
}

/// A mandate for one payment or for many.
#[derive(Debug)]
pub enum MandateDataType {
    SingleUse(MandateAmountData),
    MultiUse(Option<MandateAmountData>),
}

/// What [`MandateDataType`] holds, with the metadata as text.
pub enum MandateView {
    SingleUse(MandateAmountView),
    MultiUse(Option<MandateAmountView>),
}

impl View for MandateDataType {
    type V = MandateView;

    open spec fn view(&self) -> MandateView {
        match self {
            MandateDataType::SingleUse(a) => MandateView::SingleUse(a@),
            MandateDataType::MultiUse(Some(a)) => MandateView::MultiUse(Some(a@)),
            MandateDataType::MultiUse(None) => MandateView::MultiUse(None),
        }
    }
}

impl MandateDataType {
    /// A copy of the mandate.
    pub fn duplicate(&self) -> (r: MandateDataType)
        ensures
            r@ == self@,
    {
        match self {
            MandateDataType::SingleUse(a) => MandateDataType::SingleUse(a.duplicate()),
            MandateDataType::MultiUse(Some(a)) => MandateDataType::MultiUse(Some(a.duplicate())),
            MandateDataType::MultiUse(None) => MandateDataType::MultiUse(None),
        }
    }
}

/// A reference to the mandate that a payment updates.
#[derive(Debug)]
pub struct MandateDetails {
    pub update_mandate_id: Option<String>,
}

impl View for MandateDetails {
    type V = Option<Seq<char>>;

    open spec fn view(&self) -> Option<Seq<char>> {
        match self.update_mandate_id {
            Some(id) => Some(id@),
            None => None,
        }
    }
}

impl MandateDetails {
    /// A copy of the reference.
    pub fn duplicate(&self) -> (r: MandateDetails)
        ensures
            r@ == self@,
    {
        MandateDetails {
            update_mandate_id: match &self.update_mandate_id {
                Some(id) => Some(id.clone()),
                None => None,
            },
        }
    }
}

/// The text that fills the free-text fields of new records.
pub const FILLER: &'static str = "randomeString12412953w23421";

/// The text of an optional string, if it is there.
pub open spec fn text_view(field: Option<String>) -> Option<Seq<char>> {
    match field {
        Some(s) => Some(s@),
        None => None,
    }
}

/// Whether an optional string is there and reads `text`.
pub open spec fn holds_text(field: Option<String>, text: Seq<char>) -> bool {
    field matches Some(s) && s@ == text
}

/// Whether an optional document is there and reads `text`.
pub open spec fn holds_document(field: Option<JsonText>, text: Seq<char>) -> bool {
    field matches Some(d) && d@ == text
}

} // verus!
