//! Statements of the query language, with their bound parameters.
//!
//! A statement is a query text with one parameter for each `?` in it. The
//! parameters are bound by position. What is bound is kept as a typed value;
//! values that the tables store as JSON text are kept as they are and turned
//! into text by whoever sends the statement.

use crate::enums::{
    AttemptStatus, AuthenticationType, CaptureMethod, Currency, PaymentExperience, PaymentMethod,
    PaymentMethodType,
};
use crate::payload::{
    duplicate_documents, texts, DateTime, JsonText, MandateDataType, MandateDetails, MandateView,
};
use crate::text::{count_char, occurrences};
use vstd::prelude::*;

verus! {

/// A value that a table stores as JSON text.
#[derive(Debug)]
pub enum Encodable {
    Status(AttemptStatus),
    Currency(Currency),
    Method(PaymentMethod),
    Capture(CaptureMethod),
    Authentication(AuthenticationType),
    Experience(PaymentExperience),
    MethodType(PaymentMethodType),
    Time(DateTime),
    Document(JsonText),
    Documents(Vec<JsonText>),
    Mandate(MandateDataType),
    MandateRef(MandateDetails),
}

/// What an [`Encodable`] holds, with strings as sequences of characters.
pub enum EncodableView {
    Status(AttemptStatus),
    Currency(Currency),
    Method(PaymentMethod),
    Capture(CaptureMethod),
    Authentication(AuthenticationType),
    Experience(PaymentExperience),
    MethodType(PaymentMethodType),
    Time(DateTime),
    Document(Seq<char>),
    Documents(Seq<Seq<char>>),
    Mandate(MandateView),
    MandateRef(Option<Seq<char>>),
}

impl View for Encodable {
    type V = EncodableView;

    open spec fn view(&self) -> EncodableView {
        match self {
            Encodable::Status(v) => EncodableView::Status(*v),
            Encodable::Currency(v) => EncodableView::Currency(*v),
            Encodable::Method(v) => EncodableView::Method(*v),
            Encodable::Capture(v) => EncodableView::Capture(*v),
            Encodable::Authentication(v) => EncodableView::Authentication(*v),
            Encodable::Experience(v) => EncodableView::Experience(*v),
            Encodable::MethodType(v) => EncodableView::MethodType(*v),
            Encodable::Time(v) => EncodableView::Time(*v),
            Encodable::Document(v) => EncodableView::Document(v@),
            Encodable::Documents(v) => EncodableView::Documents(texts(v@)),
            Encodable::Mandate(v) => EncodableView::Mandate(v@),
            Encodable::MandateRef(v) => EncodableView::MandateRef(v@),
        }
    }
}

/// The value of one parameter of a statement.
#[derive(Debug)]
pub enum Bind {
    /// Nothing was bound yet.
    Unset,
    /// The null value.
    Null,
    Text(String),
    BigInt(i64),
    Int(i32),
    SmallInt(i16),
    Bool(bool),
    /// A value to be stored as its JSON text.
    Json(Encodable),
}

/// What a [`Bind`] holds, with strings as sequences of characters.
pub enum BindView {
    Unset,
    Null,
    Text(Seq<char>),
    BigInt(i64),
    Int(i32),
    SmallInt(i16),
    Bool(bool),
    Json(EncodableView),
}

impl View for Bind {
    type V = BindView;

    open spec fn view(&self) -> BindView {
        match self {
            Bind::Unset => BindView::Unset,
            Bind::Null => BindView::Null,
            Bind::Text(s) => BindView::Text(s@),
            Bind::BigInt(v) => BindView::BigInt(*v),
            Bind::Int(v) => BindView::Int(*v),
            Bind::SmallInt(v) => BindView::SmallInt(*v),
            Bind::Bool(v) => BindView::Bool(*v),
            Bind::Json(e) => BindView::Json(e@),
        }
    }
}

/// The values of a list of parameters.
pub open spec fn bind_views(binds: Seq<Bind>) -> Seq<BindView> {
    binds.map_values(|b: Bind| b@)
}

/// A type whose values a table stores as JSON text.
pub trait Encode {
    /// The value, ready to be bound.
    spec fn encoding(&self) -> EncodableView;

    /// The value, ready to be bound.
    fn encode(&self) -> (e: Encodable)
        ensures
            e@ == self.encoding(),
    ;
}

impl Encode for AttemptStatus {
    open spec fn encoding(&self) -> EncodableView {
        EncodableView::Status(*self)
    }

    fn encode(&self) -> (e: Encodable) {
        Encodable::Status(*self)
    }
}

impl Encode for Currency {
    open spec fn encoding(&self) -> EncodableView {
        EncodableView::Currency(*self)
    }

    fn encode(&self) -> (e: Encodable) {
        Encodable::Currency(*self)
    }
}

impl Encode for PaymentMethod {
    open spec fn encoding(&self) -> EncodableView {
        EncodableView::Method(*self)
    }

    fn encode(&self) -> (e: Encodable) {
        Encodable::Method(*self)
    }
}

impl Encode for CaptureMethod {
    open spec fn encoding(&self) -> EncodableView {
        EncodableView::Capture(*self)
    }

    fn encode(&self) -> (e: Encodable) {
        Encodable::Capture(*self)
    }
}

impl Encode for AuthenticationType {
    open spec fn encoding(&self) -> EncodableView {
        EncodableView::Authentication(*self)
    }

    fn encode(&self) -> (e: Encodable) {
        Encodable::Authentication(*self)
    }
}

impl Encode for PaymentExperience {
    open spec fn encoding(&self) -> EncodableView {
        EncodableView::Experience(*self)
    }

    fn encode(&self) -> (e: Encodable) {
        Encodable::Experience(*self)
    }
}

impl Encode for PaymentMethodType {
    open spec fn encoding(&self) -> EncodableView {
        EncodableView::MethodType(*self)
    }

    fn encode(&self) -> (e: Encodable) {
        Encodable::MethodType(*self)
    }
}

impl Encode for DateTime {
    open spec fn encoding(&self) -> EncodableView {
        EncodableView::Time(*self)
    }

    fn encode(&self) -> (e: Encodable) {
        Encodable::Time(*self)
    }
}

impl Encode for JsonText {
    open spec fn encoding(&self) -> EncodableView {
        EncodableView::Document(self@)
    }

    fn encode(&self) -> (e: Encodable) {
        Encodable::Document(self.duplicate())
    }
}

impl Encode for Vec<JsonText> {
    open spec fn encoding(&self) -> EncodableView {
        EncodableView::Documents(texts(self@))
    }

    fn encode(&self) -> (e: Encodable) {
        Encodable::Documents(duplicate_documents(self))
    }
}

impl Encode for MandateDataType {
    open spec fn encoding(&self) -> EncodableView {
        EncodableView::Mandate(self@)
    }

    fn encode(&self) -> (e: Encodable) {
        Encodable::Mandate(self.duplicate())
    }
}

impl Encode for MandateDetails {
    open spec fn encoding(&self) -> EncodableView {
        EncodableView::MandateRef(self@)
    }

    fn encode(&self) -> (e: Encodable) {
        Encodable::MandateRef(self.duplicate())
    }
}

/// A type whose values are bound as they are.
pub trait Scalar {
    /// The value, ready to be bound.
    spec fn binding(&self) -> BindView;

    /// The value, ready to be bound.
    fn to_bind(&self) -> (b: Bind)
        ensures
            b@ == self.binding(),
    ;
}

impl Scalar for i64 {
    open spec fn binding(&self) -> BindView {
        BindView::BigInt(*self)
    }

    fn to_bind(&self) -> (b: Bind) {
        Bind::BigInt(*self)
    }
}

impl Scalar for i32 {
    open spec fn binding(&self) -> BindView {
        BindView::Int(*self)
    }

    fn to_bind(&self) -> (b: Bind) {
        Bind::Int(*self)
    }
}

impl Scalar for i16 {
    open spec fn binding(&self) -> BindView {
        BindView::SmallInt(*self)
    }

    fn to_bind(&self) -> (b: Bind) {
        Bind::SmallInt(*self)
    }
}

impl Scalar for bool {
    open spec fn binding(&self) -> BindView {
        BindView::Bool(*self)
    }

    fn to_bind(&self) -> (b: Bind) {
        Bind::Bool(*self)
    }
}

/// What is bound for a string.
pub open spec fn text_of(s: Seq<char>) -> BindView {
    BindView::Text(s)
}

/// What is bound for an optional JSON value: the value, or null.
pub open spec fn json_or_null<T: Encode>(data: Option<T>) -> BindView {
    match data {
        Some(v) => BindView::Json(v.encoding()),
        None => BindView::Null,
    }
}

/// What is bound for an optional string: the string, or null.
pub open spec fn text_or_null(data: Option<String>) -> BindView {
    match data {
        Some(s) => BindView::Text(s@),
        None => BindView::Null,
    }
}

/// What is bound for an optional plain value: the value, or null.
pub open spec fn scalar_or_null<T: Scalar>(data: Option<T>) -> BindView {
    match data {
        Some(v) => v.binding(),
        None => BindView::Null,
    }
}

impl Bind {
    /// A string, to be bound as text.
    pub fn text(s: &String) -> (b: Bind)
        ensures
            b@ == text_of(s@),
    {
        Bind::Text(s.clone())
    }

    /// A value to be stored as its JSON text.
    pub fn json<T: Encode>(value: &T) -> (b: Bind)
        ensures
            b@ == BindView::Json(value.encoding()),
    {
        Bind::Json(value.encode())
    }

    /// An optional JSON value: the value, or null.
    pub fn json_opt<T: Encode>(data: &Option<T>) -> (b: Bind)
        ensures
            b@ == json_or_null(*data),
    {
        match data {
            Some(v) => Bind::Json(v.encode()),
            None => Bind::Null,
        }
    }

    /// An optional string: the string, or null.
    pub fn text_opt(data: &Option<String>) -> (b: Bind)
        ensures
            b@ == text_or_null(*data),
    {
        match data {
            Some(s) => Bind::Text(s.clone()),
            None => Bind::Null,
        }
    }

    /// An optional plain value: the value, or null.
    pub fn scalar_opt<T: Scalar>(data: &Option<T>) -> (b: Bind)
        ensures
            b@ == scalar_or_null(*data),
    {
        match data {
            Some(v) => v.to_bind(),
            None => Bind::Null,
        }
    }
}

/// A copy of an optional string: bound, it gives the same value.
pub fn copy_text(data: &Option<String>) -> (r: Option<String>)
    ensures
        text_or_null(r) == text_or_null(*data),
{
    match data {
        Some(s) => Some(s.clone()),
        None => None,
    }
}

/// A copy of an optional document: bound, it gives the same value.
pub fn copy_document(data: &Option<JsonText>) -> (r: Option<JsonText>)
    ensures
        json_or_null(r) == json_or_null(*data),
{
    match data {
        Some(d) => Some(d.duplicate()),
        None => None,
    }
}

/// A copy of an optional list of documents: bound, it gives the same value.
pub fn copy_documents(data: &Option<Vec<JsonText>>) -> (r: Option<Vec<JsonText>>)
    ensures
        json_or_null(r) == json_or_null(*data),
{
    match data {
        Some(d) => Some(duplicate_documents(d)),
        None => None,
    }
}

/// How many replicas have to answer before an operation counts as done.
#[derive(Clone, Copy, Debug, PartialEq, Eq, Structural)]
pub enum Consistency {
    One,
    LocalQuorum,
    EachQuorum,
}

/// Why a parameter could not be bound.
#[derive(Clone, Copy, Debug, PartialEq, Eq, Structural)]
pub enum BindError {
    /// The statement has no parameter at that position.
    IndexOutOfBounds,
}

/// A query with its parameters.
#[derive(Debug)]
pub struct Statement {
    /// The query text; each `?` in it stands for one parameter.
    pub query: String,
    /// The parameters, in the order of their `?`.
    pub params: Vec<Bind>,
    /// The consistency level asked for, if any was set.
    pub consistency: Option<Consistency>,
}

/// What a [`Statement`] holds, with strings as sequences of characters.
pub struct StatementView {
    pub query: Seq<char>,
    pub params: Seq<BindView>,
    pub consistency: Option<Consistency>,
}

impl View for Statement {
    type V = StatementView;

    open spec fn view(&self) -> StatementView {
        StatementView {
            query: self.query@,
            params: bind_views(self.params@),
            consistency: self.consistency,
        }
    }
}

/// The number of parameters of a query: one for each `?` in its text.
pub open spec fn placeholders(query: Seq<char>) -> nat {
    occurrences(query, '?')
}

/// A statement for `query` to which nothing was bound yet.
pub open spec fn fresh_statement(query: Seq<char>) -> StatementView {
    StatementView {
        query,
        params: Seq::new(placeholders(query), |i: int| BindView::Unset),
        consistency: None,
    }
}

/// Binding `value` at position `loc`: the statement after it, and whether
/// the position exists. A statement without that position stays as it is.
pub open spec fn spec_bind(s: StatementView, loc: int, value: BindView) -> (
    StatementView,
    Result<(), BindError>,
) {
    if 0 <= loc < s.params.len() {
        (StatementView { params: s.params.update(loc, value), ..s }, Ok(()))
    } else {
        (s, Err(BindError::IndexOutOfBounds))
    }
}

/// Binding the values of `row` at the positions 0, 1, 2 and so on, until a
/// position does not exist: the statement after it, and whether all of the
/// row was bound.
pub open spec fn spec_bind_row(s: StatementView, row: Seq<BindView>) -> (
    StatementView,
    Result<(), BindError>,
) {
    (
        StatementView {
            params: Seq::new(
                s.params.len(),
                |i: int|
                    if i < row.len() {
                        row[i]
                    } else {
                        s.params[i]
                    },
            ),
            ..s
        },
        if row.len() <= s.params.len() {
            Ok(())
        } else {
            Err(BindError::IndexOutOfBounds)
        },
    )
}

/// Binding the values of `row` one after the other, the value number `from`
/// first, each at the position of its number, and stopping at the first that
/// cannot be bound.
pub open spec fn bind_in_turn(s: StatementView, row: Seq<BindView>, from: int) -> (
    StatementView,
    Result<(), BindError>,
)
    decreases row.len() - from,
{
    if from < 0 || from >= row.len() {
        (s, Ok(()))
    } else {
        let (next, r) = spec_bind(s, from, row[from]);
        if r is Err {
            (s, r)
        } else {
            bind_in_turn(next, row, from + 1)
        }
    }
}

/// What binding in turn from the value number `from` on comes to.
proof fn lemma_bind_in_turn_from(s: StatementView, row: Seq<BindView>, from: int)
    requires
        0 <= from,
    ensures
        bind_in_turn(s, row, from) == (
            StatementView {
                params: Seq::new(
                    s.params.len(),
                    |i: int|
                        if from <= i < row.len() {
                            row[i]
                        } else {
                            s.params[i]
                        },
                ),
                ..s
            },
            if from < row.len() && s.params.len() < row.len() {
                Err::<(), BindError>(BindError::IndexOutOfBounds)
            } else {
                Ok::<(), BindError>(())
            },
        ),
    decreases row.len() - from,
{
    let all = Seq::new(
        s.params.len(),
        |i: int|
            if from <= i < row.len() {
                row[i]
            } else {
                s.params[i]
            },
    );
    if from >= row.len() {
        assert(all =~= s.params);
    } else {
        let (next, r) = spec_bind(s, from, row[from]);
        if r is Err {
            assert(all =~= s.params);
        } else {
            lemma_bind_in_turn_from(next, row, from + 1);
            assert(bind_in_turn(s, row, from).0.params =~= all);
        }
    }
}

/// Binding a row is binding its values one after the other, from the first
/// on, until one cannot be bound.
pub proof fn lemma_bind_row_is_bind_in_turn(s: StatementView, row: Seq<BindView>)
    ensures
        spec_bind_row(s, row) == bind_in_turn(s, row, 0),
{
    lemma_bind_in_turn_from(s, row, 0);
    assert(spec_bind_row(s, row).0.params =~= bind_in_turn(s, row, 0).0.params);
}

impl Statement {
    /// A statement for `query`, with one unset parameter for each `?`.
    pub fn new(query: String) -> (s: Statement)
        ensures
            s@ == fresh_statement(query@),
    {
        let count = count_char(query.as_str(), '?');
        let mut params: Vec<Bind> = Vec::new();
        let mut i: usize = 0;
        while i < count
            invariant
                i <= count,
                params@.len() == i,
                forall|j: int| 0 <= j < i ==> params@[j]@ == BindView::Unset,
            decreases count - i,
        {
            params.push(Bind::Unset);
            i = i + 1;
        }
        let s = Statement { query, params, consistency: None };
        assert(s@.params =~= fresh_statement(query@).params);
        s
    }

    /// Binds `value` at position `loc`. Fails, and leaves the statement as
    /// it is, if the query has no parameter there.
    pub fn bind(&mut self, loc: usize, value: Bind) -> (r: Result<(), BindError>)
        ensures
            (final(self)@, r) == spec_bind(old(self)@, loc as int, value@),
    {
        if loc < self.params.len() {
            self.params.set(loc, value);
            assert(self@.params =~= old(self)@.params.update(loc as int, value@));
            Ok(())
        } else {
            Err(BindError::IndexOutOfBounds)
        }
    }

    /// Binds null at position `loc`.
    pub fn bind_null(&mut self, loc: usize) -> (r: Result<(), BindError>)
        ensures
            (final(self)@, r) == spec_bind(old(self)@, loc as int, BindView::Null),
    {
        self.bind(loc, Bind::Null)
    }

    /// Sets the consistency level that the statement asks for.
    pub fn set_consistency(&mut self, level: Consistency)
        ensures
            final(self)@ == (StatementView { consistency: Some(level), ..old(self)@ }),
    {
        self.consistency = Some(level);
    }

    /// Binds the values of `row` at the positions 0, 1, 2 and so on. Values
    /// for which the query has no parameter are left out, and the call fails
    /// then; the others are bound all the same.
    pub fn bind_row(&mut self, row: Vec<Bind>) -> (r: Result<(), BindError>)
        ensures
            (final(self)@, r) == spec_bind_row(old(self)@, bind_views(row@)),
    {
        let ghost values = bind_views(row@);
        let total = row.len();
        let mut row = row;
        let mut bound: usize = 0;
        // Values are taken from the back of `row`: the positions are walked
        // from the last to the first, and a bind without a parameter is a
        // no-op.
        let mut pos: usize = total;
        while pos > 0
            invariant
                pos <= total,
                row@.len() == pos,
                bind_views(row@) == values.take(pos as int),
                values.len() == total,
                self@.query == old(self)@.query,
                self@.consistency == old(self)@.consistency,
                self@.params.len() == old(self)@.params.len(),
                forall|i: int|
                    0 <= i < self@.params.len() ==> self@.params[i] == if pos <= i < total {
                        values[i]
                    } else {
                        old(self)@.params[i]
                    },
            decreases pos,
        {
            let ghost before = bind_views(row@);
            let value = row.pop().unwrap();
            pos = pos - 1;
            proof {
                assert(before[pos as int] == value@);
                assert(bind_views(row@) =~= values.take(pos as int));
            }
            let ghost prior = self@;
            let _ = self.bind(pos, value);
            assert(self@.params.len() == prior.params.len());
        }
        assert(self@.params =~= spec_bind_row(old(self)@, values).0.params);
        if total <= self.params.len() {
            Ok(())
        } else {
            Err(BindError::IndexOutOfBounds)
        }
    }
}

/// The JSON text of a value, as a parameter.
pub fn enum_parse<T: Encode>(em: &T) -> (b: Bind)
    ensures
        b@ == BindView::Json(em.encoding()),
{
    Bind::json(em)
}

/// Binds an optional JSON value at position `loc`: the value, or null.
pub fn for_opt<T: Encode>(stat: &mut Statement, data: &Option<T>, loc: usize) -> (r: Result<
    (),
    BindError,
>)
    ensures
        (final(stat)@, r) == spec_bind(old(stat)@, loc as int, json_or_null(*data)),
{
    match data {
        Some(val) => stat.bind(loc, enum_parse(val)),
        None => stat.bind_null(loc),
    }
}

/// Binds an optional string at position `loc`: the string, or null.
pub fn opt_string(stat: &mut Statement, data: &Option<String>, loc: usize) -> (r: Result<
    (),
    BindError,
>)
    ensures
        (final(stat)@, r) == spec_bind(old(stat)@, loc as int, text_or_null(*data)),
{
    match data {
        Some(val) => stat.bind(loc, Bind::text(val)),
        None => stat.bind_null(loc),
    }
}

/// Binds an optional plain value at position `loc`: the value, or null.
pub fn e_for_opt<T: Scalar>(stat: &mut Statement, data: &Option<T>, loc: usize) -> (r: Result<
    (),
    BindError,
>)
    ensures
        (final(stat)@, r) == spec_bind(old(stat)@, loc as int, scalar_or_null(*data)),
{
    match data {
        Some(val) => stat.bind(loc, val.to_bind()),
        None => stat.bind_null(loc),
    }
}

} // verus!
