//! Typed columns and the helpers that build them from plain vectors.
use vstd::prelude::*;
use vstd::string::{StrSliceExecFns, StringSliceAdditionalSpecFns};

verus! {

/// A column of values of one type. Floating-point values are held as their
/// IEEE-754 bit patterns.
#[derive(Debug, PartialEq, Eq)]
pub enum Column {
    Int8(Vec<i8>),
    Int16(Vec<i16>),
    Int32(Vec<i32>),
    Int64(Vec<i64>),
    UInt8(Vec<u8>),
    UInt16(Vec<u16>),
    UInt32(Vec<u32>),
    UInt64(Vec<u64>),
    Float32(Vec<u32>),
    Float64(Vec<u64>),
    Boolean(Vec<bool>),
    Text(Vec<Vec<u8>>),
    Timestamp(Vec<i64>),
    Date(Vec<i32>),
    Nullable(Box<NullableColumn>),
}

/// A column with a validity flag per row: `false` marks a null.
#[derive(Debug, PartialEq, Eq)]
pub struct NullableColumn {
    pub column: Column,
    pub validity: Vec<bool>,
}

/// Mathematical model of a [`Column`].
pub enum ColumnView {
    Int8(Seq<i8>),
    Int16(Seq<i16>),
    Int32(Seq<i32>),
    Int64(Seq<i64>),
    UInt8(Seq<u8>),
    UInt16(Seq<u16>),
    UInt32(Seq<u32>),
    UInt64(Seq<u64>),
    Float32(Seq<u32>),
    Float64(Seq<u64>),
    Boolean(Seq<bool>),
    Text(Seq<Seq<u8>>),
    Timestamp(Seq<i64>),
    Date(Seq<i32>),
    Nullable(Box<ColumnView>, Seq<bool>),
}

pub open spec fn column_view(c: &Column) -> ColumnView
    decreases c,
{
    match c {
        Column::Int8(v) => ColumnView::Int8(v@),
        Column::Int16(v) => ColumnView::Int16(v@),
        Column::Int32(v) => ColumnView::Int32(v@),
        Column::Int64(v) => ColumnView::Int64(v@),
        Column::UInt8(v) => ColumnView::UInt8(v@),
        Column::UInt16(v) => ColumnView::UInt16(v@),
        Column::UInt32(v) => ColumnView::UInt32(v@),
        Column::UInt64(v) => ColumnView::UInt64(v@),
        Column::Float32(v) => ColumnView::Float32(v@),
        Column::Float64(v) => ColumnView::Float64(v@),
        Column::Boolean(v) => ColumnView::Boolean(v@),
        Column::Text(v) => ColumnView::Text(v@.map_values(|b: Vec<u8>| b@)),
        Column::Timestamp(v) => ColumnView::Timestamp(v@),
        Column::Date(v) => ColumnView::Date(v@),
        Column::Nullable(n) => ColumnView::Nullable(Box::new(column_view(&n.column)), n.validity@),
    }
}

impl View for Column {
    type V = ColumnView;

    open spec fn view(&self) -> ColumnView {
        column_view(self)
    }
}

/// Wraps `column` with the validity flags `validity`.
pub fn nullable(column: Column, validity: Vec<bool>) -> (r: Column)
    ensures
        r@ == ColumnView::Nullable(Box::new(column@), validity@),
{
    Column::Nullable(Box::new(NullableColumn { column, validity }))
}

/// The values of the present entries of `d`, in order.
pub open spec fn present_values(d: Seq<Option<i64>>) -> Seq<i64>
    decreases d.len(),
{
    if d.len() == 0 {
        seq![]
    } else {
        let rest = present_values(d.drop_last());
        match d.last() {
            Some(v) => rest.push(v),
            None => rest,
        }
    }
}

/// Whether each entry of `d` is present.
pub open spec fn presence<T>(d: Seq<Option<T>>) -> Seq<bool> {
    d.map_values(|x: Option<T>| x is Some)
}

/// A timestamp column of the values of `d`.
pub fn from_timestamp_data(d: Vec<i64>) -> (r: Column)
    ensures
        r@ == ColumnView::Timestamp(d@),
{
    Column::Timestamp(d)
}

/// A nullable timestamp column: one validity flag per entry of `d`, and the
/// present values, in order, as the inner column.
pub fn from_nullable_timestamp_data(d: Vec<Option<i64>>) -> (r: Column)
    ensures
        r@ == ColumnView::Nullable(Box::new(ColumnView::Timestamp(present_values(d@))), presence(d@)),
{
    let mut bitmap: Vec<bool> = Vec::new();
    let mut data: Vec<i64> = Vec::new();
    let mut i: usize = 0;
    while i < d.len()
        invariant
            i <= d.len(),
            bitmap@ == presence(d@.take(i as int)),
            data@ == present_values(d@.take(i as int)),
        decreases d.len() - i,
    {
        assert(d@.take(i + 1).drop_last() == d@.take(i as int));
        match d[i] {
            Some(v) => {
                bitmap.push(true);
                data.push(v);
            },
            None => {
                bitmap.push(false);
            },
        }
        assert(bitmap@ =~= presence(d@.take(i + 1)));
        i = i + 1;
    }
    assert(d@.take(d.len() as int) == d@);
    nullable(Column::Timestamp(data), bitmap)
}

/// A timestamp column of `d` with the validity flags `valids`.
pub fn from_timestamp_data_with_validity(d: Vec<i64>, valids: Vec<bool>) -> (r: Column)
    ensures
        r@ == ColumnView::Nullable(Box::new(ColumnView::Timestamp(d@)), valids@),
{
    let column = from_timestamp_data(d);
    nullable(column, valids)
}

/// A date column of the day numbers `d`.
pub fn from_date_data(d: Vec<i32>) -> (r: Column)
    ensures
        r@ == ColumnView::Date(d@),
{
    Column::Date(d)
}

/// A date column of `d` with the validity flags `valids`.
pub fn from_date_data_with_validity(d: Vec<i32>, valids: Vec<bool>) -> (r: Column)
    ensures
        r@ == ColumnView::Nullable(Box::new(ColumnView::Date(d@)), valids@),
{
    let column = from_date_data(d);
    nullable(column, valids)
}

/// Marker of 8-bit signed integer columns.
pub struct Int8Type;

/// Marker of 16-bit signed integer columns.
pub struct Int16Type;

/// Marker of 32-bit signed integer columns.
pub struct Int32Type;

/// Marker of 64-bit signed integer columns.
pub struct Int64Type;

/// Marker of 8-bit unsigned integer columns.
pub struct UInt8Type;

/// Marker of 16-bit unsigned integer columns.
pub struct UInt16Type;

/// Marker of 32-bit unsigned integer columns.
pub struct UInt32Type;

/// Marker of 64-bit unsigned integer columns.
pub struct UInt64Type;

/// Marker of 32-bit floating-point (as bit patterns) columns.
pub struct Float32Type;

/// Marker of 64-bit floating-point (as bit patterns) columns.
pub struct Float64Type;

/// Marker of boolean columns.
pub struct BooleanType;

/// Marker of string columns, held as UTF-8 bytes.
pub struct StringType;

/// The UTF-8 bytes of each string of `d`.
pub open spec fn utf8_of(d: Seq<&str>) -> Seq<Seq<u8>> {
    d.map_values(|s: &str| s.spec_bytes())
}

/// A string column of the strings of `d`.
fn text_column(d: &Vec<&str>) -> (r: Column)
    ensures
        r@ == ColumnView::Text(utf8_of(d@)),
{
    let mut out: Vec<Vec<u8>> = Vec::new();
    let mut i: usize = 0;
    while i < d.len()
        invariant
            i <= d.len(),
            out.len() == i,
            forall|j: int| 0 <= j < i ==> #[trigger] out[j]@ == d[j].spec_bytes(),
        decreases d.len() - i,
    {
        out.push(d[i].as_bytes_vec());
        i = i + 1;
    }
    let r = Column::Text(out);
    assert(out@.map_values(|b: Vec<u8>| b@) =~= utf8_of(d@));
    r
}

/// Marker of timestamp (microseconds) columns.
pub struct TimestampType;

/// Marker of date (days since the epoch) columns.
pub struct DateType;

/// Marker of nullable columns over the values of `T`.
#[verifier::reject_recursive_types(T)]
pub struct NullableType<T> {
    marker: std::marker::PhantomData<T>,
}

/// Each entry of `d`, with `default` in place of an absent one.
pub open spec fn filled<T>(d: Seq<Option<T>>, default: T) -> Seq<T> {
    d.map_values(|x: Option<T>| match x {
        Some(v) => v,
        None => default,
    })
}

/// Splits `d` into its values, `default` standing for absent ones, and
/// their validity flags.
pub fn fill_options<T: Copy>(d: &Vec<Option<T>>, default: T) -> (r: (Vec<T>, Vec<bool>))
    ensures
        r.0@ == filled(d@, default),
        r.1@ == presence(d@),
{
    let mut values: Vec<T> = Vec::new();
    let mut validity: Vec<bool> = Vec::new();
    let mut i: usize = 0;
    while i < d.len()
        invariant
            i <= d.len(),
            values@ == filled(d@.take(i as int), default),
            validity@ == presence(d@.take(i as int)),
        decreases d.len() - i,
    {
        match d[i] {
            Some(v) => {
                values.push(v);
                validity.push(true);
            },
            None => {
                values.push(default);
                validity.push(false);
            },
        }
        assert(values@ =~= filled(d@.take(i + 1), default));
        assert(validity@ =~= presence(d@.take(i + 1)));
        i = i + 1;
    }
    assert(d@.take(d.len() as int) == d@);
    (values, validity)
}

/// Builds a column of the type `Self` from data `D`; `Phantom` only tells
/// apart impls for different shapes of data.
pub trait FromData<D, Phantom: ?Sized>: Sized {
    /// The model of the column built from `d`.
    spec fn column_of(d: D) -> ColumnView;

    fn from_data(d: D) -> (r: Column)
        ensures
            r@ == Self::column_of(d),
    ;

    fn from_data_with_validity(d: D, valids: Vec<bool>) -> (r: Column)
        ensures
            r@ == ColumnView::Nullable(Box::new(Self::column_of(d)), valids@),
    {
        let column = Self::from_data(d);
        nullable(column, valids)
    }
}

impl FromData<Vec<i8>, [i8; 0]> for Int8Type {
    open spec fn column_of(d: Vec<i8>) -> ColumnView {
        ColumnView::Int8(d@)
    }

    fn from_data(d: Vec<i8>) -> (r: Column) {
        Column::Int8(d)
    }
}

impl FromData<Vec<Option<i8>>, [Option<i8>; 0]> for NullableType<Int8Type> {
    open spec fn column_of(d: Vec<Option<i8>>) -> ColumnView {
        ColumnView::Nullable(Box::new(ColumnView::Int8(filled(d@, 0))), presence(d@))
    }

    fn from_data(d: Vec<Option<i8>>) -> (r: Column) {
        let (values, validity) = fill_options(&d, 0);
        nullable(Column::Int8(values), validity)
    }
}

impl FromData<Vec<i16>, [i16; 0]> for Int16Type {
    open spec fn column_of(d: Vec<i16>) -> ColumnView {
        ColumnView::Int16(d@)
    }

    fn from_data(d: Vec<i16>) -> (r: Column) {
        Column::Int16(d)
    }
}

impl FromData<Vec<Option<i16>>, [Option<i16>; 0]> for NullableType<Int16Type> {
    open spec fn column_of(d: Vec<Option<i16>>) -> ColumnView {
        ColumnView::Nullable(Box::new(ColumnView::Int16(filled(d@, 0))), presence(d@))
    }

    fn from_data(d: Vec<Option<i16>>) -> (r: Column) {
        let (values, validity) = fill_options(&d, 0);
        nullable(Column::Int16(values), validity)
    }
}

impl FromData<Vec<i32>, [i32; 0]> for Int32Type {
    open spec fn column_of(d: Vec<i32>) -> ColumnView {
        ColumnView::Int32(d@)
    }

    fn from_data(d: Vec<i32>) -> (r: Column) {
        Column::Int32(d)
    }
}

impl FromData<Vec<Option<i32>>, [Option<i32>; 0]> for NullableType<Int32Type> {
    open spec fn column_of(d: Vec<Option<i32>>) -> ColumnView {
        ColumnView::Nullable(Box::new(ColumnView::Int32(filled(d@, 0))), presence(d@))
    }

    fn from_data(d: Vec<Option<i32>>) -> (r: Column) {
        let (values, validity) = fill_options(&d, 0);
        nullable(Column::Int32(values), validity)
    }
}

impl FromData<Vec<i64>, [i64; 0]> for Int64Type {
    open spec fn column_of(d: Vec<i64>) -> ColumnView {
        ColumnView::Int64(d@)
    }

    fn from_data(d: Vec<i64>) -> (r: Column) {
        Column::Int64(d)
    }
}

impl FromData<Vec<Option<i64>>, [Option<i64>; 0]> for NullableType<Int64Type> {
    open spec fn column_of(d: Vec<Option<i64>>) -> ColumnView {
        ColumnView::Nullable(Box::new(ColumnView::Int64(filled(d@, 0))), presence(d@))
    }

    fn from_data(d: Vec<Option<i64>>) -> (r: Column) {
        let (values, validity) = fill_options(&d, 0);
        nullable(Column::Int64(values), validity)
    }
}

impl FromData<Vec<u8>, [u8; 0]> for UInt8Type {
    open spec fn column_of(d: Vec<u8>) -> ColumnView {
        ColumnView::UInt8(d@)
    }

    fn from_data(d: Vec<u8>) -> (r: Column) {
        Column::UInt8(d)
    }
}

impl FromData<Vec<Option<u8>>, [Option<u8>; 0]> for NullableType<UInt8Type> {
    open spec fn column_of(d: Vec<Option<u8>>) -> ColumnView {
        ColumnView::Nullable(Box::new(ColumnView::UInt8(filled(d@, 0))), presence(d@))
    }

    fn from_data(d: Vec<Option<u8>>) -> (r: Column) {
        let (values, validity) = fill_options(&d, 0);
        nullable(Column::UInt8(values), validity)
    }
}

impl FromData<Vec<u16>, [u16; 0]> for UInt16Type {
    open spec fn column_of(d: Vec<u16>) -> ColumnView {
        ColumnView::UInt16(d@)
    }

    fn from_data(d: Vec<u16>) -> (r: Column) {
        Column::UInt16(d)
    }
}

impl FromData<Vec<Option<u16>>, [Option<u16>; 0]> for NullableType<UInt16Type> {
    open spec fn column_of(d: Vec<Option<u16>>) -> ColumnView {
        ColumnView::Nullable(Box::new(ColumnView::UInt16(filled(d@, 0))), presence(d@))
    }

    fn from_data(d: Vec<Option<u16>>) -> (r: Column) {
        let (values, validity) = fill_options(&d, 0);
        nullable(Column::UInt16(values), validity)
    }
}

impl FromData<Vec<u32>, [u32; 0]> for UInt32Type {
    open spec fn column_of(d: Vec<u32>) -> ColumnView {
        ColumnView::UInt32(d@)
    }

    fn from_data(d: Vec<u32>) -> (r: Column) {
        Column::UInt32(d)
    }
}

impl FromData<Vec<Option<u32>>, [Option<u32>; 0]> for NullableType<UInt32Type> {
    open spec fn column_of(d: Vec<Option<u32>>) -> ColumnView {
        ColumnView::Nullable(Box::new(ColumnView::UInt32(filled(d@, 0))), presence(d@))
    }

    fn from_data(d: Vec<Option<u32>>) -> (r: Column) {
        let (values, validity) = fill_options(&d, 0);
        nullable(Column::UInt32(values), validity)
    }
}

impl FromData<Vec<u64>, [u64; 0]> for UInt64Type {
    open spec fn column_of(d: Vec<u64>) -> ColumnView {
        ColumnView::UInt64(d@)
    }

    fn from_data(d: Vec<u64>) -> (r: Column) {
        Column::UInt64(d)
    }
}

impl FromData<Vec<Option<u64>>, [Option<u64>; 0]> for NullableType<UInt64Type> {
    open spec fn column_of(d: Vec<Option<u64>>) -> ColumnView {
        ColumnView::Nullable(Box::new(ColumnView::UInt64(filled(d@, 0))), presence(d@))
    }

    fn from_data(d: Vec<Option<u64>>) -> (r: Column) {
        let (values, validity) = fill_options(&d, 0);
        nullable(Column::UInt64(values), validity)
    }
}

impl FromData<Vec<u32>, [u32; 0]> for Float32Type {
    open spec fn column_of(d: Vec<u32>) -> ColumnView {
        ColumnView::Float32(d@)
    }

    fn from_data(d: Vec<u32>) -> (r: Column) {
        Column::Float32(d)
    }
}

impl FromData<Vec<Option<u32>>, [Option<u32>; 0]> for NullableType<Float32Type> {
    open spec fn column_of(d: Vec<Option<u32>>) -> ColumnView {
        ColumnView::Nullable(Box::new(ColumnView::Float32(filled(d@, 0))), presence(d@))
    }

    fn from_data(d: Vec<Option<u32>>) -> (r: Column) {
        let (values, validity) = fill_options(&d, 0);
        nullable(Column::Float32(values), validity)
    }
}

impl FromData<Vec<u64>, [u64; 0]> for Float64Type {
    open spec fn column_of(d: Vec<u64>) -> ColumnView {
        ColumnView::Float64(d@)
    }

    fn from_data(d: Vec<u64>) -> (r: Column) {
        Column::Float64(d)
    }
}

impl FromData<Vec<Option<u64>>, [Option<u64>; 0]> for NullableType<Float64Type> {
    open spec fn column_of(d: Vec<Option<u64>>) -> ColumnView {
        ColumnView::Nullable(Box::new(ColumnView::Float64(filled(d@, 0))), presence(d@))
    }

    fn from_data(d: Vec<Option<u64>>) -> (r: Column) {
        let (values, validity) = fill_options(&d, 0);
        nullable(Column::Float64(values), validity)
    }
}

impl FromData<Vec<bool>, [bool; 0]> for BooleanType {
    open spec fn column_of(d: Vec<bool>) -> ColumnView {
        ColumnView::Boolean(d@)
    }

    fn from_data(d: Vec<bool>) -> (r: Column) {
        Column::Boolean(d)
    }
}

impl FromData<Vec<Option<bool>>, [Option<bool>; 0]> for NullableType<BooleanType> {
    open spec fn column_of(d: Vec<Option<bool>>) -> ColumnView {
        ColumnView::Nullable(Box::new(ColumnView::Boolean(filled(d@, false))), presence(d@))
    }

    fn from_data(d: Vec<Option<bool>>) -> (r: Column) {
        let (values, validity) = fill_options(&d, false);
        nullable(Column::Boolean(values), validity)
    }
}

impl FromData<Vec<i64>, [i64; 0]> for TimestampType {
    open spec fn column_of(d: Vec<i64>) -> ColumnView {
        ColumnView::Timestamp(d@)
    }

    fn from_data(d: Vec<i64>) -> (r: Column) {
        Column::Timestamp(d)
    }
}

impl FromData<Vec<Option<i64>>, [Option<i64>; 0]> for NullableType<TimestampType> {
    open spec fn column_of(d: Vec<Option<i64>>) -> ColumnView {
        ColumnView::Nullable(Box::new(ColumnView::Timestamp(filled(d@, 0))), presence(d@))
    }

    fn from_data(d: Vec<Option<i64>>) -> (r: Column) {
        let (values, validity) = fill_options(&d, 0);
        nullable(Column::Timestamp(values), validity)
    }
}

impl FromData<Vec<i32>, [i32; 0]> for DateType {
    open spec fn column_of(d: Vec<i32>) -> ColumnView {
        ColumnView::Date(d@)
    }

    fn from_data(d: Vec<i32>) -> (r: Column) {
        Column::Date(d)
    }
}

impl FromData<Vec<Option<i32>>, [Option<i32>; 0]> for NullableType<DateType> {
    open spec fn column_of(d: Vec<Option<i32>>) -> ColumnView {
        ColumnView::Nullable(Box::new(ColumnView::Date(filled(d@, 0))), presence(d@))
    }

    fn from_data(d: Vec<Option<i32>>) -> (r: Column) {
        let (values, validity) = fill_options(&d, 0);
        nullable(Column::Date(values), validity)
    }
}

impl<'a> FromData<Vec<&'a str>, [Vec<u8>; 2]> for StringType {
    open spec fn column_of(d: Vec<&'a str>) -> ColumnView {
        ColumnView::Text(utf8_of(d@))
    }

    fn from_data(d: Vec<&'a str>) -> (r: Column) {
        text_column(&d)
    }
}

/// Builds a column from data `D`, the column's type following from the
/// type of the data; `Phantom` only tells apart impls for different shapes
/// of data.
pub trait ColumnFrom<D, Phantom: ?Sized>: Sized {
    /// The model of the column built from `d`.
    spec fn column_of(d: D) -> ColumnView;

    fn from_data(d: D) -> (r: Column)
        ensures
            r@ == Self::column_of(d),
    ;

    fn from_data_with_validity(d: D, valids: Vec<bool>) -> (r: Column)
        ensures
            r@ == ColumnView::Nullable(Box::new(Self::column_of(d)), valids@),
    {
        let column = Self::from_data(d);
        nullable(column, valids)
    }
}

impl ColumnFrom<Vec<i8>, [i8; 1]> for Column {
    open spec fn column_of(d: Vec<i8>) -> ColumnView {
        ColumnView::Int8(d@)
    }

    fn from_data(d: Vec<i8>) -> (r: Column) {
        Column::Int8(d)
    }
}

impl ColumnFrom<Vec<Option<i8>>, [Option<i8>; 1]> for Column {
    open spec fn column_of(d: Vec<Option<i8>>) -> ColumnView {
        ColumnView::Nullable(Box::new(ColumnView::Int8(filled(d@, 0))), presence(d@))
    }

    fn from_data(d: Vec<Option<i8>>) -> (r: Column) {
        let (values, validity) = fill_options(&d, 0);
        nullable(Column::Int8(values), validity)
    }
}

impl ColumnFrom<Vec<i16>, [i16; 1]> for Column {
    open spec fn column_of(d: Vec<i16>) -> ColumnView {
        ColumnView::Int16(d@)
    }

    fn from_data(d: Vec<i16>) -> (r: Column) {
        Column::Int16(d)
    }
}

impl ColumnFrom<Vec<Option<i16>>, [Option<i16>; 1]> for Column {
    open spec fn column_of(d: Vec<Option<i16>>) -> ColumnView {
        ColumnView::Nullable(Box::new(ColumnView::Int16(filled(d@, 0))), presence(d@))
    }

    fn from_data(d: Vec<Option<i16>>) -> (r: Column) {
        let (values, validity) = fill_options(&d, 0);
        nullable(Column::Int16(values), validity)
    }
}

impl ColumnFrom<Vec<i32>, [i32; 1]> for Column {
    open spec fn column_of(d: Vec<i32>) -> ColumnView {
        ColumnView::Int32(d@)
    }

    fn from_data(d: Vec<i32>) -> (r: Column) {
        Column::Int32(d)
    }
}

impl ColumnFrom<Vec<Option<i32>>, [Option<i32>; 1]> for Column {
    open spec fn column_of(d: Vec<Option<i32>>) -> ColumnView {
        ColumnView::Nullable(Box::new(ColumnView::Int32(filled(d@, 0))), presence(d@))
    }

    fn from_data(d: Vec<Option<i32>>) -> (r: Column) {
        let (values, validity) = fill_options(&d, 0);
        nullable(Column::Int32(values), validity)
    }
}

impl ColumnFrom<Vec<i64>, [i64; 1]> for Column {
    open spec fn column_of(d: Vec<i64>) -> ColumnView {
        ColumnView::Int64(d@)
    }

    fn from_data(d: Vec<i64>) -> (r: Column) {
        Column::Int64(d)
    }
}

impl ColumnFrom<Vec<Option<i64>>, [Option<i64>; 1]> for Column {
    open spec fn column_of(d: Vec<Option<i64>>) -> ColumnView {
        ColumnView::Nullable(Box::new(ColumnView::Int64(filled(d@, 0))), presence(d@))
    }

    fn from_data(d: Vec<Option<i64>>) -> (r: Column) {
        let (values, validity) = fill_options(&d, 0);
        nullable(Column::Int64(values), validity)
    }
}

impl ColumnFrom<Vec<u8>, [u8; 1]> for Column {
    open spec fn column_of(d: Vec<u8>) -> ColumnView {
        ColumnView::UInt8(d@)
    }

    fn from_data(d: Vec<u8>) -> (r: Column) {
        Column::UInt8(d)
    }
}

impl ColumnFrom<Vec<Option<u8>>, [Option<u8>; 1]> for Column {
    open spec fn column_of(d: Vec<Option<u8>>) -> ColumnView {
        ColumnView::Nullable(Box::new(ColumnView::UInt8(filled(d@, 0))), presence(d@))
    }

    fn from_data(d: Vec<Option<u8>>) -> (r: Column) {
        let (values, validity) = fill_options(&d, 0);
        nullable(Column::UInt8(values), validity)
    }
}

impl ColumnFrom<Vec<u16>, [u16; 1]> for Column {
    open spec fn column_of(d: Vec<u16>) -> ColumnView {
        ColumnView::UInt16(d@)
    }

    fn from_data(d: Vec<u16>) -> (r: Column) {
        Column::UInt16(d)
    }
}

impl ColumnFrom<Vec<Option<u16>>, [Option<u16>; 1]> for Column {
    open spec fn column_of(d: Vec<Option<u16>>) -> ColumnView {
        ColumnView::Nullable(Box::new(ColumnView::UInt16(filled(d@, 0))), presence(d@))
    }

    fn from_data(d: Vec<Option<u16>>) -> (r: Column) {
        let (values, validity) = fill_options(&d, 0);
        nullable(Column::UInt16(values), validity)
    }
}

impl ColumnFrom<Vec<u32>, [u32; 1]> for Column {
    open spec fn column_of(d: Vec<u32>) -> ColumnView {
        ColumnView::UInt32(d@)
    }

    fn from_data(d: Vec<u32>) -> (r: Column) {
        Column::UInt32(d)
    }
}

impl ColumnFrom<Vec<Option<u32>>, [Option<u32>; 1]> for Column {
    open spec fn column_of(d: Vec<Option<u32>>) -> ColumnView {
        ColumnView::Nullable(Box::new(ColumnView::UInt32(filled(d@, 0))), presence(d@))
    }

    fn from_data(d: Vec<Option<u32>>) -> (r: Column) {
        let (values, validity) = fill_options(&d, 0);
        nullable(Column::UInt32(values), validity)
    }
}

impl ColumnFrom<Vec<u64>, [u64; 1]> for Column {
    open spec fn column_of(d: Vec<u64>) -> ColumnView {
        ColumnView::UInt64(d@)
    }

    fn from_data(d: Vec<u64>) -> (r: Column) {
        Column::UInt64(d)
    }
}

impl ColumnFrom<Vec<Option<u64>>, [Option<u64>; 1]> for Column {
    open spec fn column_of(d: Vec<Option<u64>>) -> ColumnView {
        ColumnView::Nullable(Box::new(ColumnView::UInt64(filled(d@, 0))), presence(d@))
    }

    fn from_data(d: Vec<Option<u64>>) -> (r: Column) {
        let (values, validity) = fill_options(&d, 0);
        nullable(Column::UInt64(values), validity)
    }
}

impl ColumnFrom<Vec<bool>, [bool; 1]> for Column {
    open spec fn column_of(d: Vec<bool>) -> ColumnView {
        ColumnView::Boolean(d@)
    }

    fn from_data(d: Vec<bool>) -> (r: Column) {
        Column::Boolean(d)
    }
}

impl ColumnFrom<Vec<Option<bool>>, [Option<bool>; 1]> for Column {
    open spec fn column_of(d: Vec<Option<bool>>) -> ColumnView {
        ColumnView::Nullable(Box::new(ColumnView::Boolean(filled(d@, false))), presence(d@))
    }

    fn from_data(d: Vec<Option<bool>>) -> (r: Column) {
        let (values, validity) = fill_options(&d, false);
        nullable(Column::Boolean(values), validity)
    }
}

impl<'a> ColumnFrom<Vec<&'a str>, [Vec<u8>; 2]> for Column {
    open spec fn column_of(d: Vec<&'a str>) -> ColumnView {
        ColumnView::Text(utf8_of(d@))
    }

    fn from_data(d: Vec<&'a str>) -> (r: Column) {
        text_column(&d)
    }
}

} // verus!
