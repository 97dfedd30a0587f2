//! The record-conversion protocol: typed values become header/row pairs.
//!
//! A type implementing [`Tabled`] names its columns and renders a value's
//! fields as text; the two lists are proved to have the same length, so every
//! value of one type yields rows of one width.  Scalars make one-column
//! records, fixed-size arrays of displayable values make one column per
//! element, and tuples of up to six convertible members concatenate their
//! members' columns in order.

use crate::grid::row_model;
use crate::text::{dec_digits, dec_int, dec_i128, dec_u128};
use vstd::prelude::*;

verus! {

/// A value with a display text of its own, fit for a single table cell.
pub trait CellText {
    /// The characters of the value's display text.
    spec fn text_model(&self) -> Seq<char>;

    /// The name of the value's type, used as its column header.
    spec fn name_model() -> Seq<char>;

    /// The value's display text.
    fn text(&self) -> (r: String)
        ensures
            r@ == self.text_model(),
    ;

    /// The type's name.
    fn column_name() -> (r: String)
        ensures
            r@ == Self::name_model(),
    ;
}

/// A trait responsible for providing header fields and row fields of one
/// matching length, so that a collection of typed records builds a grid of
/// uniform width.
pub trait Tabled {
    /// The number of columns, shared by headers and fields.
    spec fn spec_length() -> nat;

    /// The column names, in order.
    spec fn spec_headers() -> Seq<Seq<char>>;

    /// The field texts of a value, in order.
    spec fn spec_fields(&self) -> Seq<Seq<char>>;

    /// The header list and every value's field list have the declared
    /// length — the two always match.
    proof fn lengths(&self)
        ensures
            Self::spec_headers().len() == Self::spec_length(),
            self.spec_fields().len() == Self::spec_length(),
    ;

    /// The list of column names.
    fn headers() -> (r: Vec<String>)
        ensures
            row_model(r@) == Self::spec_headers(),
    ;

    /// The list of cells of this value, placed in one row in this order.
    fn fields(&self) -> (r: Vec<String>)
        ensures
            row_model(r@) == self.spec_fields(),
    ;
}

/// A row of a single cell.
fn one_string_vec(s: String) -> (r: Vec<String>)
    ensures
        row_model(r@) == seq![s@],
{
    let mut v: Vec<String> = Vec::new();
    v.push(s);
    proof {
        assert(row_model(v@) =~= seq![s@]);
    }
    v
}

/// Two rows joined, the first's cells ahead of the second's.
fn concat_rows(a: Vec<String>, b: Vec<String>) -> (r: Vec<String>)
    ensures
        row_model(r@) == row_model(a@) + row_model(b@),
{
    let mut r = a;
    let mut rest = b;
    r.append(&mut rest);
    proof {
        assert(row_model(r@) =~= row_model(a@) + row_model(b@));
    }
    r
}

/// Relies on char::to_string: the string of exactly that one character.
#[verifier::external_body]
fn char_to_string(c: char) -> (r: String)
    ensures
        r@ == seq![c],
{
    c.to_string()
}

impl CellText for bool {
    open spec fn text_model(&self) -> Seq<char> {
        if *self {
            "true"@
        } else {
            "false"@
        }
    }

    open spec fn name_model() -> Seq<char> {
        "bool"@
    }

    fn text(&self) -> (r: String) {
        if *self {
            "true".to_owned()
        } else {
            "false".to_owned()
        }
    }

    fn column_name() -> (r: String) {
        "bool".to_owned()
    }
}

impl CellText for char {
    open spec fn text_model(&self) -> Seq<char> {
        seq![*self]
    }

    open spec fn name_model() -> Seq<char> {
        "char"@
    }

    fn text(&self) -> (r: String) {
        char_to_string(*self)
    }

    fn column_name() -> (r: String) {
        "char".to_owned()
    }
}

impl CellText for String {
    open spec fn text_model(&self) -> Seq<char> {
        self@
    }

    open spec fn name_model() -> Seq<char> {
        "String"@
    }

    fn text(&self) -> (r: String) {
        self.clone()
    }

    fn column_name() -> (r: String) {
        "String".to_owned()
    }
}

impl CellText for u8 {
    open spec fn text_model(&self) -> Seq<char> {
        dec_digits(*self as nat)
    }

    open spec fn name_model() -> Seq<char> {
        "u8"@
    }

    fn text(&self) -> (r: String) {
        dec_u128(*self as u128)
    }

    fn column_name() -> (r: String) {
        "u8".to_owned()
    }
}

impl CellText for u16 {
    open spec fn text_model(&self) -> Seq<char> {
        dec_digits(*self as nat)
    }

    open spec fn name_model() -> Seq<char> {
        "u16"@
    }

    fn text(&self) -> (r: String) {
        dec_u128(*self as u128)
    }

    fn column_name() -> (r: String) {
        "u16".to_owned()
    }
}

impl CellText for u32 {
    open spec fn text_model(&self) -> Seq<char> {
        dec_digits(*self as nat)
    }

    open spec fn name_model() -> Seq<char> {
        "u32"@
    }

    fn text(&self) -> (r: String) {
        dec_u128(*self as u128)
    }

    fn column_name() -> (r: String) {
        "u32".to_owned()
    }
}

impl CellText for u64 {
    open spec fn text_model(&self) -> Seq<char> {
        dec_digits(*self as nat)
    }

    open spec fn name_model() -> Seq<char> {
        "u64"@
    }

    fn text(&self) -> (r: String) {
        dec_u128(*self as u128)
    }

    fn column_name() -> (r: String) {
        "u64".to_owned()
    }
}

impl CellText for u128 {
    open spec fn text_model(&self) -> Seq<char> {
        dec_digits(*self as nat)
    }

    open spec fn name_model() -> Seq<char> {
        "u128"@
    }

    fn text(&self) -> (r: String) {
        dec_u128(*self)
    }

    fn column_name() -> (r: String) {
        "u128".to_owned()
    }
}

impl CellText for usize {
    open spec fn text_model(&self) -> Seq<char> {
        dec_digits(*self as nat)
    }

    open spec fn name_model() -> Seq<char> {
        "usize"@
    }

    fn text(&self) -> (r: String) {
        dec_u128(*self as u128)
    }

    fn column_name() -> (r: String) {
        "usize".to_owned()
    }
}

impl CellText for i8 {
    open spec fn text_model(&self) -> Seq<char> {
        dec_int(*self as int)
    }

    open spec fn name_model() -> Seq<char> {
        "i8"@
    }

    fn text(&self) -> (r: String) {
        dec_i128(*self as i128)
    }

    fn column_name() -> (r: String) {
        "i8".to_owned()
    }
}

impl CellText for i16 {
    open spec fn text_model(&self) -> Seq<char> {
        dec_int(*self as int)
    }

    open spec fn name_model() -> Seq<char> {
        "i16"@
    }

    fn text(&self) -> (r: String) {
        dec_i128(*self as i128)
    }

    fn column_name() -> (r: String) {
        "i16".to_owned()
    }
}

impl CellText for i32 {
    open spec fn text_model(&self) -> Seq<char> {
        dec_int(*self as int)
    }

    open spec fn name_model() -> Seq<char> {
        "i32"@
    }

    fn text(&self) -> (r: String) {
        dec_i128(*self as i128)
    }

    fn column_name() -> (r: String) {
        "i32".to_owned()
    }
}

impl CellText for i64 {
    open spec fn text_model(&self) -> Seq<char> {
        dec_int(*self as int)
    }

    open spec fn name_model() -> Seq<char> {
        "i64"@
    }

    fn text(&self) -> (r: String) {
        dec_i128(*self as i128)
    }

    fn column_name() -> (r: String) {
        "i64".to_owned()
    }
}

impl CellText for i128 {
    open spec fn text_model(&self) -> Seq<char> {
        dec_int(*self as int)
    }

    open spec fn name_model() -> Seq<char> {
        "i128"@
    }

    fn text(&self) -> (r: String) {
        dec_i128(*self)
    }

    fn column_name() -> (r: String) {
        "i128".to_owned()
    }
}

impl CellText for isize {
    open spec fn text_model(&self) -> Seq<char> {
        dec_int(*self as int)
    }

    open spec fn name_model() -> Seq<char> {
        "isize"@
    }

    fn text(&self) -> (r: String) {
        dec_i128(*self as i128)
    }

    fn column_name() -> (r: String) {
        "isize".to_owned()
    }
}

impl Tabled for bool {
    open spec fn spec_length() -> nat {
        1
    }

    open spec fn spec_headers() -> Seq<Seq<char>> {
        seq![<bool as CellText>::name_model()]
    }

    open spec fn spec_fields(&self) -> Seq<Seq<char>> {
        seq![self.text_model()]
    }

    proof fn lengths(&self) {
    }

    fn headers() -> (r: Vec<String>) {
        one_string_vec(<bool as CellText>::column_name())
    }

    fn fields(&self) -> (r: Vec<String>) {
        one_string_vec(self.text())
    }
}

impl Tabled for char {
    open spec fn spec_length() -> nat {
        1
    }

    open spec fn spec_headers() -> Seq<Seq<char>> {
        seq![<char as CellText>::name_model()]
    }

    open spec fn spec_fields(&self) -> Seq<Seq<char>> {
        seq![self.text_model()]
    }

    proof fn lengths(&self) {
    }

    fn headers() -> (r: Vec<String>) {
        one_string_vec(<char as CellText>::column_name())
    }

    fn fields(&self) -> (r: Vec<String>) {
        one_string_vec(self.text())
    }
}

impl Tabled for String {
    open spec fn spec_length() -> nat {
        1
    }

    open spec fn spec_headers() -> Seq<Seq<char>> {
        seq![<String as CellText>::name_model()]
    }

    open spec fn spec_fields(&self) -> Seq<Seq<char>> {
        seq![self.text_model()]
    }

    proof fn lengths(&self) {
    }

    fn headers() -> (r: Vec<String>) {
        one_string_vec(<String as CellText>::column_name())
    }

    fn fields(&self) -> (r: Vec<String>) {
        one_string_vec(self.text())
    }
}

impl Tabled for u8 {
    open spec fn spec_length() -> nat {
        1
    }

    open spec fn spec_headers() -> Seq<Seq<char>> {
        seq![<u8 as CellText>::name_model()]
    }

    open spec fn spec_fields(&self) -> Seq<Seq<char>> {
        seq![self.text_model()]
    }

    proof fn lengths(&self) {
    }

    fn headers() -> (r: Vec<String>) {
        one_string_vec(<u8 as CellText>::column_name())
    }

    fn fields(&self) -> (r: Vec<String>) {
        one_string_vec(self.text())
    }
}

impl Tabled for u16 {
    open spec fn spec_length() -> nat {
        1
    }

    open spec fn spec_headers() -> Seq<Seq<char>> {
        seq![<u16 as CellText>::name_model()]
    }

    open spec fn spec_fields(&self) -> Seq<Seq<char>> {
        seq![self.text_model()]
    }

    proof fn lengths(&self) {
    }

    fn headers() -> (r: Vec<String>) {
        one_string_vec(<u16 as CellText>::column_name())
    }

    fn fields(&self) -> (r: Vec<String>) {
        one_string_vec(self.text())
    }
}

impl Tabled for u32 {
    open spec fn spec_length() -> nat {
        1
    }

    open spec fn spec_headers() -> Seq<Seq<char>> {
        seq![<u32 as CellText>::name_model()]
    }

    open spec fn spec_fields(&self) -> Seq<Seq<char>> {
        seq![self.text_model()]
    }

    proof fn lengths(&self) {
    }

    fn headers() -> (r: Vec<String>) {
        one_string_vec(<u32 as CellText>::column_name())
    }

    fn fields(&self) -> (r: Vec<String>) {
        one_string_vec(self.text())
    }
}

impl Tabled for u64 {
    open spec fn spec_length() -> nat {
        1
    }

    open spec fn spec_headers() -> Seq<Seq<char>> {
        seq![<u64 as CellText>::name_model()]
    }

    open spec fn spec_fields(&self) -> Seq<Seq<char>> {
        seq![self.text_model()]
    }

    proof fn lengths(&self) {
    }

    fn headers() -> (r: Vec<String>) {
        one_string_vec(<u64 as CellText>::column_name())
    }

    fn fields(&self) -> (r: Vec<String>) {
        one_string_vec(self.text())
    }
}

impl Tabled for u128 {
    open spec fn spec_length() -> nat {
        1
    }

    open spec fn spec_headers() -> Seq<Seq<char>> {
        seq![<u128 as CellText>::name_model()]
    }

    open spec fn spec_fields(&self) -> Seq<Seq<char>> {
        seq![self.text_model()]
    }

    proof fn lengths(&self) {
    }

    fn headers() -> (r: Vec<String>) {
        one_string_vec(<u128 as CellText>::column_name())
    }

    fn fields(&self) -> (r: Vec<String>) {
        one_string_vec(self.text())
    }
}

impl Tabled for usize {
    open spec fn spec_length() -> nat {
        1
    }

    open spec fn spec_headers() -> Seq<Seq<char>> {
        seq![<usize as CellText>::name_model()]
    }

    open spec fn spec_fields(&self) -> Seq<Seq<char>> {
        seq![self.text_model()]
    }

    proof fn lengths(&self) {
    }

    fn headers() -> (r: Vec<String>) {
        one_string_vec(<usize as CellText>::column_name())
    }

    fn fields(&self) -> (r: Vec<String>) {
        one_string_vec(self.text())
    }
}

impl Tabled for i8 {
    open spec fn spec_length() -> nat {
        1
    }

    open spec fn spec_headers() -> Seq<Seq<char>> {
        seq![<i8 as CellText>::name_model()]
    }

    open spec fn spec_fields(&self) -> Seq<Seq<char>> {
        seq![self.text_model()]
    }

    proof fn lengths(&self) {
    }

    fn headers() -> (r: Vec<String>) {
        one_string_vec(<i8 as CellText>::column_name())
    }

    fn fields(&self) -> (r: Vec<String>) {
        one_string_vec(self.text())
    }
}

impl Tabled for i16 {
    open spec fn spec_length() -> nat {
        1
    }

    open spec fn spec_headers() -> Seq<Seq<char>> {
        seq![<i16 as CellText>::name_model()]
    }

    open spec fn spec_fields(&self) -> Seq<Seq<char>> {
        seq![self.text_model()]
    }

    proof fn lengths(&self) {
    }

    fn headers() -> (r: Vec<String>) {
        one_string_vec(<i16 as CellText>::column_name())
    }

    fn fields(&self) -> (r: Vec<String>) {
        one_string_vec(self.text())
    }
}

impl Tabled for i32 {
    open spec fn spec_length() -> nat {
        1
    }

    open spec fn spec_headers() -> Seq<Seq<char>> {
        seq![<i32 as CellText>::name_model()]
    }

    open spec fn spec_fields(&self) -> Seq<Seq<char>> {
        seq![self.text_model()]
    }

    proof fn lengths(&self) {
    }

    fn headers() -> (r: Vec<String>) {
        one_string_vec(<i32 as CellText>::column_name())
    }

    fn fields(&self) -> (r: Vec<String>) {
        one_string_vec(self.text())
    }
}

impl Tabled for i64 {
    open spec fn spec_length() -> nat {
        1
    }

    open spec fn spec_headers() -> Seq<Seq<char>> {
        seq![<i64 as CellText>::name_model()]
    }

    open spec fn spec_fields(&self) -> Seq<Seq<char>> {
        seq![self.text_model()]
    }

    proof fn lengths(&self) {
    }

    fn headers() -> (r: Vec<String>) {
        one_string_vec(<i64 as CellText>::column_name())
    }

    fn fields(&self) -> (r: Vec<String>) {
        one_string_vec(self.text())
    }
}

impl Tabled for i128 {
    open spec fn spec_length() -> nat {
        1
    }

    open spec fn spec_headers() -> Seq<Seq<char>> {
        seq![<i128 as CellText>::name_model()]
    }

    open spec fn spec_fields(&self) -> Seq<Seq<char>> {
        seq![self.text_model()]
    }

    proof fn lengths(&self) {
    }

    fn headers() -> (r: Vec<String>) {
        one_string_vec(<i128 as CellText>::column_name())
    }

    fn fields(&self) -> (r: Vec<String>) {
        one_string_vec(self.text())
    }
}

impl Tabled for isize {
    open spec fn spec_length() -> nat {
        1
    }

    open spec fn spec_headers() -> Seq<Seq<char>> {
        seq![<isize as CellText>::name_model()]
    }

    open spec fn spec_fields(&self) -> Seq<Seq<char>> {
        seq![self.text_model()]
    }

    proof fn lengths(&self) {
    }

    fn headers() -> (r: Vec<String>) {
        one_string_vec(<isize as CellText>::column_name())
    }

    fn fields(&self) -> (r: Vec<String>) {
        one_string_vec(self.text())
    }
}

impl<A: Tabled> Tabled for (A,) {
    open spec fn spec_length() -> nat {
        A::spec_length()
    }

    open spec fn spec_headers() -> Seq<Seq<char>> {
        A::spec_headers()
    }

    open spec fn spec_fields(&self) -> Seq<Seq<char>> {
        self.0.spec_fields()
    }

    proof fn lengths(&self) {
        self.0.lengths();
    }

    fn headers() -> (r: Vec<String>) {
        A::headers()
    }

    fn fields(&self) -> (r: Vec<String>) {
        self.0.fields()
    }
}

impl<A: Tabled, B: Tabled> Tabled for (A, B) {
    open spec fn spec_length() -> nat {
        A::spec_length() + B::spec_length()
    }

    open spec fn spec_headers() -> Seq<Seq<char>> {
        A::spec_headers() + B::spec_headers()
    }

    open spec fn spec_fields(&self) -> Seq<Seq<char>> {
        self.0.spec_fields() + self.1.spec_fields()
    }

    proof fn lengths(&self) {
        self.0.lengths();
        self.1.lengths();
    }

    fn headers() -> (r: Vec<String>) {
        concat_rows(A::headers(), B::headers())
    }

    fn fields(&self) -> (r: Vec<String>) {
        concat_rows(self.0.fields(), self.1.fields())
    }
}

impl<A: Tabled, B: Tabled, C: Tabled> Tabled for (A, B, C) {
    open spec fn spec_length() -> nat {
        A::spec_length() + B::spec_length() + C::spec_length()
    }

    open spec fn spec_headers() -> Seq<Seq<char>> {
        A::spec_headers() + B::spec_headers() + C::spec_headers()
    }

    open spec fn spec_fields(&self) -> Seq<Seq<char>> {
        self.0.spec_fields() + self.1.spec_fields() + self.2.spec_fields()
    }

    proof fn lengths(&self) {
        self.0.lengths();
        self.1.lengths();
        self.2.lengths();
    }

    fn headers() -> (r: Vec<String>) {
        concat_rows(concat_rows(A::headers(), B::headers()), C::headers())
    }

    fn fields(&self) -> (r: Vec<String>) {
        concat_rows(concat_rows(self.0.fields(), self.1.fields()), self.2.fields())
    }
}

impl<A: Tabled, B: Tabled, C: Tabled, D: Tabled> Tabled for (A, B, C, D) {
    open spec fn spec_length() -> nat {
        A::spec_length() + B::spec_length() + C::spec_length() + D::spec_length()
    }

    open spec fn spec_headers() -> Seq<Seq<char>> {
        A::spec_headers() + B::spec_headers() + C::spec_headers() + D::spec_headers()
    }

    open spec fn spec_fields(&self) -> Seq<Seq<char>> {
        self.0.spec_fields() + self.1.spec_fields() + self.2.spec_fields() + self.3.spec_fields()
    }

    proof fn lengths(&self) {
        self.0.lengths();
        self.1.lengths();
        self.2.lengths();
        self.3.lengths();
    }

    fn headers() -> (r: Vec<String>) {
        concat_rows(concat_rows(concat_rows(A::headers(), B::headers()), C::headers()), D::headers())
    }

    fn fields(&self) -> (r: Vec<String>) {
        concat_rows(concat_rows(concat_rows(self.0.fields(), self.1.fields()), self.2.fields()), self.3.fields())
    }
}

impl<A: Tabled, B: Tabled, C: Tabled, D: Tabled, E: Tabled> Tabled for (A, B, C, D, E) {
    open spec fn spec_length() -> nat {
        A::spec_length() + B::spec_length() + C::spec_length() + D::spec_length() + E::spec_length()
    }

    open spec fn spec_headers() -> Seq<Seq<char>> {
        A::spec_headers() + B::spec_headers() + C::spec_headers() + D::spec_headers() + E::spec_headers()
    }

    open spec fn spec_fields(&self) -> Seq<Seq<char>> {
        self.0.spec_fields() + self.1.spec_fields() + self.2.spec_fields() + self.3.spec_fields() + self.4.spec_fields()
    }

    proof fn lengths(&self) {
        self.0.lengths();
        self.1.lengths();
        self.2.lengths();
        self.3.lengths();
        self.4.lengths();
    }

    fn headers() -> (r: Vec<String>) {
        concat_rows(concat_rows(concat_rows(concat_rows(A::headers(), B::headers()), C::headers()), D::headers()), E::headers())
    }

    fn fields(&self) -> (r: Vec<String>) {
        concat_rows(concat_rows(concat_rows(concat_rows(self.0.fields(), self.1.fields()), self.2.fields()), self.3.fields()), self.4.fields())
    }
}

impl<A: Tabled, B: Tabled, C: Tabled, D: Tabled, E: Tabled, F: Tabled> Tabled for (A, B, C, D, E, F) {
    open spec fn spec_length() -> nat {
        A::spec_length() + B::spec_length() + C::spec_length() + D::spec_length() + E::spec_length() + F::spec_length()
    }

    open spec fn spec_headers() -> Seq<Seq<char>> {
        A::spec_headers() + B::spec_headers() + C::spec_headers() + D::spec_headers() + E::spec_headers() + F::spec_headers()
    }

    open spec fn spec_fields(&self) -> Seq<Seq<char>> {
        self.0.spec_fields() + self.1.spec_fields() + self.2.spec_fields() + self.3.spec_fields() + self.4.spec_fields() + self.5.spec_fields()
    }

    proof fn lengths(&self) {
        self.0.lengths();
        self.1.lengths();
        self.2.lengths();
        self.3.lengths();
        self.4.lengths();
        self.5.lengths();
    }

    fn headers() -> (r: Vec<String>) {
        concat_rows(concat_rows(concat_rows(concat_rows(concat_rows(A::headers(), B::headers()), C::headers()), D::headers()), E::headers()), F::headers())
    }

    fn fields(&self) -> (r: Vec<String>) {
        concat_rows(concat_rows(concat_rows(concat_rows(concat_rows(self.0.fields(), self.1.fields()), self.2.fields()), self.3.fields()), self.4.fields()), self.5.fields())
    }
}

impl<T: Tabled> Tabled for &T {
    open spec fn spec_length() -> nat {
        T::spec_length()
    }

    open spec fn spec_headers() -> Seq<Seq<char>> {
        T::spec_headers()
    }

    open spec fn spec_fields(&self) -> Seq<Seq<char>> {
        (**self).spec_fields()
    }

    proof fn lengths(&self) {
        (**self).lengths();
    }

    fn headers() -> (r: Vec<String>) {
        T::headers()
    }

    fn fields(&self) -> (r: Vec<String>) {
        (**self).fields()
    }
}

impl CellText for &str {
    open spec fn text_model(&self) -> Seq<char> {
        (*self)@
    }

    open spec fn name_model() -> Seq<char> {
        "&str"@
    }

    fn text(&self) -> (r: String) {
        (*self).to_owned()
    }

    fn column_name() -> (r: String) {
        "&str".to_owned()
    }
}

impl Tabled for &str {
    open spec fn spec_length() -> nat {
        1
    }

    open spec fn spec_headers() -> Seq<Seq<char>> {
        seq![<&str as CellText>::name_model()]
    }

    open spec fn spec_fields(&self) -> Seq<Seq<char>> {
        seq![self.text_model()]
    }

    proof fn lengths(&self) {
    }

    fn headers() -> (r: Vec<String>) {
        one_string_vec(<&str as CellText>::column_name())
    }

    fn fields(&self) -> (r: Vec<String>) {
        one_string_vec(self.text())
    }
}

impl<T: CellText, const N: usize> Tabled for [T; N] {
    open spec fn spec_length() -> nat {
        N as nat
    }

    open spec fn spec_headers() -> Seq<Seq<char>> {
        Seq::new(N as nat, |i: int| dec_digits(i as nat))
    }

    open spec fn spec_fields(&self) -> Seq<Seq<char>> {
        Seq::new(N as nat, |i: int| self@[i].text_model())
    }

    proof fn lengths(&self) {
    }

    fn headers() -> (r: Vec<String>) {
        let mut v: Vec<String> = Vec::new();
        let mut i: usize = 0;
        while i < N
            invariant
                i <= N,
                v@.len() == i,
                forall|t: int| 0 <= t < i ==> #[trigger] row_model(v@)[t] == dec_digits(t as nat),
            decreases N - i,
        {
            let ghost v_pre = v@;
            v.push(dec_u128(i as u128));
            i += 1;
            proof {
                assert(row_model(v@)[i - 1] == dec_digits((i - 1) as nat));
                assert forall|t: int|
                    0 <= t < i - 1 implies #[trigger] row_model(v@)[t] == dec_digits(
                    t as nat,
                ) by {
                    assert(v@[t] == v_pre[t]);
                    assert(row_model(v@)[t] == v@[t]@);
                    assert(row_model(v_pre)[t] == v_pre[t]@);
                }
            }
        }
        proof {
            assert(row_model(v@) =~= Self::spec_headers());
        }
        v
    }

    fn fields(&self) -> (r: Vec<String>) {
        let mut v: Vec<String> = Vec::new();
        let mut i: usize = 0;
        while i < N
            invariant
                i <= N,
                v@.len() == i,
                forall|t: int|
                    0 <= t < i ==> #[trigger] row_model(v@)[t] == self@[t].text_model(),
            decreases N - i,
        {
            let ghost v_pre = v@;
            v.push(self[i].text());
            i += 1;
            proof {
                assert(row_model(v@)[i - 1] == self@[i - 1].text_model());
                assert forall|t: int|
                    0 <= t < i - 1 implies #[trigger] row_model(v@)[t] == self@[t].text_model() by {
                    assert(v@[t] == v_pre[t]);
                    assert(row_model(v@)[t] == v@[t]@);
                    assert(row_model(v_pre)[t] == v_pre[t]@);
                }
            }
        }
        proof {
            assert(row_model(v@) =~= self.spec_fields());
        }
        v
    }
}

} // verus!
