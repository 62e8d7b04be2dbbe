//! The dates and times of the crate `chrono`.
//!
//! A day of the week and a month are written as one byte. Dates, times
//! and time spans are written as they hash themselves; which bytes that
//! gives is the matter of the crate `chrono`, so they are not
//! deterministic here.
use crate::byte_order::ByteOrder;
use crate::digester_writer::DigestWriter;
use crate::digestible::Digestible;
use crate::hash_digester::hash_into;
use chrono::Days;
use chrono::Month;
use chrono::NaiveDate;
use chrono::NaiveDateTime;
use chrono::NaiveTime;
use chrono::TimeDelta;
use chrono::Weekday;
use vstd::prelude::*;

verus! {

/// The type `chrono::Weekday`, a day of the week: nothing of what it holds is seen here.
#[verifier::external_type_specification]
#[verifier::external_body]
pub struct ExWeekday(chrono::Weekday);

/// The type `chrono::Month`, a month of the year: nothing of what it holds is seen here.
#[verifier::external_type_specification]
#[verifier::external_body]
pub struct ExMonth(chrono::Month);

/// The type `chrono::NaiveDate`, a date: nothing of what it holds is seen here.
#[verifier::external_type_specification]
#[verifier::external_body]
pub struct ExNaiveDate(chrono::NaiveDate);

/// The type `chrono::NaiveTime`, a time of day: nothing of what it holds is seen here.
#[verifier::external_type_specification]
#[verifier::external_body]
pub struct ExNaiveTime(chrono::NaiveTime);

/// The type `chrono::NaiveDateTime`, a date with a time of day: nothing of what it holds is seen here.
#[verifier::external_type_specification]
#[verifier::external_body]
pub struct ExNaiveDateTime(chrono::NaiveDateTime);

/// The type `chrono::TimeDelta`, a time span: nothing of what it holds is seen here.
#[verifier::external_type_specification]
#[verifier::external_body]
pub struct ExTimeDelta(chrono::TimeDelta);

/// The type `chrono::Days`, a number of days: nothing of what it holds is seen here.
#[verifier::external_type_specification]
#[verifier::external_body]
pub struct ExDays(chrono::Days);

/// `Weekday::num_days_from_monday` of the crate `chrono`: the number of
/// the day, counted from 0 for Monday to 6 for Sunday.
#[verifier::external_body]
fn weekday_number(day: &Weekday) -> (number: u8)
    ensures
        number < 7,
{
    day.num_days_from_monday() as u8
}

/// The number that the crate `chrono` gives the month `month` as a
/// variant of its enum `Month`: from 0 for January to 11 for December.
#[verifier::external_body]
fn month_number(month: &Month) -> (number: u8)
    ensures
        number < 12,
{
    *month as u8
}

impl Digestible for Weekday {
    open spec fn deterministic(&self) -> bool {
        false
    }

    open spec fn encoding(&self, order: ByteOrder) -> Seq<u8> {
        Seq::empty()
    }

    /// Appends one byte: the number of the day, from 0 for Monday to 6 for
    /// Sunday.
    fn digest<W: DigestWriter>(&self, order: ByteOrder, writer: &mut W)
        ensures
            (*final(writer)).written().len() == (*old(writer)).written().len() + 1,
            (*final(writer)).written().last() < 7,
    {
        writer.write_u8(weekday_number(self));
    }
}

impl Digestible for Month {
    open spec fn deterministic(&self) -> bool {
        false
    }

    open spec fn encoding(&self, order: ByteOrder) -> Seq<u8> {
        Seq::empty()
    }

    /// Appends one byte: the number of the month, from 0 for January to 11
    /// for December.
    fn digest<W: DigestWriter>(&self, order: ByteOrder, writer: &mut W)
        ensures
            (*final(writer)).written().len() == (*old(writer)).written().len() + 1,
            (*final(writer)).written().last() < 12,
    {
        writer.write_u8(month_number(self));
    }
}

impl Digestible for NaiveDateTime {
    open spec fn deterministic(&self) -> bool {
        false
    }

    open spec fn encoding(&self, order: ByteOrder) -> Seq<u8> {
        Seq::empty()
    }

    fn digest<W: DigestWriter>(&self, order: ByteOrder, writer: &mut W) {
        hash_into(self, writer);
    }
}

impl Digestible for TimeDelta {
    open spec fn deterministic(&self) -> bool {
        false
    }

    open spec fn encoding(&self, order: ByteOrder) -> Seq<u8> {
        Seq::empty()
    }

    fn digest<W: DigestWriter>(&self, order: ByteOrder, writer: &mut W) {
        hash_into(self, writer);
    }
}

impl Digestible for NaiveDate {
    open spec fn deterministic(&self) -> bool {
        false
    }

    open spec fn encoding(&self, order: ByteOrder) -> Seq<u8> {
        Seq::empty()
    }

    fn digest<W: DigestWriter>(&self, order: ByteOrder, writer: &mut W) {
        hash_into(self, writer);
    }
}

impl Digestible for Days {
    open spec fn deterministic(&self) -> bool {
        false
    }

    open spec fn encoding(&self, order: ByteOrder) -> Seq<u8> {
        Seq::empty()
    }

    fn digest<W: DigestWriter>(&self, order: ByteOrder, writer: &mut W) {
        hash_into(self, writer);
    }
}

impl Digestible for NaiveTime {
    open spec fn deterministic(&self) -> bool {
        false
    }

    open spec fn encoding(&self, order: ByteOrder) -> Seq<u8> {
        Seq::empty()
    }

    fn digest<W: DigestWriter>(&self, order: ByteOrder, writer: &mut W) {
        hash_into(self, writer);
    }
}

} // verus!
