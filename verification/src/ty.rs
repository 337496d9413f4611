//! Scalar and enumeration types shared by the resource records.

use vstd::prelude::*;

pub mod flow_step;
pub mod flow_step_external_data;
pub mod source;
pub mod template;

verus! {

/// Base64-encoded content, held as the encoded text.
pub struct Base64(String);

impl View for Base64 {
    type V = Seq<char>;

    closed spec fn view(&self) -> Seq<char> {
        self.0@
    }
}

impl Base64 {
    /// Wraps already-encoded text; never fails, never alters it.
    pub fn new(text: String) -> (r: Self)
        ensures
            r@ == text@,
    {
        Self(text)
    }

    pub fn as_str(&self) -> (r: &str)
        ensures
            r@ == self@,
    {
        &self.0
    }
}

/// A calendar timestamp, held as plain numbers.
#[derive(Clone, Copy)]
pub struct Date {
    pub year: u8,
    pub month: u8,
    pub day: u8,
    pub hour: u8,
    pub minute: u8,
    pub second: u8,
}

impl Date {
    /// The all-zero placeholder timestamp.
    pub fn test() -> (r: Self)
        ensures
            r.year == 0,
            r.month == 0,
            r.day == 0,
            r.hour == 0,
            r.minute == 0,
            r.second == 0,
    {
        Self { year: 0, month: 0, day: 0, hour: 0, minute: 0, second: 0 }
    }
}

/// A range of dates (unpopulated in this API version).
#[derive(Clone, Copy)]
pub struct DateRange {}

/// A field the platform leaves empty.
#[derive(Clone, Copy)]
pub struct Empty;

/// A reference range (unpopulated in this API version).
#[derive(Clone, Copy)]
pub struct RefRange {}

/// A content range (unpopulated in this API version).
#[derive(Clone, Copy)]
pub struct ContentRange {}

/// Valid values: `CUSTOM`.
#[derive(Clone, Copy)]
pub enum TyCustom {
    Custom,
}

/// Message type; wire values `EMAIL`, `SMS` and `LETTER`.
#[derive(Clone, Copy)]
pub enum MessageType {
    Email,
    SMS,
    Letter,
}

/// Only applicable when the message type is `SMS`; wire values `NONE`,
/// `FAILURE` and `DELIVERY_AND_FAILURE`.  Defaults to `NONE` for SMS.
#[derive(Clone, Copy)]
pub enum DeliveryNotificationType {
    /// Wire value `NONE`.
    Disabled,
    Failure,
    DeliveryAndFailure,
}

} // verus!
