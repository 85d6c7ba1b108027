//! The small closed vocabularies of the wire protocol: the envelope status
//! and the enum-valued option fields, each with the exact token it takes on
//! the wire.

use vstd::prelude::*;

verus! {

/// Status of a response envelope.  The service answers with exactly one of
/// the lowercase words `"ok"` or `"error"`; anything else is a decode
/// failure, not a status.
#[derive(Clone, Copy, PartialEq, Eq, Structural, Debug)]
pub enum Status {
    Okay,
    Error,
}

/// The lowercase word a status takes on the wire.
pub open spec fn status_word(s: Status) -> Seq<char> {
    match s {
        Status::Okay => "ok"@,
        Status::Error => "error"@,
    }
}

impl Status {
    /// The lowercase wire word of this status.
    pub fn as_str(&self) -> (r: &'static str)
        ensures
            r@ == status_word(*self),
    {
        match *self {
            Status::Okay => "ok",
            Status::Error => "error",
        }
    }
}

/// Message format preference: HTML or plain text.  Serializes as the
/// single-letter tokens `H` and `T`.
#[derive(Clone, Copy, PartialEq, Eq, Structural, Debug)]
pub enum Format {
    H,
    T,
}

/// The token a format takes on the wire.
pub open spec fn format_word(f: Format) -> Seq<char> {
    match f {
        Format::H => "H"@,
        Format::T => "T"@,
    }
}

impl Format {
    /// The wire token of this format.
    pub fn as_str(&self) -> (r: &'static str)
        ensures
            r@ == format_word(*self),
    {
        match *self {
            Format::H => "H",
            Format::T => "T",
        }
    }
}

impl Default for Format {
    /// HTML is the format the service assumes when none is named.
    fn default() -> (r: Self)
        ensures
            r == Format::H,
    {
        Format::H
    }
}

/// A tri-state boolean field's present values: the literal tokens `Y` and
/// `N`.  A field that is absent altogether is modelled as `Option::None`
/// around this type.
#[derive(Clone, Copy, PartialEq, Eq, Structural, Debug)]
pub enum YesNo {
    Y,
    N,
}

/// The token a yes/no flag takes on the wire.
pub open spec fn yes_no_word(y: YesNo) -> Seq<char> {
    match y {
        YesNo::Y => "Y"@,
        YesNo::N => "N"@,
    }
}

impl YesNo {
    /// The wire token of this flag.
    pub fn as_str(&self) -> (r: &'static str)
        ensures
            r@ == yes_no_word(*self),
    {
        match *self {
            YesNo::Y => "Y",
            YesNo::N => "N",
        }
    }
}

impl Default for YesNo {
    fn default() -> (r: Self)
        ensures
            r == YesNo::N,
    {
        YesNo::N
    }
}

} // verus!
