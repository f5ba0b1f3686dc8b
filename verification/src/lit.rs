//! The data model of an invocation: the literal kinds a default value may
//! have, and the sign-and-magnitude form in which parsed integers are carried.

use vstd::prelude::*;

verus! {

/// The twelve integer types a default literal's suffix can name.
#[derive(Clone, Copy, Debug, PartialEq, Eq, Structural)]
pub enum IntType {
    U8,
    I8,
    U16,
    I16,
    U32,
    I32,
    U64,
    I64,
    U128,
    I128,
    Usize,
    Isize,
}

impl IntType {
    /// Smallest value a variable of the type can hold.
    pub open spec fn min(self) -> int {
        match self {
            IntType::U8 => 0,
            IntType::I8 => -128,
            IntType::U16 => 0,
            IntType::I16 => -32768,
            IntType::U32 => 0,
            IntType::I32 => -2147483648,
            IntType::U64 => 0,
            IntType::I64 => -9223372036854775808,
            IntType::U128 => 0,
            IntType::I128 => -170141183460469231731687303715884105728,
            IntType::Usize => 0,
            IntType::Isize => isize::MIN as int,
        }
    }

    /// Largest value a variable of the type can hold.
    pub open spec fn max(self) -> int {
        match self {
            IntType::U8 => 255,
            IntType::I8 => 127,
            IntType::U16 => 65535,
            IntType::I16 => 32767,
            IntType::U32 => 4294967295,
            IntType::I32 => 2147483647,
            IntType::U64 => 18446744073709551615,
            IntType::I64 => 9223372036854775807,
            IntType::U128 => 340282366920938463463374607431768211455,
            IntType::I128 => 170141183460469231731687303715884105727,
            IntType::Usize => usize::MAX as int,
            IntType::Isize => isize::MAX as int,
        }
    }

    /// Whether the type admits negative values.
    pub open spec fn spec_signed(self) -> bool {
        match self {
            IntType::I8 | IntType::I16 | IntType::I32 | IntType::I64 | IntType::I128
                | IntType::Isize => true,
            _ => false,
        }
    }

    /// Runtime test for `spec_signed`.
    pub fn is_signed(self) -> (r: bool)
        ensures
            r == self.spec_signed(),
    {
        match self {
            IntType::I8 | IntType::I16 | IntType::I32 | IntType::I64 | IntType::I128
                | IntType::Isize => true,
            _ => false,
        }
    }

    /// Largest magnitude a value of the type with the given sign can have:
    /// the type's maximum for a non-negative value, the absolute value of its
    /// minimum for a negative one.
    pub fn max_magnitude(self, negative: bool) -> (m: u128)
        ensures
            negative ==> m as int == -self.min(),
            !negative ==> m as int == self.max(),
    {
        if negative {
            match self {
                IntType::I8 => 128,
                IntType::I16 => 32768,
                IntType::I32 => 2147483648,
                IntType::I64 => 9223372036854775808,
                IntType::I128 => 170141183460469231731687303715884105728,
                IntType::Isize => (isize::MAX as u128) + 1,
                _ => 0,
            }
        } else {
            match self {
                IntType::U8 => 255,
                IntType::I8 => 127,
                IntType::U16 => 65535,
                IntType::I16 => 32767,
                IntType::U32 => 4294967295,
                IntType::I32 => 2147483647,
                IntType::U64 => 18446744073709551615,
                IntType::I64 => 9223372036854775807,
                IntType::U128 => 340282366920938463463374607431768211455,
                IntType::I128 => 170141183460469231731687303715884105727,
                IntType::Usize => usize::MAX as u128,
                IntType::Isize => isize::MAX as u128,
            }
        }
    }
}

/// A parsed integer in sign-and-magnitude form, wide enough for every
/// supported type at once.
#[derive(Clone, Copy, Debug, PartialEq, Eq, Structural)]
pub struct IntValue {
    pub negative: bool,
    pub magnitude: u128,
}

impl IntValue {
    /// The mathematical value.
    pub open spec fn as_int(self) -> int {
        if self.negative {
            -(self.magnitude as int)
        } else {
            self.magnitude as int
        }
    }

    /// Whether the value lies in the given type's range.
    pub open spec fn fits(self, t: IntType) -> bool {
        t.min() <= self.as_int() && self.as_int() <= t.max()
    }
}

/// A literal argument of an invocation, as the front end hands it over.
#[derive(Clone, Debug, PartialEq, Eq)]
pub enum Lit {
    /// A string literal's value.
    Str(String),
    /// A boolean literal's value.
    Bool(bool),
    /// A byte literal's value.
    Byte(u8),
    /// A character literal's value.
    Char(char),
    /// An integer literal, carried as its source token with any suffix
    /// included (`"77u8"`, `"-5"`).
    Int(String),
    /// Any literal kind outside the supported five.
    Other,
}

/// The mathematical shape of a `Lit`: its strings as character sequences.
#[verifier::ext_equal]
pub enum LitModel {
    Str(Seq<char>),
    Bool(bool),
    Byte(u8),
    Char(char),
    Int(Seq<char>),
    Other,
}

impl View for Lit {
    type V = LitModel;

    open spec fn view(&self) -> LitModel {
        match self {
            Lit::Str(s) => LitModel::Str(s@),
            Lit::Bool(b) => LitModel::Bool(*b),
            Lit::Byte(b) => LitModel::Byte(*b),
            Lit::Char(c) => LitModel::Char(*c),
            Lit::Int(s) => LitModel::Int(s@),
            Lit::Other => LitModel::Other,
        }
    }
}

impl DeepView for Lit {
    type V = LitModel;

    open spec fn deep_view(&self) -> LitModel {
        self.view()
    }
}

} // verus!
