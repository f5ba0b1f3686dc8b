//! The translation-time dispatchers. Given an invocation's literal arguments
//! and the value the build environment holds for the named variable — if it
//! holds one — they decide what the invocation turns into: a fixed value baked
//! into the output, or deferred runtime-lookup code. Translation-time failures
//! are fatal and reported exactly; the front end aborts on them.

use vstd::prelude::*;

use crate::lit::{IntType, IntValue, Lit, LitModel};
use crate::parse::{is_truthy, parse_byte, parse_char_str, parse_typed_int, spec_parse_int,
    spec_truthy};
use crate::token::{token_suffix, spec_token_suffix, IntSuffix};

verus! {

/// The conditions under which translation aborts.
#[derive(Clone, Copy, Debug, PartialEq, Eq, Structural)]
pub enum ExpandError {
    /// The form with a default takes a name and a default value, nothing else.
    WrongArgCount,
    /// The name of the variable must be a string literal.
    FirstArgNotString,
    /// The default literal's kind is outside the supported five, or has no
    /// runtime lookup form.
    UnsupportedDefault,
    /// The build environment's value does not parse as a byte.
    BadByteValue,
    /// The build environment's value does not parse as a character.
    BadCharValue,
    /// The build environment's value does not parse as the suffixed type.
    BadIntValue(IntType),
    /// The default's suffix names no known integer type.
    UnknownIntSuffix,
}

/// What the optional form turns into: a value fixed at translation time, or a
/// runtime lookup of the named variable.
#[derive(Clone, Debug, PartialEq, Eq)]
pub enum EnvExpansion {
    CompileTime(String),
    RuntimeLookup(String),
}

/// The mathematical shape of an `EnvExpansion`.
#[verifier::ext_equal]
pub enum EnvExpModel {
    CompileTime(Seq<char>),
    RuntimeLookup(Seq<char>),
}

impl View for EnvExpansion {
    type V = EnvExpModel;

    open spec fn view(&self) -> EnvExpModel {
        match self {
            EnvExpansion::CompileTime(v) => EnvExpModel::CompileTime(v@),
            EnvExpansion::RuntimeLookup(n) => EnvExpModel::RuntimeLookup(n@),
        }
    }
}

/// What the form with a default turns into. A `Const` variant is a literal
/// fixed at translation time; a `Runtime` variant is deferred lookup code over
/// the named variable with the default kept as the fallback.
#[derive(Clone, Debug, PartialEq, Eq)]
pub enum DefExpansion {
    /// The environment string itself, emitted as a string value.
    ConstStr(String),
    /// The truth test applied to the environment string.
    ConstBool(bool),
    /// The environment string parsed as a byte.
    ConstByte(u8),
    /// The environment string parsed as a character.
    ConstChar(char),
    /// The environment string parsed as the default's suffixed type.
    ConstInt(IntType, IntValue),
    /// The environment string emitted verbatim as an untyped integer literal,
    /// for a default with no suffix.
    ConstRawInt(String),
    /// Runtime lookup with a string fallback: the variable's value when set,
    /// the default otherwise.
    RuntimeStr(String, String),
    /// Runtime lookup with the truth test: the test's verdict when the
    /// variable is set, the default otherwise.
    RuntimeBool(String, bool),
    /// Runtime lookup with a byte parse: the parsed value when it parses, the
    /// default otherwise.
    RuntimeByte(String, u8),
    /// Runtime lookup with an integer parse into the suffixed type — no type
    /// when the default's token names none — falling back to the default
    /// token's value.
    RuntimeInt(String, Option<IntType>, String),
}

/// The mathematical shape of a `DefExpansion`: strings as character sequences,
/// parsed integers as numbers.
#[verifier::ext_equal]
pub enum ExpModel {
    ConstStr(Seq<char>),
    ConstBool(bool),
    ConstByte(u8),
    ConstChar(char),
    ConstInt(IntType, int),
    ConstRawInt(Seq<char>),
    RuntimeStr(Seq<char>, Seq<char>),
    RuntimeBool(Seq<char>, bool),
    RuntimeByte(Seq<char>, u8),
    RuntimeInt(Seq<char>, Option<IntType>, Seq<char>),
}

impl View for DefExpansion {
    type V = ExpModel;

    open spec fn view(&self) -> ExpModel {
        match self {
            DefExpansion::ConstStr(v) => ExpModel::ConstStr(v@),
            DefExpansion::ConstBool(b) => ExpModel::ConstBool(*b),
            DefExpansion::ConstByte(b) => ExpModel::ConstByte(*b),
            DefExpansion::ConstChar(c) => ExpModel::ConstChar(*c),
            DefExpansion::ConstInt(t, v) => ExpModel::ConstInt(*t, v.as_int()),
            DefExpansion::ConstRawInt(s) => ExpModel::ConstRawInt(s@),
            DefExpansion::RuntimeStr(n, d) => ExpModel::RuntimeStr(n@, d@),
            DefExpansion::RuntimeBool(n, d) => ExpModel::RuntimeBool(n@, *d),
            DefExpansion::RuntimeByte(n, d) => ExpModel::RuntimeByte(n@, *d),
            DefExpansion::RuntimeInt(n, t, tok) => ExpModel::RuntimeInt(n@, *t, tok@),
        }
    }
}

/// Whether an expansion is a value fixed at translation time, as opposed to
/// deferred lookup code.
pub open spec fn is_fixed(e: ExpModel) -> bool {
    match e {
        ExpModel::ConstStr(_) => true,
        ExpModel::ConstBool(_) => true,
        ExpModel::ConstByte(_) => true,
        ExpModel::ConstChar(_) => true,
        ExpModel::ConstInt(_, _) => true,
        ExpModel::ConstRawInt(_) => true,
        _ => false,
    }
}

/// What the optional form expands to: the build-time value when there is one,
/// a runtime lookup of the name otherwise.
pub open spec fn spec_expand_envtime(name: Seq<char>, comp: Option<Seq<char>>) -> EnvExpModel {
    match comp {
        Some(v) => EnvExpModel::CompileTime(v),
        None => EnvExpModel::RuntimeLookup(name),
    }
}

/// Expands the optional form, given the name and the value the build
/// environment holds for it.
pub fn expand_envtime(name: &str, comp: &Option<String>) -> (r: EnvExpansion)
    ensures
        r@ == spec_expand_envtime(name@, comp.deep_view()),
{
    match comp {
        Some(v) => EnvExpansion::CompileTime(v.clone()),
        None => EnvExpansion::RuntimeLookup(name.to_owned()),
    }
}

/// What the form with a default expands to, over the invocation's literal
/// arguments and the build-time value. Exactly two arguments are accepted, the
/// first a string naming the variable. With a build-time value the default
/// only picks the type: the value is converted by that kind's rule, and a
/// value that does not convert is a fatal error. Without one, the expansion
/// defers the lookup, keeping the default as the runtime fallback; only
/// string, boolean, byte and integer defaults have a runtime form.
pub open spec fn spec_expand_def(args: Seq<LitModel>, comp: Option<Seq<char>>) -> Result<
    ExpModel,
    ExpandError,
> {
    if args.len() != 2 {
        Err(ExpandError::WrongArgCount)
    } else {
        match args[0] {
            LitModel::Str(name) => match comp {
                Some(v) => match args[1] {
                    LitModel::Str(_) => Ok(ExpModel::ConstStr(v)),
                    LitModel::Bool(_) => Ok(ExpModel::ConstBool(spec_truthy(v))),
                    LitModel::Byte(_) => match spec_parse_int(IntType::U8, v) {
                        Some(n) => Ok(ExpModel::ConstByte(n as u8)),
                        None => Err(ExpandError::BadByteValue),
                    },
                    LitModel::Char(_) => if v.len() == 1 {
                        Ok(ExpModel::ConstChar(v[0]))
                    } else {
                        Err(ExpandError::BadCharValue)
                    },
                    LitModel::Int(tok) => match spec_token_suffix(tok) {
                        IntSuffix::Absent => Ok(ExpModel::ConstRawInt(v)),
                        IntSuffix::Known(t) => match spec_parse_int(t, v) {
                            Some(n) => Ok(ExpModel::ConstInt(t, n)),
                            None => Err(ExpandError::BadIntValue(t)),
                        },
                        IntSuffix::Unknown => Err(ExpandError::UnknownIntSuffix),
                    },
                    LitModel::Other => Err(ExpandError::UnsupportedDefault),
                },
                None => match args[1] {
                    LitModel::Str(d) => Ok(ExpModel::RuntimeStr(name, d)),
                    LitModel::Bool(d) => Ok(ExpModel::RuntimeBool(name, d)),
                    LitModel::Byte(d) => Ok(ExpModel::RuntimeByte(name, d)),
                    LitModel::Int(tok) => Ok(
                        ExpModel::RuntimeInt(
                            name,
                            match spec_token_suffix(tok) {
                                IntSuffix::Known(t) => Some(t),
                                _ => None,
                            },
                            tok,
                        ),
                    ),
                    LitModel::Char(_) => Err(ExpandError::UnsupportedDefault),
                    LitModel::Other => Err(ExpandError::UnsupportedDefault),
                },
            },
            _ => Err(ExpandError::FirstArgNotString),
        }
    }
}

/// Expands the form with a default, given the invocation's literal arguments
/// and the value the build environment holds for the named variable.
pub fn expand_envtime_def(args: &Vec<Lit>, comp: &Option<String>) -> (r: Result<
    DefExpansion,
    ExpandError,
>)
    ensures
        (match (r, spec_expand_def(args.deep_view(), comp.deep_view())) {
            (Ok(e), Ok(m)) => e@ == m,
            (Err(a), Err(b)) => a == b,
            _ => false,
        }),
{
    proof {
        assert(args.deep_view().len() == args@.len());
        assert(forall|i: int|
            0 <= i < args@.len() ==> args.deep_view()[i] == #[trigger] args@[i]@);
    }
    if args.len() != 2 {
        return Err(ExpandError::WrongArgCount);
    }
    let name: &String = match &args[0] {
        Lit::Str(s) => s,
        _ => { return Err(ExpandError::FirstArgNotString) },
    };
    let def = &args[1];
    match comp {
        Some(v) => match def {
            Lit::Str(_) => Ok(DefExpansion::ConstStr(v.clone())),
            Lit::Bool(_) => Ok(DefExpansion::ConstBool(is_truthy(v.as_str()))),
            Lit::Byte(_) => match parse_byte(v.as_str()) {
                Some(b) => Ok(DefExpansion::ConstByte(b)),
                None => Err(ExpandError::BadByteValue),
            },
            Lit::Char(_) => match parse_char_str(v.as_str()) {
                Some(c) => Ok(DefExpansion::ConstChar(c)),
                None => Err(ExpandError::BadCharValue),
            },
            Lit::Int(tok) => match token_suffix(tok.as_str()) {
                IntSuffix::Absent => Ok(DefExpansion::ConstRawInt(v.clone())),
                IntSuffix::Known(t) => match parse_typed_int(v.as_str(), t) {
                    Some(iv) => Ok(DefExpansion::ConstInt(t, iv)),
                    None => Err(ExpandError::BadIntValue(t)),
                },
                IntSuffix::Unknown => Err(ExpandError::UnknownIntSuffix),
            },
            Lit::Other => Err(ExpandError::UnsupportedDefault),
        },
        None => match def {
            Lit::Str(d) => Ok(DefExpansion::RuntimeStr(name.clone(), d.clone())),
            Lit::Bool(d) => Ok(DefExpansion::RuntimeBool(name.clone(), *d)),
            Lit::Byte(d) => Ok(DefExpansion::RuntimeByte(name.clone(), *d)),
            Lit::Int(tok) => {
                let ty = match token_suffix(tok.as_str()) {
                    IntSuffix::Known(t) => Some(t),
                    _ => None,
                };
                Ok(DefExpansion::RuntimeInt(name.clone(), ty, tok.clone()))
            },
            Lit::Char(_) => Err(ExpandError::UnsupportedDefault),
            Lit::Other => Err(ExpandError::UnsupportedDefault),
        },
    }
}

} // verus!
