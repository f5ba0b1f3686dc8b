//! What an expansion evaluates to once the program runs, and the resolution
//! laws. Translation-time strictness and runtime leniency meet here: a value
//! fixed at translation time is final, while the deferred lookups read the
//! runtime environment and fall back to the default — never failing — when the
//! variable is missing or malformed.
//!
//! A deferred integer lookup whose default token carries no recognised type
//! suffix takes its parse type from inference at the splice site; that lies
//! outside this model, so its evaluation is left undefined here.

use vstd::pervasive::unreached;
use vstd::prelude::*;

use crate::expand::{is_fixed, spec_expand_def, spec_expand_envtime, DefExpansion, EnvExpModel,
    EnvExpansion, ExpModel, ExpandError};
use crate::lit::{IntType, IntValue, LitModel};
use crate::parse::{is_truthy, parse_byte, parse_typed_int, spec_parse_int, spec_truthy};
use crate::token::{spec_token_digits, spec_token_suffix, token_digits, IntSuffix};

verus! {

/// The value an invocation stands for once the program runs.
#[derive(Clone, Debug, PartialEq, Eq)]
pub enum EnvValue {
    Str(String),
    Bool(bool),
    Byte(u8),
    Char(char),
    Int(IntType, IntValue),
    /// An untyped integer literal, kept as its text.
    RawInt(String),
}

/// The mathematical shape of an `EnvValue`.
#[verifier::ext_equal]
pub enum ValueModel {
    Str(Seq<char>),
    Bool(bool),
    Byte(u8),
    Char(char),
    Int(IntType, int),
    RawInt(Seq<char>),
}

impl View for EnvValue {
    type V = ValueModel;

    open spec fn view(&self) -> ValueModel {
        match self {
            EnvValue::Str(s) => ValueModel::Str(s@),
            EnvValue::Bool(b) => ValueModel::Bool(*b),
            EnvValue::Byte(b) => ValueModel::Byte(*b),
            EnvValue::Char(c) => ValueModel::Char(*c),
            EnvValue::Int(t, v) => ValueModel::Int(*t, v.as_int()),
            EnvValue::RawInt(s) => ValueModel::RawInt(s@),
        }
    }
}

/// What the optional form's expansion yields at runtime: the fixed value, or
/// whatever the runtime lookup finds.
pub open spec fn spec_eval_envtime(e: EnvExpModel, run: Option<Seq<char>>) -> Option<Seq<char>> {
    match e {
        EnvExpModel::CompileTime(v) => Some(v),
        EnvExpModel::RuntimeLookup(_) => run,
    }
}

/// Evaluates the optional form's expansion against the runtime environment's
/// value for the name.
pub fn eval_envtime(e: &EnvExpansion, run: &Option<String>) -> (r: Option<String>)
    ensures
        r.deep_view() == spec_eval_envtime(e@, run.deep_view()),
{
    match e {
        EnvExpansion::CompileTime(v) => Some(v.clone()),
        EnvExpansion::RuntimeLookup(_) => match run {
            Some(s) => Some(s.clone()),
            None => None,
        },
    }
}

/// What the defaulted form's expansion yields at runtime. A `Const` expansion
/// is already a value. The `Runtime` expansions look the variable up: a
/// missing or unparsable value leaves the default. An integer expansion
/// without a recognised suffix, or whose default token does not denote a value
/// of its type, is not modelled.
pub open spec fn spec_eval_def(e: ExpModel, run: Option<Seq<char>>) -> Option<ValueModel> {
    match e {
        ExpModel::ConstStr(v) => Some(ValueModel::Str(v)),
        ExpModel::ConstBool(b) => Some(ValueModel::Bool(b)),
        ExpModel::ConstByte(b) => Some(ValueModel::Byte(b)),
        ExpModel::ConstChar(c) => Some(ValueModel::Char(c)),
        ExpModel::ConstInt(t, n) => Some(ValueModel::Int(t, n)),
        ExpModel::ConstRawInt(v) => Some(ValueModel::RawInt(v)),
        ExpModel::RuntimeStr(_, d) => Some(
            ValueModel::Str(
                match run {
                    Some(s) => s,
                    None => d,
                },
            ),
        ),
        ExpModel::RuntimeBool(_, d) => Some(
            ValueModel::Bool(
                match run {
                    Some(s) => spec_truthy(s),
                    None => d,
                },
            ),
        ),
        ExpModel::RuntimeByte(_, d) => Some(
            ValueModel::Byte(
                match run {
                    Some(s) => match spec_parse_int(IntType::U8, s) {
                        Some(n) => n as u8,
                        None => d,
                    },
                    None => d,
                },
            ),
        ),
        ExpModel::RuntimeInt(_, oty, tok) => match oty {
            Some(t) => match spec_parse_int(t, spec_token_digits(tok)) {
                Some(dv) => Some(
                    ValueModel::Int(
                        t,
                        match run {
                            Some(s) => match spec_parse_int(t, s) {
                                Some(n) => n,
                                None => dv,
                            },
                            None => dv,
                        },
                    ),
                ),
                None => None,
            },
            None => None,
        },
    }
}

/// Evaluates a defaulted expansion against the runtime environment's value
/// for the name.
pub fn eval_def(e: &DefExpansion, run: &Option<String>) -> (r: EnvValue)
    requires
        spec_eval_def(e@, run.deep_view()) is Some,
    ensures
        spec_eval_def(e@, run.deep_view()) == Some(r@),
{
    match e {
        DefExpansion::ConstStr(v) => EnvValue::Str(v.clone()),
        DefExpansion::ConstBool(b) => EnvValue::Bool(*b),
        DefExpansion::ConstByte(b) => EnvValue::Byte(*b),
        DefExpansion::ConstChar(c) => EnvValue::Char(*c),
        DefExpansion::ConstInt(t, v) => EnvValue::Int(*t, *v),
        DefExpansion::ConstRawInt(v) => EnvValue::RawInt(v.clone()),
        DefExpansion::RuntimeStr(_, d) => EnvValue::Str(
            match run {
                Some(s) => s.clone(),
                None => d.clone(),
            },
        ),
        DefExpansion::RuntimeBool(_, d) => EnvValue::Bool(
            match run {
                Some(s) => is_truthy(s.as_str()),
                None => *d,
            },
        ),
        DefExpansion::RuntimeByte(_, d) => EnvValue::Byte(
            match run {
                Some(s) => match parse_byte(s.as_str()) {
                    Some(b) => b,
                    None => *d,
                },
                None => *d,
            },
        ),
        DefExpansion::RuntimeInt(_, oty, tok) => match oty {
            Some(t) => {
                let digits = token_digits(tok.as_str());
                match parse_typed_int(digits, *t) {
                    Some(dv) => {
                        let val = match run {
                            Some(s) => match parse_typed_int(s.as_str(), *t) {
                                Some(v) => v,
                                None => dv,
                            },
                            None => dv,
                        };
                        EnvValue::Int(*t, val)
                    },
                    None => unreached(),
                }
            },
            None => unreached(),
        },
    }
}

/// What the optional form resolves to over both environments: the build-time
/// value when there is one, the runtime value otherwise.
pub open spec fn spec_resolve_envtime(comp: Option<Seq<char>>, run: Option<Seq<char>>) -> Option<
    Seq<char>,
> {
    match comp {
        Some(v) => Some(v),
        None => run,
    }
}

/// Resolves the optional form end to end.
pub fn resolve_envtime(comp: &Option<String>, run: &Option<String>) -> (r: Option<String>)
    ensures
        r.deep_view() == spec_resolve_envtime(comp.deep_view(), run.deep_view()),
{
    match comp {
        Some(v) => Some(v.clone()),
        None => match run {
            Some(s) => Some(s.clone()),
            None => None,
        },
    }
}

/// Resolves the defaulted form for a string default: the build-time value
/// wins, then the runtime value, then the default.
pub fn resolve_str_def(comp: &Option<String>, run: &Option<String>, def: &str) -> (r: String)
    ensures
        r@ == (match comp.deep_view() {
            Some(v) => v,
            None => match run.deep_view() {
                Some(s) => s,
                None => def@,
            },
        }),
{
    match comp {
        Some(v) => v.clone(),
        None => match run {
            Some(s) => s.clone(),
            None => def.to_owned(),
        },
    }
}

/// Resolves the defaulted form for a boolean default: whichever environment
/// decides, its string goes through the truth test; only when both are silent
/// does the default itself stand.
pub fn resolve_bool_def(comp: &Option<String>, run: &Option<String>, def: bool) -> (r: bool)
    ensures
        r == (match comp.deep_view() {
            Some(v) => spec_truthy(v),
            None => match run.deep_view() {
                Some(s) => spec_truthy(s),
                None => def,
            },
        }),
{
    match comp {
        Some(v) => is_truthy(v.as_str()),
        None => match run {
            Some(s) => is_truthy(s.as_str()),
            None => def,
        },
    }
}

/// Resolves the defaulted form for a byte default. A build-time value that
/// does not parse is a fatal error; a runtime value that does not parse, or no
/// runtime value at all, leaves the default.
pub fn resolve_byte_def(comp: &Option<String>, run: &Option<String>, def: u8) -> (r: Result<
    u8,
    ExpandError,
>)
    ensures
        (match comp.deep_view() {
            Some(v) => match spec_parse_int(IntType::U8, v) {
                Some(n) => r == Ok::<u8, ExpandError>(n as u8),
                None => r == Err::<u8, ExpandError>(ExpandError::BadByteValue),
            },
            None => r == Ok::<u8, ExpandError>(
                match run.deep_view() {
                    Some(s) => match spec_parse_int(IntType::U8, s) {
                        Some(n) => n as u8,
                        None => def,
                    },
                    None => def,
                },
            ),
        }),
{
    match comp {
        Some(v) => match parse_byte(v.as_str()) {
            Some(b) => Ok(b),
            None => Err(ExpandError::BadByteValue),
        },
        None => Ok(
            match run {
                Some(s) => match parse_byte(s.as_str()) {
                    Some(b) => b,
                    None => def,
                },
                None => def,
            },
        ),
    }
}

/// Resolves the defaulted form for an integer default of the given type. A
/// build-time value that does not parse as that exact type is a fatal error; a
/// runtime value that does not parse, or no runtime value at all, leaves the
/// default.
pub fn resolve_int_def(comp: &Option<String>, run: &Option<String>, t: IntType, def: IntValue) -> (r:
    Result<IntValue, ExpandError>)
    requires
        def.fits(t),
    ensures
        (match comp.deep_view() {
            Some(v) => match spec_parse_int(t, v) {
                Some(n) => r matches Ok(x) && x.as_int() == n,
                None => r == Err::<IntValue, ExpandError>(ExpandError::BadIntValue(t)),
            },
            None => r matches Ok(x) && x.as_int() == (match run.deep_view() {
                Some(s) => match spec_parse_int(t, s) {
                    Some(n) => n,
                    None => def.as_int(),
                },
                None => def.as_int(),
            }),
        }),
        r matches Ok(x) ==> x.fits(t),
{
    match comp {
        Some(v) => match parse_typed_int(v.as_str(), t) {
            Some(x) => Ok(x),
            None => Err(ExpandError::BadIntValue(t)),
        },
        None => Ok(
            match run {
                Some(s) => match parse_typed_int(s.as_str(), t) {
                    Some(x) => x,
                    None => def,
                },
                None => def,
            },
        ),
    }
}

/// Law: resolving the optional form is evaluating its expansion — whatever
/// name the invocation carries.
pub proof fn lemma_envtime_resolution(
    name: Seq<char>,
    comp: Option<Seq<char>>,
    run: Option<Seq<char>>,
)
    ensures
        spec_eval_envtime(spec_expand_envtime(name, comp), run) == spec_resolve_envtime(comp, run),
{
}

/// Law: a name found at translation time resolves to the translation-time
/// value; whatever the runtime environment holds changes nothing, for both
/// forms and every supported literal kind.
pub proof fn lemma_compile_time_wins(
    args: Seq<LitModel>,
    name: Seq<char>,
    v: Seq<char>,
    run1: Option<Seq<char>>,
    run2: Option<Seq<char>>,
)
    ensures
        spec_eval_envtime(spec_expand_envtime(name, Some(v)), run1) == Some(v),
        spec_expand_def(args, Some(v)) matches Ok(e) ==> is_fixed(e),
        spec_expand_def(args, Some(v)) matches Ok(e) ==> spec_eval_def(e, run1) == spec_eval_def(
            e,
            run2,
        ),
{
    match spec_expand_def(args, Some(v)) {
        Ok(e) => {
            match e {
                ExpModel::RuntimeStr(_, _) => {
                    assert(false);
                },
                ExpModel::RuntimeBool(_, _) => {
                    assert(false);
                },
                ExpModel::RuntimeByte(_, _) => {
                    assert(false);
                },
                ExpModel::RuntimeInt(_, _, _) => {
                    assert(false);
                },
                _ => {
                },
            }
        },
        Err(_) => {
        },
    }
}

/// Law: a name absent at translation time defers to a runtime lookup, and a
/// runtime value that parses for the default's kind decides the result.
pub proof fn lemma_runtime_value_used(args: Seq<LitModel>, name: Seq<char>, s: Seq<char>)
    ensures
        spec_eval_envtime(spec_expand_envtime(name, None), Some(s)) == Some(s),
        spec_expand_def(args, None) matches Ok(e) ==> !is_fixed(e),
        spec_expand_def(args, None) matches Ok(e) ==> match args[1] {
            LitModel::Str(_) => spec_eval_def(e, Some(s)) == Some(ValueModel::Str(s)),
            LitModel::Bool(_) => spec_eval_def(e, Some(s)) == Some(
                ValueModel::Bool(spec_truthy(s)),
            ),
            LitModel::Byte(_) => spec_parse_int(IntType::U8, s) matches Some(n) ==> spec_eval_def(
                e,
                Some(s),
            ) == Some(ValueModel::Byte(n as u8)),
            LitModel::Int(tok) => spec_token_suffix(tok) matches IntSuffix::Known(t)
                ==> (spec_parse_int(t, s) matches Some(n) ==> (spec_eval_def(e, Some(s)) is Some
                ==> spec_eval_def(e, Some(s)) == Some(ValueModel::Int(t, n)))),
            _ => true,
        },
{
}

/// Law: with the name absent at translation time and at runtime, the default
/// itself is the result — and the optional form resolves to nothing.
pub proof fn lemma_runtime_default(args: Seq<LitModel>, name: Seq<char>)
    ensures
        spec_eval_envtime(spec_expand_envtime(name, None), None::<Seq<char>>) is None,
        spec_expand_def(args, None) matches Ok(e) ==> match args[1] {
            LitModel::Str(d) => spec_eval_def(e, None::<Seq<char>>) == Some(ValueModel::Str(d)),
            LitModel::Bool(d) => spec_eval_def(e, None::<Seq<char>>) == Some(ValueModel::Bool(d)),
            LitModel::Byte(d) => spec_eval_def(e, None::<Seq<char>>) == Some(ValueModel::Byte(d)),
            LitModel::Int(tok) => spec_token_suffix(tok) matches IntSuffix::Known(t)
                ==> (spec_parse_int(t, spec_token_digits(tok)) matches Some(dv) ==> spec_eval_def(
                e,
                None::<Seq<char>>,
            ) == Some(ValueModel::Int(t, dv))),
            _ => true,
        },
{
}

} // verus!
