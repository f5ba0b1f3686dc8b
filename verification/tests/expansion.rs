use envtime::expand::{
    expand_envtime, expand_envtime_def, DefExpansion, EnvExpansion, ExpandError,
};
use envtime::lit::{IntType, IntValue, Lit};
use envtime::resolve::{eval_def, eval_envtime, EnvValue};

fn ev(x: &str) -> Option<String> {
    Some(String::from(x))
}

fn args(name: &str, def: Lit) -> Vec<Lit> {
    vec![Lit::Str(String::from(name)), def]
}

fn int_lit(token: &str) -> Lit {
    Lit::Int(String::from(token))
}

#[test]
fn envtime_expansion_picks_the_phase() {
    assert_eq!(
        expand_envtime("HOST", &ev("456")),
        EnvExpansion::CompileTime(String::from("456"))
    );
    assert_eq!(
        expand_envtime("HOST", &None),
        EnvExpansion::RuntimeLookup(String::from("HOST"))
    );
}

#[test]
fn envtime_evaluation_follows_the_expansion() {
    let fixed = expand_envtime("HOST", &ev("456"));
    assert_eq!(eval_envtime(&fixed, &ev("123")), Some(String::from("456")));
    let deferred = expand_envtime("HOST", &None);
    assert_eq!(eval_envtime(&deferred, &ev("123")), Some(String::from("123")));
    assert_eq!(eval_envtime(&deferred, &None), None);
}

#[test]
fn def_expansion_validates_the_arguments() {
    assert_eq!(
        expand_envtime_def(&vec![Lit::Str(String::from("N"))], &None),
        Err(ExpandError::WrongArgCount)
    );
    assert_eq!(
        expand_envtime_def(
            &vec![
                Lit::Str(String::from("N")),
                Lit::Bool(true),
                Lit::Bool(false)
            ],
            &None
        ),
        Err(ExpandError::WrongArgCount)
    );
    assert_eq!(
        expand_envtime_def(&vec![Lit::Bool(true), Lit::Bool(false)], &None),
        Err(ExpandError::FirstArgNotString)
    );
    assert_eq!(
        expand_envtime_def(&args("N", Lit::Other), &ev("1")),
        Err(ExpandError::UnsupportedDefault)
    );
    assert_eq!(
        expand_envtime_def(&args("N", Lit::Other), &None),
        Err(ExpandError::UnsupportedDefault)
    );
}

#[test]
fn def_expansion_with_build_time_value() {
    assert_eq!(
        expand_envtime_def(&args("N", Lit::Str(String::from("test"))), &ev("456")),
        Ok(DefExpansion::ConstStr(String::from("456")))
    );
    assert_eq!(
        expand_envtime_def(&args("N", Lit::Bool(false)), &ev("yes")),
        Ok(DefExpansion::ConstBool(true))
    );
    assert_eq!(
        expand_envtime_def(&args("N", Lit::Byte(b'a')), &ev("10")),
        Ok(DefExpansion::ConstByte(10))
    );
    assert_eq!(
        expand_envtime_def(&args("N", Lit::Char('x')), &ev("q")),
        Ok(DefExpansion::ConstChar('q'))
    );
    assert_eq!(
        expand_envtime_def(&args("N", int_lit("50u8")), &ev("12")),
        Ok(DefExpansion::ConstInt(
            IntType::U8,
            IntValue {
                negative: false,
                magnitude: 12
            }
        ))
    );
    // A default token without a suffix passes the raw build-time string on.
    assert_eq!(
        expand_envtime_def(&args("N", int_lit("123")), &ev("456")),
        Ok(DefExpansion::ConstRawInt(String::from("456")))
    );
}

#[test]
fn def_expansion_build_time_failures() {
    assert_eq!(
        expand_envtime_def(&args("N", Lit::Byte(b'a')), &ev("256")),
        Err(ExpandError::BadByteValue)
    );
    assert_eq!(
        expand_envtime_def(&args("N", Lit::Char('x')), &ev("ab")),
        Err(ExpandError::BadCharValue)
    );
    assert_eq!(
        expand_envtime_def(&args("N", int_lit("50i8")), &ev("200")),
        Err(ExpandError::BadIntValue(IntType::I8))
    );
    assert_eq!(
        expand_envtime_def(&args("N", int_lit("5ups")), &ev("1")),
        Err(ExpandError::UnknownIntSuffix)
    );
}

#[test]
fn def_expansion_without_build_time_value() {
    assert_eq!(
        expand_envtime_def(&args("N", Lit::Str(String::from("test"))), &None),
        Ok(DefExpansion::RuntimeStr(
            String::from("N"),
            String::from("test")
        ))
    );
    assert_eq!(
        expand_envtime_def(&args("N", Lit::Bool(true)), &None),
        Ok(DefExpansion::RuntimeBool(String::from("N"), true))
    );
    assert_eq!(
        expand_envtime_def(&args("N", Lit::Byte(b'a')), &None),
        Ok(DefExpansion::RuntimeByte(String::from("N"), b'a'))
    );
    assert_eq!(
        expand_envtime_def(&args("N", int_lit("77u8")), &None),
        Ok(DefExpansion::RuntimeInt(
            String::from("N"),
            Some(IntType::U8),
            String::from("77u8")
        ))
    );
    assert_eq!(
        expand_envtime_def(&args("N", int_lit("123")), &None),
        Ok(DefExpansion::RuntimeInt(
            String::from("N"),
            None,
            String::from("123")
        ))
    );
    // A character default has no runtime lookup form.
    assert_eq!(
        expand_envtime_def(&args("N", Lit::Char('x')), &None),
        Err(ExpandError::UnsupportedDefault)
    );
}

#[test]
fn deferred_evaluation_parses_and_falls_back() {
    let exp = expand_envtime_def(&args("N", int_lit("77u8")), &None).unwrap();
    assert_eq!(
        eval_def(&exp, &ev("53")),
        EnvValue::Int(
            IntType::U8,
            IntValue {
                negative: false,
                magnitude: 53
            }
        )
    );
    assert_eq!(
        eval_def(&exp, &ev("not_a_number")),
        EnvValue::Int(
            IntType::U8,
            IntValue {
                negative: false,
                magnitude: 77
            }
        )
    );
    assert_eq!(
        eval_def(&exp, &None),
        EnvValue::Int(
            IntType::U8,
            IntValue {
                negative: false,
                magnitude: 77
            }
        )
    );

    let exp = expand_envtime_def(&args("N", Lit::Bool(true)), &None).unwrap();
    assert_eq!(eval_def(&exp, &ev("false")), EnvValue::Bool(false));
    assert_eq!(eval_def(&exp, &None), EnvValue::Bool(true));

    let exp = expand_envtime_def(&args("N", Lit::Str(String::from("test"))), &None).unwrap();
    assert_eq!(eval_def(&exp, &ev("not")), EnvValue::Str(String::from("not")));
    assert_eq!(eval_def(&exp, &None), EnvValue::Str(String::from("test")));

    let exp = expand_envtime_def(&args("N", Lit::Byte(b'a')), &None).unwrap();
    assert_eq!(eval_def(&exp, &ev("53")), EnvValue::Byte(53));
    assert_eq!(eval_def(&exp, &None), EnvValue::Byte(b'a'));
}

#[test]
fn fixed_evaluation_ignores_the_runtime_environment() {
    let exp = expand_envtime_def(&args("N", Lit::Str(String::from("test"))), &ev("456")).unwrap();
    assert_eq!(eval_def(&exp, &ev("123")), EnvValue::Str(String::from("456")));
    assert_eq!(eval_def(&exp, &None), EnvValue::Str(String::from("456")));

    let exp = expand_envtime_def(&args("N", int_lit("50i128")), &ev("25")).unwrap();
    assert_eq!(
        eval_def(&exp, &ev("10")),
        EnvValue::Int(
            IntType::I128,
            IntValue {
                negative: false,
                magnitude: 25
            }
        )
    );
}

#[test]
fn negative_default_token_evaluates() {
    let exp = expand_envtime_def(&args("N", int_lit("-5i8")), &None).unwrap();
    assert_eq!(
        exp,
        DefExpansion::RuntimeInt(String::from("N"), Some(IntType::I8), String::from("-5i8"))
    );
    assert_eq!(
        eval_def(&exp, &None),
        EnvValue::Int(
            IntType::I8,
            IntValue {
                negative: true,
                magnitude: 5
            }
        )
    );
    assert_eq!(
        eval_def(&exp, &ev("-54")),
        EnvValue::Int(
            IntType::I8,
            IntValue {
                negative: true,
                magnitude: 54
            }
        )
    );
}
