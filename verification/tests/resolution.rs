use envtime::expand::ExpandError;
use envtime::lit::{IntType, IntValue};
use envtime::resolve::{
    resolve_bool_def, resolve_byte_def, resolve_envtime, resolve_int_def, resolve_str_def,
};

fn ev(x: &str) -> Option<String> {
    Some(String::from(x))
}

fn pos(magnitude: u128) -> IntValue {
    IntValue {
        negative: false,
        magnitude,
    }
}

fn neg(magnitude: u128) -> IntValue {
    IntValue {
        negative: true,
        magnitude,
    }
}

#[test]
fn main_tests() {
    let var = resolve_envtime(&None, &None).unwrap_or_else(|| String::from("012"));
    assert_eq!(var, String::from("012"));

    let var = resolve_envtime(&None, &ev("123"));
    assert_eq!(var, Some(String::from("123")));

    let var = resolve_envtime(&ev("456"), &ev("123"));
    assert_eq!(var, Some(String::from("456")));
}

#[test]
fn compilation_def_tests() {
    let var = resolve_bool_def(&ev("true"), &ev("false"), false);
    assert_eq!(var, true);

    let var = resolve_byte_def(&ev("10"), &None, b'a');
    assert_eq!(var, Ok(10u8));

    let var = resolve_int_def(&ev("12"), &ev("0"), IntType::U8, pos(50));
    assert_eq!(var, Ok(pos(12)));

    let var = resolve_int_def(&ev("25"), &ev("10"), IntType::I128, pos(50));
    assert_eq!(var, Ok(pos(25)));
}

#[test]
fn runtime_def_tests() {
    assert_eq!(resolve_bool_def(&None, &None, true), true);
    assert_eq!(resolve_bool_def(&None, &ev("false"), true), false);

    assert_eq!(resolve_str_def(&None, &None, "test"), "test");
    assert_eq!(resolve_str_def(&None, &ev("not"), "test"), "not");

    assert_eq!(resolve_byte_def(&None, &None, b'a'), Ok(b'a'));
    assert_eq!(resolve_byte_def(&None, &ev("53"), b'a'), Ok(53u8));

    assert_eq!(
        resolve_int_def(&None, &None, IntType::U8, pos(77)),
        Ok(pos(77))
    );
    assert_eq!(
        resolve_int_def(&None, &ev("53"), IntType::U8, pos(77)),
        Ok(pos(53))
    );

    assert_eq!(
        resolve_int_def(&None, &None, IntType::I8, neg(5)),
        Ok(neg(5))
    );
    assert_eq!(
        resolve_int_def(&None, &ev("-54"), IntType::I8, neg(5)),
        Ok(neg(54))
    );

    assert_eq!(
        resolve_int_def(&None, &None, IntType::U16, pos(312)),
        Ok(pos(312))
    );
    assert_eq!(
        resolve_int_def(&None, &ev("432"), IntType::U16, pos(312)),
        Ok(pos(432))
    );

    assert_eq!(
        resolve_int_def(&None, &None, IntType::I16, neg(674)),
        Ok(neg(674))
    );
    assert_eq!(
        resolve_int_def(&None, &ev("-768"), IntType::I16, neg(674)),
        Ok(neg(768))
    );

    assert_eq!(
        resolve_int_def(&None, &None, IntType::U32, pos(2343546)),
        Ok(pos(2343546))
    );
    assert_eq!(
        resolve_int_def(&None, &ev("78356765"), IntType::U32, pos(2343546)),
        Ok(pos(78356765))
    );

    assert_eq!(
        resolve_int_def(&None, &None, IntType::I32, neg(345568657)),
        Ok(neg(345568657))
    );
    assert_eq!(
        resolve_int_def(&None, &ev("-565782768"), IntType::I32, neg(345568657)),
        Ok(neg(565782768))
    );

    assert_eq!(
        resolve_int_def(&None, &None, IntType::U64, pos(47456877846789)),
        Ok(pos(47456877846789))
    );
    assert_eq!(
        resolve_int_def(
            &None,
            &ev("89457345673456"),
            IntType::U64,
            pos(47456877846789)
        ),
        Ok(pos(89457345673456))
    );

    assert_eq!(
        resolve_int_def(&None, &None, IntType::I64, neg(5635675681006)),
        Ok(neg(5635675681006))
    );
    assert_eq!(
        resolve_int_def(
            &None,
            &ev("-1345667679780"),
            IntType::I64,
            neg(5635675681006)
        ),
        Ok(neg(1345667679780))
    );

    assert_eq!(
        resolve_int_def(&None, &None, IntType::U128, pos(987234578934529873452978)),
        Ok(pos(987234578934529873452978))
    );
    assert_eq!(
        resolve_int_def(
            &None,
            &ev("783457823548976345296783"),
            IntType::U128,
            pos(987234578934529873452978)
        ),
        Ok(pos(783457823548976345296783))
    );

    assert_eq!(
        resolve_int_def(&None, &None, IntType::I128, neg(90234513046340598234675)),
        Ok(neg(90234513046340598234675))
    );
    assert_eq!(
        resolve_int_def(
            &None,
            &ev("-12345983458945603456064"),
            IntType::I128,
            neg(90234513046340598234675)
        ),
        Ok(neg(12345983458945603456064))
    );
}

#[test]
fn compile_time_wins_over_runtime_string() {
    // Build-time "456", runtime "123", string default: the build-time value stands.
    assert_eq!(resolve_str_def(&ev("456"), &ev("123"), "test"), "456");
    assert_eq!(resolve_envtime(&ev("456"), &ev("123")), Some(String::from("456")));
}

#[test]
fn absent_everywhere_bool_then_runtime_true() {
    // Absent in both environments, default false: resolves to false; a runtime
    // "true" then flips it.
    assert_eq!(resolve_bool_def(&None, &None, false), false);
    assert_eq!(resolve_bool_def(&None, &ev("true"), false), true);
}

#[test]
fn byte_default_with_runtime_value_and_garbage() {
    // Default 77u8: runtime "53" resolves to 53, an unparsable runtime value
    // leaves the default.
    assert_eq!(
        resolve_int_def(&None, &ev("53"), IntType::U8, pos(77)),
        Ok(pos(53))
    );
    assert_eq!(
        resolve_int_def(&None, &ev("not_a_number"), IntType::U8, pos(77)),
        Ok(pos(77))
    );
}

#[test]
fn truthy_strings_accepted() {
    for good in ["y", "Y", "Yes", "yes", "true"] {
        assert_eq!(resolve_bool_def(&ev(good), &None, false), true);
        assert_eq!(resolve_bool_def(&None, &ev(good), false), true);
    }
    for bad in ["True", "YES", "n", "no", "1", "", "y ", "tru"] {
        assert_eq!(resolve_bool_def(&ev(bad), &None, true), false);
        assert_eq!(resolve_bool_def(&None, &ev(bad), true), false);
    }
}

#[test]
fn integer_width_is_respected() {
    // A u8 default rejects 300 at build time and ignores it at runtime.
    assert_eq!(
        resolve_int_def(&ev("300"), &None, IntType::U8, pos(77)),
        Err(ExpandError::BadIntValue(IntType::U8))
    );
    assert_eq!(
        resolve_int_def(&None, &ev("300"), IntType::U8, pos(77)),
        Ok(pos(77))
    );
    // An i128 default accepts values far outside the 64-bit range.
    assert_eq!(
        resolve_int_def(&ev("987234578934529873452978"), &None, IntType::I128, pos(1)),
        Ok(pos(987234578934529873452978))
    );
    // A u8 default rejects a negative value; an i8 default accepts it.
    assert_eq!(
        resolve_int_def(&ev("-1"), &None, IntType::U8, pos(0)),
        Err(ExpandError::BadIntValue(IntType::U8))
    );
    assert_eq!(
        resolve_int_def(&ev("-1"), &None, IntType::I8, pos(0)),
        Ok(neg(1))
    );
}

#[test]
fn byte_resolution_errors_only_at_build_time() {
    assert_eq!(
        resolve_byte_def(&ev("260"), &None, 7),
        Err(ExpandError::BadByteValue)
    );
    assert_eq!(resolve_byte_def(&None, &ev("260"), 7), Ok(7));
    assert_eq!(resolve_byte_def(&ev("0"), &None, 7), Ok(0));
}
