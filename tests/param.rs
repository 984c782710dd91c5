use kmod_loader::param::{next_arg, parameq, parse_args, KernelParam, ParamError, ParamValue};

fn bytes(s: &str) -> Vec<u8> {
    s.as_bytes().to_vec()
}

fn test_params() -> Vec<KernelParam> {
    vec![
        KernelParam::new("test_int", ParamValue::Int(0)),
        KernelParam::new("test_bool", ParamValue::Bool(false)),
        KernelParam::new("test_str", ParamValue::Charp(None)),
    ]
}

fn int_of(p: &KernelParam) -> i32 {
    match p.value() {
        ParamValue::Int(v) => *v,
        _ => panic!("not an int parameter"),
    }
}

fn bool_of(p: &KernelParam) -> bool {
    match p.value() {
        ParamValue::Bool(v) => *v,
        _ => panic!("not a bool parameter"),
    }
}

fn str_of(p: &KernelParam) -> Option<Vec<u8>> {
    match p.value() {
        ParamValue::Charp(v) => v.clone(),
        _ => panic!("not a string parameter"),
    }
}

/// Parses `s` as a value of the type of `proto`, and formats the result.
fn parse_and_format(proto: ParamValue, s: &str) -> (ParamValue, String) {
    let v = proto.parse(&bytes(s)).expect("Failed to parse");
    let text = String::from_utf8(v.format()).expect("Invalid UTF-8");
    (v, text)
}

#[test]
fn test_parameq() {
    let a = bytes("param-name");
    let b = bytes("param_name");
    let c = bytes("paramname");
    assert!(parameq(&a, &b));
    assert!(!parameq(&a, &c));
}

#[test]
fn test_next_arg() {
    let args = b"param1=val1 param2=\"val 2\" param3=val3\0".to_vec();
    let (param, val, rest) = next_arg(&args, 0);
    assert_eq!(param, b"param1");
    assert_eq!(val, Some(b"val1".to_vec()));
    assert_eq!(&args[rest..], b"param2=\"val 2\" param3=val3\0");
    let (param, val, rest) = next_arg(&args, rest);
    assert_eq!(param, b"param2");
    assert_eq!(val, Some(b"val 2".to_vec()));
    assert_eq!(&args[rest..], b"param3=val3\0");
    let (param, val, rest) = next_arg(&args, rest);
    assert_eq!(param, b"param3");
    assert_eq!(val, Some(b"val3".to_vec()));
    assert_eq!(&args[rest..], b"\0");
}

#[test]
fn test_next_arg_no_value() {
    let args = b"param1 param2=\"val 2\" -- param3=val3\0".to_vec();
    let (param, val, rest) = next_arg(&args, 0);
    assert_eq!(param, b"param1");
    assert_eq!(val, None);
    assert_eq!(&args[rest..], b"param2=\"val 2\" -- param3=val3\0");
    let (param, val, rest) = next_arg(&args, rest);
    assert_eq!(param, b"param2");
    assert_eq!(val, Some(b"val 2".to_vec()));
    assert_eq!(&args[rest..], b"-- param3=val3\0");
}

#[test]
fn test_parse_args_single_int() {
    let mut params = test_params();
    let result = parse_args("test", bytes("test_int=42"), &mut params, i16::MIN, i16::MAX);
    assert!(result.is_ok());
    assert_eq!(int_of(&params[0]), 42);
}

#[test]
fn test_parse_args_multiple_params() {
    let mut params = test_params();
    let result = parse_args("test", bytes("test_int=123 test_bool=y test_str=hello"), &mut params, i16::MIN, i16::MAX);
    assert!(result.is_ok());
    assert_eq!(int_of(&params[0]), 123);
    assert_eq!(bool_of(&params[1]), true);
    assert_eq!(str_of(&params[2]), Some(bytes("hello")));
}

#[test]
fn test_parse_args_with_quotes() {
    let mut params = test_params();
    let result = parse_args("test", bytes("test_str=\"hello world\""), &mut params, i16::MIN, i16::MAX);
    assert!(result.is_ok());
    assert_eq!(str_of(&params[2]), Some(bytes("hello world")));
}

#[test]
fn test_parse_args_bool_no_value() {
    let mut params = test_params();
    let result = parse_args("test", bytes("test_bool"), &mut params, i16::MIN, i16::MAX);
    assert!(result.is_ok());
    assert_eq!(bool_of(&params[1]), true);
}

#[test]
fn test_parse_args_double_dash() {
    let mut params = test_params();
    let result = parse_args("test", bytes("test_int=10 -- test_bool=y"), &mut params, i16::MIN, i16::MAX);
    assert!(result.is_ok());
    assert_eq!(int_of(&params[0]), 10);
    assert_eq!(result.unwrap(), bytes("test_bool=y"));
    assert_eq!(bool_of(&params[1]), false);
}

#[test]
fn test_parse_args_unknown_param() {
    let mut params = test_params();
    let result = parse_args("test", bytes("unknown_param=123"), &mut params, i16::MIN, i16::MAX);
    assert!(result.is_err());
    assert_eq!(result.unwrap_err(), ParamError::ENOENT);
}

#[test]
fn test_parse_args_invalid_value() {
    let mut params = test_params();
    let result = parse_args("test", bytes("test_int=not_a_number"), &mut params, i16::MIN, i16::MAX);
    assert!(result.is_err());
}

#[test]
fn test_parse_args_hyphen_underscore() {
    let mut params = test_params();
    let result = parse_args("test", bytes("test-int=999"), &mut params, i16::MIN, i16::MAX);
    assert!(result.is_ok());
    assert_eq!(int_of(&params[0]), 999);
}

#[test]
fn test_parse_args_hex_values() {
    let mut params = test_params();
    let result = parse_args("test", bytes("test_int=0xFF"), &mut params, i16::MIN, i16::MAX);
    assert!(result.is_ok());
    assert_eq!(int_of(&params[0]), 255);
}

#[test]
fn test_parse_args_empty_string() {
    let mut params = test_params();
    let result = parse_args("test", bytes(""), &mut params, i16::MIN, i16::MAX);
    assert!(result.is_ok());
    assert_eq!(result.unwrap(), bytes(""));
}

#[test]
fn test_parse_args_spaces() {
    let mut params = test_params();
    let result = parse_args("test", bytes("  test_int=50  test_bool=n  "), &mut params, i16::MIN, i16::MAX);
    assert!(result.is_ok());
    assert_eq!(int_of(&params[0]), 50);
    assert_eq!(bool_of(&params[1]), false);
}

#[test]
fn test_byte_param() {
    let (v, s) = parse_and_format(ParamValue::Byte(0), "255");
    assert!(matches!(v, ParamValue::Byte(255)));
    assert_eq!(s, "255\n");
    let (v, s) = parse_and_format(ParamValue::Byte(0), "0x7F");
    assert!(matches!(v, ParamValue::Byte(127)));
    assert_eq!(s, "127\n");
    let (v, s) = parse_and_format(ParamValue::Byte(0), "0377");
    assert!(matches!(v, ParamValue::Byte(255)));
    assert_eq!(s, "255\n");
}

#[test]
fn test_short_param() {
    let (v, s) = parse_and_format(ParamValue::Short(0), "32767");
    assert!(matches!(v, ParamValue::Short(32767)));
    assert_eq!(s, "32767\n");
    let (v, s) = parse_and_format(ParamValue::Short(0), "-32768");
    assert!(matches!(v, ParamValue::Short(-32768)));
    assert_eq!(s, "-32768\n");
    let (v, s) = parse_and_format(ParamValue::Short(0), "0x7FFF");
    assert!(matches!(v, ParamValue::Short(32767)));
    assert_eq!(s, "32767\n");
    let (v, s) = parse_and_format(ParamValue::Short(0), "077777");
    assert!(matches!(v, ParamValue::Short(32767)));
    assert_eq!(s, "32767\n");
}

#[test]
fn test_ushort_param() {
    for text in ["65535", "0xFFFF", "0177777"] {
        let (v, s) = parse_and_format(ParamValue::Ushort(0), text);
        assert!(matches!(v, ParamValue::Ushort(65535)));
        assert_eq!(s, "65535\n");
    }
}

#[test]
fn test_int_param() {
    let (v, s) = parse_and_format(ParamValue::Int(0), "2147483647");
    assert!(matches!(v, ParamValue::Int(2147483647)));
    assert_eq!(s, "2147483647\n");
    let (v, s) = parse_and_format(ParamValue::Int(0), "-2147483648");
    assert!(matches!(v, ParamValue::Int(-2147483648)));
    assert_eq!(s, "-2147483648\n");
    let (v, s) = parse_and_format(ParamValue::Int(0), "0x7FFFFFFF");
    assert!(matches!(v, ParamValue::Int(2147483647)));
    assert_eq!(s, "2147483647\n");
    let (v, s) = parse_and_format(ParamValue::Int(0), "017777777777");
    assert!(matches!(v, ParamValue::Int(2147483647)));
    assert_eq!(s, "2147483647\n");
}

#[test]
fn test_uint_param() {
    for text in ["4294967295", "0xFFFFFFFF", "037777777777"] {
        let (v, s) = parse_and_format(ParamValue::Uint(0), text);
        assert!(matches!(v, ParamValue::Uint(4294967295)));
        assert_eq!(s, "4294967295\n");
    }
}

#[test]
fn test_long_param() {
    let (v, s) = parse_and_format(ParamValue::Long(0), "9223372036854775807");
    assert!(matches!(v, ParamValue::Long(9223372036854775807)));
    assert_eq!(s, "9223372036854775807\n");
    let (v, s) = parse_and_format(ParamValue::Long(0), "-9223372036854775808");
    assert!(matches!(v, ParamValue::Long(-9223372036854775808)));
    assert_eq!(s, "-9223372036854775808\n");
    let (v, s) = parse_and_format(ParamValue::Long(0), "0x7FFFFFFFFFFFFFFF");
    assert!(matches!(v, ParamValue::Long(9223372036854775807)));
    assert_eq!(s, "9223372036854775807\n");
    let (v, s) = parse_and_format(ParamValue::Long(0), "0777777777777777777777");
    assert!(matches!(v, ParamValue::Long(9223372036854775807)));
    assert_eq!(s, "9223372036854775807\n");
}

#[test]
fn test_ulong_param() {
    for text in ["18446744073709551615", "0xFFFFFFFFFFFFFFFF", "01777777777777777777777"] {
        let (v, s) = parse_and_format(ParamValue::Ulong(0), text);
        assert!(matches!(v, ParamValue::Ulong(18446744073709551615)));
        assert_eq!(s, "18446744073709551615\n");
    }
}

#[test]
fn test_ullong_param() {
    for text in ["18446744073709551615", "0xFFFFFFFFFFFFFFFF", "01777777777777777777777"] {
        let (v, s) = parse_and_format(ParamValue::Ullong(0), text);
        assert!(matches!(v, ParamValue::Ullong(18446744073709551615)));
        assert_eq!(s, "18446744073709551615\n");
    }
}

#[test]
fn test_hexint_param() {
    for text in ["0xDEADBEEF", "0Xdeadbeef"] {
        let (v, s) = parse_and_format(ParamValue::Hexint(0), text);
        assert!(matches!(v, ParamValue::Hexint(0xDEADBEEF)));
        assert_eq!(s, "0xdeadbeef\n");
    }
}

#[test]
fn test_charp_param() {
    let (v, s) = parse_and_format(ParamValue::Charp(None), "Hello, Kernel Param!");
    match v {
        ParamValue::Charp(Some(t)) => assert_eq!(t, bytes("Hello, Kernel Param!")),
        _ => panic!("not a string"),
    }
    assert_eq!(s, "Hello, Kernel Param!\n");
}

#[test]
fn test_bool_param() {
    for text in ["y", "Y", "1", ""] {
        let (v, s) = parse_and_format(ParamValue::Bool(false), text);
        assert!(matches!(v, ParamValue::Bool(true)));
        assert_eq!(s, "1\n");
    }
    for text in ["n", "N", "0"] {
        let (v, s) = parse_and_format(ParamValue::Bool(true), text);
        assert!(matches!(v, ParamValue::Bool(false)));
        assert_eq!(s, "0\n");
    }
}

#[test]
fn parse_args_round_trip_scenario() {
    let mut params = test_params();
    let result = parse_args("test", bytes("  test-int=0xFF  test_bool  test_str=\"hello world\"  "), &mut params, i16::MIN, i16::MAX);
    assert_eq!(result, Ok(bytes("")));
    assert_eq!(int_of(&params[0]), 255);
    assert_eq!(bool_of(&params[1]), true);
    assert_eq!(str_of(&params[2]), Some(bytes("hello world")));
}

#[test]
fn parse_args_terminator_scenario() {
    let mut params = vec![KernelParam::new("a", ParamValue::Int(0)), KernelParam::new("b", ParamValue::Int(7))];
    let result = parse_args("test", bytes("a=1 -- b=2"), &mut params, i16::MIN, i16::MAX);
    assert_eq!(result, Ok(bytes("b=2")));
    assert_eq!(int_of(&params[0]), 1);
    assert_eq!(int_of(&params[1]), 7);
}

#[test]
fn parse_args_whitespace_does_not_matter() {
    let mut p1 = vec![KernelParam::new("a", ParamValue::Int(0)), KernelParam::new("b", ParamValue::Int(0))];
    let mut p2 = vec![KernelParam::new("a", ParamValue::Int(0)), KernelParam::new("b", ParamValue::Int(0))];
    let r1 = parse_args("test", bytes(" a=1  b=2 "), &mut p1, i16::MIN, i16::MAX);
    let r2 = parse_args("test", bytes("a=1 b=2"), &mut p2, i16::MIN, i16::MAX);
    assert_eq!(r1, r2);
    assert_eq!(int_of(&p1[0]), int_of(&p2[0]));
    assert_eq!(int_of(&p1[1]), int_of(&p2[1]));
    assert_eq!(int_of(&p1[1]), 2);
}

#[test]
fn parse_args_missing_value_is_einval() {
    let mut params = test_params();
    assert_eq!(parse_args("test", bytes("test_int"), &mut params, i16::MIN, i16::MAX), Err(ParamError::EINVAL));
}

#[test]
fn parse_args_out_of_range_is_einval() {
    let mut params = vec![KernelParam::new("b", ParamValue::Byte(0))];
    assert_eq!(parse_args("test", bytes("b=256"), &mut params, i16::MIN, i16::MAX), Err(ParamError::EINVAL));
}

#[test]
fn parse_args_long_string_is_enospc() {
    let mut params = test_params();
    let mut line = bytes("test_str=");
    line.extend(std::iter::repeat(b'x').take(1025));
    assert_eq!(parse_args("test", line, &mut params, i16::MIN, i16::MAX), Err(ParamError::ENOSPC));
}

#[test]
fn parse_args_skips_parameters_outside_levels() {
    let mut params = test_params();
    params[0].level = 5;
    let result = parse_args("test", bytes("test_int=3"), &mut params, 0, 1);
    assert!(result.is_ok());
    assert_eq!(int_of(&params[0]), 0);
}
