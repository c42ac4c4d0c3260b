use readput::{AsciiScanner, ScanError, Scanner};

fn scanner_with(lines: &[&str]) -> AsciiScanner {
    let mut sc = AsciiScanner::new();
    for l in lines {
        sc.push_line(l);
    }
    sc
}

#[test]
fn values_come_back_in_order() {
    let mut sc = scanner_with(&["alpha beta\n", "\n", "  gamma\n"]);
    assert_eq!(sc.read::<String>().unwrap(), "alpha");
    assert_eq!(sc.read::<String>().unwrap(), "beta");
    assert_eq!(sc.read::<String>().unwrap(), "gamma");
    assert_eq!(sc.read::<String>(), Err(ScanError::Exhausted));
}

#[test]
fn numbers_come_back_in_order() {
    let mut sc = scanner_with(&["5 10\n", "15\n"]);
    assert_eq!(sc.read::<u64>(), Ok(5));
    assert_eq!(sc.read::<u64>(), Ok(10));
    assert_eq!(sc.read::<u64>(), Ok(15));
}

#[test]
fn token_spans_unterminated_line() {
    let mut sc = scanner_with(&["ab", "cd\n"]);
    assert_eq!(sc.read_token().unwrap(), "abcd");
    assert_eq!(sc.read_token(), Err(ScanError::Exhausted));
}

#[test]
fn token_waits_for_its_separator() {
    let mut sc = scanner_with(&["abc"]);
    assert_eq!(sc.read_token(), Err(ScanError::Exhausted));
    sc.push_line("def\n");
    assert_eq!(sc.read_token().unwrap(), "abcdef");
}

#[test]
fn tuple_of_number_and_text() {
    let mut sc = scanner_with(&["42 hello\n"]);
    let (n, s): (u32, String) = sc.read().unwrap();
    assert_eq!(n, 42);
    assert_eq!(s, "hello");
}

#[test]
fn read_vec_of_three() {
    let mut sc = scanner_with(&["1 2 3\n"]);
    assert_eq!(sc.read_vec::<u32>(3), Ok(vec![1, 2, 3]));
}

#[test]
fn read_vec_of_none_reads_nothing() {
    let mut sc = scanner_with(&["1 2 3\n"]);
    assert_eq!(sc.read_vec::<u32>(0), Ok(vec![]));
    assert_eq!(sc.read::<u32>(), Ok(1));
    let mut empty = AsciiScanner::new();
    assert_eq!(empty.read_vec::<u32>(0), Ok(vec![]));
}

#[test]
fn extra_tokens_stay_buffered() {
    let mut sc = scanner_with(&["1 2 3 4\n"]);
    assert_eq!(sc.read_vec::<u32>(2), Ok(vec![1, 2]));
    assert_eq!(sc.read::<u32>(), Ok(3));
    assert_eq!(sc.read::<u32>(), Ok(4));
}

#[test]
fn conversion_failure_keeps_token() {
    let mut sc = scanner_with(&["abc\n"]);
    assert_eq!(sc.read::<u32>(), Err(ScanError::Conversion));
    assert_eq!(sc.read::<i64>(), Err(ScanError::Conversion));
    assert_eq!(sc.read::<String>().unwrap(), "abc");
}

#[test]
fn shapes_interleave_separately() {
    let mut sc = scanner_with(&["foo 7 -3\n"]);
    assert_eq!(sc.read::<String>().unwrap(), "foo");
    assert_eq!(sc.read::<u32>(), Ok(7));
    assert_eq!(sc.read::<i32>(), Ok(-3));
}

#[test]
fn shapes_interleave_as_tuple() {
    let mut sc = scanner_with(&["foo 7 -3\n"]);
    let (s, a, b): (String, u32, i32) = sc.read().unwrap();
    assert_eq!(s, "foo");
    assert_eq!(a, 7);
    assert_eq!(b, -3);
}

#[test]
fn failed_tuple_consumes_nothing() {
    let mut sc = scanner_with(&["5 x 6\n"]);
    assert_eq!(sc.read::<(u32, u32)>(), Err(ScanError::Conversion));
    assert_eq!(sc.read::<(u32, String, u32)>().unwrap(), (5, "x".to_string(), 6));
}

#[test]
fn failed_tuple_for_want_of_input_consumes_nothing() {
    let mut sc = scanner_with(&["5\n"]);
    assert_eq!(sc.read::<(u32, u32)>(), Err(ScanError::Exhausted));
    sc.push_line("6\n");
    assert_eq!(sc.read::<(u32, u32)>(), Ok((5, 6)));
}

#[test]
fn failed_read_vec_consumes_nothing() {
    let mut sc = scanner_with(&["1 2 z\n"]);
    assert_eq!(sc.read_vec::<u32>(3), Err(ScanError::Conversion));
    assert_eq!(sc.read_vec::<u32>(2), Ok(vec![1, 2]));
}

#[test]
fn read_vec_of_tuples() {
    let mut sc = scanner_with(&["1 a\n", "2 b 3 c\n"]);
    let v: Vec<(u32, String)> = sc.read_vec(3).unwrap();
    assert_eq!(v, vec![(1, "a".to_string()), (2, "b".to_string()), (3, "c".to_string())]);
}

#[test]
fn empty_scanner_is_exhausted() {
    let mut sc = AsciiScanner::new();
    assert_eq!(sc.read_token(), Err(ScanError::Exhausted));
    let mut d = AsciiScanner::default();
    assert_eq!(d.read::<u32>(), Err(ScanError::Exhausted));
}

#[test]
fn only_separators_is_exhausted() {
    let mut sc = scanner_with(&["   \n", "\n", "\r\n"]);
    assert_eq!(sc.read_token(), Err(ScanError::Exhausted));
    sc.push_line("x\n");
    assert_eq!(sc.read_token().unwrap(), "x");
}

#[test]
fn carriage_return_ends_token_and_line() {
    let mut sc = scanner_with(&["12\r\n", "34\r\n"]);
    assert_eq!(sc.read::<u32>(), Ok(12));
    assert_eq!(sc.read::<u32>(), Ok(34));
}

#[test]
fn rest_of_line_after_line_end_is_not_scanned() {
    let mut sc = scanner_with(&["1 2\r3 4\n", "5\n"]);
    assert_eq!(sc.read_vec::<u32>(3), Ok(vec![1, 2, 5]));
}

#[test]
fn line_without_line_end_then_separator_line() {
    let mut sc = scanner_with(&["7", " 8\n"]);
    assert_eq!(sc.read_vec::<u32>(2), Ok(vec![7, 8]));
}

#[test]
fn iterator_reads_one_value_per_pull() {
    let mut sc = scanner_with(&["a 1 b 2\n", "c 3\n"]);
    let mut it = sc.iter::<(String, u32)>();
    assert_eq!(it.next(), Ok(("a".to_string(), 1)));
    assert_eq!(it.next(), Ok(("b".to_string(), 2)));
    assert_eq!(it.next(), Ok(("c".to_string(), 3)));
    assert_eq!(it.next(), Err(ScanError::Exhausted));
    assert_eq!(it.next(), Err(ScanError::Exhausted));
}

#[test]
fn iterator_leaves_unread_input_in_scanner() {
    let mut sc = scanner_with(&["1 2 3\n"]);
    {
        let mut it = sc.iter::<u32>();
        assert_eq!(it.next(), Ok(1));
    }
    assert_eq!(sc.read_vec::<u32>(2), Ok(vec![2, 3]));
}

#[test]
fn unsigned_bounds() {
    let mut sc = scanner_with(&["65535 65536 +12 -0 4294967295 4294967296\n"]);
    assert_eq!(sc.read::<u16>(), Ok(65535));
    assert_eq!(sc.read::<u16>(), Err(ScanError::Conversion));
    assert_eq!(sc.read::<u32>(), Ok(65536));
    assert_eq!(sc.read::<u16>(), Ok(12));
    assert_eq!(sc.read::<u64>(), Err(ScanError::Conversion));
    assert_eq!(sc.read::<i64>(), Ok(0));
    assert_eq!(sc.read::<u32>(), Ok(4294967295));
    assert_eq!(sc.read::<u32>(), Err(ScanError::Conversion));
    assert_eq!(sc.read::<usize>(), Ok(4294967296));
}

#[test]
fn wide_unsigned() {
    let mut sc = scanner_with(&["18446744073709551615 340282366920938463463374607431768211455\n"]);
    assert_eq!(sc.read::<u64>(), Ok(u64::MAX));
    assert_eq!(sc.read::<u128>(), Ok(u128::MAX));
}

#[test]
fn signed_bounds() {
    let mut sc = scanner_with(&["-128 127 128 -32768 +32767 -2147483648\n"]);
    assert_eq!(sc.read::<i8>(), Ok(-128));
    assert_eq!(sc.read::<i8>(), Ok(127));
    assert_eq!(sc.read::<i8>(), Err(ScanError::Conversion));
    assert_eq!(sc.read::<i16>(), Ok(128));
    assert_eq!(sc.read::<i16>(), Ok(-32768));
    assert_eq!(sc.read::<i16>(), Ok(32767));
    assert_eq!(sc.read::<i32>(), Ok(i32::MIN));
}

#[test]
fn wide_signed() {
    let mut sc = scanner_with(&["-9223372036854775808 -170141183460469231731687303715884105728 -5\n"]);
    assert_eq!(sc.read::<i64>(), Ok(i64::MIN));
    assert_eq!(sc.read::<i128>(), Ok(i128::MIN));
    assert_eq!(sc.read::<isize>(), Ok(-5));
}

#[test]
fn malformed_numbers() {
    let mut sc = scanner_with(&["+ - 1_000 0x1 12a\n"]);
    assert_eq!(sc.read::<u32>(), Err(ScanError::Conversion));
    assert_eq!(sc.read::<String>().unwrap(), "+");
    assert_eq!(sc.read::<i32>(), Err(ScanError::Conversion));
    assert_eq!(sc.read::<String>().unwrap(), "-");
    assert_eq!(sc.read::<u32>(), Err(ScanError::Conversion));
    assert_eq!(sc.read::<String>().unwrap(), "1_000");
    assert_eq!(sc.read::<u32>(), Err(ScanError::Conversion));
    assert_eq!(sc.read::<String>().unwrap(), "0x1");
    assert_eq!(sc.read::<i32>(), Err(ScanError::Conversion));
    assert_eq!(sc.read::<String>().unwrap(), "12a");
}

#[test]
fn leading_zeros() {
    let mut sc = scanner_with(&["007 -0010\n"]);
    assert_eq!(sc.read::<u16>(), Ok(7));
    assert_eq!(sc.read::<i32>(), Ok(-10));
}

#[test]
fn booleans() {
    let mut sc = scanner_with(&["true false True 1\n"]);
    assert_eq!(sc.read::<bool>(), Ok(true));
    assert_eq!(sc.read::<bool>(), Ok(false));
    assert_eq!(sc.read::<bool>(), Err(ScanError::Conversion));
    assert_eq!(sc.read::<String>().unwrap(), "True");
    assert_eq!(sc.read::<bool>(), Err(ScanError::Conversion));
}

#[test]
fn characters() {
    let mut sc = scanner_with(&["x yz \u{e9}\n"]);
    assert_eq!(sc.read::<char>(), Ok('x'));
    assert_eq!(sc.read::<char>(), Err(ScanError::Conversion));
    assert_eq!(sc.read::<String>().unwrap(), "yz");
    assert_eq!(sc.read::<char>(), Ok('\u{e9}'));
}

#[test]
fn single_element_tuple() {
    let mut sc = scanner_with(&["9\n"]);
    assert_eq!(sc.read::<(i16,)>(), Ok((9,)));
}

#[test]
fn widest_tuple() {
    let mut sc = scanner_with(&["1 2 3 4 5 6\n", "7 8 9 10 11 x\n"]);
    let t: (u16, u16, u32, u64, u128, usize, i8, i16, i32, i64, i128, String) =
        sc.read().unwrap();
    assert_eq!(t.0, 1);
    assert_eq!(t.5, 6);
    assert_eq!(t.10, 11);
    assert_eq!(t.11, "x");
}

#[test]
fn nested_shapes() {
    let mut sc = scanner_with(&["1 2 3\n"]);
    assert_eq!(sc.read::<(u32, (u32, u32))>(), Ok((1, (2, 3))));
}
