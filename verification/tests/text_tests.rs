use rs_pamixer::text::{
    debug_list, i32_to_decimal, join_decimal, parse_index_list, parse_u32, trim, u32_to_decimal,
};

#[test]
fn decimal_formatting() {
    assert_eq!(u32_to_decimal(0), "0");
    assert_eq!(u32_to_decimal(7), "7");
    assert_eq!(u32_to_decimal(10), "10");
    assert_eq!(u32_to_decimal(4294967295), "4294967295");
    assert_eq!(i32_to_decimal(-5), "-5");
    assert_eq!(i32_to_decimal(0), "0");
    assert_eq!(i32_to_decimal(i32::MIN), "-2147483648");
    assert_eq!(i32_to_decimal(i32::MAX), "2147483647");
}

#[test]
fn parse_u32_accepts_what_std_accepts() {
    let cases = [
        "", "+", "-", "0", "42", "+7", "007", "-1", "-0", " 1", "1 ", "1a", "4294967295",
        "4294967296", "99999999999999999999", "+4294967295", "++1", "١", "12,3",
    ];
    for s in cases {
        assert_eq!(parse_u32(s), s.parse::<u32>().ok(), "input {:?}", s);
    }
    assert_eq!(parse_u32("42"), Some(42));
    assert_eq!(parse_u32("+7"), Some(7));
    assert_eq!(parse_u32("4294967296"), None);
}

#[test]
fn parse_of_decimal_round_trips() {
    for n in [0u32, 1, 9, 10, 255, 65536, 123456789, u32::MAX] {
        assert_eq!(parse_u32(&u32_to_decimal(n)), Some(n));
    }
}

#[test]
fn trim_matches_std() {
    let cases = ["", "  a b \t", "\u{3000}x\u{85}", "\n\r\x0b\x0c", "x", " \u{200a}y\u{2029} "];
    for s in cases {
        assert_eq!(trim(s), s.trim(), "input {:?}", s);
    }
}

#[test]
fn index_list_skips_what_is_not_a_number() {
    assert_eq!(parse_index_list("1,2, 3,x,,4 "), vec![1, 2, 3, 4]);
    assert_eq!(parse_index_list(""), Vec::<u32>::new());
    assert_eq!(parse_index_list(","), Vec::<u32>::new());
    assert_eq!(parse_index_list("+5,-6,7"), vec![5, 7]);
}

#[test]
fn index_list_matches_split_trim_parse() {
    let cases = ["1,2,3", " 4 ,\t5,", "a,b", "10,,20", "4294967296,1"];
    for s in cases {
        let expected: Vec<u32> = s.split(',').filter_map(|p| p.trim().parse::<u32>().ok()).collect();
        assert_eq!(parse_index_list(s), expected, "input {:?}", s);
    }
}

#[test]
fn joined_indices_read_back() {
    for v in [vec![], vec![3u32], vec![0, 17, 4294967295], vec![5, 5, 5]] {
        let joined = join_decimal(&v, ",");
        assert_eq!(parse_index_list(&joined), v);
    }
    assert_eq!(join_decimal(&vec![1, 22, 333], ","), "1,22,333");
    assert_eq!(join_decimal(&vec![], ","), "");
}

#[test]
fn debug_list_matches_debug_format() {
    for v in [vec![], vec![1u32], vec![1, 2, 3], vec![4294967295, 0]] {
        assert_eq!(debug_list(&v), format!("{:?}", v));
    }
}
