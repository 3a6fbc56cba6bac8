use runner::config::{parse_config_option, parse_node_weight, spec17_workload, NodeWeight, Workload};
use runner::errors::ParseError;
use runner::proportion::{insert_millis, parse_proportion, prop_to_string};
use runner::strutil::{parse_u32, parse_usize, str_chars};

#[test]
fn parse_usize_reads_plain_numbers() {
    assert_eq!(parse_usize(&str_chars("0")), Ok(0));
    assert_eq!(parse_usize(&str_chars("1000")), Ok(1000));
    assert_eq!(parse_usize(&str_chars("4294967296")), Ok(4294967296));
}

#[test]
fn parse_usize_rejects_empty() {
    assert_eq!(parse_usize(&str_chars("")), Err(ParseError::Empty));
}

#[test]
fn parse_usize_rejects_non_digits() {
    assert_eq!(parse_usize(&str_chars("12x")), Err(ParseError::BadDigit));
    assert_eq!(parse_usize(&str_chars("-3")), Err(ParseError::BadDigit));
    assert_eq!(parse_usize(&str_chars(" 3")), Err(ParseError::BadDigit));
}

#[test]
fn parse_usize_rejects_huge_numbers() {
    assert_eq!(
        parse_usize(&str_chars("99999999999999999999999999")),
        Err(ParseError::Overflow)
    );
}

#[test]
fn parse_u32_rejects_values_beyond_u32() {
    assert_eq!(parse_u32(&str_chars("4294967295")), Ok(u32::MAX));
    assert_eq!(parse_u32(&str_chars("4294967296")), Err(ParseError::Overflow));
}

#[test]
fn node_weight_reads_the_documented_shape() {
    assert_eq!(
        parse_node_weight(&str_chars("2:5")),
        Ok(NodeWeight { nid: 2, weight: 5 })
    );
    assert_eq!(
        parse_node_weight(&str_chars("0:1")),
        Ok(NodeWeight { nid: 0, weight: 1 })
    );
}

#[test]
fn node_weight_rejects_a_bad_node_id() {
    assert_eq!(parse_node_weight(&str_chars("x:5")), Err(ParseError::BadDigit));
}

#[test]
fn node_weight_rejects_a_missing_separator() {
    assert_eq!(parse_node_weight(&str_chars("2")), Err(ParseError::MissingSeparator));
    assert_eq!(parse_node_weight(&str_chars("")), Err(ParseError::MissingSeparator));
}

#[test]
fn node_weight_rejects_a_bad_weight() {
    assert_eq!(parse_node_weight(&str_chars("2:")), Err(ParseError::Empty));
    assert_eq!(parse_node_weight(&str_chars("2:x")), Err(ParseError::BadDigit));
}

#[test]
fn proportion_reads_decimal_fractions() {
    assert_eq!(parse_proportion(&str_chars("0.5")), Ok(500));
    assert_eq!(parse_proportion(&str_chars("0.25")), Ok(250));
    assert_eq!(parse_proportion(&str_chars("1")), Ok(1000));
    assert_eq!(parse_proportion(&str_chars("1.0")), Ok(1000));
    assert_eq!(parse_proportion(&str_chars("0")), Ok(0));
    assert_eq!(parse_proportion(&str_chars(".125")), Ok(125));
}

#[test]
fn proportion_rejects_bad_tokens() {
    assert_eq!(parse_proportion(&str_chars("")), Err(ParseError::Empty));
    assert_eq!(parse_proportion(&str_chars(".")), Err(ParseError::BadDigit));
    assert_eq!(parse_proportion(&str_chars("0.5x")), Err(ParseError::BadDigit));
    assert_eq!(parse_proportion(&str_chars("0.1234")), Err(ParseError::TooPrecise));
    assert_eq!(parse_proportion(&str_chars("1.5")), Err(ParseError::OutOfRange));
}

#[test]
fn proportion_renders_without_trailing_zeros() {
    assert_eq!(prop_to_string(500), "0.5");
    assert_eq!(prop_to_string(250), "0.25");
    assert_eq!(prop_to_string(125), "0.125");
    assert_eq!(prop_to_string(0), "0");
    assert_eq!(prop_to_string(1000), "1");
    assert_eq!(prop_to_string(-400), "-0.4");
}

#[test]
fn insert_share_is_the_remainder_and_may_be_negative() {
    assert_eq!(insert_millis(500, 500), 0);
    assert_eq!(insert_millis(300, 200), 500);
    assert_eq!(insert_millis(700, 700), -400);
}

#[test]
fn config_options_need_a_sign_and_a_clean_name() {
    assert_eq!(
        parse_config_option(&str_chars("+CONFIG_ZSWAP")),
        Ok((str_chars("CONFIG_ZSWAP"), true))
    );
    assert_eq!(
        parse_config_option(&str_chars("-CONFIG_PAGE_TABLE_ISOLATION")),
        Ok((str_chars("CONFIG_PAGE_TABLE_ISOLATION"), false))
    );
    assert_eq!(parse_config_option(&str_chars("")), Err(ParseError::Empty));
    assert_eq!(parse_config_option(&str_chars("+")), Err(ParseError::Empty));
    assert_eq!(
        parse_config_option(&str_chars("CONFIG_ZSWAP")),
        Err(ParseError::BadPrefix)
    );
    assert_eq!(
        parse_config_option(&str_chars("+CONFIG ZSWAP")),
        Err(ParseError::BadConfigChar)
    );
}

#[test]
fn spec17_names_map_to_their_workloads() {
    assert_eq!(spec17_workload("mcf", 0), Some(Workload::Spec2017Mcf));
    assert_eq!(spec17_workload("xalancbmk", 0), Some(Workload::Spec2017Xalancbmk));
    assert_eq!(spec17_workload("xz", 3), Some(Workload::Spec2017Xz { size: 3 }));
    assert_eq!(spec17_workload("cactubssn", 0), Some(Workload::Spec2017CactuBSSN));
    assert_eq!(spec17_workload("bwaves", 0), None);
}
