use tradio::models::{StationsFilter, Tags};
use tradio::text::{trim_str, u32_to_string};

#[test]
fn trim_matches_str_trim() {
    for s in ["", "   ", " x ", "abc", "\t a b \n", "\u{3000}x\u{3000}", " \u{a0}y"] {
        assert_eq!(trim_str(s), s.trim());
    }
}

#[test]
fn decimal_rendering() {
    assert_eq!(u32_to_string(0), "0");
    assert_eq!(u32_to_string(7), "7");
    assert_eq!(u32_to_string(10), "10");
    assert_eq!(u32_to_string(100), "100");
    assert_eq!(u32_to_string(4294967295), "4294967295");
}

#[test]
fn tags_join_with_commas() {
    let tags = Tags::from(vec!["a".to_string(), "b".to_string(), "c".to_string()]);
    assert_eq!(tags.to_string(), "a,b,c");
    let one = Tags::from(vec!["solo".to_string()]);
    assert_eq!(one.to_string(), "solo");
}

#[test]
fn tags_split_and_trim() {
    let tags = Tags::from(" a , b ,c".to_string());
    assert_eq!(tags.len(), 3);
    assert_eq!(tags.tag(0), "a");
    assert_eq!(tags.tag(1), "b");
    assert_eq!(tags.tag(2), "c");
}

#[test]
fn tags_round_trip_through_denormalized_form() {
    let parts = vec!["tag1".to_string(), "tag2".to_string(), "tag3".to_string()];
    let tags = Tags::from(parts.clone());
    let csv = tags.to_string();
    assert_eq!(csv, "tag1,tag2,tag3");
    let back = Tags::from(csv);
    assert_eq!(back.len(), 3);
    for (i, want) in parts.iter().enumerate() {
        assert_eq!(back.tag(i), want);
    }
}

#[test]
fn empty_csv_is_one_empty_tag() {
    let tags = Tags::from("".to_string());
    assert_eq!(tags.len(), 1);
    assert_eq!(tags.tag(0), "");
}

#[test]
fn default_filter_is_unconstrained() {
    let f = StationsFilter::default();
    assert!(f.order_by.is_none());
    assert!(f.limit.is_none());
    assert!(f.offset.is_none());
}
