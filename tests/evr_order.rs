use rpmrepo_metadata::evr::{compare_versions, EVR};

fn cmp(a: (&str, &str, &str), b: (&str, &str, &str)) -> i8 {
    EVR::new(a.0, a.1, a.2).compare(&EVR::new(b.0, b.1, b.2))
}

#[test]
fn release_orders_when_rest_is_equal() {
    assert_eq!(cmp(("0", "1.0", "1"), ("0", "1.0", "2")), -1);
}

#[test]
fn epoch_dominates() {
    assert_eq!(cmp(("1", "0.1", "1"), ("0", "9.9", "9")), 1);
}

#[test]
fn empty_epoch_is_zero() {
    assert_eq!(cmp(("0", "1.0", "1"), ("", "1.0", "1")), 0);
    assert_eq!(cmp(("", "1.0", "1"), ("0", "1.0", "1")), 0);
    assert_eq!(cmp(("", "1.0", "1"), ("1", "1.0", "1")), -1);
}

#[test]
fn trailing_alpha_is_prerelease() {
    assert_eq!(cmp(("0", "1.0a", "1"), ("0", "1.0", "1")), -1);
}

#[test]
fn extra_numeric_segment_is_greater() {
    assert_eq!(cmp(("0", "1.0.0", "1"), ("0", "1.0", "1")), 1);
}

#[test]
fn swapping_operands_negates() {
    let pairs = [
        (("0", "1.0", "1"), ("0", "1.0", "2")),
        (("1", "0.1", "1"), ("0", "9.9", "9")),
        (("0", "1.0a", "1"), ("0", "1.0", "1")),
        (("0", "2.a", "1"), ("0", "2.10", "1")),
        (("0", "1.0", "1"), ("", "1.0", "1")),
    ];
    for (a, b) in pairs.iter() {
        assert_eq!(cmp(*a, *b), -cmp(*b, *a));
    }
}

#[test]
fn ordering_is_transitive_on_a_chain() {
    let chain = [
        ("0", "1.0a", "1"),
        ("0", "1.0", "1"),
        ("0", "1.0", "2"),
        ("0", "1.0.0", "1"),
        ("1", "0.1", "1"),
    ];
    for i in 0..chain.len() {
        for j in 0..chain.len() {
            let expected: i8 = if i < j { -1 } else if i > j { 1 } else { 0 };
            assert_eq!(cmp(chain[i], chain[j]), expected);
        }
    }
}

#[test]
fn leading_zeros_do_not_count() {
    assert_eq!(compare_versions("000123", "123"), 0);
    assert_eq!(compare_versions("0100", "99"), 1);
    assert_eq!(compare_versions("00", ""), 1);
}

#[test]
fn separators_only_split_segments() {
    assert_eq!(compare_versions("1.2", "1_2"), 0);
    assert_eq!(compare_versions("1..2", "1.2"), 0);
    assert_eq!(compare_versions("1.2", "1~~2"), 0);
    assert_eq!(compare_versions("", "..."), 0);
}

#[test]
fn numeric_segment_beats_alpha_segment() {
    assert_eq!(compare_versions("1.1", "1.a"), 1);
    assert_eq!(compare_versions("a", "1"), -1);
}

#[test]
fn alpha_segments_compare_ordinally() {
    assert_eq!(compare_versions("1.B", "1.a"), -1);
    assert_eq!(compare_versions("abc", "abd"), -1);
    assert_eq!(compare_versions("ab", "abc"), -1);
    assert_eq!(compare_versions("xyz", "xyz"), 0);
}

#[test]
fn digits_and_letters_split_without_separator() {
    assert_eq!(compare_versions("1a2", "1.a.2"), 0);
    assert_eq!(compare_versions("2.0rc1", "2.0"), -1);
    assert_eq!(compare_versions("2.0.1", "2.0rc1"), 1);
}

#[test]
fn clone_keeps_parts() {
    let e = EVR::new("2", "3.4", "5.el9");
    let c = e.clone();
    assert_eq!(c.epoch, "2");
    assert_eq!(c.version, "3.4");
    assert_eq!(c.release, "5.el9");
    assert_eq!(e.compare(&c), 0);
}
