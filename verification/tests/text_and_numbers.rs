use abc_chatter_bot::utils::number_utils::get_unicode_from_number;
use abc_chatter_bot::utils::text::{first_index_of, join_strings, remove_char, u64_to_decimal};

#[test]
fn keycap_for_each_digit() {
    for n in 0..=9usize {
        let expected = format!("{}\u{FE0F}\u{20E3}", n);
        assert_eq!(get_unicode_from_number(n), Some(expected));
    }
    assert_eq!(get_unicode_from_number(1), Some("1️⃣".to_string()));
    assert_eq!(get_unicode_from_number(9), Some("9️⃣".to_string()));
}

#[test]
fn keycap_none_above_nine() {
    assert_eq!(get_unicode_from_number(10), None);
    assert_eq!(get_unicode_from_number(usize::MAX), None);
}

#[test]
fn decimal_formatting_matches_display() {
    for n in [0u64, 7, 10, 99, 100, 1234567890, u64::MAX] {
        assert_eq!(u64_to_decimal(n), n.to_string());
    }
}

#[test]
fn join_with_separator() {
    let items = vec!["a".to_string(), "bc".to_string(), "".to_string(), "d".to_string()];
    assert_eq!(join_strings(&items, ", "), "a, bc, , d");
    assert_eq!(join_strings(&vec![], ", "), "");
    assert_eq!(join_strings(&vec!["only".to_string()], "\n"), "only");
}

#[test]
fn remove_char_drops_every_occurrence() {
    assert_eq!(remove_char(&"pog.".to_string(), '.'), "pog");
    assert_eq!(remove_char(&"...a.b..".to_string(), '.'), "ab");
    assert_eq!(remove_char(&"none".to_string(), '.'), "none");
    let once = remove_char(&"x.y.z".to_string(), '.');
    assert_eq!(remove_char(&once, '.'), once);
}

#[test]
fn first_index_finds_first_match() {
    let items = vec!["a".to_string(), "b".to_string(), "a".to_string()];
    assert_eq!(first_index_of(&items, &"a".to_string()), Some(0));
    assert_eq!(first_index_of(&items, &"b".to_string()), Some(1));
    assert_eq!(first_index_of(&items, &"c".to_string()), None);
}

#[test]
fn keycaps_are_distinct() {
    let all: Vec<String> = (0..=9usize).map(|n| get_unicode_from_number(n).unwrap()).collect();
    for i in 0..all.len() {
        for j in 0..all.len() {
            assert_eq!(i == j, all[i] == all[j]);
        }
    }
}
