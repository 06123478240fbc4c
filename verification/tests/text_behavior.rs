use nexum::text::{
    chars_of, conjoin, contains, decimal_text, find, join, text_before, text_eq, text_of,
};
use nexum::text_map::TextMap;

#[test]
fn strings_are_ordered_as_str_is() {
    let samples = [
        "", "a", "A", "ab", "abc", "abd", "b", "Z", "z", "é", "e", "zz", "日本", "~", "\u{10FFFF}",
        "\u{7f}", "\u{80}", "cap-10", "cap-2",
    ];
    for a in samples {
        for b in samples {
            assert_eq!(text_before(a, b), a < b, "{a:?} {b:?}");
            assert_eq!(text_eq(a, b), a == b, "{a:?} {b:?}");
        }
    }
}

#[test]
fn numbers_are_written_in_decimal() {
    for n in [0u64, 1, 9, 10, 11, 99, 100, 65535, 1_000_000, u64::MAX] {
        assert_eq!(decimal_text(n), n.to_string());
    }
}

#[test]
fn the_leftmost_occurrence_is_found() {
    let hay = chars_of("abcabc");
    assert_eq!(find(&hay, &chars_of("bc")), Some(1));
    assert_eq!(find(&hay, &chars_of("abcabc")), Some(0));
    assert_eq!(find(&hay, &chars_of("abcabcd")), None);
    assert_eq!(find(&hay, &chars_of("cb")), None);
    assert_eq!(find(&hay, &chars_of("")), Some(0));
    assert_eq!(find(&chars_of(""), &chars_of("")), Some(0));
    assert_eq!(find(&hay, &chars_of("c")), Some(2));
    assert!(contains("a..b", ".."));
    assert!(!contains("a.b.", ".."));
    assert!(contains("", ""));
}

#[test]
fn lines_are_joined_and_characters_kept() {
    assert_eq!(join(&vec![], "\n"), "");
    assert_eq!(join(&vec!["a".to_string()], "\n"), "a");
    assert_eq!(
        join(&vec!["a".to_string(), "".to_string(), "b".to_string()], ", "),
        "a, , b"
    );
    assert_eq!(text_of(&chars_of("héllo 日本")), "héllo 日本");
    assert_eq!(conjoin("ab", "cd"), "abcd");
}

#[test]
fn the_map_keeps_its_keys_in_ascending_order() {
    let mut map: TextMap<u32> = TextMap::new();
    assert_eq!(map.len(), 0);
    assert_eq!(map.insert("m".into(), 1), None);
    assert_eq!(map.insert("a".into(), 2), None);
    assert_eq!(map.insert("z".into(), 3), None);
    assert_eq!(map.insert("b".into(), 4), None);
    assert_eq!(map.insert("m".into(), 5), Some(1));
    assert_eq!(map.len(), 4);
    let keys = (0..map.len())
        .map(|i| map.key_at(i).clone())
        .collect::<Vec<_>>();
    assert_eq!(keys, vec!["a", "b", "m", "z"]);
    let values = (0..map.len()).map(|i| *map.value_at(i)).collect::<Vec<_>>();
    assert_eq!(values, vec![2, 4, 5, 3]);
    assert_eq!(map.get("m"), Some(&5));
    assert_eq!(map.get("n"), None);
    assert!(map.contains_key("z"));
    assert!(!map.contains_key(""));
    assert_eq!(map.remove("a"), Some(2));
    assert_eq!(map.remove("a"), None);
    assert_eq!(map.remove("z"), Some(3));
    assert_eq!(map.len(), 2);
    assert_eq!(map.key_at(0), "b");
    assert_eq!(map.key_at(1), "m");
}
