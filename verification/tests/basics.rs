use studio_bridge::clock::{age_ms, duration_ms, elapsed, elapsed_ms, older_than};
use studio_bridge::debug::{list_text, opt_number, opt_text};
use studio_bridge::fields::{normalize_optional_text, request_universe_id, require_non_empty};
use studio_bridge::ids::id_of_name;
use studio_bridge::order::{chars_of, comes_before, same_text};
use studio_bridge::sanitize::{is_summarizable, name_char, summarize_error};
use studio_bridge::table::{IdSet, Table};
use studio_bridge::text::{
    contains, decimal_text, ends_with, is_blank, join, lines, same_option, split_once,
    starts_with, strip_prefix, to_ascii_lowercase, trim, trim_start_char, white_space, words,
};
use studio_bridge::urls::{
    runtime_log_forward_base_url, trim_end_slashes, trim_start_slashes,
};

const TEXTS: [&str; 16] = [
    "",
    " ",
    "a",
    "  a b\t\u{a0}c \u{3000}",
    "\u{2003}\u{85}x\u{2028}",
    "one\ntwo\r\nthree\rfour\n\nfive",
    "ends with a break\n",
    "ends with two\r\n\r\n",
    "\r\n",
    "\r",
    "Aa\u{c4}\u{e4}\u{df}Zz",
    "\u{feff}token\u{feff}",
    "///a//b///",
    "_Studio_",
    "\"quoted\" \\ \u{7}",
    "\u{1f600} and \u{e9}",
];

#[test]
fn white_space_is_that_of_std() {
    for c in '\0'..=char::MAX {
        assert_eq!(white_space(c), c.is_whitespace(), "{c:?}");
        assert_eq!(
            name_char(c),
            c.is_ascii_alphanumeric() || c == '-' || c == '_',
            "{c:?}"
        );
    }
}

#[test]
fn texts_are_taken_apart_as_std_does() {
    for text in TEXTS {
        assert_eq!(trim(text), text.trim(), "{text:?}");
        assert_eq!(is_blank(text), text.trim().is_empty(), "{text:?}");
        assert_eq!(lines(text), text.lines().collect::<Vec<_>>(), "{text:?}");
        assert_eq!(
            words(text),
            text.split_whitespace().collect::<Vec<_>>(),
            "{text:?}"
        );
        assert_eq!(to_ascii_lowercase(text), text.to_ascii_lowercase());
        assert_eq!(
            trim_start_char(text, '\u{feff}'),
            text.trim_start_matches('\u{feff}')
        );
        assert_eq!(trim_end_slashes(text), text.trim_end_matches('/'));
        assert_eq!(trim_start_slashes(text), text.trim_start_matches('/'));
        assert_eq!(chars_of(text), text.chars().collect::<Vec<_>>());
        for other in TEXTS {
            assert_eq!(contains(text, other), text.contains(other));
            assert_eq!(starts_with(text, other), text.starts_with(other));
            assert_eq!(ends_with(text, other), text.ends_with(other));
            assert_eq!(strip_prefix(text, other), text.strip_prefix(other));
            assert_eq!(same_text(text, other), text == other);
            assert_eq!(comes_before(text, other), text < other, "{text:?} {other:?}");
            assert_eq!(same_option(Some(text), Some(other)), text == other);
        }
        for separator in [" ", "two", "//", "\u{e9}"] {
            assert_eq!(split_once(text, separator), text.split_once(separator));
        }
    }
    assert!(same_option(None, None));
    assert!(!same_option(None, Some("")));
    let parts: Vec<String> = TEXTS.iter().map(|text| (*text).to_owned()).collect();
    assert_eq!(join(&parts, " | "), TEXTS.join(" | "));
    assert_eq!(join(&Vec::new(), " | "), "");
}

#[test]
fn values_are_written_as_std_does() {
    for n in [0, 7, 10, 99, 100, 12_345, u64::MAX as u128, u128::MAX] {
        assert_eq!(decimal_text(n), n.to_string());
        assert_eq!(opt_number(Some(n)), format!("{:?}", Some(n)));
    }
    assert_eq!(opt_number(None), "None");
    let texts: Vec<String> = TEXTS.iter().map(|text| (*text).to_owned()).collect();
    assert_eq!(list_text(&texts), format!("{texts:?}"));
    assert_eq!(list_text(&Vec::new()), "[]");
    for text in texts {
        let given = Some(text);
        assert_eq!(opt_text(&given), format!("{given:?}"));
    }
    assert_eq!(opt_text(&None), "None");
}

#[test]
fn sets_and_tables_are_kept_in_order() {
    let list: Vec<String> = TEXTS.iter().map(|text| (*text).to_owned()).collect();
    let mut sorted = list.clone();
    sorted.sort();
    let set = IdSet::from_vec(list.iter().chain(list.iter()).cloned().collect());
    assert_eq!(set.len(), list.len());
    assert_eq!(set.to_sorted_vec(), sorted);
    let other = IdSet::from_vec(vec!["z".to_owned(), "a".to_owned()]);
    let both = set.union(&other);
    assert_eq!(both.len(), list.len() + 1);
    assert!(both.contains("z") && both.contains("_Studio_"));

    let mut table: Table<String> = Table::new();
    for (i, text) in list.iter().enumerate() {
        table.insert(text.clone(), i.to_string());
    }
    table.insert("a".to_owned(), "again".to_owned());
    assert_eq!(table.len(), list.len());
    assert_eq!(table.get("a").map(String::as_str), Some("again"));
    assert_eq!(table.remove("a").as_deref(), Some("again"));
    assert_eq!(table.remove("a"), None);
    assert!(!table.contains_key("a"));
    assert_eq!(table.len(), list.len() - 1);
}

#[test]
fn moments_are_compared_without_going_below_zero() {
    const SECOND: u128 = 1_000_000_000;
    assert_eq!(elapsed(5, 3), 2);
    assert_eq!(elapsed(3, 5), 0);
    assert_eq!(elapsed_ms(2_999_999, 0), 2);
    assert_eq!(age_ms(SECOND, Some(0)), Some(1000));
    assert_eq!(age_ms(SECOND, None), None);
    assert!(!older_than(30 * SECOND, 0, 30));
    assert!(older_than(30 * SECOND + 1, 0, 30));
    assert!(!older_than(0, SECOND, 0));
    assert_eq!(duration_ms(30), 30_000);
    assert_eq!(duration_ms(u64::MAX), u64::MAX);
}

#[test]
fn fields_are_trimmed() {
    assert_eq!(require_non_empty(" a ", "field"), Ok("a".to_owned()));
    assert_eq!(
        require_non_empty(" \t", "field"),
        Err("field must not be empty".to_owned())
    );
    let some = |text: &str| Some(text.to_owned());
    assert_eq!(normalize_optional_text(&some(" a ")), some("a"));
    assert_eq!(normalize_optional_text(&some("  ")), None);
    assert_eq!(normalize_optional_text(&None), None);
    assert_eq!(request_universe_id(&some(" 1 "), &some("2")), some(" 1 "));
    assert_eq!(request_universe_id(&some(" "), &some("2")), None);
    assert_eq!(request_universe_id(&None, &some("2")), some("2"));
    assert_eq!(request_universe_id(&None, &None), None);
}

#[test]
fn long_errors_are_cut_at_a_character() {
    let short = "e".repeat(180);
    assert_eq!(summarize_error(&short), short);
    let long = "e".repeat(181);
    assert_eq!(summarize_error(&long), format!("{short}..."));
    let split = format!("{}\u{e9}", "e".repeat(179));
    assert!(!is_summarizable(&split));
    let whole = format!("{}\u{e9}x", "e".repeat(178));
    assert!(is_summarizable(&whole));
    assert_eq!(
        summarize_error(&whole),
        format!("{}\u{e9}...", "e".repeat(178))
    );
}

#[test]
fn names_and_urls_are_built() {
    assert_eq!(
        id_of_name("h_", "windows-machine-guid:abc"),
        id_of_name("h_", "windows-machine-guid:abc")
    );
    assert_ne!(
        id_of_name("h_", "windows-machine-guid:abc"),
        id_of_name("h_", "windows-machine-guid:abd")
    );
    assert_eq!(
        runtime_log_forward_base_url(44750, "12", "t1"),
        "http://127.0.0.1:44750/runtime-log-forward/12/task/t1"
    );
}
