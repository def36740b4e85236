use cocbot::dice::resist_reply;
use cocbot::dict::dictionary_from_json;
use cocbot::dict::Dictionary;
use cocbot::numbers::i64_to_string;
use cocbot::numbers::parse_i32;
use cocbot::router::add_alias_cmd;
use cocbot::router::resist_cmd;
use cocbot::store::AliasStore;
use cocbot::text::join_lower;
use cocbot::text::split_on_sep;
use cocbot::text::split_words;
use cocbot::text::str_eq;
use cocbot::text::str_starts_with;

fn strings(ws: &[&str]) -> Vec<String> {
    ws.iter().map(|w| w.to_string()).collect()
}

#[test]
fn parse_i32_accepts_signed_decimals() {
    assert_eq!(parse_i32("123"), Some(123));
    assert_eq!(parse_i32("+7"), Some(7));
    assert_eq!(parse_i32("-9"), Some(-9));
    assert_eq!(parse_i32("0"), Some(0));
    assert_eq!(parse_i32("2147483647"), Some(i32::MAX));
    assert_eq!(parse_i32("-2147483648"), Some(i32::MIN));
    assert_eq!(parse_i32("0000000042"), Some(42));
}

#[test]
fn parse_i32_rejects_garbage_and_overflow() {
    assert_eq!(parse_i32(""), None);
    assert_eq!(parse_i32("-"), None);
    assert_eq!(parse_i32("+"), None);
    assert_eq!(parse_i32("12x"), None);
    assert_eq!(parse_i32("--5"), None);
    assert_eq!(parse_i32(" 5"), None);
    assert_eq!(parse_i32("2147483648"), None);
    assert_eq!(parse_i32("-2147483649"), None);
    assert_eq!(parse_i32("99999999999999999999"), None);
}

#[test]
fn i64_to_string_renders_decimals() {
    assert_eq!(i64_to_string(0), "0");
    assert_eq!(i64_to_string(7), "7");
    assert_eq!(i64_to_string(-17), "-17");
    assert_eq!(i64_to_string(1234567890123), "1234567890123");
    assert_eq!(i64_to_string(-2147483648), "-2147483648");
}

#[test]
fn split_words_splits_on_whitespace_runs() {
    assert_eq!(split_words("a b c"), strings(&["a", "b", "c"]));
    assert_eq!(split_words("  a\t b \n"), strings(&["a", "b"]));
    assert_eq!(split_words(""), strings(&[]));
    assert_eq!(split_words("   "), strings(&[]));
    assert_eq!(split_words("one"), strings(&["one"]));
}

#[test]
fn join_lower_lowercases_and_joins() {
    assert_eq!(join_lower(&strings(&["FooBar"])), "foobar");
    assert_eq!(join_lower(&strings(&["Elder", "SIGN"])), "elder sign");
    assert_eq!(join_lower(&strings(&[])), "");
}

#[test]
fn split_on_sep_splits_on_the_literal_separator() {
    assert_eq!(split_on_sep("a = b"), strings(&["a", "b"]));
    assert_eq!(split_on_sep("a=b"), strings(&["a=b"]));
    assert_eq!(split_on_sep("a = b = c"), strings(&["a", "b", "c"]));
    assert_eq!(split_on_sep("fb = "), strings(&["fb", ""]));
    assert_eq!(split_on_sep(""), strings(&[""]));
}

#[test]
fn str_helpers() {
    assert!(str_starts_with("!coc find", "!coc"));
    assert!(!str_starts_with("!co", "!coc"));
    assert!(str_starts_with("anything", ""));
    assert!(str_eq("same", "same"));
    assert!(!str_eq("same", "Same"));
}

#[test]
fn resist_reply_is_total_at_the_extremes() {
    let reply = resist_reply(i32::MAX, i32::MIN);
    assert!(reply.contains("Automatic Success"));
    let reply = resist_reply(i32::MIN, i32::MAX);
    assert!(reply.contains("Automatic Failure"));
}

#[test]
fn resist_cmd_checks_the_connective_token() {
    let reply = resist_cmd(&strings(&["1", "vs", "2"]));
    assert_eq!(
        reply,
        "Let's see...\nActive: **1**\nPassive: **2**\nThe result is **45**!! （｀・ω・´）"
    );
    let help = resist_cmd(&strings(&["1", "VS", "2"]));
    assert!(help.contains("> Usage: !coc resist"));
}

#[test]
fn dictionary_lookup_and_contains() {
    let dict = Dictionary::from_entries(vec![
        ("a".to_string(), "one".to_string()),
        ("b".to_string(), "two".to_string()),
    ]);
    assert_eq!(dict.lookup("a").as_deref(), Some("one"));
    assert_eq!(dict.lookup("b").as_deref(), Some("two"));
    assert_eq!(dict.lookup("c"), None);
    assert!(dict.contains("a"));
    assert!(!dict.contains("c"));
}

#[test]
fn dictionary_from_entries_keeps_the_first_of_a_repeated_key() {
    let dict = Dictionary::from_entries(vec![
        ("a".to_string(), "one".to_string()),
        ("a".to_string(), "two".to_string()),
    ]);
    assert_eq!(dict.lookup("a").as_deref(), Some("one"));
}

#[test]
fn dictionary_from_json_parses_a_flat_object() {
    let dict = dictionary_from_json("{\"foobar\": \"Lore\", \"x\": \"y\"}").unwrap();
    assert_eq!(dict.lookup("foobar").as_deref(), Some("Lore"));
    assert_eq!(dict.lookup("x").as_deref(), Some("y"));
    assert_eq!(dict.lookup("nope"), None);
}

#[test]
fn dictionary_from_json_rejects_malformed_sources() {
    assert!(dictionary_from_json("").is_none());
    assert!(dictionary_from_json("not json").is_none());
    assert!(dictionary_from_json("[1, 2]").is_none());
    assert!(dictionary_from_json("{\"k\": 3}").is_none());
}

#[test]
fn store_insert_remove_resolve() {
    let mut store = AliasStore::new();
    assert_eq!(store.resolve("fb"), None);
    assert_eq!(store.insert("fb", "foobar"), 1);
    assert_eq!(store.resolve("fb").as_deref(), Some("foobar"));
    assert_eq!(store.insert("fb", "other"), 0);
    assert_eq!(store.resolve("fb").as_deref(), Some("foobar"));
    assert_eq!(store.remove("fb"), 1);
    assert_eq!(store.remove("fb"), 0);
    assert_eq!(store.resolve("fb"), None);
}

#[test]
fn store_round_trips_through_its_rows() {
    let mut store = AliasStore::new();
    store.insert("a", "one");
    store.insert("b", "two");
    let rows = store.to_entries();
    assert_eq!(rows.len(), 2);
    let rebuilt = AliasStore::from_entries(rows);
    assert_eq!(rebuilt.resolve("a").as_deref(), Some("one"));
    assert_eq!(rebuilt.resolve("b").as_deref(), Some("two"));
}

#[test]
fn add_alias_cmd_rejects_empty_parts() {
    let dict = Dictionary::from_entries(vec![("foobar".to_string(), "Lore".to_string())]);
    let mut store = AliasStore::new();
    // three tokens whose join has an empty part around the separator
    let reply = add_alias_cmd(&strings(&["fb", "=", ""]), &dict, &mut store);
    assert!(reply.starts_with("```add-alias:"));
    assert_eq!(store.to_entries().len(), 0);
}
