use winshaper::settings::{SettingValue, Settings};

fn text(s: &str) -> SettingValue {
    SettingValue::Text(s.to_string())
}

fn fraction(number: f64) -> SettingValue {
    SettingValue::Real { bits: number.to_bits(), thousandths: (number * 1000.0).floor() as i64 }
}

fn table(entries: Vec<(&str, SettingValue)>) -> SettingValue {
    SettingValue::Table(entries.into_iter().map(|(k, v)| (k.to_string(), v)).collect())
}

#[test]
fn a_new_bag_holds_nothing() {
    let settings = Settings::new();
    assert_eq!(settings.get("anything"), None);
    assert!(!settings.contains_key("anything"));
    assert_eq!(settings.entries().len(), 0);
}

#[test]
fn insert_gives_a_key_its_value() {
    let mut settings = Settings::new();
    settings.insert("a".to_string(), SettingValue::Unsigned(1));
    settings.insert("b".to_string(), text("two"));
    assert_eq!(settings.get("a"), Some(&SettingValue::Unsigned(1)));
    assert_eq!(settings.get("b"), Some(&text("two")));
    assert_eq!(settings.get("c"), None);
    assert!(settings.contains_key("a"));
    assert!(!settings.contains_key("A"));
}

#[test]
fn insert_replaces_the_value_of_a_key_in_place() {
    let mut settings = Settings::new();
    settings.insert("a".to_string(), SettingValue::Unsigned(1));
    settings.insert("b".to_string(), SettingValue::Unsigned(2));
    settings.insert("a".to_string(), SettingValue::Bool(true));
    assert_eq!(settings.get("a"), Some(&SettingValue::Bool(true)));
    assert_eq!(settings.get("b"), Some(&SettingValue::Unsigned(2)));
    assert_eq!(
        settings.entries(),
        &vec![
            ("a".to_string(), SettingValue::Bool(true)),
            ("b".to_string(), SettingValue::Unsigned(2))
        ]
    );
}

#[test]
fn merge_prefers_the_incoming_values() {
    let mut settings = Settings::new();
    settings.insert("keep".to_string(), SettingValue::Unsigned(1));
    settings.insert("change".to_string(), SettingValue::Unsigned(2));
    let mut incoming = Settings::new();
    incoming.insert("change".to_string(), SettingValue::Unsigned(20));
    incoming.insert("add".to_string(), SettingValue::Null);
    settings.merge(&incoming);
    assert_eq!(settings.get("keep"), Some(&SettingValue::Unsigned(1)));
    assert_eq!(settings.get("change"), Some(&SettingValue::Unsigned(20)));
    assert_eq!(settings.get("add"), Some(&SettingValue::Null));
    assert_eq!(settings.entries().len(), 3);
    assert_eq!(incoming.entries().len(), 2);
}

#[test]
fn merging_an_empty_bag_changes_nothing() {
    let mut settings = Settings::new();
    settings.insert("a".to_string(), SettingValue::Unsigned(1));
    settings.merge(&Settings::new());
    assert_eq!(settings.entries(), &vec![("a".to_string(), SettingValue::Unsigned(1))]);
}

#[test]
fn a_copy_of_a_bag_holds_the_same_entries() {
    let mut settings = Settings::new();
    settings.insert("a".to_string(), SettingValue::List(vec![text("x"), SettingValue::Signed(-1)]));
    settings.insert("b".to_string(), fraction(1.5));
    settings.insert("c".to_string(), table(vec![("x", fraction(0.12345)), ("y", text("z"))]));
    let copy = settings.duplicate();
    assert_eq!(copy.entries(), settings.entries());
    let clone = settings.clone();
    assert_eq!(clone.entries(), settings.entries());
}

#[test]
fn a_copy_of_a_value_is_equal_to_it() {
    let nested = SettingValue::List(vec![
        SettingValue::Null,
        SettingValue::Bool(false),
        SettingValue::Unsigned(7),
        SettingValue::Signed(-7),
        fraction(-7.5),
        fraction(0.12345),
        text("seven"),
        SettingValue::List(vec![text("deep"), SettingValue::List(Vec::new())]),
        table(vec![
            ("inner", table(vec![("deepest", SettingValue::List(vec![fraction(1e300)]))])),
            ("inner", SettingValue::Null),
            ("", table(Vec::new())),
        ]),
    ]);
    assert_eq!(nested.duplicate(), nested);
    assert_eq!(nested.clone(), nested);
}

#[test]
fn as_u64_takes_non_negative_integers_only() {
    assert_eq!(SettingValue::Unsigned(0).as_u64(), Some(0));
    assert_eq!(SettingValue::Unsigned(u64::MAX).as_u64(), Some(u64::MAX));
    assert_eq!(SettingValue::Signed(-1).as_u64(), None);
    assert_eq!(fraction(1.0).as_u64(), None);
    assert_eq!(table(vec![("n", SettingValue::Unsigned(1))]).as_u64(), None);
    assert_eq!(text("1").as_u64(), None);
    assert_eq!(SettingValue::Bool(true).as_u64(), None);
    assert_eq!(SettingValue::Null.as_u64(), None);
    assert_eq!(SettingValue::List(vec![SettingValue::Unsigned(1)]).as_u64(), None);
}

#[test]
fn as_thousandths_takes_every_number() {
    assert_eq!(SettingValue::Unsigned(80).as_thousandths(), Some(80_000));
    assert_eq!(SettingValue::Unsigned(0).as_thousandths(), Some(0));
    assert_eq!(SettingValue::Signed(-3).as_thousandths(), Some(-3000));
    assert_eq!(fraction(80.5).as_thousandths(), Some(80_500));
    assert_eq!(fraction(-0.001).as_thousandths(), Some(-1));
    assert_eq!(fraction(-0.0001).as_thousandths(), Some(-1));
    assert_eq!(fraction(0.12345).as_thousandths(), Some(123));
    assert_eq!(
        SettingValue::Real { bits: 7, thousandths: 42 }.as_thousandths(),
        Some(42)
    );
    assert_eq!(table(Vec::new()).as_thousandths(), None);
    assert_eq!(text("80").as_thousandths(), None);
    assert_eq!(SettingValue::Bool(true).as_thousandths(), None);
    assert_eq!(SettingValue::Null.as_thousandths(), None);
    assert_eq!(SettingValue::List(Vec::new()).as_thousandths(), None);
}

#[test]
fn as_thousandths_stops_at_the_bounds() {
    let limit = 9_223_372_036_854_775u64;
    assert_eq!(
        SettingValue::Unsigned(limit).as_thousandths(),
        Some(9_223_372_036_854_775_000i64)
    );
    assert_eq!(SettingValue::Unsigned(limit + 1).as_thousandths(), Some(i64::MAX));
    assert_eq!(SettingValue::Unsigned(u64::MAX).as_thousandths(), Some(i64::MAX));
    assert_eq!(
        SettingValue::Signed(-(limit as i64)).as_thousandths(),
        Some(-9_223_372_036_854_775_000i64)
    );
    assert_eq!(SettingValue::Signed(-(limit as i64) - 1).as_thousandths(), Some(i64::MIN));
    assert_eq!(SettingValue::Signed(i64::MIN).as_thousandths(), Some(i64::MIN));
    assert_eq!(SettingValue::Signed(i64::MAX).as_thousandths(), Some(i64::MAX));
}

#[test]
fn as_str_takes_texts_only() {
    assert_eq!(text("dark").as_str(), Some(&"dark".to_string()));
    assert_eq!(text("").as_str(), Some(&String::new()));
    assert_eq!(SettingValue::Unsigned(1).as_str(), None);
    assert_eq!(SettingValue::List(vec![text("a")]).as_str(), None);
    assert_eq!(table(vec![("a", text("a"))]).as_str(), None);
}

#[test]
fn as_array_takes_lists_only() {
    let items = vec![text("a"), SettingValue::Unsigned(1)];
    assert_eq!(SettingValue::List(items.clone()).as_array(), Some(&items));
    assert_eq!(SettingValue::List(Vec::new()).as_array(), Some(&Vec::new()));
    assert_eq!(text("a").as_array(), None);
    assert_eq!(SettingValue::Null.as_array(), None);
    assert_eq!(table(vec![("a", SettingValue::List(Vec::new()))]).as_array(), None);
}

#[test]
fn text_items_keeps_the_texts_in_order() {
    let items = vec![
        text("a"),
        SettingValue::Unsigned(1),
        text("b"),
        SettingValue::List(vec![text("inner")]),
        table(vec![("key", text("in a table"))]),
        fraction(2.5),
        SettingValue::Bool(true),
        text(""),
    ];
    assert_eq!(SettingValue::text_items(&items), vec!["a", "b", ""]);
    assert_eq!(SettingValue::text_items(&Vec::new()), Vec::<String>::new());
}

#[test]
fn a_number_with_a_fraction_is_given_back_bit_by_bit() {
    let mut settings = Settings::new();
    for (key, number) in [("a", 0.12345f64), ("b", -1e-9), ("c", 1e300), ("d", 80.0)] {
        settings.insert(key.to_string(), fraction(number));
    }
    let copy = settings.duplicate();
    for (key, number) in [("a", 0.12345f64), ("b", -1e-9), ("c", 1e300), ("d", 80.0)] {
        match copy.get(key) {
            Some(SettingValue::Real { bits, .. }) => assert_eq!(f64::from_bits(*bits), number),
            other => panic!("{:?}", other),
        }
    }
}

#[test]
fn a_table_keeps_its_entries_in_order() {
    let value = table(vec![("b", SettingValue::Unsigned(2)), ("a", SettingValue::Unsigned(1))]);
    match value.duplicate() {
        SettingValue::Table(entries) => assert_eq!(
            entries,
            vec![
                ("b".to_string(), SettingValue::Unsigned(2)),
                ("a".to_string(), SettingValue::Unsigned(1))
            ]
        ),
        other => panic!("{:?}", other),
    }
}
