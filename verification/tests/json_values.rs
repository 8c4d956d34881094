use evm_rpc_harness::json::Json;

const SAMPLES: [&str; 14] = [
    "null",
    "true",
    "0",
    "-0",
    "0.0",
    "-7",
    "18446744073709551615",
    "1.5e300",
    "\"a\\u00e9\\n\"",
    "[]",
    "[1,[2,{\"a\":null}],\"x\"]",
    "{}",
    "{\"b\":1,\"a\":[true,false]}",
    "{\"a\":{\"a\":{\"a\":2}},\"z\":-1.25}",
];

#[test]
fn values_pass_through_unchanged() {
    for s in SAMPLES {
        let v: serde_json::Value = serde_json::from_str(s).unwrap();
        let j = Json::from_value(v.clone());
        assert_eq!(j.to_value(), v);
        assert_eq!(j.copy().to_value(), v);
        assert_eq!(j.text(), v.to_string());
        assert_eq!(j.text(), serde_json::to_string(&v).unwrap());
        assert_eq!(j.pretty(), serde_json::to_string_pretty(&v).unwrap());
    }
}

#[test]
fn equality_is_that_of_the_values() {
    for a in SAMPLES {
        for b in SAMPLES {
            let x: serde_json::Value = serde_json::from_str(a).unwrap();
            let y: serde_json::Value = serde_json::from_str(b).unwrap();
            let same = Json::from_value(x.clone()).same(&Json::from_value(y.clone()));
            assert_eq!(same, x == y, "{a} {b}");
        }
    }
}

#[test]
fn parsing_gives_the_value_or_the_message() {
    assert_eq!(Json::parse(" {\"b\": 1, \"a\": 2} ").ok().unwrap().text(), "{\"a\":2,\"b\":1}");
    let expected = serde_json::from_str::<serde_json::Value>("{oops").unwrap_err().to_string();
    assert_eq!(Json::parse("{oops").err().unwrap(), expected);
    assert!(Json::parse("").is_err());
    assert!(Json::parse("1 2").is_err());
}

#[test]
fn members_and_items_are_found() {
    let j = Json::parse("{\"a\":\"x\",\"b\":[1,2],\"c\":{\"d\":null}}").ok().unwrap();
    assert_eq!(j.get("a").unwrap().as_str(), Some("x"));
    assert_eq!(j.text_at("a"), Some("x"));
    assert_eq!(j.text_at("b"), None);
    assert_eq!(j.text_at("missing"), None);
    assert_eq!(j.array_at("b").unwrap().len(), 2);
    assert!(j.array_at("c").is_none());
    assert!(j.get("c").unwrap().get("d").is_some());
    assert!(j.get("d").is_none());
    assert!(Json::Null.get("a").is_none());
    assert_eq!(j.member_count(), Some(3));
    assert_eq!(Json::list().member_count(), None);
}

#[test]
fn later_members_count() {
    let j = Json::Object(vec![
        ("a".to_string(), Json::number(1)),
        ("b".to_string(), Json::number(2)),
        ("a".to_string(), Json::number(3)),
    ]);
    assert_eq!(j.text(), "{\"a\":3,\"b\":2}");
    assert_eq!(j.get("a").unwrap().text(), "3");
    assert_eq!(j.member_count(), Some(2));
    let k = Json::object().with("b", Json::number(2)).with("a", Json::number(1));
    assert!(!j.same(&k));
    assert!(j.same(&k.with("a", Json::number(3))));
}

#[test]
fn values_are_built_up() {
    let j = Json::list()
        .item(Json::string("latest"))
        .item(Json::Bool(false))
        .item(Json::object().with("n", Json::number(4)));
    assert_eq!(j.text(), "[\"latest\",false,{\"n\":4}]");
    assert_eq!(Json::Null.item(Json::Null).text(), "null");
    assert_eq!(Json::list().with("a", Json::Null).text(), "[]");
}

#[test]
fn the_zeros_of_a_double_are_one_value() {
    let a = Json::parse("[0.0]").ok().unwrap();
    let b = Json::parse("[-0.0]").ok().unwrap();
    let c = Json::parse("[0]").ok().unwrap();
    assert!(a.same(&b));
    assert!(!a.same(&c));
    assert_ne!(a.text(), b.text());
}
