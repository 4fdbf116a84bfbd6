use rpc_params::{ParamKey, ParamMap, Params, RawParams};
use serde_json::Value;

fn object(entries: &[(&str, Value)]) -> RawParams {
    let mut map = ParamMap::new();
    for (k, v) in entries {
        map.insert(k.to_string(), v.clone());
    }
    RawParams::Object(map)
}

fn array(values: &[i64]) -> RawParams {
    RawParams::Array(values.iter().map(|v| Value::from(*v)).collect())
}

fn keys_of(params: Params) -> Vec<String> {
    let mut iter = params.into_iter();
    let mut out = Vec::new();
    while let Some((key, _)) = iter.next() {
        match key {
            ParamKey::String(s) => out.push(s.to_string()),
            ParamKey::Index(i) => out.push(i.to_string()),
        }
    }
    out
}

#[test]
fn empty_params_have_nothing() {
    let raw = RawParams::Empty;
    let params = Params::from(&raw);
    assert_eq!(params.get_raw(ParamKey::String("a")), None);
    assert_eq!(params.get_raw(ParamKey::String("")), None);
    assert_eq!(params.get_raw(ParamKey::Index(0)), None);
    assert_eq!(params.get_raw(ParamKey::Index(usize::MAX)), None);
    let mut iter = params.into_iter();
    assert_eq!(iter.size_hint(), (0, Some(0)));
    assert!(iter.next().is_none());
}

#[test]
fn object_lookup_by_name_only() {
    let raw = object(&[("a", Value::from(1)), ("b", Value::from(2))]);
    let params = Params::from(&raw);
    assert_eq!(params.get_raw(ParamKey::String("a")), Some(&Value::from(1)));
    assert_eq!(params.get_raw(ParamKey::String("b")), Some(&Value::from(2)));
    assert_eq!(params.get_raw(ParamKey::String("c")), None);
    assert_eq!(params.get_raw(ParamKey::Index(0)), None);
}

#[test]
fn array_lookup_by_position_only() {
    let raw = array(&[10, 20, 30]);
    let params = Params::from(&raw);
    assert_eq!(params.get_raw(ParamKey::Index(0)), Some(&Value::from(10)));
    assert_eq!(params.get_raw(ParamKey::Index(1)), Some(&Value::from(20)));
    assert_eq!(params.get_raw(ParamKey::Index(3)), None);
    assert_eq!(params.get_raw(ParamKey::String("x")), None);
}

#[test]
fn get_decodes_matching_values() {
    let raw = object(&[
        ("n", Value::from(42)),
        ("s", Value::from("hello")),
        ("list", Value::from(vec![1, 2, 3])),
    ]);
    let params = Params::from(&raw);
    assert_eq!(params.get::<u32>(ParamKey::String("n")), Ok(42));
    assert_eq!(params.get::<String>(ParamKey::String("s")), Ok("hello".to_string()));
    assert_eq!(params.get::<Vec<u8>>(ParamKey::String("list")), Ok(vec![1, 2, 3]));
    assert_eq!(params.get::<Value>(ParamKey::String("n")), Ok(Value::from(42)));
}

#[test]
fn get_fails_on_mismatched_or_missing_values() {
    let raw = array(&[-5, 7]);
    let params = Params::from(&raw);
    assert_eq!(params.get::<i64>(ParamKey::Index(0)), Ok(-5));
    assert_eq!(params.get::<u32>(ParamKey::Index(0)), Err(()));
    assert_eq!(params.get::<String>(ParamKey::Index(1)), Err(()));
    assert_eq!(params.get::<i64>(ParamKey::Index(2)), Err(()));
    assert_eq!(params.get::<i64>(ParamKey::String("x")), Err(()));
}

#[test]
fn object_iteration_follows_insertion_order() {
    let raw = object(&[("z", Value::from(1)), ("a", Value::from(2)), ("m", Value::from(3))]);
    let params = Params::from(&raw);
    assert_eq!(keys_of(params), vec!["z", "a", "m"]);
    let mut iter = params.into_iter();
    assert_eq!(iter.size_hint(), (3, Some(3)));
    let (_, v) = iter.next().unwrap();
    assert_eq!(v, &Value::from(1));
    assert_eq!(iter.size_hint(), (2, Some(2)));
}

#[test]
fn insert_of_existing_key_keeps_its_place() {
    let mut map = ParamMap::new();
    assert_eq!(map.insert("z".to_string(), Value::from(1)), None);
    assert_eq!(map.insert("a".to_string(), Value::from(2)), None);
    assert_eq!(map.insert("z".to_string(), Value::from(9)), Some(Value::from(1)));
    assert_eq!(map.len(), 2);
    assert_eq!(map.get("z"), Some(&Value::from(9)));
    assert_eq!(map.get("q"), None);
    let (k, v) = map.get_index(0).unwrap();
    assert_eq!(k, "z");
    assert_eq!(v, &Value::from(9));
    let (k, v) = map.get_index(1).unwrap();
    assert_eq!(k, "a");
    assert_eq!(v, &Value::from(2));
    assert!(map.get_index(2).is_none());
    let raw = RawParams::Object(map);
    assert_eq!(keys_of(Params::from(&raw)), vec!["z", "a"]);
}

#[test]
fn repeated_lookups_agree() {
    let raw = object(&[("a", Value::from(1))]);
    let params = Params::from(&raw);
    for key in ["a", "b"] {
        let first = params.get_raw(ParamKey::String(key));
        let second = params.get_raw(ParamKey::String(key));
        assert_eq!(first, second);
    }
    let raw = array(&[4]);
    let params = Params::from(&raw);
    assert_eq!(params.get_raw(ParamKey::Index(0)), params.get_raw(ParamKey::Index(0)));
    assert_eq!(params.get_raw(ParamKey::Index(5)), params.get_raw(ParamKey::Index(5)));
}

#[test]
fn array_iteration_yields_indices() {
    let raw = array(&[7, 8, 9]);
    let params = Params::from(&raw);
    let mut iter = params.into_iter();
    for (i, expected) in [7, 8, 9].into_iter().enumerate() {
        assert_eq!(iter.size_hint(), (3 - i, Some(3 - i)));
        let (key, value) = iter.next().unwrap();
        assert!(matches!(key, ParamKey::Index(k) if k == i));
        assert_eq!(value, &Value::from(expected));
    }
    assert_eq!(iter.size_hint(), (0, Some(0)));
    assert!(iter.next().is_none());
    assert!(iter.next().is_none());
}

#[test]
fn keys_convert_from_names_and_positions() {
    assert!(matches!(ParamKey::from("name"), ParamKey::String("name")));
    assert!(matches!(ParamKey::from(""), ParamKey::String("")));
    let owned = String::from("owned");
    assert!(matches!(ParamKey::from(&owned), ParamKey::String("owned")));
    let empty = String::new();
    assert!(matches!(ParamKey::from(&empty), ParamKey::String("")));
    assert!(matches!(ParamKey::from(3usize), ParamKey::Index(3)));
    assert!(matches!(ParamKey::from(0usize), ParamKey::Index(0)));
    let raw = object(&[("k", Value::from(true))]);
    let params = Params::from(&raw);
    assert_eq!(params.get_raw("k".into()), Some(&Value::from(true)));
}

#[test]
fn as_ref_returns_the_wrapped_params() {
    let raw = array(&[1]);
    let params = Params::from(&raw);
    assert!(std::ptr::eq(params.as_ref(), &raw));
}

#[test]
fn view_converts_back_into_the_wrapped_params() {
    let raw = object(&[("a", Value::from(1))]);
    let params = Params::from(&raw);
    let back: &RawParams = params.into();
    assert!(std::ptr::eq(back, &raw));
}
