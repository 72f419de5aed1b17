use serde_extra::duration::Duration;
use serde_extra::iter_map;
use serde_extra::iter_map::MapIter;
use serde_extra::ts_millis;
use serde_extra::ts_secs;
use serde_extra::wire::WireInt;

#[test]
fn regular() {
    let mut fields = serde_json::Map::new();
    fields.insert("seconds".to_string(), serde_json::Value::from(120u64));
    fields.insert("millis".to_string(), serde_json::Value::from(10u64));
    let time = serde_json::Value::Object(fields);

    let text = serde_json::to_string(&time).unwrap();
    let parsed: serde_json::Value = serde_json::from_str(&text).unwrap();

    let seconds_wire = match parsed.get("seconds") {
        Some(value) if !value.is_null() => Some(WireInt::U64(value.as_u64().unwrap())),
        _ => None,
    };
    let millis_wire = WireInt::U64(parsed.get("millis").unwrap().as_u64().unwrap());

    let seconds: Option<Duration> = ts_secs::option::deserialize(seconds_wire).unwrap();
    let millis: Duration = ts_millis::deserialize(millis_wire).unwrap();

    assert_eq!(
        (seconds, millis),
        (Some(Duration::from_secs(120)), Duration::from_millis(10))
    );
}

#[test]
fn absent_seconds_field_reads_as_no_value() {
    let mut fields = serde_json::Map::new();
    fields.insert("seconds".to_string(), serde_json::Value::Null);
    fields.insert("millis".to_string(), serde_json::Value::from(10u64));
    let text = serde_json::to_string(&serde_json::Value::Object(fields)).unwrap();
    let parsed: serde_json::Value = serde_json::from_str(&text).unwrap();

    let seconds_wire = match parsed.get("seconds") {
        Some(value) if !value.is_null() => Some(WireInt::U64(value.as_u64().unwrap())),
        _ => None,
    };
    let missing_wire = match parsed.get("minutes") {
        Some(value) if !value.is_null() => Some(WireInt::U64(value.as_u64().unwrap())),
        _ => None,
    };

    let seconds: Option<Duration> = ts_secs::option::deserialize(seconds_wire).unwrap();
    let missing: Option<Duration> = ts_secs::option::deserialize(missing_wire).unwrap();
    assert_eq!(seconds, None);
    assert_eq!(missing, None);
}

#[test]
fn pairs_round_trip_through_json_map() {
    let pairs: Vec<(u32, String)> = vec![(1, "Hello".to_string()), (2, "World".to_string())];

    let mut object = serde_json::Map::new();
    for (key, value) in iter_map::serialize(&pairs) {
        object.insert(key.to_string(), serde_json::Value::from(value.as_str()));
    }
    let text = serde_json::to_string(&serde_json::Value::Object(object)).unwrap();
    assert_eq!(text, "{\"1\":\"Hello\",\"2\":\"World\"}");

    let parsed: serde_json::Value = serde_json::from_str(&text).unwrap();
    let mut reads: Vec<Result<(u32, String), String>> = Vec::new();
    for (key, value) in parsed.as_object().unwrap() {
        reads.push(match (key.parse::<u32>(), value.as_str()) {
            (Ok(k), Some(v)) => Ok((k, v.to_string())),
            _ => Err(format!("bad entry {}", key)),
        });
    }
    assert_eq!(iter_map::deserialize(reads), Ok(pairs));
}

#[test]
fn mistyped_json_value_is_the_error() {
    let text = "{\"1\":\"Hello\",\"2\":7,\"3\":false}";
    let parsed: serde_json::Value = serde_json::from_str(text).unwrap();
    let mut reads: Vec<Result<(u32, String), String>> = Vec::new();
    for (key, value) in parsed.as_object().unwrap() {
        reads.push(match (key.parse::<u32>(), value.as_str()) {
            (Ok(k), Some(v)) => Ok((k, v.to_string())),
            _ => Err(format!("bad entry {}", key)),
        });
    }
    assert_eq!(iter_map::deserialize(reads), Err("bad entry 2".to_string()));
}

#[test]
fn serialize_keeps_order_and_duplicates() {
    let pairs: Vec<(u8, &str)> = vec![(2, "b"), (1, "a"), (2, "c"), (1, "a")];
    let entries = iter_map::serialize(&pairs);
    assert_eq!(entries.len(), 4);
    let flat: Vec<(u8, &str)> = entries.iter().map(|(k, v)| (**k, **v)).collect();
    assert_eq!(flat, vec![(2, "b"), (1, "a"), (2, "c"), (1, "a")]);
}

#[test]
fn serialize_of_nothing_is_an_empty_map() {
    let pairs: Vec<(u8, u8)> = Vec::new();
    assert!(iter_map::serialize(&pairs).is_empty());
}

#[test]
fn entry_borrows_both_halves() {
    let pair = (7u32, "seven".to_string());
    let (key, value) = iter_map::entry(&pair);
    assert_eq!(*key, 7);
    assert_eq!(value.as_str(), "seven");
}

#[test]
fn deserialize_empty_map_is_empty_collection() {
    let reads: Vec<Result<(u8, u8), String>> = Vec::new();
    assert_eq!(iter_map::deserialize(reads), Ok(Vec::new()));
}

#[test]
fn deserialize_keeps_order_and_duplicates() {
    let reads: Vec<Result<(u8, &str), String>> =
        vec![Ok((3, "x")), Ok((1, "y")), Ok((3, "z")), Ok((3, "x"))];
    assert_eq!(
        iter_map::deserialize(reads),
        Ok(vec![(3, "x"), (1, "y"), (3, "z"), (3, "x")])
    );
}

#[test]
fn deserialize_gives_first_error_not_partial_result() {
    let reads: Vec<Result<(u8, u8), &str>> =
        vec![Ok((1, 1)), Err("first"), Ok((2, 2)), Err("second")];
    assert_eq!(iter_map::deserialize(reads), Err("first"));
}

#[test]
fn deserialize_error_at_the_start() {
    let reads: Vec<Result<(u8, u8), u32>> = vec![Err(404), Ok((1, 1))];
    assert_eq!(iter_map::deserialize(reads), Err(404));
}

#[test]
fn map_iter_passes_entries_and_end_through() {
    let mut pass: MapIter<String> = MapIter::new();
    assert_eq!(pass.next(Ok(Some((1u8, 'a')))), Some((1u8, 'a')));
    assert_eq!(pass.next(Ok(Some((1u8, 'b')))), Some((1u8, 'b')));
    assert_eq!(pass.next::<u8, char>(Ok(None)), None);
    assert_eq!(pass.finish(vec![(1u8, 'a'), (1u8, 'b')]), Ok(vec![(1u8, 'a'), (1u8, 'b')]));
}

#[test]
fn map_iter_ends_the_pairs_at_a_failure_and_keeps_the_first() {
    let mut pass: MapIter<&str> = MapIter::new();
    assert_eq!(pass.next(Ok(Some((1u8, 2u8)))), Some((1, 2)));
    assert_eq!(pass.next::<u8, u8>(Err("broken")), None);
    assert_eq!(pass.next::<u8, u8>(Err("later")), None);
    assert_eq!(pass.next(Ok(Some((3u8, 4u8)))), Some((3, 4)));
    assert_eq!(pass.finish(vec![(1u8, 2u8)]), Err("broken"));
}

#[test]
fn map_iter_without_reads_gives_what_was_built() {
    let pass: MapIter<String> = MapIter::new();
    assert_eq!(pass.finish(5u8), Ok(5u8));
}

#[test]
fn size_hint_is_exact_when_known() {
    assert_eq!(iter_map::size_hint(Some(3)), (3, Some(3)));
    assert_eq!(iter_map::size_hint(Some(0)), (0, Some(0)));
    assert_eq!(iter_map::size_hint(None), (0, None));
}
