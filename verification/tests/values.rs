use rinja::values::{NoValues, Value, ValueError, ValueMap, ValueSlice, Values};

#[test]
fn values_on_hashmap() {
    let mut values = ValueMap::new();
    values.add_value("a", 10u32);
    values.add_value("c", "blam");
    values.add_value("b", 12u32);

    assert_eq!(values.get_value::<u32>("a"), Ok(&10u32));
    assert_eq!(values.get_value::<&str>("c"), Ok(&"blam"));
    assert_eq!(values.get_value::<u8>("a"), Err(ValueError::WrongType));
    assert_eq!(values.get_value::<u8>("d"), Err(ValueError::NotPresent));
}

#[test]
fn values_on_btreemap() {
    let mut values = ValueMap::new();
    values.add_value("a", 10u32);
    values.add_value("c", "blam");
    values.add_value("b", 12u32);

    assert_eq!(values.get_value::<u32>("a"), Ok(&10u32));
    assert_eq!(values.get_value::<&str>("c"), Ok(&"blam"));
    assert_eq!(values.get_value::<u8>("a"), Err(ValueError::WrongType));
    assert_eq!(values.get_value::<u8>("d"), Err(ValueError::NotPresent));
}

#[test]
fn values_on_slice() {
    let entries = [("a", Value::U32(12)), ("c", Value::Str("blam"))];
    let values = ValueSlice::new(&entries);

    assert_eq!(values.get_value::<u32>("a"), Ok(&12u32));
    assert_eq!(values.get_value::<&str>("c"), Ok(&"blam"));
    assert_eq!(values.get_value::<u8>("a"), Err(ValueError::WrongType));
    assert_eq!(values.get_value::<u8>("d"), Err(ValueError::NotPresent));
}

#[test]
fn map_overwrites_last_write_wins() {
    let mut values = ValueMap::new();
    values.add_value("k", 1u32);
    values.add_value("k", 2u32);
    assert_eq!(values.get_value::<u32>("k"), Ok(&2u32));
}

#[test]
fn map_overwrite_changes_type() {
    let mut values = ValueMap::new();
    values.add_value("a", 12u32);
    values.add_value("a", false);
    assert_eq!(values.get_value::<u32>("a"), Err(ValueError::WrongType));
    assert_eq!(values.get_value::<bool>("a"), Ok(&false));
}

#[test]
fn slice_duplicate_keys_first_match_wins() {
    let entries = [("k", Value::U32(1)), ("k", Value::U32(2))];
    let values = ValueSlice::new(&entries);
    assert_eq!(values.get_value::<u32>("k"), Ok(&1u32));
}

#[test]
fn slice_ignores_additions() {
    let entries = [("a", Value::U32(1))];
    let mut values = ValueSlice::new(&entries);
    values.add_value("b", 2u32);
    assert_eq!(values.get_value::<u32>("b"), Err(ValueError::NotPresent));
    assert_eq!(values.get_value::<u32>("a"), Ok(&1u32));
}

#[test]
fn empty_store_rejects_every_lookup() {
    let mut values = NoValues;
    values.add_value("a", 1u32);
    assert_eq!(values.get_value::<u32>("a"), Err(ValueError::NotPresent));
    assert_eq!(values.get_value::<bool>("b"), Err(ValueError::NotPresent));
}

#[test]
fn absent_key_fails_for_every_type() {
    let mut values = ValueMap::new();
    values.add_value("present", 5u32);
    assert_eq!(values.get_value::<u32>("absent"), Err(ValueError::NotPresent));
    assert_eq!(values.get_value::<bool>("absent"), Err(ValueError::NotPresent));
    assert_eq!(values.get_value::<&str>("absent"), Err(ValueError::NotPresent));
    assert_eq!(values.get_value::<String>("absent"), Err(ValueError::NotPresent));
}

#[test]
fn owned_string_round_trip() {
    let mut values = ValueMap::new();
    values.add_value("s", String::from("hello"));
    assert_eq!(values.get_value::<String>("s"), Ok(&String::from("hello")));
    assert_eq!(values.get_value::<&str>("s"), Err(ValueError::WrongType));
}
