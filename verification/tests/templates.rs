use std::rc::Rc;
use std::sync::Arc;

use rinja::error::{IoError, RenderError};
use rinja::fragments::{Pair, RequireU32, ShowBool, ShowStr, ShowU32, Text};
use rinja::sink::{IoAdapter, LimitedSink, TextSink};
use rinja::values::{Value, ValueError, ValueMap, ValueSlice, Values};
use rinja::{DynTemplate, Template};

#[test]
fn test_values() {
    let v = ShowU32 { key: "a".to_string(), before: String::new(), after: String::new() };

    let mut values = ValueMap::new();

    values.add_value("a", 12u32);
    assert_eq!(v.render_with_values(&values).unwrap(), "12");

    values.add_value("a", false);
    assert_eq!(v.render_with_values(&values).unwrap(), "");
}

#[test]
fn test_values2() {
    let v = Pair {
        first: ShowStr { key: "a".to_string(), before: String::new(), after: String::new() },
        second: ShowBool { key: "b".to_string(), before: " ".to_string(), after: String::new() },
    };

    let mut values = ValueMap::new();

    values.add_value("a", "hey");
    values.add_value("b", false);

    assert_eq!(v.render_with_values(&values).unwrap(), "hey false");
}

#[test]
fn dyn_template() {
    fn render(t: &dyn DynTemplate) -> String {
        t.dyn_render().unwrap()
    }

    struct Shown<'a>(&'a dyn DynTemplate);

    impl std::fmt::Display for Shown<'_> {
        fn fmt(&self, f: &mut std::fmt::Formatter<'_>) -> std::fmt::Result {
            let mut out = String::new();
            self.0.dyn_render_into(&mut out).map_err(|_| std::fmt::Error)?;
            f.write_str(&out)
        }
    }

    let value = Text::new("test");
    let test = &value as &dyn DynTemplate;

    assert_eq!(render(test), "test");

    assert_eq!(Shown(test).to_string(), "test");

    assert_eq!(format!("{}", Shown(test)), "test");

    assert_eq!(test.size_hint(), 16);

    let mut vec = Vec::new();
    test.dyn_write_into(&mut vec).unwrap();
    assert_eq!(vec, vec![b't', b'e', b's', b't']);
}

#[test]
fn render_matches_render_into() {
    let v = Pair {
        first: Text::new("pre "),
        second: ShowU32 { key: "n".to_string(), before: String::new(), after: String::new() },
    };
    let mut values = ValueMap::new();
    values.add_value("n", 7u32);

    let direct = v.render_with_values(&values).unwrap();
    let mut sink = String::from("seed:");
    v.render_into_with_values(&mut sink, &values).unwrap();
    assert_eq!(sink, format!("seed:{direct}"));
    assert_eq!(direct, "pre 7");

    let rendered = v.render().unwrap();
    let mut sink2 = String::new();
    v.render_into(&mut sink2).unwrap();
    assert_eq!(sink2, rendered);
    assert_eq!(rendered, "pre ");
}

#[test]
fn dyn_render_matches_static_render() {
    let v = Text::new("same text");
    assert_eq!(v.dyn_render().unwrap(), v.render().unwrap());
}

#[test]
fn wrappers_render_identically() {
    let t = Text::new("wrapped");
    let direct = t.render().unwrap();

    assert_eq!(<&Text as Template>::render(&&t).unwrap(), direct);

    let mut owned = Text::new("wrapped");
    let exclusive = &mut owned;
    assert_eq!(<&mut Text as Template>::render(&exclusive).unwrap(), direct);

    assert_eq!(Box::new(Text::new("wrapped")).render().unwrap(), direct);
    assert_eq!(Rc::new(Text::new("wrapped")).render().unwrap(), direct);
    assert_eq!(Arc::new(Text::new("wrapped")).render().unwrap(), direct);
}

#[test]
fn wrappers_inherit_size_hint() {
    assert_eq!(<Text as Template>::SIZE_HINT, 16);
    assert_eq!(<&Text as Template>::SIZE_HINT, 16);
    assert_eq!(<Box<Text> as Template>::SIZE_HINT, 16);
    assert_eq!(<Pair<Text, ShowBool> as Template>::SIZE_HINT, 24);
}

#[test]
fn write_into_surfaces_exact_sink_error() {
    let t = Text::new("test");
    let mut sink = LimitedSink::new(3, 77);
    let r = t.write_into(&mut sink);
    assert_eq!(r, Err(IoError::Os(77)));
    assert_eq!(sink.data, vec![b't', b'e', b's']);
}

#[test]
fn write_into_reaches_byte_sink() {
    let v = ShowU32 { key: "n".to_string(), before: "n=".to_string(), after: "!".to_string() };
    let mut values = ValueMap::new();
    values.add_value("n", 4294967295u32);

    let mut bytes: Vec<u8> = vec![b'#'];
    v.write_into_with_values(&mut bytes, &values).unwrap();
    assert_eq!(bytes, b"#n=4294967295!".to_vec());
}

#[test]
fn adapter_records_sink_error() {
    let mut sink = LimitedSink::new(3, 9);
    let mut adapter = IoAdapter::new(&mut sink);
    let r = adapter.write_text("test");
    assert_eq!(r, Err(RenderError::Fmt));
    let out = adapter.finish(false);
    assert_eq!(out, Err(IoError::Os(9)));
}

#[test]
fn adapter_synthesizes_generic_error() {
    let mut bytes: Vec<u8> = Vec::new();
    let adapter = IoAdapter::new(&mut bytes);
    let out = adapter.finish(false);
    assert_eq!(out, Err(IoError::Other));
}

#[test]
fn empty_text_renders_empty() {
    let t = Text::new("");
    assert_eq!(t.render().unwrap(), "");
    let mut bytes: Vec<u8> = Vec::new();
    t.write_into(&mut bytes).unwrap();
    assert_eq!(bytes, Vec::<u8>::new());
}

#[test]
fn decimal_rendering_edge_values() {
    let v = ShowU32 { key: "n".to_string(), before: String::new(), after: String::new() };

    let mut zero = ValueMap::new();
    zero.add_value("n", 0u32);
    assert_eq!(v.render_with_values(&zero).unwrap(), "0");

    let mut ten = ValueMap::new();
    ten.add_value("n", 10u32);
    assert_eq!(v.render_with_values(&ten).unwrap(), "10");

    let mut max = ValueMap::new();
    max.add_value("n", u32::MAX);
    assert_eq!(v.render_with_values(&max).unwrap(), "4294967295");
}

#[test]
fn render_with_slice_store_first_match() {
    let entries = [("a", Value::U32(1)), ("a", Value::U32(2))];
    let values = ValueSlice::new(&entries);
    let v = ShowU32 { key: "a".to_string(), before: String::new(), after: String::new() };
    assert_eq!(v.render_with_values(&values).unwrap(), "1");
}

#[test]
fn required_value_surfaces_store_errors() {
    let v = RequireU32 { key: "n".to_string(), before: "<".to_string(), after: ">".to_string() };

    let values = ValueMap::new();
    assert_eq!(v.render_with_values(&values), Err(RenderError::Values(ValueError::NotPresent)));

    let mut wrong = ValueMap::new();
    wrong.add_value("n", true);
    assert_eq!(v.render_with_values(&wrong), Err(RenderError::Values(ValueError::WrongType)));

    let mut right = ValueMap::new();
    right.add_value("n", 5u32);
    assert_eq!(v.render_with_values(&right).unwrap(), "<5>");
}

#[test]
fn write_into_synthesizes_error_when_render_fails() {
    let v = RequireU32 { key: "n".to_string(), before: String::new(), after: String::new() };
    let mut bytes: Vec<u8> = Vec::new();
    assert_eq!(v.write_into(&mut bytes), Err(IoError::Other));
    assert_eq!(bytes, Vec::<u8>::new());
}

#[test]
fn bool_fragment_spells_both_values() {
    let v = Pair {
        first: ShowBool { key: "t".to_string(), before: String::new(), after: " ".to_string() },
        second: ShowBool { key: "f".to_string(), before: String::new(), after: String::new() },
    };
    let mut values = ValueMap::new();
    values.add_value("t", true);
    values.add_value("f", false);
    assert_eq!(v.render_with_values(&values).unwrap(), "true false");
}
