use expect_macro::description::{
    FieldDescription, ShapeDescription, ShapeKind, TypeBody, TypeDescription,
};
use expect_macro::extract::{Mismatch, Outcome, Value};
use expect_macro::generate::{generate, method_for_shape, GenerateError, GeneratedMethod};

fn field(name: &str, ty: &str) -> FieldDescription {
    FieldDescription { name: name.to_string(), ty: ty.to_string() }
}

fn foo() -> TypeDescription {
    TypeDescription {
        name: "Foo".to_string(),
        body: TypeBody::Tagged(vec![
            ShapeDescription {
                name: "Bar".to_string(),
                kind: ShapeKind::Named,
                fields: vec![field("a", "i32"), field("b", "i32")],
                is_fatal: true,
            },
            ShapeDescription {
                name: "Baz".to_string(),
                kind: ShapeKind::Positional,
                fields: vec![field("", "i32"), field("", "i32")],
                is_fatal: false,
            },
            ShapeDescription {
                name: "Qux".to_string(),
                kind: ShapeKind::Unit,
                fields: vec![],
                is_fatal: false,
            },
        ]),
    }
}

fn methods() -> Vec<GeneratedMethod> {
    match generate(&foo()) {
        Ok(ms) => ms,
        Err(_) => panic!("a tagged union must generate"),
    }
}

fn value(shape: &str, fields: Vec<i64>) -> Value {
    Value { shape: shape.to_string(), fields }
}

fn present(o: &Outcome) -> Option<Vec<i64>> {
    match o {
        Outcome::Wrapped(v) => v.clone(),
        _ => panic!("a non-fatal extractor returns an optional"),
    }
}

#[test]
fn one_method_per_shape_in_order() {
    let ms = methods();
    let names: Vec<&str> = ms.iter().map(|m| m.name.as_str()).collect();
    assert_eq!(names, vec!["expect_bar", "expect_baz", "expect_qux"]);
    assert!(ms[0].fatal);
    assert!(!ms[1].fatal);
    assert!(!ms[2].fatal);
}

#[test]
fn named_fields_keep_their_names() {
    let ms = methods();
    let bar = &ms[0];
    let params: Vec<(&str, &str)> =
        bar.params.iter().map(|p| (p.name.as_str(), p.ty.as_str())).collect();
    assert_eq!(params, vec![("a", "i32"), ("b", "i32")]);
    assert_eq!(bar.bindings, vec!["attr_a".to_string(), "attr_b".to_string()]);
}

#[test]
fn positional_fields_get_numbered_names() {
    let ms = methods();
    let baz = &ms[1];
    let params: Vec<(&str, &str)> =
        baz.params.iter().map(|p| (p.name.as_str(), p.ty.as_str())).collect();
    assert_eq!(params, vec![("value_0", "i32"), ("value_1", "i32")]);
    assert_eq!(baz.bindings, vec!["attr_0".to_string(), "attr_1".to_string()]);
}

#[test]
fn numbering_goes_past_one_digit() {
    let shape = ShapeDescription {
        name: "Wide".to_string(),
        kind: ShapeKind::Positional,
        fields: (0..12).map(|_| field("", "u8")).collect(),
        is_fatal: false,
    };
    let m = method_for_shape(&"T".to_string(), &shape, &"wide".to_string());
    assert_eq!(m.params[10].name, "value_10");
    assert_eq!(m.params[11].name, "value_11");
    assert_eq!(m.bindings[11], "attr_11");
}

#[test]
fn unit_shape_takes_no_parameters() {
    let ms = methods();
    assert!(ms[2].params.is_empty());
    assert!(ms[2].bindings.is_empty());
}

#[test]
fn method_name_is_lowercased_shape_name() {
    let ty = TypeDescription {
        name: "Msg".to_string(),
        body: TypeBody::Tagged(vec![ShapeDescription {
            name: "HelloWorld".to_string(),
            kind: ShapeKind::Unit,
            fields: vec![],
            is_fatal: false,
        }]),
    };
    let ms = generate(&ty).ok().unwrap();
    assert_eq!(ms[0].name, "expect_helloworld");
    assert_eq!(ms[0].shape_name, "HelloWorld");
}

#[test]
fn record_is_refused() {
    let ty = TypeDescription { name: "Point".to_string(), body: TypeBody::Record };
    match generate(&ty) {
        Err(GenerateError::NotTaggedUnion(n)) => assert_eq!(n, "Point"),
        Ok(_) => panic!("a record must be refused"),
    }
}

#[test]
fn untagged_union_is_refused() {
    let ty = TypeDescription { name: "Raw".to_string(), body: TypeBody::Untagged };
    assert!(matches!(generate(&ty), Err(GenerateError::NotTaggedUnion(n)) if n == "Raw"));
}

#[test]
fn generation_is_deterministic() {
    let a = methods();
    let b = methods();
    assert_eq!(a.len(), b.len());
    for (x, y) in a.iter().zip(b.iter()) {
        assert_eq!(x.name, y.name);
        assert_eq!(x.bindings, y.bindings);
        assert_eq!(x.params.len(), y.params.len());
        for (p, q) in x.params.iter().zip(y.params.iter()) {
            assert_eq!((&p.name, &p.ty), (&q.name, &q.ty));
        }
        assert_eq!(x.to_source(), y.to_source());
    }
}

#[test]
fn fatal_named_shape_returns_values() {
    let ms = methods();
    let out = ms[0].invoke(&value("Bar", vec![1, 2]), &vec![1, 2]);
    assert!(matches!(out, Outcome::Direct(v) if v == vec![1, 2]));
}

#[test]
fn fatal_named_shape_halts_on_other_values() {
    let ms = methods();
    let out = ms[0].invoke(&value("Bar", vec![1, 2]), &vec![9, 9]);
    match out {
        Outcome::Halted(Mismatch { expected, actual }) => {
            assert_eq!(expected.shape, "Bar");
            assert_eq!(expected.fields, vec![9, 9]);
            assert_eq!(actual.shape, "Bar");
            assert_eq!(actual.fields, vec![1, 2]);
        }
        _ => panic!("a fatal extractor must halt on a mismatch"),
    }
}

#[test]
fn positional_shape_present_on_exact_values() {
    let ms = methods();
    let out = ms[1].invoke(&value("Baz", vec![1, 2]), &vec![1, 2]);
    assert_eq!(present(&out), Some(vec![1, 2]));
}

#[test]
fn positional_shape_absent_on_other_values() {
    let ms = methods();
    let out = ms[1].invoke(&value("Baz", vec![1, 2]), &vec![1, 3]);
    assert_eq!(present(&out), None);
}

#[test]
fn unit_shape_present() {
    let ms = methods();
    let out = ms[2].invoke(&value("Qux", vec![]), &vec![]);
    assert_eq!(present(&out), Some(vec![]));
}

#[test]
fn other_shape_is_absent_for_non_fatal() {
    let ms = methods();
    let out = ms[1].invoke(&value("Qux", vec![]), &vec![1, 2]);
    assert_eq!(present(&out), None);
    let out = ms[2].invoke(&value("Baz", vec![1, 2]), &vec![]);
    assert_eq!(present(&out), None);
}

#[test]
fn other_shape_halts_for_fatal() {
    let ms = methods();
    let out = ms[0].invoke(&value("Qux", vec![]), &vec![1, 2]);
    match out {
        Outcome::Halted(m) => {
            assert_eq!(m.expected.shape, "Bar");
            assert_eq!(m.expected.fields, vec![1, 2]);
            assert_eq!(m.actual.shape, "Qux");
            assert!(m.actual.fields.is_empty());
        }
        _ => panic!("a fatal extractor must halt on another shape"),
    }
}

#[test]
fn negative_values_match() {
    let ms = methods();
    let out = ms[1].invoke(&value("Baz", vec![-7, i64::MIN]), &vec![-7, i64::MIN]);
    assert_eq!(present(&out), Some(vec![-7, i64::MIN]));
}

fn halted(o: Outcome) -> Mismatch {
    match o {
        Outcome::Halted(m) => m,
        _ => panic!("a fatal extractor must halt on a mismatch"),
    }
}

#[test]
fn fatal_message_names_expected_and_actual() {
    let ms = methods();
    let m = halted(ms[0].invoke(&value("Bar", vec![1, 2]), &vec![9, 9]));
    assert_eq!(m.message(&foo()), "Expected Bar { a: 9, b: 9 } but got Bar { a: 1, b: 2 }");
}

#[test]
fn fatal_message_on_other_shapes() {
    let ms = methods();
    let m = halted(ms[0].invoke(&value("Qux", vec![]), &vec![1, 2]));
    assert_eq!(m.message(&foo()), "Expected Bar { a: 1, b: 2 } but got Qux");
    let m = halted(ms[0].invoke(&value("Baz", vec![-3, 40]), &vec![-1, 0]));
    assert_eq!(m.message(&foo()), "Expected Bar { a: -1, b: 0 } but got Baz(-3, 40)");
}

#[test]
fn message_renders_extreme_values() {
    let ms = methods();
    let m = halted(ms[0].invoke(&value("Baz", vec![i64::MIN, i64::MAX]), &vec![10, 1234567890]));
    assert_eq!(
        m.message(&foo()),
        "Expected Bar { a: 10, b: 1234567890 } but got Baz(-9223372036854775808, 9223372036854775807)"
    );
}
