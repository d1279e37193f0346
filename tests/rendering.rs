use expect_macro::description::{
    FieldDescription, ShapeDescription, ShapeKind, TypeBody, TypeDescription,
};
use expect_macro::generate::{generate, GenerateError};
use expect_macro::render::{expect_derive, impl_block};

fn field(name: &str, ty: &str) -> FieldDescription {
    FieldDescription { name: name.to_string(), ty: ty.to_string() }
}

fn shape(name: &str, kind: ShapeKind, fields: Vec<FieldDescription>, fatal: bool) -> ShapeDescription {
    ShapeDescription { name: name.to_string(), kind, fields, is_fatal: fatal }
}

fn foo() -> TypeDescription {
    TypeDescription {
        name: "Foo".to_string(),
        body: TypeBody::Tagged(vec![
            shape("Bar", ShapeKind::Named, vec![field("a", "i32"), field("b", "i32")], true),
            shape("Baz", ShapeKind::Positional, vec![field("", "i32"), field("", "i32")], false),
            shape("Qux", ShapeKind::Unit, vec![], false),
        ]),
    }
}

const BAR: &str = "pub fn expect_bar(self, a: i32, b: i32) -> (i32, i32) { match self { \
Foo::Bar { a: attr_a, b: attr_b } if attr_a == a && attr_b == b => (attr_a, attr_b), \
_ => panic!(\"Expected {:?} but got {:?}\", Foo::Bar { a, b }, self) } }";

const BAZ: &str = "pub fn expect_baz(self, value_0: i32, value_1: i32) -> Option<(i32, i32)> { \
match self { Foo::Baz(attr_0, attr_1) if attr_0 == value_0 && attr_1 == value_1 => \
Some((attr_0, attr_1)), _ => None } }";

const QUX: &str = "pub fn expect_qux(self) -> Option<()> { match self { Foo::Qux => Some(()), _ => None } }";

#[test]
fn fatal_named_method_source() {
    let ms = generate(&foo()).ok().unwrap();
    assert_eq!(ms[0].to_source(), BAR);
}

#[test]
fn positional_method_source() {
    let ms = generate(&foo()).ok().unwrap();
    assert_eq!(ms[1].to_source(), BAZ);
}

#[test]
fn unit_method_source() {
    let ms = generate(&foo()).ok().unwrap();
    assert_eq!(ms[2].to_source(), QUX);
}

#[test]
fn fatal_unit_and_positional_sources() {
    let ty = TypeDescription {
        name: "E".to_string(),
        body: TypeBody::Tagged(vec![
            shape("Stop", ShapeKind::Unit, vec![], true),
            shape("One", ShapeKind::Positional, vec![field("", "String")], true),
        ]),
    };
    let ms = generate(&ty).ok().unwrap();
    assert_eq!(
        ms[0].to_source(),
        "pub fn expect_stop(self) -> () { match self { E::Stop => (), \
         _ => panic!(\"Expected {:?} but got {:?}\", E::Stop, self) } }"
    );
    assert_eq!(
        ms[1].to_source(),
        "pub fn expect_one(self, value_0: String) -> (String) { match self { \
         E::One(attr_0) if attr_0 == value_0 => (attr_0), \
         _ => panic!(\"Expected {:?} but got {:?}\", E::One(value_0), self) } }"
    );
}

#[test]
fn whole_impl_block() {
    let text = expect_derive(&foo()).ok().unwrap();
    assert_eq!(text, format!("impl Foo {{ {} {} {} }}", BAR, BAZ, QUX));
}

#[test]
fn impl_block_of_no_methods() {
    assert_eq!(impl_block(&"Never".to_string(), &vec![]), "impl Never {  }");
}

#[test]
fn derive_refuses_a_record() {
    let ty = TypeDescription { name: "Point".to_string(), body: TypeBody::Record };
    assert!(matches!(expect_derive(&ty), Err(GenerateError::NotTaggedUnion(n)) if n == "Point"));
}

#[test]
fn bindings_never_shadow_parameters() {
    let ty = TypeDescription {
        name: "E".to_string(),
        body: TypeBody::Tagged(vec![shape(
            "S",
            ShapeKind::Named,
            vec![field("a", "i32"), field("attr_a", "i32")],
            false,
        )]),
    };
    let ms = generate(&ty).ok().unwrap();
    assert_eq!(ms[0].bindings, vec!["attr__a".to_string(), "attr__attr_a".to_string()]);
    assert_eq!(
        ms[0].to_source(),
        "pub fn expect_s(self, a: i32, attr_a: i32) -> Option<(i32, i32)> { match self { \
         E::S { a: attr__a, attr_a: attr__attr_a } if attr__a == a && attr__attr_a == attr_a => \
         Some((attr__a, attr__attr_a)), _ => None } }"
    );
}

#[test]
fn binding_prefix_grows_until_free() {
    let ty = TypeDescription {
        name: "E".to_string(),
        body: TypeBody::Tagged(vec![shape(
            "S",
            ShapeKind::Named,
            vec![field("a", "u8"), field("attr_a", "u8"), field("attr__a", "u8")],
            true,
        )]),
    };
    let ms = generate(&ty).ok().unwrap();
    assert_eq!(
        ms[0].bindings,
        vec!["attr___a".to_string(), "attr___attr_a".to_string(), "attr___attr__a".to_string()]
    );
    for b in &ms[0].bindings {
        assert!(ms[0].params.iter().all(|p| &p.name != b));
    }
}
