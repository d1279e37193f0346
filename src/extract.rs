//! What a generated extractor does when it is called: a model of the
//! generated code, over values whose fields are integers.
use vstd::prelude::*;
use crate::description::{ShapeDescription, ShapeKind, ShapeView, TypeBody, TypeDescription, TypeView};
use crate::generate::{GeneratedMethod, MethodView};
use crate::text::{join, join_strings, push_signed, signed_decimal};

verus! {

/// A value of a tagged union: the name of the shape it holds and the values
/// of that shape's fields, in declaration order.
#[derive(Clone, Debug)]
pub struct Value {
    pub shape: String,
    pub fields: Vec<i64>,
}

pub struct ValueView {
    pub shape: Seq<char>,
    pub fields: Seq<i64>,
}

impl View for Value {
    type V = ValueView;

    open spec fn view(&self) -> ValueView {
        ValueView { shape: self.shape@, fields: self.fields@ }
    }
}

/// A failed assertion of a fatal extractor: the value that was asserted
/// (the method's shape holding the expected values) and the value found.
#[derive(Clone, Debug)]
pub struct Mismatch {
    pub expected: Value,
    pub actual: Value,
}

/// The result of calling an extractor.
#[derive(Clone, Debug)]
pub enum Outcome {
    /// A non-fatal extractor returns an optional tuple.
    Wrapped(Option<Vec<i64>>),
    /// A fatal extractor that matched returns the tuple itself.
    Direct(Vec<i64>),
    /// A fatal extractor that did not match halts.
    Halted(Mismatch),
}

pub enum OutcomeView {
    Wrapped(Option<Seq<i64>>),
    Direct(Seq<i64>),
    Halted(ValueView, ValueView),
}

impl View for Outcome {
    type V = OutcomeView;

    open spec fn view(&self) -> OutcomeView {
        match self {
            Outcome::Wrapped(o) => OutcomeView::Wrapped(
                match o {
                    Some(vs) => Some(vs@),
                    None => None,
                },
            ),
            Outcome::Direct(vs) => OutcomeView::Direct(vs@),
            Outcome::Halted(m) => OutcomeView::Halted(m.expected@, m.actual@),
        }
    }
}

/// The method's pattern accepts `v` with expected values `args`: `v` holds
/// the method's shape, and each bound field equals its expected value.
pub open spec fn matches(m: MethodView, v: ValueView, args: Seq<i64>) -> bool {
    &&& v.shape == m.shape_name
    &&& (m.kind == ShapeKind::Unit || v.fields == args)
}

/// What calling method `m` on `v` with expected values `args` gives.
pub open spec fn outcome(m: MethodView, v: ValueView, args: Seq<i64>) -> OutcomeView {
    if matches(m, v, args) {
        if m.fatal {
            OutcomeView::Direct(args)
        } else {
            OutcomeView::Wrapped(Some(args))
        }
    } else if m.fatal {
        OutcomeView::Halted(ValueView { shape: m.shape_name, fields: args }, v)
    } else {
        OutcomeView::Wrapped(None)
    }
}

fn same_values(a: &Vec<i64>, b: &Vec<i64>) -> (r: bool)
    ensures
        r == (a@ == b@),
{
    if a.len() != b.len() {
        return false;
    }
    let mut i: usize = 0;
    while i < a.len()
        invariant
            i <= a.len() == b.len(),
            forall|j: int| 0 <= j < i ==> a@[j] == b@[j],
        decreases a.len() - i,
    {
        if a[i] != b[i] {
            return false;
        }
        i = i + 1;
    }
    assert(a@ =~= b@);
    true
}

impl GeneratedMethod {
    /// Calls the extractor on `value` with the caller's expected field
    /// values `args`, one per parameter.
    pub fn invoke(&self, value: &Value, args: &Vec<i64>) -> (r: Outcome)
        requires
            args@.len() == self.params@.len(),
        ensures
            r@ == outcome(self@, value@, args@),
    {
        let matched = value.shape == self.shape_name && (self.kind == ShapeKind::Unit
            || same_values(&value.fields, args));
        let found = args.clone();
        assert(found@ =~= args@);
        if matched {
            if self.fatal {
                Outcome::Direct(found)
            } else {
                Outcome::Wrapped(Some(found))
            }
        } else if self.fatal {
            let actual = Value { shape: value.shape.clone(), fields: value.fields.clone() };
            assert(actual.fields@ =~= value.fields@);
            Outcome::Halted(
                Mismatch { expected: Value { shape: self.shape_name.clone(), fields: found }, actual },
            )
        } else {
            Outcome::Wrapped(None)
        }
    }
}

/// The first shape of `shapes` named `name`.
pub open spec fn find_shape(shapes: Seq<ShapeView>, name: Seq<char>) -> Option<ShapeView>
    decreases shapes.len(),
{
    if shapes.len() == 0 {
        None
    } else if shapes[0].name == name {
        Some(shapes[0])
    } else {
        find_shape(shapes.drop_first(), name)
    }
}

impl TypeView {
    /// `v` is a value of this type: it holds one of its shapes, with one
    /// value for each field that the shape binds.
    pub open spec fn holds(self, v: ValueView) -> bool {
        &&& self.shapes is Some
        &&& find_shape(self.shapes->0, v.shape) matches Some(s)
        &&& v.fields.len() == s.arity()
    }
}

/// How `#[derive(Debug)]` renders a value of shape `s` with field values
/// `fields`: `Shape { a: 1, b: 2 }`, `Shape(1, 2)`, or the bare name where
/// there is no field.
pub open spec fn value_text(s: ShapeView, fields: Seq<i64>) -> Seq<char> {
    if fields.len() == 0 {
        s.name
    } else {
        match s.kind {
            ShapeKind::Named => s.name + " { "@ + join(
                Seq::new(fields.len(), |i: int| s.fields[i].0 + ": "@ + signed_decimal(fields[i] as int)),
                ", "@,
            ) + " }"@,
            _ => s.name + "("@ + join(
                Seq::new(fields.len(), |i: int| signed_decimal(fields[i] as int)),
                ", "@,
            ) + ")"@,
        }
    }
}

/// The message with which a fatal extractor halts, where `t` is the type of
/// both values.
pub open spec fn mismatch_message(t: TypeView, expected: ValueView, actual: ValueView) -> Seq<char> {
    "Expected "@ + value_text(find_shape(t.shapes->0, expected.shape)->0, expected.fields)
        + " but got "@ + value_text(find_shape(t.shapes->0, actual.shape)->0, actual.fields)
}

fn lookup_shape<'a>(shapes: &'a Vec<ShapeDescription>, name: &String) -> (r: Option<&'a ShapeDescription>)
    ensures
        match find_shape(shapes@.map_values(|s: ShapeDescription| s@), name@) {
            Some(sv) => r matches Some(s) && s@ == sv,
            None => r is None,
        },
{
    let ghost all = shapes@.map_values(|s: ShapeDescription| s@);
    let mut i: usize = 0;
    assert(all.subrange(0, all.len() as int) =~= all);
    while i < shapes.len()
        invariant
            i <= shapes.len(),
            all == shapes@.map_values(|s: ShapeDescription| s@),
            find_shape(all, name@) == find_shape(all.subrange(i as int, all.len() as int), name@),
        decreases shapes.len() - i,
    {
        let ghost rest = all.subrange(i as int, all.len() as int);
        assert(rest.drop_first() =~= all.subrange(i + 1, all.len() as int));
        assert(rest[0] == shapes@[i as int]@);
        if shapes[i].name == *name {
            return Some(&shapes[i]);
        }
        i = i + 1;
    }
    None
}

fn push_value(out: &mut String, shape: &ShapeDescription, fields: &Vec<i64>)
    requires
        fields@.len() == shape@.arity(),
    ensures
        final(out)@ == old(out)@ + value_text(shape@, fields@),
{
    let ghost start = out@;
    out.append(shape.name.as_str());
    if fields.len() == 0 {
        return;
    }
    let named = shape.kind == ShapeKind::Named;
    let mut items: Vec<String> = Vec::new();
    let mut i: usize = 0;
    while i < fields.len()
        invariant
            i <= fields@.len() == shape@.arity(),
            fields@.len() > 0,
            named == (shape.kind == ShapeKind::Named),
            items@.len() == i,
            forall|j: int|
                0 <= j < i ==> #[trigger] items@[j]@ == if named {
                    shape@.fields[j].0 + ": "@ + signed_decimal(fields@[j] as int)
                } else {
                    signed_decimal(fields@[j] as int)
                },
        decreases fields.len() - i,
    {
        let mut item = String::new();
        if named {
            assert(shape@.fields[i as int] == shape.fields@[i as int]@);
            item.append(shape.fields[i].name.as_str());
            item.append(": ");
        }
        push_signed(&mut item, fields[i]);
        items.push(item);
        i = i + 1;
        proof {
            assert(item@ =~= items@[i - 1]@);
        }
    }
    let joined = join_strings(&items, ", ");
    if named {
        out.append(" { ");
        out.append(joined.as_str());
        out.append(" }");
        assert(items@.map_values(|s: String| s@) =~= Seq::new(
            fields@.len(),
            |i: int| shape@.fields[i].0 + ": "@ + signed_decimal(fields@[i] as int),
        ));
    } else {
        out.append("(");
        out.append(joined.as_str());
        out.append(")");
        assert(items@.map_values(|s: String| s@) =~= Seq::new(
            fields@.len(),
            |i: int| signed_decimal(fields@[i] as int),
        ));
    }
    assert(final(out)@ =~= start + value_text(shape@, fields@));
}

impl Mismatch {
    /// The message with which the fatal extractor halted: the value it
    /// expected and the value it found, each as `#[derive(Debug)]` renders
    /// it. `t` is the type of both values.
    pub fn message(&self, t: &TypeDescription) -> (r: String)
        requires
            t@.holds(self.expected@),
            t@.holds(self.actual@),
        ensures
            r@ == mismatch_message(t@, self.expected@, self.actual@),
    {
        let shapes = match &t.body {
            TypeBody::Tagged(shapes) => shapes,
            _ => return String::new(),
        };
        let expected_shape = lookup_shape(shapes, &self.expected.shape).unwrap();
        let actual_shape = lookup_shape(shapes, &self.actual.shape).unwrap();
        let mut out = String::from_str("Expected ");
        push_value(&mut out, expected_shape, &self.expected.fields);
        out.append(" but got ");
        push_value(&mut out, actual_shape, &self.actual.fields);
        out
    }
}

} // verus!
