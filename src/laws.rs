//! What holds of every generated extractor.
use vstd::prelude::*;
use crate::description::{ShapeKind, TypeView};
use crate::description::ShapeView;
use crate::extract::{find_shape, mismatch_message, outcome, value_text, OutcomeView, ValueView};
use crate::generate::{
    generated, generated_view, method_name, shape_method, GenerateError, GeneratedMethod,
};
use crate::text::join;

verus! {

/// A non-fatal extractor called with the exact field values of a value of
/// its shape returns those values, in declared order, in a present optional.
pub proof fn lemma_present_on_exact_values(t: TypeView, i: int, v: ValueView)
    requires
        t.shapes is Some,
        0 <= i < t.shapes->0.len(),
        !t.shapes->0[i].is_fatal,
        v.shape == t.shapes->0[i].name,
        v.fields.len() == t.shapes->0[i].arity(),
    ensures
        outcome(generated(t)->0[i], v, v.fields) == OutcomeView::Wrapped(Some(v.fields)),
{
}

/// A non-fatal extractor called on a value of its shape with expected values
/// that differ from the value's fields returns an empty optional.
pub proof fn lemma_absent_on_other_values(t: TypeView, i: int, v: ValueView, args: Seq<i64>)
    requires
        t.shapes is Some,
        0 <= i < t.shapes->0.len(),
        !t.shapes->0[i].is_fatal,
        args.len() == t.shapes->0[i].arity(),
        v.shape == t.shapes->0[i].name,
        v.fields != args,
        t.shapes->0[i].kind != ShapeKind::Unit,
    ensures
        outcome(generated(t)->0[i], v, args) == OutcomeView::Wrapped(None),
{
}

/// A non-fatal extractor called on a value of another shape of the same type
/// returns an empty optional, whatever the expected values.
pub proof fn lemma_absent_on_other_shape(
    t: TypeView,
    i: int,
    j: int,
    v: ValueView,
    args: Seq<i64>,
)
    requires
        t.well_formed(),
        0 <= i < t.shapes->0.len(),
        0 <= j < t.shapes->0.len(),
        i != j,
        !t.shapes->0[i].is_fatal,
        args.len() == t.shapes->0[i].arity(),
        v.shape == t.shapes->0[j].name,
    ensures
        outcome(generated(t)->0[i], v, args) == OutcomeView::Wrapped(None),
{
    assert(t.shapes->0[i].name != t.shapes->0[j].name);
}

/// The non-fatal extractor of a unit shape, called on a value of that shape,
/// returns a present optional of the empty tuple.
pub proof fn lemma_unit_present(t: TypeView, i: int, v: ValueView)
    requires
        t.shapes is Some,
        0 <= i < t.shapes->0.len(),
        !t.shapes->0[i].is_fatal,
        t.shapes->0[i].kind == ShapeKind::Unit,
        v.shape == t.shapes->0[i].name,
    ensures
        outcome(generated(t)->0[i], v, Seq::empty()) == OutcomeView::Wrapped(Some(Seq::empty())),
{
}

/// The non-fatal extractor of a unit shape takes no argument but `self` and
/// returns `Some(())` whenever the value holds that shape.
pub proof fn lemma_unit_source(owner: Seq<char>, s: ShapeView, lowered: Seq<char>)
    requires
        s.kind == ShapeKind::Unit,
        !s.is_fatal,
    ensures
        shape_method(owner, s, lowered).source() == "pub fn "@ + method_name(lowered)
            + "(self) -> Option<()> { match self { "@ + owner + "::"@ + s.name
            + " => Some(()), _ => None } }"@,
{
    let m = shape_method(owner, s, lowered);
    let none: Seq<Seq<char>> = Seq::empty();
    assert(m.param_types() =~= none);
    assert(m.bindings =~= none);
    assert(join(none, ", "@) == Seq::<char>::empty());
    reveal_strlit("pub fn ");
    reveal_strlit("(self");
    reveal_strlit(") -> ");
    reveal_strlit("Option<");
    reveal_strlit("(");
    reveal_strlit(")");
    reveal_strlit(">");
    reveal_strlit(" { match self { ");
    reveal_strlit(" => ");
    reveal_strlit("Some(");
    reveal_strlit(", _ => ");
    reveal_strlit("None");
    reveal_strlit(" } }");
    reveal_strlit("(self) -> Option<()> { match self { ");
    reveal_strlit(" => Some(()), _ => None } }");
    assert(m.source() =~= "pub fn "@ + method_name(lowered) + "(self) -> Option<()> { match self { "@
        + owner + "::"@ + s.name + " => Some(()), _ => None } }"@);
}

/// A fatal extractor called with the exact field values of a value of its
/// shape returns those values themselves, with no optional around them.
pub proof fn lemma_fatal_returns_values(t: TypeView, i: int, v: ValueView)
    requires
        t.shapes is Some,
        0 <= i < t.shapes->0.len(),
        t.shapes->0[i].is_fatal,
        v.shape == t.shapes->0[i].name,
        v.fields.len() == t.shapes->0[i].arity(),
    ensures
        outcome(generated(t)->0[i], v, v.fields) == OutcomeView::Direct(v.fields),
{
}

/// A fatal extractor called with expected values that a value of its shape
/// does not hold, or on a value of another shape, halts, reporting the shape
/// and values it expected and the value it found.
pub proof fn lemma_fatal_halts_on_mismatch(t: TypeView, i: int, v: ValueView, args: Seq<i64>)
    requires
        t.shapes is Some,
        0 <= i < t.shapes->0.len(),
        t.shapes->0[i].is_fatal,
        args.len() == t.shapes->0[i].arity(),
        v.shape != t.shapes->0[i].name || (t.shapes->0[i].kind != ShapeKind::Unit && v.fields
            != args),
    ensures
        outcome(generated(t)->0[i], v, args) == OutcomeView::Halted(
            ValueView { shape: t.shapes->0[i].name, fields: args },
            v,
        ),
{
}

/// In a sequence of shapes with distinct names, looking up the name of the
/// `i`-th shape finds that shape.
pub proof fn lemma_find_shape_unique(shapes: Seq<ShapeView>, i: int)
    requires
        0 <= i < shapes.len(),
        forall|a: int, b: int|
            0 <= a < b < shapes.len() ==> #[trigger] shapes[a].name != #[trigger] shapes[b].name,
    ensures
        find_shape(shapes, shapes[i].name) == Some(shapes[i]),
    decreases shapes.len(),
{
    if i > 0 {
        assert(shapes[0].name != shapes[i].name);
        let rest = shapes.drop_first();
        assert(rest[i - 1] == shapes[i]);
        assert forall|a: int, b: int| 0 <= a < b < rest.len() implies #[trigger] rest[a].name
            != #[trigger] rest[b].name by {
            assert(rest[a] == shapes[a + 1] && rest[b] == shapes[b + 1]);
        }
        lemma_find_shape_unique(rest, i - 1);
    }
}

/// The message of a fatal extractor that halted names the shape it asserted
/// with the values it expected, then renders the value it found.
pub proof fn lemma_fatal_message(t: TypeView, i: int, v: ValueView, args: Seq<i64>)
    requires
        t.well_formed(),
        0 <= i < t.shapes->0.len(),
        t.shapes->0[i].is_fatal,
        args.len() == t.shapes->0[i].arity(),
        t.holds(v),
        outcome(generated(t)->0[i], v, args) is Halted,
    ensures
        outcome(generated(t)->0[i], v, args) matches OutcomeView::Halted(e, a) && mismatch_message(
            t,
            e,
            a,
        ) == "Expected "@ + value_text(t.shapes->0[i], args) + " but got "@ + value_text(
            find_shape(t.shapes->0, v.shape)->0,
            v.fields,
        ),
        t.holds(ValueView { shape: t.shapes->0[i].name, fields: args }),
{
    lemma_find_shape_unique(t.shapes->0, i);
}

/// Generation is deterministic: two generations from one type description
/// give the same methods, with the same names, parameters and bodies.
pub proof fn lemma_generation_deterministic(
    t: TypeView,
    a: Result<Vec<GeneratedMethod>, GenerateError>,
    b: Result<Vec<GeneratedMethod>, GenerateError>,
)
    requires
        generated_view(a) == generated(t),
        generated_view(b) == generated(t),
    ensures
        generated_view(a) == generated_view(b),
{
}

} // verus!
