//! Derivation of one extractor method per shape.
use vstd::prelude::*;
use crate::description::{
    FieldDescription, FieldView, ShapeDescription, ShapeKind, ShapeView, TypeBody,
    TypeDescription, TypeView,
};
use crate::text::{decimal, lower_of, lowercase, push_decimal};

verus! {

/// A parameter of a generated method: its name and its type, as source text.
#[derive(Clone, Debug)]
pub struct Parameter {
    pub name: String,
    pub ty: String,
}

/// The extractor generated for one shape.
#[derive(Clone, Debug)]
pub struct GeneratedMethod {
    /// `expect_<lowercased shape name>`.
    pub name: String,
    pub owner: String,
    pub shape_name: String,
    pub kind: ShapeKind,
    /// One per bound field, in declaration order.
    pub params: Vec<Parameter>,
    /// The pattern's own name for each bound field: `attr`, one or more
    /// underscores, and the field's name or index; none equals a parameter
    /// name.
    pub bindings: Vec<String>,
    /// Halts on a mismatch instead of returning an empty result.
    pub fatal: bool,
}

/// Generation is refused for a type that is not a tagged union.
#[derive(Clone, Debug)]
pub enum GenerateError {
    /// Holds the name of the type.
    NotTaggedUnion(String),
}

pub struct MethodView {
    pub name: Seq<char>,
    pub owner: Seq<char>,
    pub shape_name: Seq<char>,
    pub kind: ShapeKind,
    pub params: Seq<FieldView>,
    pub bindings: Seq<Seq<char>>,
    pub fatal: bool,
}

impl View for Parameter {
    type V = FieldView;

    open spec fn view(&self) -> FieldView {
        (self.name@, self.ty@)
    }
}

impl View for GeneratedMethod {
    type V = MethodView;

    open spec fn view(&self) -> MethodView {
        MethodView {
            name: self.name@,
            owner: self.owner@,
            shape_name: self.shape_name@,
            kind: self.kind,
            params: self.params@.map_values(|p: Parameter| p@),
            bindings: self.bindings@.map_values(|b: String| b@),
            fatal: self.fatal,
        }
    }
}

/// The name of the method for a shape whose lowercased name is `lowered`.
pub open spec fn method_name(lowered: Seq<char>) -> Seq<char> {
    "expect_"@ + lowered
}

/// The caller-facing name of the `i`-th field: its declared name, or
/// `value_<i>` for a positional field.
pub open spec fn param_name(kind: ShapeKind, declared: Seq<char>, i: nat) -> Seq<char> {
    match kind {
        ShapeKind::Named => declared,
        _ => "value_"@ + decimal(i),
    }
}

/// `attr` followed by `k` underscores: the start of every binding name.
pub open spec fn binding_prefix(k: nat) -> Seq<char> {
    "attr"@ + Seq::new(k, |_i: int| '_')
}

/// What follows the prefix in the pattern's name for the `i`-th field: its
/// declared name, or its index for a positional field.
pub open spec fn binding_suffix(kind: ShapeKind, declared: Seq<char>, i: nat) -> Seq<char> {
    match kind {
        ShapeKind::Named => declared,
        _ => decimal(i),
    }
}

pub open spec fn param_names_of(s: ShapeView) -> Seq<Seq<char>> {
    Seq::new(s.arity(), |i: int| param_name(s.kind, s.fields[i].0, i as nat))
}

pub open spec fn binding_suffixes_of(s: ShapeView) -> Seq<Seq<char>> {
    Seq::new(s.arity(), |i: int| binding_suffix(s.kind, s.fields[i].0, i as nat))
}

/// Some binding made with prefix width `k` equals some parameter name.
pub open spec fn clash(suffixes: Seq<Seq<char>>, names: Seq<Seq<char>>, k: nat) -> bool {
    exists|j: int, m: int|
        0 <= j < suffixes.len() && 0 <= m < names.len() && #[trigger] (binding_prefix(k)
            + suffixes[j]) == #[trigger] names[m]
}

/// The length of the longest of `names`.
pub open spec fn longest(names: Seq<Seq<char>>) -> nat
    decreases names.len(),
{
    if names.len() == 0 {
        0
    } else {
        let rest = longest(names.drop_last());
        if names.last().len() > rest {
            names.last().len()
        } else {
            rest
        }
    }
}

pub proof fn lemma_longest(names: Seq<Seq<char>>, m: int)
    requires
        0 <= m < names.len(),
    ensures
        names[m].len() <= longest(names),
    decreases names.len(),
{
    if m < names.len() - 1 {
        lemma_longest(names.drop_last(), m);
    }
}

/// A prefix longer than every parameter name clashes with none.
pub proof fn lemma_long_prefix_is_free(suffixes: Seq<Seq<char>>, names: Seq<Seq<char>>, k: nat)
    requires
        k > longest(names),
    ensures
        !clash(suffixes, names, k),
{
    assert forall|j: int, m: int|
        0 <= j < suffixes.len() && 0 <= m < names.len() implies #[trigger] (binding_prefix(k)
        + suffixes[j]) != #[trigger] names[m] by {
        lemma_longest(names, m);
        assert((binding_prefix(k) + suffixes[j]).len() > names[m].len());
    }
}

/// The least prefix width from `k` on whose bindings equal no parameter name.
pub open spec fn first_free(suffixes: Seq<Seq<char>>, names: Seq<Seq<char>>, k: nat) -> nat
    decreases longest(names) + 1 - k,
{
    if k <= longest(names) && clash(suffixes, names, k) {
        first_free(suffixes, names, k + 1)
    } else {
        k
    }
}

pub proof fn lemma_first_free(suffixes: Seq<Seq<char>>, names: Seq<Seq<char>>, k: nat)
    ensures
        !clash(suffixes, names, first_free(suffixes, names, k)),
    decreases longest(names) + 1 - k,
{
    if k <= longest(names) && clash(suffixes, names, k) {
        lemma_first_free(suffixes, names, k + 1);
    } else if k > longest(names) {
        lemma_long_prefix_is_free(suffixes, names, k);
    }
}

/// The number of underscores after `attr` in the bindings of shape `s`: the
/// least, from one on, for which no binding equals a parameter name.
pub open spec fn prefix_width(s: ShapeView) -> nat {
    first_free(binding_suffixes_of(s), param_names_of(s), 1)
}

/// The method generated for shape `s` of the type named `owner`, where
/// `lowered` is the lowercase form of the shape's name.
pub open spec fn shape_method(owner: Seq<char>, s: ShapeView, lowered: Seq<char>) -> MethodView {
    MethodView {
        name: method_name(lowered),
        owner,
        shape_name: s.name,
        kind: s.kind,
        params: Seq::new(
            s.arity(),
            |i: int| (param_name(s.kind, s.fields[i].0, i as nat), s.fields[i].1),
        ),
        bindings: Seq::new(
            s.arity(),
            |i: int| binding_prefix(prefix_width(s)) + binding_suffixes_of(s)[i],
        ),
        fatal: s.is_fatal,
    }
}

/// No binding of `m` equals one of its parameter names, so no binding
/// shadows a parameter in the method's guard.
pub open spec fn bindings_apart(m: MethodView) -> bool {
    forall|j: int, k: int|
        0 <= j < m.bindings.len() && 0 <= k < m.params.len() ==> #[trigger] m.bindings[j]
            != #[trigger] m.params[k].0
}

/// The bindings of a generated method never equal its parameter names,
/// whatever the shape's field names are.
pub proof fn lemma_bindings_apart(owner: Seq<char>, s: ShapeView, lowered: Seq<char>)
    ensures
        bindings_apart(shape_method(owner, s, lowered)),
{
    let m = shape_method(owner, s, lowered);
    let suffixes = binding_suffixes_of(s);
    let names = param_names_of(s);
    lemma_first_free(suffixes, names, 1);
    assert forall|j: int, k: int|
        0 <= j < m.bindings.len() && 0 <= k < m.params.len() implies #[trigger] m.bindings[j]
        != #[trigger] m.params[k].0 by {
        assert(m.bindings[j] == binding_prefix(prefix_width(s)) + suffixes[j]);
        assert(m.params[k].0 == names[k]);
    }
}

/// The methods generated for a type: one per shape, in order, or `None`
/// where the type is not a tagged union.
pub open spec fn generated(t: TypeView) -> Option<Seq<MethodView>> {
    match t.shapes {
        Some(shapes) => Some(
            Seq::new(
                shapes.len(),
                |i: int| shape_method(t.name, shapes[i], lower_of(shapes[i].name)),
            ),
        ),
        None => None,
    }
}

/// What a call of `generate` gave, as a value of the model.
pub open spec fn generated_view(r: Result<Vec<GeneratedMethod>, GenerateError>) -> Option<
    Seq<MethodView>,
> {
    match r {
        Ok(ms) => Some(ms@.map_values(|m: GeneratedMethod| m@)),
        Err(_) => None,
    }
}

fn field_names(kind: ShapeKind, fields: &Vec<FieldDescription>, n: usize) -> (r: (
    Vec<Parameter>,
    Vec<String>,
    Vec<String>,
))
    requires
        n <= fields.len(),
    ensures
        r.0@.len() == n,
        r.1@.len() == n,
        r.2@.len() == n,
        forall|i: int|
            0 <= i < n ==> #[trigger] r.0@[i]@ == (
                param_name(kind, fields@[i].name@, i as nat),
                fields@[i].ty@,
            ),
        forall|i: int|
            0 <= i < n ==> #[trigger] r.1@[i]@ == param_name(kind, fields@[i].name@, i as nat),
        forall|i: int|
            0 <= i < n ==> #[trigger] r.2@[i]@ == binding_suffix(kind, fields@[i].name@, i as nat),
{
    let mut params: Vec<Parameter> = Vec::new();
    let mut names: Vec<String> = Vec::new();
    let mut suffixes: Vec<String> = Vec::new();
    let mut i: usize = 0;
    while i < n
        invariant
            i <= n <= fields.len(),
            params@.len() == i,
            names@.len() == i,
            suffixes@.len() == i,
            forall|j: int|
                0 <= j < i ==> #[trigger] params@[j]@ == (
                    param_name(kind, fields@[j].name@, j as nat),
                    fields@[j].ty@,
                ),
            forall|j: int|
                0 <= j < i ==> #[trigger] names@[j]@ == param_name(
                    kind,
                    fields@[j].name@,
                    j as nat,
                ),
            forall|j: int|
                0 <= j < i ==> #[trigger] suffixes@[j]@ == binding_suffix(
                    kind,
                    fields@[j].name@,
                    j as nat,
                ),
        decreases n - i,
    {
        let field = &fields[i];
        let (name, suffix) = match kind {
            ShapeKind::Named => (field.name.clone(), field.name.clone()),
            _ => {
                let mut suffix = String::new();
                push_decimal(&mut suffix, i as u64);
                let mut name = String::from_str("value_");
                push_decimal(&mut name, i as u64);
                (name, suffix)
            },
        };
        params.push(Parameter { name: name.clone(), ty: field.ty.clone() });
        names.push(name);
        suffixes.push(suffix);
        i = i + 1;
    }
    (params, names, suffixes)
}

fn joined(prefix: &String, suffix: &String) -> (r: String)
    ensures
        r@ == prefix@ + suffix@,
{
    let mut r = prefix.clone();
    r.append(suffix.as_str());
    r
}

fn clashes(prefix: &String, suffixes: &Vec<String>, names: &Vec<String>, Ghost(k): Ghost<nat>) -> (r:
    bool)
    requires
        prefix@ == binding_prefix(k),
    ensures
        r == clash(
            suffixes@.map_values(|s: String| s@),
            names@.map_values(|s: String| s@),
            k,
        ),
{
    let ghost sv = suffixes@.map_values(|s: String| s@);
    let ghost nv = names@.map_values(|s: String| s@);
    let mut j: usize = 0;
    while j < suffixes.len()
        invariant
            j <= suffixes.len(),
            prefix@ == binding_prefix(k),
            sv == suffixes@.map_values(|s: String| s@),
            nv == names@.map_values(|s: String| s@),
            forall|a: int, b: int|
                0 <= a < j && 0 <= b < nv.len() ==> #[trigger] (binding_prefix(k) + sv[a])
                    != #[trigger] nv[b],
        decreases suffixes.len() - j,
    {
        let candidate = joined(prefix, &suffixes[j]);
        let mut m: usize = 0;
        while m < names.len()
            invariant
                j < suffixes.len(),
                m <= names.len(),
                candidate@ == binding_prefix(k) + sv[j as int],
                sv == suffixes@.map_values(|s: String| s@),
                nv == names@.map_values(|s: String| s@),
                forall|b: int| 0 <= b < m ==> candidate@ != #[trigger] nv[b],
            decreases names.len() - m,
        {
            if candidate == names[m] {
                assert(binding_prefix(k) + sv[j as int] == nv[m as int]);
                return true;
            }
            m = m + 1;
        }
        j = j + 1;
    }
    false
}

/// The binding prefix of a shape with these parameter names and binding
/// suffixes: `attr` and as few underscores, at least one, as keep every
/// binding apart from every parameter name.
fn choose_prefix(suffixes: &Vec<String>, names: &Vec<String>) -> (r: String)
    ensures
        r@ == binding_prefix(
            first_free(
                suffixes@.map_values(|s: String| s@),
                names@.map_values(|s: String| s@),
                1,
            ),
        ),
{
    let ghost sv = suffixes@.map_values(|s: String| s@);
    let ghost nv = names@.map_values(|s: String| s@);
    proof {
        reveal_strlit("attr_");
        reveal_strlit("_");
        reveal_strlit("attr");
    }
    let mut prefix = String::from_str("attr_");
    let ghost mut k: nat = 1;
    assert(prefix@ =~= binding_prefix(1));
    while clashes(&prefix, suffixes, names, Ghost(k))
        invariant
            prefix@ == binding_prefix(k),
            sv == suffixes@.map_values(|s: String| s@),
            nv == names@.map_values(|s: String| s@),
            1 <= k <= longest(nv) + 1,
            first_free(sv, nv, 1) == first_free(sv, nv, k),
        decreases longest(nv) + 1 - k,
    {
        proof {
            if k > longest(nv) {
                lemma_long_prefix_is_free(sv, nv, k);
            }
        }
        let ghost before = prefix@;
        prefix.append("_");
        proof {
            reveal_strlit("_");
            assert(prefix@ =~= before + seq!['_']);
            assert(Seq::new(k + 1, |_i: int| '_') =~= Seq::new(k, |_i: int| '_').push('_'));
            k = k + 1;
            assert(prefix@ =~= binding_prefix(k));
        }
    }
    prefix
}

/// Derives the method for `shape`, a shape of the type named `owner`,
/// given the lowercase form of the shape's name. No binding of the result
/// equals one of its parameter names.
pub fn method_for_shape(owner: &String, shape: &ShapeDescription, lowered: &String) -> (r:
    GeneratedMethod)
    ensures
        r@ == shape_method(owner@, shape@, lowered@),
        bindings_apart(r@),
{
    let ghost s = shape@;
    let n: usize = match shape.kind {
        ShapeKind::Unit => 0,
        _ => shape.fields.len(),
    };
    let (params, names, suffixes) = field_names(shape.kind, &shape.fields, n);
    assert(names@.map_values(|x: String| x@) =~= param_names_of(s));
    assert(suffixes@.map_values(|x: String| x@) =~= binding_suffixes_of(s));
    let prefix = choose_prefix(&suffixes, &names);
    let mut bindings: Vec<String> = Vec::new();
    let mut i: usize = 0;
    while i < n
        invariant
            i <= n == suffixes@.len(),
            n == s.arity(),
            prefix@ == binding_prefix(prefix_width(s)),
            suffixes@.map_values(|x: String| x@) == binding_suffixes_of(s),
            bindings@.len() == i,
            forall|j: int|
                0 <= j < i ==> #[trigger] bindings@[j]@ == binding_prefix(prefix_width(s))
                    + binding_suffixes_of(s)[j],
        decreases n - i,
    {
        assert(suffixes@.map_values(|x: String| x@)[i as int] == suffixes@[i as int]@);
        bindings.push(joined(&prefix, &suffixes[i]));
        i = i + 1;
    }
    let mut name = String::from_str("expect_");
    name.append(lowered.as_str());
    let r = GeneratedMethod {
        name,
        owner: owner.clone(),
        shape_name: shape.name.clone(),
        kind: shape.kind,
        params,
        bindings,
        fatal: shape.is_fatal,
    };
    let ghost want = shape_method(owner@, shape@, lowered@);
    assert(r@.params =~= want.params);
    assert(r@.bindings =~= want.bindings);
    proof {
        lemma_bindings_apart(owner@, shape@, lowered@);
    }
    r
}

/// Derives the methods of a tagged union, one per shape and in shape order;
/// fails, naming the type, when the type is not a tagged union.
pub fn generate(t: &TypeDescription) -> (r: Result<Vec<GeneratedMethod>, GenerateError>)
    ensures
        generated_view(r) == generated(t@),
        r matches Err(GenerateError::NotTaggedUnion(n)) ==> n@ == t.name@,
        r matches Ok(ms) ==> forall|i: int| 0 <= i < ms@.len() ==> bindings_apart(#[trigger] ms@[i]@),
{
    match &t.body {
        TypeBody::Tagged(shapes) => {
            let mut methods: Vec<GeneratedMethod> = Vec::new();
            let ghost want = generated(t@)->0;
            let mut i: usize = 0;
            while i < shapes.len()
                invariant
                    i <= shapes.len(),
                    t.body == TypeBody::Tagged(*shapes),
                    want == generated(t@)->0,
                    want.len() == shapes.len(),
                    methods@.len() == i,
                    forall|j: int| 0 <= j < i ==> #[trigger] methods@[j]@ == want[j],
                    forall|j: int| 0 <= j < i ==> bindings_apart(#[trigger] methods@[j]@),
                decreases shapes.len() - i,
            {
                let lowered = lowercase(&shapes[i].name);
                let m = method_for_shape(&t.name, &shapes[i], &lowered);
                methods.push(m);
                i = i + 1;
            }
            assert(methods@.map_values(|m: GeneratedMethod| m@) =~= want);
            Ok(methods)
        },
        _ => Err(GenerateError::NotTaggedUnion(t.name.clone())),
    }
}

} // verus!
