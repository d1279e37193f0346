//! Rendering of generated methods as Rust source text.
use vstd::prelude::*;
use crate::description::ShapeKind;
use crate::description::TypeDescription;
use crate::generate::{generate, generated, GenerateError, GeneratedMethod, MethodView};
use crate::text::{join, join_strings};

verus! {

/// `a[i]`, `mid` and `b[i]` for each index of `a`.
pub open spec fn pair_up(a: Seq<Seq<char>>, b: Seq<Seq<char>>, mid: Seq<char>) -> Seq<Seq<char>> {
    Seq::new(a.len(), |i: int| a[i] + mid + b[i])
}

/// A parenthesised list: a tuple type or value (one item stands alone).
pub open spec fn tuple_of(xs: Seq<Seq<char>>) -> Seq<char> {
    "("@ + join(xs, ", "@) + ")"@
}

impl MethodView {
    /// One binding per parameter.
    pub open spec fn well_formed(self) -> bool {
        self.bindings.len() == self.params.len()
    }

    pub open spec fn param_names(self) -> Seq<Seq<char>> {
        self.params.map_values(|p: (Seq<char>, Seq<char>)| p.0)
    }

    pub open spec fn param_types(self) -> Seq<Seq<char>> {
        self.params.map_values(|p: (Seq<char>, Seq<char>)| p.1)
    }

    /// `Type::Shape`
    pub open spec fn path(self) -> Seq<char> {
        self.owner + "::"@ + self.shape_name
    }

    /// The shape with each field bound to the pattern's own name.
    pub open spec fn pattern(self) -> Seq<char> {
        match self.kind {
            ShapeKind::Named => self.path() + " { "@ + join(
                pair_up(self.param_names(), self.bindings, ": "@),
                ", "@,
            ) + " }"@,
            ShapeKind::Positional => self.path() + tuple_of(self.bindings),
            ShapeKind::Unit => self.path(),
        }
    }

    /// Each bound field equals the parameter of the same field; nothing
    /// where there is no field.
    pub open spec fn guard(self) -> Seq<char> {
        if self.params.len() == 0 {
            Seq::empty()
        } else {
            " if "@ + join(pair_up(self.bindings, self.param_names(), " == "@), " && "@)
        }
    }

    /// The shape built from the parameters: the value that was expected.
    pub open spec fn expected(self) -> Seq<char> {
        match self.kind {
            ShapeKind::Named => self.path() + " { "@ + join(self.param_names(), ", "@) + " }"@,
            ShapeKind::Positional => self.path() + tuple_of(self.param_names()),
            ShapeKind::Unit => self.path(),
        }
    }

    pub open spec fn signature(self) -> Seq<char> {
        let ps = if self.params.len() == 0 {
            Seq::empty()
        } else {
            ", "@ + join(pair_up(self.param_names(), self.param_types(), ": "@), ", "@)
        };
        let ret = if self.fatal {
            tuple_of(self.param_types())
        } else {
            "Option<"@ + tuple_of(self.param_types()) + ">"@
        };
        "pub fn "@ + self.name + "(self"@ + ps + ") -> "@ + ret
    }

    pub open spec fn on_match(self) -> Seq<char> {
        if self.fatal {
            tuple_of(self.bindings)
        } else {
            "Some("@ + tuple_of(self.bindings) + ")"@
        }
    }

    pub open spec fn on_mismatch(self) -> Seq<char> {
        if self.fatal {
            "panic!(\"Expected {:?} but got {:?}\", "@ + self.expected() + ", self)"@
        } else {
            "None"@
        }
    }

    /// The method's definition as Rust source text.
    pub open spec fn source(self) -> Seq<char> {
        self.signature() + " { match self { "@ + self.pattern() + self.guard() + " => "@
            + self.on_match() + ", _ => "@ + self.on_mismatch() + " } }"@
    }
}

/// The block that adds all of `methods` to the type named `owner`.
pub open spec fn impl_source(owner: Seq<char>, methods: Seq<MethodView>) -> Seq<char> {
    "impl "@ + owner + " { "@ + join(methods.map_values(|m: MethodView| m.source()), " "@)
        + " }"@
}

fn pair_strings(a: &Vec<String>, b: &Vec<String>, mid: &str) -> (r: Vec<String>)
    requires
        a@.len() == b@.len(),
    ensures
        r@.map_values(|s: String| s@) == pair_up(
            a@.map_values(|s: String| s@),
            b@.map_values(|s: String| s@),
            mid@,
        ),
{
    let mut r: Vec<String> = Vec::new();
    let mut i: usize = 0;
    while i < a.len()
        invariant
            i <= a.len() == b.len(),
            r@.len() == i,
            forall|j: int| 0 <= j < i ==> #[trigger] r@[j]@ == a@[j]@ + mid@ + b@[j]@,
        decreases a.len() - i,
    {
        let mut s = a[i].clone();
        s.append(mid);
        s.append(b[i].as_str());
        r.push(s);
        i = i + 1;
    }
    assert(r@.map_values(|s: String| s@) =~= pair_up(
        a@.map_values(|s: String| s@),
        b@.map_values(|s: String| s@),
        mid@,
    ));
    r
}

fn push_tuple(out: &mut String, items: &Vec<String>)
    ensures
        final(out)@ == old(out)@ + tuple_of(items@.map_values(|s: String| s@)),
{
    out.append("(");
    let inner = join_strings(items, ", ");
    out.append(inner.as_str());
    out.append(")");
    assert(final(out)@ =~= old(out)@ + tuple_of(items@.map_values(|s: String| s@)));
}

impl GeneratedMethod {
    fn param_strings(&self) -> (r: (Vec<String>, Vec<String>))
        ensures
            r.0@.map_values(|s: String| s@) == self@.param_names(),
            r.1@.map_values(|s: String| s@) == self@.param_types(),
    {
        let mut names: Vec<String> = Vec::new();
        let mut types: Vec<String> = Vec::new();
        let mut i: usize = 0;
        while i < self.params.len()
            invariant
                i <= self.params.len(),
                names@.len() == i,
                types@.len() == i,
                forall|j: int| 0 <= j < i ==> #[trigger] names@[j]@ == self.params@[j].name@,
                forall|j: int| 0 <= j < i ==> #[trigger] types@[j]@ == self.params@[j].ty@,
            decreases self.params.len() - i,
        {
            names.push(self.params[i].name.clone());
            types.push(self.params[i].ty.clone());
            i = i + 1;
        }
        assert(names@.map_values(|s: String| s@) =~= self@.param_names());
        assert(types@.map_values(|s: String| s@) =~= self@.param_types());
        (names, types)
    }

    fn push_signature(&self, out: &mut String, names: &Vec<String>, types: &Vec<String>)
        requires
            names@.map_values(|s: String| s@) == self@.param_names(),
            types@.map_values(|s: String| s@) == self@.param_types(),
        ensures
            final(out)@ == old(out)@ + self@.signature(),
    {
        let ghost start = out@;
        assert(names@.len() == self@.param_names().len());
        assert(types@.len() == self@.param_types().len());
        out.append("pub fn ");
        out.append(self.name.as_str());
        out.append("(self");
        if self.params.len() > 0 {
            out.append(", ");
            let decls = pair_strings(names, types, ": ");
            let ds = join_strings(&decls, ", ");
            out.append(ds.as_str());
        }
        out.append(") -> ");
        if !self.fatal {
            out.append("Option<");
        }
        push_tuple(out, types);
        if !self.fatal {
            out.append(">");
        }
        assert(out@ =~= start + self@.signature());
    }

    fn push_pattern(&self, out: &mut String, names: &Vec<String>, path: &String)
        requires
            self@.well_formed(),
            names@.map_values(|s: String| s@) == self@.param_names(),
            path@ == self@.path(),
        ensures
            final(out)@ == old(out)@ + self@.pattern() + self@.guard(),
    {
        let ghost start = out@;
        assert(names@.len() == self@.param_names().len());
        assert(self.bindings@.map_values(|s: String| s@) == self@.bindings);
        out.append(path.as_str());
        match self.kind {
            ShapeKind::Named => {
                out.append(" { ");
                let entries = pair_strings(names, &self.bindings, ": ");
                let es = join_strings(&entries, ", ");
                out.append(es.as_str());
                out.append(" }");
            },
            ShapeKind::Positional => {
                push_tuple(out, &self.bindings);
            },
            ShapeKind::Unit => {},
        }
        assert(out@ =~= start + self@.pattern());
        let ghost mid = out@;
        if self.params.len() > 0 {
            out.append(" if ");
            let checks = pair_strings(&self.bindings, names, " == ");
            let cs = join_strings(&checks, " && ");
            out.append(cs.as_str());
        }
        assert(out@ =~= mid + self@.guard());
    }

    fn push_arms(&self, out: &mut String, names: &Vec<String>, path: &String)
        requires
            names@.map_values(|s: String| s@) == self@.param_names(),
            path@ == self@.path(),
        ensures
            final(out)@ == old(out)@ + " => "@ + self@.on_match() + ", _ => "@
                + self@.on_mismatch(),
    {
        let ghost start = out@;
        assert(self.bindings@.map_values(|s: String| s@) == self@.bindings);
        out.append(" => ");
        if self.fatal {
            push_tuple(out, &self.bindings);
        } else {
            out.append("Some(");
            push_tuple(out, &self.bindings);
            out.append(")");
        }
        assert(out@ =~= start + " => "@ + self@.on_match());
        let ghost mid = out@;
        out.append(", _ => ");
        if self.fatal {
            out.append("panic!(\"Expected {:?} but got {:?}\", ");
            out.append(path.as_str());
            match self.kind {
                ShapeKind::Named => {
                    out.append(" { ");
                    let ns = join_strings(names, ", ");
                    out.append(ns.as_str());
                    out.append(" }");
                },
                ShapeKind::Positional => {
                    push_tuple(out, names);
                },
                ShapeKind::Unit => {},
            }
            out.append(", self)");
        } else {
            out.append("None");
        }
        assert(out@ =~= mid + ", _ => "@ + self@.on_mismatch());
    }

    /// The method's definition as Rust source text.
    pub fn to_source(&self) -> (r: String)
        requires
            self@.well_formed(),
        ensures
            r@ == self@.source(),
    {
        let (names, types) = self.param_strings();
        let mut path = self.owner.clone();
        path.append("::");
        path.append(self.shape_name.as_str());
        let mut out = String::new();
        self.push_signature(&mut out, &names, &types);
        out.append(" { match self { ");
        self.push_pattern(&mut out, &names, &path);
        self.push_arms(&mut out, &names, &path);
        out.append(" } }");
        assert(out@ =~= self@.source());
        out
    }
}

/// The block that adds all of `methods` to the type named `owner`.
pub fn impl_block(owner: &String, methods: &Vec<GeneratedMethod>) -> (r: String)
    requires
        forall|i: int| 0 <= i < methods@.len() ==> (#[trigger] methods@[i])@.well_formed(),
    ensures
        r@ == impl_source(owner@, methods@.map_values(|m: GeneratedMethod| m@)),
{
    let mut sources: Vec<String> = Vec::new();
    let mut i: usize = 0;
    while i < methods.len()
        invariant
            i <= methods.len(),
            forall|j: int| 0 <= j < methods@.len() ==> (#[trigger] methods@[j])@.well_formed(),
            sources@.len() == i,
            forall|j: int| 0 <= j < i ==> #[trigger] sources@[j]@ == methods@[j]@.source(),
        decreases methods.len() - i,
    {
        sources.push(methods[i].to_source());
        i = i + 1;
    }
    let ghost ms = methods@.map_values(|m: GeneratedMethod| m@);
    assert(sources@.map_values(|s: String| s@) =~= ms.map_values(|m: MethodView| m.source()));
    let mut out = String::from_str("impl ");
    out.append(owner.as_str());
    out.append(" { ");
    let body = join_strings(&sources, " ");
    out.append(body.as_str());
    out.append(" }");
    assert(out@ =~= impl_source(owner@, ms));
    out
}

/// Generates the extractors of a tagged union and renders them as one `impl`
/// block for the type; fails, naming the type, when the type is not a tagged
/// union.
pub fn expect_derive(t: &TypeDescription) -> (r: Result<String, GenerateError>)
    ensures
        match generated(t@) {
            Some(ms) => r matches Ok(text) && text@ == impl_source(t.name@, ms),
            None => r matches Err(GenerateError::NotTaggedUnion(n)) && n@ == t.name@,
        },
{
    match generate(t) {
        Ok(methods) => {
            assert forall|i: int| 0 <= i < methods@.len() implies (
            #[trigger] methods@[i])@.well_formed() by {
                let ms = generated(t@)->0;
                assert(methods@.map_values(|m: GeneratedMethod| m@) == ms);
                assert(methods@.map_values(|m: GeneratedMethod| m@)[i] == methods@[i]@);
                assert(ms[i].params.len() == ms[i].bindings.len());
            }
            Ok(impl_block(&t.name, &methods))
        },
        Err(e) => Err(e),
    }
}

} // verus!
