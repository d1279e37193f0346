//! The input of generation: a type's name and its shapes.
use vstd::prelude::*;

verus! {

/// How a shape binds its fields.
#[derive(Clone, Copy, Debug, PartialEq, Eq, Structural)]
pub enum ShapeKind {
    /// `Shape { a: T, b: U }`
    Named,
    /// `Shape(T, U)`
    Positional,
    /// `Shape`
    Unit,
}

/// One field of a shape: its declared name and its type, as source text.
/// The name of a positional field is not used.
#[derive(Clone, Debug)]
pub struct FieldDescription {
    pub name: String,
    pub ty: String,
}

/// One alternative of a tagged union.
#[derive(Clone, Debug)]
pub struct ShapeDescription {
    pub name: String,
    pub kind: ShapeKind,
    /// Ignored for a unit shape.
    pub fields: Vec<FieldDescription>,
    /// Set when the shape carries the `panic` marker.
    pub is_fatal: bool,
}

/// What a type declaration is made of.
#[derive(Clone, Debug)]
pub enum TypeBody {
    /// A tagged union (an `enum`) with its shapes in declaration order.
    Tagged(Vec<ShapeDescription>),
    /// A record with one fixed shape (a `struct`).
    Record,
    /// An untagged union (a `union`).
    Untagged,
}

/// A type declaration handed to the generator.
#[derive(Clone, Debug)]
pub struct TypeDescription {
    pub name: String,
    pub body: TypeBody,
}

/// A field as text: (name, type).
pub type FieldView = (Seq<char>, Seq<char>);

pub struct ShapeView {
    pub name: Seq<char>,
    pub kind: ShapeKind,
    pub fields: Seq<FieldView>,
    pub is_fatal: bool,
}

pub struct TypeView {
    pub name: Seq<char>,
    /// `None` where the type is not a tagged union.
    pub shapes: Option<Seq<ShapeView>>,
}

impl View for FieldDescription {
    type V = FieldView;

    open spec fn view(&self) -> FieldView {
        (self.name@, self.ty@)
    }
}

impl View for ShapeDescription {
    type V = ShapeView;

    open spec fn view(&self) -> ShapeView {
        ShapeView {
            name: self.name@,
            kind: self.kind,
            fields: self.fields@.map_values(|f: FieldDescription| f@),
            is_fatal: self.is_fatal,
        }
    }
}

impl View for TypeDescription {
    type V = TypeView;

    open spec fn view(&self) -> TypeView {
        TypeView {
            name: self.name@,
            shapes: match self.body {
                TypeBody::Tagged(shapes) => Some(shapes@.map_values(|s: ShapeDescription| s@)),
                _ => None,
            },
        }
    }
}

impl ShapeView {
    /// The number of fields that the shape binds: none for a unit shape.
    pub open spec fn arity(self) -> nat {
        match self.kind {
            ShapeKind::Unit => 0,
            _ => self.fields.len(),
        }
    }
}

impl TypeView {
    /// Shape names are unique and there is at least one shape.
    pub open spec fn well_formed(self) -> bool {
        &&& self.shapes is Some
        &&& self.shapes->0.len() > 0
        &&& forall|i: int, j: int|
            0 <= i < j < self.shapes->0.len() ==> #[trigger] self.shapes->0[i].name
                != #[trigger] self.shapes->0[j].name
    }
}

} // verus!
