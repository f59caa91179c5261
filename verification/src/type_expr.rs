//! Type expressions, as far as the extraction tells them apart.

use vstd::prelude::*;
use crate::position::SourcePosition;
use crate::views::view_all;

verus! {

/// One segment of a path, such as `fmt` in `std::fmt::Debug`.
#[derive(Debug, Clone, PartialEq, Eq)]
pub struct PathSegment {
    /// The identifier of the segment.
    pub ident: String,
    /// Whether generic arguments follow the identifier.
    pub generic: bool,
    /// Where the identifier stands.
    pub position: SourcePosition,
}

/// A type expression.
#[derive(Debug, PartialEq, Eq)]
pub enum TypeExpr {
    /// A named type: a path of one or more segments.
    Path(Vec<PathSegment>),
    /// A reference to another type.
    Reference(Box<TypeExpr>),
    /// Any other form: a tuple, a pointer, a function type and so on.
    Other,
}

/// The mathematical value of a [`PathSegment`].
pub ghost struct PathSegmentView {
    pub ident: Seq<char>,
    pub generic: bool,
    pub position: SourcePosition,
}

/// The mathematical value of a [`TypeExpr`].
pub ghost enum TypeExprView {
    Path(Seq<PathSegmentView>),
    Reference(Box<TypeExprView>),
    Other,
}

impl View for PathSegment {
    type V = PathSegmentView;

    open spec fn view(&self) -> PathSegmentView {
        PathSegmentView { ident: self.ident@, generic: self.generic, position: self.position }
    }
}

/// The value of a type expression: that of its segments or of its referent.
pub open spec fn type_expr_view(ty: TypeExpr) -> TypeExprView
    decreases ty,
{
    match ty {
        TypeExpr::Path(segments) => TypeExprView::Path(view_all(segments@)),
        TypeExpr::Reference(referent) => TypeExprView::Reference(
            Box::new(type_expr_view(*referent)),
        ),
        TypeExpr::Other => TypeExprView::Other,
    }
}

impl View for TypeExpr {
    type V = TypeExprView;

    open spec fn view(&self) -> TypeExprView {
        type_expr_view(*self)
    }
}

} // verus!
