//! The input side: one declaration per invocation, as plain data.
//!
//! A declaration is an annotated struct or function brought to the generator
//! by the host collaborator that discovers it.  Only what the schema builder
//! reads is kept: names, type names, visibility, the per-field annotation
//! list, the derived-capability list, and the declaration's own source text
//! (with the binding annotations already removed) for re-emission.
use vstd::prelude::*;

verus! {

/// A type expression as it stands in the declaration: a plain
/// single-identifier name, or anything more complex, which no binding
/// supports.
#[derive(Debug)]
pub enum TypeExpr {
    Name(String),
    Other,
}

pub ghost enum TypeExprView {
    Name(Seq<char>),
    Other,
}

impl View for TypeExpr {
    type V = TypeExprView;

    open spec fn view(&self) -> TypeExprView {
        match self {
            TypeExpr::Name(s) => TypeExprView::Name(s@),
            TypeExpr::Other => TypeExprView::Other,
        }
    }
}

/// One struct field as declared: its name (absent for a tuple-style field),
/// type, visibility, and the annotation identifiers attached to it, in order.
#[derive(Debug)]
pub struct FieldDecl {
    pub name: Option<String>,
    pub ty: TypeExpr,
    pub is_public: bool,
    pub annotations: Vec<String>,
}

pub ghost struct FieldDeclView {
    pub name: Option<Seq<char>>,
    pub ty: TypeExprView,
    pub is_public: bool,
    pub annotations: Seq<Seq<char>>,
}

impl View for FieldDecl {
    type V = FieldDeclView;

    open spec fn view(&self) -> FieldDeclView {
        FieldDeclView {
            name: self.name.deep_view(),
            ty: self.ty@,
            is_public: self.is_public,
            annotations: self.annotations.deep_view(),
        }
    }
}

/// A struct declaration: name, ordered fields, the identifiers of its derived
/// capabilities, and its own source text with binding annotations removed.
#[derive(Debug)]
pub struct StructDecl {
    pub name: String,
    pub fields: Vec<FieldDecl>,
    pub derives: Vec<String>,
    pub original_definition: String,
}

pub ghost struct StructDeclView {
    pub name: Seq<char>,
    pub fields: Seq<FieldDeclView>,
    pub derives: Seq<Seq<char>>,
    pub original_definition: Seq<char>,
}

impl View for StructDecl {
    type V = StructDeclView;

    open spec fn view(&self) -> StructDeclView {
        StructDeclView {
            name: self.name@,
            fields: self.fields.deep_view(),
            derives: self.derives.deep_view(),
            original_definition: self.original_definition@,
        }
    }
}

impl DeepView for FieldDecl {
    type V = FieldDeclView;

    open spec fn deep_view(&self) -> FieldDeclView {
        self@
    }
}

/// One function parameter as declared.  Receiver-style parameters and
/// destructured patterns are carried through so the builder can reject them.
#[derive(Debug)]
pub enum ParamDecl {
    Receiver,
    Destructured,
    Named { name: String, ty: TypeExpr },
}

pub ghost enum ParamDeclView {
    Receiver,
    Destructured,
    Named { name: Seq<char>, ty: TypeExprView },
}

impl View for ParamDecl {
    type V = ParamDeclView;

    open spec fn view(&self) -> ParamDeclView {
        match self {
            ParamDecl::Receiver => ParamDeclView::Receiver,
            ParamDecl::Destructured => ParamDeclView::Destructured,
            ParamDecl::Named { name, ty } => ParamDeclView::Named { name: name@, ty: ty@ },
        }
    }
}

impl DeepView for ParamDecl {
    type V = ParamDeclView;

    open spec fn deep_view(&self) -> ParamDeclView {
        self@
    }
}

/// A function declaration: name, ordered parameters, optional return type,
/// and its own source text for re-emission.
#[derive(Debug)]
pub struct FnDecl {
    pub name: String,
    pub params: Vec<ParamDecl>,
    pub ret: Option<TypeExpr>,
    pub original_definition: String,
}

pub ghost struct FnDeclView {
    pub name: Seq<char>,
    pub params: Seq<ParamDeclView>,
    pub ret: Option<TypeExprView>,
    pub original_definition: Seq<char>,
}

impl View for FnDecl {
    type V = FnDeclView;

    open spec fn view(&self) -> FnDeclView {
        FnDeclView {
            name: self.name@,
            params: self.params.deep_view(),
            ret: self.ret.deep_view(),
            original_definition: self.original_definition@,
        }
    }
}

impl DeepView for TypeExpr {
    type V = TypeExprView;

    open spec fn deep_view(&self) -> TypeExprView {
        self@
    }
}

/// One declaration submitted to the generator.
#[derive(Debug)]
pub enum Decl {
    Struct(StructDecl),
    Function(FnDecl),
}

pub ghost enum DeclView {
    Struct(StructDeclView),
    Function(FnDeclView),
}

impl View for Decl {
    type V = DeclView;

    open spec fn view(&self) -> DeclView {
        match self {
            Decl::Struct(s) => DeclView::Struct(s@),
            Decl::Function(f) => DeclView::Function(f@),
        }
    }
}

/// The fatal validation failures.  Every detected violation fails generation
/// of the whole declaration; nothing partial is ever emitted.
#[derive(Clone, Copy, Debug, PartialEq, Eq, Structural)]
pub enum FfiError {
    /// A field, parameter or return type outside the supported set.
    UnsupportedType,
    /// A receiver-style parameter, a destructured parameter, or an unnamed
    /// field.
    UnsupportedShape,
    /// A generated symbol collides with a reserved or previously claimed one.
    NameCollision,
}

} // verus!
