//! Declaration blocks: a target type, its generic parameters and where-clause,
//! and the handler methods written in it.

use crate::seqs::clone_strings;
use crate::types::{TypeExpr, TypeModel};
use vstd::prelude::*;

verus! {

/// A path of identifiers, as it names an annotation or an option.
/// `leading_colon` tells whether it starts with `::`.
#[derive(Debug, PartialEq, Eq)]
pub struct SimplePath {
    pub leading_colon: bool,
    pub segments: Vec<String>,
}

/// The mathematical value of a [`SimplePath`].
pub struct SimplePathModel {
    pub leading_colon: bool,
    pub segments: Seq<Seq<char>>,
}

impl DeepView for SimplePath {
    type V = SimplePathModel;

    open spec fn deep_view(&self) -> SimplePathModel {
        SimplePathModel {
            leading_colon: self.leading_colon,
            segments: self.segments.deep_view(),
        }
    }
}

impl Clone for SimplePath {
    /// A copy with the same value.
    fn clone(&self) -> (copy: SimplePath)
        ensures
            copy.deep_view() == self.deep_view(),
    {
        SimplePath { leading_colon: self.leading_colon, segments: clone_strings(&self.segments) }
    }
}

/// Whether a path is the given identifier and nothing else: one segment,
/// with no `::` before it.
pub open spec fn names(path: SimplePathModel, keyword: Seq<char>) -> bool {
    !path.leading_colon && path.segments.len() == 1 && path.segments[0] == keyword
}

/// Whether the last segment of a path is the given identifier.
pub open spec fn ends_in(path: SimplePathModel, keyword: Seq<char>) -> bool {
    path.segments.len() > 0 && path.segments.last() == keyword
}

/// Whether a string is the given keyword.
pub fn text_is(text: &String, keyword: &str) -> (same: bool)
    ensures
        same == (text@ == keyword@),
{
    let wanted: String = keyword.to_owned();
    *text == wanted
}

impl SimplePath {
    /// Whether this path is the given identifier and nothing else.
    pub fn is_ident(&self, keyword: &str) -> (same: bool)
        ensures
            same == names(self.deep_view(), keyword@),
    {
        if self.leading_colon || self.segments.len() != 1 {
            return false;
        }
        assert(self.segments.deep_view()[0] == self.segments@[0]@);
        text_is(&self.segments[0], keyword)
    }

    /// Whether the last segment of this path is the given identifier.
    pub fn ends_with(&self, keyword: &str) -> (same: bool)
        ensures
            same == ends_in(self.deep_view(), keyword@),
    {
        let count: usize = self.segments.len();
        if count == 0 {
            return false;
        }
        assert(self.segments.deep_view().last() == self.segments@[count - 1]@);
        text_is(&self.segments[count - 1], keyword)
    }
}

/// An annotation written on a method: its path, and the source text of what
/// follows the path.
#[derive(Debug, PartialEq, Eq)]
pub struct Annotation {
    pub path: SimplePath,
    pub arguments: String,
}

/// The mathematical value of an [`Annotation`].
pub struct AnnotationModel {
    pub path: SimplePathModel,
    pub arguments: Seq<char>,
}

impl DeepView for Annotation {
    type V = AnnotationModel;

    open spec fn deep_view(&self) -> AnnotationModel {
        AnnotationModel { path: self.path.deep_view(), arguments: self.arguments@ }
    }
}

impl Clone for Annotation {
    /// A copy with the same value.
    fn clone(&self) -> (copy: Annotation)
        ensures
            copy.deep_view() == self.deep_view(),
    {
        Annotation { path: self.path.clone(), arguments: self.arguments.clone() }
    }
}

/// A generic parameter of a declaration block.
#[derive(Debug, PartialEq, Eq)]
pub enum GenericParam {
    /// A type parameter: its name, and the source text of the whole
    /// parameter as it was declared.
    Type { name: String, declaration: String },
    /// A lifetime or constant parameter, kept as its source text.
    Inert { text: String },
}

/// The mathematical value of a [`GenericParam`].
pub enum GenericParamModel {
    Type { name: Seq<char>, declaration: Seq<char> },
    Inert { text: Seq<char> },
}

impl DeepView for GenericParam {
    type V = GenericParamModel;

    open spec fn deep_view(&self) -> GenericParamModel {
        match self {
            GenericParam::Type { name, declaration } => GenericParamModel::Type {
                name: name@,
                declaration: declaration@,
            },
            GenericParam::Inert { text } => GenericParamModel::Inert { text: text@ },
        }
    }
}

impl Clone for GenericParam {
    /// A copy with the same value.
    fn clone(&self) -> (copy: GenericParam)
        ensures
            copy.deep_view() == self.deep_view(),
    {
        match self {
            GenericParam::Type { name, declaration } => GenericParam::Type {
                name: name.clone(),
                declaration: declaration.clone(),
            },
            GenericParam::Inert { text } => GenericParam::Inert { text: text.clone() },
        }
    }
}

/// Copies of generic parameters, in order.
pub fn clone_generic_params(params: &Vec<GenericParam>) -> (copy: Vec<GenericParam>)
    ensures
        copy.deep_view() == params.deep_view(),
{
    let mut copy: Vec<GenericParam> = Vec::new();
    let mut i: usize = 0;
    while i < params.len()
        invariant
            i <= params.len(),
            copy.len() == i,
            forall|j: int|
                0 <= j < i ==> (#[trigger] copy@[j]).deep_view() == params@[j].deep_view(),
        decreases params.len() - i,
    {
        copy.push(params[i].clone());
        i += 1;
    }
    assert(copy.deep_view() =~= params.deep_view());
    copy
}

/// A parameter of a method.
#[derive(Debug, PartialEq, Eq)]
pub enum Param {
    /// The receiver.
    Receiver,
    /// A parameter with a type: the source text of its pattern, and the type.
    Typed { pattern: String, ty: TypeExpr },
}

/// The mathematical value of a [`Param`].
pub enum ParamModel {
    Receiver,
    Typed { pattern: Seq<char>, ty: TypeModel },
}

impl DeepView for Param {
    type V = ParamModel;

    open spec fn deep_view(&self) -> ParamModel {
        match self {
            Param::Receiver => ParamModel::Receiver,
            Param::Typed { pattern, ty } => ParamModel::Typed {
                pattern: pattern@,
                ty: ty.deep_view(),
            },
        }
    }
}

impl Clone for Param {
    /// A copy with the same value.
    fn clone(&self) -> (copy: Param)
        ensures
            copy.deep_view() == self.deep_view(),
    {
        match self {
            Param::Receiver => Param::Receiver,
            Param::Typed { pattern, ty } => Param::Typed {
                pattern: pattern.clone(),
                ty: ty.clone(),
            },
        }
    }
}

/// A handler method as written: the receiver comes first, the message second,
/// and the context, where it is declared, third.
#[derive(Debug, PartialEq, Eq)]
pub struct MethodDecl {
    pub name: String,
    pub params: Vec<Param>,
    /// The declared return type; `None` where the method declares none.
    pub return_type: Option<TypeExpr>,
    /// The source text of the body. It is never read, only carried over.
    pub body: String,
    pub annotations: Vec<Annotation>,
}

/// The mathematical value of a [`MethodDecl`].
pub struct MethodModel {
    pub name: Seq<char>,
    pub params: Seq<ParamModel>,
    pub return_type: Option<TypeModel>,
    pub body: Seq<char>,
    pub annotations: Seq<AnnotationModel>,
}

impl DeepView for MethodDecl {
    type V = MethodModel;

    open spec fn deep_view(&self) -> MethodModel {
        MethodModel {
            name: self.name@,
            params: self.params.deep_view(),
            return_type: self.return_type.deep_view(),
            body: self.body@,
            annotations: self.annotations.deep_view(),
        }
    }
}

/// An implementation block: the type that receives the messages, the
/// block's generic parameters, the predicates of its where-clause as source
/// text, and its methods in the order they were written.
#[derive(Debug, PartialEq, Eq)]
pub struct DeclarationBlock {
    pub target_type: TypeExpr,
    pub generic_params: Vec<GenericParam>,
    pub where_clause: Vec<String>,
    pub methods: Vec<MethodDecl>,
}

/// The mathematical value of a [`DeclarationBlock`].
pub struct BlockModel {
    pub target_type: TypeModel,
    pub generic_params: Seq<GenericParamModel>,
    pub where_clause: Seq<Seq<char>>,
    pub methods: Seq<MethodModel>,
}

impl DeepView for DeclarationBlock {
    type V = BlockModel;

    open spec fn deep_view(&self) -> BlockModel {
        BlockModel {
            target_type: self.target_type.deep_view(),
            generic_params: self.generic_params.deep_view(),
            where_clause: self.where_clause.deep_view(),
            methods: self.methods.deep_view(),
        }
    }
}

} // verus!
