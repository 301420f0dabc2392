//! Type expressions as the expander sees them.

use vstd::prelude::*;

verus! {

/// A type reference.
#[derive(Debug, PartialEq, Eq)]
pub enum TypeExpr {
    /// The unit type.
    Unit,
    /// A path, each segment possibly carrying angle-bracketed arguments.
    /// `leading_colon` tells whether the path starts with `::`.
    Path { leading_colon: bool, segments: Vec<PathSegment> },
    /// Any other type, kept as its source text.
    Opaque { text: String },
}

/// One segment of a path.
#[derive(Debug, PartialEq, Eq)]
pub struct PathSegment {
    pub ident: String,
    pub args: Vec<GenericArg>,
}

/// One angle-bracketed argument of a path segment.
#[derive(Debug, PartialEq, Eq)]
pub enum GenericArg {
    /// A type argument.
    Type(TypeExpr),
    /// A lifetime, constant or binding, kept as its source text.
    Opaque(String),
}

/// The mathematical value of a [`TypeExpr`].
pub enum TypeModel {
    Unit,
    Path { leading_colon: bool, segments: Seq<SegmentModel> },
    Opaque { text: Seq<char> },
}

/// The mathematical value of a [`PathSegment`].
pub struct SegmentModel {
    pub ident: Seq<char>,
    pub args: Seq<ArgModel>,
}

/// The mathematical value of a [`GenericArg`].
pub enum ArgModel {
    Type(TypeModel),
    Opaque(Seq<char>),
}

/// The value of a type expression: its shape, with text as sequences of
/// characters and vectors as sequences.
pub open spec fn type_model(t: TypeExpr) -> TypeModel
    decreases t,
{
    match t {
        TypeExpr::Unit => TypeModel::Unit,
        TypeExpr::Path { leading_colon, segments } => TypeModel::Path {
            leading_colon,
            segments: Seq::new(
                segments@.len(),
                |i: int|
                    if 0 <= i < segments@.len() {
                        segment_model(segments@[i])
                    } else {
                        arbitrary()
                    },
            ),
        },
        TypeExpr::Opaque { text } => TypeModel::Opaque { text: text@ },
    }
}

/// The value of a path segment.
pub open spec fn segment_model(s: PathSegment) -> SegmentModel
    decreases s,
{
    SegmentModel {
        ident: s.ident@,
        args: Seq::new(
            s.args@.len(),
            |i: int|
                if 0 <= i < s.args@.len() {
                    arg_model(s.args@[i])
                } else {
                    arbitrary()
                },
        ),
    }
}

/// The value of an argument of a path segment.
pub open spec fn arg_model(a: GenericArg) -> ArgModel
    decreases a,
{
    match a {
        GenericArg::Type(t) => ArgModel::Type(type_model(t)),
        GenericArg::Opaque(text) => ArgModel::Opaque(text@),
    }
}

impl DeepView for TypeExpr {
    type V = TypeModel;

    open spec fn deep_view(&self) -> TypeModel {
        type_model(*self)
    }
}

impl DeepView for PathSegment {
    type V = SegmentModel;

    open spec fn deep_view(&self) -> SegmentModel {
        segment_model(*self)
    }
}

impl DeepView for GenericArg {
    type V = ArgModel;

    open spec fn deep_view(&self) -> ArgModel {
        arg_model(*self)
    }
}

/// The value of a path type is the path of its segments' values.
pub proof fn lemma_path_model(leading_colon: bool, segments: Vec<PathSegment>)
    ensures
        type_model(TypeExpr::Path { leading_colon, segments }) == (TypeModel::Path {
            leading_colon,
            segments: segments.deep_view(),
        }),
{
    assert(type_model(TypeExpr::Path { leading_colon, segments })->Path_segments
        =~= segments.deep_view());
}

/// The value of a segment is its identifier with its arguments' values.
pub proof fn lemma_segment_model(segment: PathSegment)
    ensures
        segment_model(segment) == (SegmentModel {
            ident: segment.ident@,
            args: segment.args.deep_view(),
        }),
{
    assert(segment_model(segment).args =~= segment.args.deep_view());
}

impl Clone for TypeExpr {
    /// A copy with the same value.
    fn clone(&self) -> (copy: TypeExpr)
        ensures
            copy.deep_view() == self.deep_view(),
        decreases self,
    {
        match self {
            TypeExpr::Unit => TypeExpr::Unit,
            TypeExpr::Path { leading_colon, segments } => {
                let copy = TypeExpr::Path {
                    leading_colon: *leading_colon,
                    segments: clone_segments(segments),
                };
                proof {
                    lemma_path_model(*leading_colon, *segments);
                    lemma_path_model(*leading_colon, copy->Path_segments);
                }
                copy
            },
            TypeExpr::Opaque { text } => TypeExpr::Opaque { text: text.clone() },
        }
    }
}

/// Copies of the segments of a path, in order.
pub fn clone_segments(segments: &Vec<PathSegment>) -> (copy: Vec<PathSegment>)
    ensures
        copy.deep_view() == segments.deep_view(),
    decreases segments,
{
    let mut copy: Vec<PathSegment> = Vec::new();
    let mut i: usize = 0;
    while i < segments.len()
        invariant
            i <= segments.len(),
            copy.len() == i,
            forall|j: int|
                0 <= j < i ==> segment_model(copy@[j]) == segment_model(#[trigger] segments@[j]),
        decreases segments.len() - i,
    {
        let segment = segments[i].clone();
        copy.push(segment);
        i += 1;
    }
    assert(copy.deep_view() =~= segments.deep_view());
    copy
}

impl Clone for PathSegment {
    /// A copy with the same value.
    fn clone(&self) -> (copy: PathSegment)
        ensures
            copy.deep_view() == self.deep_view(),
        decreases self,
    {
        let copy = PathSegment { ident: self.ident.clone(), args: clone_args(&self.args) };
        proof {
            lemma_segment_model(*self);
            lemma_segment_model(copy);
        }
        copy
    }
}

/// Copies of the arguments of a path segment, in order.
pub fn clone_args(args: &Vec<GenericArg>) -> (copy: Vec<GenericArg>)
    ensures
        copy.deep_view() == args.deep_view(),
    decreases args,
{
    let mut copy: Vec<GenericArg> = Vec::new();
    let mut i: usize = 0;
    while i < args.len()
        invariant
            i <= args.len(),
            copy.len() == i,
            forall|j: int| 0 <= j < i ==> arg_model(copy@[j]) == arg_model(#[trigger] args@[j]),
        decreases args.len() - i,
    {
        let arg = args[i].clone();
        copy.push(arg);
        i += 1;
    }
    assert(copy.deep_view() =~= args.deep_view());
    copy
}

impl Clone for GenericArg {
    /// A copy with the same value.
    fn clone(&self) -> (copy: GenericArg)
        ensures
            copy.deep_view() == self.deep_view(),
        decreases self,
    {
        match self {
            GenericArg::Type(t) => GenericArg::Type(t.clone()),
            GenericArg::Opaque(text) => GenericArg::Opaque(text.clone()),
        }
    }
}

} // verus!
