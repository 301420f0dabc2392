//! The declarations that an expansion yields.

use crate::block::{Annotation, AnnotationModel, GenericParam, GenericParamModel, Param, ParamModel};
use crate::types::{TypeExpr, TypeModel};
use vstd::prelude::*;

verus! {

/// A predicate of a generated where-clause.
#[derive(Debug, PartialEq, Eq)]
pub enum Bound {
    /// A predicate of the block's own where-clause, as source text.
    Declared { predicate: String },
    /// The named type parameter may be sent to another thread and borrows
    /// nothing: `Send + 'static`.
    ThreadSafe { param: String },
}

/// The mathematical value of a [`Bound`].
pub enum BoundModel {
    Declared { predicate: Seq<char> },
    ThreadSafe { param: Seq<char> },
}

impl DeepView for Bound {
    type V = BoundModel;

    open spec fn deep_view(&self) -> BoundModel {
        match self {
            Bound::Declared { predicate } => BoundModel::Declared { predicate: predicate@ },
            Bound::ThreadSafe { param } => BoundModel::ThreadSafe { param: param@ },
        }
    }
}

/// Declares a type as a message and names the type of its result.
#[derive(Debug, PartialEq, Eq)]
pub struct MessageTypeDecl {
    pub message_type: TypeExpr,
    pub result_type: TypeExpr,
    /// The type parameters declared by this declaration alone.
    pub extra_generics: Vec<String>,
    /// One bound for each of `extra_generics`, in the same order.
    pub extra_bounds: Vec<Bound>,
}

/// The mathematical value of a [`MessageTypeDecl`].
pub struct MessageTypeModel {
    pub message_type: TypeModel,
    pub result_type: TypeModel,
    pub extra_generics: Seq<Seq<char>>,
    pub extra_bounds: Seq<BoundModel>,
}

impl DeepView for MessageTypeDecl {
    type V = MessageTypeModel;

    open spec fn deep_view(&self) -> MessageTypeModel {
        MessageTypeModel {
            message_type: self.message_type.deep_view(),
            result_type: self.result_type.deep_view(),
            extra_generics: self.extra_generics.deep_view(),
            extra_bounds: self.extra_bounds.deep_view(),
        }
    }
}

/// The context parameter of a generated handler.
#[derive(Debug, PartialEq, Eq)]
pub enum ContextParam {
    /// The parameter that the method declared, unchanged.
    Declared(Param),
    /// An unused parameter that borrows, mutably, the execution context of
    /// the target type.
    Default { target: TypeExpr },
}

/// The mathematical value of a [`ContextParam`].
pub enum ContextModel {
    Declared(ParamModel),
    Default { target: TypeModel },
}

impl DeepView for ContextParam {
    type V = ContextModel;

    open spec fn deep_view(&self) -> ContextModel {
        match self {
            ContextParam::Declared(param) => ContextModel::Declared(param.deep_view()),
            ContextParam::Default { target } => ContextModel::Default {
                target: target.deep_view(),
            },
        }
    }
}

/// The body of a generated handler. Either way it holds the source text of
/// the method's body, unchanged.
#[derive(Debug, PartialEq, Eq)]
pub enum HandlerBody {
    /// The method's body as it was written.
    Verbatim { body: String },
    /// The method's body, to be run on a worker reserved for blocking work
    /// while the caller waits for its value.
    Blocking { body: String },
}

/// The mathematical value of a [`HandlerBody`].
pub enum BodyModel {
    Verbatim { body: Seq<char> },
    Blocking { body: Seq<char> },
}

impl DeepView for HandlerBody {
    type V = BodyModel;

    open spec fn deep_view(&self) -> BodyModel {
        match self {
            HandlerBody::Verbatim { body } => BodyModel::Verbatim { body: body@ },
            HandlerBody::Blocking { body } => BodyModel::Blocking { body: body@ },
        }
    }
}

/// A trace span to open round a handler: it is named after the message
/// type, and records the error of a failed result where `record_errors` is set.
#[derive(Debug, PartialEq, Eq)]
pub struct Instrumentation {
    pub span_subject: TypeExpr,
    pub record_errors: bool,
}

/// The mathematical value of an [`Instrumentation`].
pub struct InstrumentationModel {
    pub span_subject: TypeModel,
    pub record_errors: bool,
}

impl DeepView for Instrumentation {
    type V = InstrumentationModel;

    open spec fn deep_view(&self) -> InstrumentationModel {
        InstrumentationModel {
            span_subject: self.span_subject.deep_view(),
            record_errors: self.record_errors,
        }
    }
}

/// Implements the handling of one message type for the target type.
#[derive(Debug, PartialEq, Eq)]
pub struct HandlerImplDecl {
    pub target_type: TypeExpr,
    pub message_type: TypeExpr,
    /// The source text of the pattern that binds the message.
    pub message_pattern: String,
    pub context_param: ContextParam,
    pub generic_params: Vec<GenericParam>,
    pub bounds: Vec<Bound>,
    pub declared_return_type: TypeExpr,
    pub modified_body: HandlerBody,
    pub annotations: Vec<Annotation>,
    pub instrumentation: Option<Instrumentation>,
}

/// The mathematical value of a [`HandlerImplDecl`].
pub struct HandlerImplModel {
    pub target_type: TypeModel,
    pub message_type: TypeModel,
    pub message_pattern: Seq<char>,
    pub context_param: ContextModel,
    pub generic_params: Seq<GenericParamModel>,
    pub bounds: Seq<BoundModel>,
    pub declared_return_type: TypeModel,
    pub modified_body: BodyModel,
    pub annotations: Seq<AnnotationModel>,
    pub instrumentation: Option<InstrumentationModel>,
}

impl DeepView for HandlerImplDecl {
    type V = HandlerImplModel;

    open spec fn deep_view(&self) -> HandlerImplModel {
        HandlerImplModel {
            target_type: self.target_type.deep_view(),
            message_type: self.message_type.deep_view(),
            message_pattern: self.message_pattern@,
            context_param: self.context_param.deep_view(),
            generic_params: self.generic_params.deep_view(),
            bounds: self.bounds.deep_view(),
            declared_return_type: self.declared_return_type.deep_view(),
            modified_body: self.modified_body.deep_view(),
            annotations: self.annotations.deep_view(),
            instrumentation: self.instrumentation.deep_view(),
        }
    }
}

/// One declaration of an expansion.
#[derive(Debug, PartialEq, Eq)]
pub enum OutputDeclaration {
    MessageType(MessageTypeDecl),
    HandlerImpl(HandlerImplDecl),
}

/// The mathematical value of an [`OutputDeclaration`].
pub enum OutputModel {
    MessageType(MessageTypeModel),
    HandlerImpl(HandlerImplModel),
}

impl DeepView for OutputDeclaration {
    type V = OutputModel;

    open spec fn deep_view(&self) -> OutputModel {
        match self {
            OutputDeclaration::MessageType(decl) => OutputModel::MessageType(decl.deep_view()),
            OutputDeclaration::HandlerImpl(decl) => OutputModel::HandlerImpl(decl.deep_view()),
        }
    }
}

} // verus!
