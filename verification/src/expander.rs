//! The expansion of methods into declarations.

use crate::attributes::{
    blocking_requested, instrumentation_requested, passed_annotations, remaining_annotations,
    wants_blocking, wants_instrumentation,
};
use crate::block::{
    clone_generic_params, BlockModel, DeclarationBlock, MethodDecl, MethodModel, Param,
};
use crate::bounds::{
    bounds_of_handlers, fallible, handler_bounds, is_fallible, local_generics,
    message_local_generics, thread_safe, thread_safety_bounds,
};
use crate::error::TransformError;
use crate::output::{
    BodyModel, ContextModel, ContextParam, HandlerBody, HandlerImplDecl, HandlerImplModel,
    Instrumentation, InstrumentationModel, MessageTypeDecl, MessageTypeModel, OutputDeclaration,
    OutputModel,
};
use crate::seqs::{lemma_deep_view_concat, lemma_take_ends, lemma_take_next};
use crate::types::{TypeExpr, TypeModel};
use vstd::prelude::*;

verus! {

/// Why the method at a position in its block cannot be expanded, if it
/// cannot: it has no second parameter, or that parameter is a receiver.
pub open spec fn method_error(method: MethodModel, position: int) -> Option<TransformError> {
    if method.params.len() < 2 {
        Some(TransformError::MissingMessageParameter { method: position as usize })
    } else if method.params[1] is Receiver {
        Some(TransformError::ReceiverAsMessage { method: position as usize })
    } else {
        None
    }
}

/// The type of the result of a method: the return type it declares, or the
/// unit type where it declares none.
pub open spec fn result_type_of(method: MethodModel) -> TypeModel {
    match method.return_type {
        Some(ty) => ty,
        None => TypeModel::Unit,
    }
}

/// The context parameter of a method's handler: the method's third
/// parameter where it has one, else the default for the block's target type.
pub open spec fn context_of(block: BlockModel, method: MethodModel) -> ContextModel {
    if method.params.len() >= 3 {
        ContextModel::Declared(method.params[2])
    } else {
        ContextModel::Default { target: block.target_type }
    }
}

/// The declaration of a message type with the type of its result: it
/// declares the type parameters that the message type calls for, each with a
/// thread-safety bound.
pub open spec fn message_decl_for(message_type: TypeModel, result_type: TypeModel)
    -> MessageTypeModel {
    MessageTypeModel {
        message_type,
        result_type,
        extra_generics: message_local_generics(message_type),
        extra_bounds: thread_safety_bounds(message_local_generics(message_type)),
    }
}

/// The body of a method's handler: the method's body, marked as blocking
/// work exactly where an annotation of the method asks for that.
pub open spec fn body_of(method: MethodModel) -> BodyModel {
    if blocking_requested(method.annotations) {
        BodyModel::Blocking { body: method.body }
    } else {
        BodyModel::Verbatim { body: method.body }
    }
}

/// The trace span of a method's handler, where one is to be added: named
/// after the message type, and recording errors where the result is fallible.
pub open spec fn instrumentation_for(method: MethodModel, message_type: TypeModel) -> Option<
    InstrumentationModel,
> {
    if instrumentation_requested(method.annotations) {
        Some(
            InstrumentationModel {
                span_subject: message_type,
                record_errors: is_fallible(result_type_of(method)),
            },
        )
    } else {
        None
    }
}

/// The handler generated from a method whose message is bound by the given
/// pattern and has the given type.
pub open spec fn handler_for(
    block: BlockModel,
    method: MethodModel,
    message_pattern: Seq<char>,
    message_type: TypeModel,
) -> HandlerImplModel {
    HandlerImplModel {
        target_type: block.target_type,
        message_type,
        message_pattern,
        context_param: context_of(block, method),
        generic_params: block.generic_params,
        bounds: handler_bounds(block),
        declared_return_type: result_type_of(method),
        modified_body: body_of(method),
        annotations: passed_annotations(method.annotations),
        instrumentation: instrumentation_for(method, message_type),
    }
}

/// The type of the message that a method handles: that of its second parameter.
pub open spec fn message_type_of(method: MethodModel) -> TypeModel
    recommends
        method_error(method, 0) is None,
{
    method.params[1]->ty
}

/// The handler generated from a method.
pub open spec fn handler_of(block: BlockModel, method: MethodModel) -> HandlerImplModel
    recommends
        method_error(method, 0) is None,
{
    handler_for(block, method, method.params[1]->pattern, message_type_of(method))
}

/// The declaration of the message type of a method.
pub open spec fn message_decl_of(method: MethodModel) -> MessageTypeModel
    recommends
        method_error(method, 0) is None,
{
    message_decl_for(message_type_of(method), result_type_of(method))
}

/// What one method expands to: the declaration of its message type, where
/// those are wanted, and then its handler.
pub open spec fn expansion_of_method(block: BlockModel, method: MethodModel, with_message_decl: bool)
    -> Seq<OutputModel>
    recommends
        method_error(method, 0) is None,
{
    if with_message_decl {
        seq![
            OutputModel::MessageType(message_decl_of(method)),
            OutputModel::HandlerImpl(handler_of(block, method)),
        ]
    } else {
        seq![OutputModel::HandlerImpl(handler_of(block, method))]
    }
}

/// What the methods of a block expand to: the expansions of the methods one
/// after another, in the order of the methods; or the error of the first
/// method that cannot be expanded.
pub open spec fn expansion_of_methods(
    block: BlockModel,
    methods: Seq<MethodModel>,
    with_message_decl: bool,
) -> Result<Seq<OutputModel>, TransformError>
    decreases methods.len(),
{
    if methods.len() == 0 {
        Ok(Seq::empty())
    } else {
        match expansion_of_methods(block, methods.drop_last(), with_message_decl) {
            Err(error) => Err(error),
            Ok(before) => match method_error(methods.last(), methods.len() - 1) {
                Some(error) => Err(error),
                None => Ok(
                    before + expansion_of_method(block, methods.last(), with_message_decl),
                ),
            },
        }
    }
}

/// An error among the first methods of a block is the error of the whole block.
pub proof fn lemma_error_is_final(
    block: BlockModel,
    methods: Seq<MethodModel>,
    with_message_decl: bool,
    count: int,
)
    requires
        0 <= count <= methods.len(),
        expansion_of_methods(block, methods.take(count), with_message_decl) is Err,
    ensures
        expansion_of_methods(block, methods, with_message_decl) == expansion_of_methods(
            block,
            methods.take(count),
            with_message_decl,
        ),
    decreases methods.len(),
{
    if count == methods.len() {
        lemma_take_ends(methods);
    } else {
        assert(methods.drop_last().take(count) =~= methods.take(count));
        lemma_error_is_final(block, methods.drop_last(), with_message_decl, count);
    }
}

/// The type of the result of a method.
pub fn result_type(method: &MethodDecl) -> (ty: TypeExpr)
    ensures
        ty.deep_view() == result_type_of(method.deep_view()),
{
    match &method.return_type {
        Some(ty) => ty.clone(),
        None => TypeExpr::Unit,
    }
}

/// The context parameter of a method's handler.
pub fn context_parameter(block: &DeclarationBlock, method: &MethodDecl) -> (context: ContextParam)
    ensures
        context.deep_view() == context_of(block.deep_view(), method.deep_view()),
{
    if method.params.len() >= 3 {
        assert(method.params.deep_view()[2] == method.params@[2].deep_view());
        ContextParam::Declared(method.params[2].clone())
    } else {
        ContextParam::Default { target: block.target_type.clone() }
    }
}

/// The declaration of a message type with the type of its result.
pub fn message_type_decl(message_type: &TypeExpr, result_type: TypeExpr) -> (decl: MessageTypeDecl)
    ensures
        decl.deep_view() == message_decl_for(message_type.deep_view(), result_type.deep_view()),
{
    let extra_generics = local_generics(message_type);
    let extra_bounds = thread_safe(&extra_generics);
    MessageTypeDecl {
        message_type: message_type.clone(),
        result_type,
        extra_generics,
        extra_bounds,
    }
}

/// The body of a method's handler.
pub fn handler_body(method: &MethodDecl) -> (body: HandlerBody)
    ensures
        body.deep_view() == body_of(method.deep_view()),
{
    if wants_blocking(&method.annotations) {
        HandlerBody::Blocking { body: method.body.clone() }
    } else {
        HandlerBody::Verbatim { body: method.body.clone() }
    }
}

/// The trace span of a method's handler, where one is to be added.
pub fn instrumentation(method: &MethodDecl, message_type: &TypeExpr) -> (span: Option<
    Instrumentation,
>)
    ensures
        span.deep_view() == instrumentation_for(method.deep_view(), message_type.deep_view()),
{
    if wants_instrumentation(&method.annotations) {
        let result = result_type(method);
        Some(Instrumentation { span_subject: message_type.clone(), record_errors: fallible(&result) })
    } else {
        None
    }
}

/// The handler generated from a method whose message is bound by the given
/// pattern and has the given type.
pub fn handler_impl_decl(
    block: &DeclarationBlock,
    method: &MethodDecl,
    message_pattern: &String,
    message_type: &TypeExpr,
) -> (decl: HandlerImplDecl)
    ensures
        decl.deep_view() == handler_for(
            block.deep_view(),
            method.deep_view(),
            message_pattern@,
            message_type.deep_view(),
        ),
{
    HandlerImplDecl {
        target_type: block.target_type.clone(),
        message_type: message_type.clone(),
        message_pattern: message_pattern.clone(),
        context_param: context_parameter(block, method),
        generic_params: clone_generic_params(&block.generic_params),
        bounds: bounds_of_handlers(block),
        declared_return_type: result_type(method),
        modified_body: handler_body(method),
        annotations: remaining_annotations(&method.annotations),
        instrumentation: instrumentation(method, message_type),
    }
}

/// Expands the method at a position in a block.
pub fn expand_method(
    block: &DeclarationBlock,
    method: &MethodDecl,
    position: usize,
    with_message_decl: bool,
) -> (outcome: Result<Vec<OutputDeclaration>, TransformError>)
    ensures
        match outcome {
            Ok(declarations) => method_error(method.deep_view(), position as int) is None
                && declarations.deep_view() == expansion_of_method(
                block.deep_view(),
                method.deep_view(),
                with_message_decl,
            ),
            Err(error) => method_error(method.deep_view(), position as int) == Some(error),
        },
{
    if method.params.len() < 2 {
        return Err(TransformError::MissingMessageParameter { method: position });
    }
    assert(method.params.deep_view()[1] == method.params@[1].deep_view());
    match &method.params[1] {
        Param::Receiver => Err(TransformError::ReceiverAsMessage { method: position }),
        Param::Typed { pattern, ty } => {
            let mut declarations: Vec<OutputDeclaration> = Vec::new();
            if with_message_decl {
                let decl = message_type_decl(ty, result_type(method));
                declarations.push(OutputDeclaration::MessageType(decl));
            }
            let handler = handler_impl_decl(block, method, pattern, ty);
            declarations.push(OutputDeclaration::HandlerImpl(handler));
            assert(declarations.deep_view() =~= expansion_of_method(
                block.deep_view(),
                method.deep_view(),
                with_message_decl,
            ));
            Ok(declarations)
        },
    }
}

/// Expands the methods of a block, in their order.
pub fn expand_block(block: &DeclarationBlock, with_message_decl: bool) -> (outcome: Result<
    Vec<OutputDeclaration>,
    TransformError,
>)
    ensures
        match outcome {
            Ok(declarations) => expansion_of_methods(
                block.deep_view(),
                block.deep_view().methods,
                with_message_decl,
            ) == Ok::<Seq<OutputModel>, TransformError>(declarations.deep_view()),
            Err(error) => expansion_of_methods(
                block.deep_view(),
                block.deep_view().methods,
                with_message_decl,
            ) == Err::<Seq<OutputModel>, TransformError>(error),
        },
{
    let ghost model = block.deep_view();
    let ghost methods = model.methods;
    let mut declarations: Vec<OutputDeclaration> = Vec::new();
    let mut i: usize = 0;
    proof {
        lemma_take_ends(methods);
        assert(declarations.deep_view() =~= Seq::<OutputModel>::empty());
    }
    while i < block.methods.len()
        invariant
            i <= block.methods.len(),
            model == block.deep_view(),
            methods == model.methods,
            methods.len() == block.methods.len(),
            expansion_of_methods(model, methods.take(i as int), with_message_decl) == Ok::<
                Seq<OutputModel>,
                TransformError,
            >(declarations.deep_view()),
        decreases block.methods.len() - i,
    {
        proof {
            lemma_take_next(methods, i as int);
            assert(methods.take(i + 1).drop_last() =~= methods.take(i as int));
            assert(methods[i as int] == block.methods@[i as int].deep_view());
        }
        match expand_method(block, &block.methods[i], i, with_message_decl) {
            Err(error) => {
                proof {
                    lemma_error_is_final(model, methods, with_message_decl, i + 1);
                }
                return Err(error);
            },
            Ok(mut part) => {
                let ghost before = declarations;
                let ghost added = part;
                declarations.append(&mut part);
                proof {
                    lemma_deep_view_concat(before, added, declarations);
                }
            },
        }
        i += 1;
    }
    proof {
        lemma_take_ends(methods);
    }
    Ok(declarations)
}

} // verus!
