//! What holds of every expansion.

use crate::attributes::{
    blocking_requested, configured_message_impl, is_blocking_marker, passed_annotations,
    passes_through, sets_message_impl, ConfigOptionModel,
};
use crate::block::{BlockModel, GenericParamModel, MethodModel};
use crate::bounds::{
    declared_bounds, handler_bounds, thread_safety_bounds, type_parameter_name,
    type_parameter_names,
};
use crate::error::TransformError;
use crate::expander::{
    expansion_of_method, expansion_of_methods, handler_of, message_decl_of, method_error,
};
use crate::expansion;
use crate::output::{BodyModel, BoundModel, ContextModel, OutputModel};
use crate::seqs::{lemma_filter_empty, lemma_filter_map_keeps};
use vstd::prelude::*;

verus! {

/// Where the handler of the method at a position stands in the expansion.
pub open spec fn handler_index(position: int, with_message_decl: bool) -> int {
    if with_message_decl {
        2 * position + 1
    } else {
        position
    }
}

/// The test for declarations of message types.
pub open spec fn declares_message() -> spec_fn(OutputModel) -> bool {
    |declaration: OutputModel| declaration is MessageType
}

/// The test for handler implementations.
pub open spec fn implements_handler() -> spec_fn(OutputModel) -> bool {
    |declaration: OutputModel| declaration is HandlerImpl
}

/// How many declarations of message types a list of declarations holds.
pub open spec fn message_decl_count(declarations: Seq<OutputModel>) -> nat {
    declarations.filter(declares_message()).len()
}

/// How many handler implementations a list of declarations holds.
pub open spec fn handler_count(declarations: Seq<OutputModel>) -> nat {
    declarations.filter(implements_handler()).len()
}

/// The text of the method body that a handler's body holds.
pub open spec fn body_text(body: BodyModel) -> Seq<char> {
    match body {
        BodyModel::Verbatim { body } => body,
        BodyModel::Blocking { body } => body,
    }
}

/// The methods of a block expand exactly when each of them names a message;
/// otherwise the error is that of the first one that does not.
pub proof fn lemma_success_and_failure(
    block: BlockModel,
    methods: Seq<MethodModel>,
    with_message_decl: bool,
)
    ensures
        expansion_of_methods(block, methods, with_message_decl) is Ok <==> forall|i: int|
            0 <= i < methods.len() ==> method_error(#[trigger] methods[i], i) is None,
        expansion_of_methods(block, methods, with_message_decl) matches Err(error) ==> exists|
            i: int,
        |
            0 <= i < methods.len() && method_error(#[trigger] methods[i], i) == Some(error)
                && forall|j: int| 0 <= j < i ==> method_error(#[trigger] methods[j], j) is None,
    decreases methods.len(),
{
    if methods.len() > 0 {
        let rest = methods.drop_last();
        let last = methods.len() - 1;
        lemma_success_and_failure(block, rest, with_message_decl);
        assert forall|i: int| 0 <= i < rest.len() implies rest[i] == methods[i] by {}
        match expansion_of_methods(block, rest, with_message_decl) {
            Err(error) => {
                let i = choose|i: int|
                    0 <= i < rest.len() && method_error(#[trigger] rest[i], i) == Some(error)
                        && forall|j: int|
                        0 <= j < i ==> method_error(#[trigger] rest[j], j) is None;
                assert(methods[i] == rest[i]);
                assert forall|j: int| 0 <= j < i implies method_error(
                    #[trigger] methods[j],
                    j,
                ) is None by {
                    assert(methods[j] == rest[j]);
                }
            },
            Ok(before) => {
                assert forall|j: int| 0 <= j < last implies method_error(
                    #[trigger] methods[j],
                    j,
                ) is None by {
                    assert(methods[j] == rest[j]);
                }
                if method_error(methods[last], last) is Some {
                    assert(methods.last() == methods[last]);
                }
            },
        }
    }
}

/// Every method yields exactly its own declarations, in the order of the
/// methods: where message type declarations are wanted, the declaration of
/// its message type and then its handler; else its handler alone.
pub proof fn lemma_expansion_layout(
    block: BlockModel,
    methods: Seq<MethodModel>,
    with_message_decl: bool,
)
    requires
        expansion_of_methods(block, methods, with_message_decl) is Ok,
    ensures
        ({
            let declarations = expansion_of_methods(block, methods, with_message_decl)->Ok_0;
            &&& declarations.len() == if with_message_decl {
                2 * methods.len()
            } else {
                methods.len()
            }
            &&& forall|i: int|
                0 <= i < methods.len() ==> declarations[handler_index(i, with_message_decl)]
                    == OutputModel::HandlerImpl(handler_of(block, #[trigger] methods[i]))
            &&& with_message_decl ==> forall|i: int|
                0 <= i < methods.len() ==> declarations[2 * i] == OutputModel::MessageType(
                    message_decl_of(#[trigger] methods[i]),
                )
        }),
    decreases methods.len(),
{
    if methods.len() > 0 {
        let rest = methods.drop_last();
        let last = methods.len() - 1;
        lemma_expansion_layout(block, rest, with_message_decl);
        let before = expansion_of_methods(block, rest, with_message_decl)->Ok_0;
        let added = expansion_of_method(block, methods.last(), with_message_decl);
        let declarations = expansion_of_methods(block, methods, with_message_decl)->Ok_0;
        assert(declarations == before + added);
        assert forall|i: int| 0 <= i < methods.len() implies declarations[handler_index(
            i,
            with_message_decl,
        )] == OutputModel::HandlerImpl(handler_of(block, #[trigger] methods[i])) by {
            if i < last {
                assert(methods[i] == rest[i]);
            }
        }
        if with_message_decl {
            assert forall|i: int| 0 <= i < methods.len() implies declarations[2 * i]
                == OutputModel::MessageType(message_decl_of(#[trigger] methods[i])) by {
                if i < last {
                    assert(methods[i] == rest[i]);
                }
            }
        }
    }
}

/// An expansion holds one handler for each method, and one declaration of a
/// message type for each method where those are wanted, none where they are not.
pub proof fn lemma_declaration_counts(
    block: BlockModel,
    methods: Seq<MethodModel>,
    with_message_decl: bool,
)
    requires
        expansion_of_methods(block, methods, with_message_decl) is Ok,
    ensures
        ({
            let declarations = expansion_of_methods(block, methods, with_message_decl)->Ok_0;
            &&& handler_count(declarations) == methods.len()
            &&& message_decl_count(declarations) == if with_message_decl {
                methods.len()
            } else {
                0
            }
        }),
    decreases methods.len(),
{
    lemma_filter_empty(declares_message());
    lemma_filter_empty(implements_handler());
    if methods.len() > 0 {
        let rest = methods.drop_last();
        lemma_declaration_counts(block, rest, with_message_decl);
        let before = expansion_of_methods(block, rest, with_message_decl)->Ok_0;
        let added = expansion_of_method(block, methods.last(), with_message_decl);
        let message = OutputModel::MessageType(message_decl_of(methods.last()));
        let handler = OutputModel::HandlerImpl(handler_of(block, methods.last()));
        let none = Seq::<OutputModel>::empty();
        Seq::filter_distributes_over_add(before, added, declares_message());
        Seq::filter_distributes_over_add(before, added, implements_handler());
        if with_message_decl {
            assert(added =~= none.push(message).push(handler));
            none.lemma_filter_push(message, declares_message());
            none.push(message).lemma_filter_push(handler, declares_message());
            none.lemma_filter_push(message, implements_handler());
            none.push(message).lemma_filter_push(handler, implements_handler());
        } else {
            assert(added =~= none.push(handler));
            none.lemma_filter_push(handler, declares_message());
            none.lemma_filter_push(handler, implements_handler());
        }
    }
}

/// A configuration that sets `message_impl` to `false` yields no declaration
/// of a message type. One that sets it to `true`, and an empty configuration,
/// yield exactly one for each method, each directly before its method's
/// handler. Either way there is exactly one handler for each method.
pub proof fn lemma_message_decl_toggle(config: Seq<ConfigOptionModel>, block: BlockModel)
    requires
        expansion(config, block) is Ok,
    ensures
        sets_message_impl(config, false) ==> message_decl_count(expansion(config, block)->Ok_0)
            == 0,
        config.len() == 0 || sets_message_impl(config, true) ==> {
            &&& message_decl_count(expansion(config, block)->Ok_0) == block.methods.len()
            &&& forall|i: int|
                0 <= i < block.methods.len() ==> expansion(config, block)->Ok_0[2 * i]
                    == OutputModel::MessageType(message_decl_of(#[trigger] block.methods[i]))
        },
        handler_count(expansion(config, block)->Ok_0) == block.methods.len(),
{
    let with_message_decl = configured_message_impl(config)->Ok_0;
    lemma_declaration_counts(block, block.methods, with_message_decl);
    lemma_expansion_layout(block, block.methods, with_message_decl);
}

/// A configuration is read exactly when it is empty or sets `message_impl`
/// to a boolean value.
pub proof fn lemma_configuration_read(config: Seq<ConfigOptionModel>)
    ensures
        configured_message_impl(config) is Ok <==> config.len() == 0 || sets_message_impl(
            config,
            true,
        ) || sets_message_impl(config, false),
        config.len() == 0 || sets_message_impl(config, true) ==> configured_message_impl(config)
            == Ok::<bool, TransformError>(true),
        sets_message_impl(config, false) ==> configured_message_impl(config) == Ok::<
            bool,
            TransformError,
        >(false),
{
}

/// The handler of every method holds the text of the method's body,
/// unchanged. It is marked as blocking work exactly where an annotation of
/// the method asks for that, and no such annotation is handed on.
pub proof fn lemma_body_preserved(config: Seq<ConfigOptionModel>, block: BlockModel, position: int)
    requires
        expansion(config, block) is Ok,
        0 <= position < block.methods.len(),
    ensures
        ({
            let method = block.methods[position];
            let declaration = expansion(config, block)->Ok_0[handler_index(
                position,
                configured_message_impl(config)->Ok_0,
            )];
            &&& declaration is HandlerImpl
            &&& body_text(declaration->HandlerImpl_0.modified_body) == method.body
            &&& declaration->HandlerImpl_0.modified_body is Blocking <==> blocking_requested(
                method.annotations,
            )
            &&& forall|k: int|
                0 <= k < declaration->HandlerImpl_0.annotations.len() ==> !is_blocking_marker(
                    #[trigger] declaration->HandlerImpl_0.annotations[k],
                )
            &&& forall|k: int|
                0 <= k < method.annotations.len() && !is_blocking_marker(
                    #[trigger] method.annotations[k],
                ) ==> declaration->HandlerImpl_0.annotations.contains(method.annotations[k])
        }),
{
    let with_message_decl = configured_message_impl(config)->Ok_0;
    lemma_expansion_layout(block, block.methods, with_message_decl);
    let method = block.methods[position];
    let kept = passed_annotations(method.annotations);
    assert forall|k: int| 0 <= k < kept.len() implies !is_blocking_marker(#[trigger] kept[k]) by {
        method.annotations.lemma_filter_pred(passes_through(), k);
    }
    assert forall|k: int|
        0 <= k < method.annotations.len() && !is_blocking_marker(
            #[trigger] method.annotations[k],
        ) implies kept.contains(method.annotations[k]) by {
        method.annotations.lemma_filter_contains(passes_through(), k);
    }
}

/// The where-clause of every handler holds each predicate of the block's
/// own where-clause, and a thread-safety bound for each type parameter of the
/// block, whatever the method and its message type.
pub proof fn lemma_bounds_propagate(config: Seq<ConfigOptionModel>, block: BlockModel, position: int)
    requires
        expansion(config, block) is Ok,
        0 <= position < block.methods.len(),
    ensures
        ({
            let declaration = expansion(config, block)->Ok_0[handler_index(
                position,
                configured_message_impl(config)->Ok_0,
            )];
            &&& declaration is HandlerImpl
            &&& declaration->HandlerImpl_0.generic_params == block.generic_params
            &&& forall|k: int|
                0 <= k < block.where_clause.len()
                    ==> declaration->HandlerImpl_0.bounds.contains(
                    BoundModel::Declared { predicate: #[trigger] block.where_clause[k] },
                )
            &&& forall|k: int|
                0 <= k < block.generic_params.len() && (
                #[trigger] block.generic_params[k]) is Type
                    ==> declaration->HandlerImpl_0.bounds.contains(
                    BoundModel::ThreadSafe { param: block.generic_params[k]->name },
                )
        }),
{
    let with_message_decl = configured_message_impl(config)->Ok_0;
    lemma_expansion_layout(block, block.methods, with_message_decl);
    let method = block.methods[position];
    assert(handler_of(block, method).bounds == handler_bounds(block));
    let bounds = handler_bounds(block);
    let own = declared_bounds(block.where_clause);
    let names = type_parameter_names(block.generic_params);
    let added = thread_safety_bounds(names);
    assert forall|k: int| 0 <= k < block.where_clause.len() implies bounds.contains(
        BoundModel::Declared { predicate: #[trigger] block.where_clause[k] },
    ) by {
        assert(bounds[k] == own[k]);
    }
    assert forall|k: int|
        0 <= k < block.generic_params.len() && (#[trigger] block.generic_params[k]) is Type
        implies bounds.contains(
        BoundModel::ThreadSafe { param: block.generic_params[k]->name },
    ) by {
        let pick = |param: GenericParamModel| type_parameter_name(param);
        lemma_filter_map_keeps(block.generic_params, pick, k);
        let name = block.generic_params[k]->name;
        let at = choose|at: int| 0 <= at < names.len() && names[at] == name;
        assert(bounds[own.len() + at] == added[at]);
    }
}

/// The handler of a method that declares a third parameter takes that
/// parameter as its context, unchanged; the handler of a method that
/// declares none takes the default context of the block's target type.
pub proof fn lemma_context_parameter(config: Seq<ConfigOptionModel>, block: BlockModel, position: int)
    requires
        expansion(config, block) is Ok,
        0 <= position < block.methods.len(),
    ensures
        ({
            let method = block.methods[position];
            let declaration = expansion(config, block)->Ok_0[handler_index(
                position,
                configured_message_impl(config)->Ok_0,
            )];
            &&& declaration is HandlerImpl
            &&& declaration->HandlerImpl_0.target_type == block.target_type
            &&& method.params.len() >= 2
            &&& method.params.len() == 2 ==> declaration->HandlerImpl_0.context_param == (
            ContextModel::Default { target: block.target_type })
            &&& method.params.len() >= 3 ==> declaration->HandlerImpl_0.context_param
                == ContextModel::Declared(method.params[2])
        }),
{
    let with_message_decl = configured_message_impl(config)->Ok_0;
    lemma_expansion_layout(block, block.methods, with_message_decl);
    lemma_success_and_failure(block, block.methods, with_message_decl);
}

} // verus!
