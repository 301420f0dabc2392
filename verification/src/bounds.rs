//! The generic parameters and bounds of the generated declarations.

use crate::block::{text_is, BlockModel, DeclarationBlock, GenericParam, GenericParamModel};
use crate::output::{Bound, BoundModel};
use crate::seqs::{lemma_deep_view_concat, lemma_deep_view_push, lemma_take_ends};
use crate::types::{
    lemma_path_model, lemma_segment_model, ArgModel, GenericArg, TypeExpr, TypeModel,
};
use vstd::prelude::*;
use vstd::string::*;

verus! {

/// The name under which an argument of a message type counts as a type
/// parameter of the message's own declaration, if it does.
///
/// The test looks at the argument's shape alone: a type that is a path of
/// one segment, without `::` before it and without arguments of its own,
/// whose identifier is a single character. Nothing is resolved, so a parameter with a longer name is taken
/// for a concrete type, and a concrete type with a one-letter name for a
/// parameter.
pub open spec fn free_parameter_name(arg: ArgModel) -> Option<Seq<char>> {
    match arg {
        ArgModel::Type(TypeModel::Path { leading_colon, segments }) => if !leading_colon
            && segments.len() == 1 && segments[0].args.len() == 0 && segments[0].ident.len()
            == 1 {
            Some(segments[0].ident)
        } else {
            None
        },
        _ => None,
    }
}

/// The arguments written on the last segment of a message type; none where
/// the type is not a path.
pub open spec fn message_arguments(message_type: TypeModel) -> Seq<ArgModel> {
    match message_type {
        TypeModel::Path { leading_colon, segments } => if segments.len() > 0 {
            segments.last().args
        } else {
            Seq::empty()
        },
        _ => Seq::empty(),
    }
}

/// The type parameters that the declaration of a message type declares for
/// itself: the names of those arguments that count as type parameters, one
/// for each such argument, in the order of the arguments.
pub open spec fn message_local_generics(message_type: TypeModel) -> Seq<Seq<char>> {
    message_arguments(message_type).filter_map(|arg: ArgModel| free_parameter_name(arg))
}

/// The name of a generic parameter, if it is a type parameter.
pub open spec fn type_parameter_name(param: GenericParamModel) -> Option<Seq<char>> {
    match param {
        GenericParamModel::Type { name, declaration } => Some(name),
        GenericParamModel::Inert { text } => None,
    }
}

/// The names of the type parameters among generic parameters, in their order.
pub open spec fn type_parameter_names(params: Seq<GenericParamModel>) -> Seq<Seq<char>> {
    params.filter_map(|param: GenericParamModel| type_parameter_name(param))
}

/// One thread-safety bound for each name, in the order of the names.
pub open spec fn thread_safety_bounds(names: Seq<Seq<char>>) -> Seq<BoundModel> {
    names.map_values(|name: Seq<char>| BoundModel::ThreadSafe { param: name })
}

/// Each predicate as a bound, in the order of the predicates.
pub open spec fn declared_bounds(predicates: Seq<Seq<char>>) -> Seq<BoundModel> {
    predicates.map_values(|predicate: Seq<char>| BoundModel::Declared { predicate })
}

/// The where-clause of every handler generated from a block: the block's
/// own predicates, then a thread-safety bound for each of its type parameters.
pub open spec fn handler_bounds(block: BlockModel) -> Seq<BoundModel> {
    declared_bounds(block.where_clause) + thread_safety_bounds(
        type_parameter_names(block.generic_params),
    )
}

/// The identifier by which a result type is known to be fallible.
pub open spec fn fallible_keyword() -> Seq<char> {
    "Result"@
}

/// Whether a type is a fallible result: a path whose last segment is `Result`.
pub open spec fn is_fallible(ty: TypeModel) -> bool {
    match ty {
        TypeModel::Path { leading_colon, segments } => segments.len() > 0
            && segments.last().ident == fallible_keyword(),
        _ => false,
    }
}

/// Whether an argument of a message type counts as a type parameter of the
/// message's own declaration. This is a guess from the argument's shape: see
/// [`free_parameter_name`] for what it takes for one and what it misses.
pub fn is_free_type_parameter(arg: &GenericArg) -> (free: bool)
    ensures
        free == (free_parameter_name(arg.deep_view()) is Some),
{
    match arg {
        GenericArg::Type(TypeExpr::Path { leading_colon, segments }) => {
            proof {
                lemma_path_model(*leading_colon, *segments);
                if segments.len() == 1 {
                    lemma_segment_model(segments@[0]);
                }
            }
            !*leading_colon && segments.len() == 1 && segments[0].args.len() == 0
                && segments[0].ident.as_str().unicode_len() == 1
        },
        _ => false,
    }
}

/// The name of the type parameter that an argument stands for, if it counts
/// as one.
pub fn free_parameter(arg: &GenericArg) -> (name: Option<String>)
    ensures
        name.deep_view() == free_parameter_name(arg.deep_view()),
{
    if is_free_type_parameter(arg) {
        match arg {
            GenericArg::Type(TypeExpr::Path { leading_colon, segments }) => {
                proof {
                    lemma_path_model(*leading_colon, *segments);
                    if segments.len() == 1 {
                        lemma_segment_model(segments@[0]);
                    }
                }
                if segments.len() == 1 {
                    Some(segments[0].ident.clone())
                } else {
                    None
                }
            },
            _ => None,
        }
    } else {
        None
    }
}

/// The names of the arguments that count as type parameters, in order.
pub fn free_parameters(args: &Vec<GenericArg>) -> (names: Vec<String>)
    ensures
        names.deep_view() == args.deep_view().filter_map(
            |arg: ArgModel| free_parameter_name(arg),
        ),
{
    let ghost all = args.deep_view();
    let ghost pick = |arg: ArgModel| free_parameter_name(arg);
    let mut names: Vec<String> = Vec::new();
    let mut i: usize = 0;
    proof {
        lemma_take_ends(all);
        assert(names.deep_view() =~= Seq::<Seq<char>>::empty());
    }
    while i < args.len()
        invariant
            i <= args.len(),
            all == args.deep_view(),
            pick == |arg: ArgModel| free_parameter_name(arg),
            names.deep_view() == all.take(i as int).filter_map(pick),
        decreases args.len() - i,
    {
        proof {
            all.lemma_filter_map_take_succ(pick, i as int);
        }
        match free_parameter(&args[i]) {
            Some(name) => {
                let ghost before = names;
                names.push(name);
                proof {
                    lemma_deep_view_push(before, names, name);
                    assert(before.deep_view().push(name@) =~= before.deep_view() + seq![name@]);
                }
            },
            None => {
                assert(names.deep_view() + Seq::<Seq<char>>::empty() =~= names.deep_view());
            },
        }
        i += 1;
    }
    proof {
        lemma_take_ends(all);
    }
    names
}

/// The type parameters that the declaration of a message type declares for
/// itself.
pub fn local_generics(message_type: &TypeExpr) -> (names: Vec<String>)
    ensures
        names.deep_view() == message_local_generics(message_type.deep_view()),
{
    match message_type {
        TypeExpr::Path { leading_colon, segments } => {
            proof {
                lemma_path_model(*leading_colon, *segments);
            }
            let count: usize = segments.len();
            if count > 0 {
                proof {
                    lemma_segment_model(segments@[count - 1]);
                }
                return free_parameters(&segments[count - 1].args);
            }
        },
        _ => {},
    }
    let names: Vec<String> = Vec::new();
    assert(names.deep_view() =~= Seq::<Seq<char>>::empty());
    names
}

/// The names of the type parameters among a block's generic parameters.
pub fn type_parameters(params: &Vec<GenericParam>) -> (names: Vec<String>)
    ensures
        names.deep_view() == type_parameter_names(params.deep_view()),
{
    let ghost all = params.deep_view();
    let ghost pick = |param: GenericParamModel| type_parameter_name(param);
    let mut names: Vec<String> = Vec::new();
    let mut i: usize = 0;
    proof {
        lemma_take_ends(all);
        assert(names.deep_view() =~= Seq::<Seq<char>>::empty());
    }
    while i < params.len()
        invariant
            i <= params.len(),
            all == params.deep_view(),
            pick == |param: GenericParamModel| type_parameter_name(param),
            names.deep_view() == all.take(i as int).filter_map(pick),
        decreases params.len() - i,
    {
        proof {
            all.lemma_filter_map_take_succ(pick, i as int);
        }
        match &params[i] {
            GenericParam::Type { name, declaration } => {
                let ghost before = names;
                let copy = name.clone();
                names.push(copy);
                proof {
                    lemma_deep_view_push(before, names, copy);
                    assert(before.deep_view().push(copy@) =~= before.deep_view() + seq![copy@]);
                }
            },
            GenericParam::Inert { text } => {
                assert(names.deep_view() + Seq::<Seq<char>>::empty() =~= names.deep_view());
            },
        }
        i += 1;
    }
    proof {
        lemma_take_ends(all);
    }
    names
}

/// One thread-safety bound for each name, in the order of the names.
pub fn thread_safe(names: &Vec<String>) -> (bounds: Vec<Bound>)
    ensures
        bounds.deep_view() == thread_safety_bounds(names.deep_view()),
{
    let mut bounds: Vec<Bound> = Vec::new();
    let mut i: usize = 0;
    while i < names.len()
        invariant
            i <= names.len(),
            bounds.len() == i,
            forall|j: int|
                0 <= j < i ==> (#[trigger] bounds@[j]).deep_view() == (BoundModel::ThreadSafe {
                    param: names@[j]@,
                }),
        decreases names.len() - i,
    {
        bounds.push(Bound::ThreadSafe { param: names[i].clone() });
        i += 1;
    }
    assert(bounds.deep_view() =~= thread_safety_bounds(names.deep_view()));
    bounds
}

/// Each predicate of a where-clause as a bound, in order.
pub fn declared(predicates: &Vec<String>) -> (bounds: Vec<Bound>)
    ensures
        bounds.deep_view() == declared_bounds(predicates.deep_view()),
{
    let mut bounds: Vec<Bound> = Vec::new();
    let mut i: usize = 0;
    while i < predicates.len()
        invariant
            i <= predicates.len(),
            bounds.len() == i,
            forall|j: int|
                0 <= j < i ==> (#[trigger] bounds@[j]).deep_view() == (BoundModel::Declared {
                    predicate: predicates@[j]@,
                }),
        decreases predicates.len() - i,
    {
        bounds.push(Bound::Declared { predicate: predicates[i].clone() });
        i += 1;
    }
    assert(bounds.deep_view() =~= declared_bounds(predicates.deep_view()));
    bounds
}

/// The where-clause of every handler generated from a block.
pub fn bounds_of_handlers(block: &DeclarationBlock) -> (bounds: Vec<Bound>)
    ensures
        bounds.deep_view() == handler_bounds(block.deep_view()),
{
    let mut bounds = declared(&block.where_clause);
    let names = type_parameters(&block.generic_params);
    let mut added = thread_safe(&names);
    let ghost first = bounds;
    let ghost second = added;
    bounds.append(&mut added);
    proof {
        lemma_deep_view_concat(first, second, bounds);
    }
    bounds
}

/// Whether a result type is a fallible result.
pub fn fallible(ty: &TypeExpr) -> (fallible: bool)
    ensures
        fallible == is_fallible(ty.deep_view()),
{
    match ty {
        TypeExpr::Path { leading_colon, segments } => {
            proof {
                lemma_path_model(*leading_colon, *segments);
            }
            let count: usize = segments.len();
            if count == 0 {
                return false;
            }
            proof {
                lemma_segment_model(segments@[count - 1]);
            }
            text_is(&segments[count - 1].ident, "Result")
        },
        _ => false,
    }
}

} // verus!
