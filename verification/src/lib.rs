//! Expansion of handler method blocks into message and handler declarations
//! for an actor dispatch protocol.
//!
//! An author writes an implementation block with one method for each message
//! that a type handles. [`xtra_productivity`] turns such a block into the
//! declarations that the dispatch protocol asks for: for each method, the
//! declaration of its message type with the type of its result, and the
//! implementation of the handler for that message, which carries the method's
//! body over unchanged.

pub mod attributes;
pub mod block;
pub mod bounds;
pub mod error;
pub mod expander;
pub mod laws;
pub mod output;
pub mod seqs;
pub mod types;

use crate::attributes::{configured_message_impl, wants_message_type_decl, ConfigOption, ConfigOptionModel};
use crate::block::{BlockModel, DeclarationBlock};
use crate::error::TransformError;
use crate::expander::{expand_block, expansion_of_methods};
use crate::output::{OutputDeclaration, OutputModel};
use vstd::prelude::*;

verus! {

/// What a block expands to under a configuration: the error of the
/// configuration where it cannot be read; else the expansions of the block's
/// methods, in their order, or the error of the first method that cannot be
/// expanded.
pub open spec fn expansion(config: Seq<ConfigOptionModel>, block: BlockModel) -> Result<
    Seq<OutputModel>,
    TransformError,
> {
    match configured_message_impl(config) {
        Err(error) => Err(error),
        Ok(with_message_decl) => expansion_of_methods(block, block.methods, with_message_decl),
    }
}

/// Expands a block of handler methods under a configuration. The
/// configuration is the list of options written with the request for the
/// expansion, empty where none was written.
///
/// On success the declarations replace the block. On failure there is
/// nothing to replace it with.
pub fn xtra_productivity(config: &Vec<ConfigOption>, block: &DeclarationBlock) -> (outcome: Result<
    Vec<OutputDeclaration>,
    TransformError,
>)
    ensures
        match outcome {
            Ok(declarations) => expansion(config.deep_view(), block.deep_view()) == Ok::<
                Seq<OutputModel>,
                TransformError,
            >(declarations.deep_view()),
            Err(error) => expansion(config.deep_view(), block.deep_view()) == Err::<
                Seq<OutputModel>,
                TransformError,
            >(error),
        },
{
    match wants_message_type_decl(config) {
        Err(error) => Err(error),
        Ok(with_message_decl) => expand_block(block, with_message_decl),
    }
}

} // verus!
