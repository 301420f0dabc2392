//! Reading the configuration of an expansion and the annotations of a method.

use crate::block::{ends_in, names, Annotation, AnnotationModel, SimplePath, SimplePathModel};
use crate::error::TransformError;
use crate::seqs::{lemma_deep_view_push, lemma_filter_empty, lemma_take_ends, lemma_take_next};
use vstd::prelude::*;

verus! {

/// The value written for an option of the configuration.
#[derive(Debug, Clone, Copy, PartialEq, Eq)]
pub enum ConfigValue {
    /// The literal `true` or `false`.
    Bool(bool),
    /// Anything else.
    Other,
}

/// One `name = value` option of the configuration: the path written as the
/// name, and the value.
#[derive(Debug, PartialEq, Eq)]
pub struct ConfigOption {
    pub path: SimplePath,
    pub value: ConfigValue,
}

/// The mathematical value of a [`ConfigOption`].
pub struct ConfigOptionModel {
    pub path: SimplePathModel,
    pub value: ConfigValue,
}

impl DeepView for ConfigOption {
    type V = ConfigOptionModel;

    open spec fn deep_view(&self) -> ConfigOptionModel {
        ConfigOptionModel { path: self.path.deep_view(), value: self.value }
    }
}

/// The name of the option that switches message type declarations on or off.
pub open spec fn message_impl_keyword() -> Seq<char> {
    "message_impl"@
}

/// The name of the annotation that asks for a handler to run as blocking work.
pub open spec fn blocking_keyword() -> Seq<char> {
    "blocking_handler"@
}

/// The last identifier of the path of an instrumentation annotation.
pub open spec fn instrument_keyword() -> Seq<char> {
    "instrument"@
}

/// What a configuration says of message type declarations. An empty
/// configuration asks for them. Otherwise it must be the single option
/// `message_impl` with a boolean value, which is the answer.
pub open spec fn configured_message_impl(options: Seq<ConfigOptionModel>) -> Result<
    bool,
    TransformError,
> {
    if options.len() == 0 {
        Ok(true)
    } else if options.len() > 1 {
        Err(TransformError::MultipleOptions)
    } else if options[0].path.leading_colon || options[0].path.segments.len() != 1 {
        Err(TransformError::OptionNotIdentifier)
    } else if !names(options[0].path, message_impl_keyword()) {
        Err(TransformError::UnknownOption)
    } else {
        match options[0].value {
            ConfigValue::Bool(wanted) => Ok(wanted),
            ConfigValue::Other => Err(TransformError::ValueNotBoolean),
        }
    }
}

/// Whether a configuration is the single option `message_impl` with the
/// given boolean value.
pub open spec fn sets_message_impl(options: Seq<ConfigOptionModel>, wanted: bool) -> bool {
    options.len() == 1 && names(options[0].path, message_impl_keyword()) && options[0].value
        == ConfigValue::Bool(wanted)
}

/// Whether an annotation is the one that asks for blocking work: its path is
/// the single identifier `blocking_handler`.
pub open spec fn is_blocking_marker(annotation: AnnotationModel) -> bool {
    names(annotation.path, blocking_keyword())
}

/// Whether an annotation is an instrumentation annotation: its path ends in
/// the identifier `instrument`.
pub open spec fn is_instrumentation_marker(annotation: AnnotationModel) -> bool {
    ends_in(annotation.path, instrument_keyword())
}

/// Whether some annotation asks for blocking work.
pub open spec fn blocking_requested(annotations: Seq<AnnotationModel>) -> bool {
    exists|i: int| 0 <= i < annotations.len() && is_blocking_marker(#[trigger] annotations[i])
}

/// Whether a trace span is to be added: no annotation asks for one already.
pub open spec fn instrumentation_requested(annotations: Seq<AnnotationModel>) -> bool {
    forall|i: int|
        0 <= i < annotations.len() ==> !is_instrumentation_marker(#[trigger] annotations[i])
}

/// The test that keeps every annotation but the one that asks for blocking work.
pub open spec fn passes_through() -> spec_fn(AnnotationModel) -> bool {
    |annotation: AnnotationModel| !is_blocking_marker(annotation)
}

/// The annotations that the generated handler carries: those of the method,
/// in their order, without the ones that ask for blocking work.
pub open spec fn passed_annotations(annotations: Seq<AnnotationModel>) -> Seq<AnnotationModel> {
    annotations.filter(passes_through())
}

/// Whether the configuration asks for message type declarations, or why it
/// cannot be read.
pub fn wants_message_type_decl(config: &Vec<ConfigOption>) -> (outcome: Result<
    bool,
    TransformError,
>)
    ensures
        outcome == configured_message_impl(config.deep_view()),
{
    if config.len() == 0 {
        return Ok(true);
    }
    if config.len() > 1 {
        return Err(TransformError::MultipleOptions);
    }
    let option = &config[0];
    assert(config.deep_view()[0] == option.deep_view());
    if option.path.leading_colon || option.path.segments.len() != 1 {
        return Err(TransformError::OptionNotIdentifier);
    }
    if !option.path.is_ident("message_impl") {
        return Err(TransformError::UnknownOption);
    }
    match option.value {
        ConfigValue::Bool(wanted) => Ok(wanted),
        ConfigValue::Other => Err(TransformError::ValueNotBoolean),
    }
}

impl Annotation {
    /// Whether this annotation asks for the handler to run as blocking work.
    pub fn is_blocking(&self) -> (blocking: bool)
        ensures
            blocking == is_blocking_marker(self.deep_view()),
    {
        self.path.is_ident("blocking_handler")
    }

    /// Whether this annotation is an instrumentation annotation.
    pub fn is_instrumentation(&self) -> (instrumentation: bool)
        ensures
            instrumentation == is_instrumentation_marker(self.deep_view()),
    {
        self.path.ends_with("instrument")
    }
}

/// Whether some annotation of a method asks for blocking work.
pub fn wants_blocking(annotations: &Vec<Annotation>) -> (blocking: bool)
    ensures
        blocking == blocking_requested(annotations.deep_view()),
{
    let mut i: usize = 0;
    while i < annotations.len()
        invariant
            i <= annotations.len(),
            forall|j: int| 0 <= j < i ==> !is_blocking_marker(#[trigger] annotations.deep_view()[j]),
        decreases annotations.len() - i,
    {
        assert(annotations.deep_view()[i as int] == annotations@[i as int].deep_view());
        if annotations[i].is_blocking() {
            return true;
        }
        i += 1;
    }
    false
}

/// Whether a trace span is to be added to a method's handler.
pub fn wants_instrumentation(annotations: &Vec<Annotation>) -> (instrument: bool)
    ensures
        instrument == instrumentation_requested(annotations.deep_view()),
{
    let mut i: usize = 0;
    while i < annotations.len()
        invariant
            i <= annotations.len(),
            forall|j: int|
                0 <= j < i ==> !is_instrumentation_marker(#[trigger] annotations.deep_view()[j]),
        decreases annotations.len() - i,
    {
        assert(annotations.deep_view()[i as int] == annotations@[i as int].deep_view());
        if annotations[i].is_instrumentation() {
            return false;
        }
        i += 1;
    }
    true
}

/// The annotations that a method hands on to its handler.
pub fn remaining_annotations(annotations: &Vec<Annotation>) -> (kept: Vec<Annotation>)
    ensures
        kept.deep_view() == passed_annotations(annotations.deep_view()),
{
    let ghost all = annotations.deep_view();
    let mut kept: Vec<Annotation> = Vec::new();
    let mut i: usize = 0;
    proof {
        lemma_take_ends(all);
        lemma_filter_empty(passes_through());
        assert(kept.deep_view() =~= Seq::<AnnotationModel>::empty());
    }
    while i < annotations.len()
        invariant
            i <= annotations.len(),
            all == annotations.deep_view(),
            kept.deep_view() == all.take(i as int).filter(passes_through()),
        decreases annotations.len() - i,
    {
        proof {
            lemma_take_next(all, i as int);
            all.take(i as int).lemma_filter_push(all[i as int], passes_through());
        }
        if !annotations[i].is_blocking() {
            let ghost before = kept;
            let annotation = annotations[i].clone();
            kept.push(annotation);
            proof {
                lemma_deep_view_push(before, kept, annotation);
            }
        }
        i += 1;
    }
    proof {
        lemma_take_ends(all);
    }
    kept
}

} // verus!
