use xtra_productivity::attributes::{
    remaining_annotations, wants_blocking, wants_instrumentation, wants_message_type_decl,
    ConfigOption, ConfigValue,
};
use xtra_productivity::block::{
    clone_generic_params, text_is, Annotation, GenericParam, Param, SimplePath,
};
use xtra_productivity::bounds::{
    declared, fallible, free_parameter, free_parameters, is_free_type_parameter, local_generics,
    thread_safe, type_parameters,
};
use xtra_productivity::error::TransformError;
use xtra_productivity::output::Bound;
use xtra_productivity::seqs::clone_strings;
use xtra_productivity::types::{clone_args, clone_segments, GenericArg, PathSegment, TypeExpr};

fn segment(ident: &str, args: Vec<GenericArg>) -> PathSegment {
    PathSegment { ident: ident.to_string(), args }
}

fn path(segments: Vec<PathSegment>) -> TypeExpr {
    TypeExpr::Path { leading_colon: false, segments }
}

fn plain(ident: &str) -> TypeExpr {
    path(vec![segment(ident, vec![])])
}

fn simple_path(segments: &[&str]) -> SimplePath {
    SimplePath {
        leading_colon: false,
        segments: segments.iter().map(|part| part.to_string()).collect(),
    }
}

fn type_arg(ident: &str) -> GenericArg {
    GenericArg::Type(plain(ident))
}

fn marker(path: &[&str]) -> Annotation {
    Annotation { path: simple_path(path), arguments: String::new() }
}

fn option(path: &[&str], value: ConfigValue) -> ConfigOption {
    ConfigOption { path: simple_path(path), value }
}

#[test]
fn single_character_path_is_a_free_parameter() {
    assert!(is_free_type_parameter(&type_arg("T")));
    assert_eq!(free_parameter(&type_arg("T")), Some("T".to_string()));
}

#[test]
fn longer_identifier_is_concrete() {
    assert!(!is_free_type_parameter(&type_arg("Response")));
    assert!(!is_free_type_parameter(&type_arg("Tx")));
    assert_eq!(free_parameter(&type_arg("Response")), None);
}

#[test]
fn multi_segment_path_is_concrete() {
    let qualified = GenericArg::Type(path(vec![segment("m", vec![]), segment("T", vec![])]));
    assert!(!is_free_type_parameter(&qualified));
    assert_eq!(free_parameter(&qualified), None);
}

#[test]
fn nested_generic_argument_is_concrete() {
    let nested = GenericArg::Type(path(vec![segment("Vec", vec![type_arg("T")])]));
    assert!(!is_free_type_parameter(&nested));
    let message = path(vec![segment("Batch", vec![nested])]);
    assert_eq!(local_generics(&message), Vec::<String>::new());
}

#[test]
fn single_character_path_with_arguments_is_concrete() {
    let applied = GenericArg::Type(path(vec![segment("F", vec![type_arg("u8")])]));
    assert!(!is_free_type_parameter(&applied));
}

#[test]
fn arguments_that_are_not_paths_are_concrete() {
    assert!(!is_free_type_parameter(&GenericArg::Opaque("'a".to_string())));
    assert!(!is_free_type_parameter(&GenericArg::Opaque("3".to_string())));
    assert!(!is_free_type_parameter(&GenericArg::Type(TypeExpr::Unit)));
    assert!(!is_free_type_parameter(&GenericArg::Type(TypeExpr::Opaque { text: "&T".to_string() })));
    assert!(!is_free_type_parameter(&GenericArg::Type(path(vec![]))));
}

#[test]
fn one_character_counts_whatever_its_width() {
    assert!(is_free_type_parameter(&type_arg("é")));
    assert!(!is_free_type_parameter(&type_arg("")));
}

#[test]
fn free_parameters_keep_their_order_and_repeats() {
    let args = vec![
        type_arg("K"),
        GenericArg::Opaque("'a".to_string()),
        type_arg("Response"),
        type_arg("V"),
        type_arg("K"),
    ];
    assert_eq!(
        free_parameters(&args),
        vec!["K".to_string(), "V".to_string(), "K".to_string()]
    );
}

#[test]
fn local_generics_read_the_last_segment_only() {
    let message = path(vec![
            segment("proto", vec![type_arg("A")]),
            segment("Envelope", vec![type_arg("T"), type_arg("Response")]),
        ]);
    assert_eq!(local_generics(&message), vec!["T".to_string()]);
    assert_eq!(local_generics(&plain("Ping")), Vec::<String>::new());
    assert_eq!(local_generics(&TypeExpr::Unit), Vec::<String>::new());
    assert_eq!(
        local_generics(&TypeExpr::Opaque { text: "(T, U)".to_string() }),
        Vec::<String>::new()
    );
    assert_eq!(local_generics(&path(vec![])), Vec::<String>::new());
}

#[test]
fn type_parameters_skip_lifetimes_and_constants() {
    let params = vec![
        GenericParam::Inert { text: "'a".to_string() },
        GenericParam::Type { name: "Key".to_string(), declaration: "Key: Ord".to_string() },
        GenericParam::Inert { text: "const N: usize".to_string() },
        GenericParam::Type { name: "V".to_string(), declaration: "V".to_string() },
    ];
    assert_eq!(type_parameters(&params), vec!["Key".to_string(), "V".to_string()]);
    assert_eq!(type_parameters(&vec![]), Vec::<String>::new());
}

#[test]
fn bounds_are_built_one_for_one() {
    let names = vec!["A".to_string(), "B".to_string()];
    assert_eq!(
        thread_safe(&names),
        vec![
            Bound::ThreadSafe { param: "A".to_string() },
            Bound::ThreadSafe { param: "B".to_string() },
        ]
    );
    assert_eq!(
        declared(&names),
        vec![
            Bound::Declared { predicate: "A".to_string() },
            Bound::Declared { predicate: "B".to_string() },
        ]
    );
}

#[test]
fn fallible_types_end_in_result() {
    assert!(fallible(&plain("Result")));
    assert!(fallible(&path(vec![segment("std", vec![]), segment("io", vec![]), segment("Result", vec![type_arg("u8")])])));
    assert!(!fallible(&plain("Outcome")));
    assert!(!fallible(&path(vec![segment("Result", vec![]), segment("Inner", vec![])])));
    assert!(!fallible(&TypeExpr::Unit));
    assert!(!fallible(&TypeExpr::Opaque { text: "Result".to_string() }));
    assert!(!fallible(&path(vec![])));
}

#[test]
fn absent_configuration_wants_message_decls() {
    assert_eq!(wants_message_type_decl(&vec![]), Ok(true));
}

#[test]
fn message_impl_option_is_read() {
    assert_eq!(
        wants_message_type_decl(&vec![option(&["message_impl"], ConfigValue::Bool(false))]),
        Ok(false)
    );
    assert_eq!(
        wants_message_type_decl(&vec![option(&["message_impl"], ConfigValue::Bool(true))]),
        Ok(true)
    );
}

#[test]
fn several_options_are_refused() {
    let config = vec![
        option(&["message_impl"], ConfigValue::Bool(true)),
        option(&["message_impl"], ConfigValue::Bool(true)),
    ];
    assert_eq!(wants_message_type_decl(&config), Err(TransformError::MultipleOptions));
}

#[test]
fn option_path_must_be_one_identifier() {
    assert_eq!(
        wants_message_type_decl(&vec![option(&["xtra", "message_impl"], ConfigValue::Bool(true))]),
        Err(TransformError::OptionNotIdentifier)
    );
    assert_eq!(
        wants_message_type_decl(&vec![option(&[], ConfigValue::Bool(true))]),
        Err(TransformError::OptionNotIdentifier)
    );
}

#[test]
fn unknown_option_is_refused() {
    assert_eq!(
        wants_message_type_decl(&vec![option(&["message_impls"], ConfigValue::Bool(true))]),
        Err(TransformError::UnknownOption)
    );
    assert_eq!(
        wants_message_type_decl(&vec![option(&["verbose"], ConfigValue::Other)]),
        Err(TransformError::UnknownOption)
    );
}

#[test]
fn option_value_must_be_boolean() {
    assert_eq!(
        wants_message_type_decl(&vec![option(&["message_impl"], ConfigValue::Other)]),
        Err(TransformError::ValueNotBoolean)
    );
}

#[test]
fn blocking_marker_is_a_single_identifier() {
    assert!(marker(&["blocking_handler"]).is_blocking());
    assert!(!marker(&["xtra", "blocking_handler"]).is_blocking());
    assert!(!marker(&["blocking"]).is_blocking());
    assert!(!marker(&[]).is_blocking());
    let with_arguments = Annotation {
        path: simple_path(&["blocking_handler"]),
        arguments: "(pool = 2)".to_string(),
    };
    assert!(with_arguments.is_blocking());
}

#[test]
fn instrumentation_marker_is_the_last_identifier() {
    assert!(marker(&["instrument"]).is_instrumentation());
    assert!(marker(&["tracing", "instrument"]).is_instrumentation());
    assert!(!marker(&["instrument", "skip"]).is_instrumentation());
    assert!(!marker(&["instrumented"]).is_instrumentation());
    assert!(!marker(&[]).is_instrumentation());
}

#[test]
fn flags_are_read_from_the_annotations() {
    let none: Vec<Annotation> = vec![];
    assert!(!wants_blocking(&none));
    assert!(wants_instrumentation(&none));
    let both = vec![marker(&["inline"]), marker(&["instrument"]), marker(&["blocking_handler"])];
    assert!(wants_blocking(&both));
    assert!(!wants_instrumentation(&both));
    let neither = vec![marker(&["inline"]), marker(&["doc"])];
    assert!(!wants_blocking(&neither));
    assert!(wants_instrumentation(&neither));
}

#[test]
fn remaining_annotations_drop_every_blocking_marker() {
    let annotations = vec![
        marker(&["blocking_handler"]),
        marker(&["inline"]),
        marker(&["blocking_handler"]),
        marker(&["instrument"]),
    ];
    assert_eq!(
        remaining_annotations(&annotations),
        vec![marker(&["inline"]), marker(&["instrument"])]
    );
    assert_eq!(remaining_annotations(&vec![]), Vec::<Annotation>::new());
}

#[test]
fn text_is_compares_whole_strings() {
    assert!(text_is(&"message_impl".to_string(), "message_impl"));
    assert!(!text_is(&"message_imp".to_string(), "message_impl"));
    assert!(!text_is(&"Message_impl".to_string(), "message_impl"));
    assert!(text_is(&String::new(), ""));
}

#[test]
fn copies_are_equal_to_what_was_copied() {
    let ty = path(vec![
            segment("proto", vec![]),
            segment(
                "Envelope",
                vec![
                    type_arg("T"),
                    GenericArg::Opaque("'a".to_string()),
                    GenericArg::Type(path(vec![segment("Vec", vec![GenericArg::Type(TypeExpr::Unit)])])),
                    GenericArg::Type(TypeExpr::Opaque { text: "&str".to_string() }),
                ],
            ),
        ]);
    assert_eq!(ty.clone(), ty);
    if let TypeExpr::Path { segments, .. } = &ty {
        assert_eq!(&clone_segments(segments), segments);
        assert_eq!(segments[1].clone(), segments[1]);
        assert_eq!(clone_args(&segments[1].args), segments[1].args);
        assert_eq!(segments[1].args[0].clone(), type_arg("T"));
    }
    let typed = Param::Typed { pattern: "msg".to_string(), ty };
    assert_eq!(typed.clone(), typed);
    assert_eq!(Param::Receiver.clone(), Param::Receiver);
    let annotation = Annotation {
        path: SimplePath {
            leading_colon: true,
            segments: vec!["tracing".to_string(), "instrument".to_string()],
        },
        arguments: "(skip_all)".to_string(),
    };
    assert_eq!(annotation.clone(), annotation);
    let params = vec![
        GenericParam::Type { name: "T".to_string(), declaration: "T: Clone".to_string() },
        GenericParam::Inert { text: "'a".to_string() },
    ];
    assert_eq!(clone_generic_params(&params), params);
    let strings = vec!["a".to_string(), String::new(), "b c".to_string()];
    assert_eq!(clone_strings(&strings), strings);
}

#[test]
fn path_with_leading_colon_is_concrete() {
    let rooted = GenericArg::Type(TypeExpr::Path {
        leading_colon: true,
        segments: vec![segment("T", vec![])],
    });
    assert!(!is_free_type_parameter(&rooted));
    assert_eq!(free_parameter(&rooted), None);
    assert_eq!(rooted.clone(), rooted);
}

#[test]
fn leading_colon_does_not_hide_a_fallible_result() {
    assert!(fallible(&TypeExpr::Path {
        leading_colon: true,
        segments: vec![segment("std", vec![]), segment("result", vec![]), segment("Result", vec![])],
    }));
}

#[test]
fn simple_path_is_ident_asks_for_one_bare_segment() {
    assert!(simple_path(&["message_impl"]).is_ident("message_impl"));
    assert!(!simple_path(&["message_impl"]).is_ident("message"));
    assert!(!simple_path(&["a", "message_impl"]).is_ident("message_impl"));
    assert!(!simple_path(&[]).is_ident(""));
    let rooted = SimplePath { leading_colon: true, segments: vec!["message_impl".to_string()] };
    assert!(!rooted.is_ident("message_impl"));
    assert_eq!(rooted.clone(), rooted);
}

#[test]
fn simple_path_ends_with_reads_the_last_segment() {
    assert!(simple_path(&["tracing", "instrument"]).ends_with("instrument"));
    assert!(simple_path(&["instrument"]).ends_with("instrument"));
    assert!(!simple_path(&["instrument", "tracing"]).ends_with("instrument"));
    assert!(!simple_path(&[]).ends_with("instrument"));
    let rooted = SimplePath {
        leading_colon: true,
        segments: vec!["tracing".to_string(), "instrument".to_string()],
    };
    assert!(rooted.ends_with("instrument"));
}

#[test]
fn rooted_markers_are_told_apart() {
    let rooted = Annotation {
        path: SimplePath { leading_colon: true, segments: vec!["blocking_handler".to_string()] },
        arguments: String::new(),
    };
    assert!(!rooted.is_blocking());
    let instrument = Annotation {
        path: SimplePath { leading_colon: true, segments: vec!["instrument".to_string()] },
        arguments: String::new(),
    };
    assert!(instrument.is_instrumentation());
}

#[test]
fn every_error_has_its_own_description() {
    let errors = [
        TransformError::MultipleOptions,
        TransformError::OptionNotIdentifier,
        TransformError::UnknownOption,
        TransformError::ValueNotBoolean,
        TransformError::MissingMessageParameter { method: 0 },
        TransformError::ReceiverAsMessage { method: 0 },
    ];
    for (i, first) in errors.iter().enumerate() {
        assert!(!first.describe().is_empty());
        for second in errors.iter().skip(i + 1) {
            assert_ne!(first.describe(), second.describe());
        }
    }
    assert_eq!(
        TransformError::ReceiverAsMessage { method: 4 }.describe(),
        "cannot have receiver on second position"
    );
    assert_eq!(
        TransformError::UnknownOption.describe(),
        "unknown option, expected `message_impl`"
    );
    assert_eq!(
        TransformError::MissingMessageParameter { method: 2 }.describe(),
        TransformError::MissingMessageParameter { method: 9 }.describe()
    );
}
