use sigwatch::filter::{should_inspect, MessageKind};

#[test]
fn non_signal_kinds_are_never_selected() {
    // Even with an outer-grouped signature, only signals pass.
    assert!(!should_inspect(MessageKind::MethodCall, "(so(av))"));
    assert!(!should_inspect(MessageKind::MethodReturn, "(so(av))"));
    assert!(!should_inspect(MessageKind::Error, "(so(av))"));
}

#[test]
fn signal_with_balanced_but_not_outer_grouped_signature_is_excluded() {
    assert!(!should_inspect(MessageKind::Signal, "(so)(av)"));
}

#[test]
fn signal_with_outer_grouped_signature_is_selected() {
    assert!(should_inspect(MessageKind::Signal, "(so(av))"));
}

#[test]
fn signal_with_plain_signature_is_excluded() {
    assert!(!should_inspect(MessageKind::Signal, "sov"));
    assert!(!should_inspect(MessageKind::Signal, ""));
}
