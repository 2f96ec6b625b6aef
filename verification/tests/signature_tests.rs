use sigwatch::signature::{has_balanced_parentheses, has_outer_parentheses};

#[test]
fn empty_string_is_balanced_but_not_outer_grouped() {
    assert!(has_balanced_parentheses(""));
    assert!(!has_outer_parentheses(""));
}

#[test]
fn single_open_ends_with_positive_counter() {
    assert!(!has_balanced_parentheses("("));
    assert!(!has_outer_parentheses("("));
}

#[test]
fn single_close_is_ignored_and_balanced() {
    assert!(has_balanced_parentheses(")"));
    assert!(!has_outer_parentheses(")"));
}

#[test]
fn unmatched_open_is_not_balanced() {
    assert!(!has_balanced_parentheses("((a)"));
}

#[test]
fn two_groups_are_balanced_but_not_outer_grouped() {
    assert!(has_balanced_parentheses("(so)(av)"));
    assert!(!has_outer_parentheses("(so)(av)"));
}

#[test]
fn nested_group_is_balanced_and_outer_grouped() {
    assert!(has_balanced_parentheses("(so(av))"));
    assert!(has_outer_parentheses("(so(av))"));
}

#[test]
fn plain_text_is_balanced_but_not_outer_grouped() {
    assert!(has_balanced_parentheses("sov"));
    assert!(!has_outer_parentheses("sov"));
}

#[test]
fn empty_pair_is_balanced_and_outer_grouped() {
    assert!(has_balanced_parentheses("()"));
    assert!(has_outer_parentheses("()"));
}

#[test]
fn close_then_open_is_not_balanced() {
    // The leading close is ignored at counter zero; the open is never matched.
    assert!(!has_balanced_parentheses(")("));
    assert!(!has_outer_parentheses(")("));
}

#[test]
fn extra_closes_are_ignored_not_counted() {
    // Both closes after the matched pair meet a zero counter and are ignored,
    // so the string is balanced; its interior "a))" is balanced the same way,
    // so it is even outer-grouped.
    assert!(has_balanced_parentheses("(a)))"));
    assert!(has_outer_parentheses("(a)))"));
}

#[test]
fn outer_pair_around_unbalanced_interior_is_not_outer_grouped() {
    // Stripping the outer pair of "(so)(av)" leaves "so)(av": the close is
    // ignored and the open stays unmatched.
    assert!(!has_outer_parentheses("(so)(av)"));
    // Stripping "((a)" of nothing: it fails the first/last test already.
    assert!(!has_outer_parentheses("((a)"));
}

#[test]
fn deeply_nested_signature() {
    assert!(has_balanced_parentheses("(a(b(c)d)e)"));
    assert!(has_outer_parentheses("(a(b(c)d)e)"));
}
