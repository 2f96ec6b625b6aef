//! The signature validator: decides whether a payload type signature is
//! internally balanced, and whether it is wrapped in one outer parenthesis
//! pair with a balanced interior.

use vstd::prelude::*;
use vstd::string::StrSliceExecFns;

verus! {

/// One step of the left-to-right scan: the nesting counter goes up on '(',
/// down on ')' only while it is positive (an extra close is ignored, not an
/// error), and is untouched by every other character.
pub open spec fn scan_step(count: nat, ch: char) -> nat {
    if ch == '(' {
        count + 1
    } else if ch == ')' && count > 0 {
        (count - 1) as nat
    } else {
        count
    }
}

/// The nesting counter after scanning all of `s` left to right, starting
/// from `count`.
pub open spec fn paren_scan(s: Seq<char>, count: nat) -> nat
    decreases s.len(),
{
    if s.len() == 0 {
        count
    } else {
        paren_scan(s.drop_first(), scan_step(count, s[0]))
    }
}

/// A signature is balanced when the scan, started at zero, ends at zero.
/// The counter can never go below zero, since `scan_step` leaves a zero
/// counter unchanged on ')'.
pub open spec fn balanced(s: Seq<char>) -> bool {
    paren_scan(s, 0) == 0
}

/// A signature is outer-grouped when it starts with '(', ends with ')',
/// and the substring strictly between the two is balanced.
pub open spec fn outer_grouped(s: Seq<char>) -> bool {
    &&& s.len() >= 2
    &&& s[0] == '('
    &&& s[s.len() - 1] == ')'
    &&& balanced(s.subrange(1, s.len() - 1))
}

/// Scanning a concatenation scans the first part, then the second from the
/// counter the first part left behind.
proof fn lemma_scan_concat(s: Seq<char>, t: Seq<char>, count: nat)
    ensures
        paren_scan(s + t, count) == paren_scan(t, paren_scan(s, count)),
    decreases s.len(),
{
    if s.len() == 0 {
        assert(s + t =~= t);
    } else {
        assert((s + t).drop_first() =~= s.drop_first() + t);
        lemma_scan_concat(s.drop_first(), t, scan_step(count, s[0]));
    }
}

/// Raising the starting counter by one raises the final counter by one, or
/// leaves it unchanged (the extra open may absorb a close that a zero
/// counter would have ignored).
proof fn lemma_scan_raised(s: Seq<char>, count: nat)
    ensures
        paren_scan(s, count + 1) == paren_scan(s, count) || paren_scan(s, count + 1)
            == paren_scan(s, count) + 1,
    decreases s.len(),
{
    if s.len() > 0 {
        lemma_scan_raised(s.drop_first(), scan_step(count, s[0]));
    }
}

/// Scanning a single character is one step.
proof fn lemma_scan_single(ch: char, count: nat)
    ensures
        paren_scan(seq![ch], count) == scan_step(count, ch),
{
    assert(seq![ch].drop_first() =~= Seq::<char>::empty());
    assert(paren_scan(seq![ch], count) == paren_scan(
        seq![ch].drop_first(),
        scan_step(count, seq![ch][0]),
    ));
}

/// Law: every outer-grouped signature is balanced. (The converse fails:
/// a concatenation of two groups is balanced without being outer-grouped.)
pub proof fn lemma_outer_grouped_implies_balanced(s: Seq<char>)
    requires
        outer_grouped(s),
    ensures
        balanced(s),
{
    let n = s.len() as int;
    let mid = s.subrange(1, n - 1);
    let close = seq![')'];
    assert(s.drop_first() =~= mid + close);
    lemma_scan_concat(mid, close, 1);
    lemma_scan_raised(mid, 0);
    lemma_scan_single(')', 0);
    lemma_scan_single(')', 1);
}

/// Whether the signature's parentheses are balanced: scanned left to right,
/// the nesting counter (which ignores a close at level zero) ends at zero.
pub fn has_balanced_parentheses(signature_str: &str) -> (r: bool)
    ensures
        r == balanced(signature_str@),
{
    let n: usize = signature_str.unicode_len();
    let mut count: usize = 0;
    let mut i: usize = 0;
    proof {
        assert(signature_str@.subrange(0, n as int) =~= signature_str@);
    }
    while i < n
        invariant
            i <= n,
            count <= i,
            n == signature_str@.len(),
            paren_scan(signature_str@.subrange(i as int, n as int), count as nat) == paren_scan(
                signature_str@,
                0,
            ),
        decreases n - i,
    {
        let ch = signature_str.get_char(i);
        proof {
            let rest = signature_str@.subrange(i as int, n as int);
            assert(rest.drop_first() =~= signature_str@.subrange(i as int + 1, n as int));
        }
        if ch == '(' {
            count = count + 1;
        } else if ch == ')' && count != 0 {
            count = count - 1;
        }
        i = i + 1;
    }
    proof {
        assert(signature_str@.subrange(n as int, n as int) =~= Seq::<char>::empty());
    }
    count == 0
}

/// Whether the signature is outer-grouped: it begins with '(', ends with
/// ')', and the substring between the two is balanced. A signature such as
/// "(so)(av)" is balanced but not outer-grouped; "(so(av))" is both.
pub fn has_outer_parentheses(sig_str: &str) -> (r: bool)
    ensures
        r == outer_grouped(sig_str@),
{
    let n: usize = sig_str.unicode_len();
    if n < 2 {
        return false;
    }
    if sig_str.get_char(0) != '(' {
        return false;
    }
    if sig_str.get_char(n - 1) != ')' {
        return false;
    }
    let middle = sig_str.substring_char(1, n - 1);
    has_balanced_parentheses(middle)
}

} // verus!
