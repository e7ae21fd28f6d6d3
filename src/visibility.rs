//! Stripping a leading visibility qualifier, and putting another in its place.
use vstd::prelude::*;

use crate::tokens::{is_paren_group, is_pub_keyword, Delimiter, TokenTree};

verus! {

/// Whether a token sequence opens with the `pub` identifier.
pub open spec fn starts_with_pub(s: Seq<TokenTree>) -> bool {
    s.len() > 0 && is_pub_keyword(s[0])
}

/// Whether a token sequence opens with a parenthesised group.
pub open spec fn starts_with_paren_group(s: Seq<TokenTree>) -> bool {
    s.len() > 0 && is_paren_group(s[0])
}

/// The tokens with at most one leading visibility qualifier taken off:
/// a leading `pub`, and the parenthesised group right after it if there is one.
/// The group's contents are never looked at.
pub open spec fn stripped(s: Seq<TokenTree>) -> Seq<TokenTree> {
    if starts_with_pub(s) {
        if starts_with_paren_group(s.skip(1)) {
            s.skip(2)
        } else {
            s.skip(1)
        }
    } else {
        s
    }
}

/// The replacement tokens followed by the item with its qualifier stripped.
pub open spec fn rewritten(replacement: Seq<TokenTree>, item: Seq<TokenTree>) -> Seq<TokenTree> {
    replacement + stripped(item)
}

fn is_pub_token(t: &TokenTree) -> (r: bool)
    ensures
        r == is_pub_keyword(*t),
{
    match t {
        TokenTree::Ident(text) => {
            let keyword: String = "pub".to_owned();
            *text == keyword
        },
        _ => false,
    }
}

fn is_paren_token(t: &TokenTree) -> (r: bool)
    ensures
        r == is_paren_group(*t),
{
    match t {
        TokenTree::Group(d, _) => *d == Delimiter::Parenthesis,
        _ => false,
    }
}

/// Removes the visibility qualifier that leads `input`, if any: a `pub`,
/// together with a parenthesised group that directly follows it.
/// Everything else is kept, in order.
pub fn remove_visibility(input: Vec<TokenTree>) -> (r: Vec<TokenTree>)
    ensures
        r@ == stripped(input@),
        !starts_with_pub(input@) ==> r@ == input@,
{
    let mut rest = input;
    if rest.len() == 0 || !is_pub_token(&rest[0]) {
        return rest;
    }
    let _keyword = rest.remove(0);
    assert(rest@ == input@.skip(1));
    if rest.len() > 0 && is_paren_token(&rest[0]) {
        let _group = rest.remove(0);
        assert(rest@ == input@.skip(2));
    }
    rest
}

/// Replaces the visibility qualifier of `annotated_item` by `input`:
/// the result is `input` followed by the item without its own qualifier.
pub fn set_visibility(input: Vec<TokenTree>, annotated_item: Vec<TokenTree>) -> (r: Vec<TokenTree>)
    ensures
        r@ == rewritten(input@, annotated_item@),
{
    let mut out_stream = input;
    let mut rest = remove_visibility(annotated_item);
    out_stream.append(&mut rest);
    out_stream
}

/// Whether a token sequence is a visibility qualifier on its own:
/// nothing, a bare `pub`, or `pub` with a parenthesised group.
pub open spec fn is_visibility(s: Seq<TokenTree>) -> bool {
    ||| s.len() == 0
    ||| s.len() == 1 && is_pub_keyword(s[0])
    ||| s.len() == 2 && is_pub_keyword(s[0]) && is_paren_group(s[1])
}

/// Stripping twice is stripping once, unless what is left after the first
/// pass opens with another `pub` (as `pub pub fn f` does); then, and only then,
/// the second pass takes more away.
pub proof fn lemma_strip_idempotent(x: Seq<TokenTree>)
    ensures
        !starts_with_pub(stripped(x)) ==> stripped(stripped(x)) == stripped(x),
        starts_with_pub(stripped(x)) ==> stripped(stripped(x)).len() < stripped(x).len(),
{
}

/// A second rewrite discards the first replacement entirely: the new
/// replacement wins. This holds when the first replacement `w` is itself a
/// visibility qualifier that the second pass strips exactly, that is, when
/// what follows it cannot be mistaken for part of it: after no qualifier the
/// stripped item must not open with `pub`, after a bare `pub` it must not open
/// with a parenthesised group.
pub proof fn lemma_rewrite_round_trip(v: Seq<TokenTree>, w: Seq<TokenTree>, b: Seq<TokenTree>)
    requires
        is_visibility(w),
        w.len() == 0 ==> !starts_with_pub(stripped(b)),
        w.len() == 1 ==> !starts_with_paren_group(stripped(b)),
    ensures
        rewritten(v, rewritten(w, b)) == rewritten(v, b),
{
    let s = stripped(b);
    if w.len() == 1 {
        assert((w + s).skip(1) =~= s);
    } else if w.len() == 2 {
        assert((w + s).skip(1)[0] == w[1]);
        assert((w + s).skip(2) =~= s);
    } else {
        assert(w + s =~= s);
    }
}

/// The conditions of the round trip are exact: on every other first
/// replacement and item, the second rewrite keeps something of the first or
/// strips something of the item.
pub proof fn lemma_rewrite_round_trip_exact(v: Seq<TokenTree>, w: Seq<TokenTree>, b: Seq<TokenTree>)
    ensures
        rewritten(v, rewritten(w, b)) == rewritten(v, b) <==> {
            &&& is_visibility(w)
            &&& w.len() == 0 ==> !starts_with_pub(stripped(b))
            &&& w.len() == 1 ==> !starts_with_paren_group(stripped(b))
        },
{
    let s = stripped(b);
    if is_visibility(w) && (w.len() == 0 ==> !starts_with_pub(s)) && (w.len() == 1
        ==> !starts_with_paren_group(s)) {
        lemma_rewrite_round_trip(v, w, b);
    } else if rewritten(v, rewritten(w, b)) == rewritten(v, b) {
        assert(stripped(w + s).len() == s.len()) by {
            assert((v + stripped(w + s)).len() == (v + s).len());
        }
        if w.len() == 0 {
            assert(w + s =~= s);
        } else if is_pub_keyword(w[0]) {
            assert((w + s).skip(1) =~= w.skip(1) + s);
            if w.len() >= 2 {
                assert((w + s).skip(1)[0] == w[1]);
                assert((w + s).skip(2) =~= w.skip(2) + s);
            } else {
                assert((w + s).skip(1) =~= s);
            }
        } else {
            assert(!starts_with_pub(w + s));
        }
    }
}

} // verus!
