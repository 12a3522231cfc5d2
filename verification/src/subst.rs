//! Literal placeholder substitution.
//!
//! `substitute` replaces every occurrence of a token with a replacement
//! string in a single left-to-right pass.  Replacement text is never
//! re-scanned, so a replacement that happens to contain the token does not
//! loop.  `spec_substitute` is the mathematical definition the executable
//! code is proved against, and the lemmas below state when a pass is a
//! no-op and when it is guaranteed to leave no occurrence of the token
//! behind.

use vstd::prelude::*;
use vstd::string::*;

verus! {

/// The token occurs in `s` starting at index `i`.
pub open spec fn occurs_at(s: Seq<char>, token: Seq<char>, i: int) -> bool {
    0 <= i && i + token.len() <= s.len() && s.subrange(i, i + token.len() as int) == token
}

/// The token occurs somewhere in `s`.
pub open spec fn has_token(s: Seq<char>, token: Seq<char>) -> bool {
    exists|i: int| occurs_at(s, token, i)
}

/// One left-to-right pass replacing every occurrence of `token` in
/// `content` by `replacement`.  At each position, either the token matches
/// and is consumed whole, or one character is copied.  An empty token is
/// never searched for: the content comes back unchanged.
pub open spec fn spec_substitute(content: Seq<char>, token: Seq<char>, replacement: Seq<char>) -> Seq<char>
    decreases content.len(),
{
    if token.len() == 0 || content.len() < token.len() {
        content
    } else if content.subrange(0, token.len() as int) == token {
        replacement + spec_substitute(content.skip(token.len() as int), token, replacement)
    } else {
        seq![content[0]] + spec_substitute(content.skip(1), token, replacement)
    }
}

/// Does `token` match `content` exactly at character index `i`?
fn match_at(content: &str, token: &str, i: usize) -> (b: bool)
    requires
        i + token@.len() <= content@.len(),
    ensures
        b == (content@.subrange(i as int, i + token@.len()) == token@),
{
    let n: usize = content.unicode_len();
    let t: usize = token.unicode_len();
    let mut j: usize = 0;
    while j < t
        invariant
            n == content@.len(),
            t == token@.len(),
            i + t <= n,
            j <= t,
            forall|k: int| 0 <= k < j ==> content@[i + k] == token@[k],
        decreases t - j,
    {
        if content.get_char(i + j) != token.get_char(j) {
            assert(content@.subrange(i as int, i + t) != token@) by {
                assert(content@.subrange(i as int, i + t)[j as int] == content@[i + j]);
            }
            return false;
        }
        j = j + 1;
    }
    assert(content@.subrange(i as int, i + t) =~= token@);
    true
}

/// Replace every occurrence of `token` in `content` by `replacement`, in a
/// single pass.
pub fn substitute(content: &str, token: &str, replacement: &str) -> (r: String)
    ensures
        r@ == spec_substitute(content@, token@, replacement@),
{
    let n: usize = content.unicode_len();
    let t: usize = token.unicode_len();
    if t == 0 {
        return String::from_str(content);
    }
    let mut out: String = String::new();
    let mut i: usize = 0;
    proof {
        assert(content@.skip(0) =~= content@);
        assert(Seq::<char>::empty() + spec_substitute(content@, token@, replacement@)
            =~= spec_substitute(content@, token@, replacement@));
    }
    while i < n
        invariant
            n == content@.len(),
            t == token@.len(),
            t >= 1,
            i <= n,
            spec_substitute(content@, token@, replacement@)
                == out@ + spec_substitute(content@.skip(i as int), token@, replacement@),
        decreases n - i,
    {
        let ghost tail = content@.skip(i as int);
        let ghost prev = out@;
        if t <= n - i && match_at(content, token, i) {
            proof {
                assert(tail.subrange(0, t as int) =~= content@.subrange(i as int, i + t));
                assert(tail.skip(t as int) =~= content@.skip(i + t));
                assert(spec_substitute(tail, token@, replacement@)
                    == replacement@ + spec_substitute(content@.skip(i + t), token@, replacement@));
                assert((prev + replacement@)
                        + spec_substitute(content@.skip(i + t), token@, replacement@)
                    =~= prev + (replacement@
                        + spec_substitute(content@.skip(i + t), token@, replacement@)));
            }
            out.append(replacement);
            i = i + t;
        } else {
            let piece = content.substring_char(i, i + 1);
            proof {
                let head = seq![content@[i as int]];
                assert(piece@ =~= head);
                assert(tail.skip(1) =~= content@.skip(i + 1));
                if tail.len() < t {
                    assert(spec_substitute(tail, token@, replacement@) == tail);
                    assert(content@.skip(i + 1).len() < t);
                    assert(spec_substitute(content@.skip(i + 1), token@, replacement@)
                        == content@.skip(i + 1));
                    assert(tail =~= head + content@.skip(i + 1));
                } else {
                    assert(tail.subrange(0, t as int) =~= content@.subrange(i as int, i + t));
                    assert(tail.subrange(0, t as int) != token@);
                    assert(tail[0] == content@[i as int]);
                    assert(spec_substitute(tail, token@, replacement@)
                        == head + spec_substitute(content@.skip(i + 1), token@, replacement@));
                }
                assert((prev + head)
                        + spec_substitute(content@.skip(i + 1), token@, replacement@)
                    =~= prev + (head
                        + spec_substitute(content@.skip(i + 1), token@, replacement@)));
            }
            out.append(piece);
            i = i + 1;
        }
    }
    proof {
        assert(content@.skip(n as int) =~= Seq::<char>::empty());
        assert(spec_substitute(Seq::<char>::empty(), token@, replacement@)
            =~= Seq::<char>::empty());
        assert(out@ =~= out@ + Seq::<char>::empty());
    }
    out
}

/// A string shorter than the token cannot contain it.
pub proof fn lemma_short_no_token(s: Seq<char>, token: Seq<char>)
    requires
        s.len() < token.len(),
    ensures
        !has_token(s, token),
{
    assert forall|i: int| !occurs_at(s, token, i) by {}
}

/// A pass over content in which the token does not occur leaves the content
/// unchanged.
pub proof fn lemma_substitute_token_absent(
    content: Seq<char>,
    token: Seq<char>,
    replacement: Seq<char>,
)
    requires
        !has_token(content, token),
    ensures
        spec_substitute(content, token, replacement) == content,
    decreases content.len(),
{
    let t = token.len() as int;
    if token.len() == 0 || content.len() < t {
    } else if content.subrange(0, t) == token {
        assert(occurs_at(content, token, 0));
        assert(false);
    } else {
        assert forall|i: int| !occurs_at(content.skip(1), token, i) by {
            if occurs_at(content.skip(1), token, i) {
                assert(content.subrange(i + 1, i + 1 + t)
                    =~= content.skip(1).subrange(i, i + t));
                assert(occurs_at(content, token, i + 1));
            }
        }
        lemma_substitute_token_absent(content.skip(1), token, replacement);
        assert(seq![content[0]] + content.skip(1) =~= content);
    }
}

/// Replacing the token by itself changes nothing.
pub proof fn lemma_substitute_token_identity(content: Seq<char>, token: Seq<char>)
    ensures
        spec_substitute(content, token, token) == content,
    decreases content.len(),
{
    let t = token.len() as int;
    if token.len() == 0 || content.len() < t {
    } else if content.subrange(0, t) == token {
        lemma_substitute_token_identity(content.skip(t), token);
        assert(content.subrange(0, t) + content.skip(t) =~= content);
    } else {
        lemma_substitute_token_identity(content.skip(1), token);
        assert(seq![content[0]] + content.skip(1) =~= content);
    }
}

/// The induction behind `lemma_substitute_no_token`.  Beside the absence of
/// occurrences it carries a prefix property: whenever a proper tail of the
/// token starts the output, that same tail already started the input.
proof fn lemma_substitute_no_token_rec(
    content: Seq<char>,
    token: Seq<char>,
    replacement: Seq<char>,
)
    requires
        token.len() >= 1,
        !replacement.contains(token[0]),
        !replacement.contains(token[token.len() - 1]),
        !has_token(token, replacement),
    ensures
        !has_token(spec_substitute(content, token, replacement), token),
        forall|j: int|
            1 <= j < token.len()
                && (#[trigger] token.skip(j)).is_prefix_of(
                spec_substitute(content, token, replacement),
            ) ==> token.skip(j).is_prefix_of(content),
    decreases content.len(),
{
    let t = token.len() as int;
    let result = spec_substitute(content, token, replacement);
    if replacement.len() == 0 {
        assert(token.subrange(0, 0) =~= replacement);
        assert(occurs_at(token, replacement, 0));
        assert(false);
    }
    if content.len() < t {
        assert(result == content);
        assert(forall|p: int| !occurs_at(result, token, p));
    } else if content.subrange(0, t) == token {
        let rest = content.skip(t);
        lemma_substitute_no_token_rec(rest, token, replacement);
        let x = spec_substitute(rest, token, replacement);
        assert(result == replacement + x);
        assert forall|p: int| !occurs_at(result, token, p) by {
            if occurs_at(result, token, p) {
                if p < replacement.len() {
                    assert(result.subrange(p, p + t)[0] == token[0]);
                    assert(replacement[p] == token[0]);
                    assert(replacement.contains(token[0]));
                } else {
                    let q = p - replacement.len();
                    assert(x.subrange(q, q + t) =~= result.subrange(p, p + t));
                    assert(occurs_at(x, token, q));
                }
            }
        }
        assert forall|j: int|
            1 <= j < t && (#[trigger] token.skip(j)).is_prefix_of(result)
            implies token.skip(j).is_prefix_of(content) by {
            let m = t - j;
            if m <= replacement.len() {
                assert(token.skip(j)[m - 1] == token[t - 1]);
                assert(token.skip(j)[m - 1] == result.subrange(0, m)[m - 1]);
                assert(replacement[m - 1] == token[t - 1]);
                assert(replacement.contains(token[t - 1]));
                assert(false);
            } else {
                assert(token.subrange(j, j + replacement.len() as int) =~= replacement) by {
                    assert forall|k: int| 0 <= k < replacement.len()
                        implies token[j + k] == replacement[k] by {
                        assert(token.skip(j)[k] == result.subrange(0, m)[k]);
                        assert(result[k] == replacement[k]);
                    }
                }
                assert(occurs_at(token, replacement, j));
                assert(false);
            }
        }
    } else {
        let rest = content.skip(1);
        lemma_substitute_no_token_rec(rest, token, replacement);
        let x = spec_substitute(rest, token, replacement);
        let head = seq![content[0]];
        assert(result == head + x);
        assert forall|p: int| !occurs_at(result, token, p) by {
            if occurs_at(result, token, p) {
                if p == 0 {
                    assert(result.subrange(0, t)[0] == token[0]);
                    assert(content[0] == token[0]);
                    if t == 1 {
                        assert(content.subrange(0, 1) =~= token);
                        assert(false);
                    } else {
                        assert(token.skip(1) =~= x.subrange(0, t - 1)) by {
                            assert forall|k: int| 0 <= k < t - 1
                                implies token.skip(1)[k] == x[k] by {
                                assert(result.subrange(0, t)[k + 1] == token[k + 1]);
                                assert(result[k + 1] == x[k]);
                            }
                        }
                        assert(token.skip(1).is_prefix_of(x));
                        assert(token.skip(1).is_prefix_of(rest));
                        assert(content.subrange(0, t) =~= token) by {
                            assert forall|k: int| 1 <= k < t
                                implies content[k] == token[k] by {
                                assert(rest.subrange(0, t - 1)[k - 1] == token.skip(1)[k - 1]);
                                assert(rest[k - 1] == content[k]);
                            }
                        }
                        assert(false);
                    }
                } else {
                    assert(x.subrange(p - 1, p - 1 + t) =~= result.subrange(p, p + t));
                    assert(occurs_at(x, token, p - 1));
                }
            }
        }
        assert forall|j: int|
            1 <= j < t && (#[trigger] token.skip(j)).is_prefix_of(result)
            implies token.skip(j).is_prefix_of(content) by {
            let m = t - j;
            assert(token.skip(j)[0] == result.subrange(0, m)[0]);
            assert(content[0] == token[j]);
            if j + 1 == t {
                assert(token.skip(j) =~= content.subrange(0, 1));
            } else {
                assert(token.skip(j + 1) =~= x.subrange(0, m - 1)) by {
                    assert forall|k: int| 0 <= k < m - 1
                        implies token.skip(j + 1)[k] == x[k] by {
                        assert(token.skip(j)[k + 1] == result.subrange(0, m)[k + 1]);
                        assert(result[k + 1] == x[k]);
                    }
                }
                assert(token.skip(j + 1).is_prefix_of(x));
                assert(token.skip(j + 1).is_prefix_of(rest));
                assert(token.skip(j) =~= content.subrange(0, m)) by {
                    assert forall|k: int| 1 <= k < m
                        implies content[k] == token[j + k] by {
                        assert(rest.subrange(0, m - 1)[k - 1] == token.skip(j + 1)[k - 1]);
                        assert(rest[k - 1] == content[k]);
                    }
                }
            }
        }
    }
}

/// After one pass no occurrence of the token remains, provided the
/// replacement contains neither the token's first character nor its last,
/// and does not itself occur inside the token.  Without those provisos a
/// replacement can conspire with the surrounding text to rebuild the token.
pub proof fn lemma_substitute_no_token(
    content: Seq<char>,
    token: Seq<char>,
    replacement: Seq<char>,
)
    requires
        token.len() >= 1,
        !replacement.contains(token[0]),
        !replacement.contains(token[token.len() - 1]),
        !has_token(token, replacement),
    ensures
        !has_token(spec_substitute(content, token, replacement), token),
{
    lemma_substitute_no_token_rec(content, token, replacement);
}

/// Under the same provisos a second pass over the output is a no-op.
pub proof fn lemma_substitute_idempotent(
    content: Seq<char>,
    token: Seq<char>,
    replacement: Seq<char>,
)
    requires
        token.len() >= 1,
        !replacement.contains(token[0]),
        !replacement.contains(token[token.len() - 1]),
        !has_token(token, replacement),
    ensures
        spec_substitute(spec_substitute(content, token, replacement), token, replacement)
            == spec_substitute(content, token, replacement),
{
    lemma_substitute_no_token_rec(content, token, replacement);
    lemma_substitute_token_absent(
        spec_substitute(content, token, replacement),
        token,
        replacement,
    );
}

} // verus!
