//! Destination-path derivation.
//!
//! The destination of a conversion is computed textually: every occurrence
//! of the fixed source-extension token `".webm"` in the input path is
//! replaced by `"."` followed by the requested output format.  A path that
//! does not contain the token is returned unchanged, so the destination then
//! aliases the source path; callers should treat that as a hazard rather
//! than a feature.

use vstd::prelude::*;

verus! {

/// `pat` stands at the front of `s`.
pub open spec fn starts_with(s: Seq<char>, pat: Seq<char>) -> bool {
    pat.len() <= s.len() && s.subrange(0, pat.len() as int) == pat
}

/// `pat` stands at position `i` of `s`.
pub open spec fn occurs_at(s: Seq<char>, pat: Seq<char>, i: int) -> bool {
    0 <= i && i + pat.len() <= s.len() && s.subrange(i, i + pat.len()) == pat
}

/// `pat` stands somewhere in `s`.
pub open spec fn occurs(s: Seq<char>, pat: Seq<char>) -> bool {
    exists|i: int| occurs_at(s, pat, i)
}

/// `s` with every non-overlapping occurrence of `pat`, found left to right,
/// replaced by `to`; with an empty `pat`, `s` itself.
pub open spec fn replace_all(s: Seq<char>, pat: Seq<char>, to: Seq<char>) -> Seq<char>
    decreases s.len(),
{
    if pat.len() == 0 || s.len() == 0 {
        s
    } else if starts_with(s, pat) {
        to + replace_all(s.skip(pat.len() as int), pat, to)
    } else {
        seq![s[0]] + replace_all(s.skip(1), pat, to)
    }
}

/// The fixed source-extension token whose occurrences are rewritten.
pub open spec fn source_token() -> Seq<char> {
    seq!['.', 'w', 'e', 'b', 'm']
}

/// The replacement written in place of the token: a dot, then the format.
pub open spec fn dotted(format: Seq<char>) -> Seq<char> {
    seq!['.'] + format
}

/// What the destination path of a conversion is, as a function of the
/// input path and the requested output format.
pub open spec fn derived_output_path(input: Seq<char>, format: Seq<char>) -> Seq<char> {
    replace_all(input, source_token(), dotted(format))
}

proof fn lemma_replace_step_match(s: Seq<char>, pat: Seq<char>, to: Seq<char>, i: int)
    requires
        0 <= i <= s.len(),
        pat.len() > 0,
        starts_with(s.skip(i), pat),
    ensures
        replace_all(s.skip(i), pat, to) == to + replace_all(s.skip(i + pat.len()), pat, to),
{
    assert(s.skip(i).skip(pat.len() as int) =~= s.skip(i + pat.len()));
}

proof fn lemma_replace_step_char(s: Seq<char>, pat: Seq<char>, to: Seq<char>, i: int)
    requires
        0 <= i < s.len(),
        pat.len() > 0,
        !starts_with(s.skip(i), pat),
    ensures
        replace_all(s.skip(i), pat, to) == seq![s[i]] + replace_all(s.skip(i + 1), pat, to),
{
    assert(s.skip(i).skip(1) =~= s.skip(i + 1));
    assert(s.skip(i)[0] == s[i]);
}

/// A path without the token is left alone: replacement changes nothing in a
/// string in which the pattern does not occur, so the derived destination
/// then aliases the input.
pub proof fn lemma_replace_absent(s: Seq<char>, pat: Seq<char>, to: Seq<char>)
    requires
        pat.len() > 0,
        !occurs(s, pat),
    ensures
        replace_all(s, pat, to) == s,
    decreases s.len(),
{
    if s.len() == 0 {
    } else {
        assert(!occurs_at(s, pat, 0));
        assert(!starts_with(s, pat)) by {
            if starts_with(s, pat) {
                assert(occurs_at(s, pat, 0));
            }
        }
        assert(!occurs(s.skip(1), pat)) by {
            if occurs(s.skip(1), pat) {
                let i = choose|i: int| occurs_at(s.skip(1), pat, i);
                assert(s.skip(1).subrange(i, i + pat.len()) =~= s.subrange(
                    i + 1,
                    i + 1 + pat.len(),
                ));
                assert(occurs_at(s, pat, i + 1));
            }
        }
        lemma_replace_absent(s.skip(1), pat, to);
        assert(seq![s[0]] + s.skip(1) =~= s);
    }
}

/// Replacement rewrites the first occurrence of the pattern where it stands:
/// with the leftmost occurrence of `pat` at position `i`, the result is what
/// precedes it, then `to`, then the rewritten remainder.
pub proof fn lemma_replace_first_occurrence(s: Seq<char>, pat: Seq<char>, to: Seq<char>, i: int)
    requires
        pat.len() > 0,
        occurs_at(s, pat, i),
        forall|j: int| 0 <= j < i ==> !occurs_at(s, pat, j),
    ensures
        replace_all(s, pat, to) == s.subrange(0, i) + to + replace_all(
            s.skip(i + pat.len()),
            pat,
            to,
        ),
    decreases i,
{
    if i == 0 {
        assert(starts_with(s, pat));
        assert(s.subrange(0, 0) + to + replace_all(s.skip(pat.len() as int), pat, to) =~= to
            + replace_all(s.skip(pat.len() as int), pat, to));
    } else {
        assert(!occurs_at(s, pat, 0));
        assert(!starts_with(s, pat)) by {
            if starts_with(s, pat) {
                assert(occurs_at(s, pat, 0));
            }
        }
        assert(occurs_at(s.skip(1), pat, i - 1)) by {
            assert(s.skip(1).subrange(i - 1, i - 1 + pat.len()) =~= s.subrange(i, i + pat.len()));
        }
        assert(forall|j: int| 0 <= j < i - 1 ==> !occurs_at(s.skip(1), pat, j)) by {
            assert forall|j: int| 0 <= j < i - 1 && occurs_at(s.skip(1), pat, j) implies false by {
                assert(s.skip(1).subrange(j, j + pat.len()) =~= s.subrange(
                    j + 1,
                    j + 1 + pat.len(),
                ));
                assert(occurs_at(s, pat, j + 1));
            }
        }
        lemma_replace_first_occurrence(s.skip(1), pat, to, i - 1);
        assert(s.skip(1).skip(i - 1 + pat.len()) =~= s.skip(i + pat.len()));
        assert(seq![s[0]] + (s.skip(1).subrange(0, i - 1) + to + replace_all(
            s.skip(i + pat.len()),
            pat,
            to,
        )) =~= s.subrange(0, i) + to + replace_all(s.skip(i + pat.len()), pat, to));
    }
}

/// The ordinary filename case: a path that ends in the token, with no other
/// occurrence of it, is rewritten to its stem followed by the replacement.
pub proof fn lemma_replace_trailing_token(stem: Seq<char>, pat: Seq<char>, to: Seq<char>)
    requires
        pat.len() > 0,
        forall|j: int| 0 <= j < stem.len() ==> !occurs_at(stem + pat, pat, j),
    ensures
        replace_all(stem + pat, pat, to) == stem + to,
{
    let s = stem + pat;
    assert(occurs_at(s, pat, stem.len() as int)) by {
        assert(s.subrange(stem.len() as int, stem.len() + pat.len() as int) =~= pat);
    }
    lemma_replace_first_occurrence(s, pat, to, stem.len() as int);
    assert(s.skip(stem.len() + pat.len() as int) =~= Seq::<char>::empty());
    assert(s.subrange(0, stem.len() as int) =~= stem);
    assert(stem + to + Seq::<char>::empty() =~= stem + to);
}

/// Whether `pat` stands at character position `i` of `s`.
fn matches_at(s: &str, pat: &str, i: usize, s_len: usize, pat_len: usize) -> (b: bool)
    requires
        s_len == s@.len(),
        pat_len == pat@.len(),
        i <= s_len,
    ensures
        b == starts_with(s@.skip(i as int), pat@),
{
    if pat_len > s_len - i {
        return false;
    }
    let mut j: usize = 0;
    while j < pat_len
        invariant
            j <= pat_len,
            s_len == s@.len(),
            pat_len == pat@.len(),
            i + pat_len <= s_len,
            forall|k: int| 0 <= k < j ==> s@[i + k] == pat@[k],
        decreases pat_len - j,
    {
        if s.get_char(i + j) != pat.get_char(j) {
            assert(s@.skip(i as int)[j as int] != pat@[j as int]);
            return false;
        }
        j = j + 1;
    }
    assert(s@.skip(i as int).subrange(0, pat_len as int) =~= pat@);
    true
}

/// `s` with every non-overlapping occurrence of `pat`, found left to right,
/// replaced by `to`, as [`replace_all`] describes.
pub fn replace_all_str(s: &str, pat: &str, to: &str) -> (r: String)
    requires
        pat@.len() > 0,
    ensures
        r@ == replace_all(s@, pat@, to@),
{
    let s_len = s.unicode_len();
    let pat_len = pat.unicode_len();
    let mut out = String::new();
    let mut i: usize = 0;
    proof {
        assert(s@.skip(0) =~= s@);
        assert(out@ + replace_all(s@, pat@, to@) =~= replace_all(s@, pat@, to@));
    }
    while i < s_len
        invariant
            i <= s_len,
            s_len == s@.len(),
            pat_len == pat@.len(),
            pat@.len() > 0,
            replace_all(s@, pat@, to@) == out@ + replace_all(s@.skip(i as int), pat@, to@),
        decreases s_len - i,
    {
        if matches_at(s, pat, i, s_len, pat_len) {
            proof {
                lemma_replace_step_match(s@, pat@, to@, i as int);
                assert((out@ + to@) + replace_all(s@.skip(i + pat@.len()), pat@, to@) =~= out@
                    + (to@ + replace_all(s@.skip(i + pat@.len()), pat@, to@)));
            }
            out.append(to);
            i = i + pat_len;
        } else {
            proof {
                lemma_replace_step_char(s@, pat@, to@, i as int);
                assert((out@ + seq![s@[i as int]]) + replace_all(s@.skip(i + 1), pat@, to@) =~= out@
                    + (seq![s@[i as int]] + replace_all(s@.skip(i + 1), pat@, to@)));
            }
            let c = s.substring_char(i, i + 1);
            assert(c@ =~= seq![s@[i as int]]);
            out.append(c);
            i = i + 1;
        }
    }
    assert(s@.skip(s_len as int) =~= Seq::<char>::empty());
    assert(out@ + Seq::<char>::empty() =~= out@);
    out
}

/// The destination path of a conversion: `input_path` with every occurrence
/// of the source-extension token `".webm"` replaced by a dot and
/// `output_format`.  An input path without the token comes back unchanged.
pub fn derive_output_path(input_path: &str, output_format: &str) -> (r: String)
    ensures
        r@ == derived_output_path(input_path@, output_format@),
{
    proof {
        reveal_strlit(".webm");
        reveal_strlit(".");
        assert(".webm"@ =~= source_token());
        assert("."@ =~= seq!['.']);
    }
    let mut token = String::from_str(".");
    token.append(output_format);
    assert(token@ =~= dotted(output_format@));
    replace_all_str(input_path, ".webm", token.as_str())
}

} // verus!
