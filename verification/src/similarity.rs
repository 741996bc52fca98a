//! The similarity judge: a character-level Levenshtein edit distance, and
//! the classification of a header as acceptable or missing against a
//! tolerance of one tenth of the template's length.

use vstd::arithmetic::div_mod::lemma_div_decreases;
use vstd::prelude::*;
use vstd::string::StrSliceExecFns;

use crate::template::template;

verus! {

/// A header is acceptable when its edit distance to the template is at most
/// the template's length divided by this constant.
pub const TOLERANCE_DIVISOR: usize = 10;

/// The smaller of three integers.
pub open spec fn min3(a: int, b: int, c: int) -> int {
    if a <= b && a <= c {
        a
    } else if b <= c {
        b
    } else {
        c
    }
}

/// The Levenshtein edit distance between two character sequences: the least
/// number of single-character insertions, deletions and substitutions, each
/// of cost one, that turns one into the other.
pub open spec fn edit_distance(a: Seq<char>, b: Seq<char>) -> nat
    decreases a.len() + b.len(),
{
    if a.len() == 0 {
        b.len()
    } else if b.len() == 0 {
        a.len()
    } else {
        let delete = edit_distance(a.drop_first(), b) + 1;
        let insert = edit_distance(a, b.drop_first()) + 1;
        let substitute_cost: int = if a.first() == b.first() {
            0
        } else {
            1
        };
        let substitute = edit_distance(a.drop_first(), b.drop_first()) + substitute_cost;
        min3(delete as int, insert as int, substitute) as nat
    }
}

/// The number of edits a header may be away from the given template and
/// still count as present.
pub open spec fn tolerance(t: Seq<char>) -> nat {
    t.len() / (TOLERANCE_DIVISOR as nat)
}

/// Whether a trimmed header counts as present against the given template.
pub open spec fn header_acceptable(header: Seq<char>, t: Seq<char>) -> bool {
    edit_distance(header, t) <= tolerance(t)
}

/// A sequence is at edit distance zero from itself.
pub proof fn lemma_edit_distance_self(a: Seq<char>)
    ensures
        edit_distance(a, a) == 0,
    decreases a.len(),
{
    if a.len() > 0 {
        lemma_edit_distance_self(a.drop_first());
    }
}

/// Edit distance is symmetric: reversing the direction of every edit turns
/// a transformation of one string into the other into its converse.
pub proof fn lemma_edit_distance_symmetric(a: Seq<char>, b: Seq<char>)
    ensures
        edit_distance(a, b) == edit_distance(b, a),
    decreases a.len() + b.len(),
{
    if a.len() > 0 && b.len() > 0 {
        lemma_edit_distance_symmetric(a.drop_first(), b);
        lemma_edit_distance_symmetric(a, b.drop_first());
        lemma_edit_distance_symmetric(a.drop_first(), b.drop_first());
    }
}

/// Only a sequence equal to `b` is at edit distance zero from `b`.
pub proof fn lemma_edit_distance_zero(a: Seq<char>, b: Seq<char>)
    requires
        edit_distance(a, b) == 0,
    ensures
        a == b,
    decreases a.len() + b.len(),
{
    if a.len() == 0 {
        assert(a =~= b);
    } else if b.len() == 0 {
        assert(a =~= b);
    } else {
        lemma_edit_distance_zero(a.drop_first(), b.drop_first());
        assert(a.first() == b.first());
        assert forall|i: int| 0 <= i < a.len() implies a[i] == b[i] by {
            if i > 0 {
                assert(a[i] == a.drop_first()[i - 1]);
                assert(b[i] == b.drop_first()[i - 1]);
            }
        }
        assert(a =~= b);
    }
}

/// A header identical to the template is always acceptable, at distance zero.
pub proof fn lemma_identical_header_acceptable(header: Seq<char>, t: Seq<char>)
    requires
        header == t,
    ensures
        edit_distance(header, t) == 0,
        header_acceptable(header, t),
{
    lemma_edit_distance_self(t);
}

/// An empty header is never acceptable against a nonempty template: its
/// distance is the whole template's length, which exceeds any tolerance
/// of a tenth of that length.
pub proof fn lemma_empty_header_missing(t: Seq<char>)
    requires
        t.len() > 0,
    ensures
        edit_distance(Seq::<char>::empty(), t) == t.len(),
        !header_acceptable(Seq::<char>::empty(), t),
{
    lemma_div_decreases(t.len() as int, TOLERANCE_DIVISOR as int);
}

/// An empty header is missing against the canonical template in particular.
pub proof fn lemma_empty_header_missing_canonical()
    ensures
        !header_acceptable(Seq::<char>::empty(), template()),
{
    crate::template::lemma_template_len();
    lemma_empty_header_missing(template());
}

/// The verdict of the similarity judge on one header: whether the header
/// counts as present, together with the computed edit distance.
pub struct Verdict {
    pub acceptable: bool,
    pub distance: usize,
}

/// Relies on strsim::levenshtein: the character-level Levenshtein distance
/// between the two strings, with unit cost for each insertion, deletion
/// and substitution.
#[verifier::external_body]
fn levenshtein(a: &str, b: &str) -> (d: usize)
    ensures
        d == edit_distance(a@, b@),
{
    strsim::levenshtein(a, b)
}

/// Classifies a trimmed header against a template: the header is acceptable
/// when its edit distance is within a tenth of the template's length.
pub fn judge(header: &str, template_text: &str) -> (v: Verdict)
    ensures
        v.acceptable == header_acceptable(header@, template_text@),
        v.distance == edit_distance(header@, template_text@),
{
    let d = levenshtein(header, template_text);
    let tol = template_text.unicode_len() / TOLERANCE_DIVISOR;
    Verdict { acceptable: d <= tol, distance: d }
}

} // verus!
