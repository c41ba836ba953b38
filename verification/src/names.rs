//! Ordering of entry names and derivation of a directory's display label.

use vstd::prelude::*;
use vstd::string::*;

verus! {

/// The case-folded form of a name, as `str::to_lowercase` computes it.
pub uninterp spec fn lowercase(name: Seq<char>) -> Seq<char>;

/// Calls `str::to_lowercase`. The result is a function of the argument alone
/// (the Unicode lowercase mapping); the contract gives it the name `lowercase`.
#[verifier::external_body]
pub(crate) fn to_lowercase(name: &str) -> (folded: String)
    ensures
        folded@ == lowercase(name@),
{
    name.to_lowercase()
}

/// The Unicode code point of a character.
pub open spec fn code_point(c: char) -> int {
    c as int
}

/// Different characters have different code points.
pub proof fn lemma_code_point_injective(a: char, b: char)
    requires
        a != b,
    ensures
        code_point(a) != code_point(b),
{
}

/// Lexicographic comparison of two character sequences by code point, looking
/// only at positions `from` and later: a proper prefix comes first, and at the
/// first position where the two differ the smaller code point decides.
pub open spec fn lex_le_from(a: Seq<char>, b: Seq<char>, from: int) -> bool
    decreases a.len() - from,
{
    if from < 0 || from >= a.len() {
        true
    } else if from >= b.len() {
        false
    } else if a[from] != b[from] {
        code_point(a[from]) < code_point(b[from])
    } else {
        lex_le_from(a, b, from + 1)
    }
}

/// `a` comes before `b`, or equals it, in lexicographic order by code point.
pub open spec fn lex_le(a: Seq<char>, b: Seq<char>) -> bool {
    lex_le_from(a, b, 0)
}

/// Any two sequences are comparable.
pub proof fn lemma_lex_le_total(a: Seq<char>, b: Seq<char>, from: int)
    requires
        0 <= from,
    ensures
        lex_le_from(a, b, from) || lex_le_from(b, a, from),
    decreases a.len() - from,
{
    if from < a.len() && from < b.len() {
        if a[from] == b[from] {
            lemma_lex_le_total(a, b, from + 1);
        } else {
            lemma_code_point_injective(a[from], b[from]);
        }
    }
}

/// The order is transitive.
pub proof fn lemma_lex_le_transitive(a: Seq<char>, b: Seq<char>, c: Seq<char>, from: int)
    requires
        0 <= from,
        lex_le_from(a, b, from),
        lex_le_from(b, c, from),
    ensures
        lex_le_from(a, c, from),
    decreases a.len() - from,
{
    if from < a.len() && from < b.len() && from < c.len() && a[from] == b[from] && b[from] == c[from] {
        lemma_lex_le_transitive(a, b, c, from + 1);
    }
}

/// Two sequences that precede each other from `from` on agree from there on.
pub proof fn lemma_lex_le_both_ways(a: Seq<char>, b: Seq<char>, from: int)
    requires
        0 <= from <= a.len(),
        from <= b.len(),
        lex_le_from(a, b, from),
        lex_le_from(b, a, from),
    ensures
        a.len() == b.len(),
        forall|k: int| from <= k < a.len() ==> a[k] == b[k],
    decreases a.len() - from,
{
    if from < a.len() {
        lemma_lex_le_both_ways(a, b, from + 1);
    }
}

/// Every sequence precedes or equals itself.
pub proof fn lemma_lex_le_reflexive(a: Seq<char>, from: int)
    requires
        0 <= from,
    ensures
        lex_le_from(a, a, from),
    decreases a.len() - from,
{
    if from < a.len() {
        lemma_lex_le_reflexive(a, from + 1);
    }
}

/// The characters of a string, one by one.
pub fn chars_of(text: &str) -> (chars: Vec<char>)
    ensures
        chars@ == text@,
{
    let len: usize = text.unicode_len();
    let mut chars: Vec<char> = Vec::with_capacity(len);
    let mut i: usize = 0;
    while i < len
        invariant
            len == text@.len(),
            i <= len,
            chars@ == text@.subrange(0, i as int),
        decreases len - i,
    {
        chars.push(text.get_char(i));
        proof {
            assert(chars@ =~= text@.subrange(0, i + 1));
        }
        i = i + 1;
    }
    proof {
        assert(text@.subrange(0, len as int) =~= text@);
    }
    chars
}

/// The characters of the case-folded form of a name.
pub fn folded_chars(name: &str) -> (folded: Vec<char>)
    ensures
        folded@ == lowercase(name@),
{
    let folded: String = to_lowercase(name);
    chars_of(folded.as_str())
}

/// Decides whether `a` precedes or equals `b` in lexicographic order by code
/// point. Callers that want a case-insensitive order pass case-folded names.
pub fn chars_precede_or_equal(a: &Vec<char>, b: &Vec<char>) -> (r: bool)
    ensures
        r == lex_le(a@, b@),
{
    let mut i: usize = 0;
    while i < a.len() && i < b.len()
        invariant
            i <= a@.len(),
            i <= b@.len(),
            lex_le(a@, b@) == lex_le_from(a@, b@, i as int),
        decreases a@.len() - i,
    {
        let ca: char = a[i];
        let cb: char = b[i];
        if ca != cb {
            return ca < cb;
        }
        i = i + 1;
    }
    i >= a.len()
}

/// The position at which the last segment of `path[..upto]` starts: just
/// after the last separator, or 0 where there is none.
pub open spec fn last_segment_start(path: Seq<char>, upto: int) -> int
    decreases upto,
{
    if upto <= 0 {
        0
    } else if path[upto - 1] == '/' {
        upto
    } else {
        last_segment_start(path, upto - 1)
    }
}

/// The display label of a directory with the given canonical path: its last
/// segment, and `/` for a path of at most one character (the root).
pub open spec fn label_of(path: Seq<char>) -> Seq<char> {
    if path.len() <= 1 {
        seq!['/']
    } else {
        path.subrange(last_segment_start(path, path.len() as int), path.len() as int)
    }
}

/// The start of the last segment lies inside the path, follows a separator
/// unless it is 0, and no separator follows it.
pub proof fn lemma_last_segment_start(path: Seq<char>, upto: int)
    requires
        0 <= upto <= path.len(),
    ensures
        0 <= last_segment_start(path, upto) <= upto,
        last_segment_start(path, upto) > 0 ==> path[last_segment_start(path, upto) - 1] == '/',
        forall|k: int| last_segment_start(path, upto) <= k < upto ==> path[k] != '/',
    decreases upto,
{
    if upto > 0 && path[upto - 1] != '/' {
        lemma_last_segment_start(path, upto - 1);
    }
}

/// The label of a path of more than one character is what follows the last
/// separator of the path: it is the end of the path, it holds no separator, and
/// it is the whole path or a separator stands before it.
pub proof fn lemma_label_is_last_segment(path: Seq<char>)
    requires
        path.len() > 1,
    ensures
        label_of(path).len() <= path.len(),
        label_of(path) == path.subrange(path.len() - label_of(path).len(), path.len() as int),
        !label_of(path).contains('/'),
        label_of(path).len() < path.len() ==> path[path.len() - label_of(path).len() - 1] == '/',
{
    lemma_last_segment_start(path, path.len() as int);
}

/// Computes the display label of a directory from its canonical path.
pub fn directory_label(canonical: &str) -> (label: String)
    ensures
        label@ == label_of(canonical@),
{
    let len: usize = canonical.unicode_len();
    if len <= 1 {
        proof {
            reveal_strlit("/");
            assert("/"@ =~= seq!['/']);
        }
        return "/".to_owned();
    }
    let mut start: usize = len;
    while start > 0 && canonical.get_char(start - 1) != '/'
        invariant
            start <= len,
            len == canonical@.len(),
            last_segment_start(canonical@, len as int) == last_segment_start(canonical@, start as int),
        decreases start,
    {
        start = start - 1;
    }
    canonical.substring_char(start, len).to_owned()
}

/// The path of the child `name` of the directory `path`.
pub open spec fn child_of(path: Seq<char>, name: Seq<char>) -> Seq<char> {
    path + seq!['/'] + name
}

/// The path that names the parent of the directory `path` before it is resolved.
pub open spec fn parent_of(path: Seq<char>) -> Seq<char> {
    child_of(path, seq!['.', '.'])
}

/// Joins a directory's path and the name of one of its children.
pub fn join_path(path: &str, name: &str) -> (joined: String)
    ensures
        joined@ == child_of(path@, name@),
{
    let mut joined: String = path.to_owned();
    proof {
        reveal_strlit("/");
        assert("/"@ =~= seq!['/']);
    }
    joined.append("/");
    joined.append(name);
    joined
}

/// The unresolved path of the parent of the directory `path`.
pub fn parent_path(path: &str) -> (joined: String)
    ensures
        joined@ == parent_of(path@),
{
    proof {
        reveal_strlit("..");
        assert(".."@ =~= seq!['.', '.']);
    }
    join_path(path, "..")
}

} // verus!
