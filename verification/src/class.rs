//! Class labels: free text cut into tokens, and whole-token matching.
//!
//! A label such as `"Human, cop, woman"` names several classes at once. It is
//! cut at commas, semicolons and white space; what lies between two cuts and
//! is not empty is a token. A tag belongs to a label when it is one of its
//! tokens, letter for letter: `"man"` is no token of the label above.

use vstd::prelude::*;

verus! {

/// Whether `c` has the Unicode property `White_Space`.
pub open spec fn is_whitespace(c: char) -> bool {
    ||| '\u{0009}' <= c <= '\u{000D}'
    ||| c == '\u{0020}'
    ||| c == '\u{0085}'
    ||| c == '\u{00A0}'
    ||| c == '\u{1680}'
    ||| '\u{2000}' <= c <= '\u{200A}'
    ||| c == '\u{2028}'
    ||| c == '\u{2029}'
    ||| c == '\u{202F}'
    ||| c == '\u{205F}'
    ||| c == '\u{3000}'
}

/// Whether a label is cut at `c`: a comma, a semicolon or white space.
pub open spec fn is_delimiter(c: char) -> bool {
    c == ',' || c == ';' || is_whitespace(c)
}

/// Whether `label[start..end]` is a token of `label`: not empty, free of
/// delimiters, and not part of a longer run that is free of them.
pub open spec fn is_token(label: Seq<char>, start: int, end: int) -> bool {
    &&& 0 <= start < end <= label.len()
    &&& forall|i: int| start <= i < end ==> !is_delimiter(#[trigger] label[i])
    &&& (start == 0 || is_delimiter(label[start - 1]))
    &&& (end == label.len() || is_delimiter(label[end]))
}

/// Whether `tag` is one of the tokens of `label`.
pub open spec fn has_token(label: Seq<char>, tag: Seq<char>) -> bool {
    exists|start: int, end: int| #[trigger]
        is_token(label, start, end) && label.subrange(start, end) == tag
}

/// The lowercase form of `text`: what `str::to_lowercase` gives for a string
/// of these characters.
pub uninterp spec fn lowercase(text: Seq<char>) -> Seq<char>;

/// Calls `str::to_lowercase`, which gives the lowercase equivalent of the
/// text by the Unicode property `Lowercase` and depends on nothing but the
/// text. The result is not spelled out: it is [`lowercase`] of the text, and
/// no more is claimed.
#[verifier::external_body]
pub(crate) fn lowercased(text: &str) -> (lower: String)
    ensures
        lower@ == lowercase(text@),
{
    text.to_lowercase()
}

/// Tells whether a label is cut at `c`.
pub fn delimits(c: char) -> (b: bool)
    ensures
        b == is_delimiter(c),
{
    c == ',' || c == ';' || ('\u{0009}' <= c && c <= '\u{000D}') || c == '\u{0020}' || c
        == '\u{0085}' || c == '\u{00A0}' || c == '\u{1680}' || ('\u{2000}' <= c && c
        <= '\u{200A}') || c == '\u{2028}' || c == '\u{2029}' || c == '\u{202F}' || c
        == '\u{205F}' || c == '\u{3000}'
}

/// The characters of `s`, in order.
fn chars_of(s: &str) -> (v: Vec<char>)
    ensures
        v@ == s@,
{
    let mut v: Vec<char> = Vec::new();
    for c in it: s.chars()
        invariant
            it.seq() == s@,
            v@ == s@.subrange(0, it.index() as int),
    {
        v.push(c);
    }
    v
}

/// Tells whether `label[start..end]` is `tag`.
fn matches_at(label: &Vec<char>, start: usize, end: usize, tag: &Vec<char>) -> (b: bool)
    requires
        start <= end <= label.len(),
    ensures
        b == (label@.subrange(start as int, end as int) == tag@),
{
    if end - start != tag.len() {
        return false;
    }
    let mut k: usize = 0;
    while k < tag.len()
        invariant
            start <= end <= label.len(),
            end - start == tag.len(),
            k <= tag.len(),
            forall|j: int| 0 <= j < k ==> label[start + j] == tag[j],
        decreases tag.len() - k,
    {
        if label[start + k] != tag[k] {
            return false;
        }
        k = k + 1;
    }
    assert(label@.subrange(start as int, end as int) =~= tag@);
    true
}

/// Tells whether `tag` is one of the tokens of `label`.
///
/// Runs of delimiters yield no empty token, so the empty tag belongs to no
/// label, and a tag that holds a delimiter belongs to none either.
pub fn contains_token(label: &str, tag: &str) -> (b: bool)
    ensures
        b == has_token(label@, tag@),
{
    let text = chars_of(label);
    let wanted = chars_of(tag);
    let n: usize = text.len();
    let mut i: usize = 0;
    while i < n
        invariant
            n == text.len(),
            text@ == label@,
            wanted@ == tag@,
            i <= n,
            i == 0 || i == n || is_delimiter(text[i - 1]) || is_delimiter(text[i as int]),
            forall|s: int, e: int| #[trigger]
                is_token(text@, s, e) && s < i ==> text@.subrange(s, e) != wanted@,
        decreases n - i,
    {
        if delimits(text[i]) {
            i = i + 1;
        } else {
            let start: usize = i;
            while i < n && !delimits(text[i])
                invariant
                    n == text.len(),
                    start <= i <= n,
                    start < n,
                    !is_delimiter(text[start as int]),
                    forall|j: int| start <= j < i ==> !is_delimiter(#[trigger] text[j]),
                decreases n - i,
            {
                i = i + 1;
            }
            if matches_at(&text, start, i, &wanted) {
                assert(is_token(text@, start as int, i as int));
                return true;
            }
        }
    }
    false
}

/// A token is never empty and holds no delimiter: a tag that is empty, or
/// that holds a comma, a semicolon or white space, belongs to no label.
pub proof fn lemma_token_is_clean(label: Seq<char>, tag: Seq<char>)
    requires
        has_token(label, tag),
    ensures
        tag.len() > 0,
        forall|i: int| 0 <= i < tag.len() ==> !is_delimiter(#[trigger] tag[i]),
{
    let (start, end) = choose|start: int, end: int| #[trigger]
        is_token(label, start, end) && label.subrange(start, end) == tag;
    assert forall|i: int| 0 <= i < tag.len() implies !is_delimiter(#[trigger] tag[i]) by {
        assert(tag[i] == label[start + i]);
    }
}

/// A label without a delimiter is one token, and nothing else belongs to it:
/// no part of it, and nothing longer.
pub proof fn lemma_uncut_label_is_its_only_token(label: Seq<char>, tag: Seq<char>)
    requires
        forall|i: int| 0 <= i < label.len() ==> !is_delimiter(#[trigger] label[i]),
    ensures
        has_token(label, tag) <==> label.len() > 0 && tag == label,
{
    if label.len() > 0 && tag == label {
        assert(is_token(label, 0, label.len() as int));
        assert(label.subrange(0, label.len() as int) =~= label);
    }
    if has_token(label, tag) {
        let (start, end) = choose|start: int, end: int| #[trigger]
            is_token(label, start, end) && label.subrange(start, end) == tag;
        if start > 0 {
            assert(!is_delimiter(label[start - 1]));
        }
        if end < label.len() {
            assert(!is_delimiter(label[end]));
        }
        assert(label.subrange(0, label.len() as int) =~= label);
    }
}

/// A label with a delimiter in it has the tokens of what stands before the
/// delimiter and of what stands behind it, and no others.
pub proof fn lemma_cut_label_has_tokens_of_both_sides(
    before: Seq<char>,
    cut: char,
    behind: Seq<char>,
    tag: Seq<char>,
)
    requires
        is_delimiter(cut),
    ensures
        has_token(before + seq![cut] + behind, tag) <==> has_token(before, tag) || has_token(
            behind,
            tag,
        ),
{
    let label = before + seq![cut] + behind;
    let shift: int = before.len() as int + 1;
    assert(label[before.len() as int] == cut);
    if has_token(before, tag) {
        let (start, end) = choose|start: int, end: int| #[trigger]
            is_token(before, start, end) && before.subrange(start, end) == tag;
        assert forall|i: int| start <= i < end implies !is_delimiter(#[trigger] label[i]) by {
            assert(label[i] == before[i]);
        }
        assert(is_token(label, start, end));
        assert(label.subrange(start, end) =~= before.subrange(start, end));
    }
    if has_token(behind, tag) {
        let (start, end) = choose|start: int, end: int| #[trigger]
            is_token(behind, start, end) && behind.subrange(start, end) == tag;
        assert forall|i: int| start + shift <= i < end + shift implies !is_delimiter(
            #[trigger] label[i],
        ) by {
            assert(label[i] == behind[i - shift]);
        }
        assert(label[start + shift - 1] == if start == 0 {
            cut
        } else {
            behind[start - 1]
        });
        if end < behind.len() {
            assert(label[end + shift] == behind[end]);
        }
        assert(is_token(label, start + shift, end + shift));
        assert(label.subrange(start + shift, end + shift) =~= behind.subrange(start, end));
    }
    if has_token(label, tag) {
        let (start, end) = choose|start: int, end: int| #[trigger]
            is_token(label, start, end) && label.subrange(start, end) == tag;
        if start <= before.len() < end {
            assert(!is_delimiter(label[before.len() as int]));
        }
        if end <= before.len() {
            assert forall|i: int| start <= i < end implies !is_delimiter(#[trigger] before[i]) by {
                assert(label[i] == before[i]);
            }
            if start > 0 {
                assert(label[start - 1] == before[start - 1]);
            }
            if end < before.len() {
                assert(label[end] == before[end]);
            }
            assert(is_token(before, start, end));
            assert(before.subrange(start, end) =~= label.subrange(start, end));
        } else {
            assert forall|i: int| start - shift <= i < end - shift implies !is_delimiter(
                #[trigger] behind[i],
            ) by {
                assert(behind[i] == label[i + shift]);
            }
            if start > shift {
                assert(label[start - 1] == behind[start - shift - 1]);
            }
            if end < label.len() {
                assert(label[end] == behind[end - shift]);
            }
            assert(is_token(behind, start - shift, end - shift));
            assert(behind.subrange(start - shift, end - shift) =~= label.subrange(start, end));
        }
    }
}

} // verus!
