//! Text helpers shared by the other modules.

use vstd::prelude::*;

verus! {

/// Whether a character has the Unicode property White_Space.
pub open spec fn white_space(c: char) -> bool {
    ||| '\u{9}' <= c <= '\u{d}'
    ||| c == ' '
    ||| c == '\u{85}'
    ||| c == '\u{a0}'
    ||| c == '\u{1680}'
    ||| '\u{2000}' <= c <= '\u{200a}'
    ||| c == '\u{2028}'
    ||| c == '\u{2029}'
    ||| c == '\u{202f}'
    ||| c == '\u{205f}'
    ||| c == '\u{3000}'
}

/// `char::is_whitespace` says whether a character has the Unicode property White_Space.
pub assume_specification[ char::is_whitespace ](c: char) -> (r: bool)
    ensures
        r == white_space(c),
;

/// `String::push` appends the character to the end of the string.
pub assume_specification[ String::push ](s: &mut String, c: char)
    ensures
        final(s)@ == old(s)@.push(c),
;

/// Whether two texts are the same.
pub fn same_text(a: &str, b: &str) -> (r: bool)
    ensures
        r == (a@ == b@),
{
    a.to_owned() == b.to_owned()
}

/// The view of an optional text.
pub open spec fn text_view(text: Option<String>) -> Option<Seq<char>> {
    match text {
        Some(t) => Some(t@),
        None => None,
    }
}

/// The views of some texts.
pub open spec fn texts_view(texts: Seq<String>) -> Seq<Seq<char>> {
    texts.map_values(|t: String| t@)
}

/// `part` occurs in `text`.
pub open spec fn contains_text(text: Seq<char>, part: Seq<char>) -> bool {
    exists|i: int| occurs_at(text, part, i)
}

/// `part` occurs in `text`, starting at `i`.
pub open spec fn occurs_at(text: Seq<char>, part: Seq<char>, i: int) -> bool {
    &&& 0 <= i
    &&& i + part.len() <= text.len()
    &&& text.subrange(i, i + part.len()) == part
}

/// `part` occurs in `text` at `i`, and nowhere before.
pub open spec fn first_occurrence(text: Seq<char>, part: Seq<char>, i: int) -> bool {
    occurs_at(text, part, i) && forall|k: int| 0 <= k < i ==> !#[trigger] occurs_at(text, part, k)
}

/// The characters of a text.
pub fn characters(text: &str) -> (r: Vec<char>)
    ensures
        r@ == text@,
{
    let mut chars: Vec<char> = Vec::new();
    for c in it: text.chars()
        invariant
            chars@ == it.seq().take(it.index() as int),
            it.seq() == text@,
    {
        proof {
            assert(it.seq().take(it.index() as int + 1) == it.seq().take(it.index() as int).push(c));
        }
        chars.push(c);
    }
    chars
}

/// The text of characters `from..to`.
pub fn text_of(chars: &Vec<char>, from: usize, to: usize) -> (r: String)
    requires
        from <= to <= chars.len(),
    ensures
        r@ == chars@.subrange(from as int, to as int),
{
    let mut text = String::new();
    let mut i: usize = from;
    while i < to
        invariant
            from <= i <= to <= chars.len(),
            text@ == chars@.subrange(from as int, i as int),
        decreases to - i,
    {
        text.push(chars[i]);
        proof {
            assert(chars@.subrange(from as int, i + 1) == chars@.subrange(from as int, i as int).push(
                chars@[i as int],
            ));
        }
        i = i + 1;
    }
    text
}

/// The first occurrence of `part` in characters `from..to`, counted from `from`.
pub fn find_part(chars: &Vec<char>, from: usize, to: usize, part: &str) -> (r: Option<usize>)
    requires
        from <= to <= chars.len(),
    ensures
        match r {
            Some(i) => first_occurrence(
                chars@.subrange(from as int, to as int),
                part@,
                i as int,
            ),
            None => !contains_text(chars@.subrange(from as int, to as int), part@),
        },
{
    let wanted: Vec<char> = characters(part);
    let len: usize = wanted.len();
    let ghost text = chars@.subrange(from as int, to as int);
    if len > to - from {
        return None;
    }
    let last: usize = to - len;
    let mut i: usize = from;
    loop
        invariant
            from <= i <= last,
            last + len == to,
            to <= chars.len(),
            len == wanted.len(),
            wanted@ == part@,
            text == chars@.subrange(from as int, to as int),
            forall|k: int| 0 <= k < i - from ==> !occurs_at(text, part@, k),
        decreases last - i,
    {
        let mut j: usize = 0;
        while j < len && chars[i + j] == wanted[j]
            invariant
                from <= i <= last,
                last + len == to,
                to <= chars.len(),
                len == wanted.len(),
                j <= len,
                forall|k: int| 0 <= k < j ==> chars@[i + k] == wanted@[k],
            decreases len - j,
        {
            j = j + 1;
        }
        if j == len {
            proof {
                assert(text.subrange(i - from, i - from + len) =~= part@);
                assert(occurs_at(text, part@, i - from));
            }
            return Some(i - from);
        }
        proof {
            let k = i - from;
            if occurs_at(text, part@, k) {
                assert(text.subrange(k, k + len)[j as int] == part@[j as int]);
                assert(text[k + j] == chars@[i + j]);
                assert(false);
            }
        }
        if i == last {
            proof {
                assert forall|k: int| !occurs_at(text, part@, k) by {
                    if occurs_at(text, part@, k) {
                        assert(k <= last - from);
                    }
                }
            }
            return None;
        }
        i = i + 1;
    }
}

/// Whether `part` occurs in characters `from..to`.
pub fn has_part(chars: &Vec<char>, from: usize, to: usize, part: &str) -> (r: bool)
    requires
        from <= to <= chars.len(),
    ensures
        r == contains_text(chars@.subrange(from as int, to as int), part@),
{
    find_part(chars, from, to, part).is_some()
}

/// A part occurs where its characters stand one after the other, and its first occurrence is before
/// every other.
pub proof fn an_occurrence_has_the_characters(text: Seq<char>, part: Seq<char>, i: int)
    ensures
        occurs_at(text, part, i) <==> 0 <= i && i + part.len() <= text.len() && forall|k: int|
            0 <= k < part.len() ==> text[i + k] == #[trigger] part[k],
        first_occurrence(text, part, i) ==> occurs_at(text, part, i) && forall|j: int| #[trigger]
            occurs_at(text, part, j) ==> i <= j,
        contains_text(text, part) <==> exists|j: int| #[trigger] occurs_at(text, part, j),
{
    if occurs_at(text, part, i) {
        assert forall|k: int| 0 <= k < part.len() implies text[i + k] == #[trigger] part[k] by {
            assert(text.subrange(i, i + part.len())[k] == part[k]);
        }
    }
    if 0 <= i && i + part.len() <= text.len() && forall|k: int|
        0 <= k < part.len() ==> text[i + k] == #[trigger] part[k] {
        assert(text.subrange(i, i + part.len()) =~= part);
    }
}

/// Texts are taken by their characters, each in its place.
pub proof fn texts_are_taken_by_their_characters(
    texts: Seq<String>,
    text: Option<String>,
    i: int,
)
    ensures
        texts_view(texts).len() == texts.len(),
        0 <= i < texts.len() ==> texts_view(texts)[i] == texts[i]@,
        text matches Some(t) ==> text_view(text) == Some(t@),
        text is None ==> text_view(text) is None,
{
}

/// Among the ASCII characters, the space and the five controls from the tab to the carriage return
/// are white space, and no other. No letter, digit or sign of a path is.
pub proof fn ascii_white_space(c: char)
    requires
        c < '\u{80}',
    ensures
        white_space(c) <==> c as u32 == 32 || 9 <= c as u32 <= 13,
        'a' <= c <= 'z' || 'A' <= c <= 'Z' || '0' <= c <= '9' || c == '/' || c == '.'
            ==> !white_space(c),
{
}

} // verus!
