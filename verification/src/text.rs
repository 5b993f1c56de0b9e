//! Text as sequences of characters: searching, cutting and joining.
//!
//! Contracts speak of the view of a text, a `Seq<char>`. Executable code reads
//! a text once into a `Vec<char>` and works on slices of it.

use vstd::prelude::*;

verus! {

/// `String::push` appends one character to the text.
pub assume_specification[ String::push ](text: &mut String, c: char)
    ensures
        final(text)@ == old(text)@.push(c),
;

/// The characters of a text, in order.
pub fn to_chars(text: &str) -> (chars: Vec<char>)
    ensures
        chars@ == text@,
{
    let mut chars: Vec<char> = Vec::new();
    for c in it: text.chars()
        invariant
            chars@ == it.seq().subrange(0, it.index() as int),
            it.seq() == text@,
    {
        chars.push(c);
    }
    chars
}

/// The text made of the characters `from..to` of `chars`.
pub fn slice_text(chars: &[char], from: usize, to: usize) -> (text: String)
    requires
        from <= to <= chars@.len(),
    ensures
        text@ == chars@.subrange(from as int, to as int),
{
    let mut text = String::new();
    let mut i: usize = from;
    while i < to
        invariant
            from <= i <= to <= chars@.len(),
            text@ == chars@.subrange(from as int, i as int),
        decreases to - i,
    {
        text.push(chars[i]);
        i += 1;
    }
    text
}

/// The text made of the given characters.
pub fn to_text(chars: &[char]) -> (text: String)
    ensures
        text@ == chars@,
{
    let text = slice_text(chars, 0, chars.len());
    assert(chars@.subrange(0, chars@.len() as int) == chars@);
    text
}

/// Whether two texts hold the same characters.
pub fn same_text(a: &str, b: &str) -> (same: bool)
    ensures
        same == (a@ == b@),
{
    let x = to_chars(a);
    let y = to_chars(b);
    if x.len() != y.len() {
        return false;
    }
    let mut i: usize = 0;
    while i < x.len()
        invariant
            i <= x@.len(),
            x@ == a@,
            y@ == b@,
            x@.len() == y@.len(),
            x@.subrange(0, i as int) == y@.subrange(0, i as int),
        decreases x.len() - i,
    {
        if x[i] != y[i] {
            assert(x@[i as int] != y@[i as int]);
            return false;
        }
        assert(x@.subrange(0, i + 1) == x@.subrange(0, i as int).push(x@[i as int]));
        assert(y@.subrange(0, i + 1) == y@.subrange(0, i as int).push(y@[i as int]));
        i += 1;
    }
    assert(x@.subrange(0, x@.len() as int) == x@);
    assert(y@.subrange(0, y@.len() as int) == y@);
    true
}

/// The first place at which `c` stands in `chars`.
pub fn find_first(chars: &[char], c: char) -> (found: Option<usize>)
    ensures
        found is Some == chars@.index_of_first(c) is Some,
        found matches Some(i) ==> chars@.index_of_first(c) == Some(i as int),
{
    let mut i: usize = 0;
    while i < chars.len()
        invariant
            i <= chars@.len(),
            forall|j: int| 0 <= j < i ==> chars@[j] != c,
        decreases chars.len() - i,
    {
        if chars[i] == c {
            proof {
                assert(chars@.contains(c));
                chars@.index_of_first_ensures(c);
            }
            return Some(i);
        }
        i += 1;
    }
    proof {
        chars@.index_of_first_ensures(c);
    }
    None
}

/// The last place at which `c` stands in `chars`.
pub fn find_last(chars: &[char], c: char) -> (found: Option<usize>)
    ensures
        found is Some == chars@.index_of_last(c) is Some,
        found matches Some(i) ==> chars@.index_of_last(c) == Some(i as int),
{
    let mut i: usize = chars.len();
    while i > 0
        invariant
            i <= chars@.len(),
            forall|j: int| i <= j < chars@.len() ==> chars@[j] != c,
        decreases i,
    {
        i -= 1;
        if chars[i] == c {
            proof {
                assert(chars@.contains(c));
                chars@.index_of_last_ensures(c);
            }
            return Some(i);
        }
    }
    proof {
        chars@.index_of_last_ensures(c);
    }
    None
}

/// A text without the run of `c` at its end.
pub open spec fn trim_end(s: Seq<char>, c: char) -> Seq<char>
    decreases s.len(),
{
    if s.len() > 0 && s.last() == c {
        trim_end(s.drop_last(), c)
    } else {
        s
    }
}

/// What is cut from the end never changes the front: the trimmed text is a
/// prefix of the text, and does not end in `c`.
pub proof fn lemma_trim_end(s: Seq<char>, c: char)
    ensures
        trim_end(s, c).len() <= s.len(),
        trim_end(s, c) == s.subrange(0, trim_end(s, c).len() as int),
        trim_end(s, c).len() > 0 ==> trim_end(s, c).last() != c,
        forall|j: int| trim_end(s, c).len() <= j < s.len() ==> s[j] == c,
    decreases s.len(),
{
    if s.len() > 0 && s.last() == c {
        lemma_trim_end(s.drop_last(), c);
        assert forall|j: int| trim_end(s, c).len() <= j < s.len() implies s[j] == c by {
            if j < s.len() - 1 {
                assert(s.drop_last()[j] == s[j]);
            }
        }
    }
}

/// The length of `chars` without the run of `c` at its end.
pub fn trimmed_len(chars: &[char], c: char) -> (len: usize)
    ensures
        len <= chars@.len(),
        chars@.subrange(0, len as int) == trim_end(chars@, c),
{
    let mut len: usize = chars.len();
    proof {
        assert(chars@.subrange(0, len as int) == chars@);
    }
    while len > 0 && chars[len - 1] == c
        invariant
            len <= chars@.len(),
            trim_end(chars@.subrange(0, len as int), c) == trim_end(chars@, c),
        decreases len,
    {
        proof {
            let s = chars@.subrange(0, len as int);
            assert(s.last() == c);
            assert(s.drop_last() == chars@.subrange(0, len - 1));
        }
        len -= 1;
    }
    proof {
        let s = chars@.subrange(0, len as int);
        if len > 0 {
            assert(s.last() != c);
        }
    }
    len
}

/// Whether `needle` stands somewhere in `haystack`, as one run.
pub open spec fn occurs_in(needle: Seq<char>, haystack: Seq<char>) -> bool {
    exists|i: int|
        0 <= i && i + needle.len() <= haystack.len() && #[trigger] haystack.subrange(
            i,
            i + needle.len(),
        ) == needle
}

/// Whether `needle` stands in `haystack` at place `at`.
fn stands_at(haystack: &[char], needle: &[char], at: usize) -> (b: bool)
    requires
        at + needle@.len() <= haystack@.len(),
    ensures
        b == (haystack@.subrange(at as int, at + needle@.len()) == needle@),
{
    let ghost window = haystack@.subrange(at as int, at + needle@.len());
    let end: usize = haystack.len();
    let mut k: usize = 0;
    while k < needle.len()
        invariant
            k <= needle@.len(),
            at + needle@.len() <= haystack@.len() == end,
            window == haystack@.subrange(at as int, at + needle@.len()),
            forall|j: int| 0 <= j < k ==> window[j] == needle@[j],
        decreases needle.len() - k,
    {
        if haystack[at + k] != needle[k] {
            assert(window[k as int] != needle@[k as int]);
            return false;
        }
        k += 1;
    }
    assert(window =~= needle@);
    true
}

/// Whether `needle` stands somewhere in `haystack`.
pub fn contains_text(haystack: &[char], needle: &[char]) -> (b: bool)
    ensures
        b == occurs_in(needle@, haystack@),
{
    if needle.len() > haystack.len() {
        return false;
    }
    let last: usize = haystack.len() - needle.len();
    let mut i: usize = 0;
    while i < last
        invariant
            i <= last,
            last + needle@.len() == haystack@.len(),
            forall|j: int|
                0 <= j < i ==> #[trigger] haystack@.subrange(j, j + needle@.len()) != needle@,
        decreases last - i,
    {
        if stands_at(haystack, needle, i) {
            return true;
        }
        i += 1;
    }
    stands_at(haystack, needle, last)
}

/// The pieces of a text between the occurrences of `sep`: one more than
/// there are occurrences, some of them empty where two stand side by side or
/// one stands at an end.
pub open spec fn pieces(s: Seq<char>, sep: char) -> Seq<Seq<char>>
    decreases s.len(),
{
    if s.len() == 0 {
        seq![Seq::<char>::empty()]
    } else {
        let before = pieces(s.drop_last(), sep);
        if s.last() == sep {
            before.push(Seq::<char>::empty())
        } else {
            before.update(before.len() - 1, before.last().push(s.last()))
        }
    }
}

/// There is always at least one piece.
pub proof fn lemma_pieces_nonempty(s: Seq<char>, sep: char)
    ensures
        pieces(s, sep).len() >= 1,
    decreases s.len(),
{
    if s.len() > 0 {
        lemma_pieces_nonempty(s.drop_last(), sep);
    }
}

/// The pieces of two texts joined by the separator are the pieces of the
/// first followed by the pieces of the second.
pub proof fn lemma_pieces_join(a: Seq<char>, b: Seq<char>, sep: char)
    ensures
        pieces(a + seq![sep] + b, sep) == pieces(a, sep) + pieces(b, sep),
    decreases b.len(),
{
    let whole = a + seq![sep] + b;
    lemma_pieces_nonempty(a, sep);
    lemma_pieces_nonempty(b, sep);
    if b.len() == 0 {
        assert(whole.drop_last() == a);
        assert(pieces(a, sep).push(Seq::<char>::empty()) == pieces(a, sep) + pieces(b, sep));
    } else {
        lemma_pieces_join(a, b.drop_last(), sep);
        lemma_pieces_nonempty(b.drop_last(), sep);
        assert(whole.drop_last() == a + seq![sep] + b.drop_last());
        assert(whole.last() == b.last());
        let front = pieces(a, sep);
        let back = pieces(b.drop_last(), sep);
        if b.last() == sep {
            assert((front + back).push(Seq::<char>::empty()) == front + back.push(
                Seq::<char>::empty(),
            ));
        } else {
            assert((front + back).update(
                (front + back).len() - 1,
                (front + back).last().push(b.last()),
            ) == front + back.update(back.len() - 1, back.last().push(b.last())));
        }
    }
}

/// Where the separator stands twice side by side, a piece that is not the
/// last is empty.
pub proof fn lemma_pieces_of_doubled(s: Seq<char>, sep: char, at: int)
    requires
        0 <= at,
        at + 2 <= s.len(),
        s[at] == sep,
        s[at + 1] == sep,
    ensures
        exists|k: int| 0 <= k < pieces(s, sep).len() - 1 && (#[trigger] pieces(s, sep)[k]).len() == 0,
{
    let a = s.subrange(0, at);
    let rest = s.subrange(at + 1, s.len() as int);
    let b = s.subrange(at + 2, s.len() as int);
    let none = Seq::<char>::empty();
    assert(s == a + seq![sep] + rest);
    assert(rest == none + seq![sep] + b);
    lemma_pieces_join(a, rest, sep);
    lemma_pieces_join(none, b, sep);
    lemma_pieces_nonempty(a, sep);
    lemma_pieces_nonempty(b, sep);
    let k = pieces(a, sep).len() as int;
    assert(pieces(none, sep) == seq![none]);
    assert(pieces(s, sep)[k] == none);
}

/// Every character of a text is the separator or stands in one of the
/// pieces.
pub proof fn lemma_pieces_cover(s: Seq<char>, sep: char, at: int)
    requires
        0 <= at < s.len(),
        s[at] != sep,
    ensures
        exists|k: int| 0 <= k < pieces(s, sep).len() && (#[trigger] pieces(s, sep)[k]).contains(s[at]),
    decreases s.len(),
{
    let front = pieces(s.drop_last(), sep);
    lemma_pieces_nonempty(s.drop_last(), sep);
    if at == s.len() - 1 {
        let k = front.len() - 1;
        let piece = pieces(s, sep)[k];
        assert(piece == front.last().push(s.last()));
        assert(piece[piece.len() - 1] == s[at]);
    } else {
        lemma_pieces_cover(s.drop_last(), sep, at);
        let k = choose|k: int| 0 <= k < front.len() && (#[trigger] front[k]).contains(s.drop_last()[at]);
        let i = choose|i: int| 0 <= i < front[k].len() && front[k][i] == s[at];
        if s.last() == sep || k < front.len() - 1 {
            assert(pieces(s, sep)[k] == front[k]);
        } else {
            assert(pieces(s, sep)[k] == front[k].push(s.last()));
            assert(pieces(s, sep)[k][i] == s[at]);
        }
    }
}

/// The texts that a list of character vectors holds.
pub open spec fn texts(parts: Seq<Vec<char>>) -> Seq<Seq<char>> {
    Seq::new(parts.len(), |i: int| parts[i]@)
}

/// Cuts a text at each occurrence of `sep`.
pub fn split(chars: &[char], sep: char) -> (parts: Vec<Vec<char>>)
    ensures
        texts(parts@) == pieces(chars@, sep),
{
    let mut parts: Vec<Vec<char>> = Vec::new();
    let mut current: Vec<char> = Vec::new();
    let mut i: usize = 0;
    proof {
        assert(chars@.subrange(0, 0) == Seq::<char>::empty());
    }
    while i < chars.len()
        invariant
            i <= chars@.len(),
            texts(parts@).push(current@) == pieces(chars@.subrange(0, i as int), sep),
        decreases chars.len() - i,
    {
        let ghost prefix = chars@.subrange(0, i as int);
        let ghost next = chars@.subrange(0, i + 1);
        proof {
            assert(next.drop_last() == prefix);
            assert(next.last() == chars@[i as int]);
        }
        if chars[i] == sep {
            let ghost before = texts(parts@);
            parts.push(current);
            current = Vec::new();
            proof {
                assert(texts(parts@) =~= before.push(parts@[parts@.len() - 1]@));
                assert(texts(parts@).push(current@) == pieces(next, sep));
            }
        } else {
            let ghost before = current@;
            current.push(chars[i]);
            proof {
                let all = texts(parts@).push(before);
                assert(texts(parts@).push(current@) == all.update(
                    all.len() - 1,
                    all.last().push(chars@[i as int]),
                ));
            }
        }
        i += 1;
    }
    proof {
        assert(chars@.subrange(0, chars@.len() as int) == chars@);
    }
    let ghost before = texts(parts@);
    parts.push(current);
    proof {
        assert(texts(parts@) =~= before.push(parts@[parts@.len() - 1]@));
    }
    parts
}

} // verus!
