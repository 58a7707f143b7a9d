//! Text measures and separators shared by the themes and the renderer.

use vstd::prelude::*;

verus! {

/// The number of line feeds in `s`.
pub open spec fn line_breaks(s: Seq<char>) -> nat
    decreases s.len(),
{
    if s.len() == 0 {
        0
    } else {
        line_breaks(s.drop_last()) + if s.last() == '\n' {
            1nat
        } else {
            0nat
        }
    }
}

/// Line feeds are counted piece by piece.
pub broadcast proof fn lemma_line_breaks_concat(a: Seq<char>, b: Seq<char>)
    ensures
        #[trigger] line_breaks(a + b) == line_breaks(a) + line_breaks(b),
    decreases b.len(),
{
    if b.len() == 0 {
        assert(a + b == a);
    } else {
        lemma_line_breaks_concat(a, b.drop_last());
        assert((a + b).drop_last() == a + b.drop_last());
    }
}

/// A character at the end adds a line feed if it is one.
pub broadcast proof fn lemma_line_breaks_push(s: Seq<char>, c: char)
    ensures
        #[trigger] line_breaks(s.push(c)) == line_breaks(s) + if c == '\n' {
            1nat
        } else {
            0nat
        },
{
    assert(s.push(c).drop_last() == s);
}

/// Counts the line feeds of `s`.
pub fn count_line_breaks(s: &str) -> (n: usize)
    ensures
        n == line_breaks(s@),
{
    // The count stays below the length, which fits: the addition cannot
    // overflow.
    let len: usize = s.unicode_len();
    let mut n: usize = 0;
    for c in it: s.chars()
        invariant
            it.seq() == s@,
            s@.len() == len,
            n <= it.index(),
            n == line_breaks(s@.take(it.index() as int)),
    {
        proof {
            let k = it.index() as int;
            assert(s@.take(k + 1).drop_last() == s@.take(k));
        }
        if c == '\n' {
            n = n + 1;
        }
    }
    proof {
        assert(s@.take(s@.len() as int) == s@);
    }
    n
}

/// The ASCII upper case of `c`: `a` to `z` become `A` to `Z`, every other
/// character stays as it is.
pub open spec fn ascii_upper(c: char) -> char {
    if 'a' <= c && c <= 'z' {
        ((c as u32) - 32) as char
    } else {
        c
    }
}

/// `char::to_ascii_uppercase` of the standard library maps the ASCII letters
/// `a` to `z` to `A` to `Z` and leaves every other character unchanged.
pub assume_specification[ char::to_ascii_uppercase ](c: &char) -> (r: char)
    ensures
        r == ascii_upper(*c),
;

/// `String::push` of the standard library appends one character at the end.
pub assume_specification[ String::push ](s: &mut String, c: char)
    ensures
        final(s)@ == old(s)@.push(c),
;

/// The parts in order, with `sep` between each two neighbours.
pub open spec fn join(parts: Seq<Seq<char>>, sep: Seq<char>) -> Seq<char>
    decreases parts.len(),
{
    if parts.len() == 0 {
        Seq::empty()
    } else if parts.len() == 1 {
        parts[0]
    } else {
        join(parts.drop_last(), sep) + sep + parts.last()
    }
}

/// Choice `i` as a key prompt shows it: in ASCII upper case where it is the
/// default, as it is otherwise.
pub open spec fn key_choice(default: Option<u8>, choices: Seq<char>, i: int) -> Seq<char> {
    if default matches Some(d) && d as int == i {
        seq![ascii_upper(choices[i])]
    } else {
        seq![choices[i]]
    }
}

/// The choices of a key prompt, separated by `/`, the default one in upper
/// case. Without a default no choice is changed.
pub open spec fn key_choices(default: Option<u8>, choices: Seq<char>) -> Seq<char> {
    join(Seq::new(choices.len(), |i: int| key_choice(default, choices, i)), seq!['/'])
}

/// Renders the choices of a key prompt: every choice in order, `/` between
/// them, and the choice at index `default` in ASCII upper case.
pub fn key_choices_text(default: Option<u8>, choices: &Vec<char>) -> (keys: String)
    ensures
        keys@ == key_choices(default, choices@),
{
    let mut keys = String::new();
    let mut pos: usize = 0;
    while pos < choices.len()
        invariant
            pos <= choices.len(),
            keys@ == key_choices(default, choices@.take(pos as int)),
        decreases choices.len() - pos,
    {
        let choice: char = choices[pos];
        let is_default: bool = match default {
            Some(d) => pos == d as usize,
            None => false,
        };
        proof {
            let before = choices@.take(pos as int);
            let now = choices@.take(pos as int + 1);
            let parts_before = Seq::new(before.len(), |i: int| key_choice(default, before, i));
            let parts_now = Seq::new(now.len(), |i: int| key_choice(default, now, i));
            assert(parts_now.drop_last() == parts_before);
            assert(parts_now.last() == key_choice(default, choices@, pos as int));
        }
        if pos != 0 {
            keys.push('/');
        }
        if is_default {
            keys.push(choice.to_ascii_uppercase());
        } else {
            keys.push(choice);
        }
        pos += 1;
    }
    proof {
        assert(choices@.take(choices@.len() as int) == choices@);
    }
    keys
}

/// The views of the texts in `parts`, in order.
pub open spec fn views(parts: Seq<&str>) -> Seq<Seq<char>> {
    Seq::new(parts.len(), |i: int| parts[i]@)
}

/// The views of the owned texts in `parts`, in order.
pub open spec fn string_views(parts: Seq<String>) -> Seq<Seq<char>> {
    Seq::new(parts.len(), |i: int| parts[i]@)
}

/// The view of an optional text.
pub open spec fn option_view(text: Option<&str>) -> Option<Seq<char>> {
    match text {
        Some(t) => Some(t@),
        None => None,
    }
}

/// Borrows every text of `parts`.
pub fn borrow_all(parts: &Vec<String>) -> (refs: Vec<&str>)
    ensures
        views(refs@) == string_views(parts@),
{
    let mut refs: Vec<&str> = Vec::new();
    let mut i: usize = 0;
    while i < parts.len()
        invariant
            i <= parts.len(),
            refs@.len() == i,
            forall|j: int| 0 <= j < i ==> (#[trigger] refs@[j])@ == parts@[j]@,
        decreases parts.len() - i,
    {
        refs.push(parts[i].as_str());
        i += 1;
    }
    assert(views(refs@) =~= string_views(parts@));
    refs
}

/// The texts of `first` have, one by one, the line feeds of those of
/// `second`.
pub open spec fn same_line_breaks(first: Seq<Seq<char>>, second: Seq<Seq<char>>) -> bool {
    first.len() == second.len() && forall|i: int|
        0 <= i < first.len() ==> line_breaks(#[trigger] first[i]) == line_breaks(second[i])
}

/// Joined texts have the line feeds of their parts and of the separators
/// between them: parts with the same line feeds join to texts with the same
/// line feeds.
pub proof fn lemma_join_line_breaks(first: Seq<Seq<char>>, second: Seq<Seq<char>>, sep: Seq<char>)
    requires
        same_line_breaks(first, second),
    ensures
        line_breaks(join(first, sep)) == line_breaks(join(second, sep)),
    decreases first.len(),
{
    broadcast use lemma_line_breaks_concat;

    if first.len() >= 2 {
        let a = first.drop_last();
        let b = second.drop_last();
        assert forall|i: int| 0 <= i < a.len() implies line_breaks(#[trigger] a[i]) == line_breaks(
            b[i],
        ) by {
            assert(a[i] == first[i]);
            assert(b[i] == second[i]);
        }
        lemma_join_line_breaks(a, b, sep);
        assert(line_breaks(first.last()) == line_breaks(second.last())) by {
            assert(first.last() == first[first.len() - 1]);
        }
    } else if first.len() == 1 {
        assert(line_breaks(first[0]) == line_breaks(second[0]));
    }
}

} // verus!
