//! Text as sequences of characters: searching, cutting, trimming and the
//! decimal form of numbers.

use vstd::prelude::*;

verus! {

/// The position of the first `c` in `s`, or the length of `s` if there is none.
pub open spec fn index_of(s: Seq<char>, c: char) -> int
    decreases s.len(),
{
    if s.len() == 0 {
        0
    } else if s[0] == c {
        0
    } else {
        1 + index_of(s.drop_first(), c)
    }
}

/// `index_of` stays within the text, nothing before it is `c`, and what stands
/// at it is `c`.
pub proof fn lemma_index_of_bounds(s: Seq<char>, c: char)
    ensures
        0 <= index_of(s, c) <= s.len(),
        forall|j: int| 0 <= j < index_of(s, c) ==> s[j] != c,
        index_of(s, c) < s.len() ==> s[index_of(s, c)] == c,
    decreases s.len(),
{
    if s.len() > 0 && s[0] != c {
        let rest = s.drop_first();
        lemma_index_of_bounds(rest, c);
        assert forall|j: int| 0 <= j < index_of(s, c) implies s[j] != c by {
            if j > 0 {
                assert(s[j] == rest[j - 1]);
            }
        }
        assert(index_of(s, c) < s.len() ==> s[index_of(s, c)] == rest[index_of(rest, c)]);
    }
}

/// A position that nothing equal to `c` precedes, and that either ends the text
/// or holds `c`, is `index_of`.
pub proof fn lemma_index_of_is(s: Seq<char>, c: char, i: int)
    requires
        0 <= i <= s.len(),
        forall|j: int| 0 <= j < i ==> s[j] != c,
        i < s.len() ==> s[i] == c,
    ensures
        index_of(s, c) == i,
    decreases s.len(),
{
    if i > 0 {
        let rest = s.drop_first();
        assert(s[0] != c);
        assert forall|j: int| 0 <= j < i - 1 implies rest[j] != c by {
            assert(rest[j] == s[j + 1]);
        }
        lemma_index_of_is(rest, c, i - 1);
    }
}

/// The pieces of `s` between occurrences of `sep`. A text without `sep` is one
/// piece, and so is the empty text.
pub open spec fn split(s: Seq<char>, sep: char) -> Seq<Seq<char>>
    decreases s.len(),
{
    let i = index_of(s, sep);
    if 0 <= i < s.len() {
        seq![s.take(i)] + split(s.skip(i + 1), sep)
    } else {
        seq![s]
    }
}

/// `s` without `suffix` at its end, or `s` itself if it does not end so.
pub open spec fn without_suffix(s: Seq<char>, suffix: Seq<char>) -> Seq<char> {
    if ends_with(s, suffix) {
        s.take(s.len() - suffix.len())
    } else {
        s
    }
}

/// Whether `s` ends in `suffix`.
pub open spec fn ends_with(s: Seq<char>, suffix: Seq<char>) -> bool {
    suffix.len() <= s.len() && s.skip(s.len() - suffix.len()) == suffix
}

/// The number of leading characters of `s` that are `c`.
pub open spec fn leading(s: Seq<char>, c: char) -> int
    decreases s.len(),
{
    if s.len() > 0 && s[0] == c {
        1 + leading(s.drop_first(), c)
    } else {
        0
    }
}

/// The number of trailing characters of `s` that are `c`.
pub open spec fn trailing(s: Seq<char>, c: char) -> int
    decreases s.len(),
{
    if s.len() > 0 && s.last() == c {
        1 + trailing(s.drop_last(), c)
    } else {
        0
    }
}

/// `s` without the run of `c` at its start and the run of `c` at its end.
pub open spec fn trimmed(s: Seq<char>, c: char) -> Seq<char> {
    let from = leading(s, c);
    if from >= s.len() {
        Seq::empty()
    } else {
        s.subrange(from, s.len() - trailing(s, c))
    }
}

/// `s` with every `c` replaced by `with`.
pub open spec fn replaced(s: Seq<char>, c: char, with: Seq<char>) -> Seq<char>
    decreases s.len(),
{
    if s.len() == 0 {
        Seq::empty()
    } else if s.last() == c {
        replaced(s.drop_last(), c, with) + with
    } else {
        replaced(s.drop_last(), c, with).push(s.last())
    }
}

/// The character that writes the digit `d`.
pub open spec fn digit_char(d: nat) -> char {
    if d == 0 {
        '0'
    } else if d == 1 {
        '1'
    } else if d == 2 {
        '2'
    } else if d == 3 {
        '3'
    } else if d == 4 {
        '4'
    } else if d == 5 {
        '5'
    } else if d == 6 {
        '6'
    } else if d == 7 {
        '7'
    } else if d == 8 {
        '8'
    } else {
        '9'
    }
}

/// The decimal form of `n`, without leading zeros.
pub open spec fn decimal_text(n: nat) -> Seq<char>
    decreases n,
{
    if n < 10 {
        seq![digit_char(n)]
    } else {
        decimal_text(n / 10).push(digit_char(n % 10))
    }
}

/// The views of a list of texts.
pub open spec fn texts_view(texts: Seq<String>) -> Seq<Seq<char>> {
    texts.map_values(|s: String| s@)
}

/// Whether no text occurs twice in `names`.
pub open spec fn distinct(names: Seq<Seq<char>>) -> bool {
    forall|i: int, j: int| 0 <= i < j < names.len() ==> names[i] != names[j]
}

/// The first position from `from` on whose text occurs before it, or the
/// number of texts.
pub open spec fn first_repeat(names: Seq<Seq<char>>, from: int) -> int
    decreases names.len() - from,
{
    if from < 0 || from >= names.len() {
        names.len() as int
    } else if names.take(from).contains(names[from]) {
        from
    } else {
        first_repeat(names, from + 1)
    }
}

/// No text occurs twice exactly when none repeats an earlier one.
pub proof fn lemma_distinct_has_no_repeat(names: Seq<Seq<char>>, from: int)
    requires
        0 <= from <= names.len(),
        distinct(names.take(from)),
    ensures
        distinct(names) <==> first_repeat(names, from) == names.len(),
        first_repeat(names, from) < names.len() ==> distinct(
            names.take(first_repeat(names, from)),
        ),
        from <= first_repeat(names, from) <= names.len(),
    decreases names.len() - from,
{
    if from >= names.len() {
        assert(names.take(from) =~= names);
    } else if names.take(from).contains(names[from]) {
        let i = choose|i: int| 0 <= i < from && names.take(from)[i] == names[from];
        assert(names[i] == names[from]);
    } else {
        let next = names.take(from + 1);
        assert forall|i: int, j: int| 0 <= i < j < next.len() implies next[i] != next[j] by {
            if j < from {
                assert(names.take(from)[i] != names.take(from)[j]);
            } else {
                assert(names.take(from)[i] == next[i]);
                assert(names.take(from).contains(next[i]));
            }
        }
        lemma_distinct_has_no_repeat(names, from + 1);
    }
}

/// The number of characters of `s`.
pub fn char_count(s: &str) -> (n: usize)
    ensures
        n == s@.len(),
{
    s.unicode_len()
}

/// The characters of `s` from `from` up to `to`, as a text of their own.
pub(crate) fn piece(s: &str, from: usize, to: usize) -> (r: String)
    requires
        from <= to <= s@.len(),
    ensures
        r@ == s@.subrange(from as int, to as int),
{
    s.substring_char(from, to).to_owned()
}

/// Whether two texts hold the same characters.
pub fn same_text(a: &str, b: &str) -> (r: bool)
    ensures
        r == (a@ == b@),
{
    let x = a.to_owned();
    let y = b.to_owned();
    x == y
}

/// The first position at or after `from` that holds `c`, or the length of `s`.
pub(crate) fn find_from(s: &str, from: usize, c: char) -> (r: usize)
    requires
        from <= s@.len(),
    ensures
        from <= r <= s@.len(),
        r == from + index_of(s@.skip(from as int), c),
{
    let n = s.unicode_len();
    let mut i = from;
    while i < n && s.get_char(i) != c
        invariant
            from <= i <= n,
            n == s@.len(),
            forall|j: int| from <= j < i ==> s@[j] != c,
        decreases n - i,
    {
        i += 1;
    }
    proof {
        let rest = s@.skip(from as int);
        assert forall|j: int| 0 <= j < i - from implies rest[j] != c by {
            assert(rest[j] == s@[from + j]);
        }
        lemma_index_of_is(rest, c, i - from);
    }
    i
}

/// The text of one decimal digit.
fn digit_text(d: u64) -> (r: &'static str)
    requires
        d < 10,
    ensures
        r@ == seq![digit_char(d as nat)],
{
    proof {
        reveal_strlit("0");
        reveal_strlit("1");
        reveal_strlit("2");
        reveal_strlit("3");
        reveal_strlit("4");
        reveal_strlit("5");
        reveal_strlit("6");
        reveal_strlit("7");
        reveal_strlit("8");
        reveal_strlit("9");
    }
    let r = if d == 0 {
        "0"
    } else if d == 1 {
        "1"
    } else if d == 2 {
        "2"
    } else if d == 3 {
        "3"
    } else if d == 4 {
        "4"
    } else if d == 5 {
        "5"
    } else if d == 6 {
        "6"
    } else if d == 7 {
        "7"
    } else if d == 8 {
        "8"
    } else {
        "9"
    };
    assert(r@ =~= seq![digit_char(d as nat)]);
    r
}

/// Writes `n` in decimal.
pub fn decimal(n: u64) -> (r: String)
    ensures
        r@ == decimal_text(n as nat),
    decreases n,
{
    if n < 10 {
        digit_text(n).to_owned()
    } else {
        let mut r = decimal(n / 10);
        r.append(digit_text(n % 10));
        assert(r@ =~= decimal_text((n / 10) as nat).push(digit_char((n % 10) as nat)));
        r
    }
}

/// The first position whose text occurs before it in `names`, or their
/// number if no text occurs twice.
#[verifier::loop_isolation(false)]
pub fn first_repeated(names: &Vec<String>) -> (r: usize)
    ensures
        r == first_repeat(texts_view(names@), 0),
        r <= names.len(),
{
    let ghost views = texts_view(names@);
    let mut j: usize = 0;
    while j < names.len()
        invariant
            j <= names.len(),
            views == texts_view(names@),
            first_repeat(views, 0) == first_repeat(views, j as int),
        decreases names.len() - j,
    {
        let mut i: usize = 0;
        while i < j
            invariant
                i <= j < names.len(),
                views == texts_view(names@),
                forall|k: int| 0 <= k < i ==> views[k] != views[j as int],
            decreases j - i,
        {
            if names[i] == names[j] {
                assert(views.take(j as int)[i as int] == views[j as int]);
                return j;
            }
            i += 1;
        }
        assert(!views.take(j as int).contains(views[j as int])) by {
            if views.take(j as int).contains(views[j as int]) {
                let k = choose|k: int| 0 <= k < j && views.take(j as int)[k] == views[j as int];
                assert(views[k] == views[j as int]);
            }
        }
        j += 1;
    }
    names.len()
}

/// `a` followed by `b`.
pub fn joined(a: &str, b: &str) -> (r: String)
    ensures
        r@ == a@ + b@,
{
    let mut r = a.to_owned();
    r.append(b);
    r
}

/// `s` without `suffix` at its end, if it ends so.
pub fn strip_suffix(s: &str, suffix: &str) -> (r: String)
    ensures
        r@ == without_suffix(s@, suffix@),
{
    let n = s.unicode_len();
    let m = suffix.unicode_len();
    if m <= n {
        let tail = piece(s, n - m, n);
        if same_text(tail.as_str(), suffix) {
            return piece(s, 0, n - m);
        }
    }
    let r = s.to_owned();
    r
}

/// `s` without the `c`s at its start and at its end.
pub fn trim_matches(s: &str, c: char) -> (r: String)
    ensures
        r@ == trimmed(s@, c),
{
    let n = s.unicode_len();
    let mut from: usize = 0;
    assert(s@.skip(0) =~= s@);
    while from < n && s.get_char(from) == c
        invariant
            from <= n,
            n == s@.len(),
            leading(s@, c) == from + leading(s@.skip(from as int), c),
        decreases n - from,
    {
        proof {
            let rest = s@.skip(from as int);
            assert(rest[0] == s@[from as int]);
            assert(rest.drop_first() =~= s@.skip(from + 1));
        }
        from += 1;
    }
    proof {
        let rest = s@.skip(from as int);
        if from < n {
            assert(rest[0] == s@[from as int]);
        }
    }
    if from >= n {
        return String::new();
    }
    let mut to: usize = n;
    assert(s@.take(n as int) =~= s@);
    while s.get_char(to - 1) == c
        invariant
            from < to <= n,
            n == s@.len(),
            s@[from as int] != c,
            trailing(s@, c) == (n - to) + trailing(s@.take(to as int), c),
        decreases to,
    {
        proof {
            let head = s@.take(to as int);
            assert(head.last() == s@[to - 1]);
            assert(head.drop_last() =~= s@.take(to - 1));
        }
        to -= 1;
    }
    proof {
        let head = s@.take(to as int);
        assert(head.last() == s@[to - 1]);
    }
    piece(s, from, to)
}

/// `s` with every `c` replaced by `with`.
pub fn replace_char(s: &str, c: char, with: &str) -> (r: String)
    ensures
        r@ == replaced(s@, c, with@),
{
    let n = s.unicode_len();
    let mut r = String::new();
    let mut i: usize = 0;
    while i < n
        invariant
            i <= n,
            n == s@.len(),
            r@ == replaced(s@.take(i as int), c, with@),
        decreases n - i,
    {
        proof {
            let next = s@.take(i + 1);
            assert(next.drop_last() =~= s@.take(i as int));
            assert(next.last() == s@[i as int]);
        }
        if s.get_char(i) == c {
            r.append(with);
        } else {
            let one = piece(s, i, i + 1);
            r.append(one.as_str());
            assert(one@ =~= seq![s@[i as int]]);
            assert(r@ =~= replaced(s@.take(i as int), c, with@).push(s@[i as int]));
        }
        i += 1;
    }
    assert(s@.take(n as int) =~= s@);
    r
}

} // verus!
