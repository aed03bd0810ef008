//! Character-level text operations used by the Azure lookups, each stated
//! over the sequence of characters of its arguments.
use vstd::prelude::*;

verus! {

/// `std::string::String::push`: its documentation says that it appends the
/// given character to the end of the string. The contract claims exactly
/// that: the characters afterwards are those before, then `ch`.
pub assume_specification[ String::push ](s: &mut String, ch: char)
    ensures
        final(s)@ == old(s)@.push(ch),
;

/// The ASCII lower-case form of one character: `A`..=`Z` become `a`..=`z`,
/// every other character stays as it is.
pub open spec fn lower_char(c: char) -> char {
    if 'A' <= c && c <= 'Z' {
        ((c as u32) + 32) as char
    } else {
        c
    }
}

/// The ASCII lower-case form of a text, character by character.
pub open spec fn ascii_lower(s: Seq<char>) -> Seq<char> {
    Seq::new(s.len(), |i: int| lower_char(s[i]))
}

/// The characters with the Unicode `White_Space` property.
pub open spec fn is_white_space(c: char) -> bool {
    ||| ('\u{9}' <= c && c <= '\u{d}')
    ||| c == ' '
    ||| c == '\u{85}'
    ||| c == '\u{a0}'
    ||| c == '\u{1680}'
    ||| ('\u{2000}' <= c && c <= '\u{200a}')
    ||| c == '\u{2028}'
    ||| c == '\u{2029}'
    ||| c == '\u{202f}'
    ||| c == '\u{205f}'
    ||| c == '\u{3000}'
}

/// A text without its leading white space.
pub open spec fn trim_start(s: Seq<char>) -> Seq<char>
    decreases s.len(),
{
    if s.len() > 0 && is_white_space(s[0]) {
        trim_start(s.drop_first())
    } else {
        s
    }
}

/// A text without its trailing white space.
pub open spec fn trim_end(s: Seq<char>) -> Seq<char>
    decreases s.len(),
{
    if s.len() > 0 && is_white_space(s.last()) {
        trim_end(s.drop_last())
    } else {
        s
    }
}

/// A text without its leading and trailing white space.
pub open spec fn trimmed(s: Seq<char>) -> Seq<char> {
    trim_end(trim_start(s))
}

/// `p` occurs in `s` as a run of consecutive characters.
pub open spec fn has_infix(s: Seq<char>, p: Seq<char>) -> bool {
    exists|i: int| 0 <= i && i + p.len() <= s.len() && #[trigger] s.subrange(i, i + p.len()) == p
}

/// The part of a text before its first `.`, the whole text where it has none.
pub open spec fn first_label(s: Seq<char>) -> Seq<char>
    decreases s.len(),
{
    if s.len() == 0 || s[0] == '.' {
        Seq::empty()
    } else {
        seq![s[0]] + first_label(s.drop_first())
    }
}

/// The parts, in order, with one space between each two.
pub open spec fn joined_with_spaces(parts: Seq<Seq<char>>) -> Seq<char>
    decreases parts.len(),
{
    if parts.len() == 0 {
        Seq::empty()
    } else if parts.len() == 1 {
        parts[0]
    } else {
        joined_with_spaces(parts.drop_last()) + seq![' '] + parts.last()
    }
}

/// Lower-casing twice is lower-casing once.
pub proof fn lemma_ascii_lower_idempotent(s: Seq<char>)
    ensures
        ascii_lower(ascii_lower(s)) == ascii_lower(s),
{
    assert forall|i: int| 0 <= i < s.len() implies lower_char(lower_char(s[i])) == lower_char(
        s[i],
    ) by {
        let c = s[i];
        if 'A' <= c && c <= 'Z' {
            assert((c as u32) + 32 <= 'z' as u32);
        }
    }
    assert(ascii_lower(ascii_lower(s)) =~= ascii_lower(s));
}

proof fn lemma_lower_char_keeps_white_space(c: char)
    ensures
        is_white_space(lower_char(c)) == is_white_space(c),
        is_white_space(c) ==> lower_char(c) == c,
{
}

/// Trimming a trimmed text changes nothing.
pub proof fn lemma_trimmed_idempotent(s: Seq<char>)
    ensures
        trimmed(trimmed(s)) == trimmed(s),
{
    lemma_trim_start_shape(s);
    let t = trim_start(s);
    lemma_trim_end_shape(t);
    let u = trim_end(t);
    // u starts with no white space (or is empty) and ends with none
    lemma_trim_start_stops(u);
    lemma_trim_end_stops(u);
}

/// `trim_start` removes a prefix of white space and stops at a character
/// that is none.
proof fn lemma_trim_start_shape(s: Seq<char>)
    ensures
        trim_start(s).len() <= s.len(),
        trim_start(s) == s.skip(s.len() - trim_start(s).len()),
        trim_start(s).len() > 0 ==> !is_white_space(trim_start(s)[0]),
        forall|k: int|
            0 <= k < s.len() - trim_start(s).len() ==> #[trigger] is_white_space(s[k]),
    decreases s.len(),
{
    if s.len() > 0 && is_white_space(s[0]) {
        lemma_trim_start_shape(s.drop_first());
        assert(s.drop_first().skip(s.drop_first().len() - trim_start(s).len()) =~= s.skip(
            s.len() - trim_start(s).len(),
        ));
        assert forall|k: int| 0 <= k < s.len() - trim_start(s).len() implies #[trigger] is_white_space(
            s[k],
        ) by {
            if k > 0 {
                assert(s[k] == s.drop_first()[k - 1]);
            }
        }
    } else {
        assert(s.skip(0) =~= s);
    }
}

/// `trim_end` removes a suffix of white space and stops at a character that
/// is none.
proof fn lemma_trim_end_shape(s: Seq<char>)
    ensures
        trim_end(s).len() <= s.len(),
        trim_end(s) == s.take(trim_end(s).len() as int),
        trim_end(s).len() > 0 ==> !is_white_space(trim_end(s).last()),
        forall|k: int| trim_end(s).len() <= k < s.len() ==> #[trigger] is_white_space(s[k]),
    decreases s.len(),
{
    if s.len() > 0 && is_white_space(s.last()) {
        lemma_trim_end_shape(s.drop_last());
        assert(s.drop_last().take(trim_end(s).len() as int) =~= s.take(trim_end(s).len() as int));
        assert forall|k: int| trim_end(s).len() <= k < s.len() implies #[trigger] is_white_space(
            s[k],
        ) by {
            if k < s.len() - 1 {
                assert(s[k] == s.drop_last()[k]);
            }
        }
    } else {
        assert(s.take(s.len() as int) =~= s);
    }
}

proof fn lemma_trim_start_stops(s: Seq<char>)
    requires
        s.len() > 0 ==> !is_white_space(s[0]),
    ensures
        trim_start(s) == s,
{
}

proof fn lemma_trim_end_stops(s: Seq<char>)
    requires
        s.len() > 0 ==> !is_white_space(s.last()),
    ensures
        trim_end(s) == s,
{
}

/// When the first `i` characters are white space and the character at `i`
/// (if any) is not, `trim_start` drops exactly `i` characters.
proof fn lemma_trim_start_skip(s: Seq<char>, i: int)
    requires
        0 <= i <= s.len(),
        forall|k: int| 0 <= k < i ==> #[trigger] is_white_space(s[k]),
        i < s.len() ==> !is_white_space(s[i]),
    ensures
        trim_start(s) == s.skip(i),
    decreases i,
{
    if i == 0 {
        assert(s.skip(0) =~= s);
    } else {
        assert(is_white_space(s[0]));
        let t = s.drop_first();
        assert forall|k: int| 0 <= k < i - 1 implies #[trigger] is_white_space(t[k]) by {
            assert(t[k] == s[k + 1]);
            assert(is_white_space(s[k + 1]));
        }
        lemma_trim_start_skip(t, i - 1);
        assert(t.skip(i - 1) =~= s.skip(i));
    }
}

/// When the characters from `j` on are white space and the one before `j`
/// (if any) is not, `trim_end` keeps exactly the first `j` characters.
proof fn lemma_trim_end_take(s: Seq<char>, j: int)
    requires
        0 <= j <= s.len(),
        forall|k: int| j <= k < s.len() ==> #[trigger] is_white_space(s[k]),
        j > 0 ==> !is_white_space(s[j - 1]),
    ensures
        trim_end(s) == s.take(j),
    decreases s.len() - j,
{
    if j == s.len() {
        assert(s.take(j) =~= s);
    } else {
        assert(is_white_space(s.last()));
        let t = s.drop_last();
        assert forall|k: int| j <= k < t.len() implies #[trigger] is_white_space(t[k]) by {
            assert(t[k] == s[k]);
        }
        lemma_trim_end_take(t, j);
        assert(t.take(j) =~= s.take(j));
    }
}

/// When no character before `i` is a `.` and the one at `i` (if any) is,
/// the first label is the first `i` characters.
proof fn lemma_first_label_take(s: Seq<char>, i: int)
    requires
        0 <= i <= s.len(),
        forall|k: int| 0 <= k < i ==> #[trigger] s[k] != '.',
        i < s.len() ==> s[i] == '.',
    ensures
        first_label(s) == s.take(i),
    decreases i,
{
    if i == 0 {
        assert(s.take(0) =~= Seq::<char>::empty());
    } else {
        assert(s[0] != '.');
        let t = s.drop_first();
        assert forall|k: int| 0 <= k < i - 1 implies #[trigger] t[k] != '.' by {
            assert(t[k] == s[k + 1]);
            assert(s[k + 1] != '.');
        }
        lemma_first_label_take(t, i - 1);
        assert(seq![s[0]] + t.take(i - 1) =~= s.take(i));
    }
}

/// The first label of a text holds no `.` and begins the text.
pub proof fn lemma_first_label_is_dotless_prefix(s: Seq<char>)
    ensures
        first_label(s).len() <= s.len(),
        first_label(s) == s.take(first_label(s).len() as int),
        forall|k: int| 0 <= k < first_label(s).len() ==> #[trigger] first_label(s)[k] != '.',
        first_label(s).len() < s.len() ==> s[first_label(s).len() as int] == '.',
        s.len() > 0 && s[0] != '.' ==> first_label(s).len() > 0,
    decreases s.len(),
{
    if s.len() == 0 || s[0] == '.' {
        assert(s.take(0) =~= Seq::<char>::empty());
    } else {
        let t = s.drop_first();
        lemma_first_label_is_dotless_prefix(t);
        let l = first_label(s);
        assert(l =~= seq![s[0]] + first_label(t));
        assert(l =~= s.take(l.len() as int));
        assert forall|k: int| 0 <= k < l.len() implies #[trigger] l[k] != '.' by {
            if k > 0 {
                assert(l[k] == first_label(t)[k - 1]);
            }
        }
        if l.len() < s.len() {
            assert(s[l.len() as int] == t[l.len() - 1]);
        }
    }
}

/// `s[i..j]` is the run of `s` from its first to its last character that
/// is not white space: it begins and ends with such a character, and all
/// that lies outside it is white space.
pub open spec fn is_inner_run(s: Seq<char>, i: int, j: int) -> bool {
    &&& 0 <= i < j <= s.len()
    &&& !is_white_space(s[i])
    &&& !is_white_space(s[j - 1])
    &&& forall|k: int| 0 <= k < i ==> #[trigger] is_white_space(s[k])
    &&& forall|k: int| j <= k < s.len() ==> #[trigger] is_white_space(s[k])
}

/// Trimming keeps exactly the run from the first to the last character that
/// is not white space, unchanged; it leaves nothing exactly when every
/// character is white space.
pub proof fn lemma_trimmed_is_inner_run(s: Seq<char>)
    ensures
        trimmed(s).len() == 0 <==> forall|k: int| 0 <= k < s.len() ==> #[trigger] is_white_space(s[k]),
        trimmed(s).len() > 0 ==> exists|i: int, j: int|
            is_inner_run(s, i, j) && trimmed(s) == #[trigger] s.subrange(i, j),
{
    lemma_trim_start_shape(s);
    let t = trim_start(s);
    let a = s.len() - t.len();
    lemma_trim_end_shape(t);
    let u = trim_end(t);
    let b = u.len() as int;
    assert forall|k: int| 0 <= k < t.len() implies t[k] == s[a + k] by {}
    if u.len() == 0 {
        assert forall|k: int| 0 <= k < s.len() implies #[trigger] is_white_space(s[k]) by {
            if k >= a {
                assert(t[k - a] == s[k]);
                assert(is_white_space(t[k - a]));
            }
        }
    } else {
        assert(u[0] == t[0]);
        assert(s[a] == t[0]);
        assert(s[a + b - 1] == t[b - 1]);
        assert(u.last() == t[b - 1]);
        assert forall|k: int| a + b <= k < s.len() implies #[trigger] is_white_space(s[k]) by {
            assert(t[k - a] == s[k]);
            assert(is_white_space(t[k - a]));
        }
        assert(is_inner_run(s, a, a + b));
        assert(u =~= s.subrange(a, a + b));
        assert(!is_white_space(s[a]));
    }
}

/// White space, by the Unicode `White_Space` property.
pub fn is_white_space_char(c: char) -> (r: bool)
    ensures
        r == is_white_space(c),
{
    ('\u{9}' <= c && c <= '\u{d}') || c == ' ' || c == '\u{85}' || c == '\u{a0}' || c
        == '\u{1680}' || ('\u{2000}' <= c && c <= '\u{200a}') || c == '\u{2028}' || c
        == '\u{2029}' || c == '\u{202f}' || c == '\u{205f}' || c == '\u{3000}'
}

/// The ASCII lower-case form of one character.
pub fn lower_ascii_char(c: char) -> (r: char)
    ensures
        r == lower_char(c),
{
    if 'A' <= c && c <= 'Z' {
        let b: u8 = c as u8;
        (b + 32) as char
    } else {
        c
    }
}

/// The characters of a text, in order.
pub fn chars_of(s: &str) -> (r: Vec<char>)
    ensures
        r@ == s@,
{
    let mut r: Vec<char> = Vec::new();
    for c in it: s.chars()
        invariant
            r@ == it.seq().take(it.index()),
    {
        r.push(c);
    }
    r
}

/// A text made of the characters `cs[from..to]`.
pub fn string_of(cs: &Vec<char>, from: usize, to: usize) -> (r: String)
    requires
        from <= to <= cs.len(),
    ensures
        r@ == cs@.subrange(from as int, to as int),
{
    let mut r = String::new();
    let mut i = from;
    while i < to
        invariant
            from <= i <= to <= cs.len(),
            r@ == cs@.subrange(from as int, i as int),
        decreases to - i,
    {
        r.push(cs[i]);
        i = i + 1;
        assert(r@ =~= cs@.subrange(from as int, i as int));
    }
    r
}

/// `s` with each ASCII upper-case letter replaced by its lower-case form.
pub fn to_ascii_lowercase(s: &str) -> (r: String)
    ensures
        r@ == ascii_lower(s@),
{
    let cs = chars_of(s);
    let mut r = String::new();
    let mut i: usize = 0;
    while i < cs.len()
        invariant
            i <= cs.len(),
            cs@ == s@,
            r@ == ascii_lower(cs@.take(i as int)),
        decreases cs.len() - i,
    {
        let c = lower_ascii_char(cs[i]);
        r.push(c);
        i = i + 1;
        assert(r@ =~= ascii_lower(cs@.take(i as int)));
    }
    assert(cs@.take(cs.len() as int) =~= cs@);
    r
}

/// Whether two texts are equal once both are lower-cased in ASCII.
pub fn eq_ignore_ascii_case(a: &str, b: &str) -> (r: bool)
    ensures
        r == (ascii_lower(a@) == ascii_lower(b@)),
{
    let x = chars_of(a);
    let y = chars_of(b);
    if x.len() != y.len() {
        assert(ascii_lower(a@).len() != ascii_lower(b@).len());
        return false;
    }
    let mut i: usize = 0;
    while i < x.len()
        invariant
            i <= x.len() == y.len(),
            x@ == a@,
            y@ == b@,
            forall|k: int| 0 <= k < i ==> lower_char(#[trigger] x@[k]) == lower_char(y@[k]),
        decreases x.len() - i,
    {
        if lower_ascii_char(x[i]) != lower_ascii_char(y[i]) {
            assert(ascii_lower(a@)[i as int] != ascii_lower(b@)[i as int]);
            return false;
        }
        i = i + 1;
    }
    assert(ascii_lower(a@) =~= ascii_lower(b@));
    true
}

/// `s` without its leading and trailing white space.
pub fn trim(s: &str) -> (r: String)
    ensures
        r@ == trimmed(s@),
{
    let cs = chars_of(s);
    let n = cs.len();
    let mut i: usize = 0;
    while i < n && is_white_space_char(cs[i])
        invariant
            i <= n == cs.len(),
            forall|k: int| 0 <= k < i ==> #[trigger] is_white_space(cs@[k]),
        decreases n - i,
    {
        i = i + 1;
    }
    let mut j: usize = n;
    while j > i && is_white_space_char(cs[j - 1])
        invariant
            i <= j <= n == cs.len(),
            forall|k: int| j <= k < n ==> #[trigger] is_white_space(cs@[k]),
        decreases j,
    {
        j = j - 1;
    }
    proof {
        lemma_trim_start_skip(cs@, i as int);
        let t = cs@.skip(i as int);
        assert forall|k: int| j - i <= k < t.len() implies #[trigger] is_white_space(t[k]) by {
            assert(t[k] == cs@[k + i]);
        }
        if j > i {
            assert(t[j - i - 1] == cs@[j - 1]);
        }
        lemma_trim_end_take(t, j - i);
        assert(t.take(j - i) =~= cs@.subrange(i as int, j as int));
    }
    string_of(&cs, i, j)
}

/// Whether `p` begins at position `at` of `s`.
fn occurs_at(s: &Vec<char>, p: &Vec<char>, at: usize) -> (r: bool)
    requires
        at + p.len() <= s.len(),
    ensures
        r == (s@.subrange(at as int, at + p.len()) == p@),
{
    let mut k: usize = 0;
    while k < p.len()
        invariant
            k <= p.len(),
            at + p.len() <= s.len(),
            forall|q: int| 0 <= q < k ==> s@[at + q] == #[trigger] p@[q],
        decreases p.len() - k,
    {
        if s[at + k] != p[k] {
            assert(s@.subrange(at as int, at + p.len())[k as int] != p@[k as int]);
            return false;
        }
        k = k + 1;
    }
    assert(s@.subrange(at as int, at + p.len()) =~= p@);
    true
}

/// Whether `p` occurs in `s`.
pub fn contains_infix(s: &str, p: &str) -> (r: bool)
    ensures
        r == has_infix(s@, p@),
{
    let x = chars_of(s);
    let y = chars_of(p);
    if y.len() == 0 {
        assert(s@.subrange(0, 0 + p@.len() as int) =~= p@);
        return true;
    }
    if y.len() > x.len() {
        return false;
    }
    let last = x.len() - y.len();
    let mut at: usize = 0;
    while at <= last
        invariant
            last + y.len() == x.len(),
            y.len() > 0,
            at <= last + 1,
            x@ == s@,
            y@ == p@,
            forall|q: int| 0 <= q < at ==> #[trigger] x@.subrange(q, q + y.len()) != y@,
        decreases last + 1 - at,
    {
        if occurs_at(&x, &y, at) {
            return true;
        }
        at = at + 1;
    }
    assert forall|q: int| 0 <= q && q + p@.len() <= s@.len() implies #[trigger] s@.subrange(
        q,
        q + p@.len(),
    ) != p@ by {
        assert(x@.subrange(q, q + y.len()) != y@);
    }
    false
}

/// The part of `s` before its first `.`, the whole of `s` where it has none.
pub fn first_label_of(s: &str) -> (r: String)
    ensures
        r@ == first_label(s@),
{
    let cs = chars_of(s);
    let mut i: usize = 0;
    while i < cs.len() && cs[i] != '.'
        invariant
            i <= cs.len(),
            forall|k: int| 0 <= k < i ==> #[trigger] cs@[k] != '.',
        decreases cs.len() - i,
    {
        i = i + 1;
    }
    proof {
        lemma_first_label_take(cs@, i as int);
        assert(cs@.take(i as int) =~= cs@.subrange(0, i as int));
    }
    string_of(&cs, 0, i)
}

/// The texts of `parts`, in order, with one space between each two.
pub fn join_with_spaces(parts: &Vec<String>) -> (r: String)
    ensures
        r@ == joined_with_spaces(parts.deep_view()),
{
    let mut r = String::new();
    let ghost all = parts.deep_view();
    let mut i: usize = 0;
    while i < parts.len()
        invariant
            i <= parts.len(),
            all == parts.deep_view(),
            r@ == joined_with_spaces(all.take(i as int)),
        decreases parts.len() - i,
    {
        if i > 0 {
            r.append(" ");
        }
        r.append(parts[i].as_str());
        proof {
            let next = all.take(i + 1);
            assert(next.drop_last() =~= all.take(i as int));
            assert(next.last() == parts[i as int]@);
            if i == 0 {
                assert(next.len() == 1);
            }
            reveal_strlit(" ");
        }
        i = i + 1;
    }
    assert(all.take(parts.len() as int) =~= all);
    r
}

/// Lower-casing a trimmed text leaves it trimmed.
pub proof fn lemma_trimmed_of_lower(t: Seq<char>)
    requires
        trimmed(t) == t,
    ensures
        trimmed(ascii_lower(t)) == ascii_lower(t),
{
    lemma_trim_start_shape(t);
    lemma_trim_end_shape(trim_start(t));
    let u = ascii_lower(t);
    if t.len() > 0 {
        lemma_lower_char_keeps_white_space(t[0]);
        lemma_lower_char_keeps_white_space(t.last());
        // t neither begins nor ends with white space
        if is_white_space(t[0]) {
            assert(trim_start(t).len() < t.len());
            assert(trimmed(t).len() < t.len());
        }
        if is_white_space(t.last()) {
            assert(trim_start(t) == t);
            assert(trim_end(t).len() < t.len());
        }
    }
    lemma_trim_start_stops(u);
    lemma_trim_end_stops(u);
}

} // verus!
