//! Text over Unicode scalar values: whitespace, trimming, ASCII case folding,
//! tokens, searching. Each function computes on a `Vec<char>` and is stated
//! over the `Seq<char>` it holds.
use vstd::prelude::*;

verus! {

broadcast use vstd::string::group_string_axioms;

// ---------------------------------------------------------------------------
// Definitions.
// ---------------------------------------------------------------------------

/// Unicode `White_Space`: the characters that `char::is_whitespace` accepts.
pub open spec fn is_ws(c: char) -> bool {
    ||| ('\t' <= c && c <= '\r')
    ||| c == ' '
    ||| c == '\u{85}'
    ||| c == '\u{a0}'
    ||| c == '\u{1680}'
    ||| ('\u{2000}' <= c && c <= '\u{200a}')
    ||| c == '\u{2028}'
    ||| c == '\u{2029}'
    ||| c == '\u{202f}'
    ||| c == '\u{205f}'
    ||| c == '\u{3000}'
}

/// ASCII lower case of one character; any other character stays as it is.
pub open spec fn lower(c: char) -> char {
    if 'A' <= c && c <= 'Z' {
        ((c as u32) + 32) as char
    } else {
        c
    }
}

/// ASCII lower case of a text.
pub open spec fn lower_seq(s: Seq<char>) -> Seq<char> {
    Seq::new(s.len(), |i: int| lower(s[i]))
}

/// The text without its leading whitespace.
pub open spec fn trim_start(s: Seq<char>) -> Seq<char>
    decreases s.len(),
{
    if s.len() > 0 && is_ws(s[0]) {
        trim_start(s.drop_first())
    } else {
        s
    }
}

/// The text without its trailing whitespace.
pub open spec fn trim_end(s: Seq<char>) -> Seq<char>
    decreases s.len(),
{
    if s.len() > 0 && is_ws(s.last()) {
        trim_end(s.drop_last())
    } else {
        s
    }
}

/// The text without leading and trailing whitespace.
pub open spec fn trim(s: Seq<char>) -> Seq<char> {
    trim_end(trim_start(s))
}

/// The longest prefix that holds no whitespace.
pub open spec fn take_word(s: Seq<char>) -> Seq<char>
    decreases s.len(),
{
    if s.len() > 0 && !is_ws(s[0]) {
        seq![s[0]] + take_word(s.drop_first())
    } else {
        Seq::empty()
    }
}

/// The first whitespace-separated word, or the empty text when there is none.
pub open spec fn first_word(s: Seq<char>) -> Seq<char> {
    take_word(trim_start(s))
}

/// The text without its leading `-` characters.
pub open spec fn strip_dashes(s: Seq<char>) -> Seq<char>
    decreases s.len(),
{
    if s.len() > 0 && s[0] == '-' {
        strip_dashes(s.drop_first())
    } else {
        s
    }
}

/// The text without its leading ASCII digits.
pub open spec fn strip_digits(s: Seq<char>) -> Seq<char>
    decreases s.len(),
{
    if s.len() > 0 && '0' <= s[0] && s[0] <= '9' {
        strip_digits(s.drop_first())
    } else {
        s
    }
}

/// `p` is a prefix of `s`.
pub open spec fn starts_with(s: Seq<char>, p: Seq<char>) -> bool {
    p.len() <= s.len() && s.subrange(0, p.len() as int) == p
}

/// `key` occurs in `s` at position `i`.
pub open spec fn occurs_at(s: Seq<char>, key: Seq<char>, i: int) -> bool {
    0 <= i && i + key.len() <= s.len() && s.subrange(i, i + key.len()) == key
}

/// The first position at or after `i` where `key` occurs in `s`.
pub open spec fn find_from(s: Seq<char>, key: Seq<char>, i: int) -> Option<int>
    decreases s.len() + 1 - i,
{
    if i < 0 || i + key.len() > s.len() {
        None
    } else if occurs_at(s, key, i) {
        Some(i)
    } else {
        find_from(s, key, i + 1)
    }
}

/// The first position where `key` occurs in `s`.
pub open spec fn find(s: Seq<char>, key: Seq<char>) -> Option<int> {
    find_from(s, key, 0)
}

/// A position that `find_from` gives lies in range, with the key after it.
pub proof fn lemma_find_in_range(s: Seq<char>, key: Seq<char>, i: int)
    requires
        find_from(s, key, i) is Some,
    ensures
        0 <= i <= find_from(s, key, i)->0,
        find_from(s, key, i)->0 + key.len() <= s.len(),
    decreases s.len() + 1 - i,
{
    if !(i < 0 || i + key.len() > s.len()) && !occurs_at(s, key, i) {
        lemma_find_in_range(s, key, i + 1);
    }
}

/// Every `\` followed by `q` replaced, left to right, by `q` alone.
pub open spec fn unescape(s: Seq<char>, q: char) -> Seq<char>
    decreases s.len(),
{
    if s.len() >= 2 && s[0] == '\\' && s[1] == q {
        seq![q] + unescape(s.skip(2), q)
    } else if s.len() == 0 {
        s
    } else {
        seq![s[0]] + unescape(s.drop_first(), q)
    }
}

// ---------------------------------------------------------------------------
// Facts about the definitions.
// ---------------------------------------------------------------------------

/// Trimming the front twice changes nothing more.
pub proof fn lemma_trim_start_idempotent(s: Seq<char>)
    ensures
        trim_start(trim_start(s)) == trim_start(s),
        trim_start(s).len() > 0 ==> !is_ws(trim_start(s)[0]),
    decreases s.len(),
{
    if s.len() > 0 && is_ws(s[0]) {
        lemma_trim_start_idempotent(s.drop_first());
    }
}

/// The word taken from the front of a text is a prefix of it.
pub proof fn lemma_take_word_prefix(s: Seq<char>)
    ensures
        take_word(s).len() <= s.len(),
        take_word(s) == s.take(take_word(s).len() as int),
    decreases s.len(),
{
    if s.len() > 0 && !is_ws(s[0]) {
        lemma_take_word_prefix(s.drop_first());
        assert(seq![s[0]] + s.drop_first().take(take_word(s.drop_first()).len() as int) =~= s.take(
            take_word(s).len() as int,
        ));
    } else {
        assert(s.take(0) =~= Seq::<char>::empty());
    }
}

/// A run of `k` non-whitespace characters ended by whitespace (or by the end
/// of the text) is the word at the front.
pub proof fn lemma_take_word_at(s: Seq<char>, k: int)
    requires
        0 <= k <= s.len(),
        forall|j: int| 0 <= j < k ==> !is_ws(#[trigger] s[j]),
        k == s.len() || is_ws(s[k]),
    ensures
        take_word(s) == s.take(k),
    decreases k,
{
    if k == 0 {
        assert(s.take(0) =~= Seq::<char>::empty());
    } else {
        assert forall|j: int| 0 <= j < k - 1 implies !is_ws(#[trigger] s.drop_first()[j]) by {
            assert(s.drop_first()[j] == s[j + 1]);
        }
        lemma_take_word_at(s.drop_first(), k - 1);
        assert(seq![s[0]] + s.drop_first().take(k - 1) =~= s.take(k));
    }
}

/// Trimming the back twice changes nothing more.
pub proof fn lemma_trim_end_idempotent(s: Seq<char>)
    ensures
        trim_end(trim_end(s)) == trim_end(s),
{
    lemma_trim_end_prefix(s);
}

/// What `trim_end` leaves of a text that starts with a non-whitespace
/// character starts with that character.
pub proof fn lemma_trim_end_keeps_front(s: Seq<char>)
    requires
        s.len() > 0,
        !is_ws(s[0]),
    ensures
        trim_end(s).len() > 0,
        trim_end(s)[0] == s[0],
    decreases s.len(),
{
    if is_ws(s.last()) {
        lemma_trim_end_keeps_front(s.drop_last());
    }
}

/// Trimming twice changes nothing more; a trimmed text that is not empty
/// starts and ends with non-whitespace.
pub proof fn lemma_trim_idempotent(s: Seq<char>)
    ensures
        trim(trim(s)) == trim(s),
        trim_start(trim(s)) == trim(s),
        trim(s).len() > 0 ==> !is_ws(trim(s)[0]) && !is_ws(trim(s).last()),
{
    let x = trim_start(s);
    lemma_trim_start_idempotent(s);
    lemma_trim_end_prefix(x);
    if x.len() > 0 {
        lemma_trim_end_keeps_front(x);
    }
    lemma_trim_end_idempotent(x);
}

/// A whitespace character at the end does not change the first word.
pub proof fn lemma_take_word_push_ws(s: Seq<char>, c: char)
    requires
        is_ws(c),
    ensures
        take_word(s.push(c)) == take_word(s),
    decreases s.len(),
{
    if s.len() > 0 && !is_ws(s[0]) {
        lemma_take_word_push_ws(s.drop_first(), c);
        assert(s.push(c).drop_first() =~= s.drop_first().push(c));
    }
}

/// Trailing whitespace does not change the first word.
pub proof fn lemma_take_word_trim_end(s: Seq<char>)
    ensures
        take_word(trim_end(s)) == take_word(s),
    decreases s.len(),
{
    if s.len() > 0 && is_ws(s.last()) {
        lemma_take_word_trim_end(s.drop_last());
        lemma_take_word_push_ws(s.drop_last(), s.last());
        assert(s.drop_last().push(s.last()) =~= s);
    }
}

/// Surrounding whitespace does not change the first word.
pub proof fn lemma_first_word_trim(s: Seq<char>)
    ensures
        first_word(trim(s)) == first_word(s),
{
    lemma_trim_idempotent(s);
    lemma_take_word_trim_end(trim_start(s));
}

/// ASCII lower case changes only the letters `A`–`Z`, into `a`–`z`: it
/// keeps whitespace, digits and every other character, and is idempotent.
pub proof fn lemma_lower_char(c: char)
    ensures
        is_ws(lower(c)) == is_ws(c),
        lower(lower(c)) == lower(c),
        lower(c) != c ==> 'A' <= c && c <= 'Z' && 'a' <= lower(c) && lower(c) <= 'z',
{
}

/// ASCII lower case twice changes nothing more.
pub proof fn lemma_lower_idempotent(s: Seq<char>)
    ensures
        lower_seq(lower_seq(s)) == lower_seq(s),
{
    assert forall|i: int| 0 <= i < s.len() implies lower_seq(lower_seq(s))[i] == lower_seq(s)[i] by {
        lemma_lower_char(s[i]);
    }
    assert(lower_seq(lower_seq(s)) =~= lower_seq(s));
}

/// ASCII lower case commutes with taking a part of a text.
pub proof fn lemma_lower_subrange(s: Seq<char>, i: int, j: int)
    requires
        0 <= i <= j <= s.len(),
    ensures
        lower_seq(s).subrange(i, j) == lower_seq(s.subrange(i, j)),
        lower_seq(s).skip(i) == lower_seq(s.skip(i)),
        lower_seq(s).take(j) == lower_seq(s.take(j)),
{
    assert(lower_seq(s).subrange(i, j) =~= lower_seq(s.subrange(i, j)));
    assert(lower_seq(s).skip(i) =~= lower_seq(s.skip(i)));
    assert(lower_seq(s).take(j) =~= lower_seq(s.take(j)));
}

/// ASCII lower case commutes with trimming the front.
pub proof fn lemma_trim_start_lower(s: Seq<char>)
    ensures
        trim_start(lower_seq(s)) == lower_seq(trim_start(s)),
    decreases s.len(),
{
    if s.len() > 0 {
        lemma_lower_char(s[0]);
        assert(lower_seq(s).drop_first() =~= lower_seq(s.drop_first()));
        lemma_trim_start_lower(s.drop_first());
    }
}

/// ASCII lower case commutes with trimming the back.
pub proof fn lemma_trim_end_lower(s: Seq<char>)
    ensures
        trim_end(lower_seq(s)) == lower_seq(trim_end(s)),
    decreases s.len(),
{
    if s.len() > 0 {
        lemma_lower_char(s.last());
        assert(lower_seq(s).drop_last() =~= lower_seq(s.drop_last()));
        lemma_trim_end_lower(s.drop_last());
    }
}

/// ASCII lower case commutes with trimming.
pub proof fn lemma_trim_lower(s: Seq<char>)
    ensures
        trim(lower_seq(s)) == lower_seq(trim(s)),
{
    lemma_trim_start_lower(s);
    lemma_trim_end_lower(trim_start(s));
}

/// ASCII lower case commutes with taking the front word.
pub proof fn lemma_take_word_lower(s: Seq<char>)
    ensures
        take_word(lower_seq(s)) == lower_seq(take_word(s)),
    decreases s.len(),
{
    if s.len() > 0 {
        lemma_lower_char(s[0]);
        assert(lower_seq(s).drop_first() =~= lower_seq(s.drop_first()));
        lemma_take_word_lower(s.drop_first());
        if !is_ws(s[0]) {
            assert(lower_seq(seq![s[0]] + take_word(s.drop_first())) =~= seq![lower(s[0])]
                + lower_seq(take_word(s.drop_first())));
        }
    } else {
        assert(lower_seq(Seq::<char>::empty()) =~= Seq::<char>::empty());
    }
}

/// ASCII lower case commutes with the first word.
pub proof fn lemma_first_word_lower(s: Seq<char>)
    ensures
        first_word(lower_seq(s)) == lower_seq(first_word(s)),
{
    lemma_trim_start_lower(s);
    lemma_take_word_lower(trim_start(s));
}

/// ASCII lower case commutes with stripping leading `-`.
pub proof fn lemma_strip_dashes_lower(s: Seq<char>)
    ensures
        strip_dashes(lower_seq(s)) == lower_seq(strip_dashes(s)),
    decreases s.len(),
{
    if s.len() > 0 {
        lemma_lower_char(s[0]);
        assert(lower_seq(s).drop_first() =~= lower_seq(s.drop_first()));
        lemma_strip_dashes_lower(s.drop_first());
    }
}

/// ASCII lower case commutes with stripping leading digits.
pub proof fn lemma_strip_digits_lower(s: Seq<char>)
    ensures
        strip_digits(lower_seq(s)) == lower_seq(strip_digits(s)),
    decreases s.len(),
{
    if s.len() > 0 {
        lemma_lower_char(s[0]);
        assert(lower_seq(s).drop_first() =~= lower_seq(s.drop_first()));
        lemma_strip_digits_lower(s.drop_first());
    }
}

/// ASCII lower case commutes with unescaping a quote that is not a letter.
pub proof fn lemma_unescape_lower(s: Seq<char>, q: char)
    requires
        !('A' <= q && q <= 'Z'),
        !('a' <= q && q <= 'z'),
    ensures
        unescape(lower_seq(s), q) == lower_seq(unescape(s, q)),
    decreases s.len(),
{
    if s.len() > 0 {
        lemma_lower_char(s[0]);
        if s.len() >= 2 {
            lemma_lower_char(s[1]);
        }
        if s.len() >= 2 && s[0] == '\\' && s[1] == q {
            assert(lower_seq(s).skip(2) =~= lower_seq(s.skip(2)));
            lemma_unescape_lower(s.skip(2), q);
            assert(lower_seq(seq![q] + unescape(s.skip(2), q)) =~= seq![q] + lower_seq(
                unescape(s.skip(2), q),
            ));
        } else {
            assert(lower_seq(s).drop_first() =~= lower_seq(s.drop_first()));
            lemma_unescape_lower(s.drop_first(), q);
            assert(lower_seq(seq![s[0]] + unescape(s.drop_first(), q)) =~= seq![lower(s[0])]
                + lower_seq(unescape(s.drop_first(), q)));
        }
    } else {
        assert(lower_seq(s) =~= s);
    }
}

/// What `trim_start` leaves is a suffix of the text.
pub proof fn lemma_trim_start_suffix(s: Seq<char>)
    ensures
        trim_start(s).len() <= s.len(),
        trim_start(s) == s.skip(s.len() - trim_start(s).len()),
    decreases s.len(),
{
    if s.len() > 0 && is_ws(s[0]) {
        lemma_trim_start_suffix(s.drop_first());
        assert(s.drop_first().skip(s.drop_first().len() - trim_start(s).len()) =~= s.skip(
            s.len() - trim_start(s).len(),
        ));
    } else {
        assert(s.skip(0) =~= s);
    }
}

/// What `trim_end` leaves is a prefix of the text, and does not end in whitespace.
pub proof fn lemma_trim_end_prefix(s: Seq<char>)
    ensures
        trim_end(s).len() <= s.len(),
        trim_end(s) == s.take(trim_end(s).len() as int),
        trim_end(s).len() > 0 ==> !is_ws(trim_end(s).last()),
    decreases s.len(),
{
    if s.len() > 0 && is_ws(s.last()) {
        lemma_trim_end_prefix(s.drop_last());
        assert(s.drop_last().take(trim_end(s).len() as int) =~= s.take(trim_end(s).len() as int));
    } else {
        assert(s.take(s.len() as int) =~= s);
    }
}

// ---------------------------------------------------------------------------
// Executable functions.
// ---------------------------------------------------------------------------

/// The characters of a string slice.
pub fn str_chars(s: &str) -> (v: Vec<char>)
    ensures
        v@ == s@,
{
    let mut v: Vec<char> = Vec::new();
    for c in it: s.chars()
        invariant
            it.seq() == s@,
            v@ == it.seq().take(it.index() as int),
    {
        v.push(c);
        assert(v@ =~= it.seq().take(it.index() as int + 1));
    }
    assert(v@ =~= s@);
    v
}

/// Whether `c` is Unicode whitespace.
pub fn is_whitespace(c: char) -> (r: bool)
    ensures
        r == is_ws(c),
{
    ('\t' <= c && c <= '\r') || c == ' ' || c == '\u{85}' || c == '\u{a0}' || c == '\u{1680}' || (
    '\u{2000}' <= c && c <= '\u{200a}') || c == '\u{2028}' || c == '\u{2029}' || c == '\u{202f}'
        || c == '\u{205f}' || c == '\u{3000}'
}

/// ASCII lower case of one character.
pub fn lower_char(c: char) -> (r: char)
    ensures
        r == lower(c),
{
    if 'A' <= c && c <= 'Z' {
        let b: u8 = c as u8;
        assert(b == c as u32);
        ((b + 32) as u8) as char
    } else {
        c
    }
}

/// The characters `v[from..to]`.
pub fn sub_chars(v: &Vec<char>, from: usize, to: usize) -> (r: Vec<char>)
    requires
        from <= to <= v@.len(),
    ensures
        r@ == v@.subrange(from as int, to as int),
{
    let mut r: Vec<char> = Vec::new();
    let mut i = from;
    while i < to
        invariant
            from <= i <= to <= v@.len(),
            r@ == v@.subrange(from as int, i as int),
        decreases to - i,
    {
        r.push(v[i]);
        i = i + 1;
        assert(r@ =~= v@.subrange(from as int, i as int));
    }
    r
}

/// Whether two texts are equal.
pub fn chars_eq(a: &Vec<char>, b: &Vec<char>) -> (r: bool)
    ensures
        r == (a@ == b@),
{
    if a.len() != b.len() {
        return false;
    }
    let mut i: usize = 0;
    while i < a.len()
        invariant
            a@.len() == b@.len(),
            i <= a@.len(),
            forall|j: int| 0 <= j < i ==> a@[j] == b@[j],
        decreases a@.len() - i,
    {
        if a[i] != b[i] {
            return false;
        }
        i = i + 1;
    }
    assert(a@ =~= b@);
    true
}

/// Whether the text equals a string slice.
pub fn chars_eq_str(a: &Vec<char>, s: &str) -> (r: bool)
    ensures
        r == (a@ == s@),
{
    let b = str_chars(s);
    chars_eq(a, &b)
}

/// ASCII lower case of a text.
pub fn lower_chars(v: &Vec<char>) -> (r: Vec<char>)
    ensures
        r@ == lower_seq(v@),
{
    let mut r: Vec<char> = Vec::new();
    let mut i: usize = 0;
    while i < v.len()
        invariant
            i <= v@.len(),
            r@ == lower_seq(v@.take(i as int)),
        decreases v@.len() - i,
    {
        let c = lower_char(v[i]);
        r.push(c);
        i = i + 1;
        assert(r@ =~= lower_seq(v@.take(i as int)));
    }
    assert(v@.take(v@.len() as int) =~= v@);
    r
}

/// Where the text starts once its leading whitespace is passed over.
pub fn trim_start_index(v: &Vec<char>) -> (i: usize)
    ensures
        i <= v@.len(),
        trim_start(v@) == v@.skip(i as int),
{
    let mut i: usize = 0;
    assert(v@.skip(0) =~= v@);
    while i < v.len() && is_whitespace(v[i])
        invariant
            i <= v@.len(),
            trim_start(v@) == trim_start(v@.skip(i as int)),
        decreases v@.len() - i,
    {
        assert(v@.skip(i as int).drop_first() =~= v@.skip(i + 1));
        i = i + 1;
    }
    i
}

/// The text without its leading whitespace.
pub fn trim_start_chars(v: &Vec<char>) -> (r: Vec<char>)
    ensures
        r@ == trim_start(v@),
{
    let i = trim_start_index(v);
    sub_chars(v, i, v.len())
}

/// Where the trimmed text starts and ends.
pub fn trim_bounds(v: &Vec<char>) -> (r: (usize, usize))
    ensures
        r.0 <= r.1 <= v@.len(),
        v@.subrange(r.0 as int, r.1 as int) == trim(v@),
{
    let i = trim_start_index(v);
    let mut j: usize = v.len();
    assert(v@.subrange(i as int, j as int) =~= v@.skip(i as int));
    while j > i && is_whitespace(v[j - 1])
        invariant
            i <= j <= v@.len(),
            trim(v@) == trim_end(v@.subrange(i as int, j as int)),
        decreases j,
    {
        assert(v@.subrange(i as int, j as int).drop_last() =~= v@.subrange(i as int, j - 1));
        j = j - 1;
    }
    (i, j)
}

/// The text without leading and trailing whitespace.
pub fn trim_chars(v: &Vec<char>) -> (r: Vec<char>)
    ensures
        r@ == trim(v@),
{
    let (i, j) = trim_bounds(v);
    sub_chars(v, i, j)
}

/// The string slice without leading and trailing whitespace.
pub fn trim_str(s: &str) -> (r: &str)
    ensures
        r@ == trim(s@),
{
    let v = str_chars(s);
    let (i, j) = trim_bounds(&v);
    s.substring_char(i, j)
}

/// The word at the front of a text: the longest prefix without whitespace.
pub fn take_word_chars(t: &Vec<char>) -> (r: Vec<char>)
    ensures
        r@ == take_word(t@),
{
    let mut r: Vec<char> = Vec::new();
    let mut i: usize = 0;
    assert(t@.skip(0) =~= t@);
    assert(r@ + take_word(t@) =~= take_word(t@));
    while i < t.len() && !is_whitespace(t[i])
        invariant
            i <= t@.len(),
            take_word(t@) == r@ + take_word(t@.skip(i as int)),
        decreases t@.len() - i,
    {
        assert(t@.skip(i as int).drop_first() =~= t@.skip(i + 1));
        assert(r@ + take_word(t@.skip(i as int)) =~= r@.push(t@[i as int]) + take_word(
            t@.skip(i + 1),
        ));
        r.push(t[i]);
        i = i + 1;
    }
    assert(r@ + take_word(t@.skip(i as int)) =~= r@);
    r
}

/// The first whitespace-separated word.
pub fn first_token(v: &Vec<char>) -> (r: Vec<char>)
    ensures
        r@ == first_word(v@),
{
    let t = trim_start_chars(v);
    take_word_chars(&t)
}

/// The text without its leading ASCII digits.
pub fn strip_digits_chars(v: &Vec<char>) -> (r: Vec<char>)
    ensures
        r@ == strip_digits(v@),
{
    let mut i: usize = 0;
    assert(v@.skip(0) =~= v@);
    while i < v.len() && '0' <= v[i] && v[i] <= '9'
        invariant
            i <= v@.len(),
            strip_digits(v@) == strip_digits(v@.skip(i as int)),
        decreases v@.len() - i,
    {
        assert(v@.skip(i as int).drop_first() =~= v@.skip(i + 1));
        i = i + 1;
    }
    sub_chars(v, i, v.len())
}

/// The text without its leading `-` characters.
pub fn strip_dashes_chars(v: &Vec<char>) -> (r: Vec<char>)
    ensures
        r@ == strip_dashes(v@),
{
    let mut i: usize = 0;
    assert(v@.skip(0) =~= v@);
    while i < v.len() && v[i] == '-'
        invariant
            i <= v@.len(),
            strip_dashes(v@) == strip_dashes(v@.skip(i as int)),
        decreases v@.len() - i,
    {
        assert(v@.skip(i as int).drop_first() =~= v@.skip(i + 1));
        i = i + 1;
    }
    sub_chars(v, i, v.len())
}

/// Whether `v` occurs in `s` at position `i`.
pub fn occurs_at_chars(s: &Vec<char>, key: &Vec<char>, i: usize) -> (r: bool)
    ensures
        r == occurs_at(s@, key@, i as int),
{
    if key.len() > s.len() || i > s.len() - key.len() {
        return false;
    }
    let mut k: usize = 0;
    while k < key.len()
        invariant
            s@.len() <= usize::MAX,
            i + key@.len() <= s@.len(),
            k <= key@.len(),
            forall|j: int| 0 <= j < k ==> s@[i + j] == key@[j],
        decreases key@.len() - k,
    {
        if s[i + k] != key[k] {
            assert(s@.subrange(i as int, i + key@.len())[k as int] != key@[k as int]);
            return false;
        }
        k = k + 1;
    }
    assert(s@.subrange(i as int, i + key@.len()) =~= key@);
    true
}

/// Whether `p` is a prefix of `s`.
pub fn starts_with_chars(s: &Vec<char>, p: &Vec<char>) -> (r: bool)
    ensures
        r == starts_with(s@, p@),
{
    occurs_at_chars(s, p, 0)
}

/// The first position where `key` occurs in `s`.
pub fn find_chars(s: &Vec<char>, key: &Vec<char>) -> (r: Option<usize>)
    ensures
        r matches Some(i) ==> find(s@, key@) == Some(i as int),
        r is None ==> find(s@, key@) is None,
{
    if key.len() > s.len() {
        return None;
    }
    let last = s.len() - key.len();
    let mut i: usize = 0;
    while i <= last
        invariant
            last + key@.len() == s@.len(),
            find(s@, key@) == find_from(s@, key@, i as int),
        decreases last + 1 - i,
    {
        if occurs_at_chars(s, key, i) {
            return Some(i);
        }
        if i == last {
            assert(find_from(s@, key@, i + 1) is None);
            return None;
        }
        i = i + 1;
    }
    None
}

/// Every `\` followed by `q` replaced by `q`.
pub fn unescape_chars(v: &Vec<char>, q: char) -> (r: Vec<char>)
    ensures
        r@ == unescape(v@, q),
{
    let mut r: Vec<char> = Vec::new();
    let mut i: usize = 0;
    assert(v@.skip(0) =~= v@);
    assert(r@ + unescape(v@, q) =~= unescape(v@, q));
    while i < v.len()
        invariant
            i <= v@.len(),
            unescape(v@, q) == r@ + unescape(v@.skip(i as int), q),
        decreases v@.len() - i,
    {
        let ghost rest = v@.skip(i as int);
        if i + 1 < v.len() && v[i] == '\\' && v[i + 1] == q {
            assert(rest.skip(2) =~= v@.skip(i + 2));
            assert(r@ + unescape(rest, q) =~= r@.push(q) + unescape(v@.skip(i + 2), q));
            r.push(q);
            i = i + 2;
        } else {
            assert(rest.drop_first() =~= v@.skip(i + 1));
            assert(r@ + unescape(rest, q) =~= r@.push(v@[i as int]) + unescape(
                v@.skip(i + 1),
                q,
            ));
            r.push(v[i]);
            i = i + 1;
        }
    }
    assert(r@ + unescape(v@.skip(i as int), q) =~= r@);
    r
}

/// The characters `v[from..]`.
pub fn skip_chars(v: &Vec<char>, from: usize) -> (r: Vec<char>)
    requires
        from <= v@.len(),
    ensures
        r@ == v@.skip(from as int),
{
    sub_chars(v, from, v.len())
}

} // verus!
