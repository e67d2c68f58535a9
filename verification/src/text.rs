//! Text helpers over `char` sequences, with the few standard-library calls they need.

use vstd::prelude::*;

verus! {

/// The Unicode `White_Space` property, which `char::is_whitespace` tests: tab, line
/// feed, vertical tab, form feed, carriage return, space, next line, no-break space,
/// ogham space mark, the spaces U+2000 to U+200A, line and paragraph separators, narrow
/// no-break space, medium mathematical space and ideographic space.
pub open spec fn unicode_white_space(c: char) -> bool {
    let u = c as u32;
    ||| 0x9 <= u <= 0xD
    ||| u == 0x20
    ||| u == 0x85
    ||| u == 0xA0
    ||| u == 0x1680
    ||| 0x2000 <= u <= 0x200A
    ||| u == 0x2028
    ||| u == 0x2029
    ||| u == 0x202F
    ||| u == 0x205F
    ||| u == 0x3000
}

/// The characters of a string slice (`str::chars`, collected).
#[verifier::external_body]
pub(crate) fn chars_of(s: &str) -> (r: Vec<char>)
    ensures
        r@ == s@,
{
    s.chars().collect()
}

/// A string holding the given characters (`String::from_iter`).
#[verifier::external_body]
pub(crate) fn string_of(chars: &Vec<char>) -> (r: String)
    ensures
        r@ == chars@,
{
    chars.iter().collect()
}

/// Equality of two string slices (`<str as PartialEq>::eq`).
#[verifier::external_body]
pub(crate) fn str_eq(a: &str, b: &str) -> (r: bool)
    ensures
        r == (a@ == b@),
{
    a == b
}

/// `char::is_whitespace`.
#[verifier::external_body]
pub(crate) fn is_whitespace(c: char) -> (r: bool)
    ensures
        r == unicode_white_space(c),
{
    c.is_whitespace()
}

/// Every character of `s` is white space (so `s.trim()` is empty).
pub open spec fn all_white_space(s: Seq<char>) -> bool {
    forall|i: int| 0 <= i < s.len() ==> unicode_white_space(#[trigger] s[i])
}

/// Whether `s.trim()` is empty: every character is white space.
pub fn is_blank(s: &str) -> (r: bool)
    ensures
        r == all_white_space(s@),
{
    let chars = chars_of(s);
    let mut i: usize = 0;
    while i < chars.len()
        invariant
            chars@ == s@,
            i <= chars.len(),
            forall|j: int| 0 <= j < i ==> unicode_white_space(#[trigger] s@[j]),
        decreases chars.len() - i,
    {
        if !is_whitespace(chars[i]) {
            return false;
        }
        i = i + 1;
    }
    true
}

/// Appends the characters of `src` to `dst`.
pub fn push_all(dst: &mut Vec<char>, src: &Vec<char>)
    ensures
        final(dst)@ == old(dst)@ + src@,
{
    let mut i: usize = 0;
    while i < src.len()
        invariant
            i <= src.len(),
            dst@ == old(dst)@ + src@.take(i as int),
        decreases src.len() - i,
    {
        dst.push(src[i]);
        i = i + 1;
        assert(src@.take(i as int) == src@.take(i - 1).push(src@[i - 1]));
    }
    assert(src@.take(src.len() as int) == src@);
}

/// What `str::to_lowercase` returns for `s`: its characters mapped by the Unicode
/// lowercase rules.
pub uninterp spec fn lowercase_of(s: Seq<char>) -> Seq<char>;

/// `str::to_lowercase`.
#[verifier::external_body]
pub(crate) fn to_lowercase(s: &str) -> (r: String)
    ensures
        r@ == lowercase_of(s@),
{
    s.to_lowercase()
}

/// The texts held by a sequence of strings.
pub open spec fn names_of(v: Seq<String>) -> Seq<Seq<char>> {
    v.map_values(|s: String| s@)
}

/// The texts held by a sequence of strings, as a set.
pub open spec fn name_set(names: Seq<String>) -> Set<Seq<char>> {
    names_of(names).to_set()
}

/// No text occurs twice.
pub open spec fn distinct_names(names: Seq<String>) -> bool {
    names_of(names).no_duplicates()
}

/// The set after toggling `name`: it is removed when present, added otherwise.
pub open spec fn toggled(s: Set<Seq<char>>, name: Seq<char>) -> Set<Seq<char>> {
    if s.contains(name) {
        s.remove(name)
    } else {
        s.insert(name)
    }
}

/// Removes `name` from `names` where it occurs, and adds it at the end where it does not.
pub fn toggle_name(names: &mut Vec<String>, name: &str)
    requires
        distinct_names(old(names)@),
    ensures
        distinct_names(final(names)@),
        name_set(final(names)@) == toggled(name_set(old(names)@), name@),
{
    let ghost start = names_of(names@);
    let mut i: usize = 0;
    while i < names.len()
        invariant
            i <= names.len(),
            names_of(names@) == start,
            start == names_of(old(names)@),
            start.no_duplicates(),
            forall|j: int| 0 <= j < i ==> start[j] != name@,
        decreases names.len() - i,
    {
        if str_eq(names[i].as_str(), name) {
            let ghost before = names@;
            names.remove(i);
            proof {
                let after = names_of(names@);
                assert(after =~= start.remove(i as int));
                assert(start[i as int] == name@);
                start.remove(i as int).unique_seq_to_set();
                start.unique_seq_to_set();
                assert forall|x: Seq<char>| after.to_set().contains(x) <==> start.to_set().remove(name@).contains(x) by {
                    if after.contains(x) {
                        let k = choose|k: int| 0 <= k < after.len() && after[k] == x;
                        if k < i {
                            assert(start[k] == x);
                        } else {
                            assert(start[k + 1] == x);
                        }
                    }
                    if start.contains(x) && x != name@ {
                        let k = choose|k: int| 0 <= k < start.len() && start[k] == x;
                        if k < i {
                            assert(after[k] == x);
                        } else {
                            assert(k != i);
                            assert(after[k - 1] == x);
                        }
                    }
                }
                assert(after.to_set() =~= start.to_set().remove(name@));
                assert(start.to_set().contains(name@));
            }
            return;
        }
        i = i + 1;
    }
    names.push(String::from_str(name));
    proof {
        let after = names_of(names@);
        assert(after =~= start.push(name@));
        assert(!start.contains(name@));
        assert(after.no_duplicates());
        assert forall|x: Seq<char>| after.to_set().contains(x) <==> start.to_set().insert(name@).contains(x) by {
            if after.contains(x) {
                let k = choose|k: int| 0 <= k < after.len() && after[k] == x;
                if k < start.len() {
                    assert(start[k] == x);
                }
            }
            if start.contains(x) {
                let k = choose|k: int| 0 <= k < start.len() && start[k] == x;
                assert(after[k] == x);
            }
            if x == name@ {
                assert(after[start.len() as int] == x);
            }
        }
        assert(after.to_set() =~= start.to_set().insert(name@));
    }
}

/// Toggling a name twice leaves the set of names as it was.
pub proof fn law_toggle_twice(s: Set<Seq<char>>, name: Seq<char>)
    ensures
        toggled(toggled(s, name), name) == s,
{
    if s.contains(name) {
        assert(s.remove(name).insert(name) =~= s);
    } else {
        assert(s.insert(name).remove(name) =~= s);
    }
}

/// `s` without its leading white space.
pub open spec fn trim_start(s: Seq<char>) -> Seq<char>
    decreases s.len(),
{
    if s.len() > 0 && unicode_white_space(s[0]) {
        trim_start(s.drop_first())
    } else {
        s
    }
}

/// `s` without its trailing white space.
pub open spec fn trim_end(s: Seq<char>) -> Seq<char>
    decreases s.len(),
{
    if s.len() > 0 && unicode_white_space(s.last()) {
        trim_end(s.drop_last())
    } else {
        s
    }
}

/// `s` without leading and trailing white space (what `str::trim` gives).
pub open spec fn trimmed(s: Seq<char>) -> Seq<char> {
    trim_end(trim_start(s))
}

/// Skipping the white space before index `i` is what `trim_start` does.
proof fn lemma_trim_start_at(s: Seq<char>, i: int)
    requires
        0 <= i <= s.len(),
        forall|k: int| 0 <= k < i ==> unicode_white_space(#[trigger] s[k]),
        i == s.len() || !unicode_white_space(s[i]),
    ensures
        trim_start(s) == s.subrange(i, s.len() as int),
    decreases i,
{
    if i == 0 {
        assert(s.subrange(0, s.len() as int) =~= s);
    } else {
        let t = s.drop_first();
        assert forall|k: int| 0 <= k < i - 1 implies unicode_white_space(#[trigger] t[k]) by {
            assert(t[k] == s[k + 1]);
        }
        if i < s.len() {
            assert(t[i - 1] == s[i]);
        }
        lemma_trim_start_at(t, i - 1);
        assert(t.subrange(i - 1, t.len() as int) =~= s.subrange(i, s.len() as int));
    }
}

/// Dropping the white space from index `j` on is what `trim_end` does.
proof fn lemma_trim_end_at(s: Seq<char>, j: int)
    requires
        0 <= j <= s.len(),
        forall|k: int| j <= k < s.len() ==> unicode_white_space(#[trigger] s[k]),
        j == 0 || !unicode_white_space(s[j - 1]),
    ensures
        trim_end(s) == s.take(j),
    decreases s.len() - j,
{
    if j == s.len() {
        assert(s.take(j) =~= s);
    } else {
        let t = s.drop_last();
        assert forall|k: int| j <= k < t.len() implies unicode_white_space(#[trigger] t[k]) by {
            assert(t[k] == s[k]);
        }
        if j > 0 {
            assert(t[j - 1] == s[j - 1]);
        }
        lemma_trim_end_at(t, j);
        assert(t.take(j) =~= s.take(j));
    }
}

/// The characters of `s` without leading and trailing white space.
pub fn trim_chars(s: &Vec<char>) -> (r: Vec<char>)
    ensures
        r@ == trimmed(s@),
{
    let n = s.len();
    let mut i: usize = 0;
    while i < n && is_whitespace(s[i])
        invariant
            n == s.len(),
            i <= n,
            forall|k: int| 0 <= k < i ==> unicode_white_space(#[trigger] s@[k]),
        decreases n - i,
    {
        i = i + 1;
    }
    proof {
        lemma_trim_start_at(s@, i as int);
    }
    let ghost rest = s@.subrange(i as int, n as int);
    let mut j: usize = n;
    while j > i && is_whitespace(s[j - 1])
        invariant
            n == s.len(),
            i <= j <= n,
            rest == s@.subrange(i as int, n as int),
            forall|k: int| j <= k < n ==> unicode_white_space(#[trigger] s@[k]),
        decreases j,
    {
        j = j - 1;
    }
    proof {
        assert forall|k: int| j - i <= k < rest.len() implies unicode_white_space(#[trigger] rest[k]) by {
            assert(rest[k] == s@[k + i]);
        }
        if j > i {
            assert(rest[j - i - 1] == s@[j - 1]);
        }
        lemma_trim_end_at(rest, j - i);
    }
    let mut r: Vec<char> = Vec::new();
    let mut k: usize = i;
    while k < j
        invariant
            n == s.len(),
            i <= k <= j <= n,
            r@ == s@.subrange(i as int, k as int),
        decreases j - k,
    {
        r.push(s[k]);
        k = k + 1;
        proof {
            assert(r@ =~= s@.subrange(i as int, k as int));
        }
    }
    proof {
        assert(rest.take(j - i) =~= s@.subrange(i as int, j as int));
    }
    r
}

/// The characters of `s` before the first `c`; all of `s` when it holds no `c`.
pub open spec fn before_first(s: Seq<char>, c: char) -> Seq<char>
    decreases s.len(),
{
    if s.len() == 0 {
        s
    } else if s[0] == c {
        Seq::empty()
    } else {
        seq![s[0]] + before_first(s.drop_first(), c)
    }
}

/// Stopping at the first `c`, found at index `i`, is what `before_first` does.
proof fn lemma_before_first_at(s: Seq<char>, c: char, i: int)
    requires
        0 <= i <= s.len(),
        forall|k: int| 0 <= k < i ==> #[trigger] s[k] != c,
        i == s.len() || s[i] == c,
    ensures
        before_first(s, c) == s.take(i),
    decreases i,
{
    if i == 0 {
        assert(s.take(0) =~= Seq::<char>::empty());
    } else {
        let t = s.drop_first();
        assert forall|k: int| 0 <= k < i - 1 implies #[trigger] t[k] != c by {
            assert(t[k] == s[k + 1]);
        }
        if i < s.len() {
            assert(t[i - 1] == s[i]);
        }
        lemma_before_first_at(t, c, i - 1);
        assert(seq![s[0]] + t.take(i - 1) =~= s.take(i));
    }
}

/// The characters of `s` before the first `c` (the first piece of `split(c)`).
pub fn chars_before(s: &Vec<char>, c: char) -> (r: Vec<char>)
    ensures
        r@ == before_first(s@, c),
{
    let mut r: Vec<char> = Vec::new();
    let mut i: usize = 0;
    while i < s.len() && s[i] != c
        invariant
            i <= s.len(),
            r@ == s@.take(i as int),
            forall|k: int| 0 <= k < i ==> #[trigger] s@[k] != c,
        decreases s.len() - i,
    {
        r.push(s[i]);
        i = i + 1;
        proof {
            assert(r@ =~= s@.take(i as int));
        }
    }
    proof {
        lemma_before_first_at(s@, c, i as int);
    }
    r
}

/// `pat` occurs in `s` as a run of consecutive characters.
pub open spec fn has_substring(s: Seq<char>, pat: Seq<char>) -> bool {
    exists|i: int| 0 <= i && i + pat.len() <= s.len() && #[trigger] s.subrange(i, i + pat.len()) == pat
}

/// Whether `pat` occurs in `s` (`str::contains` with a string pattern).
pub fn contains_chars(s: &Vec<char>, pat: &Vec<char>) -> (r: bool)
    ensures
        r == has_substring(s@, pat@),
{
    if pat.len() > s.len() {
        return false;
    }
    let last = s.len() - pat.len();
    let mut i: usize = 0;
    while i <= last
        invariant
            last == s.len() - pat.len(),
            pat.len() <= s.len(),
            i <= last + 1,
            forall|k: int| 0 <= k < i ==> #[trigger] s@.subrange(k, k + pat.len()) != pat@,
        decreases last + 1 - i,
    {
        let mut j: usize = 0;
        while j < pat.len() && s[i + j] == pat[j]
            invariant
                i <= last,
                last == s.len() - pat.len(),
                j <= pat.len(),
                forall|m: int| 0 <= m < j ==> s@[i + m] == pat@[m],
            decreases pat.len() - j,
        {
            j = j + 1;
        }
        if j == pat.len() {
            proof {
                assert(s@.subrange(i as int, i + pat.len()) =~= pat@);
            }
            return true;
        }
        proof {
            assert(s@.subrange(i as int, i + pat.len())[j as int] == s@[i + j]);
        }
        i = i + 1;
    }
    false
}

/// The decimal digits of `n`, without leading zeros (`0` for zero).
pub open spec fn nat_text(n: nat) -> Seq<char>
    decreases n,
{
    if n < 10 {
        seq![crate::money::digit_char(n)]
    } else {
        nat_text(n / 10).push(crate::money::digit_char(n % 10))
    }
}

/// The decimal form of `v`, with `-` before a negative number.
pub open spec fn int_text(v: int) -> Seq<char> {
    if v < 0 {
        seq!['-'] + nat_text((-v) as nat)
    } else {
        nat_text(v as nat)
    }
}

/// The decimal form of an `i64` (`i64::to_string`).
#[verifier::external_body]
pub(crate) fn i64_text(v: i64) -> (r: String)
    ensures
        r@ == int_text(v as int),
{
    v.to_string()
}

/// `None` for an empty text, the text otherwise (how optional form fields are sent).
pub fn optional_text(v: &str) -> (r: Option<String>)
    ensures
        r is None <==> v@.len() == 0,
        r is Some ==> r->0@ == v@,
{
    let chars = chars_of(v);
    if chars.len() == 0 {
        None
    } else {
        Some(String::from_str(v))
    }
}

/// The words of `s`: its maximal runs of characters that are not white space, in order
/// (what `str::split_whitespace` yields).
pub open spec fn words(s: Seq<char>) -> Seq<Seq<char>>
    decreases s.len(),
{
    if s.len() == 0 {
        Seq::empty()
    } else {
        let w = words(s.drop_last());
        let c = s.last();
        if unicode_white_space(c) {
            w
        } else if s.len() >= 2 && !unicode_white_space(s[s.len() - 2]) {
            w.update(w.len() - 1, w.last().push(c))
        } else {
            w.push(seq![c])
        }
    }
}

/// The words joined with single spaces between them.
pub open spec fn joined(ws: Seq<Seq<char>>) -> Seq<char>
    decreases ws.len(),
{
    if ws.len() == 0 {
        Seq::empty()
    } else if ws.len() == 1 {
        ws[0]
    } else {
        joined(ws.drop_last()) + seq![' '] + ws.last()
    }
}

/// The views of a list of character vectors.
pub open spec fn char_vecs_view(v: Seq<Vec<char>>) -> Seq<Seq<char>> {
    v.map_values(|w: Vec<char>| w@)
}

/// The words of `s`, in order.
pub fn split_words(s: &Vec<char>) -> (r: Vec<Vec<char>>)
    ensures
        char_vecs_view(r@) == words(s@),
{
    let mut done: Vec<Vec<char>> = Vec::new();
    let mut cur: Vec<char> = Vec::new();
    let mut i: usize = 0;
    while i < s.len()
        invariant
            i <= s.len(),
            (i > 0 && !unicode_white_space(s@[i - 1])) ==> (
                cur@.len() > 0 && char_vecs_view(done@).push(cur@) == words(s@.take(i as int))
            ),
            !(i > 0 && !unicode_white_space(s@[i - 1])) ==> (
                cur@.len() == 0 && char_vecs_view(done@) == words(s@.take(i as int))
            ),
        decreases s.len() - i,
    {
        let c = s[i];
        let ghost prev = s@.take(i as int);
        let ghost next = s@.take(i + 1);
        proof {
            assert(next.drop_last() =~= prev);
            assert(next.last() == c);
            if i > 0 {
                assert(next[next.len() - 2] == s@[i - 1]);
            }
        }
        if is_whitespace(c) {
            if cur.len() > 0 {
                done.push(cur);
                cur = Vec::new();
                proof {
                    assert(char_vecs_view(done@) =~= char_vecs_view(done@.drop_last()).push(done@.last()@));
                }
            }
        } else {
            let ghost was_in_word = i > 0 && !unicode_white_space(s@[i - 1]);
            let ghost old_cur = cur@;
            cur.push(c);
            proof {
                if was_in_word {
                    let w = words(prev);
                    assert(w == char_vecs_view(done@).push(old_cur));
                    assert(cur@ == old_cur.push(c));
                    assert(char_vecs_view(done@).push(cur@) =~= w.update(w.len() - 1, w.last().push(c)));
                } else {
                    assert(cur@ =~= seq![c]);
                    assert(char_vecs_view(done@).push(cur@) =~= words(prev).push(seq![c]));
                }
            }
        }
        i = i + 1;
    }
    proof {
        assert(s@.take(s.len() as int) =~= s@);
    }
    if cur.len() > 0 {
        done.push(cur);
        proof {
            assert(char_vecs_view(done@) =~= char_vecs_view(done@.drop_last()).push(done@.last()@));
        }
    }
    done
}

/// `std::str::from_utf8`: the text that the bytes encode, when they are valid UTF-8.
#[verifier::external_body]
pub(crate) fn text_from_utf8(bytes: &[u8]) -> (r: Option<String>)
    ensures
        r is Some <==> vstd::utf8::valid_utf8(bytes@),
        r is Some ==> r->0@ == vstd::utf8::decode_utf8(bytes@),
{
    match std::str::from_utf8(bytes) {
        Ok(s) => Some(s.to_string()),
        Err(_) => None,
    }
}

/// Lexicographic order of byte sequences: the first differing byte decides, and a proper
/// prefix comes first.
pub open spec fn bytes_lt(x: Seq<u8>, y: Seq<u8>) -> bool
    decreases x.len(),
{
    if x.len() == 0 {
        y.len() > 0
    } else if y.len() == 0 {
        false
    } else if x[0] != y[0] {
        x[0] < y[0]
    } else {
        bytes_lt(x.drop_first(), y.drop_first())
    }
}

/// `a` sorts before `b` as `str` orders text: by the bytes of their UTF-8 encodings.
pub open spec fn text_before(a: Seq<char>, b: Seq<char>) -> bool {
    bytes_lt(vstd::utf8::encode_utf8(a), vstd::utf8::encode_utf8(b))
}

/// `a < b` on string slices (`<str as PartialOrd>::lt`), which compares the bytes of the
/// two texts lexicographically.
#[verifier::external_body]
pub(crate) fn str_lt(a: &str, b: &str) -> (r: bool)
    ensures
        r == text_before(a@, b@),
{
    a < b
}

/// No byte sequence comes before itself.
pub proof fn lemma_bytes_lt_irreflexive(x: Seq<u8>)
    ensures
        !bytes_lt(x, x),
    decreases x.len(),
{
    if x.len() > 0 {
        lemma_bytes_lt_irreflexive(x.drop_first());
    }
}

/// The byte order is transitive.
pub proof fn lemma_bytes_lt_transitive(x: Seq<u8>, y: Seq<u8>, z: Seq<u8>)
    requires
        bytes_lt(x, y),
        bytes_lt(y, z),
    ensures
        bytes_lt(x, z),
    decreases x.len(),
{
    if x.len() > 0 && y.len() > 0 && z.len() > 0 && x[0] == y[0] && y[0] == z[0] {
        lemma_bytes_lt_transitive(x.drop_first(), y.drop_first(), z.drop_first());
    }
}

/// Of two different byte sequences, one comes before the other.
pub proof fn lemma_bytes_lt_total(x: Seq<u8>, y: Seq<u8>)
    requires
        x != y,
    ensures
        bytes_lt(x, y) || bytes_lt(y, x),
    decreases x.len(),
{
    if x.len() > 0 && y.len() > 0 && x[0] == y[0] {
        if x.drop_first() == y.drop_first() {
            assert(x =~= seq![x[0]] + x.drop_first());
            assert(y =~= seq![y[0]] + y.drop_first());
        }
        lemma_bytes_lt_total(x.drop_first(), y.drop_first());
    } else if x.len() == 0 && y.len() == 0 {
        assert(x =~= y);
    }
}

/// No text sorts before itself.
pub proof fn lemma_text_before_irreflexive(a: Seq<char>)
    ensures
        !text_before(a, a),
{
    lemma_bytes_lt_irreflexive(vstd::utf8::encode_utf8(a));
}

/// The text order is transitive.
pub proof fn lemma_text_before_transitive(a: Seq<char>, b: Seq<char>, c: Seq<char>)
    requires
        text_before(a, b),
        text_before(b, c),
    ensures
        text_before(a, c),
{
    lemma_bytes_lt_transitive(vstd::utf8::encode_utf8(a), vstd::utf8::encode_utf8(b), vstd::utf8::encode_utf8(c));
}

/// Of two different texts, one sorts before the other.
pub proof fn lemma_text_before_total(a: Seq<char>, b: Seq<char>)
    requires
        a != b,
    ensures
        text_before(a, b) || text_before(b, a),
{
    vstd::utf8::encode_utf8_decode_utf8(a);
    vstd::utf8::encode_utf8_decode_utf8(b);
    lemma_bytes_lt_total(vstd::utf8::encode_utf8(a), vstd::utf8::encode_utf8(b));
}

/// Each text sorts before every later one.
pub open spec fn strictly_sorted(s: Seq<Seq<char>>) -> bool {
    forall|i: int, j: int| 0 <= i < j < s.len() ==> text_before(#[trigger] s[i], #[trigger] s[j])
}

/// The texts of `values`, sorted as `str` orders them, each once (`sort` then `dedup`).
pub fn sorted_distinct(values: &Vec<String>) -> (r: Vec<String>)
    ensures
        strictly_sorted(names_of(r@)),
        names_of(r@).no_duplicates(),
        names_of(r@).to_set() == names_of(values@).to_set(),
{
    let mut r: Vec<String> = Vec::new();
    let mut i: usize = 0;
    while i < values.len()
        invariant
            i <= values.len(),
            strictly_sorted(names_of(r@)),
            names_of(r@).to_set() == names_of(values@.take(i as int)).to_set(),
        decreases values.len() - i,
    {
        let v = values[i].as_str();
        let ghost old_names = names_of(r@);
        let mut p: usize = 0;
        while p < r.len() && str_lt(r[p].as_str(), v)
            invariant
                p <= r.len(),
                old_names == names_of(r@),
                forall|k: int| 0 <= k < p ==> text_before(#[trigger] old_names[k], v@),
            decreases r.len() - p,
        {
            proof {
                assert(old_names[p as int] == r@[p as int]@);
            }
            p = p + 1;
        }
        proof {
            assert(values@.take(i + 1) =~= values@.take(i as int).push(values@[i as int]));
            assert(names_of(values@.take(i + 1)) =~= names_of(values@.take(i as int)).push(v@));
            assert(names_of(values@.take(i + 1)).to_set() =~= names_of(values@.take(i as int)).to_set().insert(v@)) by {
                let a = names_of(values@.take(i as int));
                let b = names_of(values@.take(i + 1));
                assert forall|x: Seq<char>| b.to_set().contains(x) <==> a.to_set().insert(v@).contains(x) by {
                    if b.contains(x) {
                        let k = choose|k: int| 0 <= k < b.len() && b[k] == x;
                        if k < a.len() {
                            assert(a[k] == x);
                        }
                    }
                    if a.contains(x) {
                        let k = choose|k: int| 0 <= k < a.len() && a[k] == x;
                        assert(b[k] == x);
                    }
                    if x == v@ {
                        assert(b[a.len() as int] == x);
                    }
                }
            }
        }
        if p < r.len() && str_eq(r[p].as_str(), v) {
            proof {
                assert(old_names[p as int] == v@);
                assert(old_names.to_set().contains(v@));
                assert(old_names.to_set().insert(v@) =~= old_names.to_set());
            }
        } else {
            proof {
                if p < r.len() {
                    assert(old_names[p as int] == r@[p as int]@);
                    lemma_text_before_total(old_names[p as int], v@);
                }
            }
            r.insert(p, String::from_str(v));
            proof {
                let n = names_of(r@);
                assert(n =~= old_names.insert(p as int, v@));
                assert forall|a: int, b: int| 0 <= a < b < n.len() implies text_before(#[trigger] n[a], #[trigger] n[b]) by {
                    if b < p {
                        assert(n[a] == old_names[a] && n[b] == old_names[b]);
                    } else if b == p {
                        assert(n[a] == old_names[a]);
                    } else if a == p {
                        assert(n[b] == old_names[b - 1]);
                        if b - 1 > p {
                            lemma_text_before_transitive(v@, old_names[p as int], old_names[b - 1]);
                        }
                    } else if a < p {
                        assert(n[a] == old_names[a] && n[b] == old_names[b - 1]);
                    } else {
                        assert(n[a] == old_names[a - 1] && n[b] == old_names[b - 1]);
                    }
                }
                assert forall|x: Seq<char>| n.to_set().contains(x) <==> old_names.to_set().insert(v@).contains(x) by {
                    if n.contains(x) {
                        let k = choose|k: int| 0 <= k < n.len() && n[k] == x;
                        if k < p {
                            assert(old_names[k] == x);
                        } else if k > p {
                            assert(old_names[k - 1] == x);
                        }
                    }
                    if old_names.contains(x) {
                        let k = choose|k: int| 0 <= k < old_names.len() && old_names[k] == x;
                        if k < p {
                            assert(n[k] == x);
                        } else {
                            assert(n[k + 1] == x);
                        }
                    }
                    if x == v@ {
                        assert(n[p as int] == x);
                    }
                }
                assert(n.to_set() =~= old_names.to_set().insert(v@));
            }
        }
        i = i + 1;
    }
    proof {
        assert(values@.take(values.len() as int) =~= values@);
        let n = names_of(r@);
        assert forall|a: int, b: int| 0 <= a < n.len() && 0 <= b < n.len() && a != b implies n[a] != n[b] by {
            if a < b {
                lemma_text_before_irreflexive(n[a]);
            } else {
                lemma_text_before_irreflexive(n[b]);
            }
        }
    }
    r
}

/// Every character is an ASCII digit.
pub open spec fn all_ascii_digits(d: Seq<char>) -> bool {
    forall|i: int| 0 <= i < d.len() ==> '0' <= #[trigger] d[i] && d[i] <= '9'
}

/// The number that a run of ASCII digits writes, most significant first.
pub open spec fn digits_value(d: Seq<char>) -> int
    decreases d.len(),
{
    if d.len() == 0 {
        0
    } else {
        digits_value(d.drop_last()) * 10 + (d.last() as int - '0' as int)
    }
}

/// What `str::parse::<i64>` gives: an optional `+` or `-` followed by at least one ASCII
/// digit, whose value fits in an `i64`; `None` for anything else.
pub open spec fn i64_parse(s: Seq<char>) -> Option<i64> {
    let neg = s.len() > 0 && s[0] == '-';
    let d = if s.len() > 0 && (s[0] == '-' || s[0] == '+') { s.drop_first() } else { s };
    if d.len() == 0 || !all_ascii_digits(d) {
        None
    } else {
        let v = if neg { -digits_value(d) } else { digits_value(d) };
        if i64::MIN <= v <= i64::MAX {
            Some(v as i64)
        } else {
            None
        }
    }
}

/// A longer run of digits writes at least the number of its prefix.
proof fn lemma_digits_value_prefix(d: Seq<char>, k: int)
    requires
        0 <= k <= d.len(),
        all_ascii_digits(d),
    ensures
        digits_value(d) >= digits_value(d.take(k)),
        digits_value(d) >= 0,
    decreases d.len(),
{
    if d.len() == 0 {
        assert(d.take(k) =~= d);
    } else {
        let e = d.drop_last();
        assert(all_ascii_digits(e)) by {
            assert forall|i: int| 0 <= i < e.len() implies '0' <= #[trigger] e[i] && e[i] <= '9' by {
                assert(e[i] == d[i]);
            }
        }
        assert('0' <= d.last() && d.last() <= '9') by {
            assert(d.last() == d[d.len() - 1]);
        }
        if k == d.len() {
            assert(d.take(k) =~= d);
            lemma_digits_value_prefix(e, 0);
        } else {
            lemma_digits_value_prefix(e, k);
            assert(e.take(k) =~= d.take(k));
        }
    }
}

/// Parses a decimal `i64` as `str::parse::<i64>` does.
pub fn parse_i64(s: &str) -> (r: Option<i64>)
    ensures
        r == i64_parse(s@),
{
    let chars = chars_of(s);
    let n = chars.len();
    let neg = n > 0 && chars[0] == '-';
    let start: usize = if n > 0 && (chars[0] == '-' || chars[0] == '+') { 1 } else { 0 };
    let ghost d = if s@.len() > 0 && (s@[0] == '-' || s@[0] == '+') { s@.drop_first() } else { s@ };
    proof {
        assert(d =~= s@.subrange(start as int, n as int));
    }
    if start == n {
        return None;
    }
    let limit: u128 = 0x8000_0000_0000_0000;
    let mut acc: u128 = 0;
    let mut k: usize = start;
    while k < n
        invariant
            n == chars.len(),
            chars@ == s@,
            start <= k <= n,
            d == s@.subrange(start as int, n as int),
            d == (if s@.len() > 0 && (s@[0] == '-' || s@[0] == '+') { s@.drop_first() } else { s@ }),
            acc as int == digits_value(d.take(k - start)),
            limit == 0x8000_0000_0000_0000,
            acc <= limit,
            all_ascii_digits(d.take(k - start)),
        decreases n - k,
    {
        let c = chars[k];
        if c < '0' || c > '9' {
            proof {
                assert(d[k - start] == c);
                assert(!('0' <= d[k - start] && d[k - start] <= '9'));
                assert(!all_ascii_digits(d));
            }
            return None;
        }
        let digit: u128 = (c as u32 - '0' as u32) as u128;
        assert(acc * 10 <= limit * 10) by (nonlinear_arith)
            requires
                acc <= limit,
        ;
        let next: u128 = acc * 10 + digit;
        proof {
            assert(d.take(k - start + 1).drop_last() =~= d.take(k - start));
            assert(d.take(k - start + 1).last() == c);
            assert(all_ascii_digits(d.take(k - start + 1))) by {
                assert forall|i: int| 0 <= i < d.take(k - start + 1).len() implies '0' <= #[trigger] d.take(k - start + 1)[i]
                    && d.take(k - start + 1)[i] <= '9' by {
                    if i < k - start {
                        assert(d.take(k - start + 1)[i] == d.take(k - start)[i]);
                    }
                }
            }
        }
        if next > limit {
            let mut j: usize = k + 1;
            while j < n
                invariant
                    n == chars.len(),
                    chars@ == s@,
                    k < j <= n,
                    start <= k,
                    d == s@.subrange(start as int, n as int),
                    d == (if s@.len() > 0 && (s@[0] == '-' || s@[0] == '+') { s@.drop_first() } else { s@ }),
                    all_ascii_digits(d.take(j - start)),
                    digits_value(d.take(k - start + 1)) > 0x8000_0000_0000_0000,
                decreases n - j,
            {
                let c2 = chars[j];
                if c2 < '0' || c2 > '9' {
                    proof {
                        assert(d[j - start] == c2);
                        assert(!('0' <= d[j - start] && d[j - start] <= '9'));
                        assert(!all_ascii_digits(d));
                    }
                    return None;
                }
                proof {
                    assert(all_ascii_digits(d.take(j - start + 1))) by {
                        assert forall|i: int| 0 <= i < d.take(j - start + 1).len() implies '0' <= #[trigger] d.take(j - start + 1)[i]
                            && d.take(j - start + 1)[i] <= '9' by {
                            if i < j - start {
                                assert(d.take(j - start + 1)[i] == d.take(j - start)[i]);
                            } else {
                                assert(d.take(j - start + 1)[i] == c2);
                            }
                        }
                    }
                }
                j = j + 1;
            }
            proof {
                assert(d.take(n - start) =~= d);
                lemma_digits_value_prefix(d, k - start + 1);
            }
            return None;
        }
        acc = next;
        k = k + 1;
    }
    proof {
        assert(d.take(n - start) =~= d);
    }
    if neg {
        let v: i128 = -(acc as i128);
        Some(v as i64)
    } else if acc <= 0x7fff_ffff_ffff_ffff {
        Some(acc as i64)
    } else {
        None
    }
}

/// The id written in `s`, or `0` when it is not a decimal `i64` (how a page reads the id
/// in its route).
pub fn parse_id_or_zero(s: &str) -> (r: i64)
    ensures
        r == (match i64_parse(s@) {
            Some(v) => v,
            None => 0,
        }),
{
    match parse_i64(s) {
        Some(v) => v,
        None => 0,
    }
}

/// Whether `name` is one of `names`.
pub fn contains_name(names: &Vec<String>, name: &str) -> (r: bool)
    ensures
        r == name_set(names@).contains(name@),
{
    let mut i: usize = 0;
    while i < names.len()
        invariant
            i <= names.len(),
            forall|j: int| 0 <= j < i ==> names@[j]@ != name@,
        decreases names.len() - i,
    {
        if str_eq(names[i].as_str(), name) {
            proof {
                assert(names_of(names@)[i as int] == name@);
            }
            return true;
        }
        i = i + 1;
    }
    proof {
        if names_of(names@).contains(name@) {
            let k = choose|k: int| 0 <= k < names_of(names@).len() && names_of(names@)[k] == name@;
            assert(names@[k]@ == name@);
        }
    }
    false
}

/// How many entries equal `v`.
pub open spec fn count_equal(s: Seq<Seq<char>>, v: Seq<char>) -> nat
    decreases s.len(),
{
    if s.len() == 0 {
        0
    } else {
        count_equal(s.drop_last(), v) + if s.last() == v { 1nat } else { 0nat }
    }
}

/// How many entries differ from `v`.
pub open spec fn count_unequal(s: Seq<Seq<char>>, v: Seq<char>) -> nat
    decreases s.len(),
{
    if s.len() == 0 {
        0
    } else {
        count_unequal(s.drop_last(), v) + if s.last() != v { 1nat } else { 0nat }
    }
}

/// How many entries are neither `a` nor `b`.
pub open spec fn count_neither(s: Seq<Seq<char>>, a: Seq<char>, b: Seq<char>) -> nat
    decreases s.len(),
{
    if s.len() == 0 {
        0
    } else {
        count_neither(s.drop_last(), a, b) + if s.last() != a && s.last() != b { 1nat } else { 0nat }
    }
}

/// The entries in the order they first occur, each once.
pub open spec fn distinct_in_order(s: Seq<Seq<char>>) -> Seq<Seq<char>>
    decreases s.len(),
{
    if s.len() == 0 {
        Seq::empty()
    } else {
        let d = distinct_in_order(s.drop_last());
        if d.contains(s.last()) {
            d
        } else {
            d.push(s.last())
        }
    }
}

/// An entry is either equal to `v` or not, so the two counts add up to the length.
pub proof fn lemma_equal_unequal(s: Seq<Seq<char>>, v: Seq<char>)
    ensures
        count_equal(s, v) + count_unequal(s, v) == s.len(),
    decreases s.len(),
{
    if s.len() > 0 {
        lemma_equal_unequal(s.drop_last(), v);
    }
}

/// Entries equal to `a`, equal to `b` (a different text) and equal to neither add up to
/// the length.
pub proof fn lemma_three_way(s: Seq<Seq<char>>, a: Seq<char>, b: Seq<char>)
    requires
        a != b,
    ensures
        count_equal(s, a) + count_equal(s, b) + count_neither(s, a, b) == s.len(),
    decreases s.len(),
{
    if s.len() > 0 {
        lemma_three_way(s.drop_last(), a, b);
    }
}

/// The first-occurrence list holds each entry of `s` exactly once.
pub proof fn lemma_distinct_in_order(s: Seq<Seq<char>>)
    ensures
        distinct_in_order(s).no_duplicates(),
        distinct_in_order(s).to_set() == s.to_set(),
    decreases s.len(),
{
    if s.len() > 0 {
        let t = s.drop_last();
        lemma_distinct_in_order(t);
        let d = distinct_in_order(t);
        assert(s =~= t.push(s.last()));
        assert(s.to_set() =~= t.to_set().insert(s.last())) by {
            assert forall|x: Seq<char>| s.to_set().contains(x) <==> t.to_set().insert(s.last()).contains(x) by {
                if s.contains(x) {
                    let k = choose|k: int| 0 <= k < s.len() && s[k] == x;
                    if k < t.len() {
                        assert(t[k] == x);
                    }
                }
                if t.contains(x) {
                    let k = choose|k: int| 0 <= k < t.len() && t[k] == x;
                    assert(s[k] == x);
                }
                if x == s.last() {
                    assert(s[s.len() - 1] == x);
                }
            }
        }
        if d.contains(s.last()) {
            assert(d.to_set().contains(s.last()));
            assert(d.to_set() =~= d.to_set().insert(s.last()));
        } else {
            let e = d.push(s.last());
            assert forall|x: Seq<char>| e.to_set().contains(x) <==> d.to_set().insert(s.last()).contains(x) by {
                if e.contains(x) {
                    let k = choose|k: int| 0 <= k < e.len() && e[k] == x;
                    if k < d.len() {
                        assert(d[k] == x);
                    }
                }
                if d.contains(x) {
                    let k = choose|k: int| 0 <= k < d.len() && d[k] == x;
                    assert(e[k] == x);
                }
                if x == s.last() {
                    assert(e[d.len() as int] == x);
                }
            }
            assert(e.to_set() =~= d.to_set().insert(s.last()));
        }
    }
}


/// `before_first(s, c)` is the longest start of `s` without `c`: it is a prefix of `s`,
/// holds no `c`, and is either all of `s` or followed in `s` by a `c`.
pub proof fn law_before_first(s: Seq<char>, c: char)
    ensures
        before_first(s, c).len() <= s.len(),
        before_first(s, c) == s.take(before_first(s, c).len() as int),
        forall|k: int| 0 <= k < before_first(s, c).len() ==> #[trigger] before_first(s, c)[k] != c,
        before_first(s, c).len() == s.len() || s[before_first(s, c).len() as int] == c,
    decreases s.len(),
{
    if s.len() > 0 && s[0] != c {
        let t = s.drop_first();
        law_before_first(t, c);
        let b = before_first(t, c);
        assert(before_first(s, c) == seq![s[0]] + b);
        assert(seq![s[0]] + b =~= s.take(b.len() + 1int)) by {
            assert forall|k: int| 0 <= k < b.len() implies b[k] == s[k + 1] by {
                assert(b[k] == t.take(b.len() as int)[k]);
            }
        }
        assert forall|k: int| 0 <= k < b.len() + 1 implies #[trigger] (seq![s[0]] + b)[k] != c by {
            if k > 0 {
                assert((seq![s[0]] + b)[k] == b[k - 1]);
            }
        }
        if b.len() < t.len() {
            assert(s[b.len() + 1int] == t[b.len() as int]);
        }
    } else if s.len() > 0 {
        assert(s.take(0) =~= Seq::<char>::empty());
    }
}

/// The white space that `trim_start` drops: `trim_start(s)` is `s` after its first `i`
/// characters, which are all white space, and it starts with no white space.
proof fn lemma_trim_start_shape(s: Seq<char>) -> (i: int)
    ensures
        0 <= i <= s.len(),
        trim_start(s) == s.skip(i),
        forall|k: int| 0 <= k < i ==> unicode_white_space(#[trigger] s[k]),
        i < s.len() ==> !unicode_white_space(s[i]),
    decreases s.len(),
{
    if s.len() > 0 && unicode_white_space(s[0]) {
        let t = s.drop_first();
        let j = lemma_trim_start_shape(t);
        assert(t.skip(j) =~= s.skip(j + 1));
        assert forall|k: int| 0 <= k < j + 1 implies unicode_white_space(#[trigger] s[k]) by {
            if k > 0 {
                assert(s[k] == t[k - 1]);
            }
        }
        if j < t.len() {
            assert(s[j + 1] == t[j]);
        }
        j + 1
    } else {
        assert(s.skip(0) =~= s);
        0
    }
}

/// The white space that `trim_end` drops: `trim_end(s)` is the first `j` characters of
/// `s`, the rest are all white space, and it ends with no white space.
proof fn lemma_trim_end_shape(s: Seq<char>) -> (j: int)
    ensures
        0 <= j <= s.len(),
        trim_end(s) == s.take(j),
        forall|k: int| j <= k < s.len() ==> unicode_white_space(#[trigger] s[k]),
        j > 0 ==> !unicode_white_space(s[j - 1]),
    decreases s.len(),
{
    if s.len() > 0 && unicode_white_space(s.last()) {
        let t = s.drop_last();
        let j = lemma_trim_end_shape(t);
        assert(t.take(j) =~= s.take(j));
        assert forall|k: int| j <= k < s.len() implies unicode_white_space(#[trigger] s[k]) by {
            if k < t.len() {
                assert(s[k] == t[k]);
            }
        }
        if j > 0 {
            assert(s[j - 1] == t[j - 1]);
        }
        j
    } else {
        assert(s.take(s.len() as int) =~= s);
        if s.len() > 0 {
            assert(s[s.len() - 1] == s.last());
        }
        s.len() as int
    }
}

/// Trimming keeps a contiguous part of the text and drops only white space around it:
/// `trimmed(s)` is `s[i..j]`, everything before `i` and from `j` on is white space, and
/// a non-empty result neither starts nor ends with white space.
pub proof fn law_trimmed(s: Seq<char>)
    ensures
        exists|i: int, j: int|
            0 <= i <= j <= s.len() && #[trigger] s.subrange(i, j) == trimmed(s) && (forall|k: int|
                0 <= k < i ==> unicode_white_space(#[trigger] s[k])) && (forall|k: int|
                j <= k < s.len() ==> unicode_white_space(#[trigger] s[k])) && (i < j ==> !unicode_white_space(
                s[i],
            ) && !unicode_white_space(s[j - 1])),
{
    let i = lemma_trim_start_shape(s);
    let u = trim_start(s);
    let j = lemma_trim_end_shape(u);
    assert(trimmed(s) =~= s.subrange(i, i + j));
    assert forall|k: int| i + j <= k < s.len() implies unicode_white_space(#[trigger] s[k]) by {
        assert(s[k] == u[k - i]);
    }
    if j > 0 {
        assert(s[i + j - 1] == u[j - 1]);
        assert(s[i] == u[0]);
    }
    assert(0 <= i <= i + j <= s.len() && s.subrange(i, i + j) == trimmed(s));
}

} // verus!
