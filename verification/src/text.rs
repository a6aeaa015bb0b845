//! Character-level string helpers with exact specifications over `Seq<char>`.
use vstd::prelude::*;

verus! {

/// The Unicode `White_Space` characters (the set that `char::is_whitespace` accepts).
pub open spec fn is_white_space(c: char) -> bool {
    let u = c as u32;
    ||| 0x9 <= u <= 0xD
    ||| u == 0x20
    ||| u == 0x85
    ||| u == 0xA0
    ||| u == 0x1680
    ||| 0x2000 <= u <= 0x200A
    ||| u == 0x2028
    ||| u == 0x2029
    ||| u == 0x202F
    ||| u == 0x205F
    ||| u == 0x3000
}

/// Whether `c` is a Unicode `White_Space` character.
pub fn char_is_whitespace(c: char) -> (r: bool)
    ensures
        r == is_white_space(c),
{
    let u = c as u32;
    (0x9 <= u && u <= 0xD) || u == 0x20 || u == 0x85 || u == 0xA0 || u == 0x1680 || (0x2000 <= u && u <= 0x200A)
        || u == 0x2028 || u == 0x2029 || u == 0x202F || u == 0x205F || u == 0x3000
}

/// What `str::to_lowercase` from std returns for a string (full Unicode case mapping).
pub uninterp spec fn lowercase(s: Seq<char>) -> Seq<char>;

/// `str::to_lowercase` from std; its result is named `lowercase`, a function of the
/// characters of `s` alone (the mapping does not depend on a locale).
#[verifier::external_body]
pub(crate) fn to_lowercase(s: &str) -> (r: String)
    ensures
        r@ == lowercase(s@),
{
    s.to_lowercase()
}

/// Builds a `String` from characters (`FromIterator<char>` of std): the string holds
/// exactly those characters, in order.
#[verifier::external_body]
pub(crate) fn string_from_chars(v: &Vec<char>) -> (r: String)
    ensures
        r@ == v@,
{
    v.iter().collect()
}

/// The characters of `s`, in order.
pub fn chars_of(s: &str) -> (r: Vec<char>)
    ensures
        r@ == s@,
{
    broadcast use vstd::string::group_string_axioms;

    let mut r: Vec<char> = Vec::new();
    for c in it: s.chars()
        invariant
            it.seq() == s@,
            r@ == it.seq().take(it.index() as int),
    {
        r.push(c);
    }
    r
}

/// `a` followed by `b`.
pub fn concat2(a: &str, b: &str) -> (r: String)
    ensures
        r@ == a@ + b@,
{
    let mut s = String::from_str(a);
    s.append(b);
    s
}

/// `a`, `b` and `c` one after another.
pub fn concat3(a: &str, b: &str, c: &str) -> (r: String)
    ensures
        r@ == a@ + b@ + c@,
{
    let mut s = String::from_str(a);
    s.append(b);
    s.append(c);
    s
}

/// Five pieces one after another.
pub fn concat5(a: &str, b: &str, c: &str, d: &str, e: &str) -> (r: String)
    ensures
        r@ == a@ + b@ + c@ + d@ + e@,
{
    let mut s = String::from_str(a);
    s.append(b);
    s.append(c);
    s.append(d);
    s.append(e);
    s
}

/// Whether two strings hold the same characters.
pub fn str_eq(a: &str, b: &str) -> (r: bool)
    ensures
        r == (a@ == b@),
{
    let x = chars_of(a);
    let y = chars_of(b);
    if x.len() != y.len() {
        return false;
    }
    let n = x.len();
    let mut i: usize = 0;
    while i < n
        invariant
            x@ == a@,
            y@ == b@,
            n == x.len(),
            n == y.len(),
            i <= n,
            forall|j: int| 0 <= j < i ==> x@[j] == y@[j],
        decreases n - i,
    {
        if x[i] != y[i] {
            return false;
        }
        i = i + 1;
    }
    assert(x@ =~= y@);
    true
}

/// `s` ends with `suffix`.
pub open spec fn has_suffix(s: Seq<char>, suffix: Seq<char>) -> bool {
    suffix.len() <= s.len() && s.subrange(s.len() - suffix.len(), s.len() as int) == suffix
}

/// `str::ends_with` on a string suffix.
pub fn ends_with(s: &str, suffix: &str) -> (r: bool)
    ensures
        r == has_suffix(s@, suffix@),
{
    let x = chars_of(s);
    let y = chars_of(suffix);
    if y.len() > x.len() {
        return false;
    }
    let off = x.len() - y.len();
    let n = y.len();
    let mut i: usize = 0;
    while i < n
        invariant
            x@ == s@,
            y@ == suffix@,
            n == y.len(),
            off + n == x.len(),
            i <= n,
            forall|j: int| 0 <= j < i ==> x@[off + j] == y@[j],
        decreases n - i,
    {
        if x[off + i] != y[i] {
            assert(x@.subrange(off as int, x@.len() as int)[i as int] == x@[off + i]);
            return false;
        }
        i = i + 1;
    }
    assert(x@.subrange(off as int, x@.len() as int) =~= y@);
    true
}

/// `needle` occurs in `hay` starting at position `i`.
pub open spec fn occurs_at(hay: Seq<char>, needle: Seq<char>, i: int) -> bool {
    0 <= i && i + needle.len() <= hay.len() && hay.subrange(i, i + needle.len()) == needle
}

/// `needle` occurs somewhere in `hay` (what `str::contains` decides for a string pattern).
pub open spec fn contains_seq(hay: Seq<char>, needle: Seq<char>) -> bool {
    exists|i: int| occurs_at(hay, needle, i)
}

fn occurs_at_exec(hay: &Vec<char>, needle: &Vec<char>, i: usize) -> (r: bool)
    requires
        i + needle.len() <= hay.len(),
    ensures
        r == occurs_at(hay@, needle@, i as int),
{
    let n = needle.len();
    let mut k: usize = 0;
    while k < n
        invariant
            n == needle.len(),
            i + n <= hay.len(),
            k <= n,
            forall|j: int| 0 <= j < k ==> hay@[i + j] == needle@[j],
        decreases n - k,
    {
        if hay[i + k] != needle[k] {
            assert(hay@.subrange(i as int, i + n)[k as int] == hay@[i + k]);
            return false;
        }
        k = k + 1;
    }
    assert(hay@.subrange(i as int, i + n) =~= needle@);
    true
}

/// Whether `needle` occurs in `hay`.
pub fn contains_chars(hay: &Vec<char>, needle: &Vec<char>) -> (r: bool)
    ensures
        r == contains_seq(hay@, needle@),
{
    if needle.len() > hay.len() {
        return false;
    }
    let last = hay.len() - needle.len();
    let mut i: usize = 0;
    loop
        invariant
            last + needle.len() == hay.len(),
            i <= last,
            forall|j: int| 0 <= j < i ==> !occurs_at(hay@, needle@, j),
        ensures
            forall|j: int| 0 <= j <= last ==> !occurs_at(hay@, needle@, j),
        decreases last - i,
    {
        if occurs_at_exec(hay, needle, i) {
            return true;
        }
        if i == last {
            break;
        }
        i = i + 1;
    }
    assert forall|j: int| !occurs_at(hay@, needle@, j) by {
        if 0 <= j && j + needle@.len() <= hay@.len() {
            assert(j <= last);
        }
    }
    false
}

/// `str::contains` on a string pattern.
pub fn str_contains(hay: &str, needle: &str) -> (r: bool)
    ensures
        r == contains_seq(hay@, needle@),
{
    let h = chars_of(hay);
    let n = chars_of(needle);
    contains_chars(&h, &n)
}

/// `s` without leading and trailing white space (what `str::trim` gives).
pub open spec fn trim_seq(s: Seq<char>) -> Seq<char>
    decreases s.len(),
{
    if s.len() > 0 && is_white_space(s[0]) {
        trim_seq(s.drop_first())
    } else if s.len() > 0 && is_white_space(s.last()) {
        trim_seq(s.drop_last())
    } else {
        s
    }
}

/// Trimming twice trims no more than trimming once.
pub proof fn lemma_trim_idempotent(s: Seq<char>)
    ensures
        trim_seq(trim_seq(s)) == trim_seq(s),
    decreases s.len(),
{
    if s.len() > 0 && is_white_space(s[0]) {
        lemma_trim_idempotent(s.drop_first());
    } else if s.len() > 0 && is_white_space(s.last()) {
        lemma_trim_idempotent(s.drop_last());
    }
}

proof fn lemma_trim_range(s: Seq<char>, a: int, b: int)
    requires
        0 <= a <= b <= s.len(),
        forall|i: int| 0 <= i < a ==> is_white_space(#[trigger] s[i]),
        forall|i: int| b <= i < s.len() ==> is_white_space(#[trigger] s[i]),
        a < b ==> !is_white_space(s[a]) && !is_white_space(s[b - 1]),
    ensures
        trim_seq(s) == s.subrange(a, b),
    decreases s.len(),
{
    if s.len() == 0 {
        assert(s.subrange(a, b) =~= s);
    } else if is_white_space(s[0]) {
        let t = s.drop_first();
        if a > 0 {
            assert forall|i: int| 0 <= i < a - 1 implies is_white_space(#[trigger] t[i]) by {
                assert(t[i] == s[i + 1]);
            }
            assert forall|i: int| b - 1 <= i < t.len() implies is_white_space(#[trigger] t[i]) by {
                assert(t[i] == s[i + 1]);
            }
            if a < b {
                assert(t[a - 1] == s[a]);
                assert(t[b - 2] == s[b - 1]);
            }
            lemma_trim_range(t, a - 1, b - 1);
            assert(t.subrange(a - 1, b - 1) =~= s.subrange(a, b));
        } else {
            assert(a == b);
            assert forall|i: int| 0 <= i < t.len() implies is_white_space(#[trigger] t[i]) by {
                assert(t[i] == s[i + 1]);
            }
            lemma_trim_range(t, 0, 0);
            assert(t.subrange(0, 0) =~= s.subrange(a, b));
        }
    } else if is_white_space(s.last()) {
        let t = s.drop_last();
        assert(a == 0);
        assert(b < s.len());
        assert forall|i: int| b <= i < t.len() implies is_white_space(#[trigger] t[i]) by {
            assert(t[i] == s[i]);
        }
        lemma_trim_range(t, a, b);
        assert(t.subrange(a, b) =~= s.subrange(a, b));
    } else {
        assert(a == 0);
        assert(b == s.len());
        assert(s.subrange(a, b) =~= s);
    }
}

/// `chars` without leading and trailing white space.
pub fn trim_chars(chars: &Vec<char>) -> (r: Vec<char>)
    ensures
        r@ == trim_seq(chars@),
{
    let n = chars.len();
    let mut a: usize = 0;
    while a < n && char_is_whitespace(chars[a])
        invariant
            n == chars.len(),
            a <= n,
            forall|i: int| 0 <= i < a ==> is_white_space(#[trigger] chars@[i]),
        decreases n - a,
    {
        a = a + 1;
    }
    let mut b: usize = n;
    while b > a && char_is_whitespace(chars[b - 1])
        invariant
            n == chars.len(),
            a <= b <= n,
            forall|i: int| b <= i < n ==> is_white_space(#[trigger] chars@[i]),
        decreases b,
    {
        b = b - 1;
    }
    let mut r: Vec<char> = Vec::new();
    let mut k: usize = a;
    while k < b
        invariant
            n == chars.len(),
            a <= k <= b <= n,
            r@ == chars@.subrange(a as int, k as int),
        decreases b - k,
    {
        r.push(chars[k]);
        k = k + 1;
        assert(r@ =~= chars@.subrange(a as int, k as int));
    }
    proof {
        lemma_trim_range(chars@, a as int, b as int);
    }
    r
}

/// `str::trim`, as an owned string.
pub fn trim(s: &str) -> (r: String)
    ensures
        r@ == trim_seq(s@),
{
    let c = chars_of(s);
    let t = trim_chars(&c);
    string_from_chars(&t)
}

/// `parts` joined with `sep` between neighbours (what `join` on a slice of strings gives).
pub open spec fn join_seqs(parts: Seq<Seq<char>>, sep: Seq<char>) -> Seq<char>
    decreases parts.len(),
{
    if parts.len() == 0 {
        Seq::empty()
    } else if parts.len() == 1 {
        parts[0]
    } else {
        join_seqs(parts.drop_last(), sep) + sep + parts.last()
    }
}

/// The maximal runs of non-white-space characters of `s`, in order
/// (what `str::split_whitespace` yields).
pub open spec fn words(s: Seq<char>) -> Seq<Seq<char>>
    decreases s.len(),
{
    if s.len() == 0 {
        Seq::empty()
    } else if is_white_space(s.last()) {
        words(s.drop_last())
    } else if s.len() > 1 && !is_white_space(s.drop_last().last()) {
        let w = words(s.drop_last());
        w.update(w.len() - 1, w.last().push(s.last()))
    } else {
        words(s.drop_last()).push(seq![s.last()])
    }
}

/// The words of `s` joined by single spaces.
pub open spec fn collapse_white_space(s: Seq<char>) -> Seq<char> {
    join_seqs(words(s), seq![' '])
}

proof fn lemma_words_last_nonempty(s: Seq<char>)
    ensures
        words(s).len() > 0 ==> words(s).last().len() > 0,
        s.len() > 0 && !is_white_space(s.last()) ==> words(s).len() > 0,
    decreases s.len(),
{
    if s.len() > 0 {
        lemma_words_last_nonempty(s.drop_last());
    }
}

proof fn lemma_join_nonempty(parts: Seq<Seq<char>>, sep: Seq<char>)
    requires
        parts.len() > 0,
        parts.last().len() > 0,
    ensures
        join_seqs(parts, sep).len() > 0,
{
}

proof fn lemma_join_extend_last(parts: Seq<Seq<char>>, sep: Seq<char>, c: char)
    requires
        parts.len() > 0,
    ensures
        join_seqs(parts.update(parts.len() - 1, parts.last().push(c)), sep)
            == join_seqs(parts, sep).push(c),
{
    let q = parts.update(parts.len() - 1, parts.last().push(c));
    if parts.len() == 1 {
    } else {
        assert(q.drop_last() =~= parts.drop_last());
        assert(join_seqs(q, sep) == join_seqs(q.drop_last(), sep) + sep + q.last());
        assert(join_seqs(q, sep) =~= join_seqs(parts, sep).push(c));
    }
}

proof fn lemma_join_push(parts: Seq<Seq<char>>, sep: Seq<char>, w: Seq<char>)
    ensures
        join_seqs(parts.push(w), sep) == if parts.len() == 0 {
            w
        } else {
            join_seqs(parts, sep) + sep + w
        },
{
    assert(parts.push(w).drop_last() =~= parts);
}

/// White space in `r` is only single spaces, each between two other characters.
pub open spec fn well_spaced(r: Seq<char>) -> bool {
    forall|i: int|
        0 <= i < r.len() && is_white_space(#[trigger] r[i]) ==> r[i] == ' ' && 0 < i < r.len() - 1
            && !is_white_space(r[i - 1]) && !is_white_space(r[i + 1])
}

/// Every part is a non-empty run of characters that are not white space.
pub open spec fn solid_parts(parts: Seq<Seq<char>>) -> bool {
    forall|k: int|
        0 <= k < parts.len() ==> (#[trigger] parts[k]).len() > 0 && forall|j: int|
            0 <= j < parts[k].len() ==> !is_white_space(#[trigger] parts[k][j])
}

proof fn lemma_words_solid(s: Seq<char>)
    ensures
        solid_parts(words(s)),
    decreases s.len(),
{
    if s.len() > 0 {
        lemma_words_solid(s.drop_last());
        lemma_words_last_nonempty(s);
        let w = words(s.drop_last());
        if is_white_space(s.last()) {
        } else if s.len() > 1 && !is_white_space(s.drop_last().last()) {
            lemma_words_last_nonempty(s.drop_last());
            let u = w.update(w.len() - 1, w.last().push(s.last()));
            assert forall|k: int| 0 <= k < u.len() implies (#[trigger] u[k]).len() > 0 && forall|j: int|
                0 <= j < u[k].len() ==> !is_white_space(#[trigger] u[k][j]) by {
                if k == u.len() - 1 {
                    assert forall|j: int| 0 <= j < u[k].len() implies !is_white_space(#[trigger] u[k][j]) by {
                        if j < w.last().len() {
                            assert(u[k][j] == w[k][j]);
                        }
                    }
                }
            }
        } else {
            let u = w.push(seq![s.last()]);
            assert forall|k: int| 0 <= k < u.len() implies (#[trigger] u[k]).len() > 0 && forall|j: int|
                0 <= j < u[k].len() ==> !is_white_space(#[trigger] u[k][j]) by {
                if k < w.len() {
                    assert(u[k] == w[k]);
                }
            }
        }
    }
}

proof fn lemma_join_well_spaced(parts: Seq<Seq<char>>)
    requires
        solid_parts(parts),
    ensures
        well_spaced(join_seqs(parts, seq![' '])),
        parts.len() > 0 ==> join_seqs(parts, seq![' ']).len() > 0 && !is_white_space(
            join_seqs(parts, seq![' '])[0],
        ) && !is_white_space(join_seqs(parts, seq![' ']).last()),
    decreases parts.len(),
{
    let sp = seq![' '];
    if parts.len() == 1 {
        let w = parts[0];
        assert(w.len() > 0);
        assert(!is_white_space(w[0]));
        assert(!is_white_space(w[w.len() - 1]));
    } else if parts.len() > 1 {
        let init = parts.drop_last();
        assert forall|k: int| 0 <= k < init.len() implies (#[trigger] init[k]).len() > 0 && forall|j: int|
            0 <= j < init[k].len() ==> !is_white_space(#[trigger] init[k][j]) by {
            assert(init[k] == parts[k]);
        }
        lemma_join_well_spaced(init);
        let a = join_seqs(init, sp);
        let w = parts.last();
        assert(w == parts[parts.len() - 1]);
        let r = a + sp + w;
        assert(r == join_seqs(parts, sp));
        assert forall|i: int| 0 <= i < r.len() && is_white_space(#[trigger] r[i]) implies r[i] == ' ' && 0 < i
            < r.len() - 1 && !is_white_space(r[i - 1]) && !is_white_space(r[i + 1]) by {
            if i < a.len() {
                assert(r[i] == a[i]);
                assert(r[i - 1] == a[i - 1]);
                if i + 1 < a.len() {
                    assert(r[i + 1] == a[i + 1]);
                }
            } else if i == a.len() {
                assert(r[i - 1] == a[a.len() - 1]);
                assert(r[i + 1] == w[0]);
            } else {
                assert(r[i] == w[i - a.len() - 1]);
            }
        }
        assert(r[0] == a[0]);
        assert(r.last() == w[w.len() - 1]);
    }
}

/// Collapsed white space is well spaced: no white space at either end, and only
/// single spaces between other characters.
pub proof fn law_collapsed_is_well_spaced(s: Seq<char>)
    ensures
        well_spaced(collapse_white_space(s)),
{
    lemma_words_solid(s);
    lemma_join_well_spaced(words(s));
}

/// The words of `chars` joined by single spaces.
pub fn collapse_white_space_chars(chars: &Vec<char>) -> (r: Vec<char>)
    ensures
        r@ == collapse_white_space(chars@),
{
    let n = chars.len();
    let mut out: Vec<char> = Vec::new();
    let mut pending: bool = false;
    let mut i: usize = 0;
    let ghost sp = seq![' '];
    while i < n
        invariant
            n == chars.len(),
            i <= n,
            sp == seq![' '],
            out@ == join_seqs(words(chars@.take(i as int)), sp),
            out@.len() > 0 <==> words(chars@.take(i as int)).len() > 0,
            pending <==> (i > 0 && is_white_space(chars@[i - 1]) && words(
                chars@.take(i as int),
            ).len() > 0),
        decreases n - i,
    {
        let c = chars[i];
        let ghost p = chars@.take(i as int);
        let ghost q = chars@.take(i + 1);
        proof {
            assert(q.drop_last() =~= p);
            assert(q.last() == c);
            lemma_words_last_nonempty(p);
            lemma_words_last_nonempty(q);
        }
        if char_is_whitespace(c) {
            pending = out.len() > 0;
        } else {
            if i > 0 && !char_is_whitespace(chars[i - 1]) {
                proof {
                    assert(p.last() == chars@[i - 1]);
                    lemma_join_extend_last(words(p), sp, c);
                }
                out.push(c);
            } else {
                proof {
                    lemma_join_push(words(p), sp, seq![c]);
                    if i > 0 {
                        assert(p.last() == chars@[i - 1]);
                    }
                }
                if pending {
                    out.push(' ');
                }
                out.push(c);
                proof {
                    if words(p).len() == 0 {
                        assert(out@ =~= seq![c]);
                    } else {
                        assert(out@ =~= join_seqs(words(p), sp) + sp + seq![c]);
                    }
                }
            }
            pending = false;
            proof {
                lemma_join_nonempty(words(q), sp);
            }
        }
        i = i + 1;
    }
    assert(chars@.take(n as int) =~= chars@);
    out
}

/// The decimal digit for `d` (0 to 9).
pub open spec fn digit_char(d: int) -> char {
    if d == 0 {
        '0'
    } else if d == 1 {
        '1'
    } else if d == 2 {
        '2'
    } else if d == 3 {
        '3'
    } else if d == 4 {
        '4'
    } else if d == 5 {
        '5'
    } else if d == 6 {
        '6'
    } else if d == 7 {
        '7'
    } else if d == 8 {
        '8'
    } else {
        '9'
    }
}

/// The decimal notation of `n`, without leading zeros (what `Display` writes for an integer).
pub open spec fn decimal(n: nat) -> Seq<char>
    decreases n,
{
    if n < 10 {
        seq![digit_char(n as int)]
    } else {
        decimal(n / 10).push(digit_char((n % 10) as int))
    }
}

fn digit(d: u64) -> (c: char)
    requires
        d < 10,
    ensures
        c == digit_char(d as int),
{
    if d == 0 {
        '0'
    } else if d == 1 {
        '1'
    } else if d == 2 {
        '2'
    } else if d == 3 {
        '3'
    } else if d == 4 {
        '4'
    } else if d == 5 {
        '5'
    } else if d == 6 {
        '6'
    } else if d == 7 {
        '7'
    } else if d == 8 {
        '8'
    } else {
        '9'
    }
}

fn push_decimal(n: u64, out: &mut Vec<char>)
    ensures
        final(out)@ == old(out)@ + decimal(n as nat),
    decreases n,
{
    if n >= 10 {
        push_decimal(n / 10, out);
    }
    out.push(digit(n % 10));
    proof {
        if n >= 10 {
            assert(final(out)@ =~= old(out)@ + decimal(n as nat));
        } else {
            assert(final(out)@ =~= old(out)@ + decimal(n as nat));
        }
    }
}

/// The decimal notation of `n`.
pub fn decimal_string(n: u64) -> (r: String)
    ensures
        r@ == decimal(n as nat),
{
    let mut v: Vec<char> = Vec::new();
    push_decimal(n, &mut v);
    assert(v@ =~= decimal(n as nat));
    string_from_chars(&v)
}

/// `parts` joined with `sep` between neighbours.
pub fn join_strings(parts: &Vec<String>, sep: &str) -> (r: String)
    ensures
        r@ == join_seqs(parts@.map_values(|p: String| p@), sep@),
{
    let ghost views = parts@.map_values(|p: String| p@);
    let mut r = String::new();
    let n = parts.len();
    let mut i: usize = 0;
    while i < n
        invariant
            n == parts.len(),
            i <= n,
            views == parts@.map_values(|p: String| p@),
            r@ == join_seqs(views.take(i as int), sep@),
        decreases n - i,
    {
        proof {
            assert(views.take(i + 1).drop_last() =~= views.take(i as int));
            assert(views.take(i + 1).last() == parts@[i as int]@);
        }
        if i > 0 {
            r.append(sep);
        }
        r.append(parts[i].as_str());
        proof {
            if i == 0 {
                assert(r@ =~= join_seqs(views.take(1), sep@));
            }
        }
        i = i + 1;
    }
    assert(views.take(n as int) =~= views);
    r
}

/// The parts of `s` between the occurrences of `sep`, in order (what `str::split`
/// on a character gives): one more part than there are separators.
pub open spec fn split_on(s: Seq<char>, sep: char) -> Seq<Seq<char>>
    decreases s.len(),
{
    if s.len() == 0 {
        seq![Seq::empty()]
    } else if s.last() == sep {
        split_on(s.drop_last(), sep).push(Seq::empty())
    } else {
        let p = split_on(s.drop_last(), sep);
        p.update(p.len() - 1, p.last().push(s.last()))
    }
}

/// The parts of `chars` between the occurrences of `sep`.
pub fn split_chars(chars: &Vec<char>, sep: char) -> (r: Vec<Vec<char>>)
    ensures
        r@.map_values(|v: Vec<char>| v@) == split_on(chars@, sep),
{
    let mut done: Vec<Vec<char>> = Vec::new();
    let mut cur: Vec<char> = Vec::new();
    let n = chars.len();
    let mut i: usize = 0;
    assert(split_on(chars@.take(0), sep) =~= seq![Seq::<char>::empty()]);
    assert(done@.map_values(|v: Vec<char>| v@).push(cur@) =~= seq![Seq::<char>::empty()]);
    while i < n
        invariant
            n == chars.len(),
            i <= n,
            done@.map_values(|v: Vec<char>| v@).push(cur@) == split_on(chars@.take(i as int), sep),
        decreases n - i,
    {
        let ghost before = split_on(chars@.take(i as int), sep);
        let ghost old_done = done@.map_values(|v: Vec<char>| v@);
        let ghost old_cur = cur@;
        assert(chars@.take(i + 1).drop_last() =~= chars@.take(i as int));
        assert(chars@.take(i + 1).last() == chars@[i as int]);
        if chars[i] == sep {
            let finished = cur;
            done.push(finished);
            cur = Vec::new();
            assert(done@.map_values(|v: Vec<char>| v@) =~= old_done.push(old_cur));
            assert(done@.map_values(|v: Vec<char>| v@).push(cur@) =~= before.push(Seq::empty()));
        } else {
            cur.push(chars[i]);
            assert(done@.map_values(|v: Vec<char>| v@) == old_done);
            assert(done@.map_values(|v: Vec<char>| v@).push(cur@) =~= before.update(
                before.len() - 1,
                before.last().push(chars@[i as int]),
            ));
        }
        i = i + 1;
    }
    assert(chars@.take(n as int) =~= chars@);
    done.push(cur);
    assert(done@.map_values(|v: Vec<char>| v@) =~= split_on(chars@, sep));
    done
}

} // verus!
