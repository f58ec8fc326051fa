//! Character-level text utilities: decimal rendering, UTF-8 byte lengths,
//! Unicode whitespace, and building strings one character at a time.
use vstd::prelude::*;
use vstd::string::StringExecFns;

verus! {

/// The character that spells the decimal digit `d` (for `d < 10`).
pub open spec fn digit_char(d: nat) -> char {
    ((d % 10) + 48) as char
}

/// The decimal spelling of a natural number, without leading zeros.
pub open spec fn digits(n: nat) -> Seq<char>
    decreases n,
{
    if n < 10 {
        seq![digit_char(n)]
    } else {
        digits(n / 10).push(digit_char(n % 10))
    }
}

/// Appends one character to a string (`String::push`).
#[verifier::external_body]
pub(crate) fn push_char(s: &mut String, c: char)
    ensures
        final(s)@ == old(s)@.push(c),
{
    s.push(c);
}

/// Appends the decimal spelling of `n` to `s`.
pub fn push_decimal(s: &mut String, n: u64)
    ensures
        final(s)@ == old(s)@ + digits(n as nat),
    decreases n,
{
    if n >= 10 {
        push_decimal(s, n / 10);
    }
    let d: u64 = n % 10;
    let c: char = if d == 0 { '0' } else if d == 1 { '1' } else if d == 2 { '2' } else if d == 3 {
        '3'
    } else if d == 4 { '4' } else if d == 5 { '5' } else if d == 6 { '6' } else if d == 7 {
        '7'
    } else if d == 8 { '8' } else { '9' };
    assert(c == digit_char(n as nat % 10));
    push_char(s, c);
    assert(final(s)@ =~= old(s)@ + digits(n as nat));
}


/// The number of bytes that UTF-8 uses for one character.
pub open spec fn char_width(c: char) -> nat {
    let u = c as u32;
    if u <= 0x7F {
        1
    } else if u <= 0x7FF {
        2
    } else if u <= 0xFFFF {
        3
    } else {
        4
    }
}

/// The length in bytes of the UTF-8 encoding of a character sequence.
pub open spec fn byte_len(s: Seq<char>) -> nat
    decreases s.len(),
{
    if s.len() == 0 {
        0
    } else {
        char_width(s[0]) + byte_len(s.drop_first())
    }
}

/// Byte length is additive over concatenation.
pub proof fn lemma_byte_len_concat(a: Seq<char>, b: Seq<char>)
    ensures
        byte_len(a + b) == byte_len(a) + byte_len(b),
    decreases a.len(),
{
    if a.len() > 0 {
        assert((a + b).drop_first() =~= a.drop_first() + b);
        lemma_byte_len_concat(a.drop_first(), b);
    } else {
        assert(a + b =~= b);
    }
}

proof fn lemma_encode_utf8_len(s: Seq<char>)
    ensures
        vstd::utf8::encode_utf8(s).len() == byte_len(s),
    decreases s.len(),
{
    if s.len() > 0 {
        lemma_encode_utf8_len(s.drop_first());
        vstd::utf8::char_is_scalar(s[0]);
    }
}

/// The length of a string in bytes (`str::len`).
pub fn str_byte_len(s: &str) -> (n: usize)
    ensures
        n == byte_len(s@),
{
    proof {
        lemma_encode_utf8_len(s@);
    }
    let b = s.as_bytes();
    b.len()
}

/// Unicode `White_Space`, as `char::is_whitespace` decides it.
pub open spec fn is_space(c: char) -> bool {
    let u = c as u32;
    ||| 0x09 <= u <= 0x0D
    ||| u == 0x20
    ||| u == 0x85
    ||| u == 0xA0
    ||| u == 0x1680
    ||| 0x2000 <= u <= 0x200A
    ||| u == 0x2028
    ||| u == 0x2029
    ||| u == 0x202F
    ||| u == 0x205F
    ||| u == 0x3000
}

/// Decides `is_space`.
pub fn char_is_space(c: char) -> (b: bool)
    ensures
        b == is_space(c),
{
    let u = c as u32;
    (0x09 <= u && u <= 0x0D) || u == 0x20 || u == 0x85 || u == 0xA0 || u == 0x1680 || (0x2000
        <= u && u <= 0x200A) || u == 0x2028 || u == 0x2029 || u == 0x202F || u == 0x205F || u
        == 0x3000
}

/// The characters of a string, one by one.
pub fn chars_of(s: &str) -> (v: Vec<char>)
    ensures
        v@ == s@,
{
    let n = s.unicode_len();
    let mut v: Vec<char> = Vec::new();
    let mut i: usize = 0;
    while i < n
        invariant
            n == s@.len(),
            i <= n,
            v@ == s@.take(i as int),
        decreases n - i,
    {
        let c = s.get_char(i);
        v.push(c);
        i = i + 1;
        assert(v@ =~= s@.take(i as int));
    }
    assert(s@.take(n as int) =~= s@);
    v
}

/// Appends every character of `v` to `s`.
pub fn push_chars(s: &mut String, v: &Vec<char>)
    ensures
        final(s)@ == old(s)@ + v@,
{
    let mut i: usize = 0;
    while i < v.len()
        invariant
            i <= v.len(),
            s@ == old(s)@ + v@.take(i as int),
        decreases v.len() - i,
    {
        push_char(s, v[i]);
        i = i + 1;
        assert(s@ =~= old(s)@ + v@.take(i as int));
    }
    assert(v@.take(v.len() as int) =~= v@);
}

/// A string that holds the characters of `v`.
pub fn string_of(v: &Vec<char>) -> (s: String)
    ensures
        s@ == v@,
{
    let mut s = String::new();
    push_chars(&mut s, v);
    assert(s@ =~= v@);
    s
}

/// A copy of a string slice as an owned string.
pub fn owned(s: &str) -> (r: String)
    ensures
        r@ == s@,
{
    let v = chars_of(s);
    string_of(&v)
}

/// Whether two character vectors are equal.
pub fn chars_equal(a: &Vec<char>, b: &Vec<char>) -> (r: bool)
    ensures
        r == (a@ == b@),
{
    if a.len() != b.len() {
        return false;
    }
    let mut i: usize = 0;
    while i < a.len()
        invariant
            a.len() == b.len(),
            i <= a.len(),
            forall|j: int| 0 <= j < i ==> a@[j] == b@[j],
        decreases a.len() - i,
    {
        if a[i] != b[i] {
            return false;
        }
        i = i + 1;
    }
    assert(a@ =~= b@);
    true
}

/// Whether two strings spell the same characters.
pub fn str_equal(a: &str, b: &str) -> (r: bool)
    ensures
        r == (a@ == b@),
{
    let va = chars_of(a);
    let vb = chars_of(b);
    chars_equal(&va, &vb)
}

/// Whether `pat` occurs in `s` starting at index `i`.
pub open spec fn occurs_at(s: Seq<char>, i: int, pat: Seq<char>) -> bool {
    0 <= i && i + pat.len() <= s.len() && s.subrange(i, i + pat.len()) == pat
}

/// Decides `occurs_at`.
pub fn chars_occur_at(s: &Vec<char>, i: usize, pat: &Vec<char>) -> (r: bool)
    ensures
        r == occurs_at(s@, i as int, pat@),
{
    if i > s.len() || pat.len() > s.len() - i {
        return false;
    }
    let mut j: usize = 0;
    while j < pat.len()
        invariant
            i + pat.len() <= s.len(),
            j <= pat.len(),
            forall|k: int| 0 <= k < j ==> s@[i + k] == pat@[k],
        decreases pat.len() - j,
    {
        if s[i + j] != pat[j] {
            assert(s@.subrange(i as int, i + pat.len())[j as int] != pat@[j as int]);
            return false;
        }
        j = j + 1;
    }
    assert(s@.subrange(i as int, i + pat.len()) =~= pat@);
    true
}

/// Whether `needle` occurs anywhere in `hay` (`str::contains`).
pub open spec fn contains_seq(hay: Seq<char>, needle: Seq<char>) -> bool {
    exists|i: int| occurs_at(hay, i, needle)
}

/// Decides `contains_seq`.
pub fn str_contains(hay: &str, needle: &str) -> (r: bool)
    ensures
        r == contains_seq(hay@, needle@),
{
    let h = chars_of(hay);
    let n = chars_of(needle);
    if n.len() == 0 {
        assert(h@.subrange(0, 0) =~= n@);
        assert(occurs_at(h@, 0, n@));
        return true;
    }
    let mut i: usize = 0;
    while i < h.len()
        invariant
            h@ == hay@,
            n@ == needle@,
            n.len() > 0,
            i <= h.len(),
            forall|k: int| 0 <= k < i ==> !occurs_at(h@, k, n@),
        decreases h.len() - i,
    {
        if chars_occur_at(&h, i, &n) {
            return true;
        }
        i = i + 1;
    }
    assert forall|k: int| !occurs_at(h@, k, n@) by {
        if 0 <= k < i {
        }
    }
    false
}


/// The pieces of `parts` joined by `sep` (`[T]::join`).
pub open spec fn join(parts: Seq<Seq<char>>, sep: Seq<char>) -> Seq<char>
    decreases parts.len(),
{
    if parts.len() == 0 {
        seq![]
    } else if parts.len() == 1 {
        parts[0]
    } else {
        join(parts.drop_last(), sep) + sep + parts.last()
    }
}

/// Joins the strings of `parts` with `sep` between them.
pub fn join_strings(parts: &Vec<String>, sep: &str) -> (r: String)
    ensures
        r@ == join(string_views(parts@), sep@),
{
    let mut r = String::new();
    let mut i: usize = 0;
    let ghost views = string_views(parts@);
    while i < parts.len()
        invariant
            views == string_views(parts@),
            i <= parts.len(),
            r@ == join(views.take(i as int), sep@),
        decreases parts.len() - i,
    {
        if i > 0 {
            r.append(sep);
        }
        r.append(parts[i].as_str());
        proof {
            assert(views.take(i + 1).drop_last() =~= views.take(i as int));
            if i == 0 {
                assert(r@ =~= views.take(1)[0]);
            }
        }
        i = i + 1;
    }
    assert(views.take(parts.len() as int) =~= views);
    r
}

/// The characters of each string.
pub open spec fn string_views(v: Seq<String>) -> Seq<Seq<char>> {
    v.map_values(|s: String| s@)
}

/// `s` without its leading white space.
pub open spec fn trim_start(s: Seq<char>) -> Seq<char>
    decreases s.len(),
{
    if s.len() > 0 && is_space(s[0]) {
        trim_start(s.drop_first())
    } else {
        s
    }
}

/// `s` without its trailing white space.
pub open spec fn trim_end(s: Seq<char>) -> Seq<char>
    decreases s.len(),
{
    if s.len() > 0 && is_space(s.last()) {
        trim_end(s.drop_last())
    } else {
        s
    }
}

/// `s` without leading or trailing white space (`str::trim`).
pub open spec fn trim(s: Seq<char>) -> Seq<char> {
    trim_end(trim_start(s))
}

/// Removes leading and trailing white space.
pub fn trim_chars(v: &Vec<char>) -> (r: Vec<char>)
    ensures
        r@ == trim(v@),
{
    let mut lo: usize = 0;
    assert(v@.skip(0) =~= v@);
    while lo < v.len() && char_is_space(v[lo])
        invariant
            lo <= v.len(),
            trim_start(v@) == trim_start(v@.skip(lo as int)),
        decreases v.len() - lo,
    {
        assert(v@.skip(lo as int).drop_first() =~= v@.skip(lo + 1));
        lo = lo + 1;
    }
    let mut hi: usize = v.len();
    let ghost t = v@.skip(lo as int);
    assert(trim_start(t) == t);
    while hi > lo && char_is_space(v[hi - 1])
        invariant
            lo <= hi <= v.len(),
            t == v@.skip(lo as int),
            trim_end(t) == trim_end(v@.subrange(lo as int, hi as int)),
        decreases hi - lo,
    {
        assert(v@.subrange(lo as int, hi as int).drop_last() =~= v@.subrange(lo as int, hi - 1));
        hi = hi - 1;
    }
    assert(v@.subrange(lo as int, v.len() as int) =~= t);
    let mut r: Vec<char> = Vec::new();
    let mut i: usize = lo;
    while i < hi
        invariant
            lo <= i <= hi,
            hi <= v.len(),
            r@ == v@.subrange(lo as int, i as int),
        decreases hi - i,
    {
        r.push(v[i]);
        i = i + 1;
        assert(r@ =~= v@.subrange(lo as int, i as int));
    }
    r
}

/// Removes leading and trailing white space from a string.
pub fn trim_str(s: &str) -> (r: String)
    ensures
        r@ == trim(s@),
{
    let v = chars_of(s);
    let t = trim_chars(&v);
    string_of(&t)
}

/// The words of `s` that still follow, given the word `cur` read so far
/// (`str::split_whitespace`).
pub open spec fn words_from(s: Seq<char>, cur: Seq<char>) -> Seq<Seq<char>>
    decreases s.len(),
{
    if s.len() == 0 {
        if cur.len() > 0 {
            seq![cur]
        } else {
            seq![]
        }
    } else if is_space(s[0]) {
        (if cur.len() > 0 {
            seq![cur]
        } else {
            seq![]
        }) + words_from(s.drop_first(), seq![])
    } else {
        words_from(s.drop_first(), cur.push(s[0]))
    }
}

/// The maximal runs of non-white-space characters of `s`, in order.
pub open spec fn words(s: Seq<char>) -> Seq<Seq<char>> {
    words_from(s, seq![])
}

/// Splits a character sequence into its words.
pub fn split_words(v: &Vec<char>) -> (r: Vec<Vec<char>>)
    ensures
        r@.map_values(|w: Vec<char>| w@) == words(v@),
{
    let mut r: Vec<Vec<char>> = Vec::new();
    let mut cur: Vec<char> = Vec::new();
    let mut i: usize = 0;
    assert(v@.skip(0) =~= v@);
    while i < v.len()
        invariant
            i <= v.len(),
            r@.map_values(|w: Vec<char>| w@) + words_from(v@.skip(i as int), cur@) == words(v@),
        decreases v.len() - i,
    {
        let ghost before = r@.map_values(|w: Vec<char>| w@);
        let ghost rest = v@.skip(i as int);
        assert(rest.drop_first() =~= v@.skip(i + 1));
        if char_is_space(v[i]) {
            if cur.len() > 0 {
                let w = cur;
                r.push(w);
                cur = Vec::new();
                assert(r@.map_values(|w: Vec<char>| w@) =~= before + seq![w@]);
            } else {
                assert(before + seq![] =~= before);
            }
            assert(cur@ =~= seq![]);
        } else {
            cur.push(v[i]);
        }
        proof {
            assert(r@.map_values(|w: Vec<char>| w@) + words_from(v@.skip(i + 1), cur@) =~= words(v@));
        }
        i = i + 1;
    }
    if cur.len() > 0 {
        let ghost before = r@.map_values(|w: Vec<char>| w@);
        let w = cur;
        r.push(w);
        assert(r@.map_values(|w: Vec<char>| w@) =~= before + seq![w@]);
    }
    assert(r@.map_values(|w: Vec<char>| w@) =~= words(v@));
    r
}


/// The pieces of `s` between the occurrences of `sep` that still follow,
/// given the piece `cur` read so far (`str::split` with a non-empty pattern).
pub open spec fn split_from(s: Seq<char>, sep: Seq<char>, cur: Seq<char>) -> Seq<Seq<char>>
    decreases s.len(),
{
    if s.len() == 0 {
        seq![cur]
    } else if sep.len() > 0 && occurs_at(s, 0, sep) {
        seq![cur] + split_from(s.skip(sep.len() as int), sep, seq![])
    } else {
        split_from(s.drop_first(), sep, cur.push(s[0]))
    }
}

/// The pieces of `s` between the leftmost non-overlapping occurrences of `sep`.
pub open spec fn split_on(s: Seq<char>, sep: Seq<char>) -> Seq<Seq<char>> {
    split_from(s, sep, seq![])
}

proof fn lemma_occurs_skip(s: Seq<char>, i: int, pat: Seq<char>)
    requires
        0 <= i <= s.len(),
    ensures
        occurs_at(s.skip(i), 0, pat) == occurs_at(s, i, pat),
{
    if i + pat.len() <= s.len() {
        assert(s.skip(i).subrange(0, pat.len() as int) =~= s.subrange(i, i + pat.len()));
    }
}

/// Splits `v` at every leftmost non-overlapping occurrence of `sep`.
pub fn split_chars(v: &Vec<char>, sep: &Vec<char>) -> (r: Vec<Vec<char>>)
    requires
        sep.len() > 0,
    ensures
        r@.map_values(|w: Vec<char>| w@) == split_on(v@, sep@),
{
    let mut r: Vec<Vec<char>> = Vec::new();
    let mut cur: Vec<char> = Vec::new();
    let mut i: usize = 0;
    assert(v@.skip(0) =~= v@);
    while i < v.len()
        invariant
            sep.len() > 0,
            i <= v.len(),
            r@.map_values(|w: Vec<char>| w@) + split_from(v@.skip(i as int), sep@, cur@) == split_on(v@, sep@),
        decreases v.len() - i,
    {
        let ghost before = r@.map_values(|w: Vec<char>| w@);
        let ghost rest = v@.skip(i as int);
        proof {
            lemma_occurs_skip(v@, i as int, sep@);
        }
        if chars_occur_at(v, i, sep) {
            let w = cur;
            r.push(w);
            cur = Vec::new();
            assert(r@.map_values(|w: Vec<char>| w@) =~= before + seq![w@]);
            assert(rest.skip(sep.len() as int) =~= v@.skip(i + sep.len()));
            assert(cur@ =~= seq![]);
            i = i + sep.len();
        } else {
            assert(rest.drop_first() =~= v@.skip(i + 1));
            cur.push(v[i]);
            i = i + 1;
        }
    }
    let ghost before = r@.map_values(|w: Vec<char>| w@);
    let w = cur;
    r.push(w);
    assert(r@.map_values(|w: Vec<char>| w@) =~= before + seq![w@]);
    assert(r@.map_values(|w: Vec<char>| w@) =~= split_on(v@, sep@));
    r
}

/// `s` with every leftmost non-overlapping occurrence of `pat` replaced by
/// `rep` (`str::replace`); an empty `pat` matches before every character and
/// at the end.
pub open spec fn replace_all(s: Seq<char>, pat: Seq<char>, rep: Seq<char>) -> Seq<char>
    decreases s.len(),
{
    if pat.len() == 0 {
        if s.len() == 0 {
            rep
        } else {
            rep + seq![s[0]] + replace_all(s.drop_first(), pat, rep)
        }
    } else if s.len() == 0 {
        seq![]
    } else if occurs_at(s, 0, pat) {
        rep + replace_all(s.skip(pat.len() as int), pat, rep)
    } else {
        seq![s[0]] + replace_all(s.drop_first(), pat, rep)
    }
}

/// Replaces every occurrence of `pat` in `s` by `rep`.
pub fn replace_chars(s: &Vec<char>, pat: &Vec<char>, rep: &Vec<char>) -> (r: Vec<char>)
    ensures
        r@ == replace_all(s@, pat@, rep@),
{
    let mut r: Vec<char> = Vec::new();
    let mut i: usize = 0;
    assert(s@.skip(0) =~= s@);
    while i < s.len()
        invariant
            i <= s.len(),
            r@ + replace_all(s@.skip(i as int), pat@, rep@) == replace_all(s@, pat@, rep@),
        decreases s.len() - i,
    {
        let ghost before = r@;
        let ghost rest = s@.skip(i as int);
        proof {
            lemma_occurs_skip(s@, i as int, pat@);
        }
        if pat.len() == 0 {
            let mut j: usize = 0;
            while j < rep.len()
                invariant
                    j <= rep.len(),
                    r@ == before + rep@.take(j as int),
                decreases rep.len() - j,
            {
                r.push(rep[j]);
                j = j + 1;
                assert(r@ =~= before + rep@.take(j as int));
            }
            r.push(s[i]);
            assert(rest.drop_first() =~= s@.skip(i + 1));
            assert(r@ =~= before + rep@ + seq![rest[0]]);
            i = i + 1;
        } else if chars_occur_at(s, i, pat) {
            let mut j: usize = 0;
            while j < rep.len()
                invariant
                    j <= rep.len(),
                    r@ == before + rep@.take(j as int),
                decreases rep.len() - j,
            {
                r.push(rep[j]);
                j = j + 1;
                assert(r@ =~= before + rep@.take(j as int));
            }
            assert(rest.skip(pat.len() as int) =~= s@.skip(i + pat.len()));
            assert(r@ =~= before + rep@);
            i = i + pat.len();
        } else {
            r.push(s[i]);
            assert(rest.drop_first() =~= s@.skip(i + 1));
            assert(r@ =~= before + seq![rest[0]]);
            i = i + 1;
        }
    }
    let ghost before = r@;
    if pat.len() == 0 {
        let mut j: usize = 0;
        while j < rep.len()
            invariant
                j <= rep.len(),
                r@ == before + rep@.take(j as int),
            decreases rep.len() - j,
        {
            r.push(rep[j]);
            j = j + 1;
            assert(r@ =~= before + rep@.take(j as int));
        }
        assert(rep@.take(rep.len() as int) =~= rep@);
    }
    assert(r@ =~= replace_all(s@, pat@, rep@));
    r
}

/// What `str::to_uppercase` returns for `s`: the full Unicode upper-case
/// mapping, character by character.
pub uninterp spec fn unicode_uppercase(s: Seq<char>) -> Seq<char>;

/// `str::to_uppercase`: trusted to return `unicode_uppercase` of its argument.
#[verifier::external_body]
pub(crate) fn to_uppercase(s: &str) -> (r: String)
    ensures
        r@ == unicode_uppercase(s@),
{
    s.to_uppercase()
}

} // verus!
