//! Character classes, trimming, decimal parsing and formatting.
use vstd::prelude::*;

verus! {

/// The characters that carry the Unicode `White_Space` property.
pub open spec fn is_space(c: char) -> bool {
    let n = c as u32;
    ||| 0x09 <= n <= 0x0d
    ||| n == 0x20
    ||| n == 0x85
    ||| n == 0xa0
    ||| n == 0x1680
    ||| 0x2000 <= n <= 0x200a
    ||| n == 0x2028
    ||| n == 0x2029
    ||| n == 0x202f
    ||| n == 0x205f
    ||| n == 0x3000
}

/// The characters of the Unicode general category `Cc` (control codes).
pub open spec fn is_control(c: char) -> bool {
    let n = c as u32;
    n <= 0x1f || (0x7f <= n <= 0x9f)
}

/// Whether `c` is a white-space character.
pub fn is_space_char(c: char) -> (res: bool)
    ensures
        res == is_space(c),
{
    let n = c as u32;
    (0x09 <= n && n <= 0x0d) || n == 0x20 || n == 0x85 || n == 0xa0 || n == 0x1680 || (0x2000
        <= n && n <= 0x200a) || n == 0x2028 || n == 0x2029 || n == 0x202f || n == 0x205f || n
        == 0x3000
}

/// Whether `c` is a control character.
pub fn is_control_char(c: char) -> (res: bool)
    ensures
        res == is_control(c),
{
    let n = c as u32;
    n <= 0x1f || (0x7f <= n && n <= 0x9f)
}

/// `s` without its leading white space.
pub open spec fn trim_start(s: Seq<char>) -> Seq<char>
    decreases s.len(),
{
    if s.len() > 0 && is_space(s[0]) {
        trim_start(s.drop_first())
    } else {
        s
    }
}

/// `s` without its trailing white space.
pub open spec fn trim_end(s: Seq<char>) -> Seq<char>
    decreases s.len(),
{
    if s.len() > 0 && is_space(s.last()) {
        trim_end(s.drop_last())
    } else {
        s
    }
}

/// `s` without white space at either end.
pub open spec fn trim(s: Seq<char>) -> Seq<char> {
    trim_end(trim_start(s))
}

/// `s` without every leading occurrence of `c`.
pub open spec fn strip_leading(s: Seq<char>, c: char) -> Seq<char>
    decreases s.len(),
{
    if s.len() > 0 && s[0] == c {
        strip_leading(s.drop_first(), c)
    } else {
        s
    }
}

/// `s` without every trailing occurrence of `c`.
pub open spec fn strip_trailing(s: Seq<char>, c: char) -> Seq<char>
    decreases s.len(),
{
    if s.len() > 0 && s.last() == c {
        strip_trailing(s.drop_last(), c)
    } else {
        s
    }
}

proof fn lemma_trim_start_skip(s: Seq<char>, i: int)
    requires
        0 <= i <= s.len(),
        forall|k: int| 0 <= k < i ==> is_space(#[trigger] s[k]),
        i == s.len() || !is_space(s[i]),
    ensures
        trim_start(s) == s.skip(i),
    decreases i,
{
    if i == 0 {
        assert(s.skip(0) =~= s);
    } else {
        let t = s.drop_first();
        assert forall|k: int| 0 <= k < i - 1 implies is_space(#[trigger] t[k]) by {
            assert(t[k] == s[k + 1]);
        }
        if i - 1 < t.len() {
            assert(t[i - 1] == s[i]);
        }
        lemma_trim_start_skip(t, i - 1);
        assert(t.skip(i - 1) =~= s.skip(i));
    }
}

proof fn lemma_trim_end_take(s: Seq<char>, j: int)
    requires
        0 <= j <= s.len(),
        forall|k: int| j <= k < s.len() ==> is_space(#[trigger] s[k]),
        j == 0 || !is_space(s[j - 1]),
    ensures
        trim_end(s) == s.take(j),
    decreases s.len() - j,
{
    if j == s.len() {
        assert(s.take(j) =~= s);
    } else {
        let t = s.drop_last();
        assert forall|k: int| j <= k < t.len() implies is_space(#[trigger] t[k]) by {
            assert(t[k] == s[k]);
        }
        if j > 0 {
            assert(t[j - 1] == s[j - 1]);
        }
        lemma_trim_end_take(t, j);
        assert(t.take(j) =~= s.take(j));
    }
}

proof fn lemma_strip_leading_skip(s: Seq<char>, c: char, i: int)
    requires
        0 <= i <= s.len(),
        forall|k: int| 0 <= k < i ==> #[trigger] s[k] == c,
        i == s.len() || s[i] != c,
    ensures
        strip_leading(s, c) == s.skip(i),
    decreases i,
{
    if i == 0 {
        assert(s.skip(0) =~= s);
    } else {
        let t = s.drop_first();
        assert forall|k: int| 0 <= k < i - 1 implies #[trigger] t[k] == c by {
            assert(t[k] == s[k + 1]);
        }
        if i - 1 < t.len() {
            assert(t[i - 1] == s[i]);
        }
        lemma_strip_leading_skip(t, c, i - 1);
        assert(t.skip(i - 1) =~= s.skip(i));
    }
}

proof fn lemma_strip_trailing_take(s: Seq<char>, c: char, j: int)
    requires
        0 <= j <= s.len(),
        forall|k: int| j <= k < s.len() ==> #[trigger] s[k] == c,
        j == 0 || s[j - 1] != c,
    ensures
        strip_trailing(s, c) == s.take(j),
    decreases s.len() - j,
{
    if j == s.len() {
        assert(s.take(j) =~= s);
    } else {
        let t = s.drop_last();
        assert forall|k: int| j <= k < t.len() implies #[trigger] t[k] == c by {
            assert(t[k] == s[k]);
        }
        if j > 0 {
            assert(t[j - 1] == s[j - 1]);
        }
        lemma_strip_trailing_take(t, c, j);
        assert(t.take(j) =~= s.take(j));
    }
}

/// Appends one character to a string: std's `String::push`, which std documents as
/// appending the given `char` to the end of the string. The contract states that.
#[verifier::external_body]
pub(crate) fn push_char(s: &mut String, c: char)
    ensures
        final(s)@ == old(s)@.push(c),
{
    s.push(c);
}

/// Copies the characters of a string slice into a vector.
pub fn chars_of(s: &str) -> (res: Vec<char>)
    ensures
        res@ == s@,
{
    let mut out: Vec<char> = Vec::new();
    for c in it: s.chars()
        invariant
            out@ == it.seq().take(it.index() as int),
            it.seq() == s@,
    {
        out.push(c);
    }
    out
}

/// Appends the characters `v[from..to]` to `out`.
pub fn push_range(out: &mut String, v: &Vec<char>, from: usize, to: usize)
    requires
        from <= to <= v.len(),
    ensures
        final(out)@ == old(out)@ + v@.subrange(from as int, to as int),
{
    let mut i = from;
    while i < to
        invariant
            from <= i <= to <= v.len(),
            out@ == old(out)@ + v@.subrange(from as int, i as int),
        decreases to - i,
    {
        push_char(out, v[i]);
        assert(v@.subrange(from as int, i + 1) =~= v@.subrange(from as int, i as int).push(v@[i as int]));
        i += 1;
    }
}

/// Appends every character of `s` to `out`.
pub fn push_str(out: &mut String, s: &str)
    ensures
        final(out)@ == old(out)@ + s@,
{
    let v = chars_of(s);
    push_range(out, &v, 0, v.len());
    assert(v@.subrange(0, v@.len() as int) =~= v@);
}

/// A string holding the characters `v[from..to]`.
pub fn string_of_range(v: &Vec<char>, from: usize, to: usize) -> (res: String)
    requires
        from <= to <= v.len(),
    ensures
        res@ == v@.subrange(from as int, to as int),
{
    let mut out = String::new();
    push_range(&mut out, v, from, to);
    assert(Seq::<char>::empty() + v@.subrange(from as int, to as int) =~= v@.subrange(from as int, to as int));
    out
}

/// A string holding the characters of `s`.
pub fn string_of(s: &str) -> (res: String)
    ensures
        res@ == s@,
{
    let mut out = String::new();
    push_str(&mut out, s);
    assert(Seq::<char>::empty() + s@ =~= s@);
    out
}

/// Where the text of `v` starts once leading white space is skipped.
fn first_non_space(v: &Vec<char>) -> (i: usize)
    ensures
        i <= v.len(),
        forall|k: int| 0 <= k < i ==> is_space(#[trigger] v@[k]),
        i == v.len() || !is_space(v@[i as int]),
{
    let mut i: usize = 0;
    while i < v.len() && is_space_char(v[i])
        invariant
            i <= v.len(),
            forall|k: int| 0 <= k < i ==> is_space(#[trigger] v@[k]),
        decreases v.len() - i,
    {
        i += 1;
    }
    i
}

/// The characters of `s` without white space at either end (std's `str::trim`).
pub fn trim_chars(s: &str) -> (res: Vec<char>)
    ensures
        res@ == trim(s@),
{
    let v = chars_of(s);
    let i = first_non_space(&v);
    proof {
        lemma_trim_start_skip(v@, i as int);
    }
    let mut j = v.len();
    while j > i && is_space_char(v[j - 1])
        invariant
            i <= j <= v.len(),
            forall|k: int| j <= k < v.len() ==> is_space(#[trigger] v@[k]),
        decreases j,
    {
        j -= 1;
    }
    let ghost t = v@.skip(i as int);
    proof {
        assert forall|k: int| j - i <= k < t.len() implies is_space(#[trigger] t[k]) by {
            assert(t[k] == v@[k + i]);
        }
        if j > i {
            assert(t[j - i - 1] == v@[j - 1]);
        }
        lemma_trim_end_take(t, j - i);
        assert(t.take(j - i) =~= v@.subrange(i as int, j as int));
    }
    let mut out: Vec<char> = Vec::new();
    let mut k = i;
    while k < j
        invariant
            i <= k <= j <= v.len(),
            out@ == v@.subrange(i as int, k as int),
        decreases j - k,
    {
        out.push(v[k]);
        assert(v@.subrange(i as int, k + 1) =~= v@.subrange(i as int, k as int).push(v@[k as int]));
        k += 1;
    }
    out
}

/// Whether `s` holds nothing but white space.
pub fn is_blank(s: &str) -> (res: bool)
    ensures
        res == (trim(s@).len() == 0),
{
    let t = trim_chars(s);
    t.len() == 0
}

/// `v` without every leading occurrence of `c`.
pub fn strip_leading_chars(v: &Vec<char>, c: char) -> (res: Vec<char>)
    ensures
        res@ == strip_leading(v@, c),
{
    let mut i: usize = 0;
    while i < v.len() && v[i] == c
        invariant
            i <= v.len(),
            forall|k: int| 0 <= k < i ==> #[trigger] v@[k] == c,
        decreases v.len() - i,
    {
        i += 1;
    }
    proof {
        lemma_strip_leading_skip(v@, c, i as int);
    }
    let mut out: Vec<char> = Vec::new();
    let mut k = i;
    while k < v.len()
        invariant
            i <= k <= v.len(),
            out@ == v@.subrange(i as int, k as int),
        decreases v.len() - k,
    {
        out.push(v[k]);
        assert(v@.subrange(i as int, k + 1) =~= v@.subrange(i as int, k as int).push(v@[k as int]));
        k += 1;
    }
    assert(v@.subrange(i as int, v.len() as int) =~= v@.skip(i as int));
    out
}

/// `s` without every trailing occurrence of `c` (std's `str::trim_end_matches` with a `char`).
pub fn strip_trailing_str(s: &str, c: char) -> (res: String)
    ensures
        res@ == strip_trailing(s@, c),
{
    let v = chars_of(s);
    let mut j = v.len();
    while j > 0 && v[j - 1] == c
        invariant
            j <= v.len(),
            forall|k: int| j <= k < v.len() ==> #[trigger] v@[k] == c,
        decreases j,
    {
        j -= 1;
    }
    proof {
        lemma_strip_trailing_take(v@, c, j as int);
        assert(v@.subrange(0, j as int) =~= v@.take(j as int));
    }
    string_of_range(&v, 0, j)
}

/// Trimming removes exactly the white space at either end: when `s[i..j]` starts and ends
/// with non-space characters and everything outside it is white space, the trimmed text
/// is `s[i..j]`; text made only of white space trims to nothing.
pub proof fn lemma_trim_removes_outer_space(s: Seq<char>, i: int, j: int)
    requires
        0 <= i <= j <= s.len(),
        forall|k: int| 0 <= k < i ==> is_space(#[trigger] s[k]),
        forall|k: int| j <= k < s.len() ==> is_space(#[trigger] s[k]),
        i < j ==> !is_space(s[i]) && !is_space(s[j - 1]),
        i == j ==> forall|k: int| 0 <= k < s.len() ==> is_space(#[trigger] s[k]),
    ensures
        trim(s) == s.subrange(i, j),
{
    if i < j {
        lemma_trim_start_skip(s, i);
        let t = s.skip(i);
        assert forall|k: int| j - i <= k < t.len() implies is_space(#[trigger] t[k]) by {
            assert(t[k] == s[k + i]);
        }
        assert(t[j - i - 1] == s[j - 1]);
        lemma_trim_end_take(t, j - i);
        assert(t.take(j - i) =~= s.subrange(i, j));
    } else {
        lemma_trim_start_skip(s, s.len() as int);
        let t = s.skip(s.len() as int);
        assert(t =~= Seq::<char>::empty());
        lemma_trim_end_take(t, 0);
        assert(s.subrange(i, j) =~= Seq::<char>::empty());
        assert(t.take(0) =~= Seq::<char>::empty());
    }
}

} // verus!
