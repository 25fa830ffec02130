//! The command-line client: the URLs it talks to.
use vstd::prelude::*;
use crate::text::{chars_of, push_char, push_str, strip_trailing, strip_trailing_str};

verus! {

/// `s` with every occurrence of `pat` replaced by `rep`, matching from the left without
/// overlap (std's `str::replace`, for a non-empty pattern).
pub open spec fn replace_all(s: Seq<char>, pat: Seq<char>, rep: Seq<char>) -> Seq<char>
    decreases s.len(),
{
    if pat.len() == 0 || s.len() < pat.len() {
        s
    } else if s.take(pat.len() as int) == pat {
        rep + replace_all(s.skip(pat.len() as int), pat, rep)
    } else {
        seq![s[0]] + replace_all(s.skip(1), pat, rep)
    }
}

/// Whether `pat` occurs in `v` at index `i`.
fn occurs_at(v: &Vec<char>, i: usize, pat: &Vec<char>) -> (res: bool)
    requires
        i <= v.len(),
    ensures
        res == (i + pat.len() <= v.len() && v@.subrange(i as int, i + pat.len()) == pat@),
{
    if pat.len() > v.len() - i {
        return false;
    }
    let mut k: usize = 0;
    while k < pat.len()
        invariant
            i + pat.len() <= v.len(),
            k <= pat.len(),
            forall|j: int| 0 <= j < k ==> v@[i + j] == pat@[j],
        decreases pat.len() - k,
    {
        if v[i + k] != pat[k] {
            assert(v@.subrange(i as int, i + pat.len())[k as int] != pat@[k as int]);
            return false;
        }
        k += 1;
    }
    assert(v@.subrange(i as int, i + pat.len()) =~= pat@);
    true
}

/// `s` with every occurrence of the non-empty `pat` replaced by `rep` (std's `str::replace`).
pub fn replace_str(s: &str, pat: &str, rep: &str) -> (res: String)
    requires
        pat@.len() > 0,
    ensures
        res@ == replace_all(s@, pat@, rep@),
{
    let v = chars_of(s);
    let p = chars_of(pat);
    let mut out = String::new();
    let mut i: usize = 0;
    assert(v@.skip(0) =~= v@);
    while i < v.len()
        invariant
            i <= v.len(),
            p@ == pat@,
            p@.len() > 0,
            out@ + replace_all(v@.skip(i as int), pat@, rep@) == replace_all(v@, pat@, rep@),
        decreases v.len() - i,
    {
        let ghost t = v@.skip(i as int);
        if occurs_at(&v, i, &p) {
            proof {
                assert(t.take(p@.len() as int) =~= v@.subrange(i as int, i + p@.len()));
                assert(t.skip(p@.len() as int) =~= v@.skip(i + p@.len()));
                assert(out@ + rep@ + replace_all(v@.skip(i + p@.len()), pat@, rep@) =~= out@ + (rep@
                    + replace_all(t.skip(p@.len() as int), pat@, rep@)));
            }
            push_str(&mut out, rep);
            i = i + p.len();
        } else {
            proof {
                if t.len() >= p@.len() {
                    assert(t.take(p@.len() as int) =~= v@.subrange(i as int, i + p@.len()));
                }
                assert(t[0] == v@[i as int]);
                assert(t.skip(1) =~= v@.skip(i + 1));
                assert(out@.push(v@[i as int]) + replace_all(v@.skip(i + 1), pat@, rep@) =~= out@ + (
                seq![t[0]] + replace_all(t.skip(1), pat@, rep@)));
            }
            push_char(&mut out, v[i]);
            i = i + 1;
        }
    }
    assert(v@.skip(i as int) =~= Seq::<char>::empty());
    assert(out@ + Seq::<char>::empty() =~= out@);
    out
}

/// The URL of an API path on the server: the server URL without trailing `/`, then the path.
pub fn api_url(server: &str, path: &str) -> (res: String)
    ensures
        res@ == strip_trailing(server@, '/') + path@,
{
    let mut out = strip_trailing_str(server, '/');
    push_str(&mut out, path);
    out
}

/// The WebSocket URL of the event stream: the server URL without trailing `/`, with
/// `http://` turned into `ws://` and `https://` into `wss://`, then `/api/v1/events`.
pub fn events_url(server: &str) -> (res: String)
    ensures
        res@ == replace_all(
            replace_all(strip_trailing(server@, '/'), "http://"@, "ws://"@),
            "https://"@,
            "wss://"@,
        ) + "/api/v1/events"@,
{
    let base = strip_trailing_str(server, '/');
    proof {
        reveal_strlit("http://");
        reveal_strlit("https://");
    }
    let ws = replace_str(base.as_str(), "http://", "ws://");
    let mut out = replace_str(ws.as_str(), "https://", "wss://");
    push_str(&mut out, "/api/v1/events");
    out
}

/// Replacing leaves text without the pattern as it is, and a leading occurrence of the
/// pattern becomes the replacement.
pub proof fn lemma_replace_all_laws(s: Seq<char>, pat: Seq<char>, rep: Seq<char>)
    requires
        pat.len() > 0,
    ensures
        (forall|i: int| 0 <= i && i + pat.len() <= s.len() ==> #[trigger] s.subrange(i, i + pat.len()) != pat)
            ==> replace_all(s, pat, rep) == s,
        replace_all(pat + s, pat, rep) == rep + replace_all(s, pat, rep),
    decreases s.len(),
{
    let ps = pat + s;
    assert(ps.take(pat.len() as int) =~= pat);
    assert(ps.skip(pat.len() as int) =~= s);
    if forall|i: int| 0 <= i && i + pat.len() <= s.len() ==> #[trigger] s.subrange(i, i + pat.len()) != pat {
        if s.len() >= pat.len() {
            assert(s.take(pat.len() as int) =~= s.subrange(0, pat.len() as int));
            let t = s.skip(1);
            assert forall|i: int| 0 <= i && i + pat.len() <= t.len() implies #[trigger] t.subrange(i, i + pat.len()) != pat by {
                assert(t.subrange(i, i + pat.len()) =~= s.subrange(i + 1, i + 1 + pat.len()));
            }
            lemma_replace_all_laws(t, pat, rep);
            assert(seq![s[0]] + t =~= s);
        }
    }
}

} // verus!
