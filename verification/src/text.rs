use vstd::prelude::*;

verus! {

/// `s` with every occurrence of `pat` replaced by `rep`, the occurrences
/// taken from left to right without overlap, as `str::replace` does for a
/// non-empty pattern.
pub open spec fn replace_all(s: Seq<char>, pat: Seq<char>, rep: Seq<char>) -> Seq<char>
    recommends
        pat.len() > 0,
    decreases s.len(),
{
    if pat.len() == 0 || s.len() < pat.len() {
        s
    } else if s.subrange(0, pat.len() as int) == pat {
        rep + replace_all(s.subrange(pat.len() as int, s.len() as int), pat, rep)
    } else {
        seq![s[0]] + replace_all(s.subrange(1, s.len() as int), pat, rep)
    }
}

/// Whether `pat` occurs in `s` as a run of consecutive characters.
pub open spec fn occurs_in(s: Seq<char>, pat: Seq<char>) -> bool {
    exists|i: int| 0 <= i && i + pat.len() <= s.len() && #[trigger] s.subrange(i, i + pat.len()) == pat
}

/// The characters of a string, in order.
pub fn chars_of(s: &str) -> (v: Vec<char>)
    ensures
        v@ == s@,
{
    let mut v: Vec<char> = Vec::new();
    for c in it: s.chars()
        invariant
            v@ == it.seq().take(it.index()),
            it.seq() == s@,
    {
        v.push(c);
    }
    v
}

/// Whether `pat` stands in `s` starting at index `at`.
fn matches_at(s: &Vec<char>, pat: &Vec<char>, at: usize) -> (b: bool)
    requires
        at + pat.len() <= s.len(),
    ensures
        b == (s@.subrange(at as int, at + pat.len()) == pat@),
{
    let mut j: usize = 0;
    while j < pat.len()
        invariant
            at + pat.len() <= s.len(),
            j <= pat.len(),
            forall|k: int| 0 <= k < j ==> s@[at + k] == pat@[k],
        decreases pat.len() - j,
    {
        if s[at + j] != pat[j] {
            assert(s@.subrange(at as int, at + pat.len())[j as int] != pat@[j as int]);
            return false;
        }
        j = j + 1;
    }
    assert(s@.subrange(at as int, at + pat.len()) =~= pat@);
    true
}

/// One step of `replace_all` on a suffix of `s`, taken where the suffix
/// starts with the pattern.
proof fn lemma_replace_step_match(s: Seq<char>, pat: Seq<char>, rep: Seq<char>, i: int)
    requires
        pat.len() > 0,
        0 <= i,
        i + pat.len() <= s.len(),
        s.subrange(i, i + pat.len()) == pat,
    ensures
        replace_all(s.subrange(i, s.len() as int), pat, rep) == rep + replace_all(
            s.subrange(i + pat.len(), s.len() as int),
            pat,
            rep,
        ),
{
    let t = s.subrange(i, s.len() as int);
    assert(t.subrange(0, pat.len() as int) =~= s.subrange(i, i + pat.len()));
    assert(t.subrange(pat.len() as int, t.len() as int) =~= s.subrange(i + pat.len(), s.len() as int));
}

/// One step of `replace_all` on a suffix of `s`, taken where the suffix does
/// not start with the pattern.
proof fn lemma_replace_step_skip(s: Seq<char>, pat: Seq<char>, rep: Seq<char>, i: int)
    requires
        pat.len() > 0,
        0 <= i,
        i + pat.len() <= s.len(),
        s.subrange(i, i + pat.len()) != pat,
    ensures
        replace_all(s.subrange(i, s.len() as int), pat, rep) == seq![s[i]] + replace_all(
            s.subrange(i + 1, s.len() as int),
            pat,
            rep,
        ),
{
    let t = s.subrange(i, s.len() as int);
    assert(t.subrange(0, pat.len() as int) =~= s.subrange(i, i + pat.len()));
    assert(t.subrange(1, t.len() as int) =~= s.subrange(i + 1, s.len() as int));
}

/// `s` with every occurrence of the non-empty `pat` replaced by `rep`.
pub fn replace_all_str(s: &str, pat: &str, rep: &str) -> (res: String)
    requires
        pat@.len() > 0,
    ensures
        res@ == replace_all(s@, pat@, rep@),
{
    let t = chars_of(s);
    let p = chars_of(pat);
    let n = t.len();
    let m = p.len();
    let mut out = String::new();
    let mut last: usize = 0;
    let mut i: usize = 0;
    assert(s@.subrange(0, n as int) =~= s@);
    assert(s@.subrange(0, 0) =~= Seq::<char>::empty());
    assert(out@ =~= Seq::<char>::empty());
    while i < n
        invariant
            t@ == s@,
            p@ == pat@,
            n == t@.len(),
            m == p@.len(),
            m > 0,
            last <= i <= n,
            replace_all(s@, pat@, rep@) == out@ + s@.subrange(last as int, i as int) + replace_all(
                s@.subrange(i as int, n as int),
                pat@,
                rep@,
            ),
        ensures
            i <= n,
            n - i < m,
        decreases n - i,
    {
        if n - i < m {
            break;
        }
        if matches_at(&t, &p, i) {
            proof {
                lemma_replace_step_match(s@, pat@, rep@, i as int);
            }
            let segment = s.substring_char(last, i);
            out.append(segment);
            out.append(rep);
            i = i + m;
            last = i;
            assert(s@.subrange(i as int, i as int) =~= Seq::<char>::empty());
        } else {
            proof {
                lemma_replace_step_skip(s@, pat@, rep@, i as int);
                assert(s@.subrange(last as int, i as int) + seq![s@[i as int]] =~= s@.subrange(
                    last as int,
                    i + 1,
                ));
            }
            i = i + 1;
        }
    }
    let tail = s.substring_char(last, n);
    out.append(tail);
    assert(replace_all(s@.subrange(i as int, n as int), pat@, rep@) == s@.subrange(i as int, n as int));
    assert(s@.subrange(last as int, i as int) + s@.subrange(i as int, n as int) =~= s@.subrange(
        last as int,
        n as int,
    ));
    out
}

/// Replacing a pattern that does not occur leaves the text as it is.
pub proof fn lemma_replace_absent(s: Seq<char>, pat: Seq<char>, rep: Seq<char>)
    requires
        pat.len() > 0,
        !occurs_in(s, pat),
    ensures
        replace_all(s, pat, rep) == s,
    decreases s.len(),
{
    if s.len() >= pat.len() {
        let k: int = 0;
        assert(s.subrange(k, k + pat.len()) != pat);
        let rest = s.subrange(1, s.len() as int);
        assert forall|i: int| 0 <= i && i + pat.len() <= rest.len() implies #[trigger] rest.subrange(
            i,
            i + pat.len(),
        ) != pat by {
            assert(rest.subrange(i, i + pat.len()) =~= s.subrange(i + 1, i + 1 + pat.len()));
        }
        lemma_replace_absent(rest, pat, rep);
        assert(seq![s[0]] + rest =~= s);
    }
}

/// Whether `c` is white space as Unicode's `White_Space` property defines it,
/// which is what `char::is_whitespace` and `str::trim` go by.
pub open spec fn is_white_space(c: char) -> bool {
    let n = c as u32;
    ||| 0x09 <= n <= 0x0d
    ||| n == 0x20
    ||| n == 0x85
    ||| n == 0xa0
    ||| n == 0x1680
    ||| 0x2000 <= n <= 0x200a
    ||| n == 0x2028
    ||| n == 0x2029
    ||| n == 0x202f
    ||| n == 0x205f
    ||| n == 0x3000
}

/// `s` without its leading white space.
pub open spec fn trim_start(s: Seq<char>) -> Seq<char>
    decreases s.len(),
{
    if s.len() > 0 && is_white_space(s[0]) {
        trim_start(s.drop_first())
    } else {
        s
    }
}

/// `s` without its trailing white space.
pub open spec fn trim_end(s: Seq<char>) -> Seq<char>
    decreases s.len(),
{
    if s.len() > 0 && is_white_space(s.last()) {
        trim_end(s.drop_last())
    } else {
        s
    }
}

/// `s` without leading and trailing white space, as `str::trim` gives it.
pub open spec fn trim(s: Seq<char>) -> Seq<char> {
    trim_end(trim_start(s))
}

/// Whether `c` is white space.
pub fn is_white_space_char(c: char) -> (res: bool)
    ensures
        res == is_white_space(c),
{
    let n = c as u32;
    (0x09 <= n && n <= 0x0d) || n == 0x20 || n == 0x85 || n == 0xa0 || n == 0x1680 || (0x2000 <= n
        && n <= 0x200a) || n == 0x2028 || n == 0x2029 || n == 0x202f || n == 0x205f || n == 0x3000
}

/// The bounds of `v` with leading and trailing white space cut off: the
/// trimmed text is `v[start..end]`.
pub fn trim_bounds(v: &Vec<char>) -> (bounds: (usize, usize))
    ensures
        bounds.0 <= bounds.1 <= v.len(),
        v@.subrange(bounds.0 as int, bounds.1 as int) == trim(v@),
{
    let n = v.len();
    let mut start: usize = 0;
    assert(v@.subrange(0, n as int) =~= v@);
    while start < n && is_white_space_char(v[start])
        invariant
            start <= n == v.len(),
            trim_start(v@) == trim_start(v@.subrange(start as int, n as int)),
        decreases n - start,
    {
        assert(v@.subrange(start as int, n as int).drop_first() =~= v@.subrange(start + 1, n as int));
        start = start + 1;
    }
    assert(trim_start(v@) == v@.subrange(start as int, n as int));
    let mut end: usize = n;
    while end > start && is_white_space_char(v[end - 1])
        invariant
            start <= end <= n == v.len(),
            trim(v@) == trim_end(v@.subrange(start as int, end as int)),
        decreases end,
    {
        assert(v@.subrange(start as int, end as int).drop_last() =~= v@.subrange(
            start as int,
            end - 1,
        ));
        end = end - 1;
    }
    (start, end)
}

/// Trimming the start of `s` drops exactly a run of leading white space: the
/// result is `s` from the returned index on, everything before that index is
/// white space, and the character at it (if any) is not.
pub proof fn lemma_trim_start_shape(s: Seq<char>) -> (i: int)
    ensures
        0 <= i <= s.len(),
        trim_start(s) == s.subrange(i, s.len() as int),
        forall|k: int| 0 <= k < i ==> is_white_space(#[trigger] s[k]),
        i < s.len() ==> !is_white_space(s[i]),
    decreases s.len(),
{
    if s.len() > 0 && is_white_space(s[0]) {
        let rest = s.drop_first();
        let j = lemma_trim_start_shape(rest);
        assert(rest.subrange(j, rest.len() as int) =~= s.subrange(j + 1, s.len() as int));
        assert forall|k: int| 0 <= k < j + 1 implies is_white_space(#[trigger] s[k]) by {
            if k > 0 {
                assert(s[k] == rest[k - 1]);
            }
        }
        j + 1
    } else {
        assert(s.subrange(0, s.len() as int) =~= s);
        0
    }
}

/// Trimming the end of `s` drops exactly a run of trailing white space: the
/// result is `s` up to the returned index, everything from that index on is
/// white space, and the character just before it (if any) is not.
pub proof fn lemma_trim_end_shape(s: Seq<char>) -> (j: int)
    ensures
        0 <= j <= s.len(),
        trim_end(s) == s.subrange(0, j),
        forall|k: int| j <= k < s.len() ==> is_white_space(#[trigger] s[k]),
        j > 0 ==> !is_white_space(s[j - 1]),
    decreases s.len(),
{
    if s.len() > 0 && is_white_space(s.last()) {
        let rest = s.drop_last();
        let j = lemma_trim_end_shape(rest);
        assert(rest.subrange(0, j) =~= s.subrange(0, j));
        assert forall|k: int| j <= k < s.len() implies is_white_space(#[trigger] s[k]) by {
            if k < s.len() - 1 {
                assert(s[k] == rest[k]);
            }
        }
        j
    } else {
        assert(s.subrange(0, s.len() as int) =~= s);
        s.len() as int
    }
}

/// `trim` cuts `s` to a run of consecutive characters: everything before and
/// after the run is white space, and the run (when not empty) begins and ends
/// with a character that is not.
pub proof fn lemma_trim_shape(s: Seq<char>) -> (bounds: (int, int))
    ensures
        0 <= bounds.0 <= bounds.1 <= s.len(),
        trim(s) == s.subrange(bounds.0, bounds.1),
        forall|k: int| 0 <= k < bounds.0 ==> is_white_space(#[trigger] s[k]),
        forall|k: int| bounds.1 <= k < s.len() ==> is_white_space(#[trigger] s[k]),
        bounds.0 < bounds.1 ==> !is_white_space(s[bounds.0]) && !is_white_space(s[bounds.1 - 1]),
        bounds.0 == bounds.1 ==> forall|k: int| 0 <= k < s.len() ==> is_white_space(#[trigger] s[k]),
{
    let i = lemma_trim_start_shape(s);
    let u = s.subrange(i, s.len() as int);
    let j = lemma_trim_end_shape(u);
    assert(u.subrange(0, j) =~= s.subrange(i, i + j));
    assert forall|k: int| i + j <= k < s.len() implies is_white_space(#[trigger] s[k]) by {
        assert(s[k] == u[k - i]);
    }
    if j > 0 {
        assert(u[0] == s[i]);
        assert(u[j - 1] == s[i + j - 1]);
    } else if i < s.len() {
        assert(is_white_space(u[0]));
        assert(u[0] == s[i]);
    }
    (i, i + j)
}

/// Space, tab, line feed and carriage return are white space; no ASCII
/// letter or digit is.
pub proof fn lemma_white_space_ascii(c: char)
    ensures
        (c == ' ' || c == '\t' || c == '\n' || c == '\r') ==> is_white_space(c),
        (('a' <= c <= 'z') || ('A' <= c <= 'Z') || ('0' <= c <= '9')) ==> !is_white_space(c),
{
}

/// When the pattern's first character does not occur in `before`, replacing
/// in `before + pat + after` keeps `before`, puts `rep` for that occurrence
/// and goes on with `after`.
pub proof fn lemma_replace_first_occurrence(before: Seq<char>, pat: Seq<char>, after: Seq<char>, rep: Seq<char>)
    requires
        pat.len() > 0,
        !before.contains(pat[0]),
    ensures
        replace_all(before + pat + after, pat, rep) == before + rep + replace_all(after, pat, rep),
    decreases before.len(),
{
    let s = before + pat + after;
    if before.len() == 0 {
        assert(s =~= pat + after);
        assert(s.subrange(0, pat.len() as int) =~= pat);
        assert(s.subrange(pat.len() as int, s.len() as int) =~= after);
        assert(before + rep =~= rep);
    } else {
        assert(s[0] == before[0]);
        assert(s.subrange(0, pat.len() as int)[0] == s[0]);
        assert(s.subrange(0, pat.len() as int) != pat);
        let rest = before.drop_first();
        assert(!rest.contains(pat[0])) by {
            if rest.contains(pat[0]) {
                let k = choose|k: int| 0 <= k < rest.len() && rest[k] == pat[0];
                assert(before[k + 1] == pat[0]);
            }
        }
        lemma_replace_first_occurrence(rest, pat, after, rep);
        assert(s.subrange(1, s.len() as int) =~= rest + pat + after);
        assert(seq![before[0]] + (rest + rep + replace_all(after, pat, rep)) =~= before + rep
            + replace_all(after, pat, rep));
    }
}

} // verus!
