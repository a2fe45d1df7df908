//! Character-level text model shared by the reference, URL and command builders.
//!
//! Every string of the library is viewed as a `Seq<char>`; the spec functions below
//! state what `str::starts_with`, `str::find`, `str::split`, `str::splitn`,
//! `str::replace`, `str::trim_matches` and `join` compute, and the executable
//! helpers are proved against them.
use vstd::prelude::*;
use vstd::string::StringExecFns;

verus! {

/// `p` is a prefix of `s`.
pub open spec fn starts_with(s: Seq<char>, p: Seq<char>) -> bool {
    p.len() <= s.len() && s.subrange(0, p.len() as int) == p
}

/// `p` occurs in `s` at position `i`.
pub open spec fn occurs_at(s: Seq<char>, p: Seq<char>, i: int) -> bool {
    0 <= i && i + p.len() <= s.len() && s.subrange(i, i + p.len()) == p
}

/// `p` occurs somewhere in `s`.
pub open spec fn contains(s: Seq<char>, p: Seq<char>) -> bool {
    exists|i: int| occurs_at(s, p, i)
}

/// The first position at or after `i` where `p` occurs in `s`.
pub open spec fn find_from(s: Seq<char>, p: Seq<char>, i: int) -> Option<int>
    decreases s.len() + 1 - i,
{
    if i + p.len() > s.len() {
        None
    } else if occurs_at(s, p, i) {
        Some(i)
    } else {
        find_from(s, p, i + 1)
    }
}

/// The first position where `p` occurs in `s`, as `str::find` reports it.
pub open spec fn find(s: Seq<char>, p: Seq<char>) -> Option<int> {
    find_from(s, p, 0)
}

/// Text before the first `sep` (all of `s` when there is none): the first item of
/// `s.splitn(2, sep)`.
pub open spec fn before_first(s: Seq<char>, sep: Seq<char>) -> Seq<char> {
    match find(s, sep) {
        Some(i) => s.take(i),
        None => s,
    }
}

/// Text after the first `sep`, if there is one: the second item of `s.splitn(2, sep)`.
pub open spec fn after_first(s: Seq<char>, sep: Seq<char>) -> Option<Seq<char>> {
    match find(s, sep) {
        Some(i) => Some(s.skip(i + sep.len())),
        None => None,
    }
}

/// The pieces that `s.split(sep)` yields for a one-character separator.
pub open spec fn split_on(s: Seq<char>, sep: char) -> Seq<Seq<char>>
    decreases s.len(),
{
    match find(s, seq![sep]) {
        Some(i) => {
            proof {
                lemma_find_occurs(s, seq![sep]);
            }
            seq![s.take(i)] + split_on(s.skip(i + 1), sep)
        },
        None => seq![s],
    }
}

/// `s.replace(from, to)` for a non-empty `from`: every non-overlapping occurrence,
/// scanned from the left, is replaced.
pub open spec fn replace_all(s: Seq<char>, from: Seq<char>, to: Seq<char>) -> Seq<char>
    decreases s.len(),
{
    if from.len() == 0 {
        s
    } else {
        match find(s, from) {
            Some(i) => {
                proof {
                    lemma_find_occurs(s, from);
                }
                s.take(i) + to + replace_all(s.skip(i + from.len()), from, to)
            },
            None => s,
        }
    }
}

/// The pieces joined with `sep` between each two of them.
pub open spec fn join(pieces: Seq<Seq<char>>, sep: Seq<char>) -> Seq<char>
    decreases pieces.len(),
{
    if pieces.len() == 0 {
        Seq::empty()
    } else if pieces.len() == 1 {
        pieces[0]
    } else {
        join(pieces.drop_last(), sep) + sep + pieces.last()
    }
}

/// `s` without its leading `c` characters.
pub open spec fn trim_start_char(s: Seq<char>, c: char) -> Seq<char>
    decreases s.len(),
{
    if s.len() > 0 && s[0] == c {
        trim_start_char(s.skip(1), c)
    } else {
        s
    }
}

/// `s` without its trailing `c` characters.
pub open spec fn trim_end_char(s: Seq<char>, c: char) -> Seq<char>
    decreases s.len(),
{
    if s.len() > 0 && s.last() == c {
        trim_end_char(s.drop_last(), c)
    } else {
        s
    }
}

/// `s.trim_matches(c)`.
pub open spec fn trim_char(s: Seq<char>, c: char) -> Seq<char> {
    trim_end_char(trim_start_char(s, c), c)
}

/// The decimal digit for `d < 10`.
pub open spec fn digit_char(d: nat) -> char {
    if d == 0 {
        '0'
    } else if d == 1 {
        '1'
    } else if d == 2 {
        '2'
    } else if d == 3 {
        '3'
    } else if d == 4 {
        '4'
    } else if d == 5 {
        '5'
    } else if d == 6 {
        '6'
    } else if d == 7 {
        '7'
    } else if d == 8 {
        '8'
    } else {
        '9'
    }
}

/// The decimal text of `n`, as `Display` writes an unsigned integer.
pub open spec fn decimal(n: nat) -> Seq<char>
    decreases n,
{
    if n < 10 {
        seq![digit_char(n)]
    } else {
        decimal(n / 10).push(digit_char(n % 10))
    }
}

// ---------------------------------------------------------------------------
// Lemmas
// ---------------------------------------------------------------------------

/// What `find_from` returns is an occurrence at or after `i`, with none between.
pub proof fn lemma_find_from_sound(s: Seq<char>, p: Seq<char>, i: int)
    requires
        0 <= i,
    ensures
        match find_from(s, p, i) {
            Some(k) => i <= k && occurs_at(s, p, k) && forall|j: int|
                i <= j < k ==> !#[trigger] occurs_at(s, p, j),
            None => forall|j: int| i <= j ==> !#[trigger] occurs_at(s, p, j),
        },
    decreases s.len() + 1 - i,
{
    if i + p.len() > s.len() {
    } else if occurs_at(s, p, i) {
    } else {
        lemma_find_from_sound(s, p, i + 1);
    }
}

/// `find` reports the first occurrence, and `None` exactly when there is none.
pub proof fn lemma_find_occurs(s: Seq<char>, p: Seq<char>)
    ensures
        match find(s, p) {
            Some(k) => occurs_at(s, p, k) && forall|j: int|
                0 <= j < k ==> !#[trigger] occurs_at(s, p, j),
            None => !contains(s, p),
        },
{
    lemma_find_from_sound(s, p, 0);
    if find(s, p) is None {
        assert forall|j: int| !#[trigger] occurs_at(s, p, j) by {
            if j < 0 {
            }
        }
    }
}

/// Characters that do not include `c` hold no occurrence of it.
pub proof fn lemma_find_char_none(s: Seq<char>, c: char)
    requires
        forall|k: int| 0 <= k < s.len() ==> s[k] != c,
    ensures
        find(s, seq![c]) is None,
{
    lemma_find_occurs(s, seq![c]);
    if find(s, seq![c]) is Some {
        let k = find(s, seq![c])->0;
        assert(s.subrange(k, k + 1)[0] == c);
    }
}

/// Occurrences in a suffix are the occurrences in the whole text, shifted.
pub proof fn lemma_occurs_skip(s: Seq<char>, p: Seq<char>, k: int, j: int)
    requires
        0 <= k <= s.len(),
        0 <= j,
    ensures
        occurs_at(s.skip(k), p, j) == occurs_at(s, p, j + k),
{
    if j + p.len() <= s.len() - k {
        assert(s.skip(k).subrange(j, j + p.len()) =~= s.subrange(j + k, j + k + p.len()));
    }
}

/// Searching a suffix gives the search of the whole text from the same place, shifted.
pub proof fn lemma_find_from_skip(s: Seq<char>, p: Seq<char>, k: int, j: int)
    requires
        0 <= k <= s.len(),
        0 <= j,
    ensures
        find_from(s.skip(k), p, j) == match find_from(s, p, j + k) {
            Some(i) => Some(i - k),
            None => None::<int>,
        },
    decreases s.len() + 1 - (j + k),
{
    lemma_occurs_skip(s, p, k, j);
    if j + p.len() > s.len() - k {
    } else if occurs_at(s, p, j + k) {
    } else {
        lemma_find_from_skip(s, p, k, j + 1);
    }
}

/// Without an occurrence at the start, `replace_all` keeps the first character and
/// goes on with the rest.
pub proof fn lemma_replace_step_char(s: Seq<char>, from: Seq<char>, to: Seq<char>)
    requires
        s.len() > 0,
        from.len() > 0,
        !occurs_at(s, from, 0),
    ensures
        replace_all(s, from, to) == seq![s[0]] + replace_all(s.skip(1), from, to),
{
    let t = s.skip(1);
    lemma_find_from_skip(s, from, 1, 0);
    assert(find(s, from) == find_from(s, from, 1));
    match find(t, from) {
        Some(i) => {
            lemma_find_occurs(t, from);
            assert(s.take(i + 1) =~= seq![s[0]] + t.take(i));
            assert(s.skip(i + 1 + from.len()) =~= t.skip(i + from.len()));
            assert(replace_all(s, from, to) == s.take(i + 1) + to + replace_all(
                s.skip(i + 1 + from.len()),
                from,
                to,
            ));
            assert(seq![s[0]] + (t.take(i) + to + replace_all(t.skip(i + from.len()), from, to))
                =~= s.take(i + 1) + to + replace_all(s.skip(i + 1 + from.len()), from, to));
        },
        None => {
            assert(s =~= seq![s[0]] + t);
        },
    }
}

/// With an occurrence at the start, `replace_all` writes `to` and goes on after it.
pub proof fn lemma_replace_step_match(s: Seq<char>, from: Seq<char>, to: Seq<char>)
    requires
        from.len() > 0,
        occurs_at(s, from, 0),
    ensures
        replace_all(s, from, to) == to + replace_all(s.skip(from.len() as int), from, to),
{
    assert(find(s, from) == Some(0int));
    assert(s.take(0) + to =~= to);
}

/// The first `c` of `s` is at `k`.
pub proof fn lemma_find_char_at(s: Seq<char>, c: char, k: int)
    requires
        0 <= k < s.len(),
        s[k] == c,
        forall|j: int| 0 <= j < k ==> s[j] != c,
    ensures
        find(s, seq![c]) == Some(k),
{
    assert(occurs_at(s, seq![c], k)) by {
        assert(s.subrange(k, k + 1) =~= seq![c]);
    }
    lemma_find_occurs(s, seq![c]);
    match find(s, seq![c]) {
        Some(i) => {
            assert(s.subrange(i, i + 1)[0] == c);
            if i < k {
                assert(s[i] == c);
            }
        },
        None => {},
    }
}

// ---------------------------------------------------------------------------
// Executable helpers
// ---------------------------------------------------------------------------

/// The characters of `s`, in order.
pub fn chars_of(s: &str) -> (v: Vec<char>)
    ensures
        v@ == s@,
{
    let mut v: Vec<char> = Vec::new();
    for c in it: s.chars()
        invariant
            v@ == it.seq().take(it.index() as int),
    {
        v.push(c);
    }
    v
}

/// Appends one character to a `String` (`String::push`).
#[verifier::external_body]
fn push_char(s: &mut String, c: char)
    ensures
        final(s)@ == old(s)@.push(c),
{
    s.push(c);
}

/// The `String` made of the characters of `v`.
pub fn string_of(v: &[char]) -> (s: String)
    ensures
        s@ == v@,
{
    let mut s = String::new();
    let mut i: usize = 0;
    while i < v.len()
        invariant
            i <= v.len(),
            s@ == v@.take(i as int),
        decreases v.len() - i,
    {
        push_char(&mut s, v[i]);
        assert(v@.take(i as int).push(v[i as int]) =~= v@.take(i + 1));
        i += 1;
    }
    assert(v@.take(v.len() as int) =~= v@);
    s
}

/// The concatenation of `a` and `b`.
pub fn concat2(a: &str, b: &str) -> (s: String)
    ensures
        s@ == a@ + b@,
{
    let mut s = String::from_str(a);
    s.append(b);
    s
}

/// The concatenation of `a`, `b` and `c`.
pub fn concat3(a: &str, b: &str, c: &str) -> (s: String)
    ensures
        s@ == a@ + b@ + c@,
{
    let mut s = String::from_str(a);
    s.append(b);
    s.append(c);
    s
}

/// The concatenation of `a`, `b`, `c` and `d`.
pub fn concat4(a: &str, b: &str, c: &str, d: &str) -> (s: String)
    ensures
        s@ == a@ + b@ + c@ + d@,
{
    let mut s = String::from_str(a);
    s.append(b);
    s.append(c);
    s.append(d);
    s
}

/// The concatenation of `a`, `b`, `c`, `d` and `e`.
pub fn concat5(a: &str, b: &str, c: &str, d: &str, e: &str) -> (s: String)
    ensures
        s@ == a@ + b@ + c@ + d@ + e@,
{
    let mut s = String::from_str(a);
    s.append(b);
    s.append(c);
    s.append(d);
    s.append(e);
    s
}

/// `p` occurs in `s` at position `i`.
pub fn matches_at(s: &[char], p: &[char], i: usize) -> (r: bool)
    ensures
        r == occurs_at(s@, p@, i as int),
{
    if i > s.len() || p.len() > s.len() - i {
        return false;
    }
    let mut j: usize = 0;
    while j < p.len()
        invariant
            j <= p.len(),
            i + p.len() <= s.len(),
            forall|k: int| 0 <= k < j ==> s@[i + k] == p@[k],
        decreases p.len() - j,
    {
        if s[i + j] != p[j] {
            assert(s@.subrange(i as int, i + p.len())[j as int] != p@[j as int]);
            return false;
        }
        j += 1;
    }
    assert(s@.subrange(i as int, i + p.len()) =~= p@);
    true
}

/// The first position where `p` occurs in `s` (`str::find`).
pub fn find_in(s: &[char], p: &[char]) -> (r: Option<usize>)
    ensures
        match r {
            Some(i) => find(s@, p@) == Some(i as int),
            None => find(s@, p@) is None,
        },
{
    if p.len() > s.len() {
        return None;
    }
    let last: usize = s.len() - p.len();
    let mut i: usize = 0;
    loop
        invariant
            p.len() <= s.len(),
            last == s.len() - p.len(),
            i <= last,
            find(s@, p@) == find_from(s@, p@, i as int),
        decreases last - i,
    {
        if matches_at(s, p, i) {
            return Some(i);
        }
        if i == last {
            assert(find_from(s@, p@, i + 1) is None);
            return None;
        }
        i += 1;
    }
}

/// `p` is a prefix of `s` (`str::starts_with`).
pub fn starts_with_chars(s: &[char], p: &[char]) -> (r: bool)
    ensures
        r == starts_with(s@, p@),
{
    matches_at(s, p, 0)
}

/// `p` is a prefix of `s`.
pub fn str_starts_with(s: &str, p: &str) -> (r: bool)
    ensures
        r == starts_with(s@, p@),
{
    let sc = chars_of(s);
    let pc = chars_of(p);
    starts_with_chars(sc.as_slice(), pc.as_slice())
}

/// `p` occurs in `s` (`str::contains`).
pub fn str_contains(s: &str, p: &str) -> (r: bool)
    ensures
        r == contains(s@, p@),
{
    let sc = chars_of(s);
    let pc = chars_of(p);
    let found = find_in(sc.as_slice(), pc.as_slice());
    proof {
        lemma_find_occurs(s@, p@);
    }
    found.is_some()
}

/// The characters `v[from..to]` as a `String`.
pub fn slice_string(v: &[char], from: usize, to: usize) -> (s: String)
    requires
        from <= to <= v.len(),
    ensures
        s@ == v@.subrange(from as int, to as int),
{
    let mut s = String::new();
    let mut i: usize = from;
    while i < to
        invariant
            from <= i <= to <= v.len(),
            s@ == v@.subrange(from as int, i as int),
        decreases to - i,
    {
        push_char(&mut s, v[i]);
        assert(v@.subrange(from as int, i as int).push(v[i as int]) =~= v@.subrange(
            from as int,
            i + 1,
        ));
        i += 1;
    }
    s
}

/// `s.splitn(2, sep)`: the text before the first `sep`, and the text after it if
/// there is one.
pub fn split_once(s: &str, sep: &str) -> (r: (String, Option<String>))
    ensures
        r.0@ == before_first(s@, sep@),
        match r.1 {
            Some(rest) => after_first(s@, sep@) == Some(rest@),
            None => after_first(s@, sep@) is None,
        },
{
    let sc = chars_of(s);
    let pc = chars_of(sep);
    let plen: usize = pc.len();
    let found = find_in(sc.as_slice(), pc.as_slice());
    match found {
        Some(i) => {
            proof {
                lemma_find_occurs(s@, sep@);
                assert(occurs_at(s@, sep@, i as int));
            }
            assert(sep@.len() == plen);
            assert(i + sep@.len() <= s@.len());
            assert(s@.len() == sc.len());
            let first = slice_string(sc.as_slice(), 0, i);
            let rest = slice_string(sc.as_slice(), i + plen, sc.len());
            assert(s@.subrange(0, i as int) =~= s@.take(i as int));
            assert(s@.subrange(i + sep@.len(), s@.len() as int) =~= s@.skip(i + sep@.len()));
            (first, Some(rest))
        },
        None => (String::from_str(s), None),
    }
}

/// `s.split(sep)` for a one-character separator.
pub fn split_char(s: &str, sep: char) -> (r: Vec<String>)
    ensures
        r@.map_values(|x: String| x@) == split_on(s@, sep),
{
    let sc = chars_of(s);
    let pat: Vec<char> = vec![sep];
    assert(pat@ =~= seq![sep]);
    let mut r: Vec<String> = Vec::new();
    let mut start: usize = 0;
    assert(sc@.skip(0) =~= s@);
    assert(r@.map_values(|x: String| x@) + split_on(s@, sep) =~= split_on(s@, sep));
    loop
        invariant
            start <= sc.len(),
            sc@ == s@,
            pat@ == seq![sep],
            r@.map_values(|x: String| x@) + split_on(sc@.skip(start as int), sep) == split_on(
                s@,
                sep,
            ),
        decreases sc.len() - start,
    {
        let ghost rest = sc@.skip(start as int);
        let mut i: usize = start;
        while i < sc.len() && sc[i] != sep
            invariant
                start <= i <= sc.len(),
                forall|k: int| start <= k < i ==> sc@[k] != sep,
            decreases sc.len() - i,
        {
            i += 1;
        }
        if i == sc.len() {
            proof {
                lemma_find_char_none(rest, sep);
                assert(split_on(rest, sep) == seq![rest]);
            }
            let piece = slice_string(sc.as_slice(), start, sc.len());
            assert(piece@ =~= rest);
            let ghost before = r@.map_values(|x: String| x@);
            r.push(piece);
            assert(r@.map_values(|x: String| x@) =~= before.push(rest));
            assert(before + seq![rest] =~= before.push(rest));
            return r;
        }
        proof {
            let k: int = i - start;
            assert(occurs_at(rest, seq![sep], k)) by {
                assert(rest.subrange(k, k + 1) =~= seq![sep]);
            }
            assert forall|j: int| 0 <= j < k implies !#[trigger] occurs_at(rest, seq![sep], j) by {
                if occurs_at(rest, seq![sep], j) {
                    assert(rest.subrange(j, j + 1)[0] == sep);
                }
            }
            lemma_find_occurs(rest, seq![sep]);
            let f = find(rest, seq![sep]);
            if f is None {
                assert(!contains(rest, seq![sep]));
            } else {
                let fk: int = f->0;
                assert(!(fk < k));
                assert(!(fk > k));
            }
            assert(find(rest, seq![sep]) == Some(k));
            assert(rest.take(k) =~= sc@.subrange(start as int, i as int));
            assert(rest.skip(k + 1) =~= sc@.skip(i + 1));
        }
        let piece = slice_string(sc.as_slice(), start, i);
        let ghost before = r@.map_values(|x: String| x@);
        r.push(piece);
        assert(r@.map_values(|x: String| x@) =~= before.push(piece@));
        assert(before + split_on(rest, sep) =~= before.push(piece@) + split_on(
            sc@.skip(i + 1),
            sep,
        ));
        start = i + 1;
    }
}

/// The decimal text of `n` (`n.to_string()`).
pub fn decimal_text(n: usize) -> (s: String)
    ensures
        s@ == decimal(n as nat),
    decreases n,
{
    let d: usize = n % 10;
    let c = if d == 0 {
        '0'
    } else if d == 1 {
        '1'
    } else if d == 2 {
        '2'
    } else if d == 3 {
        '3'
    } else if d == 4 {
        '4'
    } else if d == 5 {
        '5'
    } else if d == 6 {
        '6'
    } else if d == 7 {
        '7'
    } else if d == 8 {
        '8'
    } else {
        '9'
    };
    if n < 10 {
        let mut s = String::new();
        push_char(&mut s, c);
        assert(s@ =~= seq![digit_char(n as nat)]);
        s
    } else {
        let mut s = decimal_text(n / 10);
        push_char(&mut s, c);
        s
    }
}

/// `s.replace(from, to)` for a non-empty `from`.
pub fn replace_str(s: &str, from: &str, to: &str) -> (r: String)
    requires
        from@.len() > 0,
    ensures
        r@ == replace_all(s@, from@, to@),
{
    let sc = chars_of(s);
    let fc = chars_of(from);
    let mut out = String::new();
    let mut i: usize = 0;
    assert(sc@.skip(0) =~= sc@);
    while i < sc.len()
        invariant
            i <= sc.len(),
            sc@ == s@,
            fc@ == from@,
            fc@.len() > 0,
            out@ + replace_all(sc@.skip(i as int), fc@, to@) == replace_all(s@, from@, to@),
        decreases sc.len() - i,
    {
        let ghost rest = sc@.skip(i as int);
        let here = matches_at(sc.as_slice(), fc.as_slice(), i);
        proof {
            lemma_occurs_skip(sc@, fc@, i as int, 0);
        }
        if here {
            proof {
                lemma_replace_step_match(rest, fc@, to@);
                assert(rest.skip(fc@.len() as int) =~= sc@.skip(i + fc@.len()));
            }
            let ghost before = out@;
            out.append(to);
            assert(before + (to@ + replace_all(sc@.skip(i + fc@.len()), fc@, to@)) =~= out@
                + replace_all(sc@.skip(i + fc@.len()), fc@, to@));
            i = i + fc.len();
        } else {
            proof {
                lemma_replace_step_char(rest, fc@, to@);
                assert(rest.skip(1) =~= sc@.skip(i + 1));
            }
            let ghost before = out@;
            push_char(&mut out, sc[i]);
            assert(before + (seq![sc@[i as int]] + replace_all(sc@.skip(i + 1), fc@, to@))
                =~= out@ + replace_all(sc@.skip(i + 1), fc@, to@));
            i = i + 1;
        }
    }
    assert(sc@.skip(i as int) =~= Seq::<char>::empty());
    assert(replace_all(Seq::<char>::empty(), fc@, to@) == Seq::<char>::empty()) by {
        assert(find(Seq::<char>::empty(), fc@) is None);
    }
    assert(out@ + Seq::<char>::empty() =~= out@);
    out
}

/// `s.trim_matches(c)`.
pub fn trim_matches_char(s: &str, c: char) -> (r: String)
    ensures
        r@ == trim_char(s@, c),
{
    let sc = chars_of(s);
    let mut a: usize = 0;
    assert(sc@.skip(0) =~= sc@);
    while a < sc.len() && sc[a] == c
        invariant
            a <= sc.len(),
            trim_start_char(sc@, c) == trim_start_char(sc@.skip(a as int), c),
        decreases sc.len() - a,
    {
        assert(sc@.skip(a as int).skip(1) =~= sc@.skip(a + 1));
        a += 1;
    }
    let mut b: usize = sc.len();
    assert(sc@.skip(a as int) =~= sc@.subrange(a as int, b as int));
    while b > a && sc[b - 1] == c
        invariant
            a <= b <= sc.len(),
            trim_end_char(trim_start_char(sc@, c), c) == trim_end_char(
                sc@.subrange(a as int, b as int),
                c,
            ),
        decreases b - a,
    {
        assert(sc@.subrange(a as int, b as int).drop_last() =~= sc@.subrange(a as int, b - 1));
        b -= 1;
    }
    slice_string(sc.as_slice(), a, b)
}

/// The pieces joined with `sep` between each two of them (`[String]::join`).
pub fn join_strings(pieces: &Vec<String>, sep: &str) -> (r: String)
    ensures
        r@ == join(pieces@.map_values(|x: String| x@), sep@),
{
    let ghost views = pieces@.map_values(|x: String| x@);
    let mut out = String::new();
    let mut i: usize = 0;
    while i < pieces.len()
        invariant
            i <= pieces.len(),
            views == pieces@.map_values(|x: String| x@),
            out@ == join(views.take(i as int), sep@),
        decreases pieces.len() - i,
    {
        assert(views.take(i + 1).drop_last() =~= views.take(i as int));
        if i == 0 {
            out.append(pieces[i].as_str());
            assert(out@ =~= views.take(1)[0]);
        } else {
            out.append(sep);
            out.append(pieces[i].as_str());
        }
        i += 1;
    }
    assert(views.take(pieces.len() as int) =~= views);
    out
}

} // verus!
