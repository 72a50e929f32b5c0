//! Plain string operations that the scraping logic is built from:
//! joining text nodes, searching for a substring and splitting on a
//! separator, each with a specification over `Seq<char>`.
use vstd::prelude::*;
use vstd::string::*;

verus! {

/// `pat` occurs in `s` starting at index `i`.
pub open spec fn occurs_at(s: Seq<char>, pat: Seq<char>, i: int) -> bool {
    &&& 0 <= i
    &&& i + pat.len() <= s.len()
    &&& s.subrange(i, i + pat.len()) == pat
}

/// `pat` occurs somewhere in `s` (`str::contains`).
pub open spec fn contains_seq(s: Seq<char>, pat: Seq<char>) -> bool {
    exists|i: int| occurs_at(s, pat, i)
}

/// The first index at or after `from` at which `pat` occurs in `s`.
pub open spec fn find_from(s: Seq<char>, pat: Seq<char>, from: int) -> Option<int>
    decreases s.len() + 1 - from,
{
    if from < 0 || from + pat.len() > s.len() {
        None
    } else if occurs_at(s, pat, from) {
        Some(from)
    } else {
        find_from(s, pat, from + 1)
    }
}

/// The pieces of `s[start..]` between the occurrences of `sep`, found left
/// to right without overlap (`str::split` with a string pattern).
pub open spec fn split_from(s: Seq<char>, sep: Seq<char>, start: int) -> Seq<Seq<char>>
    decreases s.len() - start,
{
    if sep.len() == 0 || start < 0 || start > s.len() {
        seq![s.subrange(start, s.len() as int)]
    } else {
        match find_from(s, sep, start) {
            None => seq![s.subrange(start, s.len() as int)],
            Some(i) => {
                proof {
                    lemma_find_from(s, sep, start);
                }
                seq![s.subrange(start, i)] + split_from(s, sep, i + sep.len())
            },
        }
    }
}

/// `s` split on every occurrence of `sep`.
pub open spec fn split_on(s: Seq<char>, sep: Seq<char>) -> Seq<Seq<char>> {
    split_from(s, sep, 0)
}

/// The pieces joined with `sep` between each two of them (`join`).
pub open spec fn join_with(parts: Seq<Seq<char>>, sep: Seq<char>) -> Seq<char>
    decreases parts.len(),
{
    if parts.len() == 0 {
        Seq::empty()
    } else if parts.len() == 1 {
        parts[0]
    } else {
        parts[0] + sep + join_with(parts.drop_first(), sep)
    }
}

/// The pieces joined with nothing between them (`join("")`).
pub open spec fn concat_all(parts: Seq<Seq<char>>) -> Seq<char>
    decreases parts.len(),
{
    if parts.len() == 0 {
        Seq::empty()
    } else {
        concat_all(parts.drop_last()) + parts.last()
    }
}

/// The text of each string of a sequence.
pub open spec fn views(v: Seq<String>) -> Seq<Seq<char>> {
    v.map_values(|x: String| x@)
}

/// What `find_from` returns: the least occurrence at or after `from`.
pub proof fn lemma_find_from(s: Seq<char>, pat: Seq<char>, from: int)
    requires
        0 <= from,
    ensures
        match find_from(s, pat, from) {
            Some(i) => {
                &&& from <= i
                &&& occurs_at(s, pat, i)
                &&& forall|j: int| from <= j < i ==> !occurs_at(s, pat, j)
            },
            None => forall|j: int| from <= j ==> !occurs_at(s, pat, j),
        },
    decreases s.len() + 1 - from,
{
    if from + pat.len() > s.len() {
    } else if occurs_at(s, pat, from) {
    } else {
        lemma_find_from(s, pat, from + 1);
    }
}

/// The characters of a string slice, one per element.
pub fn to_chars(s: &str) -> (v: Vec<char>)
    ensures
        v@ == s@,
{
    let n = s.unicode_len();
    let mut v: Vec<char> = Vec::new();
    let mut i: usize = 0;
    while i < n
        invariant
            n == s@.len(),
            i <= n,
            v@ == s@.subrange(0, i as int),
        decreases n - i,
    {
        v.push(s.get_char(i));
        i = i + 1;
    }
    v
}

/// Whether `pat` occurs in `s` at index `i`.
fn occurs_at_exec(s: &Vec<char>, pat: &Vec<char>, i: usize) -> (b: bool)
    ensures
        b == occurs_at(s@, pat@, i as int),
{
    if i > s.len() || pat.len() > s.len() - i {
        return false;
    }
    let mut k: usize = 0;
    while k < pat.len()
        invariant
            i + pat@.len() <= s@.len(),
            s@.len() <= usize::MAX,
            k <= pat@.len(),
            forall|j: int| 0 <= j < k ==> s@[i + j] == pat@[j],
        decreases pat@.len() - k,
    {
        if s[i + k] != pat[k] {
            assert(s@.subrange(i as int, i + pat@.len())[k as int] != pat@[k as int]);
            return false;
        }
        k = k + 1;
    }
    assert(s@.subrange(i as int, i + pat@.len()) =~= pat@);
    true
}

/// The first index at or after `from` at which `pat` occurs in `s`.
pub fn find_in(s: &Vec<char>, pat: &Vec<char>, from: usize) -> (r: Option<usize>)
    ensures
        match find_from(s@, pat@, from as int) {
            Some(i) => r == Some(i as usize),
            None => r is None,
        },
        r matches Some(i) ==> i + pat@.len() <= s@.len(),
{
    let mut i = from;
    proof {
        lemma_find_from(s@, pat@, from as int);
    }
    while i <= s.len() && pat.len() <= s.len() - i
        invariant
            from <= i,
            find_from(s@, pat@, from as int) == find_from(s@, pat@, i as int),
        decreases s@.len() + 1 - i,
    {
        if occurs_at_exec(s, pat, i) {
            return Some(i);
        }
        if i == s.len() {
            assert(find_from(s@, pat@, i + 1) is None);
            return None;
        }
        i = i + 1;
    }
    None
}

/// Whether `pat` occurs in `s` (`str::contains`).
pub fn contains(s: &str, pat: &str) -> (b: bool)
    ensures
        b == contains_seq(s@, pat@),
{
    let sv = to_chars(s);
    let pv = to_chars(pat);
    let r = find_in(&sv, &pv, 0);
    proof {
        lemma_find_from(s@, pat@, 0);
    }
    r.is_some()
}

/// Splitting always yields at least one piece.
pub proof fn lemma_split_from_nonempty(s: Seq<char>, sep: Seq<char>, start: int)
    ensures
        split_from(s, sep, start).len() >= 1,
{
}

/// Joining the pieces of `s[start..]` with the separator gives `s[start..]` back.
proof fn lemma_join_split_from(s: Seq<char>, sep: Seq<char>, start: int)
    requires
        sep.len() > 0,
        0 <= start <= s.len(),
    ensures
        join_with(split_from(s, sep, start), sep) == s.subrange(start, s.len() as int),
    decreases s.len() - start,
{
    lemma_find_from(s, sep, start);
    match find_from(s, sep, start) {
        None => {},
        Some(i) => {
            let parts = split_from(s, sep, start);
            let rest = split_from(s, sep, i + sep.len());
            lemma_split_from_nonempty(s, sep, i + sep.len());
            lemma_join_split_from(s, sep, i + sep.len());
            assert(parts.drop_first() =~= rest);
            assert(s.subrange(start, s.len() as int) =~= s.subrange(start, i) + sep + s.subrange(
                i + sep.len(),
                s.len() as int,
            ));
        },
    }
}

/// Law: joining the pieces that splitting `s` on `sep` gives, with `sep`
/// between them, gives `s` back.
pub proof fn law_join_split(s: Seq<char>, sep: Seq<char>)
    requires
        sep.len() > 0,
    ensures
        join_with(split_on(s, sep), sep) == s,
{
    lemma_join_split_from(s, sep, 0);
    assert(s.subrange(0, s.len() as int) =~= s);
}

/// No piece of `s[start..]` holds the separator.
proof fn lemma_split_from_pieces(s: Seq<char>, sep: Seq<char>, start: int)
    requires
        sep.len() > 0,
        0 <= start <= s.len(),
    ensures
        forall|k: int|
            0 <= k < split_from(s, sep, start).len() ==> !contains_seq(
                #[trigger] split_from(s, sep, start)[k],
                sep,
            ),
    decreases s.len() - start,
{
    lemma_find_from(s, sep, start);
    let parts = split_from(s, sep, start);
    match find_from(s, sep, start) {
        None => {
            let piece = s.subrange(start, s.len() as int);
            assert forall|j: int| !occurs_at(piece, sep, j) by {
                if occurs_at(piece, sep, j) {
                    assert(piece.subrange(j, j + sep.len()) =~= s.subrange(
                        start + j,
                        start + j + sep.len(),
                    ));
                    assert(occurs_at(s, sep, start + j));
                }
            }
            assert(parts[0] == piece);
        },
        Some(i) => {
            let piece = s.subrange(start, i);
            assert forall|j: int| !occurs_at(piece, sep, j) by {
                if occurs_at(piece, sep, j) {
                    assert(piece.subrange(j, j + sep.len()) =~= s.subrange(
                        start + j,
                        start + j + sep.len(),
                    ));
                    assert(occurs_at(s, sep, start + j));
                }
            }
            let rest = split_from(s, sep, i + sep.len());
            lemma_split_from_pieces(s, sep, i + sep.len());
            assert forall|k: int| 0 <= k < parts.len() implies !contains_seq(
                #[trigger] parts[k],
                sep,
            ) by {
                if k == 0 {
                    assert(parts[0] == piece);
                } else {
                    assert(parts[k] == rest[k - 1]);
                }
            }
        },
    }
}

/// Law: no piece that splitting `s` on `sep` gives holds `sep`.
pub proof fn law_split_pieces_free_of_separator(s: Seq<char>, sep: Seq<char>)
    requires
        sep.len() > 0,
    ensures
        forall|k: int|
            0 <= k < split_on(s, sep).len() ==> !contains_seq(#[trigger] split_on(s, sep)[k], sep),
{
    lemma_split_from_pieces(s, sep, 0);
}

/// `s` split on every occurrence of `sep` (`str::split`).
pub fn split_by(s: &str, sep: &str) -> (parts: Vec<String>)
    requires
        sep@.len() > 0,
    ensures
        views(parts@) == split_on(s@, sep@),
{
    let sv = to_chars(s);
    let pv = to_chars(sep);
    let n = sv.len();
    let mut parts: Vec<String> = Vec::new();
    let mut start: usize = 0;
    loop
        invariant
            sv@ == s@,
            pv@ == sep@,
            n == s@.len(),
            start <= n,
            sep@.len() > 0,
            views(parts@) + split_from(s@, sep@, start as int) == split_on(s@, sep@),
        decreases n - start,
    {
        proof {
            lemma_find_from(s@, sep@, start as int);
        }
        match find_in(&sv, &pv, start) {
            None => {
                let piece = String::from_str(s.substring_char(start, n));
                let ghost before = views(parts@);
                parts.push(piece);
                assert(views(parts@) =~= before.push(piece@));
                assert(split_from(s@, sep@, start as int) == seq![
                    s@.subrange(start as int, n as int),
                ]);
                assert(views(parts@) =~= before + split_from(s@, sep@, start as int));
                return parts;
            },
            Some(i) => {
                let piece = String::from_str(s.substring_char(start, i));
                let ghost before = views(parts@);
                parts.push(piece);
                assert(views(parts@) =~= before.push(piece@));
                let ghost rest = split_from(s@, sep@, i + sep@.len());
                assert(split_from(s@, sep@, start as int) == seq![
                    s@.subrange(start as int, i as int),
                ] + rest);
                assert(views(parts@) + rest =~= before + split_from(s@, sep@, start as int));
                start = i + pv.len();
            },
        }
    }
}

/// The strings joined with nothing between them (`join("")`).
pub fn concat_texts(parts: &Vec<String>) -> (r: String)
    ensures
        r@ == concat_all(views(parts@)),
{
    let mut r = String::new();
    let mut i: usize = 0;
    while i < parts.len()
        invariant
            i <= parts@.len(),
            r@ == concat_all(views(parts@).take(i as int)),
        decreases parts@.len() - i,
    {
        let ghost before = r@;
        r.append(parts[i].as_str());
        assert(views(parts@).take(i + 1).drop_last() =~= views(parts@).take(i as int));
        i = i + 1;
    }
    assert(views(parts@).take(parts@.len() as int) =~= views(parts@));
    r
}

/// Whether two strings hold the same text (`==` on `str`).
pub fn same_text(a: &str, b: &str) -> (same: bool)
    ensures
        same == (a@ == b@),
{
    let av = to_chars(a);
    let bv = to_chars(b);
    if av.len() != bv.len() {
        return false;
    }
    let mut i: usize = 0;
    while i < av.len()
        invariant
            av@ == a@,
            bv@ == b@,
            av@.len() == bv@.len(),
            i <= av@.len(),
            forall|j: int| 0 <= j < i ==> av@[j] == bv@[j],
        decreases av@.len() - i,
    {
        if av[i] != bv[i] {
            return false;
        }
        i = i + 1;
    }
    assert(av@ =~= bv@);
    true
}

/// A decimal digit of ASCII.
pub open spec fn is_digit(c: char) -> bool {
    '0' <= c && c <= '9'
}

/// Every character lies below U+0660, the first decimal digit outside
/// ASCII; among such characters the decimal digits (Unicode `Nd`) are
/// exactly `'0'..='9'`.
pub open spec fn narrow_digits(s: Seq<char>) -> bool {
    forall|i: int| 0 <= i < s.len() ==> s[i] < '\u{660}'
}

/// `s` holds a decimal digit.
pub open spec fn has_digit(s: Seq<char>) -> bool {
    exists|j: int| 0 <= j < s.len() && is_digit(#[trigger] s[j])
}

/// `s[d..e]` is the first run of digits of `s`, taken whole: no digit
/// before `d`, only digits in `d..e`, and no digit at `e`.
pub open spec fn first_run_at(s: Seq<char>, d: int, e: int) -> bool {
    &&& 0 <= d < e <= s.len()
    &&& forall|j: int| 0 <= j < d ==> !is_digit(#[trigger] s[j])
    &&& forall|j: int| d <= j < e ==> is_digit(#[trigger] s[j])
    &&& (e == s.len() || !is_digit(s[e]))
}

/// `run` is the first run of digits of `s`, taken whole.
pub open spec fn is_first_digit_run(s: Seq<char>, run: Seq<char>) -> bool {
    exists|d: int, e: int| #[trigger] first_run_at(s, d, e) && run == s.subrange(d, e)
}

/// `num` is the first number of `s`: its first run of digits, taken whole,
/// with a `.` and one digit after it where they follow.
pub open spec fn is_first_number(s: Seq<char>, num: Seq<char>) -> bool {
    exists|d: int, e: int|
        #[trigger] first_run_at(s, d, e) && num == if e + 1 < s.len() && s[e] == '.' && is_digit(
            s[e + 1],
        ) {
            s.subrange(d, e + 2)
        } else {
            s.subrange(d, e)
        }
}

/// The index of the first digit of `s` at or after `i`, or `s.len()`.
pub open spec fn first_digit_from(s: Seq<char>, i: int) -> int
    decreases s.len() - i,
{
    if i < 0 || i >= s.len() {
        s.len() as int
    } else if is_digit(s[i]) {
        i
    } else {
        first_digit_from(s, i + 1)
    }
}

/// The end of the run of digits of `s` that starts at `i`.
pub open spec fn digits_end(s: Seq<char>, i: int) -> int
    decreases s.len() - i,
{
    if i < 0 || i >= s.len() || !is_digit(s[i]) {
        i
    } else {
        digits_end(s, i + 1)
    }
}

/// The first run of digits of `s`, taken whole.
pub open spec fn first_digit_run(s: Seq<char>) -> Option<Seq<char>> {
    let d = first_digit_from(s, 0);
    if d >= s.len() {
        None
    } else {
        Some(s.subrange(d, digits_end(s, d)))
    }
}

/// The first number of `s`: its first run of digits, taken whole, with a
/// `.` and one digit after it where they follow.
pub open spec fn first_number(s: Seq<char>) -> Option<Seq<char>> {
    let d = first_digit_from(s, 0);
    if d >= s.len() {
        None
    } else {
        let e = digits_end(s, d);
        if e + 1 < s.len() && s[e] == '.' && is_digit(s[e + 1]) {
            Some(s.subrange(d, e + 2))
        } else {
            Some(s.subrange(d, e))
        }
    }
}

proof fn lemma_first_digit_from(s: Seq<char>, i: int)
    requires
        0 <= i,
    ensures
        i <= first_digit_from(s, i) <= s.len() || (i > s.len() && first_digit_from(s, i) == s.len()),
        forall|j: int| i <= j < first_digit_from(s, i) ==> !is_digit(#[trigger] s[j]),
        first_digit_from(s, i) < s.len() ==> is_digit(s[first_digit_from(s, i)]),
    decreases s.len() - i,
{
    if i < s.len() && !is_digit(s[i]) {
        lemma_first_digit_from(s, i + 1);
    }
}

proof fn lemma_digits_end(s: Seq<char>, i: int)
    requires
        0 <= i <= s.len(),
    ensures
        i <= digits_end(s, i) <= s.len(),
        forall|j: int| i <= j < digits_end(s, i) ==> is_digit(#[trigger] s[j]),
        digits_end(s, i) == s.len() || !is_digit(s[digits_end(s, i)]),
    decreases s.len() - i,
{
    if i < s.len() && is_digit(s[i]) {
        lemma_digits_end(s, i + 1);
    }
}

/// Where `s` holds a digit, the first one and the end of its run are the
/// bounds of the first run of digits.
proof fn lemma_first_run_bounds(s: Seq<char>)
    ensures
        has_digit(s) <==> first_digit_from(s, 0) < s.len(),
        first_digit_from(s, 0) < s.len() ==> first_run_at(
            s,
            first_digit_from(s, 0),
            digits_end(s, first_digit_from(s, 0)),
        ),
{
    lemma_first_digit_from(s, 0);
    let d = first_digit_from(s, 0);
    if d < s.len() {
        lemma_digits_end(s, d);
        lemma_digits_end(s, d + 1);
        assert(is_digit(s[d]));
    }
}

/// Law: the bounds of the first run of digits are unique.
pub proof fn law_first_run_unique(s: Seq<char>, d1: int, e1: int, d2: int, e2: int)
    requires
        first_run_at(s, d1, e1),
        first_run_at(s, d2, e2),
    ensures
        d1 == d2 && e1 == e2,
{
    if d1 < d2 {
        assert(is_digit(s[d1]));
    } else if d2 < d1 {
        assert(is_digit(s[d2]));
    }
    if e1 < e2 {
        assert(is_digit(s[e1]));
    } else if e2 < e1 {
        assert(is_digit(s[e2]));
    }
}

/// Law: `first_digit_run` finds a run exactly where `s` holds a digit, and
/// the run is the first run of digits, taken whole.
pub proof fn law_first_digit_run(s: Seq<char>)
    ensures
        first_digit_run(s) is Some <==> has_digit(s),
        first_digit_run(s) matches Some(run) ==> is_first_digit_run(s, run),
{
    lemma_first_run_bounds(s);
    let d = first_digit_from(s, 0);
    if d < s.len() {
        let e = digits_end(s, d);
        assert(first_run_at(s, d, e));
    }
}

/// Law: `first_number` finds a number exactly where `s` holds a digit, and
/// the number is the first run of digits, taken whole, with a `.` and one
/// digit after it where they follow.
pub proof fn law_first_number(s: Seq<char>)
    ensures
        first_number(s) is Some <==> has_digit(s),
        first_number(s) matches Some(num) ==> is_first_number(s, num),
{
    lemma_first_run_bounds(s);
    let d = first_digit_from(s, 0);
    if d < s.len() {
        let e = digits_end(s, d);
        assert(first_run_at(s, d, e));
    }
}

} // verus!
