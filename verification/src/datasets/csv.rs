//! Reading the bundled CSV datasets.
//!
//! A CSV text is read line by line (lines end at `'\n'`; a `'\r'` before it
//! is whitespace and trimmed away). Each line is trimmed; empty lines are
//! skipped. The rest is split at `','` and each cell trimmed. The first
//! non-empty line is a header, and skipped, when its first cell is not a
//! decimal number literal. Of every other line the number cells are kept,
//! in order, and the others (such as a species name) dropped; a line
//! without number cells yields no row.
//!
//! "Number literal" is the grammar that the standard library documents
//! for parsing its 32-bit floating-point type from a string, compared
//! ASCII-case-insensitively:
//!
//! ```text
//! Float  ::= Sign? ( 'inf' | 'infinity' | 'nan' | Number )
//! Number ::= ( Digit+ | Digit+ '.' Digit* | Digit* '.' Digit+ ) Exp?
//! Exp    ::= 'e' Sign? Digit+
//! Sign   ::= [+-]
//! Digit  ::= [0-9]
//! ```
//!
//! so every cell kept here parses as a number.

use vstd::prelude::*;

verus! {

broadcast use vstd::string::group_string_axioms;

/// The characters of `s`, in order.
fn chars_of(s: &str) -> (r: Vec<char>)
    ensures
        r@ == s@,
{
    let mut out: Vec<char> = Vec::new();
    for c in it: s.chars()
        invariant
            out@ == it.seq().take(it.index() as int),
    {
        out.push(c);
    }
    out
}

/// Unicode `White_Space`, the characters that trimming removes.
pub open spec fn is_space(c: char) -> bool {
    let u = c as u32;
    ||| 0x9 <= u <= 0xd
    ||| u == 0x20
    ||| u == 0x85
    ||| u == 0xa0
    ||| u == 0x1680
    ||| 0x2000 <= u <= 0x200a
    ||| u == 0x2028
    ||| u == 0x2029
    ||| u == 0x202f
    ||| u == 0x205f
    ||| u == 0x3000
}

fn space_char(c: char) -> (r: bool)
    ensures
        r == is_space(c),
{
    let u = c as u32;
    (0x9 <= u && u <= 0xd) || u == 0x20 || u == 0x85 || u == 0xa0 || u == 0x1680 || (0x2000
        <= u && u <= 0x200a) || u == 0x2028 || u == 0x2029 || u == 0x202f || u == 0x205f || u
        == 0x3000
}

/// `s` without its leading whitespace.
pub open spec fn trim_start(s: Seq<char>) -> Seq<char>
    decreases s.len(),
{
    if s.len() > 0 && is_space(s[0]) {
        trim_start(s.drop_first())
    } else {
        s
    }
}

/// `s` without its trailing whitespace.
pub open spec fn trim_end(s: Seq<char>) -> Seq<char>
    decreases s.len(),
{
    if s.len() > 0 && is_space(s.last()) {
        trim_end(s.drop_last())
    } else {
        s
    }
}

/// `s` without leading or trailing whitespace.
pub open spec fn trim(s: Seq<char>) -> Seq<char> {
    trim_end(trim_start(s))
}

/// Trim the range `a..b` of `v`: the returned range is its trimmed part.
fn trim_range(v: &Vec<char>, a: usize, b: usize) -> (r: (usize, usize))
    requires
        a <= b <= v.len(),
    ensures
        a <= r.0 <= r.1 <= b,
        v@.subrange(r.0 as int, r.1 as int) == trim(v@.subrange(a as int, b as int)),
{
    let mut s = a;
    while s < b && space_char(v[s])
        invariant
            a <= s <= b <= v.len(),
            trim_start(v@.subrange(a as int, b as int)) == trim_start(
                v@.subrange(s as int, b as int),
            ),
        decreases b - s,
    {
        assert(v@.subrange(s as int, b as int).drop_first() =~= v@.subrange(s + 1, b as int));
        s += 1;
    }
    let mut e = b;
    while e > s && space_char(v[e - 1])
        invariant
            a <= s <= e <= b <= v.len(),
            trim_end(v@.subrange(s as int, b as int)) == trim_end(v@.subrange(s as int, e as int)),
        decreases e - s,
    {
        assert(v@.subrange(s as int, e as int).drop_last() =~= v@.subrange(s as int, e - 1));
        e -= 1;
    }
    (s, e)
}

/// The pieces of `s` between the separators (as the standard library's
/// `split` produces them: `n` separators give `n + 1` pieces).
pub open spec fn split_on(s: Seq<char>, sep: char) -> Seq<Seq<char>>
    decreases s.len(),
{
    if s.len() == 0 {
        seq![Seq::empty()]
    } else {
        let p = split_on(s.drop_last(), sep);
        if s.last() == sep {
            p.push(Seq::empty())
        } else {
            p.update(p.len() - 1, p.last().push(s.last()))
        }
    }
}

/// Splitting always yields at least one piece.
pub proof fn split_on_nonempty(s: Seq<char>, sep: char)
    ensures
        split_on(s, sep).len() >= 1,
    decreases s.len(),
{
    if s.len() > 0 {
        split_on_nonempty(s.drop_last(), sep);
    }
}

/// The pieces of `v[a..b]` between `sep`s, as ranges of `v`.
fn split_range(v: &Vec<char>, a: usize, b: usize, sep: char) -> (r: Vec<(usize, usize)>)
    requires
        a <= b <= v.len(),
    ensures
        r.len() == split_on(v@.subrange(a as int, b as int), sep).len(),
        forall|t: int|
            0 <= t < r.len() ==> {
                &&& a <= (#[trigger] r[t]).0 <= r[t].1 <= b
                &&& v@.subrange(r[t].0 as int, r[t].1 as int) == split_on(
                    v@.subrange(a as int, b as int),
                    sep,
                )[t]
            },
{
    let mut done: Vec<(usize, usize)> = Vec::new();
    let mut start = a;
    let mut i = a;
    proof {
        assert(v@.subrange(a as int, a as int) =~= Seq::<char>::empty());
    }
    while i < b
        invariant
            a <= start <= i <= b <= v.len(),
            done.len() + 1 == split_on(v@.subrange(a as int, i as int), sep).len(),
            forall|t: int|
                0 <= t < done.len() ==> {
                    &&& a <= (#[trigger] done[t]).0 <= done[t].1 <= i
                    &&& v@.subrange(done[t].0 as int, done[t].1 as int) == split_on(
                        v@.subrange(a as int, i as int),
                        sep,
                    )[t]
                },
            v@.subrange(start as int, i as int) == split_on(v@.subrange(a as int, i as int), sep)[
                done.len() as int],
        decreases b - i,
    {
        let ghost old_parts = split_on(v@.subrange(a as int, i as int), sep);
        assert(v@.subrange(a as int, i + 1).drop_last() =~= v@.subrange(a as int, i as int));
        if v[i] == sep {
            done.push((start, i));
            start = i + 1;
            assert(v@.subrange(start as int, i + 1) =~= Seq::<char>::empty());
        } else {
            assert(v@.subrange(start as int, i + 1) =~= v@.subrange(start as int, i as int).push(
                v@[i as int],
            ));
        }
        i += 1;
    }
    done.push((start, b));
    done
}

/// An ASCII decimal digit.
pub open spec fn is_digit(c: char) -> bool {
    '0' <= c <= '9'
}

/// ASCII lower case of `c` (other characters unchanged).
pub open spec fn ascii_lower(c: char) -> char {
    if 'A' <= c <= 'Z' {
        ((c as u32) + 32) as char
    } else {
        c
    }
}

/// `s` equals the lower-case word `w`, ignoring ASCII case.
pub open spec fn eq_ignore_case(s: Seq<char>, w: Seq<char>) -> bool {
    s.len() == w.len() && forall|i: int| 0 <= i < s.len() ==> ascii_lower(#[trigger] s[i]) == w[i]
}

/// `s` without one leading sign.
pub open spec fn unsigned_part(s: Seq<char>) -> Seq<char> {
    if s.len() > 0 && (s[0] == '+' || s[0] == '-') {
        s.drop_first()
    } else {
        s
    }
}

/// The mantissa: digits and at most one `'.'`, with at least one digit.
pub open spec fn is_mantissa(m: Seq<char>) -> bool {
    &&& forall|i: int| 0 <= i < m.len() ==> is_digit(#[trigger] m[i]) || m[i] == '.'
    &&& forall|i: int, j: int| 0 <= i < j < m.len() && #[trigger] m[i] == '.' ==> #[trigger] m[j] != '.'
    &&& exists|i: int| 0 <= i < m.len() && is_digit(#[trigger] m[i])
}

/// The exponent after the marker: an optional sign and at least one digit.
pub open spec fn is_exponent(x: Seq<char>) -> bool {
    let y = unsigned_part(x);
    y.len() > 0 && forall|i: int| 0 <= i < y.len() ==> is_digit(#[trigger] y[i])
}

/// An exponent marker.
pub open spec fn is_exp_marker(c: char) -> bool {
    c == 'e' || c == 'E'
}

/// The first exponent marker of `u` at or after `i`, or `u.len()`.
pub open spec fn marker_from(u: Seq<char>, i: int) -> int
    decreases u.len() - i,
{
    if i < 0 || i >= u.len() {
        u.len() as int
    } else if is_exp_marker(u[i]) {
        i
    } else {
        marker_from(u, i + 1)
    }
}

/// A finite decimal number: mantissa up to the first exponent marker, then
/// an optional exponent.
pub open spec fn is_number(u: Seq<char>) -> bool {
    let e = marker_from(u, 0);
    is_mantissa(u.take(e)) && (e == u.len() || is_exponent(u.skip(e + 1)))
}

/// A number literal per the grammar in the module documentation.
pub open spec fn is_number_text(s: Seq<char>) -> bool {
    let u = unsigned_part(s);
    ||| eq_ignore_case(u, seq!['i', 'n', 'f'])
    ||| eq_ignore_case(u, seq!['i', 'n', 'f', 'i', 'n', 'i', 't', 'y'])
    ||| eq_ignore_case(u, seq!['n', 'a', 'n'])
    ||| is_number(u)
}

fn digit_char(c: char) -> (r: bool)
    ensures
        r == is_digit(c),
{
    '0' <= c && c <= '9'
}

/// Whether `v[a..b]` equals the lower-case word `w`, ignoring ASCII case.
fn eq_ignore_case_at(v: &Vec<char>, a: usize, b: usize, w: &Vec<char>) -> (r: bool)
    requires
        a <= b <= v.len(),
        forall|i: int| 0 <= i < w.len() ==> 'a' <= #[trigger] w[i] <= 'z',
    ensures
        r == eq_ignore_case(v@.subrange(a as int, b as int), w@),
{
    let ghost s = v@.subrange(a as int, b as int);
    if b - a != w.len() {
        return false;
    }
    let mut i: usize = 0;
    while i < w.len()
        invariant
            a <= b <= v.len(),
            b - a == w.len(),
            s == v@.subrange(a as int, b as int),
            forall|i: int| 0 <= i < w.len() ==> 'a' <= #[trigger] w[i] <= 'z',
            i <= w.len(),
            forall|j: int| 0 <= j < i ==> ascii_lower(#[trigger] s[j]) == w@[j],
        decreases w.len() - i,
    {
        let c = v[a + i];
        let cu = c as u32;
        let lu: u32 = if 0x41 <= cu && cu <= 0x5a {
            cu + 32
        } else {
            cu
        };
        assert(s[i as int] == c);
        if lu != w[i] as u32 {
            assert(ascii_lower(s[i as int]) != w@[i as int]);
            return false;
        }
        i += 1;
    }
    true
}

/// Whether `v[a..b]` is a mantissa.
fn mantissa_at(v: &Vec<char>, a: usize, b: usize) -> (r: bool)
    requires
        a <= b <= v.len(),
    ensures
        r == is_mantissa(v@.subrange(a as int, b as int)),
{
    let ghost m = v@.subrange(a as int, b as int);
    let mut i = a;
    let mut dot_seen = false;
    let mut digit_seen = false;
    while i < b
        invariant
            a <= i <= b <= v.len(),
            m == v@.subrange(a as int, b as int),
            forall|j: int| 0 <= j < i - a ==> is_digit(#[trigger] m[j]) || m[j] == '.',
            forall|j: int, l: int|
                0 <= j < l < i - a && #[trigger] m[j] == '.' ==> #[trigger] m[l] != '.',
            dot_seen <==> exists|j: int| 0 <= j < i - a && #[trigger] m[j] == '.',
            digit_seen <==> exists|j: int| 0 <= j < i - a && is_digit(#[trigger] m[j]),
        decreases b - i,
    {
        let c = v[i];
        assert(m[i - a] == c);
        if digit_char(c) {
            digit_seen = true;
        } else if c == '.' {
            if dot_seen {
                let ghost j = choose|j: int| 0 <= j < i - a && #[trigger] m[j] == '.';
                assert(m[j] == '.' && m[i - a] == '.');
                return false;
            }
            dot_seen = true;
        } else {
            assert(!(is_digit(m[i - a]) || m[i - a] == '.'));
            return false;
        }
        i += 1;
    }
    digit_seen
}

/// Whether `v[a..b]` is an exponent (after its marker).
fn exponent_at(v: &Vec<char>, a: usize, b: usize) -> (r: bool)
    requires
        a <= b <= v.len(),
    ensures
        r == is_exponent(v@.subrange(a as int, b as int)),
{
    let ghost x = v@.subrange(a as int, b as int);
    let mut s = a;
    if a < b && (v[a] == '+' || v[a] == '-') {
        s = a + 1;
    }
    assert(unsigned_part(x) =~= v@.subrange(s as int, b as int));
    if s == b {
        assert(unsigned_part(x).len() == 0);
        return false;
    }
    let ghost y = v@.subrange(s as int, b as int);
    let mut i = s;
    while i < b
        invariant
            s <= i <= b <= v.len(),
            y == v@.subrange(s as int, b as int),
            x == v@.subrange(a as int, b as int),
            unsigned_part(x) == y,
            forall|j: int| 0 <= j < i - s ==> is_digit(#[trigger] y[j]),
        decreases b - i,
    {
        assert(y[i - s] == v@[i as int]);
        if !digit_char(v[i]) {
            assert(!is_digit(y[i - s]));
            return false;
        }
        i += 1;
    }
    true
}

/// Whether `v[a..b]` is a number literal.
fn number_text_at(v: &Vec<char>, a: usize, b: usize) -> (r: bool)
    requires
        a <= b <= v.len(),
    ensures
        r == is_number_text(v@.subrange(a as int, b as int)),
{
    let ghost s = v@.subrange(a as int, b as int);
    let mut a2 = a;
    if a < b && (v[a] == '+' || v[a] == '-') {
        a2 = a + 1;
    }
    let ghost u = v@.subrange(a2 as int, b as int);
    assert(unsigned_part(s) =~= u);
    let inf = vec!['i', 'n', 'f'];
    let infinity = vec!['i', 'n', 'f', 'i', 'n', 'i', 't', 'y'];
    let nan = vec!['n', 'a', 'n'];
    assert(inf@ =~= seq!['i', 'n', 'f']);
    assert(infinity@ =~= seq!['i', 'n', 'f', 'i', 'n', 'i', 't', 'y']);
    assert(nan@ =~= seq!['n', 'a', 'n']);
    if eq_ignore_case_at(v, a2, b, &inf) || eq_ignore_case_at(v, a2, b, &infinity)
        || eq_ignore_case_at(v, a2, b, &nan) {
        return true;
    }
    let mut e = a2;
    while e < b && !(v[e] == 'e' || v[e] == 'E')
        invariant
            a2 <= e <= b <= v.len(),
            u == v@.subrange(a2 as int, b as int),
            marker_from(u, 0) == marker_from(u, e - a2),
        decreases b - e,
    {
        assert(u[e - a2] == v@[e as int]);
        e += 1;
    }
    if e < b {
        assert(u[e - a2] == v@[e as int]);
    }
    assert(marker_from(u, 0) == e - a2);
    assert(u.take(e - a2) =~= v@.subrange(a2 as int, e as int));
    if !mantissa_at(v, a2, e) {
        return false;
    }
    if e == b {
        return true;
    }
    assert(u.skip(e - a2 + 1) =~= v@.subrange(e + 1, b as int));
    exponent_at(v, e + 1, b)
}

/// The trimmed cells of a line.
pub open spec fn cells_of(t: Seq<char>) -> Seq<Seq<char>> {
    split_on(t, ',').map_values(|c: Seq<char>| trim(c))
}

/// The number cells among `cells`, in order.
pub open spec fn number_cells(cells: Seq<Seq<char>>) -> Seq<Seq<char>>
    decreases cells.len(),
{
    if cells.len() == 0 {
        Seq::empty()
    } else {
        let r = number_cells(cells.drop_last());
        if is_number_text(cells.last()) {
            r.push(cells.last())
        } else {
            r
        }
    }
}

/// The rows read from `lines`; `seen_first` tells whether a non-empty line
/// (the possible header) came before them.
pub open spec fn rows_from(lines: Seq<Seq<char>>, seen_first: bool) -> Seq<Seq<Seq<char>>>
    decreases lines.len(),
{
    if lines.len() == 0 {
        Seq::empty()
    } else {
        let t = trim(lines[0]);
        let rest = lines.drop_first();
        if t.len() == 0 {
            rows_from(rest, seen_first)
        } else if !seen_first && !is_number_text(cells_of(t)[0]) {
            rows_from(rest, true)
        } else {
            let row = number_cells(cells_of(t));
            if row.len() > 0 {
                seq![row] + rows_from(rest, true)
            } else {
                rows_from(rest, true)
            }
        }
    }
}

/// The rows of number cells of a CSV text, as the module documentation
/// describes them.
pub open spec fn csv_rows(text: Seq<char>) -> Seq<Seq<Seq<char>>> {
    rows_from(split_on(text, '\n'), false)
}

proof fn number_cells_are_numbers(cells: Seq<Seq<char>>)
    ensures
        forall|j: int|
            0 <= j < number_cells(cells).len() ==> is_number_text(#[trigger] number_cells(cells)[j]),
    decreases cells.len(),
{
    if cells.len() > 0 {
        let init = cells.drop_last();
        number_cells_are_numbers(init);
        let r = number_cells(init);
        assert forall|j: int| 0 <= j < number_cells(cells).len() implies is_number_text(
            #[trigger] number_cells(cells)[j],
        ) by {
            if j < r.len() {
                assert(number_cells(cells)[j] == r[j]);
            }
        }
    }
}

proof fn rows_from_are_numbers(lines: Seq<Seq<char>>, seen_first: bool)
    ensures
        forall|i: int|
            0 <= i < rows_from(lines, seen_first).len() ==> {
                let row = #[trigger] rows_from(lines, seen_first)[i];
                &&& row.len() > 0
                &&& forall|j: int| 0 <= j < row.len() ==> is_number_text(#[trigger] row[j])
            },
    decreases lines.len(),
{
    if lines.len() > 0 {
        let rest = lines.drop_first();
        rows_from_are_numbers(rest, seen_first);
        rows_from_are_numbers(rest, true);
        let t = trim(lines[0]);
        let all = rows_from(lines, seen_first);
        let tail = rows_from(rest, true);
        if t.len() == 0 {
            assert(all == rows_from(rest, seen_first));
        } else {
            cells_nonempty(t);
            if !seen_first && !is_number_text(cells_of(t)[0]) {
                assert(all == tail);
            } else {
                let row = number_cells(cells_of(t));
                number_cells_are_numbers(cells_of(t));
                if row.len() > 0 {
                    assert(all == seq![row] + tail);
                    assert forall|i: int| 0 <= i < all.len() implies {
                        let r = #[trigger] all[i];
                        &&& r.len() > 0
                        &&& forall|j: int| 0 <= j < r.len() ==> is_number_text(#[trigger] r[j])
                    } by {
                        if i == 0 {
                            assert(all[0] == row);
                        } else {
                            assert(all[i] == tail[i - 1]);
                        }
                    }
                } else {
                    assert(all == tail);
                }
            }
        }
    }
}

proof fn cells_nonempty(t: Seq<char>)
    ensures
        cells_of(t).len() >= 1,
{
    split_on_nonempty(t, ',');
}

/// What the reader promises of every CSV: no row is empty, and every cell
/// kept is a number literal (so it parses as a number); label columns and
/// headers never reach the rows.
pub proof fn csv_rows_hold_numbers(text: Seq<char>)
    ensures
        forall|i: int|
            0 <= i < csv_rows(text).len() ==> {
                let row = #[trigger] csv_rows(text)[i];
                &&& row.len() > 0
                &&& forall|j: int| 0 <= j < row.len() ==> is_number_text(#[trigger] row[j])
            },
{
    rows_from_are_numbers(split_on(text, '\n'), false);
}

/// No exponent marker in `u[i..]`: the search runs to the end.
proof fn marker_from_none(u: Seq<char>, i: int)
    requires
        0 <= i <= u.len(),
        forall|j: int| i <= j < u.len() ==> !is_exp_marker(#[trigger] u[j]),
    ensures
        marker_from(u, i) == u.len(),
    decreases u.len() - i,
{
    if i < u.len() {
        marker_from_none(u, i + 1);
    }
}

/// The first exponent marker at or after `i` is at `e`.
proof fn marker_from_at(u: Seq<char>, i: int, e: int)
    requires
        0 <= i <= e < u.len(),
        is_exp_marker(u[e]),
        forall|j: int| i <= j < e ==> !is_exp_marker(#[trigger] u[j]),
    ensures
        marker_from(u, i) == e,
    decreases e - i,
{
    if i < e {
        marker_from_at(u, i + 1, e);
    }
}

/// A sign as the grammar allows it: none, `+` or `-`.
pub open spec fn is_sign_text(s: Seq<char>) -> bool {
    s.len() == 0 || s == seq!['+'] || s == seq!['-']
}

/// Only decimal digits.
pub open spec fn all_digits(s: Seq<char>) -> bool {
    forall|i: int| 0 <= i < s.len() ==> is_digit(#[trigger] s[i])
}

/// A mantissa without marker, followed by nothing or by `e`, a sign and
/// digits, is a number; behind a sign it is a number literal.
proof fn mantissa_with_tail(sign: Seq<char>, m: Seq<char>, exp_sign: Seq<char>, x: Seq<char>)
    requires
        is_sign_text(sign),
        is_sign_text(exp_sign),
        all_digits(x),
        is_mantissa(m),
        forall|j: int| 0 <= j < m.len() ==> !is_exp_marker(#[trigger] m[j]),
    ensures
        is_number_text(sign + m),
        x.len() > 0 ==> is_number_text(sign + m + seq!['e'] + exp_sign + x),
{
    let d = choose|i: int| 0 <= i < m.len() && is_digit(#[trigger] m[i]);
    assert(m.len() > 0);
    assert(m[0] != '+' && m[0] != '-');
    let u1 = sign + m;
    assert(unsigned_part(u1) =~= m);
    marker_from_none(m, 0);
    assert(m.take(m.len() as int) =~= m);
    assert(is_number(m));
    if x.len() > 0 {
        let t = m + seq!['e'] + exp_sign + x;
        assert(unsigned_part(sign + t) =~= t) by {
            assert((sign + t).drop_first() =~= t || sign.len() == 0);
            if sign.len() == 0 {
                assert(sign + t =~= t);
            }
            assert(t[0] == m[0]);
        }
        assert forall|j: int| 0 <= j < m.len() implies !is_exp_marker(#[trigger] t[j]) by {
            assert(t[j] == m[j]);
        }
        marker_from_at(t, 0, m.len() as int);
        assert(t.take(m.len() as int) =~= m);
        let y = t.skip(m.len() as int + 1);
        assert(y =~= exp_sign + x);
        assert(unsigned_part(y) =~= x) by {
            if exp_sign.len() == 0 {
                assert(y =~= x);
            } else {
                assert(y.drop_first() =~= x);
            }
        }
        assert(is_exponent(y));
        assert(is_number(t));
        assert(sign + m + seq!['e'] + exp_sign + x =~= sign + t);
    }
}

/// Every decimal literal of the grammar is a number literal, and so kept
/// as a cell: an optional sign, then digits `a`, a point and digits `b`
/// with at least one digit in all (any number on either side of the
/// point), or digits alone; each optionally followed by `e`, an optional
/// sign and at least one exponent digit.
pub proof fn decimal_literals_are_numbers(
    sign: Seq<char>,
    a: Seq<char>,
    b: Seq<char>,
    exp_sign: Seq<char>,
    x: Seq<char>,
)
    requires
        is_sign_text(sign),
        is_sign_text(exp_sign),
        all_digits(a),
        all_digits(b),
        all_digits(x),
    ensures
        a.len() + b.len() > 0 ==> is_number_text(sign + (a + seq!['.'] + b)),
        a.len() + b.len() > 0 && x.len() > 0 ==> is_number_text(
            sign + (a + seq!['.'] + b) + seq!['e'] + exp_sign + x,
        ),
        a.len() > 0 ==> is_number_text(sign + a),
        a.len() > 0 && x.len() > 0 ==> is_number_text(sign + a + seq!['e'] + exp_sign + x),
{
    let m = a + seq!['.'] + b;
    if a.len() + b.len() > 0 {
        assert forall|i: int| 0 <= i < m.len() implies is_digit(#[trigger] m[i]) || m[i] == '.' by {
            if i < a.len() {
                assert(m[i] == a[i]);
            } else if i > a.len() {
                assert(m[i] == b[i - a.len() - 1]);
            }
        }
        assert forall|i: int, j: int| 0 <= i < j < m.len() && #[trigger] m[i] == '.' implies #[trigger] m[j]
            != '.' by {
            if i < a.len() {
                assert(m[i] == a[i]);
            }
            if i > a.len() {
                assert(m[i] == b[i - a.len() - 1]);
            }
            assert(m[j] == b[j - a.len() - 1]);
        }
        if a.len() > 0 {
            assert(m[0] == a[0]);
            assert(is_digit(m[0]));
        } else {
            assert(m[1] == b[0]);
            assert(is_digit(m[1]));
        }
        assert forall|j: int| 0 <= j < m.len() implies !is_exp_marker(#[trigger] m[j]) by {
            if j < a.len() {
                assert(m[j] == a[j]);
            } else if j > a.len() {
                assert(m[j] == b[j - a.len() - 1]);
            }
        }
        mantissa_with_tail(sign, m, exp_sign, x);
    }
    if a.len() > 0 {
        assert(is_digit(a[0]));
        mantissa_with_tail(sign, a, exp_sign, x);
    }
}

/// Parse a CSV with an optional header into rows of number cells. Each
/// cell is kept as its trimmed text, which is a number literal; non-number
/// columns (e.g. a species name) are dropped. The header is detected by
/// checking whether the first column of the first non-empty line is a
/// number.
pub fn parse_csv_features(csv: &str) -> (rows: Vec<Vec<String>>)
    ensures
        rows.deep_view() == csv_rows(csv@),
{
    let v = chars_of(csv);
    let lines = split_range(&v, 0, v.len(), '\n');
    let ghost all = split_on(v@, '\n');
    assert(v@.subrange(0, v@.len() as int) =~= v@);
    let mut rows: Vec<Vec<String>> = Vec::new();
    let mut seen_first = false;
    let nl = lines.len();
    assert(all.skip(0) =~= all);
    assert(rows.deep_view() + rows_from(all, false) =~= rows_from(all, false));
    for li in 0..nl
        invariant
            nl == lines.len(),
            nl == all.len(),
            v@ == csv@,
            all == split_on(v@, '\n'),
            forall|t: int|
                0 <= t < lines.len() ==> {
                    &&& 0 <= (#[trigger] lines[t]).0 <= lines[t].1 <= v.len()
                    &&& v@.subrange(lines[t].0 as int, lines[t].1 as int) == all[t]
                },
            rows.deep_view() + rows_from(all.skip(li as int), seen_first) == csv_rows(csv@),
    {
        let ghost rest = all.skip(li as int);
        assert(rest[0] == all[li as int]);
        assert(rest.drop_first() =~= all.skip(li + 1));
        let (ls, le) = lines[li];
        let (ts, te) = trim_range(&v, ls, le);
        let ghost t = v@.subrange(ts as int, te as int);
        assert(t == trim(rest[0]));
        if ts < te {
            let cols = split_range(&v, ts, te, ',');
            let ghost cells = cells_of(t);
            proof {
                split_on_nonempty(t, ',');
            }
            assert(cells.len() == cols.len());
            let first_is_header = if !seen_first {
                let (c0s, c0e) = trim_range(&v, cols[0].0, cols[0].1);
                assert(v@.subrange(c0s as int, c0e as int) == cells[0]);
                !number_text_at(&v, c0s, c0e)
            } else {
                false
            };
            seen_first = true;
            if !first_is_header {
                let mut row: Vec<String> = Vec::new();
                let nc = cols.len();
                for ci in 0..nc
                    invariant
                        nc == cols.len(),
                        nc == cells.len(),
                        v@ == csv@,
                        cells == cells_of(t),
                        t == v@.subrange(ts as int, te as int),
                        ts <= te <= v.len(),
                        forall|q: int|
                            0 <= q < cols.len() ==> {
                                &&& ts <= (#[trigger] cols[q]).0 <= cols[q].1 <= te
                                &&& v@.subrange(cols[q].0 as int, cols[q].1 as int) == split_on(
                                    t,
                                    ',',
                                )[q]
                            },
                        row.deep_view() == number_cells(cells.take(ci as int)),
                {
                    assert(cells.take(ci + 1).drop_last() =~= cells.take(ci as int));
                    let (cs, ce) = trim_range(&v, cols[ci].0, cols[ci].1);
                    assert(v@.subrange(cs as int, ce as int) == cells[ci as int]);
                    if number_text_at(&v, cs, ce) {
                        let cell = csv.substring_char(cs, ce).to_owned();
                        let ghost before = row.deep_view();
                        row.push(cell);
                        assert(row.deep_view() =~= before.push(cell@));
                    }
                }
                assert(cells.take(nc as int) =~= cells);
                if row.len() > 0 {
                    let ghost before = rows.deep_view();
                    rows.push(row);
                    assert(rows.deep_view() =~= before.push(row.deep_view()));
                    assert(before + seq![row.deep_view()] =~= before.push(row.deep_view()));
                }
            }
        }
    }
    assert(all.skip(nl as int) =~= Seq::<Seq<char>>::empty());
    assert(rows.deep_view() + Seq::<Seq<Seq<char>>>::empty() =~= rows.deep_view());
    rows
}

} // verus!
