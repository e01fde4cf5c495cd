//! Character-level helpers shared by the parsers of command output: lines,
//! fields, tokens, literal comparison and decimal integers.
use vstd::prelude::*;

verus! {

/// Appends one character to a string (`String::push`).
#[verifier::external_body]
pub(crate) fn push_char(s: &mut String, c: char)
    ensures
        final(s)@ == old(s)@.push(c),
{
    s.push(c)
}

/// Blank characters that separate the words of a line.
pub open spec fn is_space(c: char) -> bool {
    c == ' ' || c == '\t' || c == '\n' || c == '\r'
}

pub open spec fn is_digit(c: char) -> bool {
    '0' <= c && c <= '9'
}

pub open spec fn digit_value(c: char) -> nat {
    (c as int - '0' as int) as nat
}

pub open spec fn all_digits(s: Seq<char>) -> bool {
    forall|i: int| 0 <= i < s.len() ==> is_digit(#[trigger] s[i])
}

/// The number that a run of decimal digits denotes.
pub open spec fn decimal_value(s: Seq<char>) -> nat
    decreases s.len(),
{
    if s.len() == 0 {
        0
    } else {
        decimal_value(s.drop_last()) * 10 + digit_value(s.last())
    }
}

/// The digits of an integer literal without its sign: an optional `+`, then
/// at least one digit (the form that `str::parse` accepts for unsigned types).
pub open spec fn spec_parse_unsigned(s: Seq<char>) -> Option<nat> {
    let d = if s.len() > 0 && s[0] == '+' { s.drop_first() } else { s };
    if d.len() > 0 && all_digits(d) {
        Some(decimal_value(d))
    } else {
        None
    }
}

/// A signed integer literal: an optional `+` or `-`, then at least one digit.
pub open spec fn spec_parse_signed(s: Seq<char>) -> Option<int> {
    if s.len() > 0 && s[0] == '-' {
        let d = s.drop_first();
        if d.len() > 0 && all_digits(d) {
            Some(-(decimal_value(d) as int))
        } else {
            None
        }
    } else {
        match spec_parse_unsigned(s) {
            Some(n) => Some(n as int),
            None => None,
        }
    }
}

/// `u64` parsed the way `str::parse::<u64>` does.
pub open spec fn spec_parse_u64(s: Seq<char>) -> Option<u64> {
    match spec_parse_unsigned(s) {
        Some(n) => if n <= u64::MAX { Some(n as u64) } else { None },
        None => None,
    }
}

/// `i64` parsed the way `str::parse::<i64>` does.
pub open spec fn spec_parse_i64(s: Seq<char>) -> Option<i64> {
    match spec_parse_signed(s) {
        Some(n) => if i64::MIN <= n <= i64::MAX { Some(n as i64) } else { None },
        None => None,
    }
}

/// `usize` parsed the way `str::parse::<usize>` does.
pub open spec fn spec_parse_usize(s: Seq<char>) -> Option<usize> {
    match spec_parse_unsigned(s) {
        Some(n) => if n <= usize::MAX { Some(n as usize) } else { None },
        None => None,
    }
}

/// `u8` parsed the way `str::parse::<u8>` does.
pub open spec fn spec_parse_u8(s: Seq<char>) -> Option<u8> {
    match spec_parse_unsigned(s) {
        Some(n) => if n <= u8::MAX { Some(n as u8) } else { None },
        None => None,
    }
}

/// `i8` parsed the way `str::parse::<i8>` does.
pub open spec fn spec_parse_i8(s: Seq<char>) -> Option<i8> {
    match spec_parse_signed(s) {
        Some(n) => if i8::MIN <= n <= i8::MAX { Some(n as i8) } else { None },
        None => None,
    }
}

proof fn lemma_decimal_prefix_grows(s: Seq<char>, i: int, j: int)
    requires
        0 <= i <= j <= s.len(),
    ensures
        decimal_value(s.take(i)) <= decimal_value(s.take(j)),
    decreases j - i,
{
    if i < j {
        lemma_decimal_prefix_grows(s, i, j - 1);
        assert(s.take(j).drop_last() =~= s.take(j - 1));
    }
}

/// Value of the digits `s[lo..]`, or `None` when one is not a digit, there is
/// none, or the value exceeds `u64::MAX`.
fn parse_digits(s: &[char], lo: usize) -> (r: Option<u64>)
    requires
        lo <= s@.len(),
    ensures
        ({
            let d = s@.skip(lo as int);
            r == if d.len() > 0 && all_digits(d) && decimal_value(d) <= u64::MAX {
                Some(decimal_value(d) as u64)
            } else {
                None
            }
        }),
{
    let ghost d = s@.skip(lo as int);
    if lo == s.len() {
        return None;
    }
    let mut acc: u64 = 0;
    let mut i = lo;
    while i < s.len()
        invariant
            lo <= i <= s@.len(),
            d == s@.skip(lo as int),
            all_digits(d.take(i - lo)),
            acc as nat == decimal_value(d.take(i - lo)),
        decreases s@.len() - i,
    {
        let c = s[i];
        if !('0' <= c && c <= '9') {
            assert(d[i - lo] == c);
            return None;
        }
        let dv: u64 = (c as u32 - '0' as u32) as u64;
        assert(d.take(i - lo + 1).drop_last() =~= d.take(i - lo));
        assert(d.take(i - lo + 1).last() == c);
        if acc > (u64::MAX - dv) / 10 {
            proof {
                assert(decimal_value(d.take(i - lo + 1)) > u64::MAX) by (nonlinear_arith)
                    requires
                        decimal_value(d.take(i - lo + 1)) == acc * 10 + dv,
                        acc > (u64::MAX - dv) / 10,
                        dv <= 9,
                ;
                lemma_decimal_prefix_grows(d, i - lo + 1, d.len() as int);
                assert(d.take(d.len() as int) =~= d);
            }
            return None;
        }
        proof {
            assert(acc * 10 + dv <= u64::MAX) by (nonlinear_arith)
                requires
                    acc <= (u64::MAX - dv) / 10,
                    dv <= 9,
            ;
        }
        acc = acc * 10 + dv;
        assert(all_digits(d.take(i - lo + 1))) by {
            assert forall|k: int| 0 <= k < i - lo + 1 implies is_digit(#[trigger] d.take(i - lo + 1)[k]) by {
                if k < i - lo {
                    assert(d.take(i - lo + 1)[k] == d.take(i - lo)[k]);
                }
            }
        }
        i += 1;
    }
    assert(d.take(i - lo) =~= d);
    Some(acc)
}

/// Parses an unsigned decimal literal (an optional `+`, then digits) into a `u64`.
pub fn parse_u64(s: &[char]) -> (r: Option<u64>)
    ensures
        r == spec_parse_u64(s@),
{
    let lo: usize = if s.len() > 0 && s[0] == '+' { 1 } else { 0 };
    assert(s@.skip(lo as int) =~= (if s@.len() > 0 && s@[0] == '+' { s@.drop_first() } else { s@ }));
    parse_digits(s, lo)
}

/// Parses a signed decimal literal (an optional `+` or `-`, then digits) into an `i64`.
pub fn parse_i64(s: &[char]) -> (r: Option<i64>)
    ensures
        r == spec_parse_i64(s@),
{
    if s.len() > 0 && s[0] == '-' {
        assert(s@.skip(1) =~= s@.drop_first());
        match parse_digits(s, 1) {
            Some(m) => {
                if m <= 9223372036854775808u64 {
                    if m == 9223372036854775808u64 {
                        Some(i64::MIN)
                    } else {
                        Some(-(m as i64))
                    }
                } else {
                    None
                }
            },
            None => None,
        }
    } else {
        match parse_u64(s) {
            Some(m) => {
                if m <= 9223372036854775807u64 {
                    Some(m as i64)
                } else {
                    None
                }
            },
            None => None,
        }
    }
}

/// Parses a decimal literal into a `usize`.
pub fn parse_usize(s: &[char]) -> (r: Option<usize>)
    ensures
        r == spec_parse_usize(s@),
{
    match parse_u64(s) {
        Some(m) => {
            if m as u128 <= usize::MAX as u128 {
                Some(m as usize)
            } else {
                None
            }
        },
        None => None,
    }
}

/// Parses a decimal literal into a `u8`.
pub fn parse_u8(s: &[char]) -> (r: Option<u8>)
    ensures
        r == spec_parse_u8(s@),
{
    match parse_u64(s) {
        Some(m) => if m <= 255 { Some(m as u8) } else { None },
        None => None,
    }
}

/// Parses a decimal literal into an `i8`.
pub fn parse_i8(s: &[char]) -> (r: Option<i8>)
    ensures
        r == spec_parse_i8(s@),
{
    match parse_i64(s) {
        Some(m) => if -128 <= m && m <= 127 { Some(m as i8) } else { None },
        None => None,
    }
}

/// The characters of a string slice, in order.
pub fn chars_of(s: &str) -> (v: Vec<char>)
    ensures
        v@ == s@,
{
    let mut v: Vec<char> = Vec::new();
    for c in it: s.chars()
        invariant
            v@ == it.seq().take(it.index() as int),
    {
        v.push(c);
    }
    v
}

/// The string made of `v[lo..hi]`.
pub fn string_of(v: &[char], lo: usize, hi: usize) -> (s: String)
    requires
        lo <= hi <= v@.len(),
    ensures
        s@ == v@.subrange(lo as int, hi as int),
{
    let mut s = String::new();
    let mut i = lo;
    while i < hi
        invariant
            lo <= i <= hi <= v@.len(),
            s@ == v@.subrange(lo as int, i as int),
        decreases hi - i,
    {
        push_char(&mut s, v[i]);
        assert(v@.subrange(lo as int, i + 1) == v@.subrange(lo as int, i as int).push(v@[i as int]));
        i += 1;
    }
    s
}

/// The characters `v[lo..hi]`.
pub fn sub_chars(v: &[char], lo: usize, hi: usize) -> (r: Vec<char>)
    requires
        lo <= hi <= v@.len(),
    ensures
        r@ == v@.subrange(lo as int, hi as int),
{
    let mut r: Vec<char> = Vec::new();
    let mut i = lo;
    while i < hi
        invariant
            lo <= i <= hi <= v@.len(),
            r@ == v@.subrange(lo as int, i as int),
        decreases hi - i,
    {
        r.push(v[i]);
        assert(v@.subrange(lo as int, i + 1) == v@.subrange(lo as int, i as int).push(v@[i as int]));
        i += 1;
    }
    r
}

/// Appends `v[lo..hi]` to `out`.
pub fn push_chars(out: &mut Vec<char>, v: &[char], lo: usize, hi: usize)
    requires
        lo <= hi <= v@.len(),
    ensures
        final(out)@ == old(out)@ + v@.subrange(lo as int, hi as int),
{
    let ghost start = out@;
    let mut i = lo;
    while i < hi
        invariant
            lo <= i <= hi <= v@.len(),
            out@ == start + v@.subrange(lo as int, i as int),
        decreases hi - i,
    {
        out.push(v[i]);
        assert(v@.subrange(lo as int, i + 1) == v@.subrange(lo as int, i as int).push(v@[i as int]));
        i += 1;
    }
}

/// Whether `v[lo..hi]` spells the string `lit`.
pub fn chars_eq_str(v: &[char], lo: usize, hi: usize, lit: &str) -> (r: bool)
    requires
        lo <= hi <= v@.len(),
    ensures
        r == (v@.subrange(lo as int, hi as int) == lit@),
{
    let n = lit.unicode_len();
    if hi - lo != n {
        return false;
    }
    let mut i: usize = 0;
    while i < n
        invariant
            n == lit@.len(),
            hi - lo == n,
            lo <= hi <= v@.len(),
            i <= n,
            forall|k: int| 0 <= k < i ==> v@[lo + k] == lit@[k],
        decreases n - i,
    {
        if lit.get_char(i) != v[lo + i] {
            assert(v@.subrange(lo as int, hi as int)[i as int] != lit@[i as int]);
            return false;
        }
        i += 1;
    }
    assert(v@.subrange(lo as int, hi as int) =~= lit@);
    true
}

/// Whether the whole of `v` spells `lit`.
pub fn all_eq_str(v: &[char], lit: &str) -> (r: bool)
    ensures
        r == (v@ == lit@),
{
    assert(v@.subrange(0, v@.len() as int) =~= v@);
    chars_eq_str(v, 0, v.len(), lit)
}

/// Whether two character runs are equal.
pub fn chars_eq(a: &[char], b: &[char]) -> (r: bool)
    ensures
        r == (a@ == b@),
{
    if a.len() != b.len() {
        return false;
    }
    let mut i: usize = 0;
    while i < a.len()
        invariant
            a@.len() == b@.len(),
            i <= a@.len(),
            forall|k: int| 0 <= k < i ==> a@[k] == b@[k],
        decreases a@.len() - i,
    {
        if a[i] != b[i] {
            return false;
        }
        i += 1;
    }
    assert(a@ =~= b@);
    true
}

/// Pieces of `s` between occurrences of `sep`, left to right, with the piece
/// being built in `cur` and the finished ones in `done` (the way
/// `str::split` with a character cuts a string).
pub open spec fn split_acc(s: Seq<char>, sep: char, done: Seq<Seq<char>>, cur: Seq<char>) -> Seq<Seq<char>>
    decreases s.len(),
{
    if s.len() == 0 {
        done.push(cur)
    } else if s[0] == sep {
        split_acc(s.drop_first(), sep, done.push(cur), Seq::empty())
    } else {
        split_acc(s.drop_first(), sep, done, cur.push(s[0]))
    }
}

/// `s.split(sep)`: always at least one piece.
pub open spec fn spec_split(s: Seq<char>, sep: char) -> Seq<Seq<char>> {
    split_acc(s, sep, Seq::empty(), Seq::empty())
}

/// The views of a vector of character vectors.
pub open spec fn views(v: Seq<Vec<char>>) -> Seq<Seq<char>> {
    v.map_values(|x: Vec<char>| x@)
}

/// The views of a vector of strings.
pub open spec fn str_views(v: Seq<String>) -> Seq<Seq<char>> {
    v.map_values(|x: String| x@)
}

/// Cuts `s` at every `sep`, as `str::split` does.
pub fn split_chars(s: &[char], sep: char) -> (r: Vec<Vec<char>>)
    ensures
        views(r@) == spec_split(s@, sep),
{
    let mut done: Vec<Vec<char>> = Vec::new();
    let mut cur: Vec<char> = Vec::new();
    let mut i: usize = 0;
    assert(s@.skip(0) =~= s@);
    assert(views(done@) =~= Seq::<Seq<char>>::empty());
    assert(cur@ =~= Seq::<char>::empty());
    while i < s.len()
        invariant
            i <= s@.len(),
            split_acc(s@.skip(i as int), sep, views(done@), cur@) == spec_split(s@, sep),
        decreases s@.len() - i,
    {
        assert(s@.skip(i as int).drop_first() =~= s@.skip(i + 1));
        if s[i] == sep {
            let ghost d = views(done@);
            let ghost c = cur@;
            let piece = cur;
            done.push(piece);
            cur = Vec::new();
            assert(views(done@) =~= d.push(c));
        } else {
            cur.push(s[i]);
        }
        i += 1;
    }
    let ghost d = views(done@);
    let ghost c = cur@;
    done.push(cur);
    assert(views(done@) =~= d.push(c));
    done
}

/// Lines of `s`, each with its `'\n'` when it has one; a last piece without
/// newline counts as a line when it is not empty.
pub open spec fn lines_acc(s: Seq<char>, done: Seq<Seq<char>>, cur: Seq<char>) -> Seq<Seq<char>>
    decreases s.len(),
{
    if s.len() == 0 {
        if cur.len() == 0 { done } else { done.push(cur) }
    } else if s[0] == '\n' {
        lines_acc(s.drop_first(), done.push(cur.push('\n')), Seq::empty())
    } else {
        lines_acc(s.drop_first(), done, cur.push(s[0]))
    }
}

pub open spec fn spec_lines(s: Seq<char>) -> Seq<Seq<char>> {
    lines_acc(s, Seq::empty(), Seq::empty())
}

/// Cuts `s` into lines, keeping each line's `'\n'`.
pub fn lines_of(s: &[char]) -> (r: Vec<Vec<char>>)
    ensures
        views(r@) == spec_lines(s@),
{
    let mut done: Vec<Vec<char>> = Vec::new();
    let mut cur: Vec<char> = Vec::new();
    let mut i: usize = 0;
    assert(s@.skip(0) =~= s@);
    assert(views(done@) =~= Seq::<Seq<char>>::empty());
    assert(cur@ =~= Seq::<char>::empty());
    while i < s.len()
        invariant
            i <= s@.len(),
            lines_acc(s@.skip(i as int), views(done@), cur@) == spec_lines(s@),
        decreases s@.len() - i,
    {
        assert(s@.skip(i as int).drop_first() =~= s@.skip(i + 1));
        if s[i] == '\n' {
            let ghost d = views(done@);
            let ghost c = cur@;
            cur.push('\n');
            let piece = cur;
            done.push(piece);
            cur = Vec::new();
            assert(views(done@) =~= d.push(c.push('\n')));
        } else {
            cur.push(s[i]);
        }
        i += 1;
    }
    if cur.len() > 0 {
        let ghost d = views(done@);
        let ghost c = cur@;
        done.push(cur);
        assert(views(done@) =~= d.push(c));
    }
    done
}

/// First position at or after `i` that holds no blank, or the end.
pub open spec fn skip_spaces(s: Seq<char>, i: int) -> int
    decreases s.len() - i,
{
    if i < 0 || i >= s.len() {
        if i < 0 { 0 } else { s.len() as int }
    } else if is_space(s[i]) {
        skip_spaces(s, i + 1)
    } else {
        i
    }
}

/// First position at or after `i` that holds a blank, or the end.
pub open spec fn word_end(s: Seq<char>, i: int) -> int
    decreases s.len() - i,
{
    if i < 0 || i >= s.len() {
        if i < 0 { 0 } else { s.len() as int }
    } else if is_space(s[i]) {
        i
    } else {
        word_end(s, i + 1)
    }
}

pub proof fn lemma_skip_spaces_bounds(s: Seq<char>, i: int)
    requires
        0 <= i <= s.len(),
    ensures
        i <= skip_spaces(s, i) <= s.len(),
        skip_spaces(s, i) < s.len() ==> !is_space(s[skip_spaces(s, i)]),
    decreases s.len() - i,
{
    if i < s.len() && is_space(s[i]) {
        lemma_skip_spaces_bounds(s, i + 1);
    }
}

pub proof fn lemma_word_end_bounds(s: Seq<char>, i: int)
    requires
        0 <= i <= s.len(),
    ensures
        i <= word_end(s, i) <= s.len(),
    decreases s.len() - i,
{
    if i < s.len() && !is_space(s[i]) {
        lemma_word_end_bounds(s, i + 1);
    }
}

/// Skips the blanks of `s` from `i` on.
pub fn skip_spaces_from(s: &[char], i: usize) -> (r: usize)
    requires
        i <= s@.len(),
    ensures
        r == skip_spaces(s@, i as int),
        i <= r <= s@.len(),
{
    let mut j = i;
    while j < s.len() && (s[j] == ' ' || s[j] == '\t' || s[j] == '\n' || s[j] == '\r')
        invariant
            i <= j <= s@.len(),
            skip_spaces(s@, j as int) == skip_spaces(s@, i as int),
        decreases s@.len() - j,
    {
        j += 1;
    }
    j
}

/// Moves from `i` to the end of the word that starts there.
pub fn word_end_from(s: &[char], i: usize) -> (r: usize)
    requires
        i <= s@.len(),
    ensures
        r == word_end(s@, i as int),
        i <= r <= s@.len(),
{
    let mut j = i;
    while j < s.len() && !(s[j] == ' ' || s[j] == '\t' || s[j] == '\n' || s[j] == '\r')
        invariant
            i <= j <= s@.len(),
            word_end(s@, j as int) == word_end(s@, i as int),
        decreases s@.len() - j,
    {
        j += 1;
    }
    j
}

/// `s` without one trailing `'\n'` and then one trailing `'\r'`.
pub open spec fn strip_eol(s: Seq<char>) -> Seq<char> {
    let t = if s.len() > 0 && s.last() == '\n' { s.drop_last() } else { s };
    if t.len() > 0 && t.last() == '\r' { t.drop_last() } else { t }
}

/// Length of the line `s` without its end-of-line characters.
pub fn eol_start(s: &[char]) -> (r: usize)
    ensures
        r <= s@.len(),
        s@.take(r as int) == strip_eol(s@),
{
    let mut n = s.len();
    if n > 0 && s[n - 1] == '\n' {
        n -= 1;
    }
    assert(s@.take(n as int) =~= (if s@.len() > 0 && s@.last() == '\n' { s@.drop_last() } else { s@ }));
    if n > 0 && s[n - 1] == '\r' {
        n -= 1;
    }
    proof {
        let t = if s@.len() > 0 && s@.last() == '\n' { s@.drop_last() } else { s@ };
        assert(s@.take(n as int) =~= (if t.len() > 0 && t.last() == '\r' { t.drop_last() } else { t }));
    }
    n
}

} // verus!

verus! {

pub open spec fn is_sign(c: char) -> bool {
    c == '+' || c == '-'
}

/// `c` is `w` or its ASCII capital.
pub open spec fn lower_eq(c: char, w: char) -> bool {
    c == w || ('A' <= c && c <= 'Z' && (c as u32) + 32 == (w as u32))
}

/// Whether `s` equals `word` ignoring ASCII case (`word` in lower case).
pub open spec fn eq_ignore_case(s: Seq<char>, word: Seq<char>) -> bool {
    s.len() == word.len() && forall|i: int| 0 <= i < s.len() ==> lower_eq(#[trigger] s[i], word[i])
}

/// First position at or after `i` that holds no decimal digit, or the end.
pub open spec fn digits_end(s: Seq<char>, i: int) -> int
    decreases s.len() - i,
{
    if i < 0 || i >= s.len() {
        if i < 0 { 0 } else { s.len() as int }
    } else if is_digit(s[i]) {
        digits_end(s, i + 1)
    } else {
        i
    }
}

/// Digits, then an optional `.` and digits, then an optional exponent (`e`
/// or `E`, an optional sign, digits); at least one digit before the exponent.
pub open spec fn is_decimal_float(s: Seq<char>) -> bool {
    let i1 = digits_end(s, 0);
    let has_point = i1 < s.len() && s[i1] == '.';
    let i2 = if has_point { digits_end(s, i1 + 1) } else { i1 };
    let n_digits = if has_point { i1 + (i2 - i1 - 1) } else { i1 };
    &&& n_digits > 0
    &&& (i2 == s.len() || (
        (s[i2] == 'e' || s[i2] == 'E') && {
            let j = if i2 + 1 < s.len() && is_sign(s[i2 + 1]) { i2 + 2 } else { i2 + 1 };
            let k = digits_end(s, j);
            k == s.len() && k > j
        }))
}

/// Whether `str::parse::<f64>` accepts `s`: an optional sign, then `inf`,
/// `infinity` or `nan` in any case, or a decimal number.
pub open spec fn is_float_literal(s: Seq<char>) -> bool {
    let body = if s.len() > 0 && is_sign(s[0]) { s.drop_first() } else { s };
    eq_ignore_case(body, "inf"@) || eq_ignore_case(body, "infinity"@) || eq_ignore_case(body, "nan"@)
        || is_decimal_float(body)
}

/// Moves from `i` past the decimal digits that follow.
pub fn digits_end_from(s: &[char], i: usize) -> (r: usize)
    requires
        i <= s@.len(),
    ensures
        r == digits_end(s@, i as int),
        i <= r <= s@.len(),
{
    let mut j = i;
    while j < s.len() && '0' <= s[j] && s[j] <= '9'
        invariant
            i <= j <= s@.len(),
            digits_end(s@, j as int) == digits_end(s@, i as int),
        decreases s@.len() - j,
    {
        j += 1;
    }
    j
}

/// Whether `s[lo..]` equals `word` ignoring ASCII case.
fn rest_eq_ignore_case(s: &[char], lo: usize, word: &str) -> (r: bool)
    requires
        lo <= s@.len(),
    ensures
        r == eq_ignore_case(s@.skip(lo as int), word@),
{
    let n = word.unicode_len();
    let m = s.len();
    if m - lo != n {
        return false;
    }
    let mut i: usize = 0;
    while i < n
        invariant
            n == word@.len(),
            m == s@.len(),
            lo + n == m,
            lo <= s@.len(),
            i <= n,
            forall|k: int| 0 <= k < i ==> lower_eq(#[trigger] s@.skip(lo as int)[k], word@[k]),
        decreases n - i,
    {
        let c = s[lo + i];
        let w = word.get_char(i);
        assert(s@.skip(lo as int)[i as int] == c);
        if !(c == w || ('A' <= c && c <= 'Z' && (c as u32) + 32 == (w as u32))) {
            return false;
        }
        i += 1;
    }
    true
}

/// Whether the exponent part from `i2` on is empty or well formed.
fn exponent_ok(s: &[char], i2: usize) -> (r: bool)
    requires
        i2 <= s@.len(),
    ensures
        r == (i2 == s@.len() || (
            (s@[i2 as int] == 'e' || s@[i2 as int] == 'E') && {
                let j = if i2 + 1 < s@.len() && is_sign(s@[i2 + 1]) { i2 + 2 } else { i2 + 1 };
                let k = digits_end(s@, j);
                k == s@.len() && k > j
            })),
{
    if i2 == s.len() {
        return true;
    }
    if !(s[i2] == 'e' || s[i2] == 'E') {
        return false;
    }
    let j = if i2 + 1 < s.len() && (s[i2 + 1] == '+' || s[i2 + 1] == '-') { i2 + 2 } else { i2 + 1 };
    let k = digits_end_from(s, j);
    k == s.len() && k > j
}

/// Whether `s[lo..]` is a decimal number as `is_decimal_float` describes.
fn decimal_float_from(s: &[char], lo: usize) -> (r: bool)
    requires
        lo <= s@.len(),
    ensures
        r == is_decimal_float(s@.skip(lo as int)),
{
    let ghost t = s@.skip(lo as int);
    let i1 = digits_end_from(s, lo);
    proof { lemma_digits_end_shift(s@, lo as int, lo as int); }
    let has_point = i1 < s.len() && s[i1] == '.';
    let i2 = if has_point { digits_end_from(s, i1 + 1) } else { i1 };
    proof {
        if has_point {
            lemma_digits_end_shift(s@, lo as int, i1 + 1);
        }
    }
    let n_digits: usize = if has_point { (i1 - lo) + (i2 - i1 - 1) } else { i1 - lo };
    if n_digits == 0 {
        return false;
    }
    let r = exponent_ok(s, i2);
    proof {
        let a = i2 as int - lo;
        if a < t.len() {
            assert(t[a] == s@[i2 as int]);
            if a + 1 < t.len() {
                assert(t[a + 1] == s@[i2 + 1]);
            }
            let j = if i2 + 1 < s@.len() && is_sign(s@[i2 + 1]) { i2 + 2 } else { i2 + 1 };
            lemma_digits_end_shift(s@, lo as int, j as int);
        }
    }
    r
}

proof fn lemma_digits_end_shift(s: Seq<char>, lo: int, i: int)
    requires
        0 <= lo <= i <= s.len(),
    ensures
        digits_end(s.skip(lo), i - lo) == digits_end(s, i) - lo,
    decreases s.len() - i,
{
    if i < s.len() && is_digit(s[i]) {
        assert(s.skip(lo)[i - lo] == s[i]);
        lemma_digits_end_shift(s, lo, i + 1);
    } else if i < s.len() {
        assert(s.skip(lo)[i - lo] == s[i]);
    }
}

/// Whether `str::parse::<f64>` accepts the characters `s`.
pub fn is_float(s: &[char]) -> (r: bool)
    ensures
        r == is_float_literal(s@),
{
    let lo: usize = if s.len() > 0 && (s[0] == '+' || s[0] == '-') { 1 } else { 0 };
    assert(s@.skip(lo as int) =~= (if s@.len() > 0 && is_sign(s@[0]) { s@.drop_first() } else { s@ }));
    rest_eq_ignore_case(s, lo, "inf") || rest_eq_ignore_case(s, lo, "infinity")
        || rest_eq_ignore_case(s, lo, "nan") || decimal_float_from(s, lo)
}

} // verus!
