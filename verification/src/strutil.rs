//! Character-level helpers over `&str` and `Seq<char>`: decimal digit runs,
//! prefix and suffix tests, substring extraction and line splitting, each with
//! an exact specification.
use vstd::prelude::*;
use vstd::string::StrSliceExecFns;
use vstd::string::StringExecFns;

verus! {

/// Whether `c` is an ASCII decimal digit.
pub open spec fn is_digit(c: char) -> bool {
    '0' <= c && c <= '9'
}

/// The numeric value of a decimal digit.
pub open spec fn digit_val(c: char) -> nat {
    (c as nat - '0' as nat) as nat
}

/// Whether every character of `s` is a decimal digit.
pub open spec fn all_digits(s: Seq<char>) -> bool {
    forall|i: int| 0 <= i < s.len() ==> is_digit(#[trigger] s[i])
}

/// The value of `s` read as a decimal numeral, most significant digit first.
pub open spec fn dec_val(s: Seq<char>) -> nat
    decreases s.len(),
{
    if s.len() == 0 {
        0
    } else {
        dec_val(s.drop_last()) * 10 + digit_val(s.last())
    }
}

/// A decimal numeral never shrinks when a digit is appended, so the value of a
/// prefix never exceeds the value of the whole run.
pub proof fn lemma_dec_val_prefix(s: Seq<char>, i: int)
    requires
        0 <= i <= s.len(),
    ensures
        dec_val(s.take(i)) <= dec_val(s),
    decreases s.len() - i,
{
    if i < s.len() {
        lemma_dec_val_prefix(s, i + 1);
        assert(s.take(i + 1).drop_last() =~= s.take(i));
        assert(dec_val(s.take(i + 1)) == dec_val(s.take(i)) * 10 + digit_val(s.take(i + 1).last()));
        assert(dec_val(s.take(i)) * 10 >= dec_val(s.take(i)));
    } else {
        assert(s.take(i) =~= s);
    }
}

/// Whether `p` is a prefix of `s`.
pub open spec fn starts_with(s: Seq<char>, p: Seq<char>) -> bool {
    p.len() <= s.len() && (forall|i: int| 0 <= i < p.len() ==> s[i] == #[trigger] p[i])
}

/// Whether `p` is a suffix of `s`.
pub open spec fn ends_with(s: Seq<char>, p: Seq<char>) -> bool {
    p.len() <= s.len() && (forall|i: int|
        0 <= i < p.len() ==> s[s.len() - p.len() + i] == #[trigger] p[i])
}

/// The index of the first occurrence of `c` in `s`, or `s.len()` if `c` does
/// not occur.
pub open spec fn find_char(s: Seq<char>, c: char) -> int
    decreases s.len(),
{
    if s.len() == 0 {
        0
    } else if s[0] == c {
        0
    } else {
        1 + find_char(s.drop_first(), c)
    }
}

pub proof fn lemma_find_char(s: Seq<char>, c: char)
    ensures
        0 <= find_char(s, c) <= s.len(),
        find_char(s, c) < s.len() ==> s[find_char(s, c)] == c,
        forall|j: int| 0 <= j < find_char(s, c) ==> s[j] != c,
    decreases s.len(),
{
    if s.len() > 0 && s[0] != c {
        lemma_find_char(s.drop_first(), c);
        assert forall|j: int| 0 <= j < find_char(s, c) implies s[j] != c by {
            if j > 0 {
                assert(s.drop_first()[j - 1] != c);
            }
        }
    }
}

/// How many consecutive characters of `s`, starting at `from`, satisfy
/// `pred`.
pub open spec fn run_len(s: Seq<char>, from: int, pred: spec_fn(char) -> bool) -> nat
    decreases s.len() - from,
{
    if from < 0 || from >= s.len() {
        0
    } else if !pred(s[from]) {
        0
    } else {
        1 + run_len(s, from + 1, pred)
    }
}

/// The first index at or after `from` where `pred` fails, or `s.len()` if it
/// holds to the end.
pub open spec fn run_end(s: Seq<char>, from: int, pred: spec_fn(char) -> bool) -> int {
    from + run_len(s, from, pred)
}

pub proof fn lemma_run_end(s: Seq<char>, from: int, pred: spec_fn(char) -> bool)
    requires
        0 <= from <= s.len(),
    ensures
        from <= run_end(s, from, pred) <= s.len(),
        run_end(s, from, pred) < s.len() ==> !pred(s[run_end(s, from, pred)]),
        forall|j: int| from <= j < run_end(s, from, pred) ==> pred(#[trigger] s[j]),
    decreases s.len() - from,
{
    if from < s.len() && pred(s[from]) {
        lemma_run_end(s, from + 1, pred);
    }
}

/// If `pred` holds from `from` up to `k` and fails at `k` (or `k` is the
/// end), then `k` is exactly where the run ends.
pub proof fn lemma_run_end_found(s: Seq<char>, from: int, pred: spec_fn(char) -> bool, k: int)
    requires
        0 <= from <= k <= s.len(),
        forall|j: int| from <= j < k ==> pred(#[trigger] s[j]),
        k < s.len() ==> !pred(s[k]),
    ensures
        run_end(s, from, pred) == k,
    decreases k - from,
{
    if from < k {
        lemma_run_end_found(s, from + 1, pred, k);
    }
}

/// Relies on `String::push`: appends one character to the string.
#[verifier::external_body]
pub fn push_char(s: &mut String, c: char)
    ensures
        final(s)@ == old(s)@.push(c),
{
    s.push(c);
}

/// Whether two strings hold the same characters.
pub fn str_eq(a: &str, b: &str) -> (r: bool)
    ensures
        r == (a@ == b@),
{
    let n = a.unicode_len();
    if n != b.unicode_len() {
        return false;
    }
    let mut i: usize = 0;
    while i < n
        invariant
            n == a@.len(),
            n == b@.len(),
            0 <= i <= n,
            forall|j: int| 0 <= j < i ==> a@[j] == #[trigger] b@[j],
        decreases n - i,
    {
        if a.get_char(i) != b.get_char(i) {
            proof {
                assert(a@[i as int] != b@[i as int]);
            }
            return false;
        }
        i += 1;
    }
    proof {
        assert(a@ =~= b@);
    }
    true
}

/// The pieces of `s` cut at every occurrence of `c`; the separators are
/// dropped, and `n` separators give `n + 1` pieces.
pub open spec fn split_char(s: Seq<char>, c: char) -> Seq<Seq<char>>
    decreases s.len(),
{
    let i = find_char(s, c);
    if i < 0 || i >= s.len() {
        seq![s]
    } else {
        seq![s.take(i)] + split_char(s.skip(i + 1), c)
    }
}

/// Splits `s` at every occurrence of `c`, dropping the separators.
pub fn split_on_char(s: &str, c: char) -> (r: Vec<String>)
    ensures
        r@.map_values(|l: String| l@) == split_char(s@, c),
{
    let n = s.unicode_len();
    let mut pieces: Vec<String> = Vec::new();
    let mut pos: usize = 0;
    proof {
        assert(s@.skip(0) =~= s@);
    }
    loop
        invariant
            n == s@.len(),
            0 <= pos <= n,
            pieces@.map_values(|l: String| l@) + split_char(s@.skip(pos as int), c) =~= split_char(
                s@,
                c,
            ),
        decreases n - pos + 1,
    {
        let ghost rest = s@.skip(pos as int);
        let sep = str_find_char(s, pos, c);
        proof {
            lemma_find_char(rest, c);
        }
        if sep < n {
            let piece = substring(s, pos, sep);
            proof {
                assert(rest.take(sep - pos) =~= s@.subrange(pos as int, sep as int));
                assert(rest.skip(sep - pos + 1) =~= s@.skip(sep + 1));
            }
            pieces.push(piece);
            proof {
                assert(pieces@.map_values(|l: String| l@) + split_char(s@.skip(sep + 1), c)
                    =~= split_char(s@, c));
            }
            pos = sep + 1;
        } else {
            let piece = substring(s, pos, n);
            proof {
                assert(rest =~= s@.subrange(pos as int, n as int));
                assert(split_char(rest, c) =~= seq![rest]);
            }
            pieces.push(piece);
            proof {
                assert(pieces@.map_values(|l: String| l@) =~= split_char(s@, c));
            }
            return pieces;
        }
    }
}

/// Reads the character at char index `i`.
pub fn char_at(s: &str, i: usize) -> (c: char)
    requires
        i < s@.len(),
    ensures
        c == s@[i as int],
{
    s.get_char(i)
}

/// The number of characters in `s`.
pub fn str_len(s: &str) -> (n: usize)
    ensures
        n == s@.len(),
{
    s.unicode_len()
}

/// Whether `p` is a prefix of `s`, compared character by character.
pub fn str_starts_with(s: &str, p: &str) -> (b: bool)
    ensures
        b == starts_with(s@, p@),
{
    let n = p.unicode_len();
    if n > s.unicode_len() {
        return false;
    }
    let mut i: usize = 0;
    while i < n
        invariant
            n == p@.len(),
            n <= s@.len(),
            0 <= i <= n,
            forall|j: int| 0 <= j < i ==> s@[j] == #[trigger] p@[j],
        decreases n - i,
    {
        if s.get_char(i) != p.get_char(i) {
            return false;
        }
        i += 1;
    }
    true
}

/// Whether `p` is a suffix of `s`, compared character by character.
pub fn str_ends_with(s: &str, p: &str) -> (b: bool)
    ensures
        b == ends_with(s@, p@),
{
    let n = p.unicode_len();
    let m = s.unicode_len();
    if n > m {
        return false;
    }
    let off: usize = m - n;
    let mut i: usize = 0;
    while i < n
        invariant
            n == p@.len(),
            m == s@.len(),
            n <= m,
            off == m - n,
            0 <= i <= n,
            forall|j: int| 0 <= j < i ==> s@[off + j] == #[trigger] p@[j],
        decreases n - i,
    {
        if s.get_char(off + i) != p.get_char(i) {
            return false;
        }
        i += 1;
    }
    true
}

/// Copies the characters of `s` between char indices `from` and `to` into an
/// owned string.
pub fn substring(s: &str, from: usize, to: usize) -> (r: String)
    requires
        from <= to <= s@.len(),
    ensures
        r@ == s@.subrange(from as int, to as int),
{
    s.substring_char(from, to).to_owned()
}

/// The index of the first occurrence of `c` in `s` at or after `from`, or
/// `s@.len()` if there is none.
pub fn str_find_char(s: &str, from: usize, c: char) -> (r: usize)
    requires
        from <= s@.len(),
    ensures
        from <= r <= s@.len(),
        r - from == find_char(s@.skip(from as int), c),
        r < s@.len() ==> s@[r as int] == c,
        forall|j: int| from <= j < r ==> s@[j] != c,
{
    let n = s.unicode_len();
    let mut i: usize = from;
    while i < n
        invariant
            n == s@.len(),
            from <= i <= n,
            forall|j: int| from <= j < i ==> s@[j] != c,
        decreases n - i,
    {
        if s.get_char(i) == c {
            proof {
                lemma_find_char_found(s@.skip(from as int), c, i - from);
            }
            return i;
        }
        i += 1;
    }
    proof {
        lemma_find_char_found(s@.skip(from as int), c, n - from);
    }
    n
}

/// If no `c` stands before index `k` and either `k` is the end or `s[k] == c`,
/// then `k` is exactly `find_char(s, c)`.
pub proof fn lemma_find_char_found(s: Seq<char>, c: char, k: int)
    requires
        0 <= k <= s.len(),
        forall|j: int| 0 <= j < k ==> s[j] != c,
        k < s.len() ==> s[k] == c,
    ensures
        find_char(s, c) == k,
    decreases s.len(),
{
    if s.len() > 0 && s[0] != c {
        lemma_find_char_found(s.drop_first(), c, k - 1);
    }
}

/// Parses the digit run `s[from..to]` as a `u64`.
///
/// Returns `None` exactly when the value does not fit.
pub fn parse_u64_digits(s: &str, from: usize, to: usize) -> (r: Option<u64>)
    requires
        from <= to <= s@.len(),
        all_digits(s@.subrange(from as int, to as int)),
    ensures
        match r {
            Some(v) => v == dec_val(s@.subrange(from as int, to as int)),
            None => dec_val(s@.subrange(from as int, to as int)) > u64::MAX,
        },
{
    let ghost whole = s@.subrange(from as int, to as int);
    let mut acc: u64 = 0;
    let mut i: usize = from;
    while i < to
        invariant
            from <= i <= to <= s@.len(),
            all_digits(whole),
            whole == s@.subrange(from as int, to as int),
            acc == dec_val(whole.take(i - from)),
        decreases to - i,
    {
        let c = s.get_char(i);
        assert(whole[i - from] == c);
        assert(is_digit(c));
        let d: u64 = (c as u32 as u64) - ('0' as u32 as u64);
        let step = match acc.checked_mul(10) {
            Some(m) => m.checked_add(d),
            None => None,
        };
        match step {
            Some(v) => {
                proof {
                    assert(whole.take(i - from + 1).drop_last() =~= whole.take(i - from));
                    assert(whole.take(i - from + 1).last() == c);
                }
                acc = v;
            },
            None => {
                proof {
                    lemma_dec_val_prefix(whole, i - from + 1);
                    assert(whole.take(i - from + 1).drop_last() =~= whole.take(i - from));
                    assert(dec_val(whole.take(i - from + 1)) == acc * 10 + digit_val(c));
                }
                return None;
            },
        }
        i += 1;
    }
    proof {
        assert(whole.take(to - from) =~= whole);
    }
    Some(acc)
}

/// `s` with one trailing carriage return removed, if it ends in one.
pub open spec fn strip_trailing_cr(s: Seq<char>) -> Seq<char> {
    if s.len() > 0 && s.last() == '\r' {
        s.drop_last()
    } else {
        s
    }
}

/// The lines of `s`: pieces cut at every newline, with the carriage return of
/// each `\r\n` ending dropped, and with no final empty piece after a
/// terminating newline.
pub open spec fn lines_of(s: Seq<char>) -> Seq<Seq<char>>
    decreases s.len(),
{
    let i = find_char(s, '\n');
    if i < 0 || i >= s.len() {
        if s.len() == 0 {
            seq![]
        } else {
            seq![s]
        }
    } else {
        seq![strip_trailing_cr(s.take(i))] + lines_of(s.skip(i + 1))
    }
}

/// Splits `s` into lines: cut at every newline, drop the carriage return of
/// each `\r\n` ending, and yield no final empty line after a terminating
/// newline.
pub fn split_lines(s: &str) -> (r: Vec<String>)
    ensures
        r@.map_values(|l: String| l@) == lines_of(s@),
{
    let n = s.unicode_len();
    let mut pieces: Vec<String> = Vec::new();
    let mut pos: usize = 0;
    proof {
        assert(s@.skip(0) =~= s@);
    }
    while pos < n
        invariant
            n == s@.len(),
            0 <= pos <= n,
            pieces@.map_values(|l: String| l@) + lines_of(s@.skip(pos as int)) =~= lines_of(s@),
        decreases n - pos,
    {
        let ghost rest = s@.skip(pos as int);
        let nl = str_find_char(s, pos, '\n');
        proof {
            lemma_find_char(rest, '\n');
        }
        if nl < n {
            // The piece before the newline, with a `\r\n` ending trimmed.
            let end = if nl > pos && char_at(s, nl - 1) == '\r' {
                nl - 1
            } else {
                nl
            };
            let piece = substring(s, pos, end);
            proof {
                assert(rest.take(nl - pos) =~= s@.subrange(pos as int, nl as int));
                assert(strip_trailing_cr(rest.take(nl - pos)) =~= s@.subrange(
                    pos as int,
                    end as int,
                ));
                assert(rest.skip(nl - pos + 1) =~= s@.skip(nl + 1));
            }
            pieces.push(piece);
            proof {
                assert(pieces@.map_values(|l: String| l@) + lines_of(s@.skip(nl + 1)) =~= lines_of(
                    s@,
                ));
            }
            pos = nl + 1;
        } else {
            // The last line: no newline follows, so nothing is trimmed.
            let piece = substring(s, pos, n);
            proof {
                assert(rest =~= s@.subrange(pos as int, n as int));
                assert(lines_of(rest) =~= seq![rest]);
            }
            pieces.push(piece);
            proof {
                assert(pieces@.map_values(|l: String| l@) =~= lines_of(s@));
                assert(s@.skip(n as int) =~= Seq::<char>::empty());
            }
            pos = n;
        }
    }
    proof {
        assert(s@.skip(n as int) =~= Seq::<char>::empty());
        assert(pieces@.map_values(|l: String| l@) =~= lines_of(s@));
    }
    pieces
}

} // verus!
