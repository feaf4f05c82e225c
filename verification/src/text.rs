//! Character-level helpers: decimal rendering and parsing of indices, child
//! task identifiers, lowercase hex rendering and substring search.

use vstd::prelude::*;
use vstd::string::*;

verus! {

/// The ASCII digit for `d` (0..=9).
pub open spec fn digit_char(d: int) -> char {
    (48 + d) as char
}

pub open spec fn is_digit(c: char) -> bool {
    '0' <= c && c <= '9'
}

pub open spec fn digit_value(c: char) -> int {
    c as int - 48
}

/// Decimal rendering of a natural number, most significant digit first.
pub open spec fn decimal(n: nat) -> Seq<char>
    decreases n,
{
    if n < 10 {
        seq![digit_char(n as int)]
    } else {
        decimal(n / 10).push(digit_char((n % 10) as int))
    }
}

pub open spec fn all_digits(s: Seq<char>) -> bool {
    forall|i: int| 0 <= i < s.len() ==> is_digit(#[trigger] s[i])
}

/// Value of a run of decimal digits.
pub open spec fn digits_value(s: Seq<char>) -> int
    decreases s.len(),
{
    if s.len() == 0 {
        0
    } else {
        digits_value(s.drop_last()) * 10 + digit_value(s.last())
    }
}

/// What `str::parse::<usize>` gives: an optional leading '+', then at least one
/// ASCII digit, and a value that fits in `usize`.
pub open spec fn usize_parse(s: Seq<char>) -> Option<usize> {
    let body = if s.len() > 0 && s[0] == '+' { s.drop_first() } else { s };
    if body.len() > 0 && all_digits(body) && digits_value(body) <= usize::MAX {
        Some(digits_value(body) as usize)
    } else {
        None
    }
}

/// The part of `s` after its last '-', or all of `s` when it has none
/// (the first item of `s.rsplit('-')`).
pub open spec fn last_dash_segment(s: Seq<char>) -> Seq<char> {
    if exists|i: int| 0 <= i < s.len() && s[i] == '-' {
        let k = choose|k: int|
            0 <= k < s.len() && s[k] == '-' && forall|j: int| k < j < s.len() ==> s[j] != '-';
        s.subrange(k + 1, s.len() as int)
    } else {
        s
    }
}

/// Identifier of a dispatched child task: "{workflow}-{node}" for a single
/// child, "{workflow}-{node}-{index}" for the children of a container node.
pub open spec fn single_child_id(wf: Seq<char>, node: Seq<char>) -> Seq<char> {
    wf + seq!['-'] + node
}

pub open spec fn indexed_child_id(wf: Seq<char>, node: Seq<char>, index: nat) -> Seq<char> {
    wf + seq!['-'] + node + seq!['-'] + decimal(index)
}

proof fn lemma_digit_char(d: int)
    requires
        0 <= d < 10,
    ensures
        is_digit(digit_char(d)),
        digit_value(digit_char(d)) == d,
{
}

/// The decimal rendering of a number is a non-empty run of digits whose value
/// is the number.
pub proof fn lemma_decimal_digits(n: nat)
    ensures
        all_digits(decimal(n)),
        decimal(n).len() > 0,
        digits_value(decimal(n)) == n,
    decreases n,
{
    lemma_digit_char((n % 10) as int);
    if n >= 10 {
        lemma_decimal_digits(n / 10);
        let d = decimal(n / 10);
        assert(decimal(n).drop_last() =~= d);
        assert(decimal(n).last() == digit_char((n % 10) as int));
        assert((n / 10) * 10 + n % 10 == n);
        assert(digits_value(decimal(n)) == digits_value(d) * 10 + digit_value(decimal(n).last()));
    } else {
        assert(decimal(n).drop_last() =~= Seq::<char>::empty());
        assert(digits_value(decimal(n).drop_last()) == 0);
        assert(digits_value(decimal(n)) == digit_value(decimal(n).last()));
        assert(n % 10 == n);
    }
}

proof fn lemma_digits_value_nonneg(s: Seq<char>)
    requires
        all_digits(s),
    ensures
        digits_value(s) >= 0,
    decreases s.len(),
{
    if s.len() > 0 {
        assert(all_digits(s.drop_last()));
        lemma_digits_value_nonneg(s.drop_last());
    }
}

/// A prefix of a digit run is worth no more than the whole run.
proof fn lemma_digits_value_prefix(s: Seq<char>, k: int)
    requires
        all_digits(s),
        0 <= k <= s.len(),
    ensures
        digits_value(s.take(k)) <= digits_value(s),
    decreases s.len(),
{
    if k < s.len() {
        assert(all_digits(s.drop_last()));
        lemma_digits_value_prefix(s.drop_last(), k);
        assert(s.drop_last().take(k) =~= s.take(k));
        lemma_digits_value_nonneg(s.drop_last());
        assert(is_digit(s[s.len() - 1]));
    } else {
        assert(s.take(k) =~= s);
    }
}

/// Rendering an index in decimal and parsing it back gives the index.
pub proof fn lemma_parse_decimal(n: usize)
    ensures
        usize_parse(decimal(n as nat)) == Some(n),
{
    lemma_decimal_digits(n as nat);
    let d = decimal(n as nat);
    assert(is_digit(d[0]));
}

/// Collect the characters of a string.
pub fn str_chars(s: &str) -> (v: Vec<char>)
    ensures
        v@ == s@,
{
    let n: usize = s.unicode_len();
    let mut v: Vec<char> = Vec::new();
    let mut i: usize = 0;
    while i < n
        invariant
            n == s@.len(),
            i <= n,
            v@ == s@.take(i as int),
        decreases n - i,
    {
        let c = s.get_char(i);
        v.push(c);
        i = i + 1;
        assert(v@ =~= s@.take(i as int));
    }
    assert(s@.take(n as int) =~= s@);
    v
}

/// Build a `String` from its characters with std's `chars.iter().collect()`
/// (`FromIterator<&char> for String`): the string holds exactly these
/// characters, in order.
#[verifier::external_body]
pub(crate) fn string_from_chars(chars: &Vec<char>) -> (s: String)
    ensures
        s@ == chars@,
{
    chars.iter().collect()
}

/// Append the decimal digits of `n` to `out`.
pub fn push_decimal(n: usize, out: &mut Vec<char>)
    ensures
        final(out)@ == old(out)@ + decimal(n as nat),
    decreases n,
{
    if n >= 10 {
        push_decimal(n / 10, out);
    }
    let d: usize = n % 10;
    let c: char = ((48 + d) as u8) as char;
    assert(c == digit_char(d as int));
    out.push(c);
}

/// Append the decimal digits of a `u64` to `out`.
pub fn push_decimal_u64(n: u64, out: &mut Vec<char>)
    ensures
        final(out)@ == old(out)@ + decimal(n as nat),
    decreases n,
{
    if n >= 10 {
        push_decimal_u64(n / 10, out);
    }
    let d: u64 = n % 10;
    let c: char = ((48 + d) as u8) as char;
    assert(c == digit_char(d as int));
    out.push(c);
}

/// Decimal rendering of `n`.
pub fn decimal_string(n: usize) -> (s: String)
    ensures
        s@ == decimal(n as nat),
{
    let mut v: Vec<char> = Vec::new();
    push_decimal(n, &mut v);
    assert(v@ =~= decimal(n as nat));
    string_from_chars(&v)
}

/// Append the characters of `s` to `out`.
pub fn push_str_chars(s: &str, out: &mut Vec<char>)
    ensures
        final(out)@ == old(out)@ + s@,
{
    let cs = str_chars(s);
    let mut i: usize = 0;
    let ghost start = out@;
    while i < cs.len()
        invariant
            cs@ == s@,
            i <= cs.len(),
            out@ == start + cs@.take(i as int),
        decreases cs.len() - i,
    {
        out.push(cs[i]);
        i = i + 1;
        assert(out@ =~= start + cs@.take(i as int));
    }
    assert(cs@.take(cs.len() as int) =~= cs@);
}

/// "{workflow}-{node}": the id of the one child task of a plain node.
pub fn single_child_task_id(wf: &str, node: &str) -> (s: String)
    ensures
        s@ == single_child_id(wf@, node@),
{
    let mut v: Vec<char> = Vec::new();
    push_str_chars(wf, &mut v);
    v.push('-');
    push_str_chars(node, &mut v);
    assert(v@ =~= single_child_id(wf@, node@));
    string_from_chars(&v)
}

/// "{workflow}-{node}-{index}": the id of a container node's child task.
pub fn indexed_child_task_id(wf: &str, node: &str, index: usize) -> (s: String)
    ensures
        s@ == indexed_child_id(wf@, node@, index as nat),
{
    let mut v: Vec<char> = Vec::new();
    push_str_chars(wf, &mut v);
    v.push('-');
    push_str_chars(node, &mut v);
    v.push('-');
    push_decimal(index, &mut v);
    assert(v@ =~= indexed_child_id(wf@, node@, index as nat));
    string_from_chars(&v)
}

/// `s.parse::<usize>()` on the characters `s[from..]`.
pub fn parse_usize_from(s: &Vec<char>, from: usize) -> (r: Option<usize>)
    requires
        from <= s.len(),
    ensures
        r == usize_parse(s@.subrange(from as int, s@.len() as int)),
{
    let ghost whole = s@.subrange(from as int, s@.len() as int);
    let mut start: usize = from;
    if start < s.len() && s[start] == '+' {
        start = start + 1;
    }
    let ghost body = s@.subrange(start as int, s@.len() as int);
    assert(body =~= (if whole.len() > 0 && whole[0] == '+' { whole.drop_first() } else { whole }));
    if start == s.len() {
        return None;
    }
    let mut value: usize = 0;
    let mut i: usize = start;
    while i < s.len()
        invariant
            start <= i <= s.len(),
            start < s.len(),
            body == s@.subrange(start as int, s@.len() as int),
            whole == s@.subrange(from as int, s@.len() as int),
            body == (if whole.len() > 0 && whole[0] == '+' { whole.drop_first() } else { whole }),
            all_digits(body.take(i - start)),
            value == digits_value(body.take(i - start)),
        decreases s.len() - i,
    {
        let c = s[i];
        assert(body[i - start] == c);
        if !('0' <= c && c <= '9') {
            assert(!all_digits(body));
            return None;
        }
        let d: usize = (c as u32 - 48) as usize;
        assert(body.take(i - start + 1).drop_last() =~= body.take(i - start));
        if value > (usize::MAX - d) / 10 {
            proof {
                assert(body.take(i - start + 1).last() == c);
                assert(digits_value(body.take(i - start + 1)) == value * 10 + d);
                assert(value * 10 + d > usize::MAX) by (nonlinear_arith)
                    requires value > (usize::MAX - d) / 10, d <= 9;
                if all_digits(body) {
                    lemma_digits_value_prefix(body, i - start + 1);
                }
            }
            return None;
        }
        proof {
            assert(value * 10 + d <= usize::MAX) by (nonlinear_arith)
                requires value <= (usize::MAX - d) / 10, d <= 9;
        }
        value = value * 10 + d;
        i = i + 1;
        assert(all_digits(body.take(i - start)));
    }
    assert(body.take(i - start) =~= body);
    Some(value)
}

/// Index of the last '-' in `s`, if any.
pub fn last_dash(s: &Vec<char>) -> (r: Option<usize>)
    ensures
        match r {
            Some(k) => k < s.len() && s@[k as int] == '-' && forall|j: int| k < j < s.len() ==> s@[j] != '-',
            None => forall|j: int| 0 <= j < s.len() ==> s@[j] != '-',
        },
{
    let mut i: usize = s.len();
    while i > 0
        invariant
            i <= s.len(),
            forall|j: int| i <= j < s.len() ==> s@[j] != '-',
        decreases i,
    {
        if s[i - 1] == '-' {
            return Some(i - 1);
        }
        i = i - 1;
    }
    None
}

/// `s.rsplit('-').next()` parsed as `usize`: the index a child task id ends in.
pub fn trailing_index(s: &str) -> (r: Option<usize>)
    ensures
        r == usize_parse(last_dash_segment(s@)),
{
    let v = str_chars(s);
    match last_dash(&v) {
        Some(k) => {
            proof {
                assert(exists|i: int| 0 <= i < s@.len() && s@[i] == '-') by {
                    assert(s@[k as int] == '-');
                }
                let kk = choose|kk: int|
                    0 <= kk < s@.len() && s@[kk] == '-' && forall|j: int| kk < j < s@.len() ==> s@[j] != '-';
                if kk < k {
                    assert(s@[k as int] != '-');
                } else if kk > k {
                    assert(s@[kk] != '-');
                }
                assert(kk == k);
            }
            parse_usize_from(&v, k + 1)
        },
        None => {
            assert(v@.subrange(0, v@.len() as int) =~= v@);
            parse_usize_from(&v, 0)
        },
    }
}

/// A container child's id always resolves back to its index.
pub proof fn lemma_indexed_child_id_index(wf: Seq<char>, node: Seq<char>, index: usize)
    ensures
        usize_parse(last_dash_segment(indexed_child_id(wf, node, index as nat))) == Some(index),
{
    let d = decimal(index as nat);
    lemma_decimal_digits(index as nat);
    let s = indexed_child_id(wf, node, index as nat);
    let k: int = (wf.len() + 1 + node.len()) as int;
    assert(s[k] == '-');
    assert forall|j: int| k < j < s.len() implies s[j] != '-' by {
        assert(s[j] == d[j - k - 1]);
        assert(is_digit(d[j - k - 1]));
    }
    assert(exists|i: int| 0 <= i < s.len() && s[i] == '-');
    let kk = choose|kk: int| 0 <= kk < s.len() && s[kk] == '-' && forall|j: int| kk < j < s.len() ==> s[j] != '-';
    if kk < k {
        assert(s[k] != '-');
    } else if kk > k {
        assert(s[kk] != '-');
    }
    assert(s.subrange(k + 1, s.len() as int) =~= d);
    lemma_parse_decimal(index);
}

/// Lowercase hex digit for `d` (0..=15).
pub open spec fn hex_digit(d: int) -> char {
    if d < 10 { (48 + d) as char } else { (87 + d) as char }
}

/// Two lowercase hex digits per byte (`format!("{:02x}", b)` for each byte).
pub open spec fn hex_lower(bytes: Seq<u8>) -> Seq<char>
    decreases bytes.len(),
{
    if bytes.len() == 0 {
        Seq::empty()
    } else {
        hex_lower(bytes.drop_last()) + seq![hex_digit((bytes.last() / 16) as int), hex_digit((bytes.last() % 16) as int)]
    }
}

fn hex_char(d: u8) -> (c: char)
    requires
        d < 16,
    ensures
        c == hex_digit(d as int),
{
    if d < 10 {
        ((48 + d) as u8) as char
    } else {
        ((87 + d) as u8) as char
    }
}

/// Lowercase hex rendering of bytes.
pub fn hex_lower_string(bytes: &Vec<u8>) -> (s: String)
    ensures
        s@ == hex_lower(bytes@),
{
    let mut v: Vec<char> = Vec::new();
    let mut i: usize = 0;
    while i < bytes.len()
        invariant
            i <= bytes.len(),
            v@ == hex_lower(bytes@.take(i as int)),
        decreases bytes.len() - i,
    {
        let b = bytes[i];
        v.push(hex_char(b / 16));
        v.push(hex_char(b % 16));
        proof {
            let t = bytes@.take(i + 1);
            assert(t.drop_last() =~= bytes@.take(i as int));
            assert(t.last() == b);
        }
        i = i + 1;
        assert(v@ =~= hex_lower(bytes@.take(i as int)));
    }
    assert(bytes@.take(bytes.len() as int) =~= bytes@);
    string_from_chars(&v)
}

/// `hay` holds `needle` as a contiguous run.
pub open spec fn contains_run(hay: Seq<char>, needle: Seq<char>) -> bool {
    exists|i: int| 0 <= i && i + needle.len() <= hay.len() && #[trigger] hay.subrange(i, i + needle.len()) == needle
}

/// `hay.contains(needle)` on strings.
pub fn str_contains(hay: &str, needle: &str) -> (r: bool)
    ensures
        r == contains_run(hay@, needle@),
{
    let h = str_chars(hay);
    let n = str_chars(needle);
    if n.len() > h.len() {
        return false;
    }
    let mut i: usize = 0;
    while i <= h.len() - n.len()
        invariant
            h@ == hay@,
            n@ == needle@,
            n.len() <= h.len(),
            i <= h.len() - n.len() + 1,
            forall|p: int| 0 <= p < i ==> #[trigger] h@.subrange(p, p + n@.len()) != n@,
        decreases h.len() - i,
    {
        let mut j: usize = 0;
        let mut matched: bool = true;
        while j < n.len()
            invariant
                i + n.len() <= h.len(),
                j <= n.len(),
                matched == (forall|q: int| 0 <= q < j ==> h@[i + q] == n@[q]),
            decreases n.len() - j,
        {
            if h[i + j] != n[j] {
                matched = false;
            }
            j = j + 1;
        }
        if matched {
            assert(h@.subrange(i as int, i + n@.len()) =~= n@);
            return true;
        }
        proof {
            let p = i as int;
            if h@.subrange(p, p + n@.len()) == n@ {
                assert forall|q: int| 0 <= q < n.len() implies h@[i + q] == n@[q] by {
                    assert(h@.subrange(p, p + n@.len())[q] == h@[p + q]);
                }
            }
        }
        i = i + 1;
    }
    false
}

} // verus!
