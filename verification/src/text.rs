//! Text primitives on sequences of characters: whitespace trimming,
//! substring search, decimal numbers and UTF-8 length.
use vstd::prelude::*;

verus! {

// ─── Whitespace ──────────────────────────────────────────────────

/// The Unicode `White_Space` property, the set that `char::is_whitespace` and
/// `str::trim` go by.
pub open spec fn is_white(c: char) -> bool {
    let n = c as u32;
    (0x9 <= n && n <= 0xd) || n == 0x20 || n == 0x85 || n == 0xa0 || n == 0x1680 || (0x2000
        <= n && n <= 0x200a) || n == 0x2028 || n == 0x2029 || n == 0x202f || n == 0x205f || n
        == 0x3000
}

pub fn is_white_char(c: char) -> (r: bool)
    ensures
        r == is_white(c),
{
    let n = c as u32;
    (0x9 <= n && n <= 0xd) || n == 0x20 || n == 0x85 || n == 0xa0 || n == 0x1680 || (0x2000
        <= n && n <= 0x200a) || n == 0x2028 || n == 0x2029 || n == 0x202f || n == 0x205f || n
        == 0x3000
}

/// Number of whitespace characters at the front of `s`.
pub open spec fn lead_ws(s: Seq<char>) -> nat
    decreases s.len(),
{
    if s.len() > 0 && is_white(s[0]) {
        1 + lead_ws(s.drop_first())
    } else {
        0
    }
}

/// Number of whitespace characters at the back of `s`.
pub open spec fn trail_ws(s: Seq<char>) -> nat
    decreases s.len(),
{
    if s.len() > 0 && is_white(s.last()) {
        1 + trail_ws(s.drop_last())
    } else {
        0
    }
}

pub open spec fn trim_start(s: Seq<char>) -> Seq<char> {
    s.skip(lead_ws(s) as int)
}

pub open spec fn trim_end(s: Seq<char>) -> Seq<char> {
    s.take(s.len() - trail_ws(s))
}

/// `s` without whitespace at either end, as `str::trim` gives it.
pub open spec fn trim(s: Seq<char>) -> Seq<char> {
    trim_end(trim_start(s))
}

pub proof fn lemma_lead_ws_bound(s: Seq<char>)
    ensures
        lead_ws(s) <= s.len(),
        forall|k: int| 0 <= k < lead_ws(s) ==> is_white(#[trigger] s[k]),
        lead_ws(s) < s.len() ==> !is_white(s[lead_ws(s) as int]),
    decreases s.len(),
{
    if s.len() > 0 && is_white(s[0]) {
        lemma_lead_ws_bound(s.drop_first());
        assert forall|k: int| 0 <= k < lead_ws(s) implies is_white(#[trigger] s[k]) by {
            if k > 0 {
                assert(s[k] == s.drop_first()[k - 1]);
            }
        }
        if lead_ws(s) < s.len() {
            assert(s[lead_ws(s) as int] == s.drop_first()[lead_ws(s.drop_first()) as int]);
        }
    }
}

pub proof fn lemma_trail_ws_bound(s: Seq<char>)
    ensures
        trail_ws(s) <= s.len(),
        trail_ws(s) < s.len() ==> !is_white(s[s.len() - trail_ws(s) - 1]),
    decreases s.len(),
{
    if s.len() > 0 && is_white(s.last()) {
        lemma_trail_ws_bound(s.drop_last());
        if trail_ws(s) < s.len() {
            assert(s[s.len() - trail_ws(s) - 1] == s.drop_last()[s.drop_last().len() - trail_ws(
                s.drop_last(),
            ) - 1]);
        }
    }
}

/// The trimmed text is a run of the text: it starts after the leading
/// whitespace.
pub proof fn lemma_trim_is_run(s: Seq<char>)
    ensures
        lead_ws(s) + trim(s).len() <= s.len(),
        trim(s) =~= s.subrange(lead_ws(s) as int, (lead_ws(s) + trim(s).len()) as int),
{
    lemma_lead_ws_bound(s);
    lemma_trail_ws_bound(trim_start(s));
}

/// Trimming twice trims no more than trimming once.
pub proof fn lemma_trim_settled(s: Seq<char>)
    ensures
        trim(trim(s)) == trim(s),
{
    lemma_lead_ws_bound(s);
    let t = trim_start(s);
    lemma_trail_ws_bound(t);
    let r = trim(s);
    if r.len() > 0 {
        assert(r[0] == t[0]);
        assert(t[0] == s[lead_ws(s) as int]);
        assert(!is_white(r[0]));
        assert(r.last() == t[t.len() - trail_ws(t) - 1]);
        assert(!is_white(r.last()));
    }
    assert(lead_ws(r) == 0);
    assert(r.skip(0) =~= r);
    assert(trim_start(r) == r);
    assert(trail_ws(r) == 0);
    assert(r.take(r.len() as int) =~= r);
}

/// Whitespace count from position `i` on, unfolded one step.
proof fn lemma_lead_ws_step(s: Seq<char>, i: int)
    requires
        0 <= i < s.len(),
    ensures
        is_white(s[i]) ==> lead_ws(s.skip(i)) == 1 + lead_ws(s.skip(i + 1)),
        !is_white(s[i]) ==> lead_ws(s.skip(i)) == 0,
{
    assert(s.skip(i)[0] == s[i]);
    assert(s.skip(i).drop_first() =~= s.skip(i + 1));
}

proof fn lemma_trail_ws_step(s: Seq<char>, j: int)
    requires
        0 < j <= s.len(),
    ensures
        is_white(s[j - 1]) ==> trail_ws(s.take(j)) == 1 + trail_ws(s.take(j - 1)),
        !is_white(s[j - 1]) ==> trail_ws(s.take(j)) == 0,
{
    assert(s.take(j).last() == s[j - 1]);
    assert(s.take(j).drop_last() =~= s.take(j - 1));
}

/// Copy of `v[lo..hi]`.
pub fn subrange(v: &Vec<char>, lo: usize, hi: usize) -> (r: Vec<char>)
    requires
        lo <= hi <= v.len(),
    ensures
        r@ == v@.subrange(lo as int, hi as int),
{
    let mut r: Vec<char> = Vec::new();
    let mut i: usize = lo;
    while i < hi
        invariant
            lo <= i <= hi <= v.len(),
            r@ == v@.subrange(lo as int, i as int),
        decreases hi - i,
    {
        r.push(v[i]);
        i = i + 1;
        assert(r@ =~= v@.subrange(lo as int, i as int));
    }
    r
}

/// Index of the first character of `s` that is not whitespace, or `s.len()`.
pub fn lead_ws_count(s: &Vec<char>) -> (n: usize)
    ensures
        n == lead_ws(s@),
{
    let mut i: usize = 0;
    assert(s@.skip(0) =~= s@);
    while i < s.len() && is_white_char(s[i])
        invariant
            i <= s.len(),
            lead_ws(s@) == i + lead_ws(s@.skip(i as int)),
        decreases s.len() - i,
    {
        proof {
            lemma_lead_ws_step(s@, i as int);
        }
        i = i + 1;
    }
    proof {
        if i < s.len() {
            lemma_lead_ws_step(s@, i as int);
        } else {
            assert(s@.skip(i as int).len() == 0);
        }
    }
    i
}

pub fn trail_ws_count(s: &Vec<char>) -> (n: usize)
    ensures
        n == trail_ws(s@),
{
    let mut j: usize = s.len();
    assert(s@.take(j as int) =~= s@);
    while j > 0 && is_white_char(s[j - 1])
        invariant
            j <= s.len(),
            trail_ws(s@) == (s.len() - j) + trail_ws(s@.take(j as int)),
        decreases j,
    {
        proof {
            lemma_trail_ws_step(s@, j as int);
        }
        j = j - 1;
    }
    proof {
        if j > 0 {
            lemma_trail_ws_step(s@, j as int);
        } else {
            assert(s@.take(0).len() == 0);
        }
    }
    s.len() - j
}

pub fn trim_start_chars(s: &Vec<char>) -> (r: Vec<char>)
    ensures
        r@ == trim_start(s@),
{
    let n = lead_ws_count(s);
    proof {
        lemma_lead_ws_bound(s@);
    }
    let r = subrange(s, n, s.len());
    assert(r@ =~= trim_start(s@));
    r
}

pub fn trim_chars(s: &Vec<char>) -> (r: Vec<char>)
    ensures
        r@ == trim(s@),
{
    let t = trim_start_chars(s);
    let m = trail_ws_count(&t);
    proof {
        lemma_trail_ws_bound(t@);
    }
    let r = subrange(&t, 0, t.len() - m);
    assert(r@ =~= trim(s@));
    r
}

// ─── Search ──────────────────────────────────────────────────────

/// `pat` stands in `s` at position `i`.
pub open spec fn occurs_at(s: Seq<char>, pat: Seq<char>, i: int) -> bool {
    0 <= i && i + pat.len() <= s.len() && s.subrange(i, i + pat.len()) =~= pat
}

/// The first position at or after `i` where `pat` stands in `s`.
pub open spec fn find_from(s: Seq<char>, pat: Seq<char>, i: nat) -> Option<nat>
    decreases s.len() + 1 - i,
{
    if i + pat.len() > s.len() {
        None
    } else if occurs_at(s, pat, i as int) {
        Some(i)
    } else {
        find_from(s, pat, i + 1)
    }
}

/// The first position where `pat` stands in `s`, as `str::find` gives it
/// (counted in characters).
pub open spec fn find(s: Seq<char>, pat: Seq<char>) -> Option<nat> {
    find_from(s, pat, 0)
}

/// `s` holds `pat` somewhere.
pub open spec fn contains(s: Seq<char>, pat: Seq<char>) -> bool {
    find(s, pat) is Some
}

fn matches_at(s: &Vec<char>, pat: &Vec<char>, i: usize) -> (r: bool)
    requires
        i + pat.len() <= s.len(),
    ensures
        r == occurs_at(s@, pat@, i as int),
{
    let mut k: usize = 0;
    while k < pat.len()
        invariant
            k <= pat.len(),
            i + pat.len() <= s.len(),
            forall|m: int| 0 <= m < k ==> s@[i + m] == pat@[m],
        decreases pat.len() - k,
    {
        if s[i + k] != pat[k] {
            assert(s@.subrange(i as int, i + pat.len())[k as int] != pat@[k as int]);
            return false;
        }
        k = k + 1;
    }
    assert(s@.subrange(i as int, i + pat.len()) =~= pat@);
    true
}

/// Position of the first occurrence of `pat` in `s`.
pub fn find_chars(s: &Vec<char>, pat: &Vec<char>) -> (r: Option<usize>)
    ensures
        match r {
            Some(k) => find(s@, pat@) == Some(k as nat),
            None => find(s@, pat@) is None,
        },
{
    if pat.len() > s.len() {
        return None;
    }
    let mut i: usize = 0;
    while i <= s.len() - pat.len()
        invariant
            pat.len() <= s.len(),
            find(s@, pat@) == find_from(s@, pat@, i as nat),
        decreases s.len() - i,
    {
        if matches_at(s, pat, i) {
            return Some(i);
        }
        i = i + 1;
    }
    None
}

/// Position of the first occurrence of the character `c` in `s`.
pub fn find_char(s: &Vec<char>, c: char) -> (r: Option<usize>)
    ensures
        match r {
            Some(k) => find(s@, seq![c]) == Some(k as nat),
            None => find(s@, seq![c]) is None,
        },
{
    let mut pat: Vec<char> = Vec::new();
    pat.push(c);
    assert(pat@ =~= seq![c]);
    find_chars(s, &pat)
}

pub fn contains_chars(s: &Vec<char>, pat: &Vec<char>) -> (r: bool)
    ensures
        r == contains(s@, pat@),
{
    find_chars(s, pat).is_some()
}

pub proof fn lemma_find_from_found(s: Seq<char>, pat: Seq<char>, i: nat, k: nat)
    requires
        find_from(s, pat, i) == Some(k),
    ensures
        i <= k,
        occurs_at(s, pat, k as int),
        k + pat.len() <= s.len(),
    decreases s.len() + 1 - i,
{
    if i + pat.len() > s.len() {
    } else if occurs_at(s, pat, i as int) {
    } else {
        lemma_find_from_found(s, pat, i + 1, k);
    }
}

// ─── Decimal numbers ─────────────────────────────────────────────

pub open spec fn is_digit(c: char) -> bool {
    '0' <= c && c <= '9'
}

pub open spec fn digit_value(c: char) -> int {
    (c as u32) - ('0' as u32)
}

pub open spec fn digit_char(d: int) -> char
    recommends
        0 <= d < 10,
{
    (('0' as u32) + d) as char
}

/// Value of a string of decimal digits (0 for the empty string).
pub open spec fn digits_value(s: Seq<char>) -> nat
    decreases s.len(),
{
    if s.len() == 0 {
        0
    } else {
        (10 * digits_value(s.drop_last()) + digit_value(s.last())) as nat
    }
}

pub open spec fn all_digits(s: Seq<char>) -> bool {
    forall|i: int| 0 <= i < s.len() ==> is_digit(#[trigger] s[i])
}

/// What `i32::from_str` returns: an optional `+` or `-`, then one or more
/// decimal digits, with the value within `i32`.
pub open spec fn parse_i32(s: Seq<char>) -> Option<i32> {
    let neg = s.len() > 0 && s[0] == '-';
    let signed = s.len() > 0 && (s[0] == '-' || s[0] == '+');
    let d = if signed {
        s.drop_first()
    } else {
        s
    };
    if d.len() == 0 || !all_digits(d) {
        None
    } else {
        let v: int = if neg {
            -digits_value(d)
        } else {
            digits_value(d) as int
        };
        if i32::MIN <= v <= i32::MAX {
            Some(v as i32)
        } else {
            None
        }
    }
}

/// What `u64::from_str` (and the narrower unsigned types) read: an optional
/// `+`, then one or more decimal digits. The value is not yet bounded.
pub open spec fn parse_natural(s: Seq<char>) -> Option<nat> {
    let d = if s.len() > 0 && s[0] == '+' {
        s.drop_first()
    } else {
        s
    };
    if d.len() == 0 || !all_digits(d) {
        None
    } else {
        Some(digits_value(d))
    }
}

/// What the `from_str` of an unsigned type whose largest value is `max` returns.
pub open spec fn parse_unsigned(s: Seq<char>, max: nat) -> Option<nat> {
    match parse_natural(s) {
        Some(v) => if v <= max {
            Some(v)
        } else {
            None
        },
        None => None,
    }
}

proof fn lemma_digits_value_push(s: Seq<char>, c: char)
    requires
        is_digit(c),
    ensures
        digits_value(s.push(c)) == 10 * digits_value(s) + digit_value(c),
{
    assert(s.push(c).drop_last() =~= s);
}

/// A longer run of digits never has a smaller value.
proof fn lemma_digits_value_prefix(s: Seq<char>, k: int)
    requires
        0 <= k <= s.len(),
        all_digits(s),
    ensures
        digits_value(s.take(k)) <= digits_value(s),
    decreases s.len() - k,
{
    if k < s.len() {
        lemma_digits_value_prefix(s, k + 1);
        assert(s.take(k + 1) =~= s.take(k).push(s[k]));
        lemma_digits_value_push(s.take(k), s[k]);
        assert(is_digit(s[k]));
    } else {
        assert(s.take(k) =~= s);
    }
}

/// Value of the digits `s[from..]`, or `None` when they are not all digits,
/// there are none, or the value exceeds `limit`.
fn digits_up_to(s: &Vec<char>, from: usize, limit: u64) -> (r: Option<u64>)
    requires
        from <= s.len(),
    ensures
        match r {
            Some(v) => {
                &&& s@.skip(from as int).len() > 0
                &&& all_digits(s@.skip(from as int))
                &&& v == digits_value(s@.skip(from as int))
                &&& v <= limit
            },
            None => s@.skip(from as int).len() == 0 || !all_digits(s@.skip(from as int))
                || digits_value(s@.skip(from as int)) > limit,
        },
{
    let ghost d = s@.skip(from as int);
    if from == s.len() {
        return None;
    }
    let mut i: usize = from;
    let mut acc: u64 = 0;
    while i < s.len()
        invariant
            from <= i <= s.len(),
            d == s@.skip(from as int),
            all_digits(d.take(i - from)),
            acc == digits_value(d.take(i - from)),
            acc <= limit,
        decreases s.len() - i,
    {
        let c = s[i];
        proof {
            assert(d[i - from] == c);
            assert(d.take(i - from + 1) =~= d.take(i - from).push(c));
        }
        if !('0' <= c && c <= '9') {
            proof {
                assert(!is_digit(d[i - from]));
            }
            return None;
        }
        proof {
            lemma_digits_value_push(d.take(i - from), c);
        }
        let dv = (c as u32 - '0' as u32) as u64;
        let next: u128 = acc as u128 * 10 + dv as u128;
        if next > limit as u128 {
            proof {
                assert(all_digits(d.take(i - from + 1))) by {
                    assert forall|m: int| 0 <= m < i - from + 1 implies is_digit(
                        #[trigger] d.take(i - from + 1)[m],
                    ) by {
                        if m < i - from {
                            assert(d.take(i - from + 1)[m] == d.take(i - from)[m]);
                        }
                    }
                }
                if all_digits(d) {
                    lemma_digits_value_prefix(d, i - from + 1);
                }
            }
            return None;
        }
        acc = next as u64;
        i = i + 1;
        proof {
            assert(all_digits(d.take(i - from))) by {
                assert forall|m: int| 0 <= m < i - from implies is_digit(
                    #[trigger] d.take(i - from)[m],
                ) by {
                    if m < i - from - 1 {
                        assert(d.take(i - from)[m] == d.take(i - from - 1)[m]);
                    }
                }
            }
        }
    }
    assert(d.take(i - from) =~= d);
    Some(acc)
}

/// `i32::from_str` on a sequence of characters.
pub fn parse_i32_chars(s: &Vec<char>) -> (r: Option<i32>)
    ensures
        r == parse_i32(s@),
{
    let signed = s.len() > 0 && (s[0] == '-' || s[0] == '+');
    let neg = s.len() > 0 && s[0] == '-';
    let from: usize = if signed {
        1
    } else {
        0
    };
    proof {
        if signed {
            assert(s@.skip(1) =~= s@.drop_first());
        } else {
            assert(s@.skip(0) =~= s@);
        }
    }
    let limit: u64 = if neg {
        2147483648
    } else {
        2147483647
    };
    match digits_up_to(s, from, limit) {
        Some(v) => {
            if neg {
                if v == 2147483648 {
                    Some(i32::MIN)
                } else {
                    Some(-(v as i32))
                }
            } else {
                Some(v as i32)
            }
        },
        None => None,
    }
}

/// The `from_str` of an unsigned integer type whose largest value is `max`.
pub fn parse_unsigned_chars(s: &Vec<char>, max: u64) -> (r: Option<u64>)
    ensures
        match r {
            Some(v) => parse_unsigned(s@, max as nat) == Some(v as nat),
            None => parse_unsigned(s@, max as nat) is None,
        },
{
    let from: usize = if s.len() > 0 && s[0] == '+' {
        1
    } else {
        0
    };
    proof {
        if from == 1 {
            assert(s@.skip(1) =~= s@.drop_first());
        } else {
            assert(s@.skip(0) =~= s@);
        }
    }
    digits_up_to(s, from, max)
}

/// Decimal digits of `n`, most significant first, without leading zeros.
pub open spec fn decimal(n: nat) -> Seq<char>
    decreases n,
{
    if n < 10 {
        seq![digit_char(n as int)]
    } else {
        decimal(n / 10).push(digit_char((n % 10) as int))
    }
}

/// `n` as `{}` formats it.
pub open spec fn int_text(n: int) -> Seq<char> {
    if n < 0 {
        seq!['-'] + decimal((-n) as nat)
    } else {
        decimal(n as nat)
    }
}

/// `s` padded with leading zeros to at least `width` characters.
pub open spec fn zero_pad(s: Seq<char>, width: nat) -> Seq<char> {
    if s.len() < width {
        Seq::new((width - s.len()) as nat, |i: int| '0') + s
    } else {
        s
    }
}

pub fn decimal_chars(n: u64) -> (r: Vec<char>)
    ensures
        r@ == decimal(n as nat),
    decreases n,
{
    if n < 10 {
        let mut r: Vec<char> = Vec::new();
        r.push(((n as u32) + ('0' as u32)) as u8 as char);
        proof {
            assert(r@ =~= decimal(n as nat));
        }
        r
    } else {
        let mut r = decimal_chars(n / 10);
        r.push((((n % 10) as u32) + ('0' as u32)) as u8 as char);
        proof {
            assert(r@ =~= decimal(n as nat));
        }
        r
    }
}

pub fn int_chars(n: i64) -> (r: Vec<char>)
    ensures
        r@ == int_text(n as int),
{
    if n < 0 {
        let m: u64 = if n == i64::MIN {
            9223372036854775808
        } else {
            (-n) as u64
        };
        let d = decimal_chars(m);
        let mut r: Vec<char> = Vec::new();
        r.push('-');
        append_chars(&mut r, &d);
        proof {
            assert(r@ =~= int_text(n as int));
        }
        r
    } else {
        decimal_chars(n as u64)
    }
}

pub fn zero_pad_chars(s: &Vec<char>, width: usize) -> (r: Vec<char>)
    ensures
        r@ == zero_pad(s@, width as nat),
{
    let mut r: Vec<char> = Vec::new();
    if s.len() < width {
        let k = width - s.len();
        let mut i: usize = 0;
        while i < k
            invariant
                i <= k,
                r@ == Seq::new(i as nat, |j: int| '0'),
            decreases k - i,
        {
            r.push('0');
            i = i + 1;
            assert(r@ =~= Seq::new(i as nat, |j: int| '0'));
        }
    }
    let ghost pre = r@;
    append_chars(&mut r, s);
    proof {
        if s.len() < width {
            assert(r@ =~= zero_pad(s@, width as nat));
        } else {
            assert(pre.len() == 0);
            assert(r@ =~= zero_pad(s@, width as nat));
        }
    }
    r
}

// ─── Building text ───────────────────────────────────────────────

pub fn append_chars(r: &mut Vec<char>, s: &Vec<char>)
    ensures
        final(r)@ == old(r)@ + s@,
{
    let ghost start = r@;
    let mut i: usize = 0;
    while i < s.len()
        invariant
            i <= s.len(),
            r@ == start + s@.take(i as int),
        decreases s.len() - i,
    {
        r.push(s[i]);
        i = i + 1;
        assert(r@ =~= start + s@.take(i as int));
    }
    assert(s@.take(i as int) =~= s@);
}

/// Characters of a `str`.
pub fn chars_of(s: &str) -> (v: Vec<char>)
    ensures
        v@ == s@,
{
    broadcast use vstd::string::axiom_spec_iter;
    let mut v: Vec<char> = Vec::new();
    for c in it: s.chars()
        invariant
            it.seq() == s@,
            v@ == s@.take(it.index() as int),
    {
        v.push(c);
        proof {
            assert(v@ =~= s@.take(it.index() + 1));
        }
    }
    assert(v@ =~= s@);
    v
}

/// A `String` holding the characters of `v`, made by std's
/// `String::from_iter` over characters; the contract claims that the string
/// holds exactly those characters, in order.
#[verifier::external_body]
pub fn string_of(v: &Vec<char>) -> (s: String)
    ensures
        s@ == v@,
{
    String::from_iter(v.iter())
}

// ─── UTF-8 length ────────────────────────────────────────────────

/// Bytes that `c` takes in UTF-8.
pub open spec fn utf8_width(c: char) -> nat {
    let n = c as u32;
    if n < 0x80 {
        1
    } else if n < 0x800 {
        2
    } else if n < 0x10000 {
        3
    } else {
        4
    }
}

/// Bytes that `s` takes in UTF-8, as `str::len` counts them.
pub open spec fn utf8_len(s: Seq<char>) -> nat
    decreases s.len(),
{
    if s.len() == 0 {
        0
    } else {
        utf8_len(s.drop_last()) + utf8_width(s.last())
    }
}

/// Whether `s` takes fewer than `n` bytes in UTF-8.
pub fn utf8_shorter_than(s: &Vec<char>, n: usize) -> (r: bool)
    ensures
        r == (utf8_len(s@) < n),
{
    if n == 0 {
        return false;
    }
    let mut total: usize = 0;
    let mut i: usize = 0;
    assert(s@.take(0).len() == 0);
    while i < s.len()
        invariant
            i <= s.len(),
            total == utf8_len(s@.take(i as int)),
            total < n,
        decreases s.len() - i,
    {
        let c = s[i];
        let cn = c as u32;
        let w: usize = if cn < 0x80 {
            1
        } else if cn < 0x800 {
            2
        } else if cn < 0x10000 {
            3
        } else {
            4
        };
        proof {
            assert(s@.take(i + 1).drop_last() =~= s@.take(i as int));
            assert(s@.take(i + 1).last() == c);
        }
        if w >= n - total {
            proof {
                lemma_utf8_len_prefix(s@, i + 1);
            }
            return false;
        }
        total = total + w;
        i = i + 1;
    }
    assert(s@.take(i as int) =~= s@);
    true
}

proof fn lemma_utf8_len_prefix(s: Seq<char>, k: int)
    requires
        0 <= k <= s.len(),
    ensures
        utf8_len(s.take(k)) <= utf8_len(s),
    decreases s.len() - k,
{
    if k < s.len() {
        lemma_utf8_len_prefix(s, k + 1);
        assert(s.take(k + 1).drop_last() =~= s.take(k));
    } else {
        assert(s.take(k) =~= s);
    }
}

} // verus!
