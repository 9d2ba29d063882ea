//! Character and string helpers shared by the selection protocol: case
//! folding, trimming, decimal parsing and formatting, substring search.
//!
//! Alias matching folds the ASCII letters, which is all the alias tables
//! hold. Anime names are Unicode text, so name matching folds them through
//! [`fold_lower`], whose result [`lower_of`] names.

use vstd::prelude::*;
use vstd::string::StrSliceExecFns;
use vstd::string::StringExecFns;

verus! {

/// ASCII case folding of one character.
pub open spec fn lower_char(c: char) -> char {
    if 'A' <= c && c <= 'Z' {
        ((c as u8) + 32) as char
    } else {
        c
    }
}

/// ASCII case folding of a character sequence.
pub open spec fn lower_seq(s: Seq<char>) -> Seq<char> {
    s.map_values(|c: char| lower_char(c))
}

fn lower_char_exec(c: char) -> (r: char)
    ensures
        r == lower_char(c),
{
    if 'A' <= c && c <= 'Z' {
        ((c as u8) + 32) as char
    } else {
        c
    }
}

/// The characters of a string, in order.
pub fn chars_of(s: &str) -> (v: Vec<char>)
    ensures
        v@ == s@,
{
    let n = s.unicode_len();
    let mut v: Vec<char> = Vec::new();
    let mut i: usize = 0;
    while i < n
        invariant
            i <= n,
            n == s@.len(),
            v@ == s@.subrange(0, i as int),
        decreases n - i,
    {
        let c = s.get_char(i);
        v.push(c);
        proof {
            assert(v@ =~= s@.subrange(0, i + 1 as int));
        }
        i += 1;
    }
    proof {
        assert(v@ =~= s@);
    }
    v
}

/// Whether two strings are equal under ASCII case folding.
pub fn eq_ignore_case(a: &str, b: &str) -> (r: bool)
    ensures
        r == (lower_seq(a@) == lower_seq(b@)),
{
    let av = chars_of(a);
    let bv = chars_of(b);
    if av.len() != bv.len() {
        proof {
            assert(lower_seq(a@).len() == a@.len());
            assert(lower_seq(b@).len() == b@.len());
        }
        return false;
    }
    let n = av.len();
    let mut i: usize = 0;
    while i < n
        invariant
            i <= n,
            n == av.len() == bv.len(),
            av@ == a@,
            bv@ == b@,
            forall|k: int| 0 <= k < i ==> lower_char(a@[k]) == lower_char(b@[k]),
        decreases n - i,
    {
        if lower_char_exec(av[i]) != lower_char_exec(bv[i]) {
            proof {
                assert(lower_seq(a@)[i as int] != lower_seq(b@)[i as int]);
            }
            return false;
        }
        i += 1;
    }
    proof {
        assert(lower_seq(a@) =~= lower_seq(b@));
    }
    true
}

/// Whether two strings hold the same characters.
pub fn str_eq(a: &str, b: &str) -> (r: bool)
    ensures
        r == (a@ == b@),
{
    let av = chars_of(a);
    let bv = chars_of(b);
    if av.len() != bv.len() {
        return false;
    }
    let n = av.len();
    let mut i: usize = 0;
    while i < n
        invariant
            i <= n,
            n == av.len() == bv.len(),
            av@ == a@,
            bv@ == b@,
            forall|k: int| 0 <= k < i ==> a@[k] == b@[k],
        decreases n - i,
    {
        if av[i] != bv[i] {
            return false;
        }
        i += 1;
    }
    proof {
        assert(a@ =~= b@);
    }
    true
}

/// The whitespace characters that trimming strips.
pub open spec fn is_space(c: char) -> bool {
    c == ' ' || c == '\t' || c == '\n' || c == '\r'
}

/// A sequence with its leading whitespace stripped.
pub open spec fn trim_front(s: Seq<char>) -> Seq<char>
    decreases s.len(),
{
    if s.len() > 0 && is_space(s[0]) {
        trim_front(s.subrange(1, s.len() as int))
    } else {
        s
    }
}

/// A sequence with its trailing whitespace stripped.
pub open spec fn trim_back(s: Seq<char>) -> Seq<char>
    decreases s.len(),
{
    if s.len() > 0 && is_space(s[s.len() - 1]) {
        trim_back(s.subrange(0, s.len() - 1))
    } else {
        s
    }
}

/// A sequence with whitespace stripped at both ends.
pub open spec fn trim_seq(s: Seq<char>) -> Seq<char> {
    trim_back(trim_front(s))
}

proof fn lemma_trim_front_skip(s: Seq<char>, i: int)
    requires
        0 <= i <= s.len(),
        forall|k: int| 0 <= k < i ==> is_space(s[k]),
    ensures
        trim_front(s) == trim_front(s.subrange(i, s.len() as int)),
    decreases i,
{
    if i > 0 {
        assert(trim_front(s) == trim_front(s.subrange(1, s.len() as int)));
        lemma_trim_front_skip(s.subrange(1, s.len() as int), i - 1);
        assert(s.subrange(1, s.len() as int).subrange(i - 1, s.len() - 1) =~= s.subrange(
            i,
            s.len() as int,
        ));
    } else {
        assert(s.subrange(0, s.len() as int) =~= s);
    }
}

proof fn lemma_trim_back_skip(s: Seq<char>, j: int)
    requires
        0 <= j <= s.len(),
        forall|k: int| j <= k < s.len() ==> is_space(s[k]),
    ensures
        trim_back(s) == trim_back(s.subrange(0, j)),
    decreases s.len() - j,
{
    if j < s.len() {
        assert(is_space(s[s.len() - 1]));
        assert(trim_back(s) == trim_back(s.subrange(0, s.len() - 1)));
        lemma_trim_back_skip(s.subrange(0, s.len() - 1), j);
        assert(s.subrange(0, s.len() - 1).subrange(0, j) =~= s.subrange(0, j));
    } else {
        assert(s.subrange(0, j) =~= s);
    }
}

/// The copy of a string with whitespace stripped at both ends.
pub fn trimmed(s: &str) -> (r: String)
    ensures
        r@ == trim_seq(s@),
{
    let v = chars_of(s);
    let n = v.len();
    let mut i: usize = 0;
    while i < n && is_space_exec(v[i])
        invariant
            i <= n,
            n == v.len(),
            v@ == s@,
            forall|k: int| 0 <= k < i ==> is_space(s@[k]),
        decreases n - i,
    {
        i += 1;
    }
    if i == n {
        proof {
            lemma_trim_front_skip(s@, n as int);
            assert(s@.subrange(n as int, n as int) =~= Seq::<char>::empty());
            assert(trim_front(s@) =~= Seq::<char>::empty());
            assert(trim_seq(s@) =~= Seq::<char>::empty());
        }
        return String::new();
    }
    let mut j: usize = n;
    while j > i && is_space_exec(v[j - 1])
        invariant
            i <= j <= n,
            n == v.len(),
            v@ == s@,
            forall|k: int| j <= k < n ==> is_space(s@[k]),
            i < n,
            !is_space(s@[i as int]),
        decreases j,
    {
        j -= 1;
    }
    let r = s.substring_char(i, j).to_owned();
    proof {
        lemma_trim_front_skip(s@, i as int);
        let tail = s@.subrange(i as int, n as int);
        assert(trim_front(s@) == tail);
        lemma_trim_back_skip(tail, j - i);
        assert(tail.subrange(0, j - i) =~= s@.subrange(i as int, j as int));
        assert(!is_space(tail.subrange(0, j - i)[j - i - 1]));
        assert(trim_back(s@.subrange(i as int, j as int)) == s@.subrange(i as int, j as int));
    }
    r
}

fn is_space_exec(c: char) -> (r: bool)
    ensures
        r == is_space(c),
{
    c == ' ' || c == '\t' || c == '\n' || c == '\r'
}

/// The empty-means-back rule: a missing line, or one that trims to nothing,
/// turns into `None`; anything else into its trimmed form.
pub open spec fn spec_normalized(line: Option<Seq<char>>) -> Option<Seq<char>> {
    match line {
        Option::None => Option::None,
        Option::Some(s) => if trim_seq(s).len() == 0 {
            Option::None
        } else {
            Option::Some(trim_seq(s))
        },
    }
}

/// Normalizes a raw input line: trims it and maps empty input to `None`.
pub fn normalized_line(line: &Option<String>) -> (r: Option<String>)
    ensures
        match spec_normalized(line_view(line)) {
            Option::None => r is None,
            Option::Some(t) => r matches Some(rt) && rt@ == t,
        },
{
    match line {
        Option::None => Option::None,
        Option::Some(s) => {
            let t = trimmed(s.as_str());
            if t.as_str().unicode_len() == 0 {
                Option::None
            } else {
                Option::Some(t)
            }
        },
    }
}

/// The view of an optional line.
pub open spec fn line_view(line: &Option<String>) -> Option<Seq<char>> {
    match line {
        Option::None => Option::None,
        Option::Some(s) => Option::Some(s@),
    }
}

/// A decimal digit.
pub open spec fn is_digit(c: char) -> bool {
    '0' <= c && c <= '9'
}

/// The value of a decimal digit.
pub open spec fn digit_val(c: char) -> nat {
    ((c as u32) - 48) as nat
}

pub open spec fn all_digits(s: Seq<char>) -> bool {
    forall|k: int| 0 <= k < s.len() ==> is_digit(#[trigger] s[k])
}

/// The value of a digit sequence read in base ten.
pub open spec fn dec_value(s: Seq<char>) -> nat
    decreases s.len(),
{
    if s.len() == 0 {
        0
    } else {
        dec_value(s.drop_last()) * 10 + digit_val(s.last())
    }
}

/// The digits of a numeric token, an optional leading `+` stripped.
pub open spec fn token_digits(s: Seq<char>) -> Seq<char> {
    if s.len() > 0 && s[0] == '+' {
        s.subrange(1, s.len() as int)
    } else {
        s
    }
}

/// A non-negative decimal token: digits, at most one leading `+`.
pub open spec fn is_numeric_token(s: Seq<char>) -> bool {
    token_digits(s).len() > 0 && all_digits(token_digits(s))
}

/// A negative decimal token: a `-` sign followed by digits.
pub open spec fn is_negative_token(s: Seq<char>) -> bool {
    s.len() >= 2 && s[0] == '-' && all_digits(s.subrange(1, s.len() as int))
}

/// How a token reads as a number.
pub enum NumParse {
    /// A non-negative number that fits in a machine word.
    Num(u64),
    /// A non-negative number too large for a machine word.
    Overflow,
    /// A negative number.
    Negative,
    /// Not a decimal number at all.
    NotNum,
}

proof fn lemma_dec_value_grows(s: Seq<char>, i: int)
    requires
        0 <= i <= s.len(),
    ensures
        dec_value(s.subrange(0, i)) <= dec_value(s),
    decreases s.len() - i,
{
    if i < s.len() {
        lemma_dec_value_grows(s, i + 1);
        let p = s.subrange(0, i + 1);
        assert(p.drop_last() =~= s.subrange(0, i));
        assert(dec_value(s.subrange(0, i)) * 10 + digit_val(p.last()) == dec_value(p));
        assert(dec_value(s.subrange(0, i)) <= dec_value(s.subrange(0, i)) * 10);
    } else {
        assert(s.subrange(0, i) =~= s);
    }
}

/// Reads a token as a decimal number, with the outcomes the selection
/// protocol distinguishes: value, overflow, negative, or not a number.
pub fn parse_num(s: &str) -> (r: NumParse)
    ensures
        is_numeric_token(s@) && dec_value(token_digits(s@)) <= u64::MAX ==> (r matches
            NumParse::Num(n) && n == dec_value(token_digits(s@))),
        is_numeric_token(s@) && dec_value(token_digits(s@)) > u64::MAX ==> r is Overflow,
        is_negative_token(s@) ==> r is Negative,
        !is_numeric_token(s@) && !is_negative_token(s@) ==> r is NotNum,
{
    let v = chars_of(s);
    let n = v.len();
    if n == 0 {
        return NumParse::NotNum;
    }
    let negative = v[0] == '-';
    let start: usize = if v[0] == '+' || v[0] == '-' {
        1
    } else {
        0
    };
    let ghost digits = if s@[0] == '-' {
        s@.subrange(1, s@.len() as int)
    } else {
        token_digits(s@)
    };
    proof {
        assert(digits =~= s@.subrange(start as int, s@.len() as int));
    }
    if n == start {
        return NumParse::NotNum;
    }
    let mut i: usize = start;
    while i < n
        invariant
            start <= i <= n,
            n == v.len(),
            v@ == s@,
            n > start,
            negative == (s@[0] == '-'),
            start == (if s@[0] == '+' || s@[0] == '-' { 1int } else { 0int }),
            digits == s@.subrange(start as int, s@.len() as int),
            forall|k: int| start <= k < i ==> is_digit(#[trigger] s@[k]),
        decreases n - i,
    {
        let c = v[i];
        if !('0' <= c && c <= '9') {
            proof {
                assert(!is_digit(digits[i - start]));
                assert(!all_digits(digits));
                if s@[0] == '-' {
                    assert(!is_digit(token_digits(s@)[0]));
                }
            }
            return NumParse::NotNum;
        }
        i += 1;
    }
    proof {
        assert(forall|k: int| 0 <= k < digits.len() ==> is_digit(#[trigger] digits[k]));
        assert(all_digits(digits));
    }
    if negative {
        return NumParse::Negative;
    }
    let mut acc: u64 = 0;
    let mut i: usize = start;
    while i < n
        invariant
            start <= i <= n,
            n == v.len(),
            v@ == s@,
            n > start,
            s@[0] != '-',
            start == (if s@[0] == '+' || s@[0] == '-' { 1int } else { 0int }),
            digits == token_digits(s@),
            digits == s@.subrange(start as int, s@.len() as int),
            all_digits(digits),
            acc == dec_value(digits.subrange(0, i - start)),
        decreases n - i,
    {
        let c = v[i];
        proof {
            assert(is_digit(digits[i - start]));
        }
        let d: u64 = (c as u32 - 48) as u64;
        proof {
            assert(digit_val(digits[i - start]) == d);
        }
        let stepped = match acc.checked_mul(10) {
            Option::Some(m) => m.checked_add(d),
            Option::None => Option::None,
        };
        proof {
            let p = digits.subrange(0, i - start + 1);
            assert(p.drop_last() =~= digits.subrange(0, i - start));
            assert(dec_value(p) == acc * 10 + digit_val(digits[i - start]));
        }
        match stepped {
            Option::Some(a) => {
                acc = a;
            },
            Option::None => {
                proof {
                    let p = digits.subrange(0, i - start + 1);
                    assert(dec_value(p) > u64::MAX);
                    lemma_dec_value_grows(digits, i - start + 1);
                    assert(is_numeric_token(s@));
                }
                return NumParse::Overflow;
            },
        }
        i += 1;
    }
    proof {
        assert(digits.subrange(0, n - start) =~= digits);
        assert(is_numeric_token(s@));
    }
    NumParse::Num(acc)
}

/// The character of a decimal digit.
pub open spec fn digit_char(d: nat) -> char {
    if d == 0 {
        '0'
    } else if d == 1 {
        '1'
    } else if d == 2 {
        '2'
    } else if d == 3 {
        '3'
    } else if d == 4 {
        '4'
    } else if d == 5 {
        '5'
    } else if d == 6 {
        '6'
    } else if d == 7 {
        '7'
    } else if d == 8 {
        '8'
    } else {
        '9'
    }
}

/// The decimal notation of a number, most significant digit first.
pub open spec fn dec_str(n: nat) -> Seq<char>
    decreases n,
{
    if n < 10 {
        seq![digit_char(n)]
    } else {
        dec_str(n / 10).push(digit_char(n % 10))
    }
}

fn digit_str(d: u64) -> (r: &'static str)
    requires
        d < 10,
    ensures
        r@ =~= seq![digit_char(d as nat)],
{
    proof {
        reveal_strlit("0");
        reveal_strlit("1");
        reveal_strlit("2");
        reveal_strlit("3");
        reveal_strlit("4");
        reveal_strlit("5");
        reveal_strlit("6");
        reveal_strlit("7");
        reveal_strlit("8");
        reveal_strlit("9");
    }
    match d {
        0 => "0",
        1 => "1",
        2 => "2",
        3 => "3",
        4 => "4",
        5 => "5",
        6 => "6",
        7 => "7",
        8 => "8",
        _ => "9",
    }
}

/// Writes a number in decimal.
pub fn dec_of_u64(n: u64) -> (r: String)
    ensures
        r@ == dec_str(n as nat),
    decreases n,
{
    if n < 10 {
        digit_str(n).to_owned()
    } else {
        let mut s = dec_of_u64(n / 10);
        s.append(digit_str(n % 10));
        proof {
            assert(dec_str((n / 10) as nat).push(digit_char((n % 10) as nat)) =~= dec_str(
                (n / 10) as nat,
            ) + seq![digit_char((n % 10) as nat)]);
        }
        s
    }
}

/// The Unicode lowercase form of a character sequence.
pub uninterp spec fn lower_of(s: Seq<char>) -> Seq<char>;

/// Relies on `str::to_lowercase`: Unicode case folding depends on the
/// characters alone, the same on every call and every machine.
#[verifier::external_body]
pub(crate) fn fold_lower(s: &str) -> (r: String)
    ensures
        r@ == lower_of(s@),
{
    s.to_lowercase()
}

/// Exact match of `needle` inside `hay` starting at `i`.
pub open spec fn seq_matches_at(hay: Seq<char>, needle: Seq<char>, i: int) -> bool {
    0 <= i && i + needle.len() <= hay.len() && hay.subrange(i, i + needle.len()) == needle
}

/// Exact substring containment.
pub open spec fn contains_seq(hay: Seq<char>, needle: Seq<char>) -> bool {
    exists|i: int| seq_matches_at(hay, needle, i)
}

/// Whether `needle` occurs inside `hay`, character for character.
pub fn contains_chars(hay: &Vec<char>, needle: &Vec<char>) -> (r: bool)
    ensures
        r == contains_seq(hay@, needle@),
{
    let nl = needle.len();
    let hl = hay.len();
    if nl > hl {
        proof {
            assert(forall|i: int| !seq_matches_at(hay@, needle@, i));
        }
        return false;
    }
    let last = hl - nl;
    let mut i: usize = 0;
    loop
        invariant
            i <= last,
            nl == needle.len(),
            hl == hay.len(),
            nl <= hl,
            last == hl - nl,
            forall|k: int| 0 <= k < i ==> !seq_matches_at(hay@, needle@, k),
        decreases last - i,
    {
        let mut j: usize = 0;
        let mut hit = true;
        while j < nl
            invariant
                j <= nl,
                i <= last,
                nl == needle.len(),
                hl == hay.len(),
                last == hl - nl,
                hit ==> forall|k: int| 0 <= k < j ==> hay@[i + k] == #[trigger] needle@[k],
                !hit ==> !seq_matches_at(hay@, needle@, i as int),
            decreases nl - j,
        {
            if hit && hay[i + j] != needle[j] {
                proof {
                    let sub = hay@.subrange(i as int, i + nl);
                    assert(sub[j as int] == hay@[i + j]);
                }
                hit = false;
            }
            j += 1;
        }
        if hit {
            proof {
                let sub = hay@.subrange(i as int, i + nl);
                assert forall|k: int| 0 <= k < nl implies sub[k] == needle@[k] by {
                    assert(hay@[i + k] == needle@[k]);
                }
                assert(sub =~= needle@);
                assert(seq_matches_at(hay@, needle@, i as int));
            }
            return true;
        }
        if i == last {
            proof {
                assert(forall|k: int| seq_matches_at(hay@, needle@, k) ==> 0 <= k <= last);
            }
            return false;
        }
        i += 1;
    }
}

} // verus!
