//! The uniform selection input protocol: empty input means back, an alias is
//! tried before an index, and a one-based index clamps to the nearest end of
//! the listing.

use vstd::prelude::*;
use vstd::string::StringExecFns;
use crate::text::{NumParse, dec_of_u64, dec_str, dec_value, is_negative_token, is_numeric_token,
    line_view, lower_seq, normalized_line, parse_num, spec_normalized, token_digits};

verus! {

/// How a token reads as a one-based listing index.
pub enum IndexOutcome {
    /// A zero-based position into the listing, clamped to its ends.
    Chosen(usize),
    /// A number the protocol rejects, with the message to report.
    Invalid(String),
    /// Not a number at all.
    NotIndex,
}

/// The zero-based position a one-based index selects in a listing of `len`
/// entries: under one clamps to the first entry, over `len` to the last.
pub open spec fn spec_clamp_index(n: nat, len: int) -> int {
    if n < 1 {
        0
    } else if n > len {
        len - 1
    } else {
        n - 1
    }
}

/// The report for a number too large for the protocol.
pub open spec fn spec_overflow_msg() -> Seq<char> {
    "Sequence number must be less than "@ + dec_str(u64::MAX as nat)
}

/// The report for a negative number.
pub open spec fn spec_negative_msg() -> Seq<char> {
    "Sequence number must be greater than 0"@
}

/// Reads a token as a one-based index into a listing of `len` entries,
/// clamping to the nearest end; a number out of machine range is reported,
/// anything non-numeric is left to the caller's alias handling.
pub fn resolve_index(tok: &str, len: usize) -> (r: IndexOutcome)
    ensures
        is_numeric_token(tok@) && dec_value(token_digits(tok@)) <= u64::MAX && len > 0 ==> (r
            matches IndexOutcome::Chosen(i) && i == spec_clamp_index(
            dec_value(token_digits(tok@)),
            len as int,
        )),
        is_numeric_token(tok@) && dec_value(token_digits(tok@)) <= u64::MAX && len == 0 ==> r
            is NotIndex,
        is_numeric_token(tok@) && dec_value(token_digits(tok@)) > u64::MAX ==> (r matches
            IndexOutcome::Invalid(m) && m@ == spec_overflow_msg()),
        is_negative_token(tok@) ==> (r matches IndexOutcome::Invalid(m) && m@
            == spec_negative_msg()),
        !is_numeric_token(tok@) && !is_negative_token(tok@) ==> r is NotIndex,
{
    match parse_num(tok) {
        NumParse::Num(n) => {
            if len == 0 {
                IndexOutcome::NotIndex
            } else if n < 1 {
                IndexOutcome::Chosen(0)
            } else if n > len as u64 {
                IndexOutcome::Chosen(len - 1)
            } else {
                IndexOutcome::Chosen((n - 1) as usize)
            }
        },
        NumParse::Overflow => {
            let mut m = "Sequence number must be less than ".to_owned();
            let num = dec_of_u64(u64::MAX);
            m.append(num.as_str());
            IndexOutcome::Invalid(m)
        },
        NumParse::Negative => {
            IndexOutcome::Invalid("Sequence number must be greater than 0".to_owned())
        },
        NumParse::NotNum => IndexOutcome::NotIndex,
    }
}

/// The number a raw prompt line carries, if any: the line is trimmed, an
/// empty line means back, and anything non-numeric or out of machine range
/// reads as nothing.
pub fn read_pos_num_or_none(line: &Option<String>) -> (r: Option<usize>)
    ensures
        match spec_normalized(line_view(line)) {
            Option::None => r is None,
            Option::Some(t) => {
                if is_numeric_token(t) && dec_value(token_digits(t)) <= usize::MAX {
                    r matches Some(n) && n == dec_value(token_digits(t))
                } else {
                    r is None
                }
            },
        },
{
    let t = match normalized_line(line) {
        Option::Some(t) => t,
        Option::None => {
            return Option::None;
        },
    };
    match parse_num(t.as_str()) {
        NumParse::Num(n) => {
            if n <= usize::MAX as u64 {
                Option::Some(n as usize)
            } else {
                Option::None
            }
        },
        _ => Option::None,
    }
}

/// The first variant whose lowercase key the folded token equals, if any.
pub open spec fn spec_variant_find<T>(entries: Seq<(String, T)>, tok: Seq<char>) -> Option<T>
    decreases entries.len(),
{
    if entries.len() == 0 {
        Option::None
    } else if entries[0].0@ == lower_seq(tok) {
        Option::Some(entries[0].1)
    } else {
        spec_variant_find(entries.subrange(1, entries.len() as int), tok)
    }
}

proof fn lemma_variant_find_skip<T>(entries: Seq<(String, T)>, tok: Seq<char>, i: int)
    requires
        0 <= i <= entries.len(),
        forall|k: int| 0 <= k < i ==> (#[trigger] entries[k]).0@ != lower_seq(tok),
    ensures
        spec_variant_find(entries, tok) == spec_variant_find(
            entries.subrange(i, entries.len() as int),
            tok,
        ),
    decreases i,
{
    if i > 0 {
        lemma_variant_find_skip(entries.subrange(1, entries.len() as int), tok, i - 1);
        assert(entries.subrange(1, entries.len() as int).subrange(i - 1, entries.len() - 1)
            =~= entries.subrange(i, entries.len() as int));
    } else {
        assert(entries.subrange(0, entries.len() as int) =~= entries);
    }
}

/// Looks a token up among keyed variants, case-insensitively. The keys must
/// already be lowercase, as alias tables are.
pub fn select_variant<'a, T>(variant: &str, variants: &'a Vec<(String, T)>) -> (r: Option<&'a T>)
    requires
        forall|k: int|
            0 <= k < variants@.len() ==> lower_seq((#[trigger] variants@[k]).0@)
                == variants@[k].0@,
    ensures
        match r {
            Option::Some(v) => spec_variant_find(variants@, variant@) == Option::Some(*v),
            Option::None => spec_variant_find(variants@, variant@) is None,
        },
{
    let n = variants.len();
    let mut i: usize = 0;
    while i < n
        invariant
            i <= n,
            n == variants.len(),
            forall|k: int|
                0 <= k < variants@.len() ==> lower_seq((#[trigger] variants@[k]).0@)
                    == variants@[k].0@,
            forall|k: int| 0 <= k < i ==> (#[trigger] variants@[k]).0@ != lower_seq(variant@),
        decreases n - i,
    {
        if crate::text::eq_ignore_case(variants[i].0.as_str(), variant) {
            proof {
                lemma_variant_find_skip(variants@, variant@, i as int);
                assert(variants@.subrange(i as int, n as int)[0] == variants@[i as int]);
            }
            return Option::Some(&variants[i].1);
        }
        i += 1;
    }
    proof {
        lemma_variant_find_skip(variants@, variant@, n as int);
        assert(variants@.subrange(n as int, n as int) =~= Seq::<(String, T)>::empty());
    }
    Option::None
}

/// Resolves a raw prompt line against keyed variants: the line is trimmed,
/// an empty line means back, anything else is looked up case-insensitively.
pub fn process_select_variant<'a, T>(line: &Option<String>, variants: &'a Vec<(String, T)>) -> (r:
    Option<&'a T>)
    requires
        forall|k: int|
            0 <= k < variants@.len() ==> lower_seq((#[trigger] variants@[k]).0@)
                == variants@[k].0@,
    ensures
        match spec_normalized(line_view(line)) {
            Option::None => r is None,
            Option::Some(t) => match spec_variant_find(variants@, t) {
                Option::Some(v) => r matches Some(x) && *x == v,
                Option::None => r is None,
            },
        },
{
    match normalized_line(line) {
        Option::Some(t) => select_variant(t.as_str(), variants),
        Option::None => Option::None,
    }
}

} // verus!
