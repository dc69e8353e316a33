//! Argument handling for the benchmark: deciding between a missing argument,
//! an invalid one, and a parsed node count. The count is a non-negative
//! decimal integer that must fit in `usize`.

use vstd::prelude::*;

verus! {

/// The two recognised argument faults: no count was supplied, or the supplied
/// text is not a non-negative decimal integer that fits in `usize`.
#[derive(Clone, Copy, Debug, PartialEq, Eq, Structural)]
pub enum ArgError {
    MissingArgument,
    InvalidArgument,
}

/// `b` is an ASCII decimal digit.
pub open spec fn is_ascii_digit(b: u8) -> bool {
    48 <= b && b <= 57
}

/// Every byte of `s` is an ASCII decimal digit.
pub open spec fn all_digits(s: Seq<u8>) -> bool {
    forall|i: int| 0 <= i < s.len() ==> is_ascii_digit(s[i])
}

/// The value of `s` read as a decimal numeral, most significant digit first.
pub open spec fn decimal_value(s: Seq<u8>) -> int
    decreases s.len(),
{
    if s.len() == 0 {
        0
    } else {
        decimal_value(s.drop_last()) * 10 + (s.last() - 48)
    }
}

/// `s` spells a node count: a non-empty run of decimal digits whose value
/// fits in `usize`.
pub open spec fn spells_count(s: Seq<u8>) -> bool {
    s.len() > 0 && all_digits(s) && decimal_value(s) <= usize::MAX
}

proof fn lemma_decimal_value_nonneg(s: Seq<u8>)
    requires
        all_digits(s),
    ensures
        decimal_value(s) >= 0,
    decreases s.len(),
{
    if s.len() > 0 {
        assert(all_digits(s.drop_last()));
        lemma_decimal_value_nonneg(s.drop_last());
    }
}

/// Reading further digits never shrinks the value: the value of a prefix is
/// at most the value of the whole numeral.
proof fn lemma_decimal_value_prefix_le(s: Seq<u8>, i: int)
    requires
        all_digits(s),
        0 <= i <= s.len(),
    ensures
        decimal_value(s.subrange(0, i)) <= decimal_value(s),
    decreases s.len() - i,
{
    if i < s.len() {
        let shorter = s.subrange(0, i);
        let longer = s.subrange(0, i + 1);
        assert(longer.drop_last() =~= shorter);
        assert(all_digits(shorter));
        lemma_decimal_value_nonneg(shorter);
        lemma_decimal_value_prefix_le(s, i + 1);
    } else {
        assert(s.subrange(0, i) =~= s);
    }
}

/// Parses `s` as a non-negative decimal count. Returns `Some` exactly when
/// `s` is non-empty, all digits, and its value fits in `usize`; the returned
/// number is then the numeral's value.
pub fn parse_count(s: &[u8]) -> (r: Option<usize>)
    ensures
        r.is_some() <==> spells_count(s@),
        r.is_some() ==> r.unwrap() == decimal_value(s@),
{
    let n = s.len();
    if n == 0 {
        return None;
    }
    let mut value: usize = 0;
    let mut i: usize = 0;
    while i < n
        invariant
            0 <= i <= n,
            n == s@.len(),
            all_digits(s@.subrange(0, i as int)),
            value == decimal_value(s@.subrange(0, i as int)),
        decreases n - i,
    {
        let b = s[i];
        if b < 48 || b > 57 {
            assert(!is_ascii_digit(s@[i as int]));
            return None;
        }
        let digit = (b - 48) as usize;
        let wide: u128 = value as u128 * 10 + digit as u128;
        proof {
            assert(s@.subrange(0, i + 1).drop_last() =~= s@.subrange(0, i as int));
        }
        if wide > usize::MAX as u128 {
            proof {
                if all_digits(s@) {
                    lemma_decimal_value_prefix_le(s@, i + 1);
                }
            }
            return None;
        }
        value = wide as usize;
        i = i + 1;
    }
    proof {
        assert(s@.subrange(0, n as int) =~= s@);
    }
    Some(value)
}

/// Decides what the benchmark should do with the one positional argument:
/// report a missing argument, report an invalid one, or run with the parsed
/// node count.
pub fn plan_run(arg: Option<&[u8]>) -> (r: Result<usize, ArgError>)
    ensures
        r == (match arg {
            None => Err::<usize, ArgError>(ArgError::MissingArgument),
            Some(s) => if spells_count(s@) {
                Ok::<usize, ArgError>(decimal_value(s@) as usize)
            } else {
                Err::<usize, ArgError>(ArgError::InvalidArgument)
            },
        }),
{
    match arg {
        None => Err(ArgError::MissingArgument),
        Some(s) => match parse_count(s) {
            Some(n) => Ok(n),
            None => Err(ArgError::InvalidArgument),
        },
    }
}

} // verus!
