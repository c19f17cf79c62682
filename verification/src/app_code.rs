//! Application codes: parsing a textual status code (such as "404") into
//! the concrete application-code type of an error type.
//!
//! A failed parse is a misconfiguration of the metadata; the chosen policy
//! is to propagate it as a typed result the caller must handle. It is never
//! coerced to a default value, and the library's verified functions never
//! panic on it.

use vstd::prelude::*;

verus! {

/// The typed failure of an application-code parse: it carries the input
/// text that could not be parsed.
#[derive(Debug)]
pub struct AppCodeParseError {
    pub input: String,
}

/// The capability of an application-code type: it can be parsed from the
/// textual form that the metadata carries. Implementations state the parse
/// as a mathematical function and prove the executable parse against it.
pub trait AppCodeParse: Sized {
    /// The parse as a function of the characters: the parsed value, or
    /// `None` where the text does not denote a value of this type.
    spec fn parse_spec(s: Seq<char>) -> Option<Self>;

    /// Parses a textual application code. Returns `Ok` exactly on the
    /// texts that `parse_spec` accepts, and a typed error carrying the
    /// offending input otherwise.
    fn parse_app_code(s: &str) -> (r: Result<Self, AppCodeParseError>)
        ensures
            match r {
                Ok(t) => Self::parse_spec(s@) == Some(t),
                Err(e) => Self::parse_spec(s@) is None && e.input@ == s@,
            },
    ;
}

/// True for the ten decimal digit characters.
pub open spec fn is_dec_digit(c: char) -> bool {
    48 <= c as int && c as int <= 57
}

pub open spec fn all_dec_digits(s: Seq<char>) -> bool {
    forall|i: int| 0 <= i < s.len() ==> is_dec_digit(s[i])
}

/// The value of a string of decimal digits, most significant first.
pub open spec fn dec_digits_value(s: Seq<char>) -> int
    decreases s.len(),
{
    if s.len() == 0 {
        0
    } else {
        dec_digits_value(s.drop_last()) * 10 + (s.last() as int - 48)
    }
}

/// The decimal parse for `u16`: a non-empty string of digits whose value
/// fits; anything else is rejected.
pub open spec fn parse_u16_spec(s: Seq<char>) -> Option<u16> {
    if s.len() > 0 && all_dec_digits(s) && dec_digits_value(s) <= 65535 {
        Some(dec_digits_value(s) as u16)
    } else {
        None
    }
}

proof fn lemma_dec_value_nonneg(s: Seq<char>)
    requires
        all_dec_digits(s),
    ensures
        dec_digits_value(s) >= 0,
    decreases s.len(),
{
    if s.len() > 0 {
        assert(all_dec_digits(s.drop_last()));
        lemma_dec_value_nonneg(s.drop_last());
        let v = dec_digits_value(s.drop_last());
        assert(v * 10 >= 0) by (nonlinear_arith)
            requires v >= 0;
    }
}

/// A prefix of a digit string never has a larger value than the whole.
proof fn lemma_dec_value_prefix(s: Seq<char>, k: int)
    requires
        0 <= k <= s.len(),
        all_dec_digits(s),
    ensures
        dec_digits_value(s) >= dec_digits_value(s.take(k)),
    decreases s.len() - k,
{
    if k < s.len() {
        lemma_dec_value_prefix(s, k + 1);
        assert(s.take(k + 1).drop_last() =~= s.take(k));
        assert(all_dec_digits(s.take(k)));
        lemma_dec_value_nonneg(s.take(k));
        let v = dec_digits_value(s.take(k));
        assert(v * 10 >= v) by (nonlinear_arith)
            requires v >= 0;
        assert(is_dec_digit(s.take(k + 1).last()));
    } else {
        assert(s.take(k) =~= s);
    }
}

impl AppCodeParse for u16 {
    open spec fn parse_spec(s: Seq<char>) -> Option<u16> {
        parse_u16_spec(s)
    }

    fn parse_app_code(s: &str) -> (r: Result<u16, AppCodeParseError>) {
        let n = s.unicode_len();
        if n == 0 {
            return Err(AppCodeParseError { input: s.to_owned() });
        }
        let mut acc: u32 = 0;
        let mut i: usize = 0;
        while i < n
            invariant
                0 <= i <= n,
                n == s@.len(),
                forall|j: int| 0 <= j < i ==> is_dec_digit(s@[j]),
                acc == dec_digits_value(s@.take(i as int)),
                acc <= 65535,
            decreases n - i,
        {
            let c = s.get_char(i);
            let v = c as u32;
            if v < 48 || v > 57 {
                proof {
                    assert(!is_dec_digit(s@[i as int]));
                }
                return Err(AppCodeParseError { input: s.to_owned() });
            }
            let d = v - 48;
            let next = acc * 10 + d;
            proof {
                assert(s@.take(i + 1 as int).drop_last() =~= s@.take(i as int));
                assert(s@.take(i + 1 as int).last() == s@[i as int]);
            }
            if next > 65535 {
                proof {
                    if all_dec_digits(s@) {
                        lemma_dec_value_prefix(s@, i + 1 as int);
                    }
                }
                return Err(AppCodeParseError { input: s.to_owned() });
            }
            acc = next;
            i += 1;
        }
        proof {
            assert(s@.take(n as int) =~= s@);
        }
        Ok(acc as u16)
    }
}

} // verus!
