//! The colour argument parser: a comma-separated list of twelve channel
//! intensities, each an integer in `0..=255`, becomes a twelve-element
//! array.  Anything else is rejected with [`ColorFormatError`].
//!
//! The specification works on the byte sequence of the input.  It splits
//! the bytes at every comma (exactly as `str::split(',')` does, so an empty
//! input yields one empty token) and demands twelve tokens, each a
//! non-empty run of ASCII digits whose value is at most 255.

use vstd::prelude::*;
use vstd::string::StringSliceAdditionalSpecFns;

verus! {

/// The reason a colour list was rejected.
#[derive(Clone, Copy, Debug, PartialEq, Eq, Structural)]
pub enum ColorFormatError {
    /// The list does not hold exactly twelve comma-separated tokens.
    WrongTokenCount,
    /// A token is empty or holds a byte that is not an ASCII digit.
    NonNumericToken,
    /// A token is numeric but its value exceeds 255.
    ValueOutOfRange,
}

impl ColorFormatError {
    /// A human-readable cause for the rejection.
    pub fn message(self) -> (r: &'static str)
        ensures
            self is WrongTokenCount ==> r@ == "expected exactly 12 comma-separated color values"@,
            self is NonNumericToken ==> r@ == "colors must be whole numbers"@,
            self is ValueOutOfRange ==> r@ == "color values must be between 0 and 255"@,
    {
        match self {
            ColorFormatError::WrongTokenCount => "expected exactly 12 comma-separated color values",
            ColorFormatError::NonNumericToken => "colors must be whole numbers",
            ColorFormatError::ValueOutOfRange => "color values must be between 0 and 255",
        }
    }
}

/// ASCII code of the separating comma.
pub open spec fn comma() -> u8 {
    44
}

/// Whether `b` is an ASCII decimal digit.
pub open spec fn is_digit_byte(b: u8) -> bool {
    48 <= b <= 57
}

/// The numeric value of a digit byte (zero for anything else).
pub open spec fn digit_val(b: u8) -> nat {
    if is_digit_byte(b) {
        (b - 48) as nat
    } else {
        0
    }
}

/// The number a run of digit bytes denotes, read in base ten.
pub open spec fn token_value(t: Seq<u8>) -> nat
    decreases t.len(),
{
    if t.len() == 0 {
        0
    } else {
        token_value(t.drop_last()) * 10 + digit_val(t.last())
    }
}

/// The input split at every comma, exactly as `str::split(',')` splits:
/// an empty input yields one empty token, and every comma separates two
/// tokens, either of which may be empty.
pub open spec fn split_commas(s: Seq<u8>) -> Seq<Seq<u8>>
    decreases s.len(),
{
    if s.len() == 0 {
        seq![Seq::<u8>::empty()]
    } else if s[0] == comma() {
        seq![Seq::<u8>::empty()] + split_commas(s.drop_first())
    } else {
        let rest = split_commas(s.drop_first());
        seq![seq![s[0]] + rest[0]] + rest.subrange(1, rest.len() as int)
    }
}

/// Index of the first comma in `s`, or `s.len()` if there is none.
pub open spec fn first_comma(s: Seq<u8>) -> int
    decreases s.len(),
{
    if s.len() == 0 {
        0
    } else if s[0] == comma() {
        0
    } else {
        1 + first_comma(s.drop_first())
    }
}

/// A token that denotes a single channel intensity: a non-empty run of
/// ASCII digits whose value fits in `0..=255`.
pub open spec fn is_valid_token(t: Seq<u8>) -> bool {
    &&& t.len() > 0
    &&& forall|i: int| 0 <= i < t.len() ==> is_digit_byte(t[i])
    &&& token_value(t) <= 255
}

/// The acceptance condition of the colour parser: exactly twelve
/// comma-separated tokens, each a valid channel intensity.
pub open spec fn valid_color_list(s: Seq<u8>) -> bool {
    &&& split_commas(s).len() == 12
    &&& forall|i: int| 0 <= i < split_commas(s).len() ==> is_valid_token(split_commas(s)[i])
}

/// The twelve channel values a valid colour list denotes.
pub open spec fn color_values(s: Seq<u8>) -> Seq<u8> {
    split_commas(s).map_values(|t: Seq<u8>| token_value(t) as u8)
}

/// `first_comma` really is the first comma: everything before it is not a
/// comma, and the byte at it (if any) is one.
pub proof fn lemma_first_comma(s: Seq<u8>)
    ensures
        0 <= first_comma(s) <= s.len(),
        forall|m: int| 0 <= m < first_comma(s) ==> s[m] != comma(),
        first_comma(s) < s.len() ==> s[first_comma(s)] == comma(),
    decreases s.len(),
{
    if s.len() == 0 {
    } else if s[0] == comma() {
    } else {
        lemma_first_comma(s.drop_first());
        assert forall|m: int| 0 <= m < first_comma(s) implies s[m] != comma() by {
            if m > 0 {
                assert(s.drop_first()[m - 1] != comma());
            }
        }
    }
}

/// Splitting decomposes at the first comma: the head token is the prefix
/// up to it, and the remaining tokens are the split of what follows it.
pub proof fn lemma_split_decompose(s: Seq<u8>)
    ensures
        split_commas(s).len() >= 1,
        split_commas(s)[0] == s.subrange(0, first_comma(s)),
        first_comma(s) == s.len() ==> split_commas(s) == seq![s.subrange(0, first_comma(s))],
        first_comma(s) < s.len() ==> split_commas(s) == seq![s.subrange(0, first_comma(s))]
            + split_commas(s.subrange(first_comma(s) + 1, s.len() as int)),
    decreases s.len(),
{
    lemma_first_comma(s);
    if s.len() == 0 {
        assert(split_commas(s)[0] =~= s.subrange(0, 0));
        assert(split_commas(s) =~~= seq![s.subrange(0, first_comma(s))]);
    } else if s[0] == comma() {
        assert(split_commas(s)[0] =~= s.subrange(0, 0));
        assert(s.drop_first() =~= s.subrange(1, s.len() as int));
        assert(split_commas(s) =~~= seq![s.subrange(0, first_comma(s))]
            + split_commas(s.subrange(1, s.len() as int)));
    } else {
        let tail = s.drop_first();
        lemma_split_decompose(tail);
        lemma_first_comma(tail);
        let fc = first_comma(s);
        assert(fc == 1 + first_comma(tail));
        let rest = split_commas(tail);
        assert(split_commas(s)[0] =~= seq![s[0]] + rest[0]);
        assert(seq![s[0]] + tail.subrange(0, fc - 1) =~= s.subrange(0, fc));
        if first_comma(tail) == tail.len() {
            assert(rest =~~= seq![rest[0]]);
            assert(rest.subrange(1, rest.len() as int) =~~= Seq::<Seq<u8>>::empty());
            assert(split_commas(s) =~~= seq![s.subrange(0, fc)]);
        } else {
            let after_tail = tail.subrange(first_comma(tail) + 1, tail.len() as int);
            assert(rest =~~= seq![rest[0]] + split_commas(after_tail));
            assert(rest.subrange(1, rest.len() as int) =~~= split_commas(after_tail));
            assert(after_tail =~= s.subrange(fc + 1, s.len() as int));
            assert(split_commas(s) =~~= seq![s.subrange(0, fc)]
                + split_commas(s.subrange(fc + 1, s.len() as int)));
        }
    }
}

/// Appending a digit multiplies the denoted value by ten and adds the digit.
pub proof fn lemma_token_value_push(t: Seq<u8>, b: u8)
    ensures
        token_value(t.push(b)) == token_value(t) * 10 + digit_val(b),
{
    assert(t.push(b).drop_last() =~= t);
}

/// The denoted value never shrinks as a token grows to the right.
pub proof fn lemma_token_value_prefix(t: Seq<u8>, m: int)
    requires
        0 <= m <= t.len(),
    ensures
        token_value(t) >= token_value(t.subrange(0, m)),
    decreases t.len(),
{
    if m == t.len() {
        assert(t.subrange(0, m) =~= t);
    } else {
        lemma_token_value_prefix(t.drop_last(), m);
        assert(t.drop_last().subrange(0, m) =~= t.subrange(0, m));
    }
}

/// Parses a colour list given as raw bytes.
///
/// Succeeds exactly on inputs that [`valid_color_list`] accepts and then
/// returns the twelve channel values in order.
pub fn parse_color_bytes(s: &[u8]) -> (r: Result<Vec<u8>, ColorFormatError>)
    ensures
        r is Ok <==> valid_color_list(s@),
        r matches Ok(v) ==> v@ == color_values(s@) && v@.len() == 12,
{
    let n = s.len();
    let ghost ts = split_commas(s@);
    let mut vals: Vec<u8> = Vec::new();
    let mut i: usize = 0;
    proof {
        assert(s@.subrange(0, n as int) =~= s@);
        assert(ts.subrange(0, ts.len() as int) =~~= ts);
    }
    loop
        invariant
            i <= n,
            n == s@.len(),
            ts == split_commas(s@),
            vals@.len() <= 12,
            vals@.len() <= ts.len(),
            forall|q: int| 0 <= q < vals@.len() ==> is_valid_token(#[trigger] ts[q]) && vals@[q]
                == token_value(ts[q]) as u8,
            split_commas(s@.subrange(i as int, n as int)) == ts.subrange(
                vals@.len() as int,
                ts.len() as int,
            ),
        decreases n - i,
    {
        let ghost k = vals@.len() as int;
        let ghost rem = s@.subrange(i as int, n as int);
        let ghost fc = first_comma(rem);
        proof {
            lemma_split_decompose(rem);
            lemma_first_comma(rem);
            assert(split_commas(rem).len() == ts.len() - k);
            assert(k < ts.len());
            assert(ts[k] == ts.subrange(k, ts.len() as int)[0]);
            assert(ts[k] == split_commas(rem)[0]);
        }
        let mut j = i;
        let mut cur: u32 = 0;
        while j < n && s[j] != 44
            invariant
                i <= j <= n,
                n == s@.len(),
                ts == split_commas(s@),
                0 <= k < ts.len(),
                rem == s@.subrange(i as int, n as int),
                fc == first_comma(rem),
                0 <= fc <= rem.len(),
                forall|m: int| 0 <= m < fc ==> rem[m] != comma(),
                fc < rem.len() ==> rem[fc] == comma(),
                ts[k] == rem.subrange(0, fc),
                forall|m: int| i <= m < j ==> is_digit_byte(s@[m]),
                j - i <= fc,
                cur <= 255,
                cur == token_value(s@.subrange(i as int, j as int)),
            decreases n - j,
        {
            let b = s[j];
            proof {
                assert(rem[j - i] == s@[j as int]);
                // the byte under scrutiny sits before any comma, so it is
                // part of the current token
                if fc <= j - i {
                    assert(rem[fc] == comma());
                }
                assert(j - i < fc);
            }
            if b < 48 || b > 57 {
                proof {
                    assert(ts[k][j - i] == s@[j as int]);
                    assert(!is_digit_byte(ts[k][j - i]));
                    assert(!is_valid_token(ts[k]));
                    assert(!valid_color_list(s@));
                }
                return Err(ColorFormatError::NonNumericToken);
            }
            cur = cur * 10 + ((b - 48) as u32);
            proof {
                lemma_token_value_push(s@.subrange(i as int, j as int), b);
                assert(s@.subrange(i as int, j as int).push(b) =~= s@.subrange(
                    i as int,
                    j + 1 as int,
                ));
            }
            if cur > 255 {
                proof {
                    lemma_token_value_prefix(ts[k], j + 1 - i as int);
                    assert(ts[k].subrange(0, j + 1 - i as int) =~= s@.subrange(
                        i as int,
                        j + 1 as int,
                    ));
                    assert(token_value(ts[k]) > 255);
                    assert(!is_valid_token(ts[k]));
                    assert(!valid_color_list(s@));
                }
                return Err(ColorFormatError::ValueOutOfRange);
            }
            j += 1;
        }
        // the current token ends here: either the input is exhausted or a
        // comma follows
        proof {
            if j < n {
                assert(rem[j - i] == s@[j as int]);
                if fc > j - i {
                    assert(rem[j - i] != comma());
                }
            }
            assert(fc == j - i);
            assert(ts[k] =~= s@.subrange(i as int, j as int));
        }
        if j == i {
            proof {
                assert(ts[k].len() == 0);
                assert(!is_valid_token(ts[k]));
                assert(!valid_color_list(s@));
            }
            return Err(ColorFormatError::NonNumericToken);
        }
        proof {
            assert forall|m: int| 0 <= m < ts[k].len() implies is_digit_byte(ts[k][m]) by {
                assert(ts[k][m] == s@[i + m]);
            }
            assert(token_value(ts[k]) == cur);
            assert(is_valid_token(ts[k]));
        }
        if vals.len() == 12 {
            proof {
                assert(ts.len() >= 13);
                assert(!valid_color_list(s@));
            }
            return Err(ColorFormatError::WrongTokenCount);
        }
        vals.push(cur as u8);
        if j == n {
            proof {
                assert(fc == rem.len());
                assert(split_commas(rem) == seq![ts[k]]);
                assert(ts.len() == k + 1);
            }
            if vals.len() == 12 {
                proof {
                    assert(valid_color_list(s@));
                    assert(vals@ =~= color_values(s@));
                }
                return Ok(vals);
            } else {
                proof {
                    assert(ts.len() != 12);
                    assert(!valid_color_list(s@));
                }
                return Err(ColorFormatError::WrongTokenCount);
            }
        }
        proof {
            assert(fc < rem.len());
            assert(rem[fc] == comma());
            let after = rem.subrange(fc + 1, rem.len() as int);
            assert(after =~= s@.subrange(j + 1 as int, n as int));
            assert(split_commas(rem) == seq![ts[k]] + split_commas(after));
            let tssub = ts.subrange(k, ts.len() as int);
            assert(seq![ts[k]] + split_commas(after) == tssub);
            assert(split_commas(after).len() == ts.len() - k - 1);
            assert forall|q: int| 0 <= q < ts.len() - k - 1 implies split_commas(after)[q] == ts[k
                + 1 + q] by {
                assert(tssub[q + 1] == ts[k + 1 + q]);
                assert((seq![ts[k]] + split_commas(after))[q + 1] == split_commas(after)[q]);
            }
            assert(split_commas(s@.subrange(j + 1 as int, n as int)) =~~= ts.subrange(
                k + 1,
                ts.len() as int,
            ));
        }
        i = j + 1;
    }
}

/// Parses the `--colors` argument.
///
/// Accepts exactly the strings whose bytes form a [`valid_color_list`]:
/// twelve comma-separated integers, each in `0..=255`.  On success the
/// twelve values are returned in order.
pub fn parse_colors(arg: &str) -> (r: Result<Vec<u8>, ColorFormatError>)
    ensures
        r is Ok <==> valid_color_list(arg.spec_bytes()),
        r matches Ok(v) ==> v@ == color_values(arg.spec_bytes()) && v@.len() == 12,
{
    parse_color_bytes(arg.as_bytes())
}

} // verus!
