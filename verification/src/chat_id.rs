//! The chat identifier and its parser.
//!
//! A chat identifier is a signed 64-bit integer naming the destination
//! conversation. Its textual form is an optional sign (`+` or `-`) followed by
//! one or more decimal digits, and the denoted value must fit in `i64`. Any
//! other string is rejected with a message that carries the offending input.

use vstd::prelude::*;
use vstd::string::{StrSliceExecFns, StringExecFns};

verus! {

/// A destination conversation, identified by a signed 64-bit integer.
#[derive(Debug, Clone, Copy, PartialEq, Eq, Structural)]
pub struct ChatId(pub i64);

pub open spec fn is_digit(c: char) -> bool {
    '0' as int <= c as int && c as int <= '9' as int
}

pub open spec fn digit_val(c: char) -> int {
    c as int - '0' as int
}

pub open spec fn all_digits(s: Seq<char>) -> bool {
    forall|k: int| 0 <= k < s.len() ==> is_digit(#[trigger] s[k])
}

/// The value of a string of decimal digits, most significant first.
pub open spec fn digits_value(s: Seq<char>) -> int
    decreases s.len(),
{
    if s.len() == 0 {
        0
    } else {
        digits_value(s.drop_last()) * 10 + digit_val(s.last())
    }
}

pub open spec fn has_sign(s: Seq<char>) -> bool {
    s.len() > 0 && (s[0] == '+' || s[0] == '-')
}

/// The digit part of a chat identifier string: everything after the sign.
pub open spec fn body_of(s: Seq<char>) -> Seq<char> {
    if has_sign(s) {
        s.subrange(1, s.len() as int)
    } else {
        s
    }
}

pub open spec fn sign_of(s: Seq<char>) -> int {
    if s.len() > 0 && s[0] == '-' {
        -1
    } else {
        1
    }
}

/// The signed value a chat identifier string denotes.
pub open spec fn chat_id_value(s: Seq<char>) -> int {
    sign_of(s) * digits_value(body_of(s))
}

/// The strings the chat identifier parser accepts: an optional sign, at least
/// one digit, nothing else, and a denoted value that fits in `i64`.
pub open spec fn is_valid_chat_id_string(s: Seq<char>) -> bool {
    &&& body_of(s).len() > 0
    &&& all_digits(body_of(s))
    &&& i64::MIN as int <= chat_id_value(s)
    &&& chat_id_value(s) <= i64::MAX as int
}

/// The diagnostic the parser reports for a rejected string.
pub open spec fn chat_id_error_view(s: Seq<char>) -> Seq<char> {
    "`"@ + s + "` isn't a chat id"@
}

proof fn lemma_digits_nonneg(s: Seq<char>)
    requires
        all_digits(s),
    ensures
        digits_value(s) >= 0,
    decreases s.len(),
{
    if s.len() > 0 {
        assert forall|k: int| 0 <= k < s.drop_last().len() implies is_digit(
            #[trigger] s.drop_last()[k],
        ) by {
            assert(s.drop_last()[k] == s[k]);
        }
        lemma_digits_nonneg(s.drop_last());
    }
}

/// Reading further digits never shrinks the value already read.
proof fn lemma_digits_prefix(s: Seq<char>, k: int)
    requires
        all_digits(s),
        0 <= k <= s.len(),
    ensures
        0 <= digits_value(s.subrange(0, k)),
        digits_value(s.subrange(0, k)) <= digits_value(s),
    decreases s.len() - k,
{
    assert forall|j: int| 0 <= j < s.subrange(0, k).len() implies is_digit(
        #[trigger] s.subrange(0, k)[j],
    ) by {
        assert(s.subrange(0, k)[j] == s[j]);
    }
    lemma_digits_nonneg(s.subrange(0, k));
    if k == s.len() {
        assert(s.subrange(0, k) =~= s);
    } else {
        lemma_digits_prefix(s, k + 1);
        assert(s.subrange(0, k + 1).drop_last() =~= s.subrange(0, k));
        assert(s.subrange(0, k + 1).last() == s[k]);
    }
}

/// The rejection diagnostic carries the offending input verbatim: right
/// after its opening backtick it holds the whole input string.
pub proof fn lemma_error_contains_input(s: Seq<char>)
    ensures
        chat_id_error_view(s).subrange(1, 1 + s.len() as int) == s,
{
    reveal_strlit("`");
    assert(chat_id_error_view(s).subrange(1, 1 + s.len() as int) =~= s);
}

/// Builds the rejection diagnostic around the offending input.
fn chat_id_error(s: &str) -> (r: String)
    ensures
        r@ == chat_id_error_view(s@),
{
    let mut e = String::from_str("`");
    e.append(s);
    e.append("` isn't a chat id");
    e
}

/// Parses a chat identifier from its textual form.
///
/// Exactly the valid strings (optional sign, one or more digits, value in
/// `i64` range) are accepted, and the accepted value is the one the string
/// denotes; every other string is rejected with a diagnostic that contains
/// the input verbatim.
pub fn parse_chat_id(s: &str) -> (r: Result<ChatId, String>)
    ensures
        r is Ok <==> is_valid_chat_id_string(s@),
        r matches Ok(id) ==> id.0 == chat_id_value(s@),
        r matches Err(e) ==> e@ == chat_id_error_view(s@),
{
    let n = s.unicode_len();
    if n == 0 {
        return Err(chat_id_error(s));
    }
    let first = s.get_char(0);
    let neg = first == '-';
    let start: usize = if first == '-' || first == '+' {
        1
    } else {
        0
    };
    if start == n {
        proof {
            assert(body_of(s@).len() == 0);
        }
        return Err(chat_id_error(s));
    }
    let limit: u128 = if neg {
        9223372036854775808
    } else {
        9223372036854775807
    };
    let mut acc: u128 = 0;
    let mut i: usize = start;
    while i < n
        invariant
            start <= i <= n,
            n == s@.len(),
            0 < n,
            start == if has_sign(s@) { 1int } else { 0int },
            neg == (s@[0] == '-'),
            start < n,
            limit == if neg { 0x8000_0000_0000_0000u128 } else { 0x7fff_ffff_ffff_ffffu128 },
            acc <= limit,
            acc == digits_value(s@.subrange(start as int, i as int)),
            all_digits(s@.subrange(start as int, i as int)),
        decreases n - i,
    {
        let c = s.get_char(i);
        let cu = c as u32;
        if cu < 48 || cu > 57 {
            proof {
                let b = body_of(s@);
                assert(b[i - start] == s@[i as int]);
                assert(!is_digit(s@[i as int]));
                assert(!all_digits(b));
            }
            return Err(chat_id_error(s));
        }
        let d: u128 = (cu - 48) as u128;
        assert(is_digit(s@[i as int]) && d == digit_val(s@[i as int]));
        let next: u128 = acc * 10 + d;
        proof {
            assert(s@.subrange(start as int, i as int + 1).drop_last() =~= s@.subrange(
                start as int,
                i as int,
            ));
            assert(s@.subrange(start as int, i as int + 1).last() == s@[i as int]);
            assert forall|k: int| 0 <= k < s@.subrange(start as int, i as int + 1).len() implies
                is_digit(#[trigger] s@.subrange(start as int, i as int + 1)[k]) by {
                assert(s@.subrange(start as int, i as int + 1)[k] == s@[start + k]);
            }
        }
        if next > limit {
            proof {
                let b = body_of(s@);
                if all_digits(b) {
                    lemma_digits_prefix(b, i + 1 - start as int);
                    assert(b.subrange(0, i + 1 - start as int) =~= s@.subrange(
                        start as int,
                        i as int + 1,
                    ));
                    assert(digits_value(s@.subrange(start as int, i as int + 1)) == acc * 10 + d);
                    assert(digits_value(b) >= next as int);
                    assert(digits_value(b) > limit as int);
                    if neg {
                        assert(sign_of(s@) == -1);
                        assert(chat_id_value(s@) == -1 * digits_value(b));
                        assert(digits_value(b) > 0x8000_0000_0000_0000);
                        assert(chat_id_value(s@) < i64::MIN as int);
                    } else {
                        assert(sign_of(s@) == 1);
                        assert(chat_id_value(s@) == digits_value(b));
                        assert(digits_value(b) > 0x7fff_ffff_ffff_ffff);
                        assert(chat_id_value(s@) > i64::MAX as int);
                    }
                }
                assert(!is_valid_chat_id_string(s@));
            }
            return Err(chat_id_error(s));
        }
        acc = next;
        i = i + 1;
    }
    proof {
        assert(body_of(s@) =~= s@.subrange(start as int, n as int));
        lemma_digits_nonneg(body_of(s@));
    }
    let v: i64 = if neg {
        let m: i128 = -(acc as i128);
        proof {
            assert(i64::MIN as int <= m as int <= i64::MAX as int);
        }
        m as i64
    } else {
        acc as i64
    };
    proof {
        assert(v as int == chat_id_value(s@));
        assert(is_valid_chat_id_string(s@));
    }
    Ok(ChatId(v))
}

} // verus!
