//! The wager entry: the digits a player types as a stake, and the stake they
//! stand for.

use crate::blackjack::MAX_WAGER;
use crate::text::{byte_len, chars_of, pop_char, push_char, utf8_len};
use vstd::prelude::*;

verus! {

/// Most keys the wager entry accepts: twelve digits.
pub const MAX_WAGER_DIGITS: usize = 12;

/// Value of a string of decimal digits.
pub open spec fn digits_value(s: Seq<char>) -> int
    decreases s.len(),
{
    if s.len() == 0 {
        0
    } else {
        10 * digits_value(s.drop_last()) + (s.last() as int - '0' as int)
    }
}

/// Every character is an ASCII decimal digit.
pub open spec fn all_digits(s: Seq<char>) -> bool {
    forall|i: int| 0 <= i < s.len() ==> '0' <= #[trigger] s[i] <= '9'
}

/// The wager buffer holds nothing but decimal digits, at most twelve of them.
pub open spec fn wager_buffer_ok(buf: Seq<char>) -> bool {
    all_digits(buf) && buf.len() <= MAX_WAGER_DIGITS
}

/// The wager a buffer holds: a non-empty string of digits whose value is at
/// least 1 and fits in a `u64`.
pub open spec fn spec_parsed_wager(s: Seq<char>) -> Option<u64> {
    if s.len() > 0 && all_digits(s) && 1 <= digits_value(s) <= u64::MAX {
        Some(digits_value(s) as u64)
    } else {
        None
    }
}

/// `10` to the power `n`.
pub open spec fn pow10(n: nat) -> int
    decreases n,
{
    if n == 0 {
        1
    } else {
        10 * pow10((n - 1) as nat)
    }
}

/// Powers of ten grow with the exponent.
proof fn lemma_pow10_grows(n: nat, m: nat)
    requires
        n <= m,
    ensures
        1 <= pow10(n) <= pow10(m),
    decreases m,
{
    if n < m {
        lemma_pow10_grows(n, (m - 1) as nat);
    } else if n > 0 {
        lemma_pow10_grows((n - 1) as nat, (n - 1) as nat);
    }
}

/// A string of `n` digits is worth less than `10^n`.
proof fn lemma_digits_value_below_pow10(s: Seq<char>)
    requires
        all_digits(s),
    ensures
        digits_value(s) < pow10(s.len()),
    decreases s.len(),
{
    if s.len() > 0 {
        assert(all_digits(s.drop_last()));
        lemma_digits_value_below_pow10(s.drop_last());
        assert('0' <= s[s.len() - 1] <= '9');
    }
}

/// A string of digits has a value of at least zero.
proof fn lemma_digits_value_nonneg(s: Seq<char>)
    requires
        all_digits(s),
    ensures
        digits_value(s) >= 0,
    decreases s.len(),
{
    if s.len() > 0 {
        lemma_digits_value_nonneg(s.drop_last());
    }
}

/// Decimal reading: appending a digit multiplies the value by ten and adds
/// the digit, so a value never shrinks as digits are typed.
pub proof fn lemma_digits_value_grows(s: Seq<char>, c: char)
    requires
        all_digits(s),
        '0' <= c <= '9',
    ensures
        digits_value(s.push(c)) == 10 * digits_value(s) + (c as int - '0' as int),
        digits_value(s.push(c)) >= digits_value(s),
        all_digits(s.push(c)),
{
    assert(s.push(c).drop_last() =~= s);
    lemma_digits_value_nonneg(s);
}

/// A buffer of digits is as long in bytes as in characters.
proof fn lemma_digit_bytes(buf: Seq<char>)
    requires
        wager_buffer_ok(buf),
    ensures
        utf8_len(buf) == buf.len(),
{
    assert(vstd::utf8::is_ascii_chars(buf)) by {
        assert forall|i: int| 0 <= i < buf.len() implies '\0' <= #[trigger] buf[i] <= '\u{7f}' by {
            assert('0' <= buf[i] <= '9');
        }
    }
    vstd::utf8::is_ascii_chars_encode_utf8(buf);
}

/// A wager read from a buffer of at most twelve digits is at least 1 and
/// within the wager limit.
pub proof fn lemma_buffer_wager_within_limit(buf: Seq<char>)
    requires
        wager_buffer_ok(buf),
    ensures
        MAX_WAGER_DIGITS == 12,
        spec_parsed_wager(buf) matches Some(w) ==> 1 <= w <= MAX_WAGER,
{
    lemma_digits_value_below_pow10(buf);
    lemma_pow10_grows(buf.len(), 12);
    assert(pow10(12) == 1_000_000_000_000) by {
        reveal_with_fuel(pow10, 13);
    }
}

/// The digits typed as a wager. The buffer only ever holds ASCII decimal
/// digits, at most `MAX_WAGER_DIGITS` of them: keys other than digits never
/// reach it, so its text always reads as a whole number of cookies.
pub struct WagerBuffer {
    digits: String,
}

impl View for WagerBuffer {
    type V = Seq<char>;

    closed spec fn view(&self) -> Seq<char> {
        self.digits@
    }
}

impl WagerBuffer {
    /// At most twelve ASCII decimal digits.
    #[verifier::type_invariant]
    spec fn inv(self) -> bool {
        wager_buffer_ok(self.digits@)
    }

    /// An empty buffer.
    pub fn new() -> (b: WagerBuffer)
        ensures
            b@ == Seq::<char>::empty(),
    {
        WagerBuffer { digits: String::new() }
    }

    /// A buffer holding `s`, when `s` is at most twelve ASCII decimal digits;
    /// `None` otherwise.
    pub fn from_digits(s: &str) -> (b: Option<WagerBuffer>)
        ensures
            b is Some <==> wager_buffer_ok(s@),
            b matches Some(x) ==> x@ == s@,
    {
        let chars = chars_of(s);
        if chars.len() > MAX_WAGER_DIGITS {
            return None;
        }
        let mut i: usize = 0;
        while i < chars.len()
            invariant
                chars@ == s@,
                i <= chars@.len(),
                forall|j: int| 0 <= j < i ==> '0' <= #[trigger] chars@[j] <= '9',
            decreases chars@.len() - i,
        {
            if chars[i] < '0' || chars[i] > '9' {
                return None;
            }
            i = i + 1;
        }
        Some(WagerBuffer { digits: s.to_string() })
    }

    /// The digits, as text.
    pub fn as_str(&self) -> (s: &str)
        ensures
            s@ == self@,
    {
        self.digits.as_str()
    }

    /// Whether no digit has been typed.
    pub fn is_empty(&self) -> (empty: bool)
        ensures
            empty == (self@.len() == 0),
    {
        self.digits.as_str().is_empty()
    }

    /// Appends the digit `c` while the buffer holds fewer than twelve digits
    /// (twelve bytes); a full buffer is left as it is.
    pub fn push_digit(&mut self, c: char)
        requires
            '0' <= c <= '9',
        ensures
            final(self)@ == if old(self)@.len() < MAX_WAGER_DIGITS {
                old(self)@.push(c)
            } else {
                old(self)@
            },
    {
        proof {
            use_type_invariant(&*self);
            lemma_digit_bytes(self.digits@);
        }
        if byte_len(&self.digits) < MAX_WAGER_DIGITS {
            let mut d = self.digits.clone();
            push_char(&mut d, c);
            proof {
                assert forall|i: int| 0 <= i < d@.len() implies '0' <= #[trigger] d@[i] <= '9' by {
                    if i < self.digits@.len() {
                        assert(d@[i] == self.digits@[i]);
                    }
                }
            }
            self.digits = d;
        }
    }

    /// Removes the last digit, if any.
    pub fn pop_digit(&mut self)
        ensures
            final(self)@ == if old(self)@.len() > 0 {
                old(self)@.drop_last()
            } else {
                old(self)@
            },
    {
        proof {
            use_type_invariant(&*self);
        }
        let mut d = self.digits.clone();
        pop_char(&mut d);
        proof {
            assert forall|i: int| 0 <= i < d@.len() implies '0' <= #[trigger] d@[i] <= '9' by {
                assert(d@[i] == self.digits@[i]);
            }
        }
        self.digits = d;
    }

    /// Empties the buffer.
    pub fn clear(&mut self)
        ensures
            final(self)@ == Seq::<char>::empty(),
    {
        self.digits = String::new();
    }

    /// The wager the buffer stands for: its value, when it holds at least one
    /// digit and that value is at least 1; `None` otherwise. Being at most
    /// twelve digits, a wager is never above `MAX_WAGER`.
    pub fn parsed(&self) -> (w: Option<u64>)
        ensures
            w == spec_parsed_wager(self@),
            wager_buffer_ok(self@),
            w matches Some(v) ==> 1 <= v <= MAX_WAGER,
    {
        proof {
            use_type_invariant(self);
            lemma_buffer_wager_within_limit(self.digits@);
            assert(pow10(12) == 1_000_000_000_000) by {
                reveal_with_fuel(pow10, 13);
            }
        }
        let chars = chars_of(self.digits.as_str());
        if chars.len() == 0 {
            return None;
        }
        let mut value: u64 = 0;
        let mut i: usize = 0;
        while i < chars.len()
            invariant
                chars@ == self.digits@,
                wager_buffer_ok(chars@),
                i <= chars@.len(),
                all_digits(chars@.take(i as int)),
                value == digits_value(chars@.take(i as int)),
                value < pow10(i as nat),
                pow10(12) == 1_000_000_000_000,
            decreases chars@.len() - i,
        {
            let c = chars[i];
            let d = (c as u32 - '0' as u32) as u64;
            proof {
                assert('0' <= c <= '9');
                assert(chars@.take(i + 1) =~= chars@.take(i as int).push(c));
                lemma_digits_value_grows(chars@.take(i as int), c);
                lemma_pow10_grows((i + 1) as nat, 12);
                assert(pow10((i + 1) as nat) == 10 * pow10(i as nat));
            }
            value = value * 10 + d;
            i = i + 1;
        }
        proof {
            assert(chars@.take(i as int) =~= chars@);
        }
        if value >= 1 {
            Some(value)
        } else {
            None
        }
    }
}

} // verus!
