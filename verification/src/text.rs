use vstd::prelude::*;

verus! {

/// Whether two texts are equal.
pub fn same_text(a: &str, b: &str) -> (res: bool)
    ensures
        res == (a@ == b@),
{
    String::from_str(a) == String::from_str(b)
}

/// Whether the character is an ASCII decimal digit.
pub open spec fn is_decimal_digit(c: char) -> bool {
    '0' <= c <= '9'
}

/// The number that a string of decimal digits denotes.
pub open spec fn decimal_value(digits: Seq<char>) -> int
    decreases digits.len(),
{
    if digits.len() == 0 {
        0
    } else {
        decimal_value(digits.drop_last()) * 10 + (digits.last() as int - '0' as int)
    }
}

/// The text without the '+' that may start it.
pub open spec fn unsigned_digits(text: Seq<char>) -> Seq<char> {
    if text.len() > 0 && text[0] == '+' {
        text.drop_first()
    } else {
        text
    }
}

/// The number that a text denotes when read as an unsigned 64-bit integer, as
/// `u64::from_str` reads it: an optional '+' and then one or more decimal digits, whose
/// value fits; `None` for any other text.
pub open spec fn u64_from_text(text: Seq<char>) -> Option<u64> {
    let digits = unsigned_digits(text);
    if digits.len() > 0 && (forall|i: int| 0 <= i < digits.len() ==> is_decimal_digit(
        #[trigger] digits[i],
    )) && decimal_value(digits) <= u64::MAX {
        Some(decimal_value(digits) as u64)
    } else {
        None
    }
}

proof fn lemma_decimal_value_grows(digits: Seq<char>, k: int)
    requires
        0 <= k <= digits.len(),
        forall|i: int| 0 <= i < digits.len() ==> is_decimal_digit(#[trigger] digits[i]),
    ensures
        decimal_value(digits.take(k)) <= decimal_value(digits),
        0 <= decimal_value(digits),
    decreases digits.len(),
{
    if digits.len() > 0 {
        let shorter = digits.drop_last();
        if k < digits.len() {
            assert(shorter.take(k) =~= digits.take(k));
            lemma_decimal_value_grows(shorter, k);
        } else {
            assert(digits.take(k) =~= digits);
            lemma_decimal_value_grows(shorter, 0);
        }
    }
}

/// Reads a text as an unsigned 64-bit integer, as `u64::from_str` does.
pub fn parse_u64(text: &str) -> (res: Option<u64>)
    ensures
        res == u64_from_text(text@),
{
    let n = text.unicode_len();
    let start: usize = if n > 0 && text.get_char(0) == '+' {
        1
    } else {
        0
    };
    let ghost digits = text@.subrange(start as int, n as int);
    proof {
        if start == 1 {
            assert(digits =~= text@.drop_first());
        } else {
            assert(digits =~= text@);
        }
        assert(digits == unsigned_digits(text@));
    }
    if start == n {
        return None;
    }
    let mut value: u64 = 0;
    let mut i: usize = start;
    while i < n
        invariant
            n == text@.len(),
            start <= i <= n,
            start < n,
            digits == text@.subrange(start as int, n as int),
            digits == unsigned_digits(text@),
            forall|j: int| 0 <= j < i - start ==> is_decimal_digit(#[trigger] digits[j]),
            value == decimal_value(digits.take(i - start)),
        decreases n - i,
    {
        let c = text.get_char(i);
        if c < '0' || c > '9' {
            proof {
                assert(digits[i - start] == c);
                assert(!is_decimal_digit(digits[i - start]));
                assert(!(forall|j: int| 0 <= j < digits.len() ==> is_decimal_digit(#[trigger] digits[j])));
                assert(u64_from_text(text@) is None);
            }
            return None;
        }
        let digit = (c as u32 - '0' as u32) as u64;
        proof {
            let prefix = digits.take(i + 1 - start);
            assert(prefix.drop_last() =~= digits.take(i - start));
            assert(prefix.last() == c);
        }
        if value > (u64::MAX - digit) / 10 {
            proof {
                assert(value * 10 + digit > u64::MAX) by (nonlinear_arith)
                    requires
                        value > (u64::MAX - digit) / 10,
                        digit <= 9,
                ;
                let prefix = digits.take(i + 1 - start);
                if forall|j: int| 0 <= j < digits.len() ==> is_decimal_digit(#[trigger] digits[j]) {
                    lemma_decimal_value_grows(digits, i + 1 - start);
                    assert(decimal_value(prefix) == value * 10 + digit);
                    assert(decimal_value(digits) > u64::MAX);
                }
                assert(u64_from_text(text@) is None);
            }
            return None;
        }
        value = value * 10 + digit;
        i = i + 1;
    }
    proof {
        assert(digits.take(n - start) =~= digits);
    }
    Some(value)
}


/// The decimal digit that stands for `d`, for `d` below ten.
pub open spec fn decimal_digit(d: nat) -> char {
    ('0' as int + d) as char
}

/// The decimal text of a number, without sign or leading zeros, as `Display` writes it.
pub open spec fn decimal_text(n: nat) -> Seq<char>
    decreases n,
{
    if n < 10 {
        seq![decimal_digit(n)]
    } else {
        decimal_text(n / 10).push(decimal_digit(n % 10))
    }
}

/// Appends the decimal text of `n` to `text`.
pub fn push_decimal(text: &mut String, n: u32)
    ensures
        final(text)@ == old(text)@ + decimal_text(n as nat),
    decreases n,
{
    if n >= 10 {
        push_decimal(text, n / 10);
    }
    let d = (n % 10) as usize;
    let digits = "0123456789";
    proof {
        reveal_strlit("0123456789");
    }
    let digit = digits.substring_char(d, d + 1);
    proof {
        assert(digit@ =~= seq![decimal_digit(d as nat)]);
    }
    text.append(digit);
    proof {
        assert(text@ =~= old(text)@ + decimal_text(n as nat));
    }
}

} // verus!
