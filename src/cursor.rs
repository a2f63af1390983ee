use vstd::prelude::*;

verus! {

pub open spec fn is_digit(c: char) -> bool {
    '0' <= c && c <= '9'
}

pub open spec fn digit_value(c: char) -> int {
    c as int - '0' as int
}

pub open spec fn digit_char(d: int) -> char {
    ('0' as int + d) as char
}

/// The number that a string of decimal digits spells.
pub open spec fn digits_value(s: Seq<char>) -> int
    decreases s.len(),
{
    if s.len() == 0 {
        0
    } else {
        digits_value(s.drop_last()) * 10 + digit_value(s.last())
    }
}

pub open spec fn all_digits(s: Seq<char>) -> bool {
    forall|i: int| 0 <= i < s.len() ==> is_digit(#[trigger] s[i])
}

/// What follows an optional leading `+`.
pub open spec fn unsigned_part(s: Seq<char>) -> Seq<char> {
    if s.len() > 0 && s[0] == '+' {
        s.subrange(1, s.len() as int)
    } else {
        s
    }
}

/// The position that a cursor text stands for: an optional `+` and one or
/// more decimal digits whose value fits in `usize`; `None` for any other text.
pub open spec fn decoded_cursor(s: Seq<char>) -> Option<usize> {
    let d = unsigned_part(s);
    if d.len() > 0 && all_digits(d) && digits_value(d) <= usize::MAX {
        Some(digits_value(d) as usize)
    } else {
        None
    }
}

/// The decimal digits of `n`, without leading zeros.
pub open spec fn decimal(n: nat) -> Seq<char>
    decreases n,
{
    if n < 10 {
        seq![digit_char(n as int)]
    } else {
        decimal(n / 10).push(digit_char((n % 10) as int))
    }
}

/// The decimal form of `n` is a non-empty run of digits that spells `n`.
pub proof fn lemma_decimal_spells(n: nat)
    ensures
        decimal(n).len() > 0,
        all_digits(decimal(n)),
        decimal(n)[0] != '+',
        digits_value(decimal(n)) == n,
    decreases n,
{
    let s = decimal(n);
    if n < 10 {
        assert(s.drop_last() =~= Seq::<char>::empty());
        assert(is_digit(s[0]));
        assert(digit_value(s.last()) == n);
        assert(digits_value(s.drop_last()) == 0);
    } else {
        lemma_decimal_spells(n / 10);
        let p = decimal(n / 10);
        assert(s.drop_last() =~= p);
        assert(s[0] == p[0]);
        assert(digit_value(s.last()) == n % 10);
        assert(digits_value(s) == digits_value(p) * 10 + n % 10);
        assert forall|i: int| 0 <= i < s.len() implies is_digit(#[trigger] s[i]) by {
            if i < p.len() {
                assert(is_digit(p[i]));
            }
        }
    }
}

/// Decoding the cursor of a position gives the position back.
pub proof fn lemma_cursor_round_trip(n: usize)
    ensures
        decoded_cursor(decimal(n as nat)) == Some(n),
{
    lemma_decimal_spells(n as nat);
}

/// Relies on async_graphql's `CursorType` impl for `usize`, whose
/// `encode_cursor` is `to_string`: the decimal digits of the position.
#[verifier::external_body]
fn encode_position(position: usize) -> (r: String)
    ensures
        r@ == decimal(position as nat),
{
    async_graphql::connection::CursorType::encode_cursor(&position)
}

/// Relies on async_graphql's `CursorType` impl for `usize`, whose
/// `decode_cursor` is `str::parse::<usize>`: an optional `+`, then decimal
/// digits whose value fits, and an error for any other text.
#[verifier::external_body]
fn decode_position(text: &str) -> (r: Option<usize>)
    ensures
        r == decoded_cursor(text@),
{
    <usize as async_graphql::connection::CursorType>::decode_cursor(text).ok()
}

/// The opaque cursor of an absolute position: its decimal form.
pub fn encode_cursor(position: usize) -> (r: String)
    ensures
        r@ == decimal(position as nat),
        decoded_cursor(r@) == Some(position),
{
    proof {
        lemma_cursor_round_trip(position);
    }
    encode_position(position)
}

/// The position that a cursor stands for, or `None` when the text is no cursor.
pub fn decode_cursor(text: &str) -> (r: Option<usize>)
    ensures
        r == decoded_cursor(text@),
{
    decode_position(text)
}

} // verus!
