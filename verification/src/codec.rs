//! JSON wire codec for the command record.
//!
//! The remote service holds the record as a flat JSON object
//! `{"executed":E,"up":U,"amount":A,"over_ride":O,"over_ride_day":D}` whose
//! values are unsigned decimal integers.  The encoder always emits that
//! canonical text; the decoder accepts it with arbitrary JSON whitespace
//! between tokens and rejects everything else.

use vstd::prelude::*;

use crate::command::Direction;
use crate::command::DoorCommand;

verus! {

// ---------------------------------------------------------------------------
// Characters
// ---------------------------------------------------------------------------

/// JSON insignificant whitespace.
pub open spec fn is_ws_char(c: char) -> bool {
    c == ' ' || c == '\t' || c == '\n' || c == '\r'
}

/// A decimal digit.
pub open spec fn is_digit_char(c: char) -> bool {
    48 <= c as int && c as int <= 57
}

/// The numeric value of a decimal digit.
pub open spec fn digit_value(c: char) -> nat
    recommends
        is_digit_char(c),
{
    (c as int - 48) as nat
}

/// The decimal digit with value `d`.
pub open spec fn spec_digit_char(d: nat) -> char
    recommends
        d < 10,
{
    if d == 0 {
        '0'
    } else if d == 1 {
        '1'
    } else if d == 2 {
        '2'
    } else if d == 3 {
        '3'
    } else if d == 4 {
        '4'
    } else if d == 5 {
        '5'
    } else if d == 6 {
        '6'
    } else if d == 7 {
        '7'
    } else if d == 8 {
        '8'
    } else {
        '9'
    }
}

// ---------------------------------------------------------------------------
// Decimal rendering of an unsigned value
// ---------------------------------------------------------------------------

/// The decimal digit string of `n`, most significant digit first, with no
/// leading zeros (`0` itself is the single digit `0`).
pub open spec fn spec_udigits(n: nat) -> Seq<char>
    decreases n,
{
    if n < 10 {
        seq![spec_digit_char(n)]
    } else {
        spec_udigits(n / 10).push(spec_digit_char(n % 10))
    }
}

/// Every character of a digit string is a digit, and the leading digit of a
/// positive value is not `0`.
pub proof fn lemma_udigits_shape(n: nat)
    ensures
        spec_udigits(n).len() >= 1,
        forall|i: int|
            0 <= i < spec_udigits(n).len() ==> is_digit_char(#[trigger] spec_udigits(n)[i]),
        n > 0 ==> spec_udigits(n)[0] != '0',
    decreases n,
{
    if n >= 10 {
        lemma_udigits_shape(n / 10);
        assert forall|i: int| 0 <= i < spec_udigits(n).len() implies is_digit_char(
            #[trigger] spec_udigits(n)[i],
        ) by {
            if i < spec_udigits(n / 10).len() {
                assert(spec_udigits(n)[i] == spec_udigits(n / 10)[i]);
            } else {
                assert(spec_udigits(n)[i] == spec_digit_char(n % 10));
            }
        }
        assert(spec_udigits(n)[0] == spec_udigits(n / 10)[0]);
    }
}

/// The value read from a digit string appended to an accumulator, most
/// significant digit first.
pub open spec fn spec_seq_val(ds: Seq<char>, acc: nat) -> nat
    decreases ds.len(),
{
    if ds.len() == 0 {
        acc
    } else {
        spec_seq_val(ds.skip(1), acc * 10 + digit_value(ds[0]))
    }
}

/// Reading digits never decreases the accumulated value.
pub proof fn lemma_seq_val_ge(ds: Seq<char>, acc: nat)
    ensures
        spec_seq_val(ds, acc) >= acc,
    decreases ds.len(),
{
    if ds.len() > 0 {
        lemma_seq_val_ge(ds.skip(1), acc * 10 + digit_value(ds[0]));
    }
}

/// Appending a digit multiplies the read value by ten and adds the digit.
pub proof fn lemma_seq_val_push(ds: Seq<char>, c: char, acc: nat)
    ensures
        spec_seq_val(ds.push(c), acc) == spec_seq_val(ds, acc) * 10 + digit_value(c),
    decreases ds.len(),
{
    if ds.len() == 0 {
        assert(ds.push(c)[0] == c);
        assert(ds.push(c).skip(1) =~= Seq::<char>::empty());
        assert(spec_seq_val(Seq::<char>::empty(), acc * 10 + digit_value(c)) == acc * 10
            + digit_value(c));
    } else {
        assert(ds.push(c)[0] == ds[0]);
        assert(ds.push(c).skip(1) =~= ds.skip(1).push(c));
        lemma_seq_val_push(ds.skip(1), c, acc * 10 + digit_value(ds[0]));
    }
}

/// Reading back the digit string of `n` yields `n`.
pub proof fn lemma_udigits_val(n: nat)
    ensures
        spec_seq_val(spec_udigits(n), 0) == n,
    decreases n,
{
    if n < 10 {
        assert(spec_udigits(n) == seq![spec_digit_char(n)]);
        assert(spec_udigits(n)[0] == spec_digit_char(n));
        assert(spec_udigits(n).skip(1) =~= Seq::<char>::empty());
        assert(digit_value(spec_digit_char(n)) == n);
        assert(spec_seq_val(Seq::<char>::empty(), n) == n);
        assert(spec_seq_val(spec_udigits(n), 0) == spec_seq_val(spec_udigits(n).skip(1), n));
    } else {
        lemma_udigits_val(n / 10);
        lemma_seq_val_push(spec_udigits(n / 10), spec_digit_char(n % 10), 0);
        assert(digit_value(spec_digit_char(n % 10)) == n % 10);
    }
}

/// The single decimal digit with value `d`, as text.
fn digit_str(d: u64) -> (s: &'static str)
    requires
        d < 10,
    ensures
        s@ =~= seq![spec_digit_char(d as nat)],
{
    if d == 0 {
        proof {
            reveal_strlit("0");
        }
        "0"
    } else if d == 1 {
        proof {
            reveal_strlit("1");
        }
        "1"
    } else if d == 2 {
        proof {
            reveal_strlit("2");
        }
        "2"
    } else if d == 3 {
        proof {
            reveal_strlit("3");
        }
        "3"
    } else if d == 4 {
        proof {
            reveal_strlit("4");
        }
        "4"
    } else if d == 5 {
        proof {
            reveal_strlit("5");
        }
        "5"
    } else if d == 6 {
        proof {
            reveal_strlit("6");
        }
        "6"
    } else if d == 7 {
        proof {
            reveal_strlit("7");
        }
        "7"
    } else if d == 8 {
        proof {
            reveal_strlit("8");
        }
        "8"
    } else {
        proof {
            reveal_strlit("9");
        }
        "9"
    }
}

/// The wire value of a boolean field: `1` for true, `0` for false.
pub open spec fn bool_wire(b: bool) -> nat {
    if b {
        1
    } else {
        0
    }
}

/// The wire value of the direction field: `1` moves up, anything else down.
pub open spec fn direction_wire(d: Direction) -> nat {
    match d {
        Direction::Up => 1,
        Direction::Down => 0,
    }
}

/// One `"key":value` field of the wire object, followed by `tail`.
pub open spec fn spec_field_text(key: Seq<char>, value: nat, tail: Seq<char>) -> Seq<char> {
    seq!['"'] + key + seq!['"', ':'] + spec_udigits(value) + tail
}

/// The canonical wire text of a command record.
pub open spec fn spec_encode(c: DoorCommand) -> Seq<char> {
    seq!['{'] + spec_field_text(
        "executed"@,
        bool_wire(c.executed),
        seq![','] + spec_field_text(
            "up"@,
            direction_wire(c.direction),
            seq![','] + spec_field_text(
                "amount"@,
                c.amount as nat,
                seq![','] + spec_field_text(
                    "over_ride"@,
                    bool_wire(c.override_flag),
                    seq![','] + spec_field_text(
                        "over_ride_day"@,
                        c.override_day as nat,
                        seq!['}'],
                    ),
                ),
            ),
        ),
    )
}

/// Appends the decimal digit string of `n` to `out`.
pub fn push_udigits(out: &mut String, n: u64)
    ensures
        final (out)@ == old(out)@ + spec_udigits(n as nat),
    decreases n,
{
    if n >= 10 {
        push_udigits(out, n / 10);
    }
    let d = digit_str(n % 10);
    out.append(d);
    proof {
        if n < 10 {
            assert(old(out)@ + d@ =~= old(out)@ + spec_udigits(n as nat));
        } else {
            let pre = old(out)@ + spec_udigits((n / 10) as nat);
            assert(pre + d@ =~= old(out)@ + spec_udigits(n as nat));
        }
    }
}

// ---------------------------------------------------------------------------
// The decoder's grammar, stated over character sequences
// ---------------------------------------------------------------------------

/// Drops leading JSON whitespace.
pub open spec fn spec_skip_ws(s: Seq<char>) -> Seq<char>
    decreases s.len(),
{
    if s.len() > 0 && is_ws_char(s[0]) {
        spec_skip_ws(s.skip(1))
    } else {
        s
    }
}

/// Consumes the literal `lit` from the front of `s`, or fails.
pub open spec fn spec_expect(s: Seq<char>, lit: Seq<char>) -> Option<Seq<char>>
    decreases lit.len(),
{
    if lit.len() == 0 {
        Some(s)
    } else if s.len() > 0 && s[0] == lit[0] {
        spec_expect(s.skip(1), lit.skip(1))
    } else {
        None
    }
}

/// Consumes leading whitespace, then the single character `c`.
pub open spec fn spec_expect_token(s: Seq<char>, c: char) -> Option<Seq<char>> {
    spec_expect(spec_skip_ws(s), seq![c])
}

/// Consumes a maximal run of digits, accumulating onto `acc`; fails as soon
/// as the value would exceed `bound`.
pub open spec fn spec_digits_loop(s: Seq<char>, acc: nat, bound: nat) -> Option<(nat, Seq<char>)>
    decreases s.len(),
{
    if s.len() > 0 && is_digit_char(s[0]) {
        if acc * 10 + digit_value(s[0]) > bound {
            None
        } else {
            spec_digits_loop(s.skip(1), acc * 10 + digit_value(s[0]), bound)
        }
    } else {
        Some((acc, s))
    }
}

/// Consumes a JSON unsigned integer no larger than `bound`.  A leading `0`
/// is the whole number, as JSON forbids leading zeros.
pub open spec fn spec_parse_uint(s: Seq<char>, bound: nat) -> Option<(nat, Seq<char>)> {
    if s.len() > 0 && is_digit_char(s[0]) {
        if s[0] == '0' {
            Some((0, s.skip(1)))
        } else {
            spec_digits_loop(s, 0, bound)
        }
    } else {
        None
    }
}

/// Consumes one `"key":value` member: the quoted `key`, a colon and an
/// unsigned integer, each token preceded by optional whitespace.
pub open spec fn spec_parse_field(s: Seq<char>, key: Seq<char>, bound: nat) -> Option<
    (nat, Seq<char>),
> {
    match spec_expect(spec_skip_ws(s), seq!['"'] + key + seq!['"']) {
        Some(s1) => match spec_expect_token(s1, ':') {
            Some(s2) => spec_parse_uint(spec_skip_ws(s2), bound),
            None => None,
        },
        None => None,
    }
}

/// The command record denoted by wire values.
pub open spec fn spec_command_of_wire(
    executed: nat,
    up: nat,
    amount: nat,
    over_ride: nat,
    over_ride_day: nat,
) -> DoorCommand {
    DoorCommand {
        executed: executed != 0,
        direction: if up == 1 {
            Direction::Up
        } else {
            Direction::Down
        },
        amount: amount as u8,
        override_flag: over_ride != 0,
        override_day: over_ride_day as u16,
    }
}

/// The whole decoder: the five members in canonical order, each value within
/// its wire bound, with arbitrary whitespace between tokens and nothing after
/// the closing brace.
pub open spec fn spec_parse(s: Seq<char>) -> Option<DoorCommand> {
    match spec_expect_token(s, '{') {
        Some(s1) => match spec_parse_field(s1, "executed"@, 255) {
            Some((executed, s2)) => match spec_expect_token(s2, ',') {
                Some(s3) => match spec_parse_field(s3, "up"@, 255) {
                    Some((up, s4)) => match spec_expect_token(s4, ',') {
                        Some(s5) => match spec_parse_field(s5, "amount"@, 255) {
                            Some((amount, s6)) => match spec_expect_token(s6, ',') {
                                Some(s7) => match spec_parse_field(s7, "over_ride"@, 255) {
                                    Some((over_ride, s8)) => match spec_expect_token(s8, ',') {
                                        Some(s9) => match spec_parse_field(
                                            s9,
                                            "over_ride_day"@,
                                            65535,
                                        ) {
                                            Some((over_ride_day, s10)) => match spec_expect_token(
                                                s10,
                                                '}',
                                            ) {
                                                Some(s11) => if spec_skip_ws(s11).len() == 0 {
                                                    Some(
                                                        spec_command_of_wire(
                                                            executed,
                                                            up,
                                                            amount,
                                                            over_ride,
                                                            over_ride_day,
                                                        ),
                                                    )
                                                } else {
                                                    None
                                                },
                                                None => None,
                                            },
                                            None => None,
                                        },
                                        None => None,
                                    },
                                    None => None,
                                },
                                None => None,
                            },
                            None => None,
                        },
                        None => None,
                    },
                    None => None,
                },
                None => None,
            },
            None => None,
        },
        None => None,
    }
}

// ---------------------------------------------------------------------------
// The decoder inverts the encoder
// ---------------------------------------------------------------------------

/// A literal at the front of the input is consumed exactly.
proof fn lemma_expect_prefix(lit: Seq<char>, rest: Seq<char>)
    ensures
        spec_expect(lit + rest, lit) == Some(rest),
    decreases lit.len(),
{
    if lit.len() == 0 {
        assert(lit + rest =~= rest);
    } else {
        assert((lit + rest)[0] == lit[0]);
        assert((lit + rest).skip(1) =~= lit.skip(1) + rest);
        lemma_expect_prefix(lit.skip(1), rest);
    }
}

/// Skipping whitespace does nothing when the input is empty or starts with a
/// non-whitespace character.
proof fn lemma_skip_ws_noop(s: Seq<char>)
    requires
        s.len() == 0 || !is_ws_char(s[0]),
    ensures
        spec_skip_ws(s) == s,
{
}

/// A single non-whitespace token at the front of the input is consumed.
proof fn lemma_expect_token_head(c: char, rest: Seq<char>)
    requires
        !is_ws_char(c),
    ensures
        spec_expect_token(seq![c] + rest, c) == Some(rest),
{
    lemma_skip_ws_noop(seq![c] + rest);
    lemma_expect_prefix(seq![c], rest);
}

/// A maximal digit run reads back the value its digits denote.
proof fn lemma_digits_loop_eval(ds: Seq<char>, rest: Seq<char>, acc: nat, bound: nat)
    requires
        forall|i: int| 0 <= i < ds.len() ==> is_digit_char(#[trigger] ds[i]),
        rest.len() == 0 || !is_digit_char(rest[0]),
        spec_seq_val(ds, acc) <= bound,
    ensures
        spec_digits_loop(ds + rest, acc, bound) == Some((spec_seq_val(ds, acc), rest)),
    decreases ds.len(),
{
    if ds.len() == 0 {
        assert(ds + rest =~= rest);
    } else {
        assert((ds + rest)[0] == ds[0]);
        let step: nat = acc * 10 + digit_value(ds[0]);
        lemma_seq_val_ge(ds.skip(1), step);
        assert((ds + rest).skip(1) =~= ds.skip(1) + rest);
        lemma_digits_loop_eval(ds.skip(1), rest, step, bound);
    }
}

/// The digit string of `n`, followed by a non-digit, parses back to `n`.
proof fn lemma_parse_uint_digits(n: nat, bound: nat, rest: Seq<char>)
    requires
        n <= bound,
        rest.len() > 0,
        !is_digit_char(rest[0]),
    ensures
        spec_parse_uint(spec_udigits(n) + rest, bound) == Some((n, rest)),
{
    let ds = spec_udigits(n);
    lemma_udigits_shape(n);
    lemma_udigits_val(n);
    assert((ds + rest)[0] == ds[0]);
    if n == 0 {
        assert(ds == seq![spec_digit_char(0)]);
        assert((ds + rest).skip(1) =~= rest);
    } else {
        assert(ds[0] != '0');
        lemma_digits_loop_eval(ds, rest, 0, bound);
    }
}

/// One canonical field member parses back to its value.
proof fn lemma_parse_field_text(key: Seq<char>, n: nat, bound: nat, rest: Seq<char>)
    requires
        n <= bound,
        rest.len() > 0,
        !is_digit_char(rest[0]),
    ensures
        spec_parse_field(spec_field_text(key, n, rest), key, bound) == Some((n, rest)),
{
    let s = spec_field_text(key, n, rest);
    let qkey = seq!['"'] + key + seq!['"'];
    let after_key = seq![':'] + (spec_udigits(n) + rest);
    assert(s[0] == '"');
    lemma_skip_ws_noop(s);
    assert(s =~= qkey + after_key);
    lemma_expect_prefix(qkey, after_key);
    lemma_skip_ws_noop(after_key);
    assert(after_key =~= seq![':'] + (spec_udigits(n) + rest));
    lemma_expect_prefix(seq![':'], spec_udigits(n) + rest);
    lemma_udigits_shape(n);
    assert((spec_udigits(n) + rest)[0] == spec_udigits(n)[0]);
    lemma_skip_ws_noop(spec_udigits(n) + rest);
    lemma_parse_uint_digits(n, bound, rest);
}

// ---------------------------------------------------------------------------
// The executable decoder
// ---------------------------------------------------------------------------

/// The characters of `s` from position `i` on.
pub open spec fn suffix_from(s: Seq<char>, i: int) -> Seq<char> {
    s.subrange(i, s.len() as int)
}

/// Whitespace test on one character.
fn is_ws(c: char) -> (r: bool)
    ensures
        r == is_ws_char(c),
{
    c == ' ' || c == '\t' || c == '\n' || c == '\r'
}

/// Digit test on one character.
fn is_digit(c: char) -> (r: bool)
    ensures
        r == is_digit_char(c),
{
    let u = c as u32;
    48 <= u && u <= 57
}

/// Advances `i` past JSON whitespace.
fn skip_ws(s: &str, i: usize) -> (j: usize)
    requires
        i <= s@.len(),
    ensures
        i <= j <= s@.len(),
        spec_skip_ws(suffix_from(s@, i as int)) == suffix_from(s@, j as int),
{
    let n = s.unicode_len();
    let mut j = i;
    loop
        invariant_except_break
            i <= j <= n,
            n == s@.len(),
            spec_skip_ws(suffix_from(s@, i as int)) == spec_skip_ws(suffix_from(s@, j as int)),
        ensures
            i <= j <= n,
            n == s@.len(),
            spec_skip_ws(suffix_from(s@, i as int)) == suffix_from(s@, j as int),
        decreases n - j,
    {
        if j >= n {
            proof {
                assert(suffix_from(s@, j as int).len() == 0);
            }
            break ;
        }
        let c = s.get_char(j);
        if !is_ws(c) {
            proof {
                assert(suffix_from(s@, j as int)[0] == c);
            }
            break ;
        }
        proof {
            assert(suffix_from(s@, j as int)[0] == c);
            assert(suffix_from(s@, j as int).skip(1) =~= suffix_from(s@, j + 1 as int));
        }
        j = j + 1;
    }
    j
}

/// Consumes the literal `lit` at position `i`, returning the position after
/// it, or `None` where the input deviates from the literal.
fn eat_lit(s: &str, i: usize, lit: &str) -> (r: Option<usize>)
    requires
        i <= s@.len(),
    ensures
        match r {
            Some(j) => i <= j <= s@.len() && spec_expect(suffix_from(s@, i as int), lit@) == Some(
                suffix_from(s@, j as int),
            ),
            None => spec_expect(suffix_from(s@, i as int), lit@) is None,
        },
{
    let n = s.unicode_len();
    let m = lit.unicode_len();
    let mut k: usize = 0;
    proof {
        assert(lit@.skip(0) =~= lit@);
    }
    loop
        invariant_except_break
            k <= m,
            i + k <= n,
            n == s@.len(),
            m == lit@.len(),
            spec_expect(suffix_from(s@, i as int), lit@) == spec_expect(
                suffix_from(s@, (i + k) as int),
                lit@.skip(k as int),
            ),
        ensures
            k == m,
            i + k <= n,
            n == s@.len(),
            spec_expect(suffix_from(s@, i as int), lit@) == Some(suffix_from(s@, (i + k) as int)),
        decreases m - k,
    {
        if k >= m {
            proof {
                assert(lit@.skip(k as int).len() == 0);
            }
            break ;
        }
        if i + k >= n {
            proof {
                assert(suffix_from(s@, (i + k) as int).len() == 0);
                assert(lit@.skip(k as int).len() > 0);
            }
            return None;
        }
        let a = s.get_char(i + k);
        let b = lit.get_char(k);
        proof {
            assert(suffix_from(s@, (i + k) as int)[0] == a);
            assert(lit@.skip(k as int)[0] == b);
        }
        if a != b {
            return None;
        }
        proof {
            assert(suffix_from(s@, (i + k) as int).skip(1) =~= suffix_from(s@, (i + k + 1) as int));
            assert(lit@.skip(k as int).skip(1) =~= lit@.skip((k + 1) as int));
        }
        k = k + 1;
    }
    Some(i + k)
}

/// Consumes whitespace, then the single character `c`.
fn eat_token(s: &str, i: usize, c: char) -> (r: Option<usize>)
    requires
        i <= s@.len(),
    ensures
        match r {
            Some(j) => i <= j <= s@.len() && spec_expect_token(suffix_from(s@, i as int), c)
                == Some(suffix_from(s@, j as int)),
            None => spec_expect_token(suffix_from(s@, i as int), c) is None,
        },
{
    let n = s.unicode_len();
    let j0 = skip_ws(s, i);
    if j0 >= n {
        proof {
            assert(suffix_from(s@, j0 as int).len() == 0);
        }
        return None;
    }
    let ch = s.get_char(j0);
    proof {
        assert(suffix_from(s@, j0 as int)[0] == ch);
    }
    if ch != c {
        return None;
    }
    proof {
        assert(seq![c][0] == c);
        assert(suffix_from(s@, j0 as int).skip(1) =~= suffix_from(s@, (j0 + 1) as int));
        assert(seq![c].skip(1) =~= Seq::<char>::empty());
        assert(spec_expect(suffix_from(s@, (j0 + 1) as int), Seq::<char>::empty()) == Some(
            suffix_from(s@, (j0 + 1) as int),
        ));
    }
    Some(j0 + 1)
}

/// Consumes a JSON unsigned integer no larger than `bound`.
fn parse_uint(s: &str, i: usize, bound: u16) -> (r: Option<(u16, usize)>)
    requires
        i <= s@.len(),
    ensures
        match r {
            Some(p) => i <= p.1 <= s@.len() && p.0 <= bound && spec_parse_uint(
                suffix_from(s@, i as int),
                bound as nat,
            ) == Some((p.0 as nat, suffix_from(s@, p.1 as int))),
            None => spec_parse_uint(suffix_from(s@, i as int), bound as nat) is None,
        },
{
    let n = s.unicode_len();
    if i >= n {
        proof {
            assert(suffix_from(s@, i as int).len() == 0);
        }
        return None;
    }
    let c0 = s.get_char(i);
    proof {
        assert(suffix_from(s@, i as int)[0] == c0);
    }
    if !is_digit(c0) {
        return None;
    }
    if c0 == '0' {
        proof {
            assert(suffix_from(s@, i as int).skip(1) =~= suffix_from(s@, (i + 1) as int));
        }
        return Some((0, i + 1));
    }
    let mut acc: u32 = 0;
    let mut j = i;
    proof {
        assert(spec_parse_uint(suffix_from(s@, i as int), bound as nat) == spec_digits_loop(
            suffix_from(s@, i as int),
            0,
            bound as nat,
        ));
    }
    loop
        invariant_except_break
            i <= j <= n,
            n == s@.len(),
            acc <= bound,
            spec_parse_uint(suffix_from(s@, i as int), bound as nat) == spec_digits_loop(
                suffix_from(s@, i as int),
                0,
                bound as nat,
            ),
            spec_digits_loop(suffix_from(s@, i as int), 0, bound as nat) == spec_digits_loop(
                suffix_from(s@, j as int),
                acc as nat,
                bound as nat,
            ),
        ensures
            i <= j <= n,
            acc <= bound,
            spec_digits_loop(suffix_from(s@, i as int), 0, bound as nat) == Some(
                (acc as nat, suffix_from(s@, j as int)),
            ),
        decreases n - j,
    {
        if j >= n {
            proof {
                assert(suffix_from(s@, j as int).len() == 0);
            }
            break ;
        }
        let c = s.get_char(j);
        proof {
            assert(suffix_from(s@, j as int)[0] == c);
        }
        if !is_digit(c) {
            break ;
        }
        let d = c as u32 - 48;
        let next = acc * 10 + d;
        proof {
            assert(digit_value(c) == d as nat);
        }
        if next > bound as u32 {
            proof {
                assert(spec_digits_loop(suffix_from(s@, j as int), acc as nat, bound as nat)
                    is None);
            }
            return None;
        }
        proof {
            assert(suffix_from(s@, j as int).skip(1) =~= suffix_from(s@, (j + 1) as int));
        }
        acc = next;
        j = j + 1;
    }
    Some((acc as u16, j))
}

/// Consumes one `"key":value` member.  `qkey` must be the quoted form of
/// `key`.
fn parse_field(s: &str, i: usize, qkey: &str, key: &str, bound: u16) -> (r: Option<(u16, usize)>)
    requires
        i <= s@.len(),
        qkey@ == seq!['"'] + key@ + seq!['"'],
    ensures
        match r {
            Some(p) => i <= p.1 <= s@.len() && p.0 <= bound && spec_parse_field(
                suffix_from(s@, i as int),
                key@,
                bound as nat,
            ) == Some((p.0 as nat, suffix_from(s@, p.1 as int))),
            None => spec_parse_field(suffix_from(s@, i as int), key@, bound as nat) is None,
        },
{
    let j0 = skip_ws(s, i);
    let j1 = match eat_lit(s, j0, qkey) {
        Some(j) => j,
        None => {
            return None;
        },
    };
    let j2 = match eat_token(s, j1, ':') {
        Some(j) => j,
        None => {
            return None;
        },
    };
    let j3 = skip_ws(s, j2);
    parse_uint(s, j3, bound)
}

/// Decodes wire text into a command record, accepting arbitrary JSON
/// whitespace between tokens; everything else is rejected.
pub fn decode_command(s: &str) -> (r: Option<DoorCommand>)
    ensures
        r == spec_parse(s@),
{
    proof {
        reveal_strlit("\"executed\"");
        reveal_strlit("\"up\"");
        reveal_strlit("\"amount\"");
        reveal_strlit("\"over_ride\"");
        reveal_strlit("\"over_ride_day\"");
        reveal_strlit("executed");
        reveal_strlit("up");
        reveal_strlit("amount");
        reveal_strlit("over_ride");
        reveal_strlit("over_ride_day");
        assert("\"executed\""@ =~= seq!['"'] + "executed"@ + seq!['"']);
        assert("\"up\""@ =~= seq!['"'] + "up"@ + seq!['"']);
        assert("\"amount\""@ =~= seq!['"'] + "amount"@ + seq!['"']);
        assert("\"over_ride\""@ =~= seq!['"'] + "over_ride"@ + seq!['"']);
        assert("\"over_ride_day\""@ =~= seq!['"'] + "over_ride_day"@ + seq!['"']);
        assert(suffix_from(s@, 0) =~= s@);
    }
    let n = s.unicode_len();
    let i1 = match eat_token(s, 0, '{') {
        Some(j) => j,
        None => {
            return None;
        },
    };
    let (v_executed, i2) = match parse_field(s, i1, "\"executed\"", "executed", 255) {
        Some(p) => p,
        None => {
            return None;
        },
    };
    let i3 = match eat_token(s, i2, ',') {
        Some(j) => j,
        None => {
            return None;
        },
    };
    let (v_up, i4) = match parse_field(s, i3, "\"up\"", "up", 255) {
        Some(p) => p,
        None => {
            return None;
        },
    };
    let i5 = match eat_token(s, i4, ',') {
        Some(j) => j,
        None => {
            return None;
        },
    };
    let (v_amount, i6) = match parse_field(s, i5, "\"amount\"", "amount", 255) {
        Some(p) => p,
        None => {
            return None;
        },
    };
    let i7 = match eat_token(s, i6, ',') {
        Some(j) => j,
        None => {
            return None;
        },
    };
    let (v_over_ride, i8) = match parse_field(s, i7, "\"over_ride\"", "over_ride", 255) {
        Some(p) => p,
        None => {
            return None;
        },
    };
    let i9 = match eat_token(s, i8, ',') {
        Some(j) => j,
        None => {
            return None;
        },
    };
    let (v_day, i10) = match parse_field(s, i9, "\"over_ride_day\"", "over_ride_day", 65535) {
        Some(p) => p,
        None => {
            return None;
        },
    };
    let i11 = match eat_token(s, i10, '}') {
        Some(j) => j,
        None => {
            return None;
        },
    };
    let i12 = skip_ws(s, i11);
    if i12 < n {
        proof {
            assert(suffix_from(s@, i12 as int).len() > 0);
        }
        return None;
    }
    proof {
        assert(suffix_from(s@, i12 as int).len() == 0);
    }
    Some(
        DoorCommand {
            executed: v_executed != 0,
            direction: if v_up == 1 {
                Direction::Up
            } else {
                Direction::Down
            },
            amount: v_amount as u8,
            override_flag: v_over_ride != 0,
            override_day: v_day,
        },
    )
}

/// Round trip: decoding the canonical wire text of any command record gives
/// back a record equal in every field, pass-through fields included.
pub proof fn lemma_parse_encode(c: DoorCommand)
    ensures
        spec_parse(spec_encode(c)) == Some(c),
{
    let t5: Seq<char> = seq!['}'];
    let f5 = spec_field_text("over_ride_day"@, c.override_day as nat, t5);
    let t4 = seq![','] + f5;
    let f4 = spec_field_text("over_ride"@, bool_wire(c.override_flag), t4);
    let t3 = seq![','] + f4;
    let f3 = spec_field_text("amount"@, c.amount as nat, t3);
    let t2 = seq![','] + f3;
    let f2 = spec_field_text("up"@, direction_wire(c.direction), t2);
    let t1 = seq![','] + f2;
    let f1 = spec_field_text("executed"@, bool_wire(c.executed), t1);
    assert(spec_encode(c) == seq!['{'] + f1);
    lemma_expect_token_head('{', f1);
    lemma_parse_field_text("executed"@, bool_wire(c.executed), 255, t1);
    lemma_expect_token_head(',', f2);
    lemma_parse_field_text("up"@, direction_wire(c.direction), 255, t2);
    lemma_expect_token_head(',', f3);
    lemma_parse_field_text("amount"@, c.amount as nat, 255, t3);
    lemma_expect_token_head(',', f4);
    lemma_parse_field_text("over_ride"@, bool_wire(c.override_flag), 255, t4);
    lemma_expect_token_head(',', f5);
    lemma_parse_field_text("over_ride_day"@, c.override_day as nat, 65535, t5);
    assert(t5 =~= seq!['}'] + Seq::<char>::empty());
    lemma_expect_token_head('}', Seq::<char>::empty());
    lemma_skip_ws_noop(Seq::<char>::empty());
    assert(spec_command_of_wire(
        bool_wire(c.executed),
        direction_wire(c.direction),
        c.amount as nat,
        bool_wire(c.override_flag),
        c.override_day as nat,
    ) == c);
}

/// Appends one `"key":value` field: `qkey_colon` must be the quoted key with
/// its trailing colon, as in `"amount":`.
fn push_field(out: &mut String, qkey_colon: &str, value: u64)
    ensures
        final (out)@ == old(out)@ + qkey_colon@ + spec_udigits(value as nat),
{
    out.append(qkey_colon);
    push_udigits(out, value);
}

/// Renders a command record as its canonical wire text.
#[verifier::rlimit(50)]
pub fn encode_command(c: &DoorCommand) -> (s: String)
    ensures
        s@ == spec_encode(*c),
{
    let executed_wire: u64 = if c.executed {
        1
    } else {
        0
    };
    let direction_wire_val: u64 = match c.direction {
        Direction::Up => 1,
        Direction::Down => 0,
    };
    let override_wire: u64 = if c.override_flag {
        1
    } else {
        0
    };
    let mut s = String::new();
    s.append("{");
    push_field(&mut s, "\"executed\":", executed_wire);
    s.append(",");
    push_field(&mut s, "\"up\":", direction_wire_val);
    s.append(",");
    push_field(&mut s, "\"amount\":", c.amount as u64);
    s.append(",");
    push_field(&mut s, "\"over_ride\":", override_wire);
    s.append(",");
    push_field(&mut s, "\"over_ride_day\":", c.override_day as u64);
    s.append("}");
    proof {
        reveal_strlit("{");
        reveal_strlit(",");
        reveal_strlit("}");
        reveal_strlit("\"executed\":");
        reveal_strlit("\"up\":");
        reveal_strlit("\"amount\":");
        reveal_strlit("\"over_ride\":");
        reveal_strlit("\"over_ride_day\":");
        reveal_strlit("executed");
        reveal_strlit("up");
        reveal_strlit("amount");
        reveal_strlit("over_ride");
        reveal_strlit("over_ride_day");
        assert(s@ =~= spec_encode(*c));
    }
    s
}

} // verus!
