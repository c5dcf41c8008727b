use vstd::prelude::*;

verus! {

/// The upper-case hexadecimal digit of a value below 16.
pub open spec fn hex_digit(v: nat) -> char {
    if v == 0 {
        '0'
    } else if v == 1 {
        '1'
    } else if v == 2 {
        '2'
    } else if v == 3 {
        '3'
    } else if v == 4 {
        '4'
    } else if v == 5 {
        '5'
    } else if v == 6 {
        '6'
    } else if v == 7 {
        '7'
    } else if v == 8 {
        '8'
    } else if v == 9 {
        '9'
    } else if v == 10 {
        'A'
    } else if v == 11 {
        'B'
    } else if v == 12 {
        'C'
    } else if v == 13 {
        'D'
    } else if v == 14 {
        'E'
    } else {
        'F'
    }
}

/// The hexadecimal digits of `v`, least significant first, without leading
/// zeros (a single `0` for zero).
pub open spec fn low_digits(v: nat) -> Seq<char>
    decreases v,
{
    if v < 16 {
        seq![hex_digit(v)]
    } else {
        seq![hex_digit(v % 16)] + low_digits(v / 16)
    }
}

/// `v` in upper-case hexadecimal, most significant digit first, padded with
/// leading zeros to at least four digits.
pub open spec fn hex_upper4(v: nat) -> Seq<char> {
    let ld = low_digits(v);
    let padded = if ld.len() < 4 {
        ld + Seq::new((4 - ld.len()) as nat, |_k: int| '0')
    } else {
        ld
    };
    padded.reverse()
}

/// The value of a hexadecimal digit character, read from its character code.
pub open spec fn digit_value(c: char) -> int {
    if '0' <= c && c <= '9' {
        c as int - '0' as int
    } else {
        c as int - 'A' as int + 10
    }
}

/// Whether `c` is one of `0`..`9` and `A`..`F`.
pub open spec fn is_upper_hex_digit(c: char) -> bool {
    ('0' <= c && c <= '9') || ('A' <= c && c <= 'F')
}

/// The number that a string of hexadecimal digits denotes, most significant
/// digit first.
pub open spec fn hex_value(s: Seq<char>) -> int
    decreases s.len(),
{
    if s.len() == 0 {
        0
    } else {
        16 * hex_value(s.drop_last()) + digit_value(s.last())
    }
}

/// The number that a string of hexadecimal digits denotes, least significant
/// digit first.
spec fn value_lsd_first(s: Seq<char>) -> int
    decreases s.len(),
{
    if s.len() == 0 {
        0
    } else {
        digit_value(s[0]) + 16 * value_lsd_first(s.drop_first())
    }
}

proof fn lemma_hex_digit_value(n: nat)
    requires
        n < 16,
    ensures
        digit_value(hex_digit(n)) == n,
        is_upper_hex_digit(hex_digit(n)),
{
}

proof fn lemma_low_digits(v: nat)
    ensures
        value_lsd_first(low_digits(v)) == v,
        forall|k: int| 0 <= k < low_digits(v).len() ==> is_upper_hex_digit(#[trigger] low_digits(v)[k]),
        low_digits(v).len() >= 1,
    decreases v,
{
    if v < 16 {
        lemma_hex_digit_value(v);
        assert(low_digits(v).drop_first() =~= Seq::<char>::empty());
        assert(value_lsd_first(low_digits(v)) == digit_value(low_digits(v)[0]) + 16 * value_lsd_first(
            low_digits(v).drop_first(),
        ));
    } else {
        lemma_hex_digit_value(v % 16);
        lemma_low_digits(v / 16);
        assert(low_digits(v).drop_first() =~= low_digits(v / 16));
        assert(low_digits(v)[0] == hex_digit(v % 16));
        assert(value_lsd_first(low_digits(v)) == digit_value(low_digits(v)[0]) + 16 * value_lsd_first(
            low_digits(v).drop_first(),
        ));
        assert(value_lsd_first(low_digits(v)) == v % 16 + 16 * (v / 16));
        assert(v == v % 16 + 16 * (v / 16)) by (nonlinear_arith);
        assert forall|k: int| 0 <= k < low_digits(v).len() implies is_upper_hex_digit(#[trigger] low_digits(v)[k]) by {
            if k > 0 {
                assert(low_digits(v)[k] == low_digits(v / 16)[k - 1]);
            }
        }
    }
}

proof fn lemma_zero_padding(ld: Seq<char>, n: nat)
    ensures
        value_lsd_first(ld + Seq::new(n, |_k: int| '0')) == value_lsd_first(ld),
    decreases ld.len() + n,
{
    let z = Seq::new(n, |_k: int| '0');
    if ld.len() == 0 {
        assert(ld + z =~= z);
        if n > 0 {
            assert(z.drop_first() =~= Seq::new((n - 1) as nat, |_k: int| '0'));
            lemma_zero_padding(ld, (n - 1) as nat);
            assert(ld + Seq::new((n - 1) as nat, |_k: int| '0') =~= Seq::new((n - 1) as nat, |_k: int| '0'));
        }
    } else {
        assert((ld + z).drop_first() =~= ld.drop_first() + z);
        lemma_zero_padding(ld.drop_first(), n);
    }
}

proof fn lemma_reverse_value(s: Seq<char>)
    ensures
        hex_value(s.reverse()) == value_lsd_first(s),
    decreases s.len(),
{
    if s.len() > 0 {
        let r = s.reverse();
        assert(r.drop_last() =~= s.drop_first().reverse());
        assert(r.last() == s[0]);
        lemma_reverse_value(s.drop_first());
    }
}

/// `hex` can be read back: its characters are upper-case hexadecimal digits,
/// at least four of them, and read in base 16 they give the value; below
/// `0x10000` there are exactly four.
pub proof fn lemma_hex_reads_back(v: nat)
    ensures
        hex_value(hex_upper4(v)) == v,
        hex_upper4(v).len() >= 4,
        forall|k: int| 0 <= k < hex_upper4(v).len() ==> is_upper_hex_digit(#[trigger] hex_upper4(v)[k]),
        v < 0x10000 ==> hex_upper4(v).len() == 4,
{
    let ld = low_digits(v);
    lemma_low_digits(v);
    let padded = if ld.len() < 4 {
        ld + Seq::new((4 - ld.len()) as nat, |_k: int| '0')
    } else {
        ld
    };
    if ld.len() < 4 {
        lemma_zero_padding(ld, (4 - ld.len()) as nat);
    }
    assert forall|k: int| 0 <= k < padded.len() implies is_upper_hex_digit(#[trigger] padded[k]) by {
        if k >= ld.len() {
            assert(padded[k] == '0');
        } else {
            assert(padded[k] == ld[k]);
        }
    }
    lemma_reverse_value(padded);
    assert forall|k: int| 0 <= k < hex_upper4(v).len() implies is_upper_hex_digit(#[trigger] hex_upper4(v)[k]) by {
        assert(hex_upper4(v)[k] == padded[padded.len() - 1 - k]);
    }
    if v < 0x10000 {
        reveal_with_fuel(low_digits, 5);
        assert(ld.len() <= 4);
    }
}

fn hex_char(v: u128) -> (c: char)
    requires
        v < 16,
    ensures
        c == hex_digit(v as nat),
{
    if v == 0 {
        '0'
    } else if v == 1 {
        '1'
    } else if v == 2 {
        '2'
    } else if v == 3 {
        '3'
    } else if v == 4 {
        '4'
    } else if v == 5 {
        '5'
    } else if v == 6 {
        '6'
    } else if v == 7 {
        '7'
    } else if v == 8 {
        '8'
    } else if v == 9 {
        '9'
    } else if v == 10 {
        'A'
    } else if v == 11 {
        'B'
    } else if v == 12 {
        'C'
    } else if v == 13 {
        'D'
    } else if v == 14 {
        'E'
    } else {
        'F'
    }
}

/// Builds a string from characters with `String::from_iter`
/// (`FromIterator<char>`), which keeps them in order: the string's
/// characters are those of `v`.
#[verifier::external_body]
fn string_from_chars(v: Vec<char>) -> (s: String)
    ensures
        s@ == v@,
{
    String::from_iter(v)
}

/// A value as four (or more) upper-case hexadecimal digits, as the
/// simulator displays register and memory contents.
pub fn hex(i: u128) -> (s: String)
    ensures
        s@ == hex_upper4(i as nat),
{
    let mut rev: Vec<char> = Vec::new();
    let mut v = i;
    loop
        invariant_except_break
            low_digits(i as nat) == rev@ + low_digits(v as nat),
        ensures
            rev@ == low_digits(i as nat),
        decreases v,
    {
        let c = hex_char(v % 16);
        if v < 16 {
            rev.push(c);
            assert(rev@ =~= low_digits(i as nat));
            break ;
        }
        rev.push(c);
        assert(low_digits(v as nat) == seq![hex_digit((v % 16) as nat)] + low_digits((v / 16) as nat));
        assert(low_digits(i as nat) =~= rev@ + low_digits((v / 16) as nat));
        v = v / 16;
    }
    let ghost ld = rev@;
    while rev.len() < 4
        invariant
            ld.len() <= rev.len() <= 4 || (rev.len() == ld.len() && ld.len() >= 4),
            rev@ =~= ld + Seq::new((rev.len() - ld.len()) as nat, |_k: int| '0'),
        decreases 4 - rev.len(),
    {
        rev.push('0');
    }
    let ghost padded = rev@;
    assert(padded == (if ld.len() < 4 {
        ld + Seq::new((4 - ld.len()) as nat, |_k: int| '0')
    } else {
        ld
    }));
    let mut out: Vec<char> = Vec::new();
    let mut j = rev.len();
    while j > 0
        invariant
            j <= rev.len(),
            rev@ == padded,
            out.len() == padded.len() - j,
            forall|k: int| 0 <= k < out.len() ==> out@[k] == padded[padded.len() - 1 - k],
        decreases j,
    {
        j = j - 1;
        out.push(rev[j]);
    }
    assert(out@ =~= padded.reverse());
    string_from_chars(out)
}

} // verus!
