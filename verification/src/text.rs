//! Text helpers: decimal digit rendering for invoice numbers and
//! case-insensitive prefix matching for directory searches.

use vstd::prelude::*;
use vstd::string::StringExecFns;
use vstd::string::StringSliceAdditionalSpecFns;

verus! {

/// The digit character for a value below ten.
pub open spec fn digit_char(d: nat) -> char {
    if d == 0 {
        '0'
    } else if d == 1 {
        '1'
    } else if d == 2 {
        '2'
    } else if d == 3 {
        '3'
    } else if d == 4 {
        '4'
    } else if d == 5 {
        '5'
    } else if d == 6 {
        '6'
    } else if d == 7 {
        '7'
    } else if d == 8 {
        '8'
    } else {
        '9'
    }
}

/// The value of a digit character; characters that are no digit count
/// as zero.
pub open spec fn char_val(c: char) -> nat {
    if c == '1' {
        1
    } else if c == '2' {
        2
    } else if c == '3' {
        3
    } else if c == '4' {
        4
    } else if c == '5' {
        5
    } else if c == '6' {
        6
    } else if c == '7' {
        7
    } else if c == '8' {
        8
    } else if c == '9' {
        9
    } else {
        0
    }
}

/// The decimal digit string of `n`, most significant digit first.
pub open spec fn dec_digits(n: nat) -> Seq<char>
    decreases n,
{
    if n < 10 {
        seq![digit_char(n)]
    } else {
        dec_digits(n / 10).push(digit_char(n % 10))
    }
}

/// The decimal digit string of `n`, zero-padded on the left to at least
/// three digits.
pub open spec fn pad3_digits(n: nat) -> Seq<char> {
    if n < 10 {
        seq!['0', '0'] + dec_digits(n)
    } else if n < 100 {
        seq!['0'] + dec_digits(n)
    } else {
        dec_digits(n)
    }
}

/// The value a digit string denotes.
pub open spec fn digits_val(s: Seq<char>) -> nat
    decreases s.len(),
{
    if s.len() == 0 {
        0
    } else {
        digits_val(s.drop_last()) * 10 + char_val(s.last())
    }
}

/// Appending a digit multiplies the value by ten and adds the digit.
pub proof fn lemma_digits_val_push(s: Seq<char>, c: char)
    ensures
        digits_val(s.push(c)) == digits_val(s) * 10 + char_val(c),
{
    let t = s.push(c);
    assert(t.drop_last() =~= s);
    assert(t.last() == c);
}

/// The value of a one-digit string is that digit's value.
pub proof fn lemma_digits_val_single(c: char)
    ensures
        digits_val(seq![c]) == char_val(c),
{
    assert(seq![c] =~= Seq::<char>::empty().push(c));
    lemma_digits_val_push(Seq::<char>::empty(), c);
}

/// Reading back the digit string of `n` yields `n`: rendering loses
/// nothing, so distinct numbers render to distinct strings.
pub proof fn lemma_digits_val_round_trip(n: nat)
    ensures
        digits_val(dec_digits(n)) == n,
    decreases n,
{
    if n < 10 {
        lemma_digits_val_single(digit_char(n));
    } else {
        lemma_digits_val_round_trip(n / 10);
        lemma_digits_val_push(dec_digits(n / 10), digit_char(n % 10));
    }
}

/// Zero padding does not change the value a digit string denotes.
pub proof fn lemma_pad3_val_round_trip(n: nat)
    ensures
        digits_val(pad3_digits(n)) == n,
{
    lemma_digits_val_round_trip(n);
    let zero2 = seq!['0', '0'];
    if n < 10 {
        assert(zero2 =~= Seq::<char>::empty().push('0').push('0'));
        lemma_digits_val_push(Seq::<char>::empty(), '0');
        lemma_digits_val_push(Seq::<char>::empty().push('0'), '0');
        assert(digits_val(zero2) == 0);
        assert(pad3_digits(n) =~= zero2.push(digit_char(n)));
        lemma_digits_val_push(zero2, digit_char(n));
    } else if n < 100 {
        let head = seq!['0'] + dec_digits(n / 10);
        assert(head =~= Seq::<char>::empty().push('0').push(digit_char(n / 10)));
        lemma_digits_val_push(Seq::<char>::empty(), '0');
        lemma_digits_val_push(Seq::<char>::empty().push('0'), digit_char(n / 10));
        assert(digits_val(head) == n / 10);
        assert(pad3_digits(n) =~= head.push(digit_char(n % 10)));
        lemma_digits_val_push(head, digit_char(n % 10));
    }
}

/// A single digit as a string slice.
fn digit_str(d: u32) -> (r: &'static str)
    requires
        d < 10,
    ensures
        r@ =~= seq![digit_char(d as nat)],
{
    proof {
        reveal_strlit("0");
        reveal_strlit("1");
        reveal_strlit("2");
        reveal_strlit("3");
        reveal_strlit("4");
        reveal_strlit("5");
        reveal_strlit("6");
        reveal_strlit("7");
        reveal_strlit("8");
        reveal_strlit("9");
    }
    match d {
        0 => "0",
        1 => "1",
        2 => "2",
        3 => "3",
        4 => "4",
        5 => "5",
        6 => "6",
        7 => "7",
        8 => "8",
        _ => "9",
    }
}

/// Appends the decimal digits of `n` to `out`.
fn push_decimal_digits(n: u32, out: &mut String)
    ensures
        final(out)@ == old(out)@ + dec_digits(n as nat),
    decreases n,
{
    if n >= 10 {
        push_decimal_digits(n / 10, out);
        out.append(digit_str(n % 10));
        assert(final(out)@ =~= old(out)@ + dec_digits(n as nat));
    } else {
        out.append(digit_str(n));
        assert(final(out)@ =~= old(out)@ + dec_digits(n as nat));
    }
}

/// Renders `n` in decimal.
pub fn render_u32(n: u32) -> (r: String)
    ensures
        r@ == dec_digits(n as nat),
{
    let mut out = String::new();
    push_decimal_digits(n, &mut out);
    assert(out@ =~= dec_digits(n as nat));
    out
}

/// Renders `n` in decimal, zero-padded to at least three digits.
pub fn render_padded3(n: u32) -> (r: String)
    ensures
        r@ == pad3_digits(n as nat),
{
    let mut out = String::new();
    if n < 10 {
        out.append("00");
        proof {
            reveal_strlit("00");
        }
    } else if n < 100 {
        out.append("0");
        proof {
            reveal_strlit("0");
        }
    }
    push_decimal_digits(n, &mut out);
    assert(out@ =~= pad3_digits(n as nat));
    out
}

/// The rendering of an invoice number: the year, a slash, and the
/// sequence value zero-padded to at least three digits.
pub open spec fn invoice_number_seq(year: nat, seqno: nat) -> Seq<char> {
    dec_digits(year) + seq!['/'] + pad3_digits(seqno)
}

/// Renders the invoice number of `seqno` within `year`.
pub fn format_invoice_number(year: u32, seqno: u32) -> (r: String)
    ensures
        r@ == invoice_number_seq(year as nat, seqno as nat),
{
    let mut out = render_u32(year);
    out.append("/");
    proof {
        reveal_strlit("/");
    }
    let tail = render_padded3(seqno);
    out.append(tail.as_str());
    assert(out@ =~= invoice_number_seq(year as nat, seqno as nat));
    out
}

/// Two invoice numbers of one year with different sequence values
/// render differently: the sequence value can be read back out of the
/// rendering.
pub proof fn lemma_invoice_numbers_distinct(year: nat, s1: nat, s2: nat)
    requires
        s1 != s2,
    ensures
        invoice_number_seq(year, s1) != invoice_number_seq(year, s2),
{
    let a = invoice_number_seq(year, s1);
    let b = invoice_number_seq(year, s2);
    lemma_pad3_val_round_trip(s1);
    lemma_pad3_val_round_trip(s2);
    if a == b {
        let y = dec_digits(year);
        assert(a.subrange((y.len() + 1) as int, a.len() as int) =~= pad3_digits(s1));
        assert(b.subrange((y.len() + 1) as int, b.len() as int) =~= pad3_digits(s2));
        assert(pad3_digits(s1) == pad3_digits(s2));
        assert(digits_val(pad3_digits(s1)) == digits_val(pad3_digits(s2)));
    }
}

/// Lower-cases an ASCII byte; other bytes pass unchanged.
pub open spec fn lower_byte(b: u8) -> u8 {
    if 65 <= b <= 90 {
        (b + 32) as u8
    } else {
        b
    }
}

/// Whether `q` is a prefix of `name`, compared byte for byte with
/// ASCII letters folded to lower case.
pub open spec fn byte_prefix_matches_ci(name: Seq<u8>, q: Seq<u8>) -> bool {
    q.len() <= name.len() && (forall|i: int|
        0 <= i < q.len() ==> lower_byte(name[i]) == lower_byte(q[i]))
}

/// Lower-cases one byte.
fn lower_byte_exec(b: u8) -> (r: u8)
    ensures
        r == lower_byte(b),
{
    if 65 <= b && b <= 90 {
        b + 32
    } else {
        b
    }
}

/// Two UTF-8 encodings agree exactly when the character strings do.
pub proof fn lemma_encode_utf8_injective(a: Seq<char>, b: Seq<char>)
    requires
        vstd::utf8::encode_utf8(a) == vstd::utf8::encode_utf8(b),
    ensures
        a == b,
{
    vstd::utf8::encode_utf8_decode_utf8(a);
    vstd::utf8::encode_utf8_decode_utf8(b);
}

/// String equality, byte for byte.
pub fn str_eq(a: &str, b: &str) -> (r: bool)
    ensures
        r == (a@ == b@),
{
    let ab = a.as_bytes();
    let bb = b.as_bytes();
    if ab.len() != bb.len() {
        proof {
            if a@ == b@ {
                assert(a.spec_bytes() == b.spec_bytes());
            }
        }
        return false;
    }
    let mut i: usize = 0;
    while i < ab.len()
        invariant
            i <= ab.len() == bb.len(),
            ab@ == a.spec_bytes(),
            bb@ == b.spec_bytes(),
            forall|j: int| 0 <= j < i ==> ab@[j] == bb@[j],
        decreases ab.len() - i,
    {
        if ab[i] != bb[i] {
            proof {
                if a@ == b@ {
                    assert(a.spec_bytes() == b.spec_bytes());
                }
            }
            return false;
        }
        i = i + 1;
    }
    proof {
        assert(a.spec_bytes() =~= b.spec_bytes());
        lemma_encode_utf8_injective(a@, b@);
    }
    true
}

/// Whether two byte strings agree once ASCII letters are folded to
/// lower case.
pub open spec fn bytes_ci_eq(a: Seq<u8>, b: Seq<u8>) -> bool {
    a.len() == b.len() && (forall|i: int| 0 <= i < a.len() ==> lower_byte(a[i]) == lower_byte(b[i]))
}

/// Case-folded equality is transitive: two byte strings that each
/// fold-match a third fold-match each other.
pub proof fn lemma_bytes_ci_eq_trans(a: Seq<u8>, b: Seq<u8>, c: Seq<u8>)
    requires
        bytes_ci_eq(a, c),
        bytes_ci_eq(b, c),
    ensures
        bytes_ci_eq(a, b),
{
    assert forall|i: int| 0 <= i < a.len() implies lower_byte(a[i]) == lower_byte(b[i]) by {
        assert(lower_byte(a[i]) == lower_byte(c[i]));
        assert(lower_byte(b[i]) == lower_byte(c[i]));
    }
}

/// Case-insensitive string equality over ASCII letters.
pub fn str_ci_eq(a: &str, b: &str) -> (r: bool)
    ensures
        r == bytes_ci_eq(a.spec_bytes(), b.spec_bytes()),
{
    let ab = a.as_bytes();
    let bb = b.as_bytes();
    if ab.len() != bb.len() {
        return false;
    }
    let mut i: usize = 0;
    while i < ab.len()
        invariant
            i <= ab.len() == bb.len(),
            ab@ == a.spec_bytes(),
            bb@ == b.spec_bytes(),
            forall|j: int| 0 <= j < i ==> lower_byte(ab@[j]) == lower_byte(bb@[j]),
        decreases ab.len() - i,
    {
        if lower_byte_exec(ab[i]) != lower_byte_exec(bb[i]) {
            return false;
        }
        i = i + 1;
    }
    true
}

/// Whether `q` is a case-folded prefix of `name`.
pub fn str_prefix_matches_ci(name: &str, q: &str) -> (r: bool)
    ensures
        r == byte_prefix_matches_ci(name.spec_bytes(), q.spec_bytes()),
{
    let nb = name.as_bytes();
    let qb = q.as_bytes();
    if qb.len() > nb.len() {
        return false;
    }
    let mut i: usize = 0;
    while i < qb.len()
        invariant
            i <= qb.len() <= nb.len(),
            nb@ == name.spec_bytes(),
            qb@ == q.spec_bytes(),
            forall|j: int| 0 <= j < i ==> lower_byte(nb@[j]) == lower_byte(qb@[j]),
        decreases qb.len() - i,
    {
        if lower_byte_exec(nb[i]) != lower_byte_exec(qb[i]) {
            return false;
        }
        i = i + 1;
    }
    true
}

} // verus!
