//! Natural numbers of any size, held as canonical decimal text.
//!
//! Ledger amounts, block indexes and HTTP status codes reach the relay as
//! unbounded naturals. The relay compares them and writes them into records,
//! so it keeps each one as the decimal digits it prints as.

use vstd::prelude::*;

verus! {

broadcast use vstd::utf8::is_ascii_chars_encode_utf8;

/// Whether `c` is one of the ten decimal digits.
pub open spec fn is_digit(c: char) -> bool {
    '0' <= c <= '9'
}

/// The number a decimal digit stands for.
pub open spec fn digit_value(c: char) -> nat {
    (c as nat - '0' as nat) as nat
}

/// Whether `s` is a non-empty run of decimal digits.
pub open spec fn is_decimal(s: Seq<char>) -> bool {
    s.len() > 0 && is_digits(s)
}

/// Whether every character of `s` is a decimal digit.
pub open spec fn is_digits(s: Seq<char>) -> bool {
    forall|i: int| 0 <= i < s.len() ==> is_digit(#[trigger] s[i])
}

/// Whether `s` is the way a natural number is printed: decimal digits, with no
/// leading zero except for zero itself.
pub open spec fn is_canonical(s: Seq<char>) -> bool {
    is_decimal(s) && (s.len() > 1 ==> s[0] != '0')
}

/// The number that the digits `s` denote, most significant digit first.
pub open spec fn decimal_value(s: Seq<char>) -> nat
    decreases s.len(),
{
    if s.len() == 0 {
        0
    } else {
        decimal_value(s.drop_last()) * 10 + digit_value(s.last())
    }
}

/// The decimal digit that stands for `d`, a number below ten.
pub open spec fn digit_char(d: nat) -> char {
    ((d + 48) as u8) as char
}

/// The way the number `n` is printed in decimal.
pub open spec fn decimal_text(n: nat) -> Seq<char>
    decreases n,
{
    if n < 10 {
        seq![digit_char(n)]
    } else {
        decimal_text(n / 10).push(digit_char(n % 10))
    }
}

/// The number that `candid::Nat` reads from `text`, if it reads one.
pub uninterp spec fn parsed_natural(text: Seq<char>) -> Option<nat>;

/// Appending a digit multiplies by ten and adds the digit.
pub proof fn decimal_value_push(s: Seq<char>, c: char)
    ensures
        decimal_value(s.push(c)) == decimal_value(s) * 10 + digit_value(c),
{
    assert(s.push(c).drop_last() =~= s);
}

/// Digits that start with a non-zero digit denote a positive number.
pub proof fn decimal_value_positive(s: Seq<char>)
    requires
        is_decimal(s),
        s[0] != '0',
    ensures
        decimal_value(s) >= 1,
    decreases s.len(),
{
    if s.len() > 1 {
        decimal_value_positive(s.drop_last());
    }
}

/// Once one number is ahead of another, appending equally many digits to both
/// keeps it ahead.
pub proof fn decimal_value_lead_kept(pa: Seq<char>, pb: Seq<char>, ta: Seq<char>, tb: Seq<char>)
    requires
        decimal_value(pa) < decimal_value(pb),
        ta.len() == tb.len(),
        is_digits(ta),
        is_digits(tb),
    ensures
        decimal_value(pa + ta) < decimal_value(pb + tb),
    decreases ta.len(),
{
    if ta.len() == 0 {
        assert(pa + ta =~= pa);
        assert(pb + tb =~= pb);
    } else {
        decimal_value_lead_kept(pa, pb, ta.drop_last(), tb.drop_last());
        assert((pa + ta).drop_last() =~= pa + ta.drop_last());
        assert((pb + tb).drop_last() =~= pb + tb.drop_last());
        assert((pa + ta).last() == ta.last());
        assert((pb + tb).last() == tb.last());
        assert(is_digit(ta[ta.len() - 1]));
        assert(is_digit(tb[tb.len() - 1]));
    }
}

/// Of two canonical texts, the shorter denotes the smaller number.
pub proof fn shorter_is_smaller(a: Seq<char>, b: Seq<char>)
    requires
        is_canonical(a),
        is_canonical(b),
        a.len() < b.len(),
    ensures
        decimal_value(a) < decimal_value(b),
{
    let k = b.len() - a.len();
    let head = b.subrange(0, k);
    let tail = b.subrange(k, b.len() as int);
    assert(is_decimal(head)) by {
        assert forall|i: int| 0 <= i < head.len() implies is_digit(#[trigger] head[i]) by {
            assert(head[i] == b[i]);
        }
    }
    assert(head[0] == b[0]);
    decimal_value_positive(head);
    assert(is_digits(tail)) by {
        assert forall|i: int| 0 <= i < tail.len() implies is_digit(#[trigger] tail[i]) by {
            assert(tail[i] == b[k + i]);
        }
    }
    let none = Seq::<char>::empty();
    decimal_value_lead_kept(none, head, a, tail);
    assert(none + a =~= a);
    assert(head + tail =~= b);
}

/// Of two digit runs of one length, the one with the smaller digit at the
/// first place where they differ denotes the smaller number.
pub proof fn first_difference_decides(a: Seq<char>, b: Seq<char>, at: int)
    requires
        is_digits(a),
        is_digits(b),
        a.len() == b.len(),
        0 <= at < a.len(),
        a.subrange(0, at) == b.subrange(0, at),
        a[at] < b[at],
    ensures
        decimal_value(a) < decimal_value(b),
{
    let n = a.len() as int;
    let common = a.subrange(0, at);
    let pa = a.subrange(0, at + 1);
    let pb = b.subrange(0, at + 1);
    assert(pa =~= common.push(a[at]));
    assert(pb =~= common.push(b[at]));
    decimal_value_push(common, a[at]);
    decimal_value_push(common, b[at]);
    assert(is_digit(a[at]) && is_digit(b[at]));
    let ta = a.subrange(at + 1, n);
    let tb = b.subrange(at + 1, n);
    assert(is_digits(ta)) by {
        assert forall|i: int| 0 <= i < ta.len() implies is_digit(#[trigger] ta[i]) by {
            assert(ta[i] == a[at + 1 + i]);
        }
    }
    assert(is_digits(tb)) by {
        assert forall|i: int| 0 <= i < tb.len() implies is_digit(#[trigger] tb[i]) by {
            assert(tb[i] == b[at + 1 + i]);
        }
    }
    decimal_value_lead_kept(pa, pb, ta, tb);
    assert(pa + ta =~= a);
    assert(pb + tb =~= b);
}

/// The decimal print of a number is canonical and denotes that number.
pub proof fn decimal_text_denotes(n: nat)
    ensures
        is_canonical(decimal_text(n)),
        decimal_value(decimal_text(n)) == n,
    decreases n,
{
    if n < 10 {
        let s = seq![digit_char(n)];
        assert(s.drop_last() =~= Seq::<char>::empty());
        assert(s.last() == digit_char(n));
        assert(decimal_value(s.drop_last()) == 0);
    } else {
        decimal_text_denotes(n / 10);
        let head = decimal_text(n / 10);
        decimal_value_push(head, digit_char(n % 10));
        let s = head.push(digit_char(n % 10));
        assert(s[0] == head[0]);
        if head.len() == 1 {
            assert(head.drop_last() =~= Seq::<char>::empty());
            assert(decimal_value(head.drop_last()) == 0);
            assert(head.last() == head[0]);
            assert(decimal_value(head) == decimal_value(head.drop_last()) * 10 + digit_value(
                head.last(),
            ));
        }
        assert forall|i: int| 0 <= i < s.len() implies is_digit(#[trigger] s[i]) by {
            if i < head.len() {
                assert(s[i] == head[i]);
            }
        }
    }
}

/// A canonical text is the decimal print of the number it denotes.
pub proof fn canonical_text_is_print(s: Seq<char>)
    requires
        is_canonical(s),
    ensures
        s == decimal_text(decimal_value(s)),
{
    decimal_text_denotes(decimal_value(s));
    canonical_text_unique(s, decimal_text(decimal_value(s)));
}

/// Two canonical texts denote the same number only if they are the same text.
pub proof fn canonical_text_unique(a: Seq<char>, b: Seq<char>)
    requires
        is_canonical(a),
        is_canonical(b),
        decimal_value(a) == decimal_value(b),
    ensures
        a == b,
{
    if a.len() < b.len() {
        shorter_is_smaller(a, b);
    } else if b.len() < a.len() {
        shorter_is_smaller(b, a);
    } else if a != b {
        assert(a.subrange(0, a.len() as int) =~= a);
        assert(b.subrange(0, b.len() as int) =~= b);
        first_mismatch_exists(a, b, a.len() as int);
        let at = choose|at: int|
            0 <= at < a.len() && a[at] != b[at] && (forall|j: int| 0 <= j < at ==> a[j] == b[j]);
        assert(a.subrange(0, at) =~= b.subrange(0, at));
        assert(is_digit(a[at]) && is_digit(b[at]));
        if a[at] < b[at] {
            first_difference_decides(a, b, at);
        } else {
            first_difference_decides(b, a, at);
        }
    }
}

/// Two different sequences that agree in length have a first place where they
/// differ.
proof fn first_mismatch_exists(a: Seq<char>, b: Seq<char>, upto: int)
    requires
        a.len() == b.len(),
        0 <= upto <= a.len(),
        a.subrange(0, upto) != b.subrange(0, upto),
    ensures
        exists|at: int|
            0 <= at < upto && a[at] != b[at] && (forall|j: int| 0 <= j < at ==> a[j] == b[j]),
    decreases upto,
{
    if upto == 0 {
        assert(a.subrange(0, 0) =~= b.subrange(0, 0));
    } else if a.subrange(0, upto - 1) != b.subrange(0, upto - 1) {
        first_mismatch_exists(a, b, upto - 1);
    } else {
        let at = upto - 1;
        if a[at] == b[at] {
            assert(a.subrange(0, upto) =~= a.subrange(0, at).push(a[at]));
            assert(b.subrange(0, upto) =~= b.subrange(0, at).push(b[at]));
        }
        assert forall|j: int| 0 <= j < at implies a[j] == b[j] by {
            assert(a.subrange(0, at)[j] == b.subrange(0, at)[j]);
        }
    }
}

/// Reads a natural number the way the ledger's interface does.
///
/// Calls `candid::Nat::from_str` and prints what it read with
/// `num_bigint::BigUint`'s `to_string`. Trusted: the parser succeeds exactly
/// where `parsed_natural` says, the text handed back is the canonical decimal
/// print of the number read, and a plain run of decimal digits is read as the
/// number it denotes.
#[verifier::external_body]
fn nat_from_text(text: &str) -> (printed: Option<String>)
    ensures
        printed is Some <==> parsed_natural(text@) is Some,
        printed matches Some(s) ==> is_canonical(s@),
        printed matches Some(s) ==> parsed_natural(text@) == Some(decimal_value(s@)),
        is_decimal(text@) ==> printed is Some,
        printed matches Some(s) ==> (is_decimal(text@) ==> decimal_value(s@) == decimal_value(text@)),
{
    match <candid::Nat as std::str::FromStr>::from_str(text) {
        Ok(number) => Some(number.0.to_string()),
        Err(_) => None,
    }
}

/// Prints a machine integer in decimal.
///
/// Calls `u64::to_string`. Trusted: the text is the canonical decimal print of
/// `number`.
#[verifier::external_body]
fn u64_to_text(number: u64) -> (printed: String)
    ensures
        is_canonical(printed@),
        decimal_value(printed@) == number,
{
    number.to_string()
}

/// A natural number of any size.
#[derive(Debug, PartialEq)]
pub struct Natural {
    text: String,
}

impl Clone for Natural {
    fn clone(&self) -> (copy: Self)
        ensures
            copy == *self,
    {
        proof {
            use_type_invariant(self);
        }
        Natural { text: self.text.clone() }
    }
}

impl Natural {
    #[verifier::type_invariant]
    spec fn canonical(self) -> bool {
        is_canonical(self.text@)
    }

    /// The decimal print of the number.
    pub closed spec fn text(self) -> Seq<char> {
        self.text@
    }

    /// The number itself.
    pub open spec fn value(self) -> nat {
        decimal_value(self.text())
    }

    /// Reads a number from text as the ledger's interface reads it. Fails on
    /// text that the interface does not accept.
    pub fn parse(text: &str) -> (number: Option<Natural>)
        ensures
            number is Some <==> parsed_natural(text@) is Some,
            number matches Some(n) ==> parsed_natural(text@) == Some(n.value()),
            number matches Some(n) ==> is_canonical(n.text()),
            is_decimal(text@) ==> number is Some,
            number matches Some(n) ==> (is_decimal(text@) ==> n.value() == decimal_value(text@)),
    {
        match nat_from_text(text) {
            Some(printed) => Some(Natural { text: printed }),
            None => None,
        }
    }

    /// The number `number`.
    pub fn from_u64(number: u64) -> (natural: Natural)
        ensures
            natural.value() == number,
            natural.text() == decimal_text(number as nat),
    {
        let text = u64_to_text(number);
        proof {
            canonical_text_is_print(text@);
        }
        Natural { text }
    }

    /// The decimal print of the number.
    pub fn to_text(&self) -> (printed: String)
        ensures
            printed@ == self.text(),
            printed@ == decimal_text(self.value()),
            is_canonical(printed@),
    {
        proof {
            use_type_invariant(self);
            canonical_text_is_print(self.text@);
        }
        self.text.clone()
    }

    /// Whether this number is smaller than `other`.
    pub fn lt(&self, other: &Natural) -> (smaller: bool)
        ensures
            smaller == (self.value() < other.value()),
    {
        proof {
            use_type_invariant(self);
            use_type_invariant(other);
        }
        let a = self.text.as_str().as_bytes();
        let b = other.text.as_str().as_bytes();
        let ghost ta = self.text@;
        let ghost tb = other.text@;
        assert(vstd::utf8::is_ascii_chars(ta));
        assert(vstd::utf8::is_ascii_chars(tb));
        if a.len() < b.len() {
            proof {
                shorter_is_smaller(ta, tb);
            }
            return true;
        }
        if b.len() < a.len() {
            proof {
                shorter_is_smaller(tb, ta);
            }
            return false;
        }
        let mut i: usize = 0;
        while i < a.len()
            invariant
                i <= a.len(),
                a.len() == b.len(),
                a@.len() == ta.len(),
                b@.len() == tb.len(),
                ta == self.text(),
                tb == other.text(),
                is_canonical(ta),
                is_canonical(tb),
                forall|j: int| 0 <= j < ta.len() ==> #[trigger] ta[j] as u8 == a@[j],
                forall|j: int| 0 <= j < tb.len() ==> #[trigger] tb[j] as u8 == b@[j],
                ta.subrange(0, i as int) == tb.subrange(0, i as int),
            decreases a.len() - i,
        {
            let x: u8 = a[i];
            let y: u8 = b[i];
            if x != y {
                proof {
                    let at = i as int;
                    assert(is_digit(ta[at]) && is_digit(tb[at]));
                    assert(ta[at] as u8 == x && tb[at] as u8 == y);
                    if x < y {
                        first_difference_decides(ta, tb, at);
                    } else {
                        first_difference_decides(tb, ta, at);
                    }
                }
                return x < y;
            }
            proof {
                let at = i as int;
                assert(is_digit(ta[at]) && is_digit(tb[at]));
                assert(ta[at] as u8 == x && tb[at] as u8 == y);
                assert(ta[at] == tb[at]);
                assert(ta.subrange(0, at + 1) =~= ta.subrange(0, at).push(ta[at]));
                assert(tb.subrange(0, at + 1) =~= tb.subrange(0, at).push(tb[at]));
            }
            i += 1;
        }
        proof {
            assert(ta.subrange(0, ta.len() as int) =~= ta);
            assert(tb.subrange(0, tb.len() as int) =~= tb);
        }
        false
    }

    /// Whether this number equals `other`.
    pub fn equals(&self, other: &Natural) -> (same: bool)
        ensures
            same == (self.value() == other.value()),
            same == (self.text() == other.text()),
    {
        proof {
            use_type_invariant(self);
            use_type_invariant(other);
            if self.value() == other.value() {
                canonical_text_unique(self.text@, other.text@);
            }
        }
        self.text == other.text
    }

    /// Whether this number is `number`.
    pub fn is_u64(&self, number: u64) -> (same: bool)
        ensures
            same == (self.value() == number),
    {
        let other = Natural::from_u64(number);
        self.equals(&other)
    }
}

} // verus!
