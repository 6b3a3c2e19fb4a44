//! The challenge value: a random version-4 UUID held as its 128-bit value,
//! shown to callers in the hyphenated lowercase text form.

use vstd::prelude::*;

verus! {

/// The hexadecimal digit of a value in `0..16`, in lower case.
pub open spec fn hex_digit(d: int) -> char {
    if d < 10 {
        (d + 48) as char
    } else {
        (d + 87) as char
    }
}

/// The `n` lowest hexadecimal digits of `v`, most significant first.
pub open spec fn hex_digits(v: nat, n: nat) -> Seq<char>
    decreases n,
{
    if n == 0 {
        Seq::empty()
    } else {
        hex_digits(v / 16, (n - 1) as nat).push(hex_digit((v % 16) as int))
    }
}

/// The hyphenated text of a 128-bit UUID value: 32 lowercase hexadecimal
/// digits in groups of 8, 4, 4, 4 and 12, separated by `-`.
pub open spec fn nonce_text(v: u128) -> Seq<char> {
    let d = hex_digits(v as nat, 32);
    d.subrange(0, 8) + seq!['-'] + d.subrange(8, 12) + seq!['-'] + d.subrange(12, 16)
        + seq!['-'] + d.subrange(16, 20) + seq!['-'] + d.subrange(20, 32)
}

/// A random (version 4, RFC 4122 variant) UUID value: the four version bits
/// read 4 and the two variant bits read binary 10.
pub open spec fn is_v4(v: u128) -> bool {
    &&& (v >> 76u128) & 0xfu128 == 4u128
    &&& (v >> 62u128) & 0x3u128 == 2u128
}

/// `16` to the power `n`.
pub open spec fn pow16(n: nat) -> nat
    decreases n,
{
    if n == 0 {
        1
    } else {
        16 * pow16((n - 1) as nat)
    }
}

proof fn lemma_hex_digits_len(v: nat, n: nat)
    ensures
        hex_digits(v, n).len() == n,
    decreases n,
{
    if n > 0 {
        lemma_hex_digits_len(v / 16, (n - 1) as nat);
    }
}

proof fn lemma_hex_digits_injective(a: nat, b: nat, n: nat)
    requires
        a < pow16(n),
        b < pow16(n),
        hex_digits(a, n) == hex_digits(b, n),
    ensures
        a == b,
    decreases n,
{
    if n > 0 {
        let m = (n - 1) as nat;
        lemma_hex_digits_len(a / 16, m);
        lemma_hex_digits_len(b / 16, m);
        let da = hex_digits(a, n);
        let db = hex_digits(b, n);
        assert(da.last() == hex_digit((a % 16) as int));
        assert(db.last() == hex_digit((b % 16) as int));
        assert(a % 16 == b % 16);
        assert(hex_digits(a / 16, m) == da.drop_last());
        assert(hex_digits(b / 16, m) == db.drop_last());
        lemma_hex_digits_injective(a / 16, b / 16, m);
    }
}

/// The text of a UUID value is 36 characters long.
pub proof fn lemma_nonce_text_len(v: u128)
    ensures
        nonce_text(v).len() == 36,
{
    lemma_hex_digits_len(v as nat, 32);
}

/// Distinct UUID values have distinct texts.
pub proof fn lemma_nonce_text_injective(a: u128, b: u128)
    requires
        a != b,
    ensures
        nonce_text(a) != nonce_text(b),
{
    if nonce_text(a) == nonce_text(b) {
        let da = hex_digits(a as nat, 32);
        let db = hex_digits(b as nat, 32);
        lemma_hex_digits_len(a as nat, 32);
        lemma_hex_digits_len(b as nat, 32);
        let ta = nonce_text(a);
        assert(ta.subrange(0, 8) == da.subrange(0, 8));
        assert(ta.subrange(9, 13) == da.subrange(8, 12));
        assert(ta.subrange(14, 18) == da.subrange(12, 16));
        assert(ta.subrange(19, 23) == da.subrange(16, 20));
        assert(ta.subrange(24, 36) == da.subrange(20, 32));
        let tb = nonce_text(b);
        assert(tb.subrange(0, 8) == db.subrange(0, 8));
        assert(tb.subrange(9, 13) == db.subrange(8, 12));
        assert(tb.subrange(14, 18) == db.subrange(12, 16));
        assert(tb.subrange(19, 23) == db.subrange(16, 20));
        assert(tb.subrange(24, 36) == db.subrange(20, 32));
        assert(da =~= da.subrange(0, 8) + da.subrange(8, 12) + da.subrange(12, 16)
            + da.subrange(16, 20) + da.subrange(20, 32));
        assert(db =~= db.subrange(0, 8) + db.subrange(8, 12) + db.subrange(12, 16)
            + db.subrange(16, 20) + db.subrange(20, 32));
        reveal_with_fuel(pow16, 33);
        assert(pow16(32) == 0x1_0000_0000_0000_0000_0000_0000_0000_0000);
        lemma_hex_digits_injective(a as nat, b as nat, 32);
    }
}

/// Relies on uuid's `Uuid::new_v4`: it masks a random 128-bit value so that
/// the version bits read 4 and the variant bits read binary 10; `as_u128`
/// gives the value back in big-endian order.
#[verifier::external_body]
fn random_uuid_value() -> (r: u128)
    ensures
        is_v4(r),
{
    uuid::Uuid::new_v4().as_u128()
}

/// Relies on uuid's `Display` for `Uuid`: the hyphenated lowercase form of
/// the big-endian bytes that `Uuid::from_u128` stores.
#[verifier::external_body]
fn uuid_text(v: u128) -> (r: String)
    ensures
        r@ == nonce_text(v),
{
    uuid::Uuid::from_u128(v).to_string()
}

/// Holds the one current challenge. It hands the challenge out until a
/// verification consumes it, and then replaces it with a fresh one.
pub struct NonceAuthority {
    value: u128,
}

impl View for NonceAuthority {
    type V = u128;

    closed spec fn view(&self) -> u128 {
        self.value
    }
}

impl NonceAuthority {
    /// An authority whose first challenge is freshly drawn.
    pub fn new() -> (r: NonceAuthority)
        ensures
            is_v4(r@),
    {
        NonceAuthority { value: random_uuid_value() }
    }

    /// An authority whose current challenge is the given UUID value.
    pub fn from_value(value: u128) -> (r: NonceAuthority)
        ensures
            r@ == value,
    {
        NonceAuthority { value }
    }

    /// The 128-bit value of the current challenge.
    pub fn value(&self) -> (r: u128)
        ensures
            r == self@,
    {
        self.value
    }

    /// The text of the current challenge.
    pub fn current(&self) -> (r: String)
        ensures
            r@ == nonce_text(self@),
            r@.len() == 36,
    {
        proof {
            lemma_nonce_text_len(self.value);
        }
        uuid_text(self.value)
    }

    /// Whether `claimed` is exactly the text of the current challenge.
    pub fn is_current(&self, claimed: &String) -> (r: bool)
        ensures
            r == (claimed@ == nonce_text(self@)),
    {
        let text = self.current();
        text == *claimed
    }

    /// Replaces the current challenge with a freshly drawn one and returns
    /// its text. On the negligible chance that the draw repeats the old value,
    /// its lowest bit is flipped, which keeps the version and variant bits.
    pub fn rotate(&mut self) -> (r: String)
        ensures
            final(self)@ != old(self)@,
            is_v4(final(self)@),
            r@ == nonce_text(final(self)@),
            r@ != nonce_text(old(self)@),
    {
        let drawn = random_uuid_value();
        let next = if drawn == self.value {
            drawn ^ 1u128
        } else {
            drawn
        };
        assert(drawn ^ 1u128 != drawn) by (bit_vector);
        assert(is_v4(drawn) ==> is_v4(drawn ^ 1u128)) by (bit_vector);
        proof {
            lemma_nonce_text_injective(next, self.value);
        }
        self.value = next;
        self.current()
    }
}

} // verus!
