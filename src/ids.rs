use vstd::prelude::*;
use crate::text::{digits, differs_first_at, lemma_digits_len, lemma_digits_order};

verus! {

/// The number of hyphens in the canonical form of an identifier before
/// position `i`.
pub open spec fn hyphens_before(i: int) -> int {
    if i <= 8 {
        0
    } else if i <= 13 {
        1
    } else if i <= 18 {
        2
    } else if i <= 23 {
        3
    } else {
        4
    }
}

pub open spec fn is_hyphen_at(i: int) -> bool {
    i == 8 || i == 13 || i == 18 || i == 23
}

/// The canonical form of a 128-bit identifier: its 32 lowercase hex digits,
/// most significant first, in groups of 8-4-4-4-12 joined by hyphens.
pub open spec fn uuid_text(v: u128) -> Seq<char> {
    Seq::new(
        36,
        |i: int|
            if is_hyphen_at(i) {
                '-'
            } else {
                digits(v as nat, 32, 16)[i - hyphens_before(i)]
            },
    )
}

/// A globally unique run identifier (a UUID), held as its 128-bit value.
#[derive(Clone, Copy, Debug, PartialEq, Eq, Structural, Hash)]
pub struct RunId {
    pub value: u128,
}

impl RunId {
    /// A fresh random (version 4) identifier.
    pub fn new_v4() -> (r: RunId) {
        RunId { value: random_uuid() }
    }

    /// The canonical hyphenated form.
    pub fn to_text(&self) -> (r: String)
        ensures
            r@ == uuid_text(self.value),
    {
        hyphenated(self.value)
    }
}

/// Relies on uuid's `Uuid::new_v4`: a random value, of which nothing is
/// promised here.
#[verifier::external_body]
fn random_uuid() -> (r: u128) {
    uuid::Uuid::new_v4().as_u128()
}

/// Relies on uuid's `Display` of `Uuid::from_u128(v)`: the big-endian bytes
/// of `v` as lowercase hex, hyphenated 8-4-4-4-12.
#[verifier::external_body]
fn hyphenated(v: u128) -> (r: String)
    ensures
        r@ == uuid_text(v),
{
    uuid::Uuid::from_u128(v).to_string()
}

proof fn lemma_pow16_32()
    ensures
        vstd::arithmetic::power::pow(16, 32) == 0x1_0000_0000_0000_0000_0000_0000_0000_0000int,
{
    reveal_with_fuel(vstd::arithmetic::power::pow, 33);
}

/// The canonical forms of identifiers are in the order of their values.
pub proof fn lemma_uuid_text_order(v: u128, w: u128) -> (i: int)
    requires
        v < w,
    ensures
        differs_first_at(uuid_text(v), uuid_text(w), i),
{
    lemma_pow16_32();
    lemma_digits_len(v as nat, 32, 16);
    lemma_digits_len(w as nat, 32, 16);
    let hv = digits(v as nat, 32, 16);
    let hw = digits(w as nat, 32, 16);
    let k = lemma_digits_order(v as nat, w as nat, 32, 16);
    let i = k + (if k < 8 {
        0int
    } else if k < 12 {
        1int
    } else if k < 16 {
        2int
    } else if k < 20 {
        3int
    } else {
        4int
    });
    let a = uuid_text(v);
    let b = uuid_text(w);
    assert(!is_hyphen_at(i) && i - hyphens_before(i) == k);
    assert forall|j: int| 0 <= j < i implies a[j] == b[j] by {
        if !is_hyphen_at(j) {
            let x = j - hyphens_before(j);
            assert(0 <= x < k);
            assert(hv.subrange(0, k)[x] == hw.subrange(0, k)[x]);
        }
    }
    assert(a.subrange(0, i) =~= b.subrange(0, i));
    i
}

} // verus!
