use vstd::prelude::*;

verus! {

/// The sign bit of a binary64 bit pattern.
pub const SIGN_BIT: u64 = 0x8000_0000_0000_0000;

/// The bit pattern of positive infinity: every exponent bit set, no mantissa.
pub const INFINITY_BITS: u64 = 0x7FF0_0000_0000_0000;

/// The magnitude bits of a binary64 bit pattern.
pub open spec fn magnitude(bits: u64) -> int {
    bits as int % SIGN_BIT as int
}

/// Whether a binary64 bit pattern is a NaN: all exponent bits set and a
/// mantissa other than zero.
pub open spec fn is_nan_bits(bits: u64) -> bool {
    magnitude(bits) > INFINITY_BITS as int
}

/// The place of a binary64 value in the IEEE 754 total order, as an integer:
/// the magnitude for a positive sign, and below every positive value, in
/// reverse order of magnitude, for a negative sign.
pub open spec fn total_order_key(bits: u64) -> int {
    if bits >= SIGN_BIT {
        -magnitude(bits) - 1
    } else {
        magnitude(bits)
    }
}

/// The place of a binary64 value, given by its bit pattern, in the IEEE 754
/// total order; `None` for a NaN.
pub fn order_key(bits: u64) -> (r: Option<i64>)
    ensures
        r is None <==> is_nan_bits(bits),
        r matches Some(k) ==> k as int == total_order_key(bits),
{
    let magnitude: u64 = bits % SIGN_BIT;
    if magnitude > INFINITY_BITS {
        None
    } else if bits >= SIGN_BIT {
        Some(-(magnitude as i64) - 1)
    } else {
        Some(magnitude as i64)
    }
}

/// Distinct bit patterns get distinct keys: the total order never ties two
/// different values.
pub proof fn lemma_order_key_injective(a: u64, b: u64)
    requires
        a != b,
    ensures
        total_order_key(a) != total_order_key(b),
{
    let m = SIGN_BIT as int;
    vstd::arithmetic::div_mod::lemma_fundamental_div_mod(a as int, m);
    vstd::arithmetic::div_mod::lemma_fundamental_div_mod(b as int, m);
    vstd::arithmetic::div_mod::lemma_mod_bound(a as int, m);
    vstd::arithmetic::div_mod::lemma_mod_bound(b as int, m);
    assert((a as int) / m == if a >= SIGN_BIT { 1int } else { 0int }) by {
        if a >= SIGN_BIT {
            vstd::arithmetic::div_mod::lemma_div_plus_one(a as int - m, m);
            vstd::arithmetic::div_mod::lemma_basic_div(a as int - m, m);
        } else {
            vstd::arithmetic::div_mod::lemma_basic_div(a as int, m);
        }
    }
    assert((b as int) / m == if b >= SIGN_BIT { 1int } else { 0int }) by {
        if b >= SIGN_BIT {
            vstd::arithmetic::div_mod::lemma_div_plus_one(b as int - m, m);
            vstd::arithmetic::div_mod::lemma_basic_div(b as int - m, m);
        } else {
            vstd::arithmetic::div_mod::lemma_basic_div(b as int, m);
        }
    }
}

/// Keys in ascending order (equal neighbours allowed).
pub open spec fn sorted_ascending(keys: Seq<i64>) -> bool {
    forall|i: int, j: int| 0 <= i <= j < keys.len() ==> keys[i] <= keys[j]
}

/// The samples between which a lookup interpolates: `low == high` when the
/// query clamps to an end of the table, else `high == low + 1`.
#[derive(Debug, Clone, Copy, PartialEq, Eq, Structural)]
pub struct Neighbours {
    pub low: usize,
    pub high: usize,
}

/// The neighbours of `q` among `keys`: the first sample when `q` lies at or
/// below it, the last when `q` lies at or above it, and otherwise the last
/// sample at or below `q` with the one after it. The keys are the total order
/// of the table's values, so this is the bracket that linear interpolation
/// uses.
pub fn bracket(keys: &Vec<i64>, q: i64) -> (r: Neighbours)
    requires
        keys@.len() > 0,
        sorted_ascending(keys@),
    ensures
        q <= keys@[0] ==> r == (Neighbours { low: 0, high: 0 }),
        keys@[0] < q && keys@[keys@.len() - 1] <= q ==> r == (Neighbours {
            low: (keys@.len() - 1) as usize,
            high: (keys@.len() - 1) as usize,
        }),
        keys@[0] < q < keys@[keys@.len() - 1] ==> r.high == r.low + 1 && r.high < keys@.len()
            && keys@[r.low as int] <= q < keys@[r.high as int],
{
    let n = keys.len();
    if q <= keys[0] {
        return Neighbours { low: 0, high: 0 };
    }
    if keys[n - 1] <= q {
        return Neighbours { low: n - 1, high: n - 1 };
    }
    let mut low: usize = 0;
    let mut high: usize = n - 1;
    while high - low > 1
        invariant
            0 <= low < high < n,
            n == keys@.len(),
            keys@[low as int] <= q < keys@[high as int],
        decreases high - low,
    {
        let mid = low + (high - low) / 2;
        if keys[mid] <= q {
            low = mid;
        } else {
            high = mid;
        }
    }
    Neighbours { low, high }
}

/// Whether `keys` is in ascending order.
pub fn is_sorted(keys: &Vec<i64>) -> (r: bool)
    ensures
        r == sorted_ascending(keys@),
{
    let mut i: usize = 1;
    while i < keys.len()
        invariant
            1 <= i || keys@.len() == 0,
            forall|a: int, b: int| 0 <= a <= b < i && b < keys@.len() ==> keys@[a] <= keys@[b],
        decreases keys@.len() - i,
    {
        if keys[i - 1] > keys[i] {
            return false;
        }
        i = i + 1;
    }
    true
}

} // verus!
