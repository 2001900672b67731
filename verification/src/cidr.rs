//! Address blocks: whether two addresses share their leading bits.

use vstd::prelude::*;
use vstd::arithmetic::power2::pow2;

use crate::ip::IpAddr;

verus! {

/// The number of bits of an address.
pub open spec fn width(ip: IpAddr) -> nat {
    match ip {
        IpAddr::V4(_) => 32,
        IpAddr::V6(_) => 128,
    }
}

/// The address as a number.
pub open spec fn bits(ip: IpAddr) -> nat {
    match ip {
        IpAddr::V4(n) => n as nat,
        IpAddr::V6(n) => n as nat,
    }
}

/// Whether both addresses belong to one family.
pub open spec fn same_family(a: IpAddr, b: IpAddr) -> bool {
    width(a) == width(b)
}

/// The number that the first `prefix` bits of an address spell.
pub open spec fn leading(ip: IpAddr, prefix: nat) -> nat {
    bits(ip) / pow2((width(ip) - prefix) as nat)
}

/// Whether both addresses are of one family and start with the same `prefix` bits.
pub open spec fn agree(a: IpAddr, b: IpAddr, prefix: nat) -> bool {
    same_family(a, b) && leading(a, prefix) == leading(b, prefix)
}

/// An address shares any number of leading bits with itself.
pub proof fn agree_reflexive(a: IpAddr, prefix: nat)
    ensures
        agree(a, a, prefix),
{
}

/// Sharing leading bits does not depend on the order of the addresses.
pub proof fn agree_symmetric(a: IpAddr, b: IpAddr, prefix: nat)
    ensures
        agree(a, b, prefix) == agree(b, a, prefix),
{
}

/// Two addresses in one block with a third are in that block together.
pub proof fn agree_transitive(a: IpAddr, b: IpAddr, c: IpAddr, prefix: nat)
    requires
        agree(a, b, prefix),
        agree(b, c, prefix),
    ensures
        agree(a, c, prefix),
{
}

/// A block contains every narrower block around the same address.
pub proof fn agree_on_fewer(a: IpAddr, b: IpAddr, longer: nat, shorter: nat)
    requires
        shorter <= longer <= width(a),
        agree(a, b, longer),
    ensures
        agree(a, b, shorter),
{
    let outer = (width(a) - longer) as nat;
    let inner = (longer - shorter) as nat;
    vstd::arithmetic::power2::lemma_pow2_adds(outer, inner);
    vstd::arithmetic::power2::lemma_pow2_pos(outer);
    vstd::arithmetic::power2::lemma_pow2_pos(inner);
    vstd::arithmetic::div_mod::lemma_div_denominator(
        bits(a) as int,
        pow2(outer) as int,
        pow2(inner) as int,
    );
    vstd::arithmetic::div_mod::lemma_div_denominator(
        bits(b) as int,
        pow2(outer) as int,
        pow2(inner) as int,
    );
}

/// Addresses that share all their bits are equal.
pub proof fn agree_on_all(a: IpAddr, b: IpAddr)
    ensures
        agree(a, b, width(a)) == (a == b),
{
    vstd::arithmetic::power2::lemma2_to64();
    assert(pow2((width(a) - width(a)) as nat) == 1);
    if same_family(a, b) {
        assert(leading(a, width(a)) == bits(a));
        assert(leading(b, width(a)) == bits(b));
    }
}

/// A block of prefix length zero holds every address of its family.
pub proof fn agree_on_none(a: IpAddr, b: IpAddr)
    ensures
        agree(a, b, 0) == same_family(a, b),
{
    vstd::arithmetic::power2::lemma2_to64();
    vstd::arithmetic::power2::lemma_pow2_adds(64, 64);
    assert(pow2(128) == 0x1_0000_0000_0000_0000_0000_0000_0000_0000) by (nonlinear_arith)
        requires
            pow2(128) == pow2(64) * pow2(64),
            pow2(64) == 0x1_0000_0000_0000_0000,
    ;
    vstd::arithmetic::div_mod::lemma_basic_div(bits(a) as int, pow2(width(a)) as int);
    vstd::arithmetic::div_mod::lemma_basic_div(bits(b) as int, pow2(width(b)) as int);
}

/// Whether both addresses are of one family and start with the same `prefix` bits.
pub fn leading_bits_agree(a: IpAddr, b: IpAddr, prefix: u8) -> (r: bool)
    requires
        prefix <= width(a),
    ensures
        r == agree(a, b, prefix as nat),
{
    if prefix == 0 {
        proof {
            agree_on_none(a, b);
        }
        return a.is_ipv4() == b.is_ipv4();
    }
    match (a, b) {
        (IpAddr::V4(m), IpAddr::V4(n)) => {
            let shift: u32 = 32 - prefix as u32;
            proof {
                vstd::bits::lemma_u32_shr_is_div(m, shift);
                vstd::bits::lemma_u32_shr_is_div(n, shift);
            }
            (m >> shift) == (n >> shift)
        },
        (IpAddr::V6(m), IpAddr::V6(n)) => {
            let shift: u128 = 128 - prefix as u128;
            proof {
                vstd::bits::lemma_u128_shr_is_div(m, shift);
                vstd::bits::lemma_u128_shr_is_div(n, shift);
            }
            (m >> shift) == (n >> shift)
        },
        _ => false,
    }
}

} // verus!
