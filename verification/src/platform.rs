//! Platform queries with a computable core: the platform layer performs the
//! system calls and hands their raw results here.

use vstd::prelude::*;

verus! {

/// Splits a little-endian packed IPv4 address, as the platform's network
/// service reports it, into its four dotted-quad octets.
pub fn ipv4_octets_from_le(addr: u32) -> (r: [u8; 4])
    ensures
        r@[0] == (addr as int) % 256,
        r@[1] == ((addr as int) / 256) % 256,
        r@[2] == ((addr as int) / 65536) % 256,
        r@[3] == ((addr as int) / 16777216) % 256,
{
    proof {
        assert((addr & 0xFF) < 256 && ((addr >> 8) & 0xFF) < 256 && ((addr >> 16) & 0xFF) < 256
            && ((addr >> 24) & 0xFF) < 256) by (bit_vector);
        assert((addr & 0xFF) == addr % 256) by (bit_vector);
        assert(((addr >> 8) & 0xFF) == (addr / 256) % 256) by (bit_vector);
        assert(((addr >> 16) & 0xFF) == (addr / 65536) % 256) by (bit_vector);
        assert(((addr >> 24) & 0xFF) == (addr / 16777216) % 256) by (bit_vector);
    }
    [(addr & 0xFF) as u8, ((addr >> 8) & 0xFF) as u8, ((addr >> 16) & 0xFF) as u8, ((addr >> 24)
        & 0xFF) as u8]
}

} // verus!
