//! IPv6 addresses as eight 16-bit groups, and assembly of random Unique
//! Local Address (ULA) prefixes in the `fd00::/8` range.

use vstd::prelude::*;
use vstd::string::StringExecFns;
use crate::hex::{spec_hex, hex_str};
use crate::rng::random_u16_up_to;

verus! {

/// An IPv6 address: eight 16-bit groups, most significant first.
pub struct Ipv6Address {
    groups: [u16; 8],
}

impl View for Ipv6Address {
    type V = Seq<u16>;

    closed spec fn view(&self) -> Seq<u16> {
        self.groups@
    }
}

impl Ipv6Address {
    /// Builds an address from its eight groups, most significant first.
    pub fn new(a: u16, b: u16, c: u16, d: u16, e: u16, f: u16, g: u16, h: u16) -> (r: Self)
        ensures
            r@ =~= seq![a, b, c, d, e, f, g, h],
    {
        Ipv6Address { groups: [a, b, c, d, e, f, g, h] }
    }

    /// The eight 16-bit groups of the address, most significant first.
    pub fn segments(&self) -> (r: [u16; 8])
        ensures
            r@ == self@,
    {
        self.groups
    }
}

/// A well-formed generated ULA prefix address: the first octet is `0xfd` and
/// the lower 64 bits (the interface identifier) are zero.
pub open spec fn is_ula_prefix(a: Seq<u16>) -> bool {
    &&& a.len() == 8
    &&& a[0] & 0xff00 == 0xfd00
    &&& a[4] == 0
    &&& a[5] == 0
    &&& a[6] == 0
    &&& a[7] == 0
}

/// The index of the group at which the zero run swallowed by `::` begins,
/// for an address whose last four groups are zero: the run covers groups
/// 4 to 7 and extends left over any zero groups adjacent to it.
pub open spec fn zero_run_start(a: Seq<u16>) -> int {
    if a[1] == 0 && a[2] == 0 && a[3] == 0 {
        1
    } else if a[2] == 0 && a[3] == 0 {
        2
    } else if a[3] == 0 {
        3
    } else {
        4
    }
}

/// The first `j` groups of `a`, each rendered as unpadded lowercase
/// hexadecimal, joined by `':'`.
pub open spec fn spec_groups_str(a: Seq<u16>, j: int) -> Seq<char>
    decreases j,
{
    if j <= 1 {
        spec_hex(a[0] as nat)
    } else {
        spec_groups_str(a, j - 1) + seq![':'] + spec_hex(a[j - 1] as nat)
    }
}

/// The canonical string form of an address whose last four groups are zero
/// and whose first group is nonzero: the groups before the zero run, then
/// `"::"`. The zero run ending at group 7 is at least four groups long, so
/// it is the longest and the one the canonical form compresses.
pub open spec fn spec_address_str(a: Seq<u16>) -> Seq<char> {
    spec_groups_str(a, zero_run_start(a)) + seq![':', ':']
}

/// The address string followed by the `"/64"` CIDR suffix.
pub open spec fn spec_prefix_str(a: Seq<u16>) -> Seq<char> {
    spec_address_str(a) + seq!['/', '6', '4']
}

/// Renders a generated ULA prefix address in canonical form with the `"/64"`
/// suffix appended.
pub fn render_prefix(addr: &Ipv6Address) -> (r: String)
    requires
        is_ula_prefix(addr@),
    ensures
        r@ == spec_prefix_str(addr@),
{
    let segs = addr.segments();
    let j: usize = if segs[1] == 0 && segs[2] == 0 && segs[3] == 0 {
        1
    } else if segs[2] == 0 && segs[3] == 0 {
        2
    } else if segs[3] == 0 {
        3
    } else {
        4
    };
    proof {
        assert(j == zero_run_start(addr@));
    }
    let mut s = hex_str(segs[0]);
    let mut i: usize = 1;
    while i < j
        invariant
            1 <= i <= j <= 4,
            segs@ == addr@,
            segs@.len() == 8,
            j == zero_run_start(addr@),
            s@ == spec_groups_str(addr@, i as int),
        decreases j - i,
    {
        s.append(":");
        let g = hex_str(segs[i]);
        s.append(g.as_str());
        proof {
            reveal_strlit(":");
            assert(s@ =~= spec_groups_str(addr@, i as int + 1));
        }
        i += 1;
    }
    s.append("::/64");
    proof {
        reveal_strlit("::/64");
        assert(s@ =~= spec_prefix_str(addr@));
    }
    s
}

/// Assembles the ULA prefix whose first group is `0xfd00` with `second_byte`
/// in its low octet, whose next three groups are as given, and whose last
/// four groups are zero, together with its canonical string form suffixed
/// with `"/64"`.
pub fn assemble_prefix(second_byte: u16, g1: u16, g2: u16, g3: u16) -> (r: (Ipv6Address, String))
    requires
        second_byte <= 255,
    ensures
        r.0@ =~= seq![0xfd00u16 | second_byte, g1, g2, g3, 0u16, 0u16, 0u16, 0u16],
        is_ula_prefix(r.0@),
        r.1@ == spec_prefix_str(r.0@),
{
    let g0: u16 = 0xfd00 | second_byte;
    proof {
        assert((0xfd00u16 | second_byte) & 0xff00 == 0xfd00) by (bit_vector)
            requires
                second_byte <= 255,
        ;
    }
    let addr = Ipv6Address::new(g0, g1, g2, g3, 0, 0, 0, 0);
    let prefix = render_prefix(&addr);
    (addr, prefix)
}

/// Draws the random groups and assembles a ULA prefix: the first octet is
/// `0xfd`, the second octet and the next three 16-bit groups are uniformly
/// random, the last four groups are zero. Returns the address and its
/// canonical string form suffixed with `"/64"`.
pub fn create_unique_local_prefix() -> (r: (Ipv6Address, String))
    ensures
        is_ula_prefix(r.0@),
        r.0@[0] >> 8 == 0xfd,
        r.1@ == spec_prefix_str(r.0@),
        r.1@.len() >= 3,
        r.1@.subrange(r.1@.len() - 3, r.1@.len() as int) =~= seq!['/', '6', '4'],
{
    let second_byte = random_u16_up_to(255);
    let g1 = random_u16_up_to(65535);
    let g2 = random_u16_up_to(65535);
    let g3 = random_u16_up_to(65535);
    let r = assemble_prefix(second_byte, g1, g2, g3);
    proof {
        let s0 = r.0@[0];
        assert(s0 >> 8 == 0xfd) by (bit_vector)
            requires
                s0 & 0xff00 == 0xfd00,
        ;
        assert(r.1@.subrange(r.1@.len() - 3, r.1@.len() as int) =~= seq!['/', '6', '4']);
    }
    r
}

} // verus!
