use std::collections::HashSet;
use ula_prefix::address::{assemble_prefix, create_unique_local_prefix, Ipv6Address};

#[test]
fn test_create_unique_local_prefix_format() {
    // Test the format of the generated unique local prefix
    let (addr, prefix) = create_unique_local_prefix();

    // Verify it ends with "/64" (CIDR notation)
    assert!(prefix.ends_with("/64"));

    // Verify the first byte starts with fd (ULA prefix)
    let segments = addr.segments();
    assert_eq!(segments[0] >> 8, 0xfd);

    // Verify all zeros in the interface ID portion (last 64 bits)
    assert_eq!(segments[4], 0);
    assert_eq!(segments[5], 0);
    assert_eq!(segments[6], 0);
    assert_eq!(segments[7], 0);
}

#[test]
fn test_create_unique_local_prefix_randomness() {
    // Test that multiple calls produce different prefixes
    let mut prefixes = HashSet::new();

    // Generate multiple prefixes
    for _ in 0..10 {
        let (_, prefix) = create_unique_local_prefix();
        prefixes.insert(prefix);
    }

    // If randomness works, we should have close to 10 unique values
    // (very small chance of collision)
    assert!(prefixes.len() >= 9);
}

#[test]
fn test_create_unique_local_prefix_validity() {
    // Test that the generated prefix is a valid IPv6 ULA
    let (addr, _) = create_unique_local_prefix();

    // Check that it's a valid ULA (Unique Local Address)
    // ULA addresses start with fd00::/8
    let segments = addr.segments();
    assert_eq!(segments[0] & 0xff00, 0xfd00);

    // Verify the interface ID portion (last 64 bits) are zeros
    assert_eq!(segments[4], 0);
    assert_eq!(segments[5], 0);
    assert_eq!(segments[6], 0);
    assert_eq!(segments[7], 0);
}

#[test]
fn test_generated_address_is_valid_ula() {
    // Test that the generated address is within the valid ULA range
    // fc00::/7 may be allocated for ULA, but fc00::/8 is reserved for future use
    // Only fd00::/8 is currently valid for ULA
    for _ in 0..100 {
        // Test multiple generations to ensure consistency
        let (addr, prefix) = create_unique_local_prefix();

        // Get the first octet (most significant 8 bits)
        let first_octet = (addr.segments()[0] >> 8) as u8;

        // Ensure it's in the fd00::/8 range (0xfd)
        assert_eq!(
            first_octet, 0xfd,
            "Generated address {addr} is not in valid ULA range fd00::/8. First octet: 0x{first_octet:02x}",
            addr = &prefix,
            first_octet = first_octet
        );

        // Additional check: ensure it's NOT in the reserved fc00::/8 range
        assert_ne!(
            first_octet, 0xfc,
            "Generated address {addr} is in reserved fc00::/8 range, should be in fd00::/8",
            addr = &prefix
        );

        // Verify it's within the broader ULA range fc00::/7
        // (first bit of first octet should be 1 for fc00::/7)
        assert!(
            first_octet & 0xfe == 0xfc,
            "Generated address {addr} is not within ULA range fc00::/7",
            addr = &prefix
        );
    }
}

#[test]
fn test_assemble_prefix_exact_string() {
    let (addr, prefix) = assemble_prefix(0xab, 0x1234, 0x5678, 0x9abc);
    assert_eq!(prefix, "fdab:1234:5678:9abc::/64");
    let segments = addr.segments();
    assert_eq!(segments, [0xfdab, 0x1234, 0x5678, 0x9abc, 0, 0, 0, 0]);
}

#[test]
fn test_assemble_prefix_strips_leading_zeroes_in_groups() {
    let (_, prefix) = assemble_prefix(0x05, 0x0042, 0x5678, 0x9abc);
    assert_eq!(prefix, "fd05:42:5678:9abc::/64");
}

#[test]
fn test_assemble_prefix_compresses_trailing_zero_groups() {
    // All random groups zero: everything after the first group is compressed
    let (addr, prefix) = assemble_prefix(0, 0, 0, 0);
    assert_eq!(prefix, "fd00::/64");
    assert_eq!(addr.segments()[0], 0xfd00);

    // The zero run extends left over zero groups adjacent to it
    let (_, prefix) = assemble_prefix(0xab, 0x1234, 0, 0);
    assert_eq!(prefix, "fdab:1234::/64");
    let (_, prefix) = assemble_prefix(0xab, 0, 0x5678, 0);
    assert_eq!(prefix, "fdab:0:5678::/64");

    // An interior zero group not adjacent to the run is rendered as "0"
    let (_, prefix) = assemble_prefix(0xab, 0, 0, 0x9abc);
    assert_eq!(prefix, "fdab:0:0:9abc::/64");
    let (_, prefix) = assemble_prefix(0xab, 0x1234, 0, 0x9abc);
    assert_eq!(prefix, "fdab:1234:0:9abc::/64");
}

#[test]
fn test_ipv6_address_new_and_segments() {
    let addr = Ipv6Address::new(0xfd01, 2, 3, 4, 5, 6, 7, 8);
    assert_eq!(addr.segments(), [0xfd01, 2, 3, 4, 5, 6, 7, 8]);
}
