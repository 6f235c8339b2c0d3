use vstd::prelude::*;

verus! {

/// Facts about masking single bits of a byte, shared by the register models.
pub proof fn lemma_byte_masks()
    ensures
        forall|x: u8, m: u8| #[trigger] ((x & !m) & m) == 0u8,
        forall|x: u8, m: u8| #[trigger] ((x | m) & m) == m,
        forall|x: u8, m: u8, k: u8| (m & k) == 0u8 ==> #[trigger] ((x & !m) & k) == x & k,
        forall|x: u8, m: u8, k: u8| (m & k) == 0u8 ==> #[trigger] ((x | m) & k) == x & k,
        forall|x: u8, m: u8| #[trigger] ((x ^ m) ^ m) == x,
        forall|x: u8, m: u8| #[trigger] ((x & !m) | m) == x | m,
        forall|x: u8, m: u8| #[trigger] ((x | m) & !m) == x & !m,
        forall|x: u8, m: u8| #[trigger] ((x | m) & x) == x,
        forall|a: u8, b: u8, c: u8| (b & a) == a && (c & b) == b ==> #[trigger] (c & a) == a && #[trigger] (b & a) == a,
        forall|x: u8| #[trigger] (x & x) == x,
{
    assert forall|x: u8, m: u8| #[trigger] ((x & !m) & m) == 0u8 by {
        assert(((x & !m) & m) == 0u8) by (bit_vector);
    }
    assert forall|x: u8, m: u8| #[trigger] ((x | m) & m) == m by {
        assert(((x | m) & m) == m) by (bit_vector);
    }
    assert forall|x: u8, m: u8, k: u8| (m & k) == 0u8 implies #[trigger] ((x & !m) & k) == x & k by {
        assert((m & k) == 0u8 ==> ((x & !m) & k) == x & k) by (bit_vector);
    }
    assert forall|x: u8, m: u8, k: u8| (m & k) == 0u8 implies #[trigger] ((x | m) & k) == x & k by {
        assert((m & k) == 0u8 ==> ((x | m) & k) == x & k) by (bit_vector);
    }
    assert forall|x: u8, m: u8| #[trigger] ((x ^ m) ^ m) == x by {
        assert(((x ^ m) ^ m) == x) by (bit_vector);
    }
    assert forall|x: u8, m: u8| #[trigger] ((x & !m) | m) == x | m by {
        assert(((x & !m) | m) == x | m) by (bit_vector);
    }
    assert forall|x: u8, m: u8| #[trigger] ((x | m) & !m) == x & !m by {
        assert(((x | m) & !m) == x & !m) by (bit_vector);
    }
    assert forall|x: u8, m: u8| #[trigger] ((x | m) & x) == x by {
        assert(((x | m) & x) == x) by (bit_vector);
    }
    assert forall|a: u8, b: u8, c: u8| (b & a) == a && (c & b) == b implies #[trigger] (c & a) == a && #[trigger] (b & a) == a by {
        assert((b & a) == a && (c & b) == b ==> (c & a) == a) by (bit_vector);
    }
    assert forall|x: u8| #[trigger] (x & x) == x by {
        assert((x & x) == x) by (bit_vector);
    }
}

/// Masking to the 6507's 13 address lines stays within 0x1FFF.
pub proof fn lemma_addr13(addr: u16)
    ensures
        addr & 0x1fff <= 0x1fff,
        addr < 0x2000 ==> addr & 0x1fff == addr,
        (addr & 0x1fff) & 0x1fff == addr & 0x1fff,
{
    assert(addr & 0x1fff <= 0x1fff) by (bit_vector);
    assert(addr < 0x2000 ==> addr & 0x1fff == addr) by (bit_vector);
    assert((addr & 0x1fff) & 0x1fff == addr & 0x1fff) by (bit_vector);
}

} // verus!
