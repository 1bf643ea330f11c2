//! Device serials.
use vstd::prelude::*;

verus! {

/// The 48-bit MAC address that serves as a device's serial.
#[derive(Debug, Clone, Copy, PartialEq, Eq)]
pub struct MacAddress {
    pub eui: [u8; 6],
}

/// Appends one byte to a big-endian number.
pub open spec fn shift_in(high: int, byte: u8) -> int {
    high * 256 + byte
}

/// Six bytes read as a big-endian number.
pub open spec fn big_endian(eui: Seq<u8>) -> int {
    shift_in(
        shift_in(
            shift_in(shift_in(shift_in(shift_in(0, eui[0]), eui[1]), eui[2]), eui[3]),
            eui[4],
        ),
        eui[5],
    )
}

impl MacAddress {
    /// The number under which a connection of this device is registered.
    pub open spec fn key(self) -> u64 {
        big_endian(self.eui@) as u64
    }

    /// The address as a number, its first byte the most significant one.
    pub fn to_key(&self) -> (key: u64)
        ensures
            key == self.key(),
            key == big_endian(self.eui@),
        opens_invariants none
    {
        let mut key: u64 = self.eui[0] as u64;
        key = key * 256 + self.eui[1] as u64;
        key = key * 256 + self.eui[2] as u64;
        key = key * 256 + self.eui[3] as u64;
        key = key * 256 + self.eui[4] as u64;
        key = key * 256 + self.eui[5] as u64;
        key
    }

    /// The all-zero address, which a connection carries until its device is known.
    pub fn nil() -> (mac: MacAddress)
        ensures
            mac.eui@ == seq![0u8, 0, 0, 0, 0, 0],
        opens_invariants none
    {
        MacAddress { eui: default_eui() }
    }
}

impl Default for MacAddress {
    /// The all-zero address.
    fn default() -> (mac: MacAddress)
        ensures
            mac.eui@ == seq![0u8, 0, 0, 0, 0, 0],
    {
        MacAddress::nil()
    }
}

/// Calls `eui48::MacAddress::default`, which gives the address 00-00-00-00-00-00, and takes its
/// bytes.
#[verifier::external_body]
fn default_eui() -> (eui: [u8; 6])
    ensures
        eui@ == seq![0u8, 0, 0, 0, 0, 0],
    opens_invariants none
{
    eui48::MacAddress::default().to_array()
}

/// Both parts of a number can be read off it.
proof fn lemma_shift_in_injective(high1: int, byte1: u8, high2: int, byte2: u8)
    requires
        shift_in(high1, byte1) == shift_in(high2, byte2),
    ensures
        high1 == high2,
        byte1 == byte2,
{
}

/// Six bytes fit into 48 bits.
proof fn lemma_big_endian_bound(eui: Seq<u8>)
    ensures
        0 <= big_endian(eui) < 0x1_0000_0000_0000,
{
}

/// A key identifies its device: different addresses have different keys.
pub proof fn law_key_identifies_device(a: MacAddress, b: MacAddress)
    ensures
        a.key() == b.key() <==> a == b,
{
    if a.key() == b.key() {
        let x = a.eui@;
        let y = b.eui@;
        lemma_big_endian_bound(x);
        lemma_big_endian_bound(y);
        let x1 = shift_in(shift_in(0, x[0]), x[1]);
        let y1 = shift_in(shift_in(0, y[0]), y[1]);
        let x3 = shift_in(shift_in(x1, x[2]), x[3]);
        let y3 = shift_in(shift_in(y1, y[2]), y[3]);
        lemma_shift_in_injective(shift_in(x3, x[4]), x[5], shift_in(y3, y[4]), y[5]);
        lemma_shift_in_injective(x3, x[4], y3, y[4]);
        lemma_shift_in_injective(shift_in(x1, x[2]), x[3], shift_in(y1, y[2]), y[3]);
        lemma_shift_in_injective(x1, x[2], y1, y[2]);
        lemma_shift_in_injective(shift_in(0, x[0]), x[1], shift_in(0, y[0]), y[1]);
        assert(x =~= y);
        assert(a.eui == b.eui);
    }
}

/// Two devices are registered under the same key exactly if they are the same device.
pub proof fn law_keys_tell_devices_apart(a: MacAddress, b: MacAddress, key_a: u64, key_b: u64)
    requires
        call_ensures(MacAddress::to_key, (&a,), key_a),
        call_ensures(MacAddress::to_key, (&b,), key_b),
    ensures
        key_a == key_b <==> a == b,
{
    law_key_identifies_device(a, b);
}

/// The address of an unknown device is zero in each of its six bytes.
pub proof fn law_default_address_is_zero(mac: MacAddress)
    requires
        call_ensures(MacAddress::nil, (), mac),
    ensures
        forall|i: int| 0 <= i < 6 ==> mac.eui@[i] == 0,
{
}

} // verus!
