//! GATT characteristics as the session logic reads them: a 128-bit UUID and
//! the property bits, held as plain integers.

use btleplug::api::bleuuid::uuid_from_u16;
use btleplug::api::CharPropFlags;
use vstd::prelude::*;

verus! {

/// Short identifier of the characteristic that commands are written to.
pub const REQUEST_CHARACTERISTIC: u16 = 0x0af6;

/// Short identifier of the characteristic that notifies the tracker's messages.
pub const RESPONSE_CHARACTERISTIC: u16 = 0x0af7;

/// The Bluetooth Base UUID, into which short identifiers are filled.
pub const BLUETOOTH_BASE_UUID: u128 = 0x0000_0000_0000_1000_8000_0080_5f9b_34fb;

/// Property bit of a characteristic that can notify.
pub const NOTIFY: u8 = 0x10;

/// The full UUID that a 16-bit short identifier stands for.
pub open spec fn ble_uuid(short: u16) -> u128 {
    BLUETOOTH_BASE_UUID | ((short as u128) << 96)
}

/// Whether a set of property bits includes notify.
pub open spec fn notifies(properties: u8) -> bool {
    properties & NOTIFY == NOTIFY
}

/// Calls `btleplug::api::bleuuid::uuid_from_u16` and reads the result with
/// `Uuid::as_u128`. Trusted: the result is the Bluetooth Base UUID with the
/// short identifier placed in bits 96 and up.
#[verifier::external_body]
fn expand_short_uuid(short: u16) -> (uuid: u128)
    ensures
        uuid == ble_uuid(short),
{
    uuid_from_u16(short).as_u128()
}

/// Calls `CharPropFlags::contains` with `CharPropFlags::NOTIFY` on the flags
/// made of `properties` by `CharPropFlags::from_bits_retain`. Trusted: the
/// result says whether bit `0x10` is set.
#[verifier::external_body]
fn contains_notify(properties: u8) -> (found: bool)
    ensures
        found == notifies(properties),
{
    CharPropFlags::from_bits_retain(properties).contains(CharPropFlags::NOTIFY)
}

/// UUID of the request characteristic.
pub fn request_uuid() -> (uuid: u128)
    ensures
        uuid == ble_uuid(REQUEST_CHARACTERISTIC),
        uuid == 0x0000_0af6_0000_1000_8000_0080_5f9b_34fb,
{
    assert(BLUETOOTH_BASE_UUID | ((0x0af6u16 as u128) << 96)
        == 0x0000_0af6_0000_1000_8000_0080_5f9b_34fb) by (bit_vector);
    expand_short_uuid(REQUEST_CHARACTERISTIC)
}

/// UUID of the response characteristic.
pub fn response_uuid() -> (uuid: u128)
    ensures
        uuid == ble_uuid(RESPONSE_CHARACTERISTIC),
        uuid == 0x0000_0af7_0000_1000_8000_0080_5f9b_34fb,
{
    assert(BLUETOOTH_BASE_UUID | ((0x0af7u16 as u128) << 96)
        == 0x0000_0af7_0000_1000_8000_0080_5f9b_34fb) by (bit_vector);
    expand_short_uuid(RESPONSE_CHARACTERISTIC)
}

/// Different short identifiers stand for different UUIDs. Each UUID keeps
/// the low 96 bits of the Bluetooth Base UUID and holds its short identifier
/// above them.
pub proof fn short_identifiers_are_told_apart(a: u16, b: u16)
    ensures
        a != b ==> ble_uuid(a) != ble_uuid(b),
        ble_uuid(a) & 0xffff_ffff_ffff_ffff_ffff_ffff == BLUETOOTH_BASE_UUID,
        ble_uuid(a) >> 96 == a,
{
    assert(a != b ==> (0x0000_0000_0000_1000_8000_0080_5f9b_34fbu128 | ((a as u128) << 96))
        != (0x0000_0000_0000_1000_8000_0080_5f9b_34fbu128 | ((b as u128) << 96)))
        by (bit_vector);
    assert((0x0000_0000_0000_1000_8000_0080_5f9b_34fbu128 | ((a as u128) << 96))
        & 0xffff_ffff_ffff_ffff_ffff_ffff == 0x0000_0000_0000_1000_8000_0080_5f9b_34fbu128)
        by (bit_vector);
    assert((0x0000_0000_0000_1000_8000_0080_5f9b_34fbu128 | ((a as u128) << 96)) >> 96 == a as u128)
        by (bit_vector);
}

/// A discovered characteristic.
#[derive(Debug, Clone, Copy, PartialEq, Eq)]
pub struct Characteristic {
    /// The characteristic's UUID, as a 128-bit number.
    pub uuid: u128,
    /// The characteristic's property bits.
    pub properties: u8,
}

impl Characteristic {
    /// Whether the characteristic's properties include notify.
    pub open spec fn can_notify(self) -> bool {
        notifies(self.properties)
    }

    /// Whether the characteristic's properties include notify.
    pub fn supports_notify(&self) -> (supported: bool)
        ensures
            supported == self.can_notify(),
    {
        contains_notify(self.properties)
    }
}

/// Position of the first characteristic at or after `from` that `wanted`
/// holds of, if there is one.
pub open spec fn first_where(
    characteristics: Seq<Characteristic>,
    wanted: spec_fn(Characteristic) -> bool,
    from: int,
) -> Option<int>
    decreases characteristics.len() - from,
{
    if from < 0 || from >= characteristics.len() {
        None
    } else if wanted(characteristics[from]) {
        Some(from)
    } else {
        first_where(characteristics, wanted, from + 1)
    }
}

/// Position of the first characteristic at or after `from` that can notify.
pub open spec fn next_notifying(characteristics: Seq<Characteristic>, from: int) -> Option<int> {
    first_where(characteristics, |c: Characteristic| c.can_notify(), from)
}

/// Position of the first characteristic with the given UUID.
pub open spec fn position_of(characteristics: Seq<Characteristic>, uuid: u128) -> Option<int> {
    first_where(characteristics, |c: Characteristic| c.uuid == uuid, 0)
}

/// `first_where` finds the least position at or after `from` that `wanted`
/// holds of, and finds none only where there is none.
pub proof fn first_where_is_least(
    characteristics: Seq<Characteristic>,
    wanted: spec_fn(Characteristic) -> bool,
    from: int,
)
    requires
        0 <= from,
    ensures
        match first_where(characteristics, wanted, from) {
            Some(found) => {
                &&& from <= found < characteristics.len()
                &&& wanted(characteristics[found])
                &&& forall|i: int| from <= i < found ==> !wanted(#[trigger] characteristics[i])
            },
            None => forall|i: int|
                from <= i < characteristics.len() ==> !wanted(#[trigger] characteristics[i]),
        },
    decreases characteristics.len() - from,
{
    if from < characteristics.len() && !wanted(characteristics[from]) {
        first_where_is_least(characteristics, wanted, from + 1);
    }
}

/// Finds the first characteristic at or after `from` that can notify.
pub fn find_notifying(characteristics: &[Characteristic], from: usize) -> (found: Option<usize>)
    ensures
        match found {
            Some(index) => next_notifying(characteristics@, from as int) == Some(index as int),
            None => next_notifying(characteristics@, from as int) is None,
        },
{
    let mut index: usize = from;
    while index < characteristics.len()
        invariant
            from <= index,
            next_notifying(characteristics@, from as int) == next_notifying(
                characteristics@,
                index as int,
            ),
        decreases characteristics.len() - index,
    {
        if characteristics[index].supports_notify() {
            return Some(index);
        }
        index += 1;
    }
    None
}

/// Finds the first characteristic with the given UUID.
pub fn find_characteristic(characteristics: &[Characteristic], uuid: u128) -> (found: Option<usize>)
    ensures
        match found {
            Some(index) => position_of(characteristics@, uuid) == Some(index as int),
            None => position_of(characteristics@, uuid) is None,
        },
{
    let ghost wanted = |c: Characteristic| c.uuid == uuid;
    let mut index: usize = 0;
    while index < characteristics.len()
        invariant
            wanted == |c: Characteristic| c.uuid == uuid,
            position_of(characteristics@, uuid) == first_where(
                characteristics@,
                wanted,
                index as int,
            ),
        decreases characteristics.len() - index,
    {
        if characteristics[index].uuid == uuid {
            return Some(index);
        }
        index += 1;
    }
    None
}

} // verus!
