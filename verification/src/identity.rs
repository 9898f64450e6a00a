//! The fixed identity the emulated server presents: the ANCS service and
//! characteristic UUIDs and the spoofed advertising payload (local name and
//! Apple manufacturer-data prefix).
//!
//! UUID bytes are in text order (big-endian, as the UUID string reads).

use vstd::prelude::*;

verus! {

/// The three ANCS characteristics.
#[derive(Clone, Copy, Debug, PartialEq, Eq)]
pub enum AncsCharacteristic {
    /// Read + encrypted read + notify.
    NotificationSource,
    /// Read + encrypted read + notify.
    DataSource,
    /// Write + write-without-response + encrypted write.
    ControlPoint,
}

/// The ANCS service UUID, `7905f431-b5ce-4e99-a40f-4b1e122d00d0`.
pub open spec fn ancs_service_uuid() -> Seq<u8> {
    seq![
        0x79u8,
        0x05,
        0xf4,
        0x31,
        0xb5,
        0xce,
        0x4e,
        0x99,
        0xa4,
        0x0f,
        0x4b,
        0x1e,
        0x12,
        0x2d,
        0x00,
        0xd0,
    ]
}

/// The UUID of each ANCS characteristic:
/// `9fbf120d-6301-42d9-8c58-25e699a21dbd` (Notification Source),
/// `22eac6e9-24d6-4bb5-be44-b36ace7c7bfb` (Data Source),
/// `69d1d8f3-45e1-49a8-9821-9bbdfdaad9d9` (Control Point).
pub open spec fn ancs_characteristic_uuid(c: AncsCharacteristic) -> Seq<u8> {
    match c {
        AncsCharacteristic::NotificationSource => seq![
            0x9fu8,
            0xbf,
            0x12,
            0x0d,
            0x63,
            0x01,
            0x42,
            0xd9,
            0x8c,
            0x58,
            0x25,
            0xe6,
            0x99,
            0xa2,
            0x1d,
            0xbd,
        ],
        AncsCharacteristic::DataSource => seq![
            0x22u8,
            0xea,
            0xc6,
            0xe9,
            0x24,
            0xd6,
            0x4b,
            0xb5,
            0xbe,
            0x44,
            0xb3,
            0x6a,
            0xce,
            0x7c,
            0x7b,
            0xfb,
        ],
        AncsCharacteristic::ControlPoint => seq![
            0x69u8,
            0xd1,
            0xd8,
            0xf3,
            0x45,
            0xe1,
            0x49,
            0xa8,
            0x98,
            0x21,
            0x9b,
            0xbd,
            0xfd,
            0xaa,
            0xd9,
            0xd9,
        ],
    }
}

/// The advertised local name, `iP`.
pub open spec fn spec_advertised_name() -> Seq<u8> {
    seq![0x69u8, 0x50]
}

/// The manufacturer-specific data prefix: Apple's company ID and the
/// type/length bytes.
pub open spec fn spec_apple_manufacturer_data() -> Seq<u8> {
    seq![0x4Cu8, 0x00, 0x02, 0x15]
}

/// The ANCS service UUID bytes.
pub fn service_uuid_bytes() -> (r: [u8; 16])
    ensures
        r@ == ancs_service_uuid(),
{
    let r: [u8; 16] = [
        0x79,
        0x05,
        0xf4,
        0x31,
        0xb5,
        0xce,
        0x4e,
        0x99,
        0xa4,
        0x0f,
        0x4b,
        0x1e,
        0x12,
        0x2d,
        0x00,
        0xd0,
    ];
    proof {
        assert(r@ =~= ancs_service_uuid());
    }
    r
}

/// The UUID bytes of one ANCS characteristic.
pub fn characteristic_uuid_bytes(c: AncsCharacteristic) -> (r: [u8; 16])
    ensures
        r@ == ancs_characteristic_uuid(c),
{
    let r: [u8; 16] = match c {
        AncsCharacteristic::NotificationSource => [
            0x9f,
            0xbf,
            0x12,
            0x0d,
            0x63,
            0x01,
            0x42,
            0xd9,
            0x8c,
            0x58,
            0x25,
            0xe6,
            0x99,
            0xa2,
            0x1d,
            0xbd,
        ],
        AncsCharacteristic::DataSource => [
            0x22,
            0xea,
            0xc6,
            0xe9,
            0x24,
            0xd6,
            0x4b,
            0xb5,
            0xbe,
            0x44,
            0xb3,
            0x6a,
            0xce,
            0x7c,
            0x7b,
            0xfb,
        ],
        AncsCharacteristic::ControlPoint => [
            0x69,
            0xd1,
            0xd8,
            0xf3,
            0x45,
            0xe1,
            0x49,
            0xa8,
            0x98,
            0x21,
            0x9b,
            0xbd,
            0xfd,
            0xaa,
            0xd9,
            0xd9,
        ],
    };
    proof {
        assert(r@ =~= ancs_characteristic_uuid(c));
    }
    r
}

/// The advertised local name bytes.
pub fn advertised_name() -> (r: [u8; 2])
    ensures
        r@ == spec_advertised_name(),
{
    let r: [u8; 2] = [0x69, 0x50];
    proof {
        assert(r@ =~= spec_advertised_name());
    }
    r
}

/// The Apple manufacturer-data prefix bytes.
pub fn apple_manufacturer_data() -> (r: [u8; 4])
    ensures
        r@ == spec_apple_manufacturer_data(),
{
    let r: [u8; 4] = [0x4C, 0x00, 0x02, 0x15];
    proof {
        assert(r@ =~= spec_apple_manufacturer_data());
    }
    r
}

} // verus!
