//! What the `DS18B20` temperature sensor driver computes from the bytes it
//! reads: the Dallas/Maxim CRC-8 of the scratchpad and the raw temperature.
use vstd::prelude::*;

verus! {

/// Errors that may occur when interacting with the `DS18B20` sensor.
#[derive(Debug)]
pub enum Ds18b20Error<E> {
    /// Error related to GPIO pin I/O operations.
    Pin(E),
    /// Data integrity error due to CRC check failure.
    CrcMismatch,
    /// No presence pulse detected, sensor not found on bus.
    NoPresence,
}

/// The CRC after `n` more bits of `b` are shifted in, least significant
/// bit first, with the reflected polynomial `0x8C`.
pub open spec fn crc_bits(crc: u8, b: u8, n: nat) -> u8
    decreases n,
{
    if n == 0 {
        crc
    } else {
        let mix = (crc ^ b) & 1u8;
        let shifted = crc >> 1u8;
        let next = if mix != 0 {
            shifted ^ 0x8Cu8
        } else {
            shifted
        };
        crc_bits(next, b >> 1u8, (n - 1) as nat)
    }
}

/// The Dallas/Maxim CRC-8 of a sequence of bytes.
pub open spec fn crc8_of(data: Seq<u8>) -> u8
    decreases data.len(),
{
    if data.len() == 0 {
        0
    } else {
        crc_bits(crc8_of(data.drop_last()), data.last(), 8)
    }
}

/// Computes the Dallas/Maxim CRC-8 checksum of the given bytes.
pub fn crc8(data: &[u8]) -> (r: u8)
    ensures
        r == crc8_of(data@),
{
    let mut crc: u8 = 0;
    let mut k: usize = 0;
    while k < data.len()
        invariant
            k <= data@.len(),
            crc == crc8_of(data@.subrange(0, k as int)),
        decreases data@.len() - k,
    {
        let byte = data[k];
        let mut b = byte;
        let mut i: usize = 0;
        let ghost start = crc;
        while i < 8
            invariant
                i <= 8,
                crc_bits(crc, b, (8 - i) as nat) == crc_bits(start, byte, 8),
            decreases 8 - i,
        {
            let mix = (crc ^ b) & 0x01;
            crc = crc >> 1;
            if mix != 0 {
                crc = crc ^ 0x8C;
            }
            b = b >> 1;
            i = i + 1;
        }
        proof {
            assert(data@.subrange(0, k + 1).drop_last() =~= data@.subrange(0, k as int));
        }
        k = k + 1;
    }
    proof {
        assert(data@.subrange(0, k as int) =~= data@);
    }
    crc
}

/// The raw temperature of the sensor, in sixteenths of a degree Celsius:
/// the two's complement number whose low byte is `lsb` and high byte `msb`.
pub open spec fn raw_temperature(lsb: u8, msb: u8) -> int {
    if msb < 128 {
        msb as int * 256 + lsb as int
    } else {
        msb as int * 256 + lsb as int - 65536
    }
}

/// Checks the nine bytes of a scratchpad against their CRC and returns the
/// raw temperature they hold, in sixteenths of a degree Celsius.
pub fn scratchpad_temperature<E>(data: &[u8; 9]) -> (r: Result<i16, Ds18b20Error<E>>)
    ensures
        r is Ok <==> crc8_of(data@.subrange(0, 8)) == data@[8],
        r matches Ok(t) ==> t as int == raw_temperature(data@[0], data@[1]),
        r matches Err(e) ==> e is CrcMismatch,
{
    let crc = crc8(data.as_slice().split_at(8).0);
    if crc != data[8] {
        return Err(Ds18b20Error::CrcMismatch);
    }
    let lsb = data[0];
    let msb = data[1];
    let word: i32 = (msb as i32) * 256 + (lsb as i32);
    let t: i32 = if msb < 128 {
        word
    } else {
        word - 65536
    };
    Ok(t as i16)
}

} // verus!
