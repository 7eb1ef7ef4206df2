//! Functions for dealing with Sega Master System ROM images.
use vstd::prelude::*;

verus! {

/// Error generated when attempting to load an invalid ROM image: its
/// length should be positive, at most 0x400000, and either no bigger than
/// 0x2000 or a multiple of 0x4000.
#[derive(Clone, Copy, Debug, PartialEq, Eq, Structural)]
pub enum SmsRomError {
    BadLength(usize),
}

/// The ROM image `format` makes of `rom`, or the length it rejects.
pub open spec fn spec_format(rom: Seq<u8>) -> Result<Seq<u8>, usize>
    decreases rom.len(),
{
    let len = rom.len();
    if len == 0 || len > 0x400000 {
        Err(len as usize)
    } else if len % 0x4000 == 0 {
        Ok(rom)
    } else if len % 0x2000 == 0x200 {
        spec_format(rom.skip(0x200))
    } else if len < 0x2000 {
        let padded = rom + Seq::new((0x2000 - len) as nat, |i: int| 0u8);
        Ok(padded + padded)
    } else if len == 0x2000 {
        Ok(rom + rom)
    } else {
        Err(len as usize)
    }
}

/// A formatted ROM image has a positive length, a multiple of 0x4000 no
/// bigger than 0x400000; so formatting it again leaves it as it is.
pub proof fn lemma_format_well_formed(rom: Seq<u8>)
    ensures
        spec_format(rom) matches Ok(s) ==> {
            &&& s.len() % 0x4000 == 0
            &&& 0 < s.len() <= 0x400000
            &&& spec_format(s) == Ok::<Seq<u8>, usize>(s)
        },
    decreases rom.len(),
{
    let len = rom.len();
    if len == 0 || len > 0x400000 {
    } else if len % 0x4000 == 0 {
    } else if len % 0x2000 == 0x200 {
        lemma_format_well_formed(rom.skip(0x200));
    } else if len < 0x2000 {
        let padded = rom + Seq::new((0x2000 - len) as nat, |i: int| 0u8);
        assert((padded + padded).len() == 0x4000);
    } else if len == 0x2000 {
        assert((rom + rom).len() == 0x4000);
    }
}

/// If the ROM does not have the right length, fix that. Our ROMs will always
/// have a length a multiple of 0x4000.
///
/// This function:
/// * strips off a 512 byte header, if present
/// * does ROM mirroring of `0x2000` byte images (it puts two copies of the
///   image one after the other)
/// * pads ROMs shorter than `0x2000` bytes with zeros (and then mirrors them)
///
/// ROMs longer than `0x2000` bytes but not a multiple of `0x4000` give an
/// error.
pub fn format(rom: Vec<u8>) -> (r: Result<Vec<u8>, SmsRomError>)
    ensures
        match spec_format(rom@) {
            Ok(s) => r matches Ok(v) && v@ == s,
            Err(len) => r == Err::<Vec<u8>, SmsRomError>(SmsRomError::BadLength(len)),
        },
    decreases rom@.len(),
{
    let ghost orig = rom@;
    let mut rom = rom;
    let len = rom.len();
    if len == 0 || len > 0x400000 {
        return Err(SmsRomError::BadLength(len));
    }
    if len % 0x4000 == 0 {
        return Ok(rom);
    }
    if len % 0x2000 == 0x200 {
        let rest = rom.split_off(0x200);
        assert(rest@ =~= orig.skip(0x200));
        return format(rest);
    }
    if len < 0x2000 {
        rom.resize(0x2000, 0u8);
        let ghost padded = rom@;
        assert(padded =~= orig + Seq::new((0x2000 - len) as nat, |i: int| 0u8));
        let mut copy = rom.clone();
        assert(copy@ =~= rom@);
        rom.append(&mut copy);
        return Ok(rom);
    }
    if len == 0x2000 {
        let mut copy = rom.clone();
        assert(copy@ =~= rom@);
        rom.append(&mut copy);
        return Ok(rom);
    }
    Err(SmsRomError::BadLength(len))
}

} // verus!
