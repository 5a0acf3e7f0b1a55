//! Decoding of the named settings from the two pages of the monitor's
//! settings table.

use vstd::prelude::*;

verus! {

/// The settings that can be read back from the monitor. The color gains and
/// the input source are in neither page: they can be written only.
#[derive(Clone, Copy, Debug, PartialEq, Eq, Structural)]
pub struct Settings {
    pub brightness: u8,
    pub contrast: u8,
    pub gamma: u8,
    pub black_equalizer: u8,
    pub color_vibrance: u8,
    pub color_temperature: u8,
    pub sharpness: u8,
    pub low_blue_light: u8,
    pub super_resolution: u8,
    pub overdrive: u8,
}

/// The settings held by a pair of pages: each at its fixed offset.
pub open spec fn spec_decode(page0: Seq<u8>, page1: Seq<u8>) -> Settings {
    Settings {
        brightness: page0[14],
        contrast: page0[18],
        gamma: page0[25],
        black_equalizer: page0[13],
        color_vibrance: page0[16],
        color_temperature: page0[17],
        sharpness: page1[22],
        low_blue_light: page1[10],
        super_resolution: page1[11],
        overdrive: page1[12],
    }
}

/// The offsets of the first page that hold a named setting.
pub open spec fn page0_offsets() -> Set<int> {
    set![13, 14, 16, 17, 18, 25]
}

/// The offsets of the second page that hold a named setting.
pub open spec fn page1_offsets() -> Set<int> {
    set![10, 11, 12, 22]
}

/// Extracts the named settings from a pair of pages.
pub fn decode(page0: &[u8; 36], page1: &[u8; 36]) -> (settings: Settings)
    ensures
        settings == spec_decode(page0@, page1@),
{
    Settings {
        brightness: page0[14],
        contrast: page0[18],
        gamma: page0[25],
        black_equalizer: page0[13],
        color_vibrance: page0[16],
        color_temperature: page0[17],
        sharpness: page1[22],
        low_blue_light: page1[10],
        super_resolution: page1[11],
        overdrive: page1[12],
    }
}

/// Decoding looks at the named offsets and at nothing else: two pairs of
/// pages that agree there decode to the same settings, however they differ
/// elsewhere.
pub proof fn lemma_decode_ignores_other_bytes(
    page0: Seq<u8>,
    page1: Seq<u8>,
    other0: Seq<u8>,
    other1: Seq<u8>,
)
    requires
        forall|i: int| page0_offsets().contains(i) ==> page0[i] == other0[i],
        forall|i: int| page1_offsets().contains(i) ==> page1[i] == other1[i],
    ensures
        spec_decode(page0, page1) == spec_decode(other0, other1),
{
    assert(page0_offsets().contains(13));
    assert(page0_offsets().contains(14));
    assert(page0_offsets().contains(16));
    assert(page0_offsets().contains(17));
    assert(page0_offsets().contains(18));
    assert(page0_offsets().contains(25));
    assert(page1_offsets().contains(10));
    assert(page1_offsets().contains(11));
    assert(page1_offsets().contains(12));
    assert(page1_offsets().contains(22));
}

} // verus!
