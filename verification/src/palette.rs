use vstd::prelude::*;

verus! {

/// Identifier-to-RGB tables for the two indexed palettes. Identifiers are
/// the positions in the sequences, so they are unique by construction, and
/// every component lies in 0..=255 because the entries are bytes.
pub open spec fn basic_palette() -> Seq<(u8, u8, u8)> {
    Seq::new(16, |i: int| basic_entry(i))
}

/// The 99-entry palette; its first 16 entries happen to match the basic
/// palette but are stored independently.
pub open spec fn extended_palette() -> Seq<(u8, u8, u8)> {
    Seq::new(99, |i: int| extended_entry(i))
}

pub open spec fn basic_entry(i: int) -> (u8, u8, u8) {
    if i == 0 {
        (0xFFu8, 0xFFu8, 0xFFu8)
    } else if i == 1 {
        (0x00u8, 0x00u8, 0x00u8)
    } else if i == 2 {
        (0x00u8, 0x00u8, 0x7Fu8)
    } else if i == 3 {
        (0x00u8, 0x93u8, 0x00u8)
    } else if i == 4 {
        (0xFFu8, 0x00u8, 0x00u8)
    } else if i == 5 {
        (0x7Fu8, 0x00u8, 0x00u8)
    } else if i == 6 {
        (0x9Cu8, 0x00u8, 0x9Cu8)
    } else if i == 7 {
        (0xFCu8, 0x7Fu8, 0x00u8)
    } else if i == 8 {
        (0xFFu8, 0xFFu8, 0x00u8)
    } else if i == 9 {
        (0x00u8, 0xFCu8, 0x00u8)
    } else if i == 10 {
        (0x00u8, 0x93u8, 0x93u8)
    } else if i == 11 {
        (0x00u8, 0xFFu8, 0xFFu8)
    } else if i == 12 {
        (0x00u8, 0x00u8, 0xFCu8)
    } else if i == 13 {
        (0xFFu8, 0x00u8, 0xFFu8)
    } else if i == 14 {
        (0x7Fu8, 0x7Fu8, 0x7Fu8)
    } else {
        (0xD2u8, 0xD2u8, 0xD2u8)
    }
}

pub open spec fn extended_entry(i: int) -> (u8, u8, u8) {
    if i == 0 {
        (0xFFu8, 0xFFu8, 0xFFu8)
    } else if i == 1 {
        (0x00u8, 0x00u8, 0x00u8)
    } else if i == 2 {
        (0x00u8, 0x00u8, 0x7Fu8)
    } else if i == 3 {
        (0x00u8, 0x93u8, 0x00u8)
    } else if i == 4 {
        (0xFFu8, 0x00u8, 0x00u8)
    } else if i == 5 {
        (0x7Fu8, 0x00u8, 0x00u8)
    } else if i == 6 {
        (0x9Cu8, 0x00u8, 0x9Cu8)
    } else if i == 7 {
        (0xFCu8, 0x7Fu8, 0x00u8)
    } else if i == 8 {
        (0xFFu8, 0xFFu8, 0x00u8)
    } else if i == 9 {
        (0x00u8, 0xFCu8, 0x00u8)
    } else if i == 10 {
        (0x00u8, 0x93u8, 0x93u8)
    } else if i == 11 {
        (0x00u8, 0xFFu8, 0xFFu8)
    } else if i == 12 {
        (0x00u8, 0x00u8, 0xFCu8)
    } else if i == 13 {
        (0xFFu8, 0x00u8, 0xFFu8)
    } else if i == 14 {
        (0x7Fu8, 0x7Fu8, 0x7Fu8)
    } else if i == 15 {
        (0xD2u8, 0xD2u8, 0xD2u8)
    } else if i == 16 {
        (0x47u8, 0x00u8, 0x00u8)
    } else if i == 17 {
        (0x47u8, 0x21u8, 0x00u8)
    } else if i == 18 {
        (0x47u8, 0x47u8, 0x00u8)
    } else if i == 19 {
        (0x32u8, 0x47u8, 0x00u8)
    } else if i == 20 {
        (0x00u8, 0x47u8, 0x00u8)
    } else if i == 21 {
        (0x00u8, 0x47u8, 0x2Cu8)
    } else if i == 22 {
        (0x00u8, 0x47u8, 0x47u8)
    } else if i == 23 {
        (0x00u8, 0x27u8, 0x47u8)
    } else if i == 24 {
        (0x00u8, 0x00u8, 0x47u8)
    } else if i == 25 {
        (0x2Eu8, 0x00u8, 0x47u8)
    } else if i == 26 {
        (0x47u8, 0x00u8, 0x47u8)
    } else if i == 27 {
        (0x47u8, 0x00u8, 0x2Au8)
    } else if i == 28 {
        (0x74u8, 0x00u8, 0x00u8)
    } else if i == 29 {
        (0x74u8, 0x3Au8, 0x00u8)
    } else if i == 30 {
        (0x74u8, 0x74u8, 0x00u8)
    } else if i == 31 {
        (0x51u8, 0x74u8, 0x00u8)
    } else if i == 32 {
        (0x00u8, 0x74u8, 0x00u8)
    } else if i == 33 {
        (0x00u8, 0x74u8, 0x49u8)
    } else if i == 34 {
        (0x00u8, 0x74u8, 0x74u8)
    } else if i == 35 {
        (0x00u8, 0x40u8, 0x74u8)
    } else if i == 36 {
        (0x00u8, 0x00u8, 0x74u8)
    } else if i == 37 {
        (0x4Bu8, 0x00u8, 0x74u8)
    } else if i == 38 {
        (0x74u8, 0x00u8, 0x74u8)
    } else if i == 39 {
        (0x74u8, 0x00u8, 0x45u8)
    } else if i == 40 {
        (0xB5u8, 0x00u8, 0x00u8)
    } else if i == 41 {
        (0xB5u8, 0x63u8, 0x00u8)
    } else if i == 42 {
        (0xB5u8, 0xB5u8, 0x00u8)
    } else if i == 43 {
        (0x7Du8, 0xB5u8, 0x00u8)
    } else if i == 44 {
        (0x00u8, 0xB5u8, 0x00u8)
    } else if i == 45 {
        (0x00u8, 0xB5u8, 0x71u8)
    } else if i == 46 {
        (0x00u8, 0xB5u8, 0xB5u8)
    } else if i == 47 {
        (0x00u8, 0x63u8, 0xB5u8)
    } else if i == 48 {
        (0x00u8, 0x00u8, 0xB5u8)
    } else if i == 49 {
        (0x75u8, 0x00u8, 0xB5u8)
    } else if i == 50 {
        (0xB5u8, 0x00u8, 0xB5u8)
    } else if i == 51 {
        (0xB5u8, 0x00u8, 0x6Bu8)
    } else if i == 52 {
        (0xFFu8, 0x00u8, 0x00u8)
    } else if i == 53 {
        (0xFFu8, 0x8Cu8, 0x00u8)
    } else if i == 54 {
        (0xFFu8, 0xFFu8, 0x00u8)
    } else if i == 55 {
        (0xB2u8, 0xFFu8, 0x00u8)
    } else if i == 56 {
        (0x00u8, 0xFFu8, 0x00u8)
    } else if i == 57 {
        (0x00u8, 0xFFu8, 0xA0u8)
    } else if i == 58 {
        (0x00u8, 0xFFu8, 0xFFu8)
    } else if i == 59 {
        (0x00u8, 0x8Cu8, 0xFFu8)
    } else if i == 60 {
        (0x00u8, 0x00u8, 0xFFu8)
    } else if i == 61 {
        (0xA5u8, 0x00u8, 0xFFu8)
    } else if i == 62 {
        (0xFFu8, 0x00u8, 0xFFu8)
    } else if i == 63 {
        (0xFFu8, 0x00u8, 0x98u8)
    } else if i == 64 {
        (0xFFu8, 0x59u8, 0x59u8)
    } else if i == 65 {
        (0xFFu8, 0xB4u8, 0x59u8)
    } else if i == 66 {
        (0xFFu8, 0xFFu8, 0x71u8)
    } else if i == 67 {
        (0xCFu8, 0xFFu8, 0x60u8)
    } else if i == 68 {
        (0x6Fu8, 0xFFu8, 0x6Fu8)
    } else if i == 69 {
        (0x65u8, 0xFFu8, 0xC9u8)
    } else if i == 70 {
        (0x6Du8, 0xFFu8, 0xFFu8)
    } else if i == 71 {
        (0x59u8, 0xB4u8, 0xFFu8)
    } else if i == 72 {
        (0x59u8, 0x59u8, 0xFFu8)
    } else if i == 73 {
        (0xC4u8, 0x59u8, 0xFFu8)
    } else if i == 74 {
        (0xFFu8, 0x66u8, 0xFFu8)
    } else if i == 75 {
        (0xFFu8, 0x59u8, 0xBCu8)
    } else if i == 76 {
        (0xFFu8, 0x9Cu8, 0x9Cu8)
    } else if i == 77 {
        (0xFFu8, 0xD3u8, 0x9Cu8)
    } else if i == 78 {
        (0xFFu8, 0xFFu8, 0x9Cu8)
    } else if i == 79 {
        (0xE2u8, 0xFFu8, 0x9Cu8)
    } else if i == 80 {
        (0x9Cu8, 0xFFu8, 0x9Cu8)
    } else if i == 81 {
        (0x9Cu8, 0xFFu8, 0xDBu8)
    } else if i == 82 {
        (0x9Cu8, 0xFFu8, 0xFFu8)
    } else if i == 83 {
        (0x9Cu8, 0xD3u8, 0xFFu8)
    } else if i == 84 {
        (0x9Cu8, 0x9Cu8, 0xFFu8)
    } else if i == 85 {
        (0xDCu8, 0x9Cu8, 0xFFu8)
    } else if i == 86 {
        (0xFFu8, 0x9Cu8, 0xFFu8)
    } else if i == 87 {
        (0xFFu8, 0x94u8, 0xD3u8)
    } else if i == 88 {
        (0x00u8, 0x00u8, 0x00u8)
    } else if i == 89 {
        (0x13u8, 0x13u8, 0x13u8)
    } else if i == 90 {
        (0x28u8, 0x28u8, 0x28u8)
    } else if i == 91 {
        (0x36u8, 0x36u8, 0x36u8)
    } else if i == 92 {
        (0x4Du8, 0x4Du8, 0x4Du8)
    } else if i == 93 {
        (0x65u8, 0x65u8, 0x65u8)
    } else if i == 94 {
        (0x81u8, 0x81u8, 0x81u8)
    } else if i == 95 {
        (0x9Fu8, 0x9Fu8, 0x9Fu8)
    } else if i == 96 {
        (0xBCu8, 0xBCu8, 0xBCu8)
    } else if i == 97 {
        (0xE2u8, 0xE2u8, 0xE2u8)
    } else {
        (0xFFu8, 0xFFu8, 0xFFu8)
    }
}

/// The RGB triple of the basic-palette entry with identifier `idx`.
pub fn basic_colour_at(idx: u8) -> (c: (u8, u8, u8))
    requires
        idx < 16,
    ensures
        c == basic_entry(idx as int),
{
    match idx {
        0 => (0xFF, 0xFF, 0xFF),
        1 => (0x00, 0x00, 0x00),
        2 => (0x00, 0x00, 0x7F),
        3 => (0x00, 0x93, 0x00),
        4 => (0xFF, 0x00, 0x00),
        5 => (0x7F, 0x00, 0x00),
        6 => (0x9C, 0x00, 0x9C),
        7 => (0xFC, 0x7F, 0x00),
        8 => (0xFF, 0xFF, 0x00),
        9 => (0x00, 0xFC, 0x00),
        10 => (0x00, 0x93, 0x93),
        11 => (0x00, 0xFF, 0xFF),
        12 => (0x00, 0x00, 0xFC),
        13 => (0xFF, 0x00, 0xFF),
        14 => (0x7F, 0x7F, 0x7F),
        _ => (0xD2, 0xD2, 0xD2),
    }
}

/// The RGB triple of the extended-palette entry with identifier `idx`.
pub fn extended_colour_at(idx: u8) -> (c: (u8, u8, u8))
    requires
        idx < 99,
    ensures
        c == extended_entry(idx as int),
{
    match idx {
        0 => (0xFF, 0xFF, 0xFF),
        1 => (0x00, 0x00, 0x00),
        2 => (0x00, 0x00, 0x7F),
        3 => (0x00, 0x93, 0x00),
        4 => (0xFF, 0x00, 0x00),
        5 => (0x7F, 0x00, 0x00),
        6 => (0x9C, 0x00, 0x9C),
        7 => (0xFC, 0x7F, 0x00),
        8 => (0xFF, 0xFF, 0x00),
        9 => (0x00, 0xFC, 0x00),
        10 => (0x00, 0x93, 0x93),
        11 => (0x00, 0xFF, 0xFF),
        12 => (0x00, 0x00, 0xFC),
        13 => (0xFF, 0x00, 0xFF),
        14 => (0x7F, 0x7F, 0x7F),
        15 => (0xD2, 0xD2, 0xD2),
        16 => (0x47, 0x00, 0x00),
        17 => (0x47, 0x21, 0x00),
        18 => (0x47, 0x47, 0x00),
        19 => (0x32, 0x47, 0x00),
        20 => (0x00, 0x47, 0x00),
        21 => (0x00, 0x47, 0x2C),
        22 => (0x00, 0x47, 0x47),
        23 => (0x00, 0x27, 0x47),
        24 => (0x00, 0x00, 0x47),
        25 => (0x2E, 0x00, 0x47),
        26 => (0x47, 0x00, 0x47),
        27 => (0x47, 0x00, 0x2A),
        28 => (0x74, 0x00, 0x00),
        29 => (0x74, 0x3A, 0x00),
        30 => (0x74, 0x74, 0x00),
        31 => (0x51, 0x74, 0x00),
        32 => (0x00, 0x74, 0x00),
        33 => (0x00, 0x74, 0x49),
        34 => (0x00, 0x74, 0x74),
        35 => (0x00, 0x40, 0x74),
        36 => (0x00, 0x00, 0x74),
        37 => (0x4B, 0x00, 0x74),
        38 => (0x74, 0x00, 0x74),
        39 => (0x74, 0x00, 0x45),
        40 => (0xB5, 0x00, 0x00),
        41 => (0xB5, 0x63, 0x00),
        42 => (0xB5, 0xB5, 0x00),
        43 => (0x7D, 0xB5, 0x00),
        44 => (0x00, 0xB5, 0x00),
        45 => (0x00, 0xB5, 0x71),
        46 => (0x00, 0xB5, 0xB5),
        47 => (0x00, 0x63, 0xB5),
        48 => (0x00, 0x00, 0xB5),
        49 => (0x75, 0x00, 0xB5),
        50 => (0xB5, 0x00, 0xB5),
        51 => (0xB5, 0x00, 0x6B),
        52 => (0xFF, 0x00, 0x00),
        53 => (0xFF, 0x8C, 0x00),
        54 => (0xFF, 0xFF, 0x00),
        55 => (0xB2, 0xFF, 0x00),
        56 => (0x00, 0xFF, 0x00),
        57 => (0x00, 0xFF, 0xA0),
        58 => (0x00, 0xFF, 0xFF),
        59 => (0x00, 0x8C, 0xFF),
        60 => (0x00, 0x00, 0xFF),
        61 => (0xA5, 0x00, 0xFF),
        62 => (0xFF, 0x00, 0xFF),
        63 => (0xFF, 0x00, 0x98),
        64 => (0xFF, 0x59, 0x59),
        65 => (0xFF, 0xB4, 0x59),
        66 => (0xFF, 0xFF, 0x71),
        67 => (0xCF, 0xFF, 0x60),
        68 => (0x6F, 0xFF, 0x6F),
        69 => (0x65, 0xFF, 0xC9),
        70 => (0x6D, 0xFF, 0xFF),
        71 => (0x59, 0xB4, 0xFF),
        72 => (0x59, 0x59, 0xFF),
        73 => (0xC4, 0x59, 0xFF),
        74 => (0xFF, 0x66, 0xFF),
        75 => (0xFF, 0x59, 0xBC),
        76 => (0xFF, 0x9C, 0x9C),
        77 => (0xFF, 0xD3, 0x9C),
        78 => (0xFF, 0xFF, 0x9C),
        79 => (0xE2, 0xFF, 0x9C),
        80 => (0x9C, 0xFF, 0x9C),
        81 => (0x9C, 0xFF, 0xDB),
        82 => (0x9C, 0xFF, 0xFF),
        83 => (0x9C, 0xD3, 0xFF),
        84 => (0x9C, 0x9C, 0xFF),
        85 => (0xDC, 0x9C, 0xFF),
        86 => (0xFF, 0x9C, 0xFF),
        87 => (0xFF, 0x94, 0xD3),
        88 => (0x00, 0x00, 0x00),
        89 => (0x13, 0x13, 0x13),
        90 => (0x28, 0x28, 0x28),
        91 => (0x36, 0x36, 0x36),
        92 => (0x4D, 0x4D, 0x4D),
        93 => (0x65, 0x65, 0x65),
        94 => (0x81, 0x81, 0x81),
        95 => (0x9F, 0x9F, 0x9F),
        96 => (0xBC, 0xBC, 0xBC),
        97 => (0xE2, 0xE2, 0xE2),
        _ => (0xFF, 0xFF, 0xFF),
    }
}

} // verus!
