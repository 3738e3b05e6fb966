use crate::fetm::layout::{read_float, read_hex, read_int};
use crate::fetm::entityclasses::character::{lemma_character_prefix_stable, lemma_character_truncation, Character};
use crate::fetm::{Error, TkKind};
use crate::ParseError;
use vstd::prelude::*;

verus! {

/// A `Character` followed by the long run of ability and resource
/// identifiers (mostly checksums) that only the playable character carries.
#[derive(Debug, PartialEq)]
pub struct MainCharacter {
    pub character: Character,
    pub field_0x104: usize,
    pub field_0x10c: usize,
    pub field_0x110: usize,
    pub field_0x118: usize,
    pub field_0x11c: usize,
    pub field_0x124: usize,
    pub field_0x12c: usize,
    pub field_0x134: usize,
    pub field_0x13c: usize,
    pub field_0x144: usize,
    pub field_0x14c: usize,
    pub field_0x154: usize,
    pub field_0x15c: usize,
    pub field_0x164: usize,
    pub field_0x16c: usize,
    pub field_0x174: usize,
    pub field_0x178: usize,
    pub field_0x17c: usize,
    pub field_0x180: usize,
    pub field_0x188: u32,
    pub field_0x18c: usize,
    pub field_0x190: usize,
    pub field_0x191: usize,
    pub field_0x194: usize,
    pub field_0x198: usize,
    pub field_0x19c: usize,
    pub field_0x1ac: usize,
    pub field_0x1b4: usize,
    pub field_0x1bc: usize,
    pub field_0x1c4: usize,
    pub field_0x1cc: usize,
    pub field_0x1d4: usize,
    pub field_0x1dc: usize,
    pub field_0x1e4: usize,
    pub field_0x1e8: usize,
    pub field_0x1f0: usize,
    pub field_0x1f4: usize,
    pub field_0x1fc: usize,
    pub field_0x200: usize,
    pub field_0x208: usize,
    pub field_0x20c: usize,
    pub field_0x214: usize,
    pub field_0x218: usize,
    pub field_0x220: usize,
    pub field_0x228: usize,
    pub field_0x230: usize,
    pub field_0x238: usize,
    pub field_0x240: usize,
    pub field_0x248: usize,
    pub field_0x250: usize,
    pub field_0x258: usize,
    pub field_0x260: usize,
    pub field_0x268: usize,
    pub field_0x270: usize,
    pub field_0x278: usize,
    pub field_0x280: usize,
    pub field_0x288: usize,
    pub field_0x290: usize,
    pub field_0x298: usize,
    pub field_0x2a0: usize,
    pub field_0x2a8: usize,
    pub field_0x2b0: usize,
    pub field_0x2b8: usize,
    pub field_0x2c0: usize,
    pub field_0x2c8: usize,
    pub field_0x2d0: usize,
    pub field_0x2d8: usize,
    pub field_0x2dc: usize,
    pub field_0x2e0: usize,
    pub field_0x2e4: usize,
    pub field_0x2e8: usize,
    pub field_0x2ec: usize,
    pub field_0x2f0: usize,
    pub field_0x2f4: usize,
    pub field_0x2f8: usize,
    pub field_0x2fc: usize,
    pub field_0x300: usize,
    pub field_0x304: usize,
    pub field_0x308: usize,
    pub field_0x30c: usize,
    pub field_0x310: usize,
    pub field_0x318: usize,
    pub field_0x320: usize,
    pub field_0x328: usize,
    pub field_0x330: usize,
    pub field_0x338: usize,
    pub field_0x33c: usize,
    pub field_0x344: usize,
    pub field_0x34c: usize,
    pub field_0x354: usize,
    pub field_0x35c: u32,
    pub field_0x360: usize,
    pub field_0x368: usize,
    pub field_0x370: usize,
    pub field_0x378: usize,
    pub field_0x380: usize,
    pub field_0x388: usize,
    pub field_0x390: usize,
    pub field_0x398: usize,
    pub field_0x3a0: usize,
    pub field_0x3a8: usize,
    pub field_0x3ac: usize,
    pub field_0x3b0: usize,
    pub field_0x3b4: usize,
    pub field_0x3b8: usize,
    pub field_0x3bc: usize,
    pub field_0x3c0: usize,
}

impl MainCharacter {
    /// Number of tokens this record consumes.
    pub const SIZE: usize = 183;

    /// The record fits and every token it reads has the kind it expects.
    pub open spec fn spec_wf(s: Seq<TkKind>) -> bool {
        &&& Character::spec_wf(s)
        &&& s.len() >= 183
        &&& s[76].is_hex_kind()
        &&& s[77].is_int_kind()
        &&& s[78].is_hex_kind()
        &&& s[79].is_int_kind()
        &&& s[80].is_hex_kind()
        &&& s[81].is_hex_kind()
        &&& s[82].is_hex_kind()
        &&& s[83].is_hex_kind()
        &&& s[84].is_hex_kind()
        &&& s[85].is_hex_kind()
        &&& s[86].is_hex_kind()
        &&& s[87].is_hex_kind()
        &&& s[88].is_hex_kind()
        &&& s[89].is_hex_kind()
        &&& s[90].is_hex_kind()
        &&& s[91].is_int_kind()
        &&& s[92].is_hex_kind()
        &&& s[93].is_hex_kind()
        &&& s[94].is_hex_kind()
        &&& s[95].is_float_kind()
        &&& s[96].is_int_kind()
        &&& s[97].is_int_kind()
        &&& s[98].is_int_kind()
        &&& s[99].is_hex_kind()
        &&& s[100].is_hex_kind()
        &&& s[101].is_hex_kind()
        &&& s[102].is_hex_kind()
        &&& s[103].is_hex_kind()
        &&& s[104].is_hex_kind()
        &&& s[105].is_hex_kind()
        &&& s[106].is_hex_kind()
        &&& s[107].is_hex_kind()
        &&& s[108].is_hex_kind()
        &&& s[109].is_int_kind()
        &&& s[110].is_hex_kind()
        &&& s[111].is_int_kind()
        &&& s[112].is_hex_kind()
        &&& s[113].is_int_kind()
        &&& s[114].is_hex_kind()
        &&& s[115].is_int_kind()
        &&& s[116].is_hex_kind()
        &&& s[117].is_int_kind()
        &&& s[118].is_hex_kind()
        &&& s[119].is_hex_kind()
        &&& s[120].is_hex_kind()
        &&& s[121].is_hex_kind()
        &&& s[122].is_hex_kind()
        &&& s[123].is_hex_kind()
        &&& s[124].is_hex_kind()
        &&& s[125].is_hex_kind()
        &&& s[126].is_hex_kind()
        &&& s[127].is_hex_kind()
        &&& s[128].is_hex_kind()
        &&& s[129].is_hex_kind()
        &&& s[130].is_hex_kind()
        &&& s[131].is_hex_kind()
        &&& s[132].is_hex_kind()
        &&& s[133].is_hex_kind()
        &&& s[134].is_hex_kind()
        &&& s[135].is_hex_kind()
        &&& s[136].is_hex_kind()
        &&& s[137].is_hex_kind()
        &&& s[138].is_hex_kind()
        &&& s[139].is_hex_kind()
        &&& s[140].is_hex_kind()
        &&& s[141].is_hex_kind()
        &&& s[142].is_hex_kind()
        &&& s[143].is_hex_kind()
        &&& s[144].is_hex_kind()
        &&& s[145].is_hex_kind()
        &&& s[146].is_hex_kind()
        &&& s[147].is_hex_kind()
        &&& s[148].is_hex_kind()
        &&& s[149].is_hex_kind()
        &&& s[150].is_hex_kind()
        &&& s[151].is_hex_kind()
        &&& s[152].is_hex_kind()
        &&& s[153].is_hex_kind()
        &&& s[154].is_hex_kind()
        &&& s[155].is_hex_kind()
        &&& s[156].is_hex_kind()
        &&& s[157].is_hex_kind()
        &&& s[158].is_hex_kind()
        &&& s[159].is_hex_kind()
        &&& s[160].is_hex_kind()
        &&& s[161].is_int_kind()
        &&& s[162].is_hex_kind()
        &&& s[163].is_hex_kind()
        &&& s[164].is_hex_kind()
        &&& s[165].is_hex_kind()
        &&& s[166].is_float_kind()
        &&& s[167].is_hex_kind()
        &&& s[168].is_hex_kind()
        &&& s[169].is_hex_kind()
        &&& s[170].is_hex_kind()
        &&& s[171].is_hex_kind()
        &&& s[172].is_hex_kind()
        &&& s[173].is_hex_kind()
        &&& s[174].is_hex_kind()
        &&& s[175].is_hex_kind()
        &&& s[176].is_int_kind()
        &&& s[177].is_hex_kind()
        &&& s[178].is_hex_kind()
        &&& s[179].is_int_kind()
        &&& s[180].is_hex_kind()
        &&& s[181].is_hex_kind()
        &&& s[182].is_int_kind()
    }

    /// Kind correctness of however much of the record is present.
    pub open spec fn spec_prefix_ok(s: Seq<TkKind>) -> bool {
        &&& Character::spec_prefix_ok(s)
        &&& (76 < s.len() ==> s[76].is_hex_kind())
        &&& (77 < s.len() ==> s[77].is_int_kind())
        &&& (78 < s.len() ==> s[78].is_hex_kind())
        &&& (79 < s.len() ==> s[79].is_int_kind())
        &&& (80 < s.len() ==> s[80].is_hex_kind())
        &&& (81 < s.len() ==> s[81].is_hex_kind())
        &&& (82 < s.len() ==> s[82].is_hex_kind())
        &&& (83 < s.len() ==> s[83].is_hex_kind())
        &&& (84 < s.len() ==> s[84].is_hex_kind())
        &&& (85 < s.len() ==> s[85].is_hex_kind())
        &&& (86 < s.len() ==> s[86].is_hex_kind())
        &&& (87 < s.len() ==> s[87].is_hex_kind())
        &&& (88 < s.len() ==> s[88].is_hex_kind())
        &&& (89 < s.len() ==> s[89].is_hex_kind())
        &&& (90 < s.len() ==> s[90].is_hex_kind())
        &&& (91 < s.len() ==> s[91].is_int_kind())
        &&& (92 < s.len() ==> s[92].is_hex_kind())
        &&& (93 < s.len() ==> s[93].is_hex_kind())
        &&& (94 < s.len() ==> s[94].is_hex_kind())
        &&& (95 < s.len() ==> s[95].is_float_kind())
        &&& (96 < s.len() ==> s[96].is_int_kind())
        &&& (97 < s.len() ==> s[97].is_int_kind())
        &&& (98 < s.len() ==> s[98].is_int_kind())
        &&& (99 < s.len() ==> s[99].is_hex_kind())
        &&& (100 < s.len() ==> s[100].is_hex_kind())
        &&& (101 < s.len() ==> s[101].is_hex_kind())
        &&& (102 < s.len() ==> s[102].is_hex_kind())
        &&& (103 < s.len() ==> s[103].is_hex_kind())
        &&& (104 < s.len() ==> s[104].is_hex_kind())
        &&& (105 < s.len() ==> s[105].is_hex_kind())
        &&& (106 < s.len() ==> s[106].is_hex_kind())
        &&& (107 < s.len() ==> s[107].is_hex_kind())
        &&& (108 < s.len() ==> s[108].is_hex_kind())
        &&& (109 < s.len() ==> s[109].is_int_kind())
        &&& (110 < s.len() ==> s[110].is_hex_kind())
        &&& (111 < s.len() ==> s[111].is_int_kind())
        &&& (112 < s.len() ==> s[112].is_hex_kind())
        &&& (113 < s.len() ==> s[113].is_int_kind())
        &&& (114 < s.len() ==> s[114].is_hex_kind())
        &&& (115 < s.len() ==> s[115].is_int_kind())
        &&& (116 < s.len() ==> s[116].is_hex_kind())
        &&& (117 < s.len() ==> s[117].is_int_kind())
        &&& (118 < s.len() ==> s[118].is_hex_kind())
        &&& (119 < s.len() ==> s[119].is_hex_kind())
        &&& (120 < s.len() ==> s[120].is_hex_kind())
        &&& (121 < s.len() ==> s[121].is_hex_kind())
        &&& (122 < s.len() ==> s[122].is_hex_kind())
        &&& (123 < s.len() ==> s[123].is_hex_kind())
        &&& (124 < s.len() ==> s[124].is_hex_kind())
        &&& (125 < s.len() ==> s[125].is_hex_kind())
        &&& (126 < s.len() ==> s[126].is_hex_kind())
        &&& (127 < s.len() ==> s[127].is_hex_kind())
        &&& (128 < s.len() ==> s[128].is_hex_kind())
        &&& (129 < s.len() ==> s[129].is_hex_kind())
        &&& (130 < s.len() ==> s[130].is_hex_kind())
        &&& (131 < s.len() ==> s[131].is_hex_kind())
        &&& (132 < s.len() ==> s[132].is_hex_kind())
        &&& (133 < s.len() ==> s[133].is_hex_kind())
        &&& (134 < s.len() ==> s[134].is_hex_kind())
        &&& (135 < s.len() ==> s[135].is_hex_kind())
        &&& (136 < s.len() ==> s[136].is_hex_kind())
        &&& (137 < s.len() ==> s[137].is_hex_kind())
        &&& (138 < s.len() ==> s[138].is_hex_kind())
        &&& (139 < s.len() ==> s[139].is_hex_kind())
        &&& (140 < s.len() ==> s[140].is_hex_kind())
        &&& (141 < s.len() ==> s[141].is_hex_kind())
        &&& (142 < s.len() ==> s[142].is_hex_kind())
        &&& (143 < s.len() ==> s[143].is_hex_kind())
        &&& (144 < s.len() ==> s[144].is_hex_kind())
        &&& (145 < s.len() ==> s[145].is_hex_kind())
        &&& (146 < s.len() ==> s[146].is_hex_kind())
        &&& (147 < s.len() ==> s[147].is_hex_kind())
        &&& (148 < s.len() ==> s[148].is_hex_kind())
        &&& (149 < s.len() ==> s[149].is_hex_kind())
        &&& (150 < s.len() ==> s[150].is_hex_kind())
        &&& (151 < s.len() ==> s[151].is_hex_kind())
        &&& (152 < s.len() ==> s[152].is_hex_kind())
        &&& (153 < s.len() ==> s[153].is_hex_kind())
        &&& (154 < s.len() ==> s[154].is_hex_kind())
        &&& (155 < s.len() ==> s[155].is_hex_kind())
        &&& (156 < s.len() ==> s[156].is_hex_kind())
        &&& (157 < s.len() ==> s[157].is_hex_kind())
        &&& (158 < s.len() ==> s[158].is_hex_kind())
        &&& (159 < s.len() ==> s[159].is_hex_kind())
        &&& (160 < s.len() ==> s[160].is_hex_kind())
        &&& (161 < s.len() ==> s[161].is_int_kind())
        &&& (162 < s.len() ==> s[162].is_hex_kind())
        &&& (163 < s.len() ==> s[163].is_hex_kind())
        &&& (164 < s.len() ==> s[164].is_hex_kind())
        &&& (165 < s.len() ==> s[165].is_hex_kind())
        &&& (166 < s.len() ==> s[166].is_float_kind())
        &&& (167 < s.len() ==> s[167].is_hex_kind())
        &&& (168 < s.len() ==> s[168].is_hex_kind())
        &&& (169 < s.len() ==> s[169].is_hex_kind())
        &&& (170 < s.len() ==> s[170].is_hex_kind())
        &&& (171 < s.len() ==> s[171].is_hex_kind())
        &&& (172 < s.len() ==> s[172].is_hex_kind())
        &&& (173 < s.len() ==> s[173].is_hex_kind())
        &&& (174 < s.len() ==> s[174].is_hex_kind())
        &&& (175 < s.len() ==> s[175].is_hex_kind())
        &&& (176 < s.len() ==> s[176].is_int_kind())
        &&& (177 < s.len() ==> s[177].is_hex_kind())
        &&& (178 < s.len() ==> s[178].is_hex_kind())
        &&& (179 < s.len() ==> s[179].is_int_kind())
        &&& (180 < s.len() ==> s[180].is_hex_kind())
        &&& (181 < s.len() ==> s[181].is_hex_kind())
        &&& (182 < s.len() ==> s[182].is_int_kind())
    }

    /// The decoded record.
    pub open spec fn spec_value(s: Seq<TkKind>) -> MainCharacter
        recommends
            Self::spec_wf(s),
    {
        (MainCharacter {
            character: Character::spec_value(s),
            field_0x104: s[76].spec_hex(),
            field_0x10c: s[77].spec_int(),
            field_0x110: s[78].spec_hex(),
            field_0x118: s[79].spec_int(),
            field_0x11c: s[80].spec_hex(),
            field_0x124: s[81].spec_hex(),
            field_0x12c: s[82].spec_hex(),
            field_0x134: s[83].spec_hex(),
            field_0x13c: s[84].spec_hex(),
            field_0x144: s[85].spec_hex(),
            field_0x14c: s[86].spec_hex(),
            field_0x154: s[87].spec_hex(),
            field_0x15c: s[88].spec_hex(),
            field_0x164: s[89].spec_hex(),
            field_0x16c: s[90].spec_hex(),
            field_0x174: s[91].spec_int(),
            field_0x178: s[92].spec_hex(),
            field_0x17c: s[93].spec_hex(),
            field_0x180: s[94].spec_hex(),
            field_0x188: s[95].spec_float_bits(),
            field_0x18c: s[96].spec_int(),
            field_0x190: s[97].spec_int(),
            field_0x191: s[98].spec_int(),
            field_0x194: s[99].spec_hex(),
            field_0x198: s[100].spec_hex(),
            field_0x19c: s[101].spec_hex(),
            field_0x1ac: s[102].spec_hex(),
            field_0x1b4: s[103].spec_hex(),
            field_0x1bc: s[104].spec_hex(),
            field_0x1c4: s[105].spec_hex(),
            field_0x1cc: s[106].spec_hex(),
            field_0x1d4: s[107].spec_hex(),
            field_0x1dc: s[108].spec_hex(),
            field_0x1e4: s[109].spec_int(),
            field_0x1e8: s[110].spec_hex(),
            field_0x1f0: s[111].spec_int(),
            field_0x1f4: s[112].spec_hex(),
            field_0x1fc: s[113].spec_int(),
            field_0x200: s[114].spec_hex(),
            field_0x208: s[115].spec_int(),
            field_0x20c: s[116].spec_hex(),
            field_0x214: s[117].spec_int(),
            field_0x218: s[118].spec_hex(),
            field_0x220: s[119].spec_hex(),
            field_0x228: s[120].spec_hex(),
            field_0x230: s[121].spec_hex(),
            field_0x238: s[122].spec_hex(),
            field_0x240: s[123].spec_hex(),
            field_0x248: s[124].spec_hex(),
            field_0x250: s[125].spec_hex(),
            field_0x258: s[126].spec_hex(),
            field_0x260: s[127].spec_hex(),
            field_0x268: s[128].spec_hex(),
            field_0x270: s[129].spec_hex(),
            field_0x278: s[130].spec_hex(),
            field_0x280: s[131].spec_hex(),
            field_0x288: s[132].spec_hex(),
            field_0x290: s[133].spec_hex(),
            field_0x298: s[134].spec_hex(),
            field_0x2a0: s[135].spec_hex(),
            field_0x2a8: s[136].spec_hex(),
            field_0x2b0: s[137].spec_hex(),
            field_0x2b8: s[138].spec_hex(),
            field_0x2c0: s[139].spec_hex(),
            field_0x2c8: s[140].spec_hex(),
            field_0x2d0: s[141].spec_hex(),
            field_0x2d8: s[142].spec_hex(),
            field_0x2dc: s[143].spec_hex(),
            field_0x2e0: s[144].spec_hex(),
            field_0x2e4: s[145].spec_hex(),
            field_0x2e8: s[146].spec_hex(),
            field_0x2ec: s[147].spec_hex(),
            field_0x2f0: s[148].spec_hex(),
            field_0x2f4: s[149].spec_hex(),
            field_0x2f8: s[150].spec_hex(),
            field_0x2fc: s[151].spec_hex(),
            field_0x300: s[152].spec_hex(),
            field_0x304: s[153].spec_hex(),
            field_0x308: s[154].spec_hex(),
            field_0x30c: s[155].spec_hex(),
            field_0x310: s[156].spec_hex(),
            field_0x318: s[157].spec_hex(),
            field_0x320: s[158].spec_hex(),
            field_0x328: s[159].spec_hex(),
            field_0x330: s[160].spec_hex(),
            field_0x338: s[161].spec_int(),
            field_0x33c: s[162].spec_hex(),
            field_0x344: s[163].spec_hex(),
            field_0x34c: s[164].spec_hex(),
            field_0x354: s[165].spec_hex(),
            field_0x35c: s[166].spec_float_bits(),
            field_0x360: s[167].spec_hex(),
            field_0x368: s[168].spec_hex(),
            field_0x370: s[169].spec_hex(),
            field_0x378: s[170].spec_hex(),
            field_0x380: s[171].spec_hex(),
            field_0x388: s[172].spec_hex(),
            field_0x390: s[173].spec_hex(),
            field_0x398: s[174].spec_hex(),
            field_0x3a0: s[175].spec_hex(),
            field_0x3a8: s[176].spec_int(),
            field_0x3ac: s[177].spec_hex(),
            field_0x3b0: s[178].spec_hex(),
            field_0x3b4: s[179].spec_int(),
            field_0x3b8: s[180].spec_hex(),
            field_0x3bc: s[181].spec_hex(),
            field_0x3c0: s[182].spec_int(),
        })
    }

    /// What decoding yields on any token slice: the first failing read
    /// in index order classifies the error.
    pub open spec fn spec_decode(s: Seq<TkKind>) -> Result<MainCharacter, Error> {
        match Character::spec_decode(s) {
            Err(e) => Err(e),
            Ok(_) => Self::spec_decode_tail(s),
        }
    }

    /// Decode of the fields this record adds past its base.
    pub open spec fn spec_decode_tail(s: Seq<TkKind>) -> Result<MainCharacter, Error> {
        if !((76 < s.len() ==> s[76].is_hex_kind()) && (77 < s.len() ==> s[77].is_int_kind()) && (78 < s.len() ==> s[78].is_hex_kind()) && (79 < s.len() ==> s[79].is_int_kind()) && (80 < s.len() ==> s[80].is_hex_kind()) && (81 < s.len() ==> s[81].is_hex_kind()) && (82 < s.len() ==> s[82].is_hex_kind()) && (83 < s.len() ==> s[83].is_hex_kind()) && (84 < s.len() ==> s[84].is_hex_kind()) && (85 < s.len() ==> s[85].is_hex_kind()) && (86 < s.len() ==> s[86].is_hex_kind()) && (87 < s.len() ==> s[87].is_hex_kind()) && (88 < s.len() ==> s[88].is_hex_kind()) && (89 < s.len() ==> s[89].is_hex_kind()) && (90 < s.len() ==> s[90].is_hex_kind()) && (91 < s.len() ==> s[91].is_int_kind()) && (92 < s.len() ==> s[92].is_hex_kind()) && (93 < s.len() ==> s[93].is_hex_kind()) && (94 < s.len() ==> s[94].is_hex_kind()) && (95 < s.len() ==> s[95].is_float_kind()) && (96 < s.len() ==> s[96].is_int_kind()) && (97 < s.len() ==> s[97].is_int_kind()) && (98 < s.len() ==> s[98].is_int_kind()) && (99 < s.len() ==> s[99].is_hex_kind()) && (100 < s.len() ==> s[100].is_hex_kind()) && (101 < s.len() ==> s[101].is_hex_kind()) && (102 < s.len() ==> s[102].is_hex_kind()) && (103 < s.len() ==> s[103].is_hex_kind()) && (104 < s.len() ==> s[104].is_hex_kind()) && (105 < s.len() ==> s[105].is_hex_kind()) && (106 < s.len() ==> s[106].is_hex_kind()) && (107 < s.len() ==> s[107].is_hex_kind()) && (108 < s.len() ==> s[108].is_hex_kind()) && (109 < s.len() ==> s[109].is_int_kind()) && (110 < s.len() ==> s[110].is_hex_kind()) && (111 < s.len() ==> s[111].is_int_kind()) && (112 < s.len() ==> s[112].is_hex_kind()) && (113 < s.len() ==> s[113].is_int_kind()) && (114 < s.len() ==> s[114].is_hex_kind()) && (115 < s.len() ==> s[115].is_int_kind()) && (116 < s.len() ==> s[116].is_hex_kind()) && (117 < s.len() ==> s[117].is_int_kind()) && (118 < s.len() ==> s[118].is_hex_kind()) && (119 < s.len() ==> s[119].is_hex_kind()) && (120 < s.len() ==> s[120].is_hex_kind()) && (121 < s.len() ==> s[121].is_hex_kind()) && (122 < s.len() ==> s[122].is_hex_kind()) && (123 < s.len() ==> s[123].is_hex_kind()) && (124 < s.len() ==> s[124].is_hex_kind()) && (125 < s.len() ==> s[125].is_hex_kind()) && (126 < s.len() ==> s[126].is_hex_kind()) && (127 < s.len() ==> s[127].is_hex_kind()) && (128 < s.len() ==> s[128].is_hex_kind()) && (129 < s.len() ==> s[129].is_hex_kind()) && (130 < s.len() ==> s[130].is_hex_kind()) && (131 < s.len() ==> s[131].is_hex_kind()) && (132 < s.len() ==> s[132].is_hex_kind()) && (133 < s.len() ==> s[133].is_hex_kind()) && (134 < s.len() ==> s[134].is_hex_kind()) && (135 < s.len() ==> s[135].is_hex_kind()) && (136 < s.len() ==> s[136].is_hex_kind()) && (137 < s.len() ==> s[137].is_hex_kind()) && (138 < s.len() ==> s[138].is_hex_kind()) && (139 < s.len() ==> s[139].is_hex_kind()) && (140 < s.len() ==> s[140].is_hex_kind()) && (141 < s.len() ==> s[141].is_hex_kind()) && (142 < s.len() ==> s[142].is_hex_kind()) && (143 < s.len() ==> s[143].is_hex_kind()) && (144 < s.len() ==> s[144].is_hex_kind()) && (145 < s.len() ==> s[145].is_hex_kind()) && (146 < s.len() ==> s[146].is_hex_kind()) && (147 < s.len() ==> s[147].is_hex_kind()) && (148 < s.len() ==> s[148].is_hex_kind()) && (149 < s.len() ==> s[149].is_hex_kind()) && (150 < s.len() ==> s[150].is_hex_kind()) && (151 < s.len() ==> s[151].is_hex_kind()) && (152 < s.len() ==> s[152].is_hex_kind()) && (153 < s.len() ==> s[153].is_hex_kind()) && (154 < s.len() ==> s[154].is_hex_kind()) && (155 < s.len() ==> s[155].is_hex_kind()) && (156 < s.len() ==> s[156].is_hex_kind()) && (157 < s.len() ==> s[157].is_hex_kind()) && (158 < s.len() ==> s[158].is_hex_kind()) && (159 < s.len() ==> s[159].is_hex_kind()) && (160 < s.len() ==> s[160].is_hex_kind()) && (161 < s.len() ==> s[161].is_int_kind()) && (162 < s.len() ==> s[162].is_hex_kind()) && (163 < s.len() ==> s[163].is_hex_kind()) && (164 < s.len() ==> s[164].is_hex_kind()) && (165 < s.len() ==> s[165].is_hex_kind()) && (166 < s.len() ==> s[166].is_float_kind()) && (167 < s.len() ==> s[167].is_hex_kind()) && (168 < s.len() ==> s[168].is_hex_kind()) && (169 < s.len() ==> s[169].is_hex_kind()) && (170 < s.len() ==> s[170].is_hex_kind()) && (171 < s.len() ==> s[171].is_hex_kind()) && (172 < s.len() ==> s[172].is_hex_kind()) && (173 < s.len() ==> s[173].is_hex_kind()) && (174 < s.len() ==> s[174].is_hex_kind()) && (175 < s.len() ==> s[175].is_hex_kind()) && (176 < s.len() ==> s[176].is_int_kind()) && (177 < s.len() ==> s[177].is_hex_kind()) && (178 < s.len() ==> s[178].is_hex_kind()) && (179 < s.len() ==> s[179].is_int_kind()) && (180 < s.len() ==> s[180].is_hex_kind()) && (181 < s.len() ==> s[181].is_hex_kind()) && (182 < s.len() ==> s[182].is_int_kind())) {
            Err(Error::InvalidTokenKind)
        } else if !(s.len() >= 183 && s[76].is_hex_kind() && s[77].is_int_kind() && s[78].is_hex_kind() && s[79].is_int_kind() && s[80].is_hex_kind() && s[81].is_hex_kind() && s[82].is_hex_kind() && s[83].is_hex_kind() && s[84].is_hex_kind() && s[85].is_hex_kind() && s[86].is_hex_kind() && s[87].is_hex_kind() && s[88].is_hex_kind() && s[89].is_hex_kind() && s[90].is_hex_kind() && s[91].is_int_kind() && s[92].is_hex_kind() && s[93].is_hex_kind() && s[94].is_hex_kind() && s[95].is_float_kind() && s[96].is_int_kind() && s[97].is_int_kind() && s[98].is_int_kind() && s[99].is_hex_kind() && s[100].is_hex_kind() && s[101].is_hex_kind() && s[102].is_hex_kind() && s[103].is_hex_kind() && s[104].is_hex_kind() && s[105].is_hex_kind() && s[106].is_hex_kind() && s[107].is_hex_kind() && s[108].is_hex_kind() && s[109].is_int_kind() && s[110].is_hex_kind() && s[111].is_int_kind() && s[112].is_hex_kind() && s[113].is_int_kind() && s[114].is_hex_kind() && s[115].is_int_kind() && s[116].is_hex_kind() && s[117].is_int_kind() && s[118].is_hex_kind() && s[119].is_hex_kind() && s[120].is_hex_kind() && s[121].is_hex_kind() && s[122].is_hex_kind() && s[123].is_hex_kind() && s[124].is_hex_kind() && s[125].is_hex_kind() && s[126].is_hex_kind() && s[127].is_hex_kind() && s[128].is_hex_kind() && s[129].is_hex_kind() && s[130].is_hex_kind() && s[131].is_hex_kind() && s[132].is_hex_kind() && s[133].is_hex_kind() && s[134].is_hex_kind() && s[135].is_hex_kind() && s[136].is_hex_kind() && s[137].is_hex_kind() && s[138].is_hex_kind() && s[139].is_hex_kind() && s[140].is_hex_kind() && s[141].is_hex_kind() && s[142].is_hex_kind() && s[143].is_hex_kind() && s[144].is_hex_kind() && s[145].is_hex_kind() && s[146].is_hex_kind() && s[147].is_hex_kind() && s[148].is_hex_kind() && s[149].is_hex_kind() && s[150].is_hex_kind() && s[151].is_hex_kind() && s[152].is_hex_kind() && s[153].is_hex_kind() && s[154].is_hex_kind() && s[155].is_hex_kind() && s[156].is_hex_kind() && s[157].is_hex_kind() && s[158].is_hex_kind() && s[159].is_hex_kind() && s[160].is_hex_kind() && s[161].is_int_kind() && s[162].is_hex_kind() && s[163].is_hex_kind() && s[164].is_hex_kind() && s[165].is_hex_kind() && s[166].is_float_kind() && s[167].is_hex_kind() && s[168].is_hex_kind() && s[169].is_hex_kind() && s[170].is_hex_kind() && s[171].is_hex_kind() && s[172].is_hex_kind() && s[173].is_hex_kind() && s[174].is_hex_kind() && s[175].is_hex_kind() && s[176].is_int_kind() && s[177].is_hex_kind() && s[178].is_hex_kind() && s[179].is_int_kind() && s[180].is_hex_kind() && s[181].is_hex_kind() && s[182].is_int_kind()) {
            Err(Error::ParseError(ParseError::UnexpectedEnd))
        } else {
            Ok(Self::spec_value(s))
        }
    }

    /// Decodes the record from the front of `tokens`, reading each field
    /// at its fixed position; exactly `spec_decode` of the tokens.
    pub fn from_tokens(tokens: &[TkKind]) -> (r: Result<Self, Error>)
        ensures
            r == Self::spec_decode(tokens@),
    {
        let character = Character::from_tokens(tokens)?;
        let field_0x104 = read_hex(tokens, 76)?;
        let field_0x10c = read_int(tokens, 77)?;
        let field_0x110 = read_hex(tokens, 78)?;
        let field_0x118 = read_int(tokens, 79)?;
        let field_0x11c = read_hex(tokens, 80)?;
        let field_0x124 = read_hex(tokens, 81)?;
        let field_0x12c = read_hex(tokens, 82)?;
        let field_0x134 = read_hex(tokens, 83)?;
        let field_0x13c = read_hex(tokens, 84)?;
        let field_0x144 = read_hex(tokens, 85)?;
        let field_0x14c = read_hex(tokens, 86)?;
        let field_0x154 = read_hex(tokens, 87)?;
        let field_0x15c = read_hex(tokens, 88)?;
        let field_0x164 = read_hex(tokens, 89)?;
        let field_0x16c = read_hex(tokens, 90)?;
        let field_0x174 = read_int(tokens, 91)?;
        let field_0x178 = read_hex(tokens, 92)?;
        let field_0x17c = read_hex(tokens, 93)?;
        let field_0x180 = read_hex(tokens, 94)?;
        let field_0x188 = read_float(tokens, 95)?;
        let field_0x18c = read_int(tokens, 96)?;
        let field_0x190 = read_int(tokens, 97)?;
        let field_0x191 = read_int(tokens, 98)?;
        let field_0x194 = read_hex(tokens, 99)?;
        let field_0x198 = read_hex(tokens, 100)?;
        let field_0x19c = read_hex(tokens, 101)?;
        let field_0x1ac = read_hex(tokens, 102)?;
        let field_0x1b4 = read_hex(tokens, 103)?;
        let field_0x1bc = read_hex(tokens, 104)?;
        let field_0x1c4 = read_hex(tokens, 105)?;
        let field_0x1cc = read_hex(tokens, 106)?;
        let field_0x1d4 = read_hex(tokens, 107)?;
        let field_0x1dc = read_hex(tokens, 108)?;
        let field_0x1e4 = read_int(tokens, 109)?;
        let field_0x1e8 = read_hex(tokens, 110)?;
        let field_0x1f0 = read_int(tokens, 111)?;
        let field_0x1f4 = read_hex(tokens, 112)?;
        let field_0x1fc = read_int(tokens, 113)?;
        let field_0x200 = read_hex(tokens, 114)?;
        let field_0x208 = read_int(tokens, 115)?;
        let field_0x20c = read_hex(tokens, 116)?;
        let field_0x214 = read_int(tokens, 117)?;
        let field_0x218 = read_hex(tokens, 118)?;
        let field_0x220 = read_hex(tokens, 119)?;
        let field_0x228 = read_hex(tokens, 120)?;
        let field_0x230 = read_hex(tokens, 121)?;
        let field_0x238 = read_hex(tokens, 122)?;
        let field_0x240 = read_hex(tokens, 123)?;
        let field_0x248 = read_hex(tokens, 124)?;
        let field_0x250 = read_hex(tokens, 125)?;
        let field_0x258 = read_hex(tokens, 126)?;
        let field_0x260 = read_hex(tokens, 127)?;
        let field_0x268 = read_hex(tokens, 128)?;
        let field_0x270 = read_hex(tokens, 129)?;
        let field_0x278 = read_hex(tokens, 130)?;
        let field_0x280 = read_hex(tokens, 131)?;
        let field_0x288 = read_hex(tokens, 132)?;
        let field_0x290 = read_hex(tokens, 133)?;
        let field_0x298 = read_hex(tokens, 134)?;
        let field_0x2a0 = read_hex(tokens, 135)?;
        let field_0x2a8 = read_hex(tokens, 136)?;
        let field_0x2b0 = read_hex(tokens, 137)?;
        let field_0x2b8 = read_hex(tokens, 138)?;
        let field_0x2c0 = read_hex(tokens, 139)?;
        let field_0x2c8 = read_hex(tokens, 140)?;
        let field_0x2d0 = read_hex(tokens, 141)?;
        let field_0x2d8 = read_hex(tokens, 142)?;
        let field_0x2dc = read_hex(tokens, 143)?;
        let field_0x2e0 = read_hex(tokens, 144)?;
        let field_0x2e4 = read_hex(tokens, 145)?;
        let field_0x2e8 = read_hex(tokens, 146)?;
        let field_0x2ec = read_hex(tokens, 147)?;
        let field_0x2f0 = read_hex(tokens, 148)?;
        let field_0x2f4 = read_hex(tokens, 149)?;
        let field_0x2f8 = read_hex(tokens, 150)?;
        let field_0x2fc = read_hex(tokens, 151)?;
        let field_0x300 = read_hex(tokens, 152)?;
        let field_0x304 = read_hex(tokens, 153)?;
        let field_0x308 = read_hex(tokens, 154)?;
        let field_0x30c = read_hex(tokens, 155)?;
        let field_0x310 = read_hex(tokens, 156)?;
        let field_0x318 = read_hex(tokens, 157)?;
        let field_0x320 = read_hex(tokens, 158)?;
        let field_0x328 = read_hex(tokens, 159)?;
        let field_0x330 = read_hex(tokens, 160)?;
        let field_0x338 = read_int(tokens, 161)?;
        let field_0x33c = read_hex(tokens, 162)?;
        let field_0x344 = read_hex(tokens, 163)?;
        let field_0x34c = read_hex(tokens, 164)?;
        let field_0x354 = read_hex(tokens, 165)?;
        let field_0x35c = read_float(tokens, 166)?;
        let field_0x360 = read_hex(tokens, 167)?;
        let field_0x368 = read_hex(tokens, 168)?;
        let field_0x370 = read_hex(tokens, 169)?;
        let field_0x378 = read_hex(tokens, 170)?;
        let field_0x380 = read_hex(tokens, 171)?;
        let field_0x388 = read_hex(tokens, 172)?;
        let field_0x390 = read_hex(tokens, 173)?;
        let field_0x398 = read_hex(tokens, 174)?;
        let field_0x3a0 = read_hex(tokens, 175)?;
        let field_0x3a8 = read_int(tokens, 176)?;
        let field_0x3ac = read_hex(tokens, 177)?;
        let field_0x3b0 = read_hex(tokens, 178)?;
        let field_0x3b4 = read_int(tokens, 179)?;
        let field_0x3b8 = read_hex(tokens, 180)?;
        let field_0x3bc = read_hex(tokens, 181)?;
        let field_0x3c0 = read_int(tokens, 182)?;
        Ok(MainCharacter {
            character,
            field_0x104,
            field_0x10c,
            field_0x110,
            field_0x118,
            field_0x11c,
            field_0x124,
            field_0x12c,
            field_0x134,
            field_0x13c,
            field_0x144,
            field_0x14c,
            field_0x154,
            field_0x15c,
            field_0x164,
            field_0x16c,
            field_0x174,
            field_0x178,
            field_0x17c,
            field_0x180,
            field_0x188,
            field_0x18c,
            field_0x190,
            field_0x191,
            field_0x194,
            field_0x198,
            field_0x19c,
            field_0x1ac,
            field_0x1b4,
            field_0x1bc,
            field_0x1c4,
            field_0x1cc,
            field_0x1d4,
            field_0x1dc,
            field_0x1e4,
            field_0x1e8,
            field_0x1f0,
            field_0x1f4,
            field_0x1fc,
            field_0x200,
            field_0x208,
            field_0x20c,
            field_0x214,
            field_0x218,
            field_0x220,
            field_0x228,
            field_0x230,
            field_0x238,
            field_0x240,
            field_0x248,
            field_0x250,
            field_0x258,
            field_0x260,
            field_0x268,
            field_0x270,
            field_0x278,
            field_0x280,
            field_0x288,
            field_0x290,
            field_0x298,
            field_0x2a0,
            field_0x2a8,
            field_0x2b0,
            field_0x2b8,
            field_0x2c0,
            field_0x2c8,
            field_0x2d0,
            field_0x2d8,
            field_0x2dc,
            field_0x2e0,
            field_0x2e4,
            field_0x2e8,
            field_0x2ec,
            field_0x2f0,
            field_0x2f4,
            field_0x2f8,
            field_0x2fc,
            field_0x300,
            field_0x304,
            field_0x308,
            field_0x30c,
            field_0x310,
            field_0x318,
            field_0x320,
            field_0x328,
            field_0x330,
            field_0x338,
            field_0x33c,
            field_0x344,
            field_0x34c,
            field_0x354,
            field_0x35c,
            field_0x360,
            field_0x368,
            field_0x370,
            field_0x378,
            field_0x380,
            field_0x388,
            field_0x390,
            field_0x398,
            field_0x3a0,
            field_0x3a8,
            field_0x3ac,
            field_0x3b0,
            field_0x3b4,
            field_0x3b8,
            field_0x3bc,
            field_0x3c0,
        })
    }
}

/// The record reads only its own span: decoding ignores everything past
/// the first `MainCharacter::SIZE` tokens.
pub proof fn lemma_main_character_prefix_stable(s: Seq<TkKind>, k: int)
    requires
        MainCharacter::SIZE <= k <= s.len(),
    ensures
        MainCharacter::spec_decode(s.take(k)) == MainCharacter::spec_decode(s),
{
    let t = s.take(k);
    assert(forall|i: int| 0 <= i < k ==> t[i] == s[i]);
    lemma_character_prefix_stable(s, k);
    if Character::spec_decode(s) is Ok {
        assert(MainCharacter::spec_decode_tail(t) == MainCharacter::spec_decode_tail(s)) by {
            if MainCharacter::spec_decode_tail(s) is Ok {
                assert(MainCharacter::spec_value(t) == MainCharacter::spec_value(s));
            }
        }
    }
}

/// Truncation safety: a strict prefix of a decodable record fails with
/// `UnexpectedEnd`, never anything else.
pub proof fn lemma_main_character_truncation(s: Seq<TkKind>, k: int)
    requires
        MainCharacter::spec_decode(s) is Ok,
        0 <= k < MainCharacter::SIZE,
    ensures
        MainCharacter::spec_decode(s.take(k)) == Err::<MainCharacter, Error>(
            Error::ParseError(ParseError::UnexpectedEnd),
        ),
{
    let t = s.take(k);
    assert(forall|i: int| 0 <= i < k ==> t[i] == s[i]);
    if k < Character::SIZE {
        lemma_character_truncation(s, k);
    } else {
        lemma_character_prefix_stable(s, k);
    }
}
} // verus!
