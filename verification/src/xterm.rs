//! The 256-colour extended palette.
//!
//! Each palette entry is a distinct colour with a descriptive name and a
//! fixed index between 0 and 255. The escape sequences address the entry by
//! index alone: `ESC[38;5;<index>m` for the foreground and
//! `ESC[48;5;<index>m` for the background, with the index written in decimal
//! and no padding. The name-to-index mapping is a bijection: every index has
//! exactly one entry.

use vstd::prelude::*;
use crate::color::Color;
use crate::escape::{dec, push_csi, push_decimal, push_digit, push_semicolon, push_sgr_end, sgr};

verus! {

/// A colour of the 256-entry extended palette, one variant per index.
#[derive(Clone, Copy, PartialEq, Eq, Structural, Debug)]
pub enum XtermColor {
    Black,
    Maroon,
    JapaneseLaurel,
    Olive,
    NavyBlue,
    FreshEggplant,
    Teal,
    Silver,
    Gray,
    Red,
    Green,
    Yellow,
    Blue,
    Magenta,
    Cyan,
    White,
    Black1,
    Stratos,
    NavyBlue1,
    DarkBlue,
    DarkBlue1,
    Blue1,
    Camarone,
    BlueStone,
    Orient,
    Endeavour,
    ScienceBlue,
    BlueRibbon,
    JapaneseLaurel1,
    DeepSea,
    Teal1,
    DeepCerulean,
    Lochmara,
    AzureRadiance,
    JapaneseLaurel2,
    Jade,
    PersianGreen,
    BondiBlue,
    Cerulean,
    AzureRadiance1,
    Green1,
    Malachite,
    CaribbeanGreen,
    CaribbeanGreen1,
    RobinEggBlue,
    Aqua,
    Green2,
    SpringGreen,
    SpringGreen1,
    SpringGreen2,
    BrightTurquoise,
    Cyan2,
    Rosewood,
    Pompadour,
    PigmentIndigo,
    Purple,
    ElectricViolet,
    ElectricViolet1,
    VerdunGreen,
    Scorpion,
    Comet,
    Scampi,
    Indigo,
    CornflowerBlue,
    Limeade,
    GladeGreen,
    Juniper,
    HippieBlue,
    HavelockBlue,
    CornflowerBlue1,
    Limeade1,
    Fern,
    SilverTree,
    Tradewind,
    Shakespeare,
    Malibu,
    BrightGreen,
    PastelGreen,
    PastelGreen1,
    Downy,
    Viking,
    Malibu1,
    BrightGreen1,
    ScreaminGreen,
    ScreaminGreen1,
    Aquamarine,
    Aquamarine1,
    Aquamarine2,
    Maroon1,
    FreshEggplant1,
    FreshEggplant2,
    Purple1,
    ElectricViolet2,
    ElectricViolet3,
    Brown,
    CopperRose,
    Strikemaster,
    Deluge,
    MediumPurple,
    Heliotrope,
    Olive1,
    ClayCreek,
    Gray1,
    WildBlueYonder,
    ChetwodeBlue,
    Malibu2,
    Limeade2,
    ChelseaCucumber,
    BayLeaf,
    GulfStream,
    PoloBlue,
    Malibu3,
    Pistachio,
    PastelGreen2,
    Feijoa,
    VistaBlue,
    Bermuda,
    Anakiwa,
    Chartreuse,
    ScreaminGreen2,
    MintGreen,
    MintGreen1,
    Aquamarine3,
    Anakiwa1,
    BrightRed,
    Flirt,
    Flirt1,
    Flirt2,
    ElectricViolet4,
    ElectricViolet5,
    RoseofSharon,
    Matrix,
    Tapestry,
    FuchsiaPink,
    MediumPurple1,
    Heliotrope1,
    PirateGold,
    Muesli,
    Pharlap,
    Bouquet,
    Lavender,
    Heliotrope2,
    BuddhaGold,
    OliveGreen,
    Hillary,
    SilverChalice,
    Wistful,
    Melrose,
    RioGrande,
    Conifer,
    Feijoa1,
    PixieGreen,
    JungleMist,
    Anakiwa2,
    Lime,
    GreenYellow,
    MintGreen2,
    MintGreen3,
    AeroBlue,
    FrenchPass,
    GuardsmanRed,
    Razzmatazz,
    HollywoodCerise,
    HollywoodCerise1,
    PurplePizzazz,
    ElectricViolet6,
    Tenn,
    Roman,
    Cranberry,
    Hopbush,
    Orchid,
    Heliotrope3,
    MangoTango,
    Copperfield,
    MyPink,
    CanCan,
    LightOrchid,
    Heliotrope4,
    Corn,
    Tacha,
    Tan,
    ClamShell,
    Thistle,
    Mauve,
    Corn1,
    Tacha1,
    Deco,
    GreenMist,
    Alto,
    Fog,
    ChartreuseYellow,
    Canary,
    Honeysuckle,
    Reef,
    SnowyMint,
    OysterBay,
    Red1,
    Rose,
    Rose1,
    HollywoodCerise2,
    PurplePizzazz1,
    Fuchsia,
    BlazeOrange,
    Bittersweet,
    WildWatermelon,
    HotPink,
    HotPink1,
    PinkFlamingo,
    FlushOrange,
    Salmon,
    VividTangerine,
    PinkSalmon,
    LavenderRose,
    BlushPink,
    YellowSea,
    TexasRose,
    HitPink,
    Sundown,
    CottonCandy,
    LavenderRose1,
    Gold,
    Dandelion,
    Grandis,
    Caramel,
    Cosmos,
    PinkLace,
    Yellow1,
    LaserLemon,
    Dolly,
    Portafino,
    Cumulus,
    White1,
    CodGray,
    CodGray1,
    CodGray2,
    MineShaft,
    MineShaft1,
    MineShaft2,
    Tundora,
    Tundora1,
    Scorpion1,
    DoveGray,
    DoveGray1,
    Boulder,
    Gray2,
    Gray3,
    DustyGray,
    SilverChalice1,
    SilverChalice2,
    SilverChalice3,
    Silver1,
    Silver2,
    Alto1,
    Alto2,
    Mercury,
    Gallery,
}

impl XtermColor {
    /// The palette index of this entry.
    pub open spec fn index_spec(self) -> int {
        match self {
            XtermColor::Black => 0,
            XtermColor::Maroon => 1,
            XtermColor::JapaneseLaurel => 2,
            XtermColor::Olive => 3,
            XtermColor::NavyBlue => 4,
            XtermColor::FreshEggplant => 5,
            XtermColor::Teal => 6,
            XtermColor::Silver => 7,
            XtermColor::Gray => 8,
            XtermColor::Red => 9,
            XtermColor::Green => 10,
            XtermColor::Yellow => 11,
            XtermColor::Blue => 12,
            XtermColor::Magenta => 13,
            XtermColor::Cyan => 14,
            XtermColor::White => 15,
            XtermColor::Black1 => 16,
            XtermColor::Stratos => 17,
            XtermColor::NavyBlue1 => 18,
            XtermColor::DarkBlue => 19,
            XtermColor::DarkBlue1 => 20,
            XtermColor::Blue1 => 21,
            XtermColor::Camarone => 22,
            XtermColor::BlueStone => 23,
            XtermColor::Orient => 24,
            XtermColor::Endeavour => 25,
            XtermColor::ScienceBlue => 26,
            XtermColor::BlueRibbon => 27,
            XtermColor::JapaneseLaurel1 => 28,
            XtermColor::DeepSea => 29,
            XtermColor::Teal1 => 30,
            XtermColor::DeepCerulean => 31,
            XtermColor::Lochmara => 32,
            XtermColor::AzureRadiance => 33,
            XtermColor::JapaneseLaurel2 => 34,
            XtermColor::Jade => 35,
            XtermColor::PersianGreen => 36,
            XtermColor::BondiBlue => 37,
            XtermColor::Cerulean => 38,
            XtermColor::AzureRadiance1 => 39,
            XtermColor::Green1 => 40,
            XtermColor::Malachite => 41,
            XtermColor::CaribbeanGreen => 42,
            XtermColor::CaribbeanGreen1 => 43,
            XtermColor::RobinEggBlue => 44,
            XtermColor::Aqua => 45,
            XtermColor::Green2 => 46,
            XtermColor::SpringGreen => 47,
            XtermColor::SpringGreen1 => 48,
            XtermColor::SpringGreen2 => 49,
            XtermColor::BrightTurquoise => 50,
            XtermColor::Cyan2 => 51,
            XtermColor::Rosewood => 52,
            XtermColor::Pompadour => 53,
            XtermColor::PigmentIndigo => 54,
            XtermColor::Purple => 55,
            XtermColor::ElectricViolet => 56,
            XtermColor::ElectricViolet1 => 57,
            XtermColor::VerdunGreen => 58,
            XtermColor::Scorpion => 59,
            XtermColor::Comet => 60,
            XtermColor::Scampi => 61,
            XtermColor::Indigo => 62,
            XtermColor::CornflowerBlue => 63,
            XtermColor::Limeade => 64,
            XtermColor::GladeGreen => 65,
            XtermColor::Juniper => 66,
            XtermColor::HippieBlue => 67,
            XtermColor::HavelockBlue => 68,
            XtermColor::CornflowerBlue1 => 69,
            XtermColor::Limeade1 => 70,
            XtermColor::Fern => 71,
            XtermColor::SilverTree => 72,
            XtermColor::Tradewind => 73,
            XtermColor::Shakespeare => 74,
            XtermColor::Malibu => 75,
            XtermColor::BrightGreen => 76,
            XtermColor::PastelGreen => 77,
            XtermColor::PastelGreen1 => 78,
            XtermColor::Downy => 79,
            XtermColor::Viking => 80,
            XtermColor::Malibu1 => 81,
            XtermColor::BrightGreen1 => 82,
            XtermColor::ScreaminGreen => 83,
            XtermColor::ScreaminGreen1 => 84,
            XtermColor::Aquamarine => 85,
            XtermColor::Aquamarine1 => 86,
            XtermColor::Aquamarine2 => 87,
            XtermColor::Maroon1 => 88,
            XtermColor::FreshEggplant1 => 89,
            XtermColor::FreshEggplant2 => 90,
            XtermColor::Purple1 => 91,
            XtermColor::ElectricViolet2 => 92,
            XtermColor::ElectricViolet3 => 93,
            XtermColor::Brown => 94,
            XtermColor::CopperRose => 95,
            XtermColor::Strikemaster => 96,
            XtermColor::Deluge => 97,
            XtermColor::MediumPurple => 98,
            XtermColor::Heliotrope => 99,
            XtermColor::Olive1 => 100,
            XtermColor::ClayCreek => 101,
            XtermColor::Gray1 => 102,
            XtermColor::WildBlueYonder => 103,
            XtermColor::ChetwodeBlue => 104,
            XtermColor::Malibu2 => 105,
            XtermColor::Limeade2 => 106,
            XtermColor::ChelseaCucumber => 107,
            XtermColor::BayLeaf => 108,
            XtermColor::GulfStream => 109,
            XtermColor::PoloBlue => 110,
            XtermColor::Malibu3 => 111,
            XtermColor::Pistachio => 112,
            XtermColor::PastelGreen2 => 113,
            XtermColor::Feijoa => 114,
            XtermColor::VistaBlue => 115,
            XtermColor::Bermuda => 116,
            XtermColor::Anakiwa => 117,
            XtermColor::Chartreuse => 118,
            XtermColor::ScreaminGreen2 => 119,
            XtermColor::MintGreen => 120,
            XtermColor::MintGreen1 => 121,
            XtermColor::Aquamarine3 => 122,
            XtermColor::Anakiwa1 => 123,
            XtermColor::BrightRed => 124,
            XtermColor::Flirt => 125,
            XtermColor::Flirt1 => 126,
            XtermColor::Flirt2 => 127,
            XtermColor::ElectricViolet4 => 128,
            XtermColor::ElectricViolet5 => 129,
            XtermColor::RoseofSharon => 130,
            XtermColor::Matrix => 131,
            XtermColor::Tapestry => 132,
            XtermColor::FuchsiaPink => 133,
            XtermColor::MediumPurple1 => 134,
            XtermColor::Heliotrope1 => 135,
            XtermColor::PirateGold => 136,
            XtermColor::Muesli => 137,
            XtermColor::Pharlap => 138,
            XtermColor::Bouquet => 139,
            XtermColor::Lavender => 140,
            XtermColor::Heliotrope2 => 141,
            XtermColor::BuddhaGold => 142,
            XtermColor::OliveGreen => 143,
            XtermColor::Hillary => 144,
            XtermColor::SilverChalice => 145,
            XtermColor::Wistful => 146,
            XtermColor::Melrose => 147,
            XtermColor::RioGrande => 148,
            XtermColor::Conifer => 149,
            XtermColor::Feijoa1 => 150,
            XtermColor::PixieGreen => 151,
            XtermColor::JungleMist => 152,
            XtermColor::Anakiwa2 => 153,
            XtermColor::Lime => 154,
            XtermColor::GreenYellow => 155,
            XtermColor::MintGreen2 => 156,
            XtermColor::MintGreen3 => 157,
            XtermColor::AeroBlue => 158,
            XtermColor::FrenchPass => 159,
            XtermColor::GuardsmanRed => 160,
            XtermColor::Razzmatazz => 161,
            XtermColor::HollywoodCerise => 162,
            XtermColor::HollywoodCerise1 => 163,
            XtermColor::PurplePizzazz => 164,
            XtermColor::ElectricViolet6 => 165,
            XtermColor::Tenn => 166,
            XtermColor::Roman => 167,
            XtermColor::Cranberry => 168,
            XtermColor::Hopbush => 169,
            XtermColor::Orchid => 170,
            XtermColor::Heliotrope3 => 171,
            XtermColor::MangoTango => 172,
            XtermColor::Copperfield => 173,
            XtermColor::MyPink => 174,
            XtermColor::CanCan => 175,
            XtermColor::LightOrchid => 176,
            XtermColor::Heliotrope4 => 177,
            XtermColor::Corn => 178,
            XtermColor::Tacha => 179,
            XtermColor::Tan => 180,
            XtermColor::ClamShell => 181,
            XtermColor::Thistle => 182,
            XtermColor::Mauve => 183,
            XtermColor::Corn1 => 184,
            XtermColor::Tacha1 => 185,
            XtermColor::Deco => 186,
            XtermColor::GreenMist => 187,
            XtermColor::Alto => 188,
            XtermColor::Fog => 189,
            XtermColor::ChartreuseYellow => 190,
            XtermColor::Canary => 191,
            XtermColor::Honeysuckle => 192,
            XtermColor::Reef => 193,
            XtermColor::SnowyMint => 194,
            XtermColor::OysterBay => 195,
            XtermColor::Red1 => 196,
            XtermColor::Rose => 197,
            XtermColor::Rose1 => 198,
            XtermColor::HollywoodCerise2 => 199,
            XtermColor::PurplePizzazz1 => 200,
            XtermColor::Fuchsia => 201,
            XtermColor::BlazeOrange => 202,
            XtermColor::Bittersweet => 203,
            XtermColor::WildWatermelon => 204,
            XtermColor::HotPink => 205,
            XtermColor::HotPink1 => 206,
            XtermColor::PinkFlamingo => 207,
            XtermColor::FlushOrange => 208,
            XtermColor::Salmon => 209,
            XtermColor::VividTangerine => 210,
            XtermColor::PinkSalmon => 211,
            XtermColor::LavenderRose => 212,
            XtermColor::BlushPink => 213,
            XtermColor::YellowSea => 214,
            XtermColor::TexasRose => 215,
            XtermColor::HitPink => 216,
            XtermColor::Sundown => 217,
            XtermColor::CottonCandy => 218,
            XtermColor::LavenderRose1 => 219,
            XtermColor::Gold => 220,
            XtermColor::Dandelion => 221,
            XtermColor::Grandis => 222,
            XtermColor::Caramel => 223,
            XtermColor::Cosmos => 224,
            XtermColor::PinkLace => 225,
            XtermColor::Yellow1 => 226,
            XtermColor::LaserLemon => 227,
            XtermColor::Dolly => 228,
            XtermColor::Portafino => 229,
            XtermColor::Cumulus => 230,
            XtermColor::White1 => 231,
            XtermColor::CodGray => 232,
            XtermColor::CodGray1 => 233,
            XtermColor::CodGray2 => 234,
            XtermColor::MineShaft => 235,
            XtermColor::MineShaft1 => 236,
            XtermColor::MineShaft2 => 237,
            XtermColor::Tundora => 238,
            XtermColor::Tundora1 => 239,
            XtermColor::Scorpion1 => 240,
            XtermColor::DoveGray => 241,
            XtermColor::DoveGray1 => 242,
            XtermColor::Boulder => 243,
            XtermColor::Gray2 => 244,
            XtermColor::Gray3 => 245,
            XtermColor::DustyGray => 246,
            XtermColor::SilverChalice1 => 247,
            XtermColor::SilverChalice2 => 248,
            XtermColor::SilverChalice3 => 249,
            XtermColor::Silver1 => 250,
            XtermColor::Silver2 => 251,
            XtermColor::Alto1 => 252,
            XtermColor::Alto2 => 253,
            XtermColor::Mercury => 254,
            XtermColor::Gallery => 255,
        }
    }

    /// The palette index as a machine integer.
    pub fn index(&self) -> (i: u8)
        ensures
            i as int == self.index_spec(),
    {
        match self {
            XtermColor::Black => 0,
            XtermColor::Maroon => 1,
            XtermColor::JapaneseLaurel => 2,
            XtermColor::Olive => 3,
            XtermColor::NavyBlue => 4,
            XtermColor::FreshEggplant => 5,
            XtermColor::Teal => 6,
            XtermColor::Silver => 7,
            XtermColor::Gray => 8,
            XtermColor::Red => 9,
            XtermColor::Green => 10,
            XtermColor::Yellow => 11,
            XtermColor::Blue => 12,
            XtermColor::Magenta => 13,
            XtermColor::Cyan => 14,
            XtermColor::White => 15,
            XtermColor::Black1 => 16,
            XtermColor::Stratos => 17,
            XtermColor::NavyBlue1 => 18,
            XtermColor::DarkBlue => 19,
            XtermColor::DarkBlue1 => 20,
            XtermColor::Blue1 => 21,
            XtermColor::Camarone => 22,
            XtermColor::BlueStone => 23,
            XtermColor::Orient => 24,
            XtermColor::Endeavour => 25,
            XtermColor::ScienceBlue => 26,
            XtermColor::BlueRibbon => 27,
            XtermColor::JapaneseLaurel1 => 28,
            XtermColor::DeepSea => 29,
            XtermColor::Teal1 => 30,
            XtermColor::DeepCerulean => 31,
            XtermColor::Lochmara => 32,
            XtermColor::AzureRadiance => 33,
            XtermColor::JapaneseLaurel2 => 34,
            XtermColor::Jade => 35,
            XtermColor::PersianGreen => 36,
            XtermColor::BondiBlue => 37,
            XtermColor::Cerulean => 38,
            XtermColor::AzureRadiance1 => 39,
            XtermColor::Green1 => 40,
            XtermColor::Malachite => 41,
            XtermColor::CaribbeanGreen => 42,
            XtermColor::CaribbeanGreen1 => 43,
            XtermColor::RobinEggBlue => 44,
            XtermColor::Aqua => 45,
            XtermColor::Green2 => 46,
            XtermColor::SpringGreen => 47,
            XtermColor::SpringGreen1 => 48,
            XtermColor::SpringGreen2 => 49,
            XtermColor::BrightTurquoise => 50,
            XtermColor::Cyan2 => 51,
            XtermColor::Rosewood => 52,
            XtermColor::Pompadour => 53,
            XtermColor::PigmentIndigo => 54,
            XtermColor::Purple => 55,
            XtermColor::ElectricViolet => 56,
            XtermColor::ElectricViolet1 => 57,
            XtermColor::VerdunGreen => 58,
            XtermColor::Scorpion => 59,
            XtermColor::Comet => 60,
            XtermColor::Scampi => 61,
            XtermColor::Indigo => 62,
            XtermColor::CornflowerBlue => 63,
            XtermColor::Limeade => 64,
            XtermColor::GladeGreen => 65,
            XtermColor::Juniper => 66,
            XtermColor::HippieBlue => 67,
            XtermColor::HavelockBlue => 68,
            XtermColor::CornflowerBlue1 => 69,
            XtermColor::Limeade1 => 70,
            XtermColor::Fern => 71,
            XtermColor::SilverTree => 72,
            XtermColor::Tradewind => 73,
            XtermColor::Shakespeare => 74,
            XtermColor::Malibu => 75,
            XtermColor::BrightGreen => 76,
            XtermColor::PastelGreen => 77,
            XtermColor::PastelGreen1 => 78,
            XtermColor::Downy => 79,
            XtermColor::Viking => 80,
            XtermColor::Malibu1 => 81,
            XtermColor::BrightGreen1 => 82,
            XtermColor::ScreaminGreen => 83,
            XtermColor::ScreaminGreen1 => 84,
            XtermColor::Aquamarine => 85,
            XtermColor::Aquamarine1 => 86,
            XtermColor::Aquamarine2 => 87,
            XtermColor::Maroon1 => 88,
            XtermColor::FreshEggplant1 => 89,
            XtermColor::FreshEggplant2 => 90,
            XtermColor::Purple1 => 91,
            XtermColor::ElectricViolet2 => 92,
            XtermColor::ElectricViolet3 => 93,
            XtermColor::Brown => 94,
            XtermColor::CopperRose => 95,
            XtermColor::Strikemaster => 96,
            XtermColor::Deluge => 97,
            XtermColor::MediumPurple => 98,
            XtermColor::Heliotrope => 99,
            XtermColor::Olive1 => 100,
            XtermColor::ClayCreek => 101,
            XtermColor::Gray1 => 102,
            XtermColor::WildBlueYonder => 103,
            XtermColor::ChetwodeBlue => 104,
            XtermColor::Malibu2 => 105,
            XtermColor::Limeade2 => 106,
            XtermColor::ChelseaCucumber => 107,
            XtermColor::BayLeaf => 108,
            XtermColor::GulfStream => 109,
            XtermColor::PoloBlue => 110,
            XtermColor::Malibu3 => 111,
            XtermColor::Pistachio => 112,
            XtermColor::PastelGreen2 => 113,
            XtermColor::Feijoa => 114,
            XtermColor::VistaBlue => 115,
            XtermColor::Bermuda => 116,
            XtermColor::Anakiwa => 117,
            XtermColor::Chartreuse => 118,
            XtermColor::ScreaminGreen2 => 119,
            XtermColor::MintGreen => 120,
            XtermColor::MintGreen1 => 121,
            XtermColor::Aquamarine3 => 122,
            XtermColor::Anakiwa1 => 123,
            XtermColor::BrightRed => 124,
            XtermColor::Flirt => 125,
            XtermColor::Flirt1 => 126,
            XtermColor::Flirt2 => 127,
            XtermColor::ElectricViolet4 => 128,
            XtermColor::ElectricViolet5 => 129,
            XtermColor::RoseofSharon => 130,
            XtermColor::Matrix => 131,
            XtermColor::Tapestry => 132,
            XtermColor::FuchsiaPink => 133,
            XtermColor::MediumPurple1 => 134,
            XtermColor::Heliotrope1 => 135,
            XtermColor::PirateGold => 136,
            XtermColor::Muesli => 137,
            XtermColor::Pharlap => 138,
            XtermColor::Bouquet => 139,
            XtermColor::Lavender => 140,
            XtermColor::Heliotrope2 => 141,
            XtermColor::BuddhaGold => 142,
            XtermColor::OliveGreen => 143,
            XtermColor::Hillary => 144,
            XtermColor::SilverChalice => 145,
            XtermColor::Wistful => 146,
            XtermColor::Melrose => 147,
            XtermColor::RioGrande => 148,
            XtermColor::Conifer => 149,
            XtermColor::Feijoa1 => 150,
            XtermColor::PixieGreen => 151,
            XtermColor::JungleMist => 152,
            XtermColor::Anakiwa2 => 153,
            XtermColor::Lime => 154,
            XtermColor::GreenYellow => 155,
            XtermColor::MintGreen2 => 156,
            XtermColor::MintGreen3 => 157,
            XtermColor::AeroBlue => 158,
            XtermColor::FrenchPass => 159,
            XtermColor::GuardsmanRed => 160,
            XtermColor::Razzmatazz => 161,
            XtermColor::HollywoodCerise => 162,
            XtermColor::HollywoodCerise1 => 163,
            XtermColor::PurplePizzazz => 164,
            XtermColor::ElectricViolet6 => 165,
            XtermColor::Tenn => 166,
            XtermColor::Roman => 167,
            XtermColor::Cranberry => 168,
            XtermColor::Hopbush => 169,
            XtermColor::Orchid => 170,
            XtermColor::Heliotrope3 => 171,
            XtermColor::MangoTango => 172,
            XtermColor::Copperfield => 173,
            XtermColor::MyPink => 174,
            XtermColor::CanCan => 175,
            XtermColor::LightOrchid => 176,
            XtermColor::Heliotrope4 => 177,
            XtermColor::Corn => 178,
            XtermColor::Tacha => 179,
            XtermColor::Tan => 180,
            XtermColor::ClamShell => 181,
            XtermColor::Thistle => 182,
            XtermColor::Mauve => 183,
            XtermColor::Corn1 => 184,
            XtermColor::Tacha1 => 185,
            XtermColor::Deco => 186,
            XtermColor::GreenMist => 187,
            XtermColor::Alto => 188,
            XtermColor::Fog => 189,
            XtermColor::ChartreuseYellow => 190,
            XtermColor::Canary => 191,
            XtermColor::Honeysuckle => 192,
            XtermColor::Reef => 193,
            XtermColor::SnowyMint => 194,
            XtermColor::OysterBay => 195,
            XtermColor::Red1 => 196,
            XtermColor::Rose => 197,
            XtermColor::Rose1 => 198,
            XtermColor::HollywoodCerise2 => 199,
            XtermColor::PurplePizzazz1 => 200,
            XtermColor::Fuchsia => 201,
            XtermColor::BlazeOrange => 202,
            XtermColor::Bittersweet => 203,
            XtermColor::WildWatermelon => 204,
            XtermColor::HotPink => 205,
            XtermColor::HotPink1 => 206,
            XtermColor::PinkFlamingo => 207,
            XtermColor::FlushOrange => 208,
            XtermColor::Salmon => 209,
            XtermColor::VividTangerine => 210,
            XtermColor::PinkSalmon => 211,
            XtermColor::LavenderRose => 212,
            XtermColor::BlushPink => 213,
            XtermColor::YellowSea => 214,
            XtermColor::TexasRose => 215,
            XtermColor::HitPink => 216,
            XtermColor::Sundown => 217,
            XtermColor::CottonCandy => 218,
            XtermColor::LavenderRose1 => 219,
            XtermColor::Gold => 220,
            XtermColor::Dandelion => 221,
            XtermColor::Grandis => 222,
            XtermColor::Caramel => 223,
            XtermColor::Cosmos => 224,
            XtermColor::PinkLace => 225,
            XtermColor::Yellow1 => 226,
            XtermColor::LaserLemon => 227,
            XtermColor::Dolly => 228,
            XtermColor::Portafino => 229,
            XtermColor::Cumulus => 230,
            XtermColor::White1 => 231,
            XtermColor::CodGray => 232,
            XtermColor::CodGray1 => 233,
            XtermColor::CodGray2 => 234,
            XtermColor::MineShaft => 235,
            XtermColor::MineShaft1 => 236,
            XtermColor::MineShaft2 => 237,
            XtermColor::Tundora => 238,
            XtermColor::Tundora1 => 239,
            XtermColor::Scorpion1 => 240,
            XtermColor::DoveGray => 241,
            XtermColor::DoveGray1 => 242,
            XtermColor::Boulder => 243,
            XtermColor::Gray2 => 244,
            XtermColor::Gray3 => 245,
            XtermColor::DustyGray => 246,
            XtermColor::SilverChalice1 => 247,
            XtermColor::SilverChalice2 => 248,
            XtermColor::SilverChalice3 => 249,
            XtermColor::Silver1 => 250,
            XtermColor::Silver2 => 251,
            XtermColor::Alto1 => 252,
            XtermColor::Alto2 => 253,
            XtermColor::Mercury => 254,
            XtermColor::Gallery => 255,
        }
    }

    /// The palette entry at index `i`, for `i` in `0..256`; values outside
    /// the range clamp to the nearest end of the palette.
    pub open spec fn from_index_spec(i: int) -> XtermColor {
        if i < 128 {
            if i < 64 {
                if i < 32 {
                    if i < 16 {
                        if i < 8 {
                            if i < 4 {
                                if i < 2 {
                                    if i < 1 {
                                        XtermColor::Black
                                    } else {
                                        XtermColor::Maroon
                                    }
                                } else {
                                    if i < 3 {
                                        XtermColor::JapaneseLaurel
                                    } else {
                                        XtermColor::Olive
                                    }
                                }
                            } else {
                                if i < 6 {
                                    if i < 5 {
                                        XtermColor::NavyBlue
                                    } else {
                                        XtermColor::FreshEggplant
                                    }
                                } else {
                                    if i < 7 {
                                        XtermColor::Teal
                                    } else {
                                        XtermColor::Silver
                                    }
                                }
                            }
                        } else {
                            if i < 12 {
                                if i < 10 {
                                    if i < 9 {
                                        XtermColor::Gray
                                    } else {
                                        XtermColor::Red
                                    }
                                } else {
                                    if i < 11 {
                                        XtermColor::Green
                                    } else {
                                        XtermColor::Yellow
                                    }
                                }
                            } else {
                                if i < 14 {
                                    if i < 13 {
                                        XtermColor::Blue
                                    } else {
                                        XtermColor::Magenta
                                    }
                                } else {
                                    if i < 15 {
                                        XtermColor::Cyan
                                    } else {
                                        XtermColor::White
                                    }
                                }
                            }
                        }
                    } else {
                        if i < 24 {
                            if i < 20 {
                                if i < 18 {
                                    if i < 17 {
                                        XtermColor::Black1
                                    } else {
                                        XtermColor::Stratos
                                    }
                                } else {
                                    if i < 19 {
                                        XtermColor::NavyBlue1
                                    } else {
                                        XtermColor::DarkBlue
                                    }
                                }
                            } else {
                                if i < 22 {
                                    if i < 21 {
                                        XtermColor::DarkBlue1
                                    } else {
                                        XtermColor::Blue1
                                    }
                                } else {
                                    if i < 23 {
                                        XtermColor::Camarone
                                    } else {
                                        XtermColor::BlueStone
                                    }
                                }
                            }
                        } else {
                            if i < 28 {
                                if i < 26 {
                                    if i < 25 {
                                        XtermColor::Orient
                                    } else {
                                        XtermColor::Endeavour
                                    }
                                } else {
                                    if i < 27 {
                                        XtermColor::ScienceBlue
                                    } else {
                                        XtermColor::BlueRibbon
                                    }
                                }
                            } else {
                                if i < 30 {
                                    if i < 29 {
                                        XtermColor::JapaneseLaurel1
                                    } else {
                                        XtermColor::DeepSea
                                    }
                                } else {
                                    if i < 31 {
                                        XtermColor::Teal1
                                    } else {
                                        XtermColor::DeepCerulean
                                    }
                                }
                            }
                        }
                    }
                } else {
                    if i < 48 {
                        if i < 40 {
                            if i < 36 {
                                if i < 34 {
                                    if i < 33 {
                                        XtermColor::Lochmara
                                    } else {
                                        XtermColor::AzureRadiance
                                    }
                                } else {
                                    if i < 35 {
                                        XtermColor::JapaneseLaurel2
                                    } else {
                                        XtermColor::Jade
                                    }
                                }
                            } else {
                                if i < 38 {
                                    if i < 37 {
                                        XtermColor::PersianGreen
                                    } else {
                                        XtermColor::BondiBlue
                                    }
                                } else {
                                    if i < 39 {
                                        XtermColor::Cerulean
                                    } else {
                                        XtermColor::AzureRadiance1
                                    }
                                }
                            }
                        } else {
                            if i < 44 {
                                if i < 42 {
                                    if i < 41 {
                                        XtermColor::Green1
                                    } else {
                                        XtermColor::Malachite
                                    }
                                } else {
                                    if i < 43 {
                                        XtermColor::CaribbeanGreen
                                    } else {
                                        XtermColor::CaribbeanGreen1
                                    }
                                }
                            } else {
                                if i < 46 {
                                    if i < 45 {
                                        XtermColor::RobinEggBlue
                                    } else {
                                        XtermColor::Aqua
                                    }
                                } else {
                                    if i < 47 {
                                        XtermColor::Green2
                                    } else {
                                        XtermColor::SpringGreen
                                    }
                                }
                            }
                        }
                    } else {
                        if i < 56 {
                            if i < 52 {
                                if i < 50 {
                                    if i < 49 {
                                        XtermColor::SpringGreen1
                                    } else {
                                        XtermColor::SpringGreen2
                                    }
                                } else {
                                    if i < 51 {
                                        XtermColor::BrightTurquoise
                                    } else {
                                        XtermColor::Cyan2
                                    }
                                }
                            } else {
                                if i < 54 {
                                    if i < 53 {
                                        XtermColor::Rosewood
                                    } else {
                                        XtermColor::Pompadour
                                    }
                                } else {
                                    if i < 55 {
                                        XtermColor::PigmentIndigo
                                    } else {
                                        XtermColor::Purple
                                    }
                                }
                            }
                        } else {
                            if i < 60 {
                                if i < 58 {
                                    if i < 57 {
                                        XtermColor::ElectricViolet
                                    } else {
                                        XtermColor::ElectricViolet1
                                    }
                                } else {
                                    if i < 59 {
                                        XtermColor::VerdunGreen
                                    } else {
                                        XtermColor::Scorpion
                                    }
                                }
                            } else {
                                if i < 62 {
                                    if i < 61 {
                                        XtermColor::Comet
                                    } else {
                                        XtermColor::Scampi
                                    }
                                } else {
                                    if i < 63 {
                                        XtermColor::Indigo
                                    } else {
                                        XtermColor::CornflowerBlue
                                    }
                                }
                            }
                        }
                    }
                }
            } else {
                if i < 96 {
                    if i < 80 {
                        if i < 72 {
                            if i < 68 {
                                if i < 66 {
                                    if i < 65 {
                                        XtermColor::Limeade
                                    } else {
                                        XtermColor::GladeGreen
                                    }
                                } else {
                                    if i < 67 {
                                        XtermColor::Juniper
                                    } else {
                                        XtermColor::HippieBlue
                                    }
                                }
                            } else {
                                if i < 70 {
                                    if i < 69 {
                                        XtermColor::HavelockBlue
                                    } else {
                                        XtermColor::CornflowerBlue1
                                    }
                                } else {
                                    if i < 71 {
                                        XtermColor::Limeade1
                                    } else {
                                        XtermColor::Fern
                                    }
                                }
                            }
                        } else {
                            if i < 76 {
                                if i < 74 {
                                    if i < 73 {
                                        XtermColor::SilverTree
                                    } else {
                                        XtermColor::Tradewind
                                    }
                                } else {
                                    if i < 75 {
                                        XtermColor::Shakespeare
                                    } else {
                                        XtermColor::Malibu
                                    }
                                }
                            } else {
                                if i < 78 {
                                    if i < 77 {
                                        XtermColor::BrightGreen
                                    } else {
                                        XtermColor::PastelGreen
                                    }
                                } else {
                                    if i < 79 {
                                        XtermColor::PastelGreen1
                                    } else {
                                        XtermColor::Downy
                                    }
                                }
                            }
                        }
                    } else {
                        if i < 88 {
                            if i < 84 {
                                if i < 82 {
                                    if i < 81 {
                                        XtermColor::Viking
                                    } else {
                                        XtermColor::Malibu1
                                    }
                                } else {
                                    if i < 83 {
                                        XtermColor::BrightGreen1
                                    } else {
                                        XtermColor::ScreaminGreen
                                    }
                                }
                            } else {
                                if i < 86 {
                                    if i < 85 {
                                        XtermColor::ScreaminGreen1
                                    } else {
                                        XtermColor::Aquamarine
                                    }
                                } else {
                                    if i < 87 {
                                        XtermColor::Aquamarine1
                                    } else {
                                        XtermColor::Aquamarine2
                                    }
                                }
                            }
                        } else {
                            if i < 92 {
                                if i < 90 {
                                    if i < 89 {
                                        XtermColor::Maroon1
                                    } else {
                                        XtermColor::FreshEggplant1
                                    }
                                } else {
                                    if i < 91 {
                                        XtermColor::FreshEggplant2
                                    } else {
                                        XtermColor::Purple1
                                    }
                                }
                            } else {
                                if i < 94 {
                                    if i < 93 {
                                        XtermColor::ElectricViolet2
                                    } else {
                                        XtermColor::ElectricViolet3
                                    }
                                } else {
                                    if i < 95 {
                                        XtermColor::Brown
                                    } else {
                                        XtermColor::CopperRose
                                    }
                                }
                            }
                        }
                    }
                } else {
                    if i < 112 {
                        if i < 104 {
                            if i < 100 {
                                if i < 98 {
                                    if i < 97 {
                                        XtermColor::Strikemaster
                                    } else {
                                        XtermColor::Deluge
                                    }
                                } else {
                                    if i < 99 {
                                        XtermColor::MediumPurple
                                    } else {
                                        XtermColor::Heliotrope
                                    }
                                }
                            } else {
                                if i < 102 {
                                    if i < 101 {
                                        XtermColor::Olive1
                                    } else {
                                        XtermColor::ClayCreek
                                    }
                                } else {
                                    if i < 103 {
                                        XtermColor::Gray1
                                    } else {
                                        XtermColor::WildBlueYonder
                                    }
                                }
                            }
                        } else {
                            if i < 108 {
                                if i < 106 {
                                    if i < 105 {
                                        XtermColor::ChetwodeBlue
                                    } else {
                                        XtermColor::Malibu2
                                    }
                                } else {
                                    if i < 107 {
                                        XtermColor::Limeade2
                                    } else {
                                        XtermColor::ChelseaCucumber
                                    }
                                }
                            } else {
                                if i < 110 {
                                    if i < 109 {
                                        XtermColor::BayLeaf
                                    } else {
                                        XtermColor::GulfStream
                                    }
                                } else {
                                    if i < 111 {
                                        XtermColor::PoloBlue
                                    } else {
                                        XtermColor::Malibu3
                                    }
                                }
                            }
                        }
                    } else {
                        if i < 120 {
                            if i < 116 {
                                if i < 114 {
                                    if i < 113 {
                                        XtermColor::Pistachio
                                    } else {
                                        XtermColor::PastelGreen2
                                    }
                                } else {
                                    if i < 115 {
                                        XtermColor::Feijoa
                                    } else {
                                        XtermColor::VistaBlue
                                    }
                                }
                            } else {
                                if i < 118 {
                                    if i < 117 {
                                        XtermColor::Bermuda
                                    } else {
                                        XtermColor::Anakiwa
                                    }
                                } else {
                                    if i < 119 {
                                        XtermColor::Chartreuse
                                    } else {
                                        XtermColor::ScreaminGreen2
                                    }
                                }
                            }
                        } else {
                            if i < 124 {
                                if i < 122 {
                                    if i < 121 {
                                        XtermColor::MintGreen
                                    } else {
                                        XtermColor::MintGreen1
                                    }
                                } else {
                                    if i < 123 {
                                        XtermColor::Aquamarine3
                                    } else {
                                        XtermColor::Anakiwa1
                                    }
                                }
                            } else {
                                if i < 126 {
                                    if i < 125 {
                                        XtermColor::BrightRed
                                    } else {
                                        XtermColor::Flirt
                                    }
                                } else {
                                    if i < 127 {
                                        XtermColor::Flirt1
                                    } else {
                                        XtermColor::Flirt2
                                    }
                                }
                            }
                        }
                    }
                }
            }
        } else {
            if i < 192 {
                if i < 160 {
                    if i < 144 {
                        if i < 136 {
                            if i < 132 {
                                if i < 130 {
                                    if i < 129 {
                                        XtermColor::ElectricViolet4
                                    } else {
                                        XtermColor::ElectricViolet5
                                    }
                                } else {
                                    if i < 131 {
                                        XtermColor::RoseofSharon
                                    } else {
                                        XtermColor::Matrix
                                    }
                                }
                            } else {
                                if i < 134 {
                                    if i < 133 {
                                        XtermColor::Tapestry
                                    } else {
                                        XtermColor::FuchsiaPink
                                    }
                                } else {
                                    if i < 135 {
                                        XtermColor::MediumPurple1
                                    } else {
                                        XtermColor::Heliotrope1
                                    }
                                }
                            }
                        } else {
                            if i < 140 {
                                if i < 138 {
                                    if i < 137 {
                                        XtermColor::PirateGold
                                    } else {
                                        XtermColor::Muesli
                                    }
                                } else {
                                    if i < 139 {
                                        XtermColor::Pharlap
                                    } else {
                                        XtermColor::Bouquet
                                    }
                                }
                            } else {
                                if i < 142 {
                                    if i < 141 {
                                        XtermColor::Lavender
                                    } else {
                                        XtermColor::Heliotrope2
                                    }
                                } else {
                                    if i < 143 {
                                        XtermColor::BuddhaGold
                                    } else {
                                        XtermColor::OliveGreen
                                    }
                                }
                            }
                        }
                    } else {
                        if i < 152 {
                            if i < 148 {
                                if i < 146 {
                                    if i < 145 {
                                        XtermColor::Hillary
                                    } else {
                                        XtermColor::SilverChalice
                                    }
                                } else {
                                    if i < 147 {
                                        XtermColor::Wistful
                                    } else {
                                        XtermColor::Melrose
                                    }
                                }
                            } else {
                                if i < 150 {
                                    if i < 149 {
                                        XtermColor::RioGrande
                                    } else {
                                        XtermColor::Conifer
                                    }
                                } else {
                                    if i < 151 {
                                        XtermColor::Feijoa1
                                    } else {
                                        XtermColor::PixieGreen
                                    }
                                }
                            }
                        } else {
                            if i < 156 {
                                if i < 154 {
                                    if i < 153 {
                                        XtermColor::JungleMist
                                    } else {
                                        XtermColor::Anakiwa2
                                    }
                                } else {
                                    if i < 155 {
                                        XtermColor::Lime
                                    } else {
                                        XtermColor::GreenYellow
                                    }
                                }
                            } else {
                                if i < 158 {
                                    if i < 157 {
                                        XtermColor::MintGreen2
                                    } else {
                                        XtermColor::MintGreen3
                                    }
                                } else {
                                    if i < 159 {
                                        XtermColor::AeroBlue
                                    } else {
                                        XtermColor::FrenchPass
                                    }
                                }
                            }
                        }
                    }
                } else {
                    if i < 176 {
                        if i < 168 {
                            if i < 164 {
                                if i < 162 {
                                    if i < 161 {
                                        XtermColor::GuardsmanRed
                                    } else {
                                        XtermColor::Razzmatazz
                                    }
                                } else {
                                    if i < 163 {
                                        XtermColor::HollywoodCerise
                                    } else {
                                        XtermColor::HollywoodCerise1
                                    }
                                }
                            } else {
                                if i < 166 {
                                    if i < 165 {
                                        XtermColor::PurplePizzazz
                                    } else {
                                        XtermColor::ElectricViolet6
                                    }
                                } else {
                                    if i < 167 {
                                        XtermColor::Tenn
                                    } else {
                                        XtermColor::Roman
                                    }
                                }
                            }
                        } else {
                            if i < 172 {
                                if i < 170 {
                                    if i < 169 {
                                        XtermColor::Cranberry
                                    } else {
                                        XtermColor::Hopbush
                                    }
                                } else {
                                    if i < 171 {
                                        XtermColor::Orchid
                                    } else {
                                        XtermColor::Heliotrope3
                                    }
                                }
                            } else {
                                if i < 174 {
                                    if i < 173 {
                                        XtermColor::MangoTango
                                    } else {
                                        XtermColor::Copperfield
                                    }
                                } else {
                                    if i < 175 {
                                        XtermColor::MyPink
                                    } else {
                                        XtermColor::CanCan
                                    }
                                }
                            }
                        }
                    } else {
                        if i < 184 {
                            if i < 180 {
                                if i < 178 {
                                    if i < 177 {
                                        XtermColor::LightOrchid
                                    } else {
                                        XtermColor::Heliotrope4
                                    }
                                } else {
                                    if i < 179 {
                                        XtermColor::Corn
                                    } else {
                                        XtermColor::Tacha
                                    }
                                }
                            } else {
                                if i < 182 {
                                    if i < 181 {
                                        XtermColor::Tan
                                    } else {
                                        XtermColor::ClamShell
                                    }
                                } else {
                                    if i < 183 {
                                        XtermColor::Thistle
                                    } else {
                                        XtermColor::Mauve
                                    }
                                }
                            }
                        } else {
                            if i < 188 {
                                if i < 186 {
                                    if i < 185 {
                                        XtermColor::Corn1
                                    } else {
                                        XtermColor::Tacha1
                                    }
                                } else {
                                    if i < 187 {
                                        XtermColor::Deco
                                    } else {
                                        XtermColor::GreenMist
                                    }
                                }
                            } else {
                                if i < 190 {
                                    if i < 189 {
                                        XtermColor::Alto
                                    } else {
                                        XtermColor::Fog
                                    }
                                } else {
                                    if i < 191 {
                                        XtermColor::ChartreuseYellow
                                    } else {
                                        XtermColor::Canary
                                    }
                                }
                            }
                        }
                    }
                }
            } else {
                if i < 224 {
                    if i < 208 {
                        if i < 200 {
                            if i < 196 {
                                if i < 194 {
                                    if i < 193 {
                                        XtermColor::Honeysuckle
                                    } else {
                                        XtermColor::Reef
                                    }
                                } else {
                                    if i < 195 {
                                        XtermColor::SnowyMint
                                    } else {
                                        XtermColor::OysterBay
                                    }
                                }
                            } else {
                                if i < 198 {
                                    if i < 197 {
                                        XtermColor::Red1
                                    } else {
                                        XtermColor::Rose
                                    }
                                } else {
                                    if i < 199 {
                                        XtermColor::Rose1
                                    } else {
                                        XtermColor::HollywoodCerise2
                                    }
                                }
                            }
                        } else {
                            if i < 204 {
                                if i < 202 {
                                    if i < 201 {
                                        XtermColor::PurplePizzazz1
                                    } else {
                                        XtermColor::Fuchsia
                                    }
                                } else {
                                    if i < 203 {
                                        XtermColor::BlazeOrange
                                    } else {
                                        XtermColor::Bittersweet
                                    }
                                }
                            } else {
                                if i < 206 {
                                    if i < 205 {
                                        XtermColor::WildWatermelon
                                    } else {
                                        XtermColor::HotPink
                                    }
                                } else {
                                    if i < 207 {
                                        XtermColor::HotPink1
                                    } else {
                                        XtermColor::PinkFlamingo
                                    }
                                }
                            }
                        }
                    } else {
                        if i < 216 {
                            if i < 212 {
                                if i < 210 {
                                    if i < 209 {
                                        XtermColor::FlushOrange
                                    } else {
                                        XtermColor::Salmon
                                    }
                                } else {
                                    if i < 211 {
                                        XtermColor::VividTangerine
                                    } else {
                                        XtermColor::PinkSalmon
                                    }
                                }
                            } else {
                                if i < 214 {
                                    if i < 213 {
                                        XtermColor::LavenderRose
                                    } else {
                                        XtermColor::BlushPink
                                    }
                                } else {
                                    if i < 215 {
                                        XtermColor::YellowSea
                                    } else {
                                        XtermColor::TexasRose
                                    }
                                }
                            }
                        } else {
                            if i < 220 {
                                if i < 218 {
                                    if i < 217 {
                                        XtermColor::HitPink
                                    } else {
                                        XtermColor::Sundown
                                    }
                                } else {
                                    if i < 219 {
                                        XtermColor::CottonCandy
                                    } else {
                                        XtermColor::LavenderRose1
                                    }
                                }
                            } else {
                                if i < 222 {
                                    if i < 221 {
                                        XtermColor::Gold
                                    } else {
                                        XtermColor::Dandelion
                                    }
                                } else {
                                    if i < 223 {
                                        XtermColor::Grandis
                                    } else {
                                        XtermColor::Caramel
                                    }
                                }
                            }
                        }
                    }
                } else {
                    if i < 240 {
                        if i < 232 {
                            if i < 228 {
                                if i < 226 {
                                    if i < 225 {
                                        XtermColor::Cosmos
                                    } else {
                                        XtermColor::PinkLace
                                    }
                                } else {
                                    if i < 227 {
                                        XtermColor::Yellow1
                                    } else {
                                        XtermColor::LaserLemon
                                    }
                                }
                            } else {
                                if i < 230 {
                                    if i < 229 {
                                        XtermColor::Dolly
                                    } else {
                                        XtermColor::Portafino
                                    }
                                } else {
                                    if i < 231 {
                                        XtermColor::Cumulus
                                    } else {
                                        XtermColor::White1
                                    }
                                }
                            }
                        } else {
                            if i < 236 {
                                if i < 234 {
                                    if i < 233 {
                                        XtermColor::CodGray
                                    } else {
                                        XtermColor::CodGray1
                                    }
                                } else {
                                    if i < 235 {
                                        XtermColor::CodGray2
                                    } else {
                                        XtermColor::MineShaft
                                    }
                                }
                            } else {
                                if i < 238 {
                                    if i < 237 {
                                        XtermColor::MineShaft1
                                    } else {
                                        XtermColor::MineShaft2
                                    }
                                } else {
                                    if i < 239 {
                                        XtermColor::Tundora
                                    } else {
                                        XtermColor::Tundora1
                                    }
                                }
                            }
                        }
                    } else {
                        if i < 248 {
                            if i < 244 {
                                if i < 242 {
                                    if i < 241 {
                                        XtermColor::Scorpion1
                                    } else {
                                        XtermColor::DoveGray
                                    }
                                } else {
                                    if i < 243 {
                                        XtermColor::DoveGray1
                                    } else {
                                        XtermColor::Boulder
                                    }
                                }
                            } else {
                                if i < 246 {
                                    if i < 245 {
                                        XtermColor::Gray2
                                    } else {
                                        XtermColor::Gray3
                                    }
                                } else {
                                    if i < 247 {
                                        XtermColor::DustyGray
                                    } else {
                                        XtermColor::SilverChalice1
                                    }
                                }
                            }
                        } else {
                            if i < 252 {
                                if i < 250 {
                                    if i < 249 {
                                        XtermColor::SilverChalice2
                                    } else {
                                        XtermColor::SilverChalice3
                                    }
                                } else {
                                    if i < 251 {
                                        XtermColor::Silver1
                                    } else {
                                        XtermColor::Silver2
                                    }
                                }
                            } else {
                                if i < 254 {
                                    if i < 253 {
                                        XtermColor::Alto1
                                    } else {
                                        XtermColor::Alto2
                                    }
                                } else {
                                    if i < 255 {
                                        XtermColor::Mercury
                                    } else {
                                        XtermColor::Gallery
                                    }
                                }
                            }
                        }
                    }
                }
            }
        }
    }

    /// The palette entry at index `i`.
    #[verifier::rlimit(100)]
    pub fn from_index(i: u8) -> (c: XtermColor)
        ensures
            c == XtermColor::from_index_spec(i as int),
            c.index_spec() == i as int,
    {
        proof {
            lemma_xterm_all_indices_present(i as int);
        }
        match i {
            0 => XtermColor::Black,
            1 => XtermColor::Maroon,
            2 => XtermColor::JapaneseLaurel,
            3 => XtermColor::Olive,
            4 => XtermColor::NavyBlue,
            5 => XtermColor::FreshEggplant,
            6 => XtermColor::Teal,
            7 => XtermColor::Silver,
            8 => XtermColor::Gray,
            9 => XtermColor::Red,
            10 => XtermColor::Green,
            11 => XtermColor::Yellow,
            12 => XtermColor::Blue,
            13 => XtermColor::Magenta,
            14 => XtermColor::Cyan,
            15 => XtermColor::White,
            16 => XtermColor::Black1,
            17 => XtermColor::Stratos,
            18 => XtermColor::NavyBlue1,
            19 => XtermColor::DarkBlue,
            20 => XtermColor::DarkBlue1,
            21 => XtermColor::Blue1,
            22 => XtermColor::Camarone,
            23 => XtermColor::BlueStone,
            24 => XtermColor::Orient,
            25 => XtermColor::Endeavour,
            26 => XtermColor::ScienceBlue,
            27 => XtermColor::BlueRibbon,
            28 => XtermColor::JapaneseLaurel1,
            29 => XtermColor::DeepSea,
            30 => XtermColor::Teal1,
            31 => XtermColor::DeepCerulean,
            32 => XtermColor::Lochmara,
            33 => XtermColor::AzureRadiance,
            34 => XtermColor::JapaneseLaurel2,
            35 => XtermColor::Jade,
            36 => XtermColor::PersianGreen,
            37 => XtermColor::BondiBlue,
            38 => XtermColor::Cerulean,
            39 => XtermColor::AzureRadiance1,
            40 => XtermColor::Green1,
            41 => XtermColor::Malachite,
            42 => XtermColor::CaribbeanGreen,
            43 => XtermColor::CaribbeanGreen1,
            44 => XtermColor::RobinEggBlue,
            45 => XtermColor::Aqua,
            46 => XtermColor::Green2,
            47 => XtermColor::SpringGreen,
            48 => XtermColor::SpringGreen1,
            49 => XtermColor::SpringGreen2,
            50 => XtermColor::BrightTurquoise,
            51 => XtermColor::Cyan2,
            52 => XtermColor::Rosewood,
            53 => XtermColor::Pompadour,
            54 => XtermColor::PigmentIndigo,
            55 => XtermColor::Purple,
            56 => XtermColor::ElectricViolet,
            57 => XtermColor::ElectricViolet1,
            58 => XtermColor::VerdunGreen,
            59 => XtermColor::Scorpion,
            60 => XtermColor::Comet,
            61 => XtermColor::Scampi,
            62 => XtermColor::Indigo,
            63 => XtermColor::CornflowerBlue,
            64 => XtermColor::Limeade,
            65 => XtermColor::GladeGreen,
            66 => XtermColor::Juniper,
            67 => XtermColor::HippieBlue,
            68 => XtermColor::HavelockBlue,
            69 => XtermColor::CornflowerBlue1,
            70 => XtermColor::Limeade1,
            71 => XtermColor::Fern,
            72 => XtermColor::SilverTree,
            73 => XtermColor::Tradewind,
            74 => XtermColor::Shakespeare,
            75 => XtermColor::Malibu,
            76 => XtermColor::BrightGreen,
            77 => XtermColor::PastelGreen,
            78 => XtermColor::PastelGreen1,
            79 => XtermColor::Downy,
            80 => XtermColor::Viking,
            81 => XtermColor::Malibu1,
            82 => XtermColor::BrightGreen1,
            83 => XtermColor::ScreaminGreen,
            84 => XtermColor::ScreaminGreen1,
            85 => XtermColor::Aquamarine,
            86 => XtermColor::Aquamarine1,
            87 => XtermColor::Aquamarine2,
            88 => XtermColor::Maroon1,
            89 => XtermColor::FreshEggplant1,
            90 => XtermColor::FreshEggplant2,
            91 => XtermColor::Purple1,
            92 => XtermColor::ElectricViolet2,
            93 => XtermColor::ElectricViolet3,
            94 => XtermColor::Brown,
            95 => XtermColor::CopperRose,
            96 => XtermColor::Strikemaster,
            97 => XtermColor::Deluge,
            98 => XtermColor::MediumPurple,
            99 => XtermColor::Heliotrope,
            100 => XtermColor::Olive1,
            101 => XtermColor::ClayCreek,
            102 => XtermColor::Gray1,
            103 => XtermColor::WildBlueYonder,
            104 => XtermColor::ChetwodeBlue,
            105 => XtermColor::Malibu2,
            106 => XtermColor::Limeade2,
            107 => XtermColor::ChelseaCucumber,
            108 => XtermColor::BayLeaf,
            109 => XtermColor::GulfStream,
            110 => XtermColor::PoloBlue,
            111 => XtermColor::Malibu3,
            112 => XtermColor::Pistachio,
            113 => XtermColor::PastelGreen2,
            114 => XtermColor::Feijoa,
            115 => XtermColor::VistaBlue,
            116 => XtermColor::Bermuda,
            117 => XtermColor::Anakiwa,
            118 => XtermColor::Chartreuse,
            119 => XtermColor::ScreaminGreen2,
            120 => XtermColor::MintGreen,
            121 => XtermColor::MintGreen1,
            122 => XtermColor::Aquamarine3,
            123 => XtermColor::Anakiwa1,
            124 => XtermColor::BrightRed,
            125 => XtermColor::Flirt,
            126 => XtermColor::Flirt1,
            127 => XtermColor::Flirt2,
            128 => XtermColor::ElectricViolet4,
            129 => XtermColor::ElectricViolet5,
            130 => XtermColor::RoseofSharon,
            131 => XtermColor::Matrix,
            132 => XtermColor::Tapestry,
            133 => XtermColor::FuchsiaPink,
            134 => XtermColor::MediumPurple1,
            135 => XtermColor::Heliotrope1,
            136 => XtermColor::PirateGold,
            137 => XtermColor::Muesli,
            138 => XtermColor::Pharlap,
            139 => XtermColor::Bouquet,
            140 => XtermColor::Lavender,
            141 => XtermColor::Heliotrope2,
            142 => XtermColor::BuddhaGold,
            143 => XtermColor::OliveGreen,
            144 => XtermColor::Hillary,
            145 => XtermColor::SilverChalice,
            146 => XtermColor::Wistful,
            147 => XtermColor::Melrose,
            148 => XtermColor::RioGrande,
            149 => XtermColor::Conifer,
            150 => XtermColor::Feijoa1,
            151 => XtermColor::PixieGreen,
            152 => XtermColor::JungleMist,
            153 => XtermColor::Anakiwa2,
            154 => XtermColor::Lime,
            155 => XtermColor::GreenYellow,
            156 => XtermColor::MintGreen2,
            157 => XtermColor::MintGreen3,
            158 => XtermColor::AeroBlue,
            159 => XtermColor::FrenchPass,
            160 => XtermColor::GuardsmanRed,
            161 => XtermColor::Razzmatazz,
            162 => XtermColor::HollywoodCerise,
            163 => XtermColor::HollywoodCerise1,
            164 => XtermColor::PurplePizzazz,
            165 => XtermColor::ElectricViolet6,
            166 => XtermColor::Tenn,
            167 => XtermColor::Roman,
            168 => XtermColor::Cranberry,
            169 => XtermColor::Hopbush,
            170 => XtermColor::Orchid,
            171 => XtermColor::Heliotrope3,
            172 => XtermColor::MangoTango,
            173 => XtermColor::Copperfield,
            174 => XtermColor::MyPink,
            175 => XtermColor::CanCan,
            176 => XtermColor::LightOrchid,
            177 => XtermColor::Heliotrope4,
            178 => XtermColor::Corn,
            179 => XtermColor::Tacha,
            180 => XtermColor::Tan,
            181 => XtermColor::ClamShell,
            182 => XtermColor::Thistle,
            183 => XtermColor::Mauve,
            184 => XtermColor::Corn1,
            185 => XtermColor::Tacha1,
            186 => XtermColor::Deco,
            187 => XtermColor::GreenMist,
            188 => XtermColor::Alto,
            189 => XtermColor::Fog,
            190 => XtermColor::ChartreuseYellow,
            191 => XtermColor::Canary,
            192 => XtermColor::Honeysuckle,
            193 => XtermColor::Reef,
            194 => XtermColor::SnowyMint,
            195 => XtermColor::OysterBay,
            196 => XtermColor::Red1,
            197 => XtermColor::Rose,
            198 => XtermColor::Rose1,
            199 => XtermColor::HollywoodCerise2,
            200 => XtermColor::PurplePizzazz1,
            201 => XtermColor::Fuchsia,
            202 => XtermColor::BlazeOrange,
            203 => XtermColor::Bittersweet,
            204 => XtermColor::WildWatermelon,
            205 => XtermColor::HotPink,
            206 => XtermColor::HotPink1,
            207 => XtermColor::PinkFlamingo,
            208 => XtermColor::FlushOrange,
            209 => XtermColor::Salmon,
            210 => XtermColor::VividTangerine,
            211 => XtermColor::PinkSalmon,
            212 => XtermColor::LavenderRose,
            213 => XtermColor::BlushPink,
            214 => XtermColor::YellowSea,
            215 => XtermColor::TexasRose,
            216 => XtermColor::HitPink,
            217 => XtermColor::Sundown,
            218 => XtermColor::CottonCandy,
            219 => XtermColor::LavenderRose1,
            220 => XtermColor::Gold,
            221 => XtermColor::Dandelion,
            222 => XtermColor::Grandis,
            223 => XtermColor::Caramel,
            224 => XtermColor::Cosmos,
            225 => XtermColor::PinkLace,
            226 => XtermColor::Yellow1,
            227 => XtermColor::LaserLemon,
            228 => XtermColor::Dolly,
            229 => XtermColor::Portafino,
            230 => XtermColor::Cumulus,
            231 => XtermColor::White1,
            232 => XtermColor::CodGray,
            233 => XtermColor::CodGray1,
            234 => XtermColor::CodGray2,
            235 => XtermColor::MineShaft,
            236 => XtermColor::MineShaft1,
            237 => XtermColor::MineShaft2,
            238 => XtermColor::Tundora,
            239 => XtermColor::Tundora1,
            240 => XtermColor::Scorpion1,
            241 => XtermColor::DoveGray,
            242 => XtermColor::DoveGray1,
            243 => XtermColor::Boulder,
            244 => XtermColor::Gray2,
            245 => XtermColor::Gray3,
            246 => XtermColor::DustyGray,
            247 => XtermColor::SilverChalice1,
            248 => XtermColor::SilverChalice2,
            249 => XtermColor::SilverChalice3,
            250 => XtermColor::Silver1,
            251 => XtermColor::Silver2,
            252 => XtermColor::Alto1,
            253 => XtermColor::Alto2,
            254 => XtermColor::Mercury,
            _ => XtermColor::Gallery,
        }
    }
}

impl Color for XtermColor {
    /// `ESC[38;5;<index>m` with the index written in decimal.
    open spec fn fg_seq(&self) -> Seq<char> {
        sgr(seq!['3', '8', ';', '5', ';'] + dec(self.index_spec()))
    }

    /// `ESC[48;5;<index>m` with the index written in decimal.
    open spec fn bg_seq(&self) -> Seq<char> {
        sgr(seq!['4', '8', ';', '5', ';'] + dec(self.index_spec()))
    }

    fn ansi_fg(&self) -> (r: String) {
        let mut s = String::new();
        push_csi(&mut s);
        push_digit(&mut s, 3);
        push_digit(&mut s, 8);
        push_semicolon(&mut s);
        push_digit(&mut s, 5);
        push_semicolon(&mut s);
        push_decimal(&mut s, self.index());
        push_sgr_end(&mut s);
        assert(s@ =~= self.fg_seq());
        s
    }

    fn ansi_bg(&self) -> (r: String) {
        let mut s = String::new();
        push_csi(&mut s);
        push_digit(&mut s, 4);
        push_digit(&mut s, 8);
        push_semicolon(&mut s);
        push_digit(&mut s, 5);
        push_semicolon(&mut s);
        push_decimal(&mut s, self.index());
        push_sgr_end(&mut s);
        assert(s@ =~= self.bg_seq());
        s
    }
}

/// Every palette entry's index lies between 0 and 255.
pub proof fn lemma_xterm_index_range(c: XtermColor)
    ensures
        0 <= c.index_spec() < 256,
{
}

/// No index is missing: every index in `0..256` has a palette entry that
/// carries exactly that index.
#[verifier::rlimit(60)]
pub proof fn lemma_xterm_all_indices_present(i: int)
    requires
        0 <= i < 256,
    ensures
        XtermColor::from_index_spec(i).index_spec() == i,
{
}

/// Looking an entry up by its own index gives the entry back.
#[verifier::rlimit(60)]
pub proof fn lemma_xterm_lookup_roundtrip(c: XtermColor)
    ensures
        XtermColor::from_index_spec(c.index_spec()) == c,
{
}

/// No index is duplicated: two palette entries with the same index are the
/// same entry, so index-to-entry is a bijection on `0..256`.
pub proof fn lemma_xterm_no_duplicate_indices(a: XtermColor, b: XtermColor)
    requires
        a.index_spec() == b.index_spec(),
    ensures
        a == b,
{
    lemma_xterm_lookup_roundtrip(a);
    lemma_xterm_lookup_roundtrip(b);
}

} // verus!
