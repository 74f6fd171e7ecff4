//! The level catalog: where each level's targets stand.
use vstd::prelude::*;
use crate::state::LevelState;

verus! {

/// A point of the map, each coordinate in ten-thousandths of a unit.
#[derive(Debug, Clone, Copy, PartialEq, Eq, Hash, Structural)]
pub struct Position {
    pub x: i32,
    pub y: i32,
    pub z: i32,
}

/// The point at the given coordinates.
pub open spec fn pos(x: int, y: int, z: int) -> Position {
    Position { x: x as i32, y: y as i32, z: z as i32 }
}

/// The spawn positions of the targets of each level, in spawn order.
#[derive(Debug, Clone)]
pub struct LevelController {
    pub level_1_pos: Vec<Position>,
    pub level_2_pos: Vec<Position>,
    pub level_3_pos: Vec<Position>,
    pub level_4_pos: Vec<Position>,
    pub level_5_pos: Vec<Position>,
}

/// Target positions of level 1.
pub open spec fn level_1_positions() -> Seq<Position> {
    seq![
        pos(-281820, 17458, 96431),
        pos(-279758, 17657, -38952),
        pos(-181986, 9645, -101506),
        pos(-134816, 9645, -2423),
        pos(-142918, 9625, -86672),
        pos(-80804, 11772, -97454),
        pos(-7965, -7379, 21551),
        pos(-8334, -7380, 84862),
    ]
}

/// Target positions of level 2.
pub open spec fn level_2_positions() -> Seq<Position> {
    seq![
        pos(-282415, 17605, 144738),
        pos(-196705, 26669, 246628),
        pos(-197269, 22412, 159171),
        pos(-87544, 22123, 201367),
        pos(-106621, 22412, 91706),
        pos(-110602, 9644, 74012),
        pos(-27770, 11772, 52681),
        pos(-26943, 9644, -8119),
        pos(-7965, -7379, 21551),
        pos(-8334, -7380, 84862),
    ]
}

/// Target positions of level 3.
pub open spec fn level_3_positions() -> Seq<Position> {
    seq![
        pos(18366, -7378, 68549),
        pos(-8564, -6526, 170824),
        pos(117847, 9646, 117717),
        pos(118357, 28061, 188277),
        pos(180843, 9646, 57995),
        pos(136402, 10901, 211543),
        pos(210215, 13902, 196036),
        pos(230519, 9646, 91037),
        pos(240151, 13902, 8389),
        pos(161834, 13902, -26661),
        pos(111210, 16030, 262),
        pos(92560, -5250, 42158),
        pos(-4572, -7378, 48973),
        pos(21751, 9646, -97511),
        pos(-81157, 11774, -95717),
        pos(-69634, 9646, -150531),
        pos(-122266, 9646, -91360),
        pos(-120709, 9646, -21852),
        pos(-193793, 9646, -90469),
        pos(-279691, 18158, -39547),
        pos(-282681, 17674, 96386),
        pos(-187076, 9646, 119895),
        pos(-124635, 14966, 159092),
    ]
}

/// Target positions of level 4.
pub open spec fn level_4_positions() -> Seq<Position> {
    seq![
        pos(-8194, -7378, 85195),
        pos(18417, -7378, 69533),
        pos(-8339, -7378, 44565),
        pos(-8411, -7378, 21493),
        pos(29636, -5250, 44072),
        pos(77630, -5250, 16883),
        pos(111173, -5250, 34607),
        pos(98671, 5345, -12861),
        pos(117012, 16030, 692),
        pos(162427, 13902, -25623),
        pos(184266, 13902, 24782),
        pos(150755, 13902, -76254),
        pos(207092, 13902, -86108),
        pos(145865, 9646, -109152),
        pos(248156, 26670, -231453),
        pos(151152, 22414, -165035),
        pos(148551, 26670, -217773),
        pos(147174, 29725, -289628),
        pos(98590, 30031, -290852),
        pos(67452, 26670, -244628),
        pos(65197, 29918, -290397),
        pos(-91692, 9646, -273666),
        pos(18755, 9646, -235141),
        pos(18435, 9646, -160974),
        pos(46532, 9646, -117088),
        pos(-28621, 9646, -89558),
        pos(-143503, 9646, -130970),
        pos(-121312, 9646, -89037),
        pos(-117984, 9646, -41887),
        pos(-164408, 9646, -52008),
        pos(-191068, 9646, -89071),
        pos(-239353, -15890, -132769),
        pos(-272306, 18158, -98214),
        pos(-275919, 18158, -39932),
        pos(-225547, 9646, 10527),
        pos(-279728, 16936, 96746),
        pos(-280014, 17008, 144763),
        pos(-219798, 14630, 167881),
        pos(-197779, 26670, 248226),
        pos(-186064, 22414, 178125),
        pos(-87551, 22414, 202009),
        pos(-109351, 22414, 133290),
        pos(-109078, 22414, 89241),
        pos(-108079, 9646, 62139),
        pos(-50401, 9646, 34032),
        pos(-27286, 11774, 52457),
    ]
}

/// Target positions of level 5.
pub open spec fn level_5_positions() -> Seq<Position> {
    seq![
        pos(-6412, -7378, 71164),
        pos(16670, -7378, 70010),
        pos(-7431, -4742, 169093),
        pos(67045, 1932, 191925),
        pos(117762, 24340, 191522),
        pos(115851, 9646, 120045),
        pos(139705, 9646, 102141),
        pos(177754, 9646, 61688),
        pos(176912, 23839, 180894),
        pos(137182, 10790, 211960),
        pos(176703, 9647, 209911),
        pos(216996, 13902, 197469),
        pos(225006, 13902, 250933),
        pos(196402, 9646, 92387),
        pos(230919, 9646, 94590),
        pos(180257, 13902, 23925),
        pos(238587, 13902, 7156),
        pos(163217, 13902, -25154),
        pos(135940, 13902, 8169),
        pos(148941, 13902, -71904),
        pos(210214, 13902, -77979),
        pos(221341, 9646, -114787),
        pos(147329, 9646, -98902),
        pos(194653, 17562, -206927),
        pos(243389, 26670, -234303),
        pos(216162, 29584, -289062),
        pos(151401, 22414, -167951),
        pos(88826, 28898, -203690),
        pos(68325, 26670, -244480),
        pos(68238, 30130, -291245),
        pos(-25150, 18341, -290815),
        pos(-91304, 9646, -273654),
        pos(-60983, 9646, -225966),
        pos(18303, 9646, -234483),
        pos(18022, 9646, -162652),
        pos(35292, 9646, -117815),
        pos(16000, 9646, -77739),
        pos(32915, 9646, -93833),
        pos(-20510, 9646, -115675),
        pos(-80399, 11774, -97182),
        pos(-63889, 9646, -125047),
        pos(-141784, 9646, -130022),
        pos(-120466, 9646, -92751),
        pos(-119041, 9646, -45474),
        pos(-143086, 9646, -2996),
        pos(-193886, 9646, -92222),
        pos(-234931, -15890, -139355),
        pos(-272601, 18158, -97836),
        pos(-273486, 18158, -69392),
        pos(-274452, 18158, -38519),
        pos(-223242, 9646, 25074),
        pos(-254838, 10714, 26171),
        pos(-281668, 17421, 96558),
        pos(-281497, 17378, 144400),
        pos(-200641, 9646, 132482),
        pos(-256465, 28145, 247135),
        pos(-189272, 35182, 244650),
        pos(-189580, 22414, 186402),
        pos(-210479, 22414, 156339),
        pos(-137131, 22415, 195801),
        pos(-89971, 22414, 167124),
        pos(-111697, 22414, 117399),
        pos(-109501, 22414, 88460),
        pos(-109189, 9646, 57322),
        pos(-72235, 9646, 32609),
        pos(-26392, 11774, 52141),
        pos(-21854, 9646, -32540),
        pos(-8358, -7378, 21606),
        pos(16010, -7378, 50437),
        pos(32390, -5250, 16187),
        pos(32527, -5250, 42351),
        pos(77485, -5250, 16004),
        pos(112624, -5250, 35596),
        pos(98675, 5495, -13613),
        pos(109497, 16030, 9789),
    ]
}

/// The five position lists of the map, first level first.
pub open spec fn default_catalog() -> Seq<Seq<Position>> {
    seq![
        level_1_positions(),
        level_2_positions(),
        level_3_positions(),
        level_4_positions(),
        level_5_positions(),
    ]
}

impl LevelController {
    /// The five position lists, first level first.
    pub open spec fn view(&self) -> Seq<Seq<Position>> {
        seq![
            self.level_1_pos@,
            self.level_2_pos@,
            self.level_3_pos@,
            self.level_4_pos@,
            self.level_5_pos@,
        ]
    }

    /// The positions of a playable level.
    pub open spec fn spec_positions(&self, level: LevelState) -> Seq<Position> {
        self@[level.index()]
    }

    pub fn positions(&self, level: LevelState) -> (r: &Vec<Position>)
        requires
            level.spec_is_playable(),
        ensures
            r@ == self.spec_positions(level),
    {
        match level {
            LevelState::Level2 => &self.level_2_pos,
            LevelState::Level3 => &self.level_3_pos,
            LevelState::Level4 => &self.level_4_pos,
            LevelState::Level5 => &self.level_5_pos,
            _ => &self.level_1_pos,
        }
    }

    /// The catalog of the five levels of the map.
    pub fn default() -> (r: LevelController)
        ensures
            r@ == default_catalog(),
            r.level_1_pos@ == level_1_positions(),
            r.level_2_pos@ == level_2_positions(),
            r.level_3_pos@ == level_3_positions(),
            r.level_4_pos@ == level_4_positions(),
            r.level_5_pos@ == level_5_positions(),
    {
        LevelController {
            level_1_pos: vec![
                Position { x: -281820, y: 17458, z: 96431 },
                Position { x: -279758, y: 17657, z: -38952 },
                Position { x: -181986, y: 9645, z: -101506 },
                Position { x: -134816, y: 9645, z: -2423 },
                Position { x: -142918, y: 9625, z: -86672 },
                Position { x: -80804, y: 11772, z: -97454 },
                Position { x: -7965, y: -7379, z: 21551 },
                Position { x: -8334, y: -7380, z: 84862 },
            ],
            level_2_pos: vec![
                Position { x: -282415, y: 17605, z: 144738 },
                Position { x: -196705, y: 26669, z: 246628 },
                Position { x: -197269, y: 22412, z: 159171 },
                Position { x: -87544, y: 22123, z: 201367 },
                Position { x: -106621, y: 22412, z: 91706 },
                Position { x: -110602, y: 9644, z: 74012 },
                Position { x: -27770, y: 11772, z: 52681 },
                Position { x: -26943, y: 9644, z: -8119 },
                Position { x: -7965, y: -7379, z: 21551 },
                Position { x: -8334, y: -7380, z: 84862 },
            ],
            level_3_pos: vec![
                Position { x: 18366, y: -7378, z: 68549 },
                Position { x: -8564, y: -6526, z: 170824 },
                Position { x: 117847, y: 9646, z: 117717 },
                Position { x: 118357, y: 28061, z: 188277 },
                Position { x: 180843, y: 9646, z: 57995 },
                Position { x: 136402, y: 10901, z: 211543 },
                Position { x: 210215, y: 13902, z: 196036 },
                Position { x: 230519, y: 9646, z: 91037 },
                Position { x: 240151, y: 13902, z: 8389 },
                Position { x: 161834, y: 13902, z: -26661 },
                Position { x: 111210, y: 16030, z: 262 },
                Position { x: 92560, y: -5250, z: 42158 },
                Position { x: -4572, y: -7378, z: 48973 },
                Position { x: 21751, y: 9646, z: -97511 },
                Position { x: -81157, y: 11774, z: -95717 },
                Position { x: -69634, y: 9646, z: -150531 },
                Position { x: -122266, y: 9646, z: -91360 },
                Position { x: -120709, y: 9646, z: -21852 },
                Position { x: -193793, y: 9646, z: -90469 },
                Position { x: -279691, y: 18158, z: -39547 },
                Position { x: -282681, y: 17674, z: 96386 },
                Position { x: -187076, y: 9646, z: 119895 },
                Position { x: -124635, y: 14966, z: 159092 },
            ],
            level_4_pos: vec![
                Position { x: -8194, y: -7378, z: 85195 },
                Position { x: 18417, y: -7378, z: 69533 },
                Position { x: -8339, y: -7378, z: 44565 },
                Position { x: -8411, y: -7378, z: 21493 },
                Position { x: 29636, y: -5250, z: 44072 },
                Position { x: 77630, y: -5250, z: 16883 },
                Position { x: 111173, y: -5250, z: 34607 },
                Position { x: 98671, y: 5345, z: -12861 },
                Position { x: 117012, y: 16030, z: 692 },
                Position { x: 162427, y: 13902, z: -25623 },
                Position { x: 184266, y: 13902, z: 24782 },
                Position { x: 150755, y: 13902, z: -76254 },
                Position { x: 207092, y: 13902, z: -86108 },
                Position { x: 145865, y: 9646, z: -109152 },
                Position { x: 248156, y: 26670, z: -231453 },
                Position { x: 151152, y: 22414, z: -165035 },
                Position { x: 148551, y: 26670, z: -217773 },
                Position { x: 147174, y: 29725, z: -289628 },
                Position { x: 98590, y: 30031, z: -290852 },
                Position { x: 67452, y: 26670, z: -244628 },
                Position { x: 65197, y: 29918, z: -290397 },
                Position { x: -91692, y: 9646, z: -273666 },
                Position { x: 18755, y: 9646, z: -235141 },
                Position { x: 18435, y: 9646, z: -160974 },
                Position { x: 46532, y: 9646, z: -117088 },
                Position { x: -28621, y: 9646, z: -89558 },
                Position { x: -143503, y: 9646, z: -130970 },
                Position { x: -121312, y: 9646, z: -89037 },
                Position { x: -117984, y: 9646, z: -41887 },
                Position { x: -164408, y: 9646, z: -52008 },
                Position { x: -191068, y: 9646, z: -89071 },
                Position { x: -239353, y: -15890, z: -132769 },
                Position { x: -272306, y: 18158, z: -98214 },
                Position { x: -275919, y: 18158, z: -39932 },
                Position { x: -225547, y: 9646, z: 10527 },
                Position { x: -279728, y: 16936, z: 96746 },
                Position { x: -280014, y: 17008, z: 144763 },
                Position { x: -219798, y: 14630, z: 167881 },
                Position { x: -197779, y: 26670, z: 248226 },
                Position { x: -186064, y: 22414, z: 178125 },
                Position { x: -87551, y: 22414, z: 202009 },
                Position { x: -109351, y: 22414, z: 133290 },
                Position { x: -109078, y: 22414, z: 89241 },
                Position { x: -108079, y: 9646, z: 62139 },
                Position { x: -50401, y: 9646, z: 34032 },
                Position { x: -27286, y: 11774, z: 52457 },
            ],
            level_5_pos: vec![
                Position { x: -6412, y: -7378, z: 71164 },
                Position { x: 16670, y: -7378, z: 70010 },
                Position { x: -7431, y: -4742, z: 169093 },
                Position { x: 67045, y: 1932, z: 191925 },
                Position { x: 117762, y: 24340, z: 191522 },
                Position { x: 115851, y: 9646, z: 120045 },
                Position { x: 139705, y: 9646, z: 102141 },
                Position { x: 177754, y: 9646, z: 61688 },
                Position { x: 176912, y: 23839, z: 180894 },
                Position { x: 137182, y: 10790, z: 211960 },
                Position { x: 176703, y: 9647, z: 209911 },
                Position { x: 216996, y: 13902, z: 197469 },
                Position { x: 225006, y: 13902, z: 250933 },
                Position { x: 196402, y: 9646, z: 92387 },
                Position { x: 230919, y: 9646, z: 94590 },
                Position { x: 180257, y: 13902, z: 23925 },
                Position { x: 238587, y: 13902, z: 7156 },
                Position { x: 163217, y: 13902, z: -25154 },
                Position { x: 135940, y: 13902, z: 8169 },
                Position { x: 148941, y: 13902, z: -71904 },
                Position { x: 210214, y: 13902, z: -77979 },
                Position { x: 221341, y: 9646, z: -114787 },
                Position { x: 147329, y: 9646, z: -98902 },
                Position { x: 194653, y: 17562, z: -206927 },
                Position { x: 243389, y: 26670, z: -234303 },
                Position { x: 216162, y: 29584, z: -289062 },
                Position { x: 151401, y: 22414, z: -167951 },
                Position { x: 88826, y: 28898, z: -203690 },
                Position { x: 68325, y: 26670, z: -244480 },
                Position { x: 68238, y: 30130, z: -291245 },
                Position { x: -25150, y: 18341, z: -290815 },
                Position { x: -91304, y: 9646, z: -273654 },
                Position { x: -60983, y: 9646, z: -225966 },
                Position { x: 18303, y: 9646, z: -234483 },
                Position { x: 18022, y: 9646, z: -162652 },
                Position { x: 35292, y: 9646, z: -117815 },
                Position { x: 16000, y: 9646, z: -77739 },
                Position { x: 32915, y: 9646, z: -93833 },
                Position { x: -20510, y: 9646, z: -115675 },
                Position { x: -80399, y: 11774, z: -97182 },
                Position { x: -63889, y: 9646, z: -125047 },
                Position { x: -141784, y: 9646, z: -130022 },
                Position { x: -120466, y: 9646, z: -92751 },
                Position { x: -119041, y: 9646, z: -45474 },
                Position { x: -143086, y: 9646, z: -2996 },
                Position { x: -193886, y: 9646, z: -92222 },
                Position { x: -234931, y: -15890, z: -139355 },
                Position { x: -272601, y: 18158, z: -97836 },
                Position { x: -273486, y: 18158, z: -69392 },
                Position { x: -274452, y: 18158, z: -38519 },
                Position { x: -223242, y: 9646, z: 25074 },
                Position { x: -254838, y: 10714, z: 26171 },
                Position { x: -281668, y: 17421, z: 96558 },
                Position { x: -281497, y: 17378, z: 144400 },
                Position { x: -200641, y: 9646, z: 132482 },
                Position { x: -256465, y: 28145, z: 247135 },
                Position { x: -189272, y: 35182, z: 244650 },
                Position { x: -189580, y: 22414, z: 186402 },
                Position { x: -210479, y: 22414, z: 156339 },
                Position { x: -137131, y: 22415, z: 195801 },
                Position { x: -89971, y: 22414, z: 167124 },
                Position { x: -111697, y: 22414, z: 117399 },
                Position { x: -109501, y: 22414, z: 88460 },
                Position { x: -109189, y: 9646, z: 57322 },
                Position { x: -72235, y: 9646, z: 32609 },
                Position { x: -26392, y: 11774, z: 52141 },
                Position { x: -21854, y: 9646, z: -32540 },
                Position { x: -8358, y: -7378, z: 21606 },
                Position { x: 16010, y: -7378, z: 50437 },
                Position { x: 32390, y: -5250, z: 16187 },
                Position { x: 32527, y: -5250, z: 42351 },
                Position { x: 77485, y: -5250, z: 16004 },
                Position { x: 112624, y: -5250, z: 35596 },
                Position { x: 98675, y: 5495, z: -13613 },
                Position { x: 109497, y: 16030, z: 9789 },
            ],
        }
    }
}

} // verus!
