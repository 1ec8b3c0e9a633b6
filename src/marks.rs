//! The closed tables of marks that the model chooses from.

use vstd::prelude::*;

verus! {

/// Appends one character to a string.
///
/// Relies on `String::push`: the character is added at the end and the
/// rest of the string is kept.
pub assume_specification[ String::push ](s: &mut String, ch: char)
    ensures
        final(s)@ == old(s)@.push(ch),
;

/// The vowel-pointing outcomes that the model predicts for one letter, in
/// the order of the model's classes.
///
/// `MatresLectionis` is no mark of its own: it says that the letter is a
/// candidate for the caller's matres-lectionis mark.
#[derive(Clone, Copy, Debug, PartialEq, Eq, Structural)]
pub enum NikudClass {
    NoMark,
    MatresLectionis,
    Dagesh,
    Shva,
    HatafSegol,
    HatafPatah,
    HatafQamats,
    Hiriq,
    Tsere,
    Segol,
    Patah,
    Qamats,
    Holam,
    HolamHaser,
    Qubuts,
    DageshShva,
    DageshHatafSegol,
    DageshHatafPatah,
    DageshHatafQamats,
    DageshHiriq,
    DageshTsere,
    DageshSegol,
    DageshPatah,
    DageshQamats,
    DageshHolam,
    DageshHolamHaser,
    DageshQubuts,
    QamatsQatan,
    DageshQamatsQatan,
}

/// The number of nikud classes that the model scores.
pub const NIKUD_CLASS_COUNT: usize = 29;

/// The class at a position of the model's nikud scores, if there is one.
pub open spec fn nikud_class_at(k: int) -> Option<NikudClass> {
    if k == 0 {
        Some(NikudClass::NoMark)
    } else if k == 1 {
        Some(NikudClass::MatresLectionis)
    } else if k == 2 {
        Some(NikudClass::Dagesh)
    } else if k == 3 {
        Some(NikudClass::Shva)
    } else if k == 4 {
        Some(NikudClass::HatafSegol)
    } else if k == 5 {
        Some(NikudClass::HatafPatah)
    } else if k == 6 {
        Some(NikudClass::HatafQamats)
    } else if k == 7 {
        Some(NikudClass::Hiriq)
    } else if k == 8 {
        Some(NikudClass::Tsere)
    } else if k == 9 {
        Some(NikudClass::Segol)
    } else if k == 10 {
        Some(NikudClass::Patah)
    } else if k == 11 {
        Some(NikudClass::Qamats)
    } else if k == 12 {
        Some(NikudClass::Holam)
    } else if k == 13 {
        Some(NikudClass::HolamHaser)
    } else if k == 14 {
        Some(NikudClass::Qubuts)
    } else if k == 15 {
        Some(NikudClass::DageshShva)
    } else if k == 16 {
        Some(NikudClass::DageshHatafSegol)
    } else if k == 17 {
        Some(NikudClass::DageshHatafPatah)
    } else if k == 18 {
        Some(NikudClass::DageshHatafQamats)
    } else if k == 19 {
        Some(NikudClass::DageshHiriq)
    } else if k == 20 {
        Some(NikudClass::DageshTsere)
    } else if k == 21 {
        Some(NikudClass::DageshSegol)
    } else if k == 22 {
        Some(NikudClass::DageshPatah)
    } else if k == 23 {
        Some(NikudClass::DageshQamats)
    } else if k == 24 {
        Some(NikudClass::DageshHolam)
    } else if k == 25 {
        Some(NikudClass::DageshHolamHaser)
    } else if k == 26 {
        Some(NikudClass::DageshQubuts)
    } else if k == 27 {
        Some(NikudClass::QamatsQatan)
    } else if k == 28 {
        Some(NikudClass::DageshQamatsQatan)
    } else {
        None
    }
}

/// The combining marks written after a letter for a nikud class (empty for
/// `NoMark`, and for the matres-lectionis placeholder, which has none).
pub open spec fn nikud_mark(c: NikudClass) -> Seq<char> {
    match c {
        NikudClass::NoMark => Seq::empty(),
        NikudClass::MatresLectionis => Seq::empty(),
        NikudClass::Dagesh => seq!['\u{05bc}'],
        NikudClass::Shva => seq!['\u{05b0}'],
        NikudClass::HatafSegol => seq!['\u{05b1}'],
        NikudClass::HatafPatah => seq!['\u{05b2}'],
        NikudClass::HatafQamats => seq!['\u{05b3}'],
        NikudClass::Hiriq => seq!['\u{05b4}'],
        NikudClass::Tsere => seq!['\u{05b5}'],
        NikudClass::Segol => seq!['\u{05b6}'],
        NikudClass::Patah => seq!['\u{05b7}'],
        NikudClass::Qamats => seq!['\u{05b8}'],
        NikudClass::Holam => seq!['\u{05b9}'],
        NikudClass::HolamHaser => seq!['\u{05ba}'],
        NikudClass::Qubuts => seq!['\u{05bb}'],
        NikudClass::DageshShva => seq!['\u{05bc}', '\u{05b0}'],
        NikudClass::DageshHatafSegol => seq!['\u{05bc}', '\u{05b1}'],
        NikudClass::DageshHatafPatah => seq!['\u{05bc}', '\u{05b2}'],
        NikudClass::DageshHatafQamats => seq!['\u{05bc}', '\u{05b3}'],
        NikudClass::DageshHiriq => seq!['\u{05bc}', '\u{05b4}'],
        NikudClass::DageshTsere => seq!['\u{05bc}', '\u{05b5}'],
        NikudClass::DageshSegol => seq!['\u{05bc}', '\u{05b6}'],
        NikudClass::DageshPatah => seq!['\u{05bc}', '\u{05b7}'],
        NikudClass::DageshQamats => seq!['\u{05bc}', '\u{05b8}'],
        NikudClass::DageshHolam => seq!['\u{05bc}', '\u{05b9}'],
        NikudClass::DageshHolamHaser => seq!['\u{05bc}', '\u{05ba}'],
        NikudClass::DageshQubuts => seq!['\u{05bc}', '\u{05bb}'],
        NikudClass::QamatsQatan => seq!['\u{05c7}'],
        NikudClass::DageshQamatsQatan => seq!['\u{05bc}', '\u{05c7}'],
    }
}

impl NikudClass {
    /// The class at position `k` of the model's nikud scores; `None` past
    /// the end of the table.
    pub fn from_index(k: usize) -> (r: Option<NikudClass>)
        ensures
            r == nikud_class_at(k as int),
    {
        match k {
            0 => Some(NikudClass::NoMark),
            1 => Some(NikudClass::MatresLectionis),
            2 => Some(NikudClass::Dagesh),
            3 => Some(NikudClass::Shva),
            4 => Some(NikudClass::HatafSegol),
            5 => Some(NikudClass::HatafPatah),
            6 => Some(NikudClass::HatafQamats),
            7 => Some(NikudClass::Hiriq),
            8 => Some(NikudClass::Tsere),
            9 => Some(NikudClass::Segol),
            10 => Some(NikudClass::Patah),
            11 => Some(NikudClass::Qamats),
            12 => Some(NikudClass::Holam),
            13 => Some(NikudClass::HolamHaser),
            14 => Some(NikudClass::Qubuts),
            15 => Some(NikudClass::DageshShva),
            16 => Some(NikudClass::DageshHatafSegol),
            17 => Some(NikudClass::DageshHatafPatah),
            18 => Some(NikudClass::DageshHatafQamats),
            19 => Some(NikudClass::DageshHiriq),
            20 => Some(NikudClass::DageshTsere),
            21 => Some(NikudClass::DageshSegol),
            22 => Some(NikudClass::DageshPatah),
            23 => Some(NikudClass::DageshQamats),
            24 => Some(NikudClass::DageshHolam),
            25 => Some(NikudClass::DageshHolamHaser),
            26 => Some(NikudClass::DageshQubuts),
            27 => Some(NikudClass::QamatsQatan),
            28 => Some(NikudClass::DageshQamatsQatan),
            _ => None,
        }
    }

    /// Appends the class's combining marks to `out`.
    pub fn push_mark(self, out: &mut String)
        ensures
            final(out)@ == old(out)@ + nikud_mark(self),
    {
        match self {
            NikudClass::NoMark => {},
            NikudClass::MatresLectionis => {},
            NikudClass::Dagesh => {
                out.push('\u{05bc}');
            },
            NikudClass::Shva => {
                out.push('\u{05b0}');
            },
            NikudClass::HatafSegol => {
                out.push('\u{05b1}');
            },
            NikudClass::HatafPatah => {
                out.push('\u{05b2}');
            },
            NikudClass::HatafQamats => {
                out.push('\u{05b3}');
            },
            NikudClass::Hiriq => {
                out.push('\u{05b4}');
            },
            NikudClass::Tsere => {
                out.push('\u{05b5}');
            },
            NikudClass::Segol => {
                out.push('\u{05b6}');
            },
            NikudClass::Patah => {
                out.push('\u{05b7}');
            },
            NikudClass::Qamats => {
                out.push('\u{05b8}');
            },
            NikudClass::Holam => {
                out.push('\u{05b9}');
            },
            NikudClass::HolamHaser => {
                out.push('\u{05ba}');
            },
            NikudClass::Qubuts => {
                out.push('\u{05bb}');
            },
            NikudClass::DageshShva => {
                out.push('\u{05bc}'); out.push('\u{05b0}');
            },
            NikudClass::DageshHatafSegol => {
                out.push('\u{05bc}'); out.push('\u{05b1}');
            },
            NikudClass::DageshHatafPatah => {
                out.push('\u{05bc}'); out.push('\u{05b2}');
            },
            NikudClass::DageshHatafQamats => {
                out.push('\u{05bc}'); out.push('\u{05b3}');
            },
            NikudClass::DageshHiriq => {
                out.push('\u{05bc}'); out.push('\u{05b4}');
            },
            NikudClass::DageshTsere => {
                out.push('\u{05bc}'); out.push('\u{05b5}');
            },
            NikudClass::DageshSegol => {
                out.push('\u{05bc}'); out.push('\u{05b6}');
            },
            NikudClass::DageshPatah => {
                out.push('\u{05bc}'); out.push('\u{05b7}');
            },
            NikudClass::DageshQamats => {
                out.push('\u{05bc}'); out.push('\u{05b8}');
            },
            NikudClass::DageshHolam => {
                out.push('\u{05bc}'); out.push('\u{05b9}');
            },
            NikudClass::DageshHolamHaser => {
                out.push('\u{05bc}'); out.push('\u{05ba}');
            },
            NikudClass::DageshQubuts => {
                out.push('\u{05bc}'); out.push('\u{05bb}');
            },
            NikudClass::QamatsQatan => {
                out.push('\u{05c7}');
            },
            NikudClass::DageshQamatsQatan => {
                out.push('\u{05bc}'); out.push('\u{05c7}');
            },
        }
        proof {
            assert(final(out)@ =~= old(out)@ + nikud_mark(self));
        }
    }
}

/// The two readings of the letter shin, in the order of the model's classes.
#[derive(Clone, Copy, Debug, PartialEq, Eq, Structural)]
pub enum ShinClass {
    Shin,
    Sin,
}

/// The number of shin/sin classes that the model scores.
pub const SHIN_CLASS_COUNT: usize = 2;

/// The class at a position of the model's shin/sin scores, if there is one.
pub open spec fn shin_class_at(k: int) -> Option<ShinClass> {
    if k == 0 {
        Some(ShinClass::Shin)
    } else if k == 1 {
        Some(ShinClass::Sin)
    } else {
        None
    }
}

/// The dot written after a shin: U+05C1 on the right, U+05C2 on the left.
pub open spec fn shin_mark(c: ShinClass) -> char {
    match c {
        ShinClass::Shin => '\u{05c1}',
        ShinClass::Sin => '\u{05c2}',
    }
}

impl ShinClass {
    /// The class at position `k` of the model's shin/sin scores; `None` past
    /// the end of the table.
    pub fn from_index(k: usize) -> (r: Option<ShinClass>)
        ensures
            r == shin_class_at(k as int),
    {
        match k {
            0 => Some(ShinClass::Shin),
            1 => Some(ShinClass::Sin),
            _ => None,
        }
    }

    /// The dot for this class.
    pub fn mark(self) -> (r: char)
        ensures
            r == shin_mark(self),
    {
        match self {
            ShinClass::Shin => '\u{05c1}',
            ShinClass::Sin => '\u{05c2}',
        }
    }
}

/// The stress mark (ole, U+05AB).
pub const STRESS_MARK: char = '\u{05ab}';

/// The vocal-shva mark (meteg, U+05BD).
pub const VOCAL_SHVA_MARK: char = '\u{05bd}';

} // verus!
