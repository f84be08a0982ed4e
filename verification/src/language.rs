//! The boundary's language codes: the wire protocol identifies a language
//! by a single byte, in the fixed order below. Decoding validates the byte
//! instead of reinterpreting it, so an out-of-range code is rejected rather
//! than producing an undefined language.

use vstd::prelude::*;

use crate::errors::BertError;

verus! {

/// A language the translation pipeline can be asked to use as a source or a
/// target. The order of the variants fixes the wire code of each: the first
/// variant is code 0, the next code 1, and so on.
#[derive(Clone, Copy, Debug, PartialEq, Eq, Structural)]
pub enum Language {
    Afrikaans,
    Danish,
    Dutch,
    German,
    English,
    Icelandic,
    Luxembourgish,
    Norwegian,
    Swedish,
    WesternFrisian,
    Yiddish,
    Asturian,
    Catalan,
    French,
    Galician,
    Italian,
    Occitan,
    Portuguese,
    Romanian,
    Spanish,
    Belarusian,
    Bosnian,
    Bulgarian,
    Croatian,
    Czech,
    Macedonian,
    Polish,
    Russian,
    Serbian,
    Slovak,
    Slovenian,
    Ukrainian,
    Estonian,
    Finnish,
    Hungarian,
    Latvian,
    Lithuanian,
    Albanian,
    Armenian,
    Georgian,
    Greek,
    Breton,
    Irish,
    ScottishGaelic,
    Welsh,
    Azerbaijani,
    Bashkir,
    Kazakh,
    Turkish,
    Uzbek,
    Japanese,
    Korean,
    Vietnamese,
    ChineseMandarin,
    Bengali,
    Gujarati,
    Hindi,
    Kannada,
    Marathi,
    Nepali,
    Oriya,
    Panjabi,
    Sindhi,
    Sinhala,
    Urdu,
    Tamil,
    Cebuano,
    Iloko,
    Indonesian,
    Javanese,
    Malagasy,
    Malay,
    Malayalam,
    Sundanese,
    Tagalog,
    Burmese,
    CentralKhmer,
    Lao,
    Thai,
    Mongolian,
    Arabic,
    Hebrew,
    Pashto,
    Farsi,
    Amharic,
    Fulah,
    Hausa,
    Igbo,
    Lingala,
    Luganda,
    NorthernSotho,
    Somali,
    Swahili,
    Swati,
    Tswana,
    Wolof,
    Xhosa,
    Yoruba,
    Zulu,
    HaitianCreole,
}

impl Language {
    /// The language a wire code names, if any: code `n` names the `n`-th
    /// variant, and codes past the last variant name none.
    pub open spec fn spec_from_u8(code: u8) -> Option<Language> {
        match code {
            0u8 => Some(Language::Afrikaans),
            1u8 => Some(Language::Danish),
            2u8 => Some(Language::Dutch),
            3u8 => Some(Language::German),
            4u8 => Some(Language::English),
            5u8 => Some(Language::Icelandic),
            6u8 => Some(Language::Luxembourgish),
            7u8 => Some(Language::Norwegian),
            8u8 => Some(Language::Swedish),
            9u8 => Some(Language::WesternFrisian),
            10u8 => Some(Language::Yiddish),
            11u8 => Some(Language::Asturian),
            12u8 => Some(Language::Catalan),
            13u8 => Some(Language::French),
            14u8 => Some(Language::Galician),
            15u8 => Some(Language::Italian),
            16u8 => Some(Language::Occitan),
            17u8 => Some(Language::Portuguese),
            18u8 => Some(Language::Romanian),
            19u8 => Some(Language::Spanish),
            20u8 => Some(Language::Belarusian),
            21u8 => Some(Language::Bosnian),
            22u8 => Some(Language::Bulgarian),
            23u8 => Some(Language::Croatian),
            24u8 => Some(Language::Czech),
            25u8 => Some(Language::Macedonian),
            26u8 => Some(Language::Polish),
            27u8 => Some(Language::Russian),
            28u8 => Some(Language::Serbian),
            29u8 => Some(Language::Slovak),
            30u8 => Some(Language::Slovenian),
            31u8 => Some(Language::Ukrainian),
            32u8 => Some(Language::Estonian),
            33u8 => Some(Language::Finnish),
            34u8 => Some(Language::Hungarian),
            35u8 => Some(Language::Latvian),
            36u8 => Some(Language::Lithuanian),
            37u8 => Some(Language::Albanian),
            38u8 => Some(Language::Armenian),
            39u8 => Some(Language::Georgian),
            40u8 => Some(Language::Greek),
            41u8 => Some(Language::Breton),
            42u8 => Some(Language::Irish),
            43u8 => Some(Language::ScottishGaelic),
            44u8 => Some(Language::Welsh),
            45u8 => Some(Language::Azerbaijani),
            46u8 => Some(Language::Bashkir),
            47u8 => Some(Language::Kazakh),
            48u8 => Some(Language::Turkish),
            49u8 => Some(Language::Uzbek),
            50u8 => Some(Language::Japanese),
            51u8 => Some(Language::Korean),
            52u8 => Some(Language::Vietnamese),
            53u8 => Some(Language::ChineseMandarin),
            54u8 => Some(Language::Bengali),
            55u8 => Some(Language::Gujarati),
            56u8 => Some(Language::Hindi),
            57u8 => Some(Language::Kannada),
            58u8 => Some(Language::Marathi),
            59u8 => Some(Language::Nepali),
            60u8 => Some(Language::Oriya),
            61u8 => Some(Language::Panjabi),
            62u8 => Some(Language::Sindhi),
            63u8 => Some(Language::Sinhala),
            64u8 => Some(Language::Urdu),
            65u8 => Some(Language::Tamil),
            66u8 => Some(Language::Cebuano),
            67u8 => Some(Language::Iloko),
            68u8 => Some(Language::Indonesian),
            69u8 => Some(Language::Javanese),
            70u8 => Some(Language::Malagasy),
            71u8 => Some(Language::Malay),
            72u8 => Some(Language::Malayalam),
            73u8 => Some(Language::Sundanese),
            74u8 => Some(Language::Tagalog),
            75u8 => Some(Language::Burmese),
            76u8 => Some(Language::CentralKhmer),
            77u8 => Some(Language::Lao),
            78u8 => Some(Language::Thai),
            79u8 => Some(Language::Mongolian),
            80u8 => Some(Language::Arabic),
            81u8 => Some(Language::Hebrew),
            82u8 => Some(Language::Pashto),
            83u8 => Some(Language::Farsi),
            84u8 => Some(Language::Amharic),
            85u8 => Some(Language::Fulah),
            86u8 => Some(Language::Hausa),
            87u8 => Some(Language::Igbo),
            88u8 => Some(Language::Lingala),
            89u8 => Some(Language::Luganda),
            90u8 => Some(Language::NorthernSotho),
            91u8 => Some(Language::Somali),
            92u8 => Some(Language::Swahili),
            93u8 => Some(Language::Swati),
            94u8 => Some(Language::Tswana),
            95u8 => Some(Language::Wolof),
            96u8 => Some(Language::Xhosa),
            97u8 => Some(Language::Yoruba),
            98u8 => Some(Language::Zulu),
            99u8 => Some(Language::HaitianCreole),
            _ => None,
        }
    }

    /// Decode one wire code.
    pub fn from_u8(code: u8) -> (r: Option<Language>)
        ensures
            r == Language::spec_from_u8(code),
    {
        match code {
            0 => Some(Language::Afrikaans),
            1 => Some(Language::Danish),
            2 => Some(Language::Dutch),
            3 => Some(Language::German),
            4 => Some(Language::English),
            5 => Some(Language::Icelandic),
            6 => Some(Language::Luxembourgish),
            7 => Some(Language::Norwegian),
            8 => Some(Language::Swedish),
            9 => Some(Language::WesternFrisian),
            10 => Some(Language::Yiddish),
            11 => Some(Language::Asturian),
            12 => Some(Language::Catalan),
            13 => Some(Language::French),
            14 => Some(Language::Galician),
            15 => Some(Language::Italian),
            16 => Some(Language::Occitan),
            17 => Some(Language::Portuguese),
            18 => Some(Language::Romanian),
            19 => Some(Language::Spanish),
            20 => Some(Language::Belarusian),
            21 => Some(Language::Bosnian),
            22 => Some(Language::Bulgarian),
            23 => Some(Language::Croatian),
            24 => Some(Language::Czech),
            25 => Some(Language::Macedonian),
            26 => Some(Language::Polish),
            27 => Some(Language::Russian),
            28 => Some(Language::Serbian),
            29 => Some(Language::Slovak),
            30 => Some(Language::Slovenian),
            31 => Some(Language::Ukrainian),
            32 => Some(Language::Estonian),
            33 => Some(Language::Finnish),
            34 => Some(Language::Hungarian),
            35 => Some(Language::Latvian),
            36 => Some(Language::Lithuanian),
            37 => Some(Language::Albanian),
            38 => Some(Language::Armenian),
            39 => Some(Language::Georgian),
            40 => Some(Language::Greek),
            41 => Some(Language::Breton),
            42 => Some(Language::Irish),
            43 => Some(Language::ScottishGaelic),
            44 => Some(Language::Welsh),
            45 => Some(Language::Azerbaijani),
            46 => Some(Language::Bashkir),
            47 => Some(Language::Kazakh),
            48 => Some(Language::Turkish),
            49 => Some(Language::Uzbek),
            50 => Some(Language::Japanese),
            51 => Some(Language::Korean),
            52 => Some(Language::Vietnamese),
            53 => Some(Language::ChineseMandarin),
            54 => Some(Language::Bengali),
            55 => Some(Language::Gujarati),
            56 => Some(Language::Hindi),
            57 => Some(Language::Kannada),
            58 => Some(Language::Marathi),
            59 => Some(Language::Nepali),
            60 => Some(Language::Oriya),
            61 => Some(Language::Panjabi),
            62 => Some(Language::Sindhi),
            63 => Some(Language::Sinhala),
            64 => Some(Language::Urdu),
            65 => Some(Language::Tamil),
            66 => Some(Language::Cebuano),
            67 => Some(Language::Iloko),
            68 => Some(Language::Indonesian),
            69 => Some(Language::Javanese),
            70 => Some(Language::Malagasy),
            71 => Some(Language::Malay),
            72 => Some(Language::Malayalam),
            73 => Some(Language::Sundanese),
            74 => Some(Language::Tagalog),
            75 => Some(Language::Burmese),
            76 => Some(Language::CentralKhmer),
            77 => Some(Language::Lao),
            78 => Some(Language::Thai),
            79 => Some(Language::Mongolian),
            80 => Some(Language::Arabic),
            81 => Some(Language::Hebrew),
            82 => Some(Language::Pashto),
            83 => Some(Language::Farsi),
            84 => Some(Language::Amharic),
            85 => Some(Language::Fulah),
            86 => Some(Language::Hausa),
            87 => Some(Language::Igbo),
            88 => Some(Language::Lingala),
            89 => Some(Language::Luganda),
            90 => Some(Language::NorthernSotho),
            91 => Some(Language::Somali),
            92 => Some(Language::Swahili),
            93 => Some(Language::Swati),
            94 => Some(Language::Tswana),
            95 => Some(Language::Wolof),
            96 => Some(Language::Xhosa),
            97 => Some(Language::Yoruba),
            98 => Some(Language::Zulu),
            99 => Some(Language::HaitianCreole),
            _ => None,
        }
    }
}

/// Decode a request's list of wire codes into languages, rejecting the whole
/// list as malformed if any code is out of range.
pub fn decode_languages(codes: &Vec<u8>) -> (r: Result<Vec<Language>, BertError>)
    ensures
        match r {
            Ok(v) => {
                &&& v@.len() == codes@.len()
                &&& forall|i: int|
                    0 <= i < codes@.len() ==> Some(v@[i]) == Language::spec_from_u8(codes@[i])
            },
            Err(e) => {
                &&& e == BertError::Deserialization
                &&& exists|i: int|
                    0 <= i < codes@.len() && Language::spec_from_u8(codes@[i]) is None
            },
        },
{
    let mut out: Vec<Language> = Vec::new();
    let mut idx: usize = 0;
    while idx < codes.len()
        invariant
            idx <= codes@.len(),
            out@.len() == idx,
            forall|i: int| 0 <= i < idx ==> Some(out@[i]) == Language::spec_from_u8(codes@[i]),
        decreases codes@.len() - idx,
    {
        match Language::from_u8(codes[idx]) {
            Some(l) => out.push(l),
            None => {
                return Err(BertError::Deserialization);
            },
        }
        idx += 1;
    }
    Ok(out)
}

} // verus!
