//! The languages, and their codes in the vocabulary of each provider.
use vstd::prelude::*;

use crate::text::str_eq;

verus! {

/// The human languages that the translators know, each mapped to the wire code of every
/// provider that supports it.
#[derive(Debug, Clone, Copy, PartialEq, Eq, Structural, Hash)]
pub enum Language {
    Abkhazian,
    AchineseLatin,
    Achinese,
    Acoli,
    Afrikaans,
    Akan,
    Albanian,
    AlgerianArabic,
    Alur,
    Amharic,
    AntiguaAndBarbudaCreoleEnglish,
    Arabic,
    Aragonese,
    Armenian,
    Assamese,
    Asturian,
    Awadhi,
    AyacuchoQuechua,
    Aymara,
    Azerbaijani,
    BahamasCreoleEnglish,
    Bajan,
    Balinese,
    Baluchi,
    Bambara,
    BanjarLatin,
    Banjar,
    Bari,
    Bashkir,
    Basque,
    BatakKaro,
    BatakSimalungun,
    BatakToba,
    Belarusian,
    Bemba,
    Bengali,
    BerberLanguages,
    Betawi,
    Bhojpuri,
    Bikol,
    Bislama,
    Bolia,
    Bosnian,
    Breton,
    Buginese,
    Bulgarian,
    Buriat,
    Burmese,
    CanadianFrench,
    Catalan,
    Cebuano,
    CentralAtlasTamazight,
    CentralAymara,
    CentralKanuriLatin,
    CentralKanuri,
    CentralKhmer,
    CentralKurdish,
    Chamorro,
    Cherokee,
    Chhattisgarhi,
    ChichewaChewaNyanja,
    Chiga,
    ChineseTraditional,
    Chinese,
    Chokwe,
    Cholon,
    Chuvash,
    ClassicalChinese,
    ClassicalSyriac,
    Coptic,
    Cornish,
    Corsican,
    Cree,
    CrimeanCrimeanTatarCrimeanCrimeanTurkish,
    CrimeanTatarCrimeanTurkish,
    Croatian,
    Czech,
    Danish,
    Dari,
    DegexitAn,
    Dinka,
    DivehiDhivehiMaldivian,
    Dogri,
    Dombe,
    Dutch,
    Dyula,
    Dzongkha,
    EasternNgadA,
    EasternYiddish,
    EgyptianArabic,
    Enggano,
    English,
    Esperanto,
    Estonian,
    Ewe,
    Fanagalo,
    Faroese,
    Fijian,
    FilipinoPilipino,
    Finnish,
    Fon,
    French,
    FrenchMiddle,
    Friulian,
    Fulah,
    Ga,
    Gaelic,
    Galician,
    Ganda,
    Georgian,
    German,
    GoanKonkani,
    Greek,
    GreekAncient,
    GrenadianCreoleEnglish,
    Guarani,
    Gujarati,
    GuyaneseCreoleEnglish,
    Haitian,
    HakhaChin,
    HakkaChinese,
    HalhMongolian,
    Hausa,
    Hawaiian,
    Hebrew,
    Hiligaynon,
    Hindi,
    HmongDaw,
    HmongMong,
    HuautlaMazatec,
    Hungarian,
    Hunsrik,
    Hupa,
    Icelandic,
    Ido,
    Igbo,
    Iloko,
    Indonesian,
    Interlingua,
    Inuktitut,
    IranianPersian,
    Irish,
    Italian,
    JamaicanCreoleEnglish,
    Japanese,
    Javanese,
    Kabiye,
    Kabuverdianu,
    Kabyle,
    KachinJingpho,
    KalaallisutGreenlandic,
    Kalumpang,
    Kamba,
    Kannada,
    Kanuri,
    Kara,
    KashmiriDeva,
    Kashmiri,
    Kazakh,
    KikuyuGikuyu,
    Kimbundu,
    Kinyarwanda,
    KirghizKyrgyz,
    Kituba,
    Klingon,
    Kongo,
    Konkani,
    Korean,
    Krio,
    Kurdish,
    Langi,
    Lao,
    Latgalian,
    Latin,
    Latvian,
    Ligurian,
    LimburganLimburgerLimburgish,
    Lingala,
    Lithuanian,
    Logo,
    LogudoreseSardinian,
    Lombard,
    Loniu,
    Lou,
    LubaLubaLulua,
    Luo,
    LuoLanguage,
    Lushai,
    Luxembourgish,
    Macedonian,
    Magahi,
    Maithili,
    Makasar,
    MalaNigeria,
    MalaPapuaNewGuinea,
    Malagasy,
    MalayArab,
    Malay,
    Malayalam,
    Maltese,
    Manipuri,
    Manx,
    Maori,
    Marathi,
    Mari,
    Marshallese,
    Meitei,
    Mende,
    MesopotamianArabic,
    Minangkabau,
    Mongolian,
    Morisyen,
    MoroccanArabic,
    Mossi,
    NKo,
    NajdiArabic,
    NdebeleSouthSouthNdebele,
    NepalBhasaNewari,
    NepaliIndividualLanguage,
    Nepali,
    NgazidjaComorian,
    NigerianFulfulde,
    Niuean,
    NorthAzerbaijani,
    NorthLevantineArabic,
    NorthernKurdish,
    NorthernSami,
    NorthernSotho,
    NorthernUzbek,
    NorwegianBokmal,
    NorwegianNynorsk,
    Norwegian,
    Nuer,
    Occitan,
    Odia,
    Ojibwa,
    Oriya,
    Oromo,
    OssetianOssetic,
    Palauan,
    PampangaKapampangan,
    Pangasinan,
    Panjabi,
    Papiamento,
    Persian,
    Pijin,
    PlateauMalagasy,
    Polish,
    Portuguese,
    Potawatomi,
    Punjabi,
    Pushto,
    Quechua,
    QueretaroOtomi,
    RajputGarasia,
    Romanian,
    Romansh,
    Romany,
    Rundi,
    Russian,
    SaintLucianCreoleFrench,
    Samoan,
    Sango,
    Sanskrit,
    Santali,
    Sardinian,
    Scots,
    Sechelt,
    SerbianLatin,
    Serbian,
    SeselwaCreoleFrench,
    ShallZwall,
    Shan,
    Shona,
    Sicilian,
    Silesian,
    Sindhi,
    Sinhala,
    Slovak,
    Slovenian,
    Solos,
    Somali,
    SothoSouthern,
    SouthAzerbaijani,
    SouthLevantineArabic,
    SouthernPashto,
    SouthernSotho,
    SouthwesternDinka,
    Spanish,
    SrananTongo,
    StandardArabic,
    StandardLatvian,
    StandardMalay,
    Sundanese,
    SwahiliIndividualLanguage,
    Swahili,
    Swati,
    Swedish,
    SwissGerman,
    Syriac,
    Saotomense,
    TaIzziAdeniArabic,
    Tagalog,
    Tahitian,
    Tajik,
    Tamashek,
    TamasheqLatin,
    Tamasheq,
    Tamil,
    Tatar,
    Telugu,
    Tetum,
    Thai,
    Tibetan,
    Tigrinya,
    TokPisin,
    TokTokPisin,
    Tokelau,
    Tonga,
    ToskAlbanian,
    Tsonga,
    Tswana,
    Tumbuka,
    TumulungSisaala,
    TunisianArabic,
    Turkish,
    Turkmen,
    Tuvalu,
    Twi,
    UighurUyghur,
    Ukrainian,
    Uma,
    Umbundu,
    UpperGuineaCrioulo,
    UpperSorbian,
    Urdu,
    Uzbek,
    Venda,
    Venetian,
    Vietnamese,
    VincentianCreoleEnglish,
    VirginIslandsCreoleEnglish,
    Volapuk,
    Wallisian,
    Walloon,
    Waray,
    Welsh,
    WestCentralOromo,
    WesternFrisian,
    Wiarumus,
    Wolof,
    Xhosa,
    Yiddish,
    Yoruba,
    Yucateco,
    YueChinese,
    Zari,
    Zulu,
}

/// A number that stands for a short ASCII code: its characters read as digits in base 128.
pub open spec fn code_key(s: Seq<char>) -> int {
    key_prefix(s, s.len() as int)
}

/// The number of the first `n` characters of `s`.
pub open spec fn key_prefix(s: Seq<char>, n: int) -> int
    decreases n,
{
    if n <= 0 {
        0
    } else {
        key_prefix(s, n - 1) * 128 + (s[n - 1] as u32) as int
    }
}

/// Both views of an optional static string.
pub open spec fn code_view(r: Option<&str>) -> Option<Seq<char>> {
    match r {
        Some(c) => Some(c@),
        None => None,
    }
}

/// The wire code of a language in Baidu, if it has one.
pub open spec fn baidu_code(l: Language) -> Option<Seq<char>> {
    match l {
        Language::Acoli => Some("ach"@),
        Language::Afrikaans => Some("afr"@),
        Language::Akan => Some("aka"@),
        Language::Albanian => Some("alb"@),
        Language::AlgerianArabic => Some("arq"@),
        Language::Amharic => Some("amh"@),
        Language::Arabic => Some("ara"@),
        Language::Aragonese => Some("arg"@),
        Language::Armenian => Some("arm"@),
        Language::Assamese => Some("asm"@),
        Language::Asturian => Some("ast"@),
        Language::Aymara => Some("aym"@),
        Language::Azerbaijani => Some("aze"@),
        Language::Baluchi => Some("bal"@),
        Language::Bari => Some("mot"@),
        Language::Bashkir => Some("bak"@),
        Language::Basque => Some("baq"@),
        Language::Belarusian => Some("bel"@),
        Language::Bemba => Some("bem"@),
        Language::Bengali => Some("ben"@),
        Language::BerberLanguages => Some("ber"@),
        Language::Bhojpuri => Some("bho"@),
        Language::Bislama => Some("bis"@),
        Language::Bolia => Some("bli"@),
        Language::Bosnian => Some("bos"@),
        Language::Breton => Some("bre"@),
        Language::Bulgarian => Some("bul"@),
        Language::Burmese => Some("bur"@),
        Language::CanadianFrench => Some("frn"@),
        Language::Catalan => Some("cat"@),
        Language::Cebuano => Some("ceb"@),
        Language::CentralKhmer => Some("hkm"@),
        Language::Cherokee => Some("chr"@),
        Language::ChichewaChewaNyanja => Some("nya"@),
        Language::Chinese => Some("zh"@),
        Language::Cholon => Some("cht"@),
        Language::Chuvash => Some("chv"@),
        Language::ClassicalChinese => Some("wyw"@),
        Language::Cornish => Some("cor"@),
        Language::Corsican => Some("cos"@),
        Language::Cree => Some("cre"@),
        Language::Croatian => Some("hrv"@),
        Language::Czech => Some("cs"@),
        Language::Danish => Some("dan"@),
        Language::DegexitAn => Some("ing"@),
        Language::DivehiDhivehiMaldivian => Some("div"@),
        Language::Dutch => Some("nl"@),
        Language::EasternNgadA => Some("nea"@),
        Language::Enggano => Some("eno"@),
        Language::English => Some("en"@),
        Language::Esperanto => Some("epo"@),
        Language::Estonian => Some("est"@),
        Language::Faroese => Some("fao"@),
        Language::FilipinoPilipino => Some("fil"@),
        Language::Finnish => Some("fin"@),
        Language::French => Some("fra"@),
        Language::FrenchMiddle => Some("frm"@),
        Language::Friulian => Some("fri"@),
        Language::Fulah => Some("ful"@),
        Language::Gaelic => Some("gla"@),
        Language::Galician => Some("glg"@),
        Language::Ganda => Some("lug"@),
        Language::Georgian => Some("geo"@),
        Language::German => Some("de"@),
        Language::Greek => Some("el"@),
        Language::Guarani => Some("grn"@),
        Language::Gujarati => Some("guj"@),
        Language::Haitian => Some("ht"@),
        Language::HakkaChinese => Some("hak"@),
        Language::Hausa => Some("hau"@),
        Language::Hawaiian => Some("haw"@),
        Language::Hebrew => Some("heb"@),
        Language::Hiligaynon => Some("hil"@),
        Language::Hindi => Some("hi"@),
        Language::HmongMong => Some("hmn"@),
        Language::HuautlaMazatec => Some("mau"@),
        Language::Hungarian => Some("hu"@),
        Language::Hupa => Some("hup"@),
        Language::Icelandic => Some("ice"@),
        Language::Ido => Some("ido"@),
        Language::Igbo => Some("ibo"@),
        Language::Indonesian => Some("id"@),
        Language::Interlingua => Some("ina"@),
        Language::Inuktitut => Some("iku"@),
        Language::Irish => Some("gle"@),
        Language::Italian => Some("it"@),
        Language::Japanese => Some("jp"@),
        Language::Javanese => Some("jav"@),
        Language::Kabyle => Some("kab"@),
        Language::KalaallisutGreenlandic => Some("kal"@),
        Language::Kalumpang => Some("kli"@),
        Language::Kannada => Some("kan"@),
        Language::Kanuri => Some("kau"@),
        Language::Kara => Some("kah"@),
        Language::Kashmiri => Some("kas"@),
        Language::Kinyarwanda => Some("kin"@),
        Language::KirghizKyrgyz => Some("kir"@),
        Language::Kongo => Some("kon"@),
        Language::Konkani => Some("kok"@),
        Language::Korean => Some("kor"@),
        Language::Kurdish => Some("kur"@),
        Language::Langi => Some("lag"@),
        Language::Lao => Some("lao"@),
        Language::Latin => Some("lat"@),
        Language::Latvian => Some("lav"@),
        Language::LimburganLimburgerLimburgish => Some("lim"@),
        Language::Lingala => Some("lin"@),
        Language::Lithuanian => Some("lit"@),
        Language::Logo => Some("log"@),
        Language::LogudoreseSardinian => Some("src"@),
        Language::Loniu => Some("los"@),
        Language::Lou => Some("loj"@),
        Language::Luxembourgish => Some("ltz"@),
        Language::Macedonian => Some("mac"@),
        Language::Maithili => Some("mai"@),
        Language::MalaNigeria => Some("ruy"@),
        Language::MalaPapuaNewGuinea => Some("ped"@),
        Language::Malagasy => Some("mg"@),
        Language::Malay => Some("may"@),
        Language::Malayalam => Some("mal"@),
        Language::Maltese => Some("mlt"@),
        Language::Manx => Some("glv"@),
        Language::Maori => Some("mao"@),
        Language::Marathi => Some("mar"@),
        Language::Marshallese => Some("mah"@),
        Language::NKo => Some("nqo"@),
        Language::NdebeleSouthSouthNdebele => Some("nbl"@),
        Language::Nepali => Some("nep"@),
        Language::NorthernSami => Some("sme"@),
        Language::NorwegianBokmal => Some("nob"@),
        Language::NorwegianNynorsk => Some("nno"@),
        Language::Norwegian => Some("nor"@),
        Language::Occitan => Some("oci"@),
        Language::Ojibwa => Some("oji"@),
        Language::Oriya => Some("ori"@),
        Language::Oromo => Some("orm"@),
        Language::OssetianOssetic => Some("oss"@),
        Language::PampangaKapampangan => Some("pam"@),
        Language::Panjabi => Some("pan"@),
        Language::Papiamento => Some("pap"@),
        Language::Persian => Some("per"@),
        Language::Polish => Some("pl"@),
        Language::Portuguese => Some("pt"@),
        Language::Potawatomi => Some("pot"@),
        Language::Pushto => Some("pus"@),
        Language::Quechua => Some("que"@),
        Language::RajputGarasia => Some("gra"@),
        Language::Romanian => Some("ro"@),
        Language::Romansh => Some("roh"@),
        Language::Romany => Some("rom"@),
        Language::Russian => Some("ru"@),
        Language::Samoan => Some("sm"@),
        Language::Sanskrit => Some("san"@),
        Language::Sardinian => Some("srd"@),
        Language::Scots => Some("sco"@),
        Language::Sechelt => Some("sec"@),
        Language::Serbian => Some("srp"@),
        Language::ShallZwall => Some("sha"@),
        Language::Shona => Some("sna"@),
        Language::Sindhi => Some("snd"@),
        Language::Sinhala => Some("sin"@),
        Language::Slovak => Some("sk"@),
        Language::Solos => Some("sol"@),
        Language::Somali => Some("som"@),
        Language::SothoSouthern => Some("sot"@),
        Language::Spanish => Some("spa"@),
        Language::Sundanese => Some("sun"@),
        Language::Swahili => Some("swa"@),
        Language::Swedish => Some("swe"@),
        Language::Syriac => Some("syr"@),
        Language::Saotomense => Some("cri"@),
        Language::Tagalog => Some("tgl"@),
        Language::Tajik => Some("tgk"@),
        Language::Tamil => Some("tam"@),
        Language::Tatar => Some("tat"@),
        Language::Telugu => Some("tel"@),
        Language::Tetum => Some("tet"@),
        Language::Thai => Some("th"@),
        Language::Tigrinya => Some("tir"@),
        Language::Tsonga => Some("tso"@),
        Language::TumulungSisaala => Some("sil"@),
        Language::Turkish => Some("tr"@),
        Language::Turkmen => Some("tuk"@),
        Language::Twi => Some("twi"@),
        Language::Ukrainian => Some("ukr"@),
        Language::UpperSorbian => Some("ups"@),
        Language::Urdu => Some("urd"@),
        Language::Venda => Some("ven"@),
        Language::Vietnamese => Some("vie"@),
        Language::Walloon => Some("wln"@),
        Language::Welsh => Some("wel"@),
        Language::WesternFrisian => Some("fry"@),
        Language::Wiarumus => Some("tua"@),
        Language::Wolof => Some("wol"@),
        Language::Xhosa => Some("xho"@),
        Language::Yiddish => Some("yid"@),
        Language::Yoruba => Some("yor"@),
        Language::YueChinese => Some("yue"@),
        Language::Zari => Some("zaz"@),
        Language::Zulu => Some("zul"@),
        _ => None,
    }
}

/// The language whose Baidu wire code is `s`, if there is one.
pub open spec fn baidu_language(s: Seq<char>) -> Option<Language> {
    if exists|l: Language| baidu_code(l) == Some(s) {
        Some(choose|l: Language| baidu_code(l) == Some(s))
    } else {
        None
    }
}

/// Inverse of the Baidu table, over the numbers of the codes.
pub open spec fn baidu_by_key(k: int) -> Option<Language> {
    if k == 1602024 {
        Some(Language::Acoli)
    } else if k == 1602418 {
        Some(Language::Afrikaans)
    } else if k == 1603041 {
        Some(Language::Akan)
    } else if k == 1603170 {
        Some(Language::Albanian)
    } else if k == 1603953 {
        Some(Language::AlgerianArabic)
    } else if k == 1603304 {
        Some(Language::Amharic)
    } else if k == 1603937 {
        Some(Language::Arabic)
    } else if k == 1603943 {
        Some(Language::Aragonese)
    } else if k == 1603949 {
        Some(Language::Armenian)
    } else if k == 1604077 {
        Some(Language::Assamese)
    } else if k == 1604084 {
        Some(Language::Asturian)
    } else if k == 1604845 {
        Some(Language::Aymara)
    } else if k == 1604965 {
        Some(Language::Azerbaijani)
    } else if k == 1618156 {
        Some(Language::Baluchi)
    } else if k == 1800180 {
        Some(Language::Bari)
    } else if k == 1618155 {
        Some(Language::Bashkir)
    } else if k == 1618161 {
        Some(Language::Basque)
    } else if k == 1618668 {
        Some(Language::Belarusian)
    } else if k == 1618669 {
        Some(Language::Bemba)
    } else if k == 1618670 {
        Some(Language::Bengali)
    } else if k == 1618674 {
        Some(Language::BerberLanguages)
    } else if k == 1619055 {
        Some(Language::Bhojpuri)
    } else if k == 1619187 {
        Some(Language::Bislama)
    } else if k == 1619561 {
        Some(Language::Bolia)
    } else if k == 1619955 {
        Some(Language::Bosnian)
    } else if k == 1620325 {
        Some(Language::Breton)
    } else if k == 1620716 {
        Some(Language::Bulgarian)
    } else if k == 1620722 {
        Some(Language::Burmese)
    } else if k == 1685870 {
        Some(Language::CanadianFrench)
    } else if k == 1634548 {
        Some(Language::Catalan)
    } else if k == 1635042 {
        Some(Language::Cebuano)
    } else if k == 1717741 {
        Some(Language::CentralKhmer)
    } else if k == 1635442 {
        Some(Language::Cherokee)
    } else if k == 1817825 {
        Some(Language::ChichewaChewaNyanja)
    } else if k == 15720 {
        Some(Language::Chinese)
    } else if k == 1635444 {
        Some(Language::Cholon)
    } else if k == 1635446 {
        Some(Language::Chuvash)
    } else if k == 1965303 {
        Some(Language::ClassicalChinese)
    } else if k == 1636338 {
        Some(Language::Cornish)
    } else if k == 1636339 {
        Some(Language::Corsican)
    } else if k == 1636709 {
        Some(Language::Cree)
    } else if k == 1718646 {
        Some(Language::Croatian)
    } else if k == 12787 {
        Some(Language::Czech)
    } else if k == 1650926 {
        Some(Language::Danish)
    } else if k == 1734503 {
        Some(Language::DegexitAn)
    } else if k == 1651958 {
        Some(Language::DivehiDhivehiMaldivian)
    } else if k == 14188 {
        Some(Language::Dutch)
    } else if k == 1815265 {
        Some(Language::EasternNgadA)
    } else if k == 1668975 {
        Some(Language::Enggano)
    } else if k == 13038 {
        Some(Language::English)
    } else if k == 1669231 {
        Some(Language::Esperanto)
    } else if k == 1669620 {
        Some(Language::Estonian)
    } else if k == 1683695 {
        Some(Language::Faroese)
    } else if k == 1684716 {
        Some(Language::FilipinoPilipino)
    } else if k == 1684718 {
        Some(Language::Finnish)
    } else if k == 1685857 {
        Some(Language::French)
    } else if k == 1685869 {
        Some(Language::FrenchMiddle)
    } else if k == 1685865 {
        Some(Language::Friulian)
    } else if k == 1686252 {
        Some(Language::Fulah)
    } else if k == 1701473 {
        Some(Language::Gaelic)
    } else if k == 1701479 {
        Some(Language::Galician)
    } else if k == 1784551 {
        Some(Language::Ganda)
    } else if k == 1700591 {
        Some(Language::Georgian)
    } else if k == 12901 {
        Some(Language::German)
    } else if k == 13036 {
        Some(Language::Greek)
    } else if k == 1702254 {
        Some(Language::Guarani)
    } else if k == 1702634 {
        Some(Language::Gujarati)
    } else if k == 13428 {
        Some(Language::Haitian)
    } else if k == 1716459 {
        Some(Language::HakkaChinese)
    } else if k == 1716469 {
        Some(Language::Hausa)
    } else if k == 1716471 {
        Some(Language::Hawaiian)
    } else if k == 1716962 {
        Some(Language::Hebrew)
    } else if k == 1717484 {
        Some(Language::Hiligaynon)
    } else if k == 13417 {
        Some(Language::Hindi)
    } else if k == 1717998 {
        Some(Language::HmongMong)
    } else if k == 1798389 {
        Some(Language::HuautlaMazatec)
    } else if k == 13429 {
        Some(Language::Hungarian)
    } else if k == 1719024 {
        Some(Language::Hupa)
    } else if k == 1733093 {
        Some(Language::Icelandic)
    } else if k == 1733231 {
        Some(Language::Ido)
    } else if k == 1732975 {
        Some(Language::Igbo)
    } else if k == 13540 {
        Some(Language::Indonesian)
    } else if k == 1734497 {
        Some(Language::Interlingua)
    } else if k == 1734133 {
        Some(Language::Inuktitut)
    } else if k == 1701477 {
        Some(Language::Irish)
    } else if k == 13556 {
        Some(Language::Italian)
    } else if k == 13680 {
        Some(Language::Japanese)
    } else if k == 1749238 {
        Some(Language::Javanese)
    } else if k == 1765602 {
        Some(Language::Kabyle)
    } else if k == 1765612 {
        Some(Language::KalaallisutGreenlandic)
    } else if k == 1767017 {
        Some(Language::Kalumpang)
    } else if k == 1765614 {
        Some(Language::Kannada)
    } else if k == 1765621 {
        Some(Language::Kanuri)
    } else if k == 1765608 {
        Some(Language::Kara)
    } else if k == 1765619 {
        Some(Language::Kashmiri)
    } else if k == 1766638 {
        Some(Language::Kinyarwanda)
    } else if k == 1766642 {
        Some(Language::KirghizKyrgyz)
    } else if k == 1767406 {
        Some(Language::Kongo)
    } else if k == 1767403 {
        Some(Language::Konkani)
    } else if k == 1767410 {
        Some(Language::Korean)
    } else if k == 1768178 {
        Some(Language::Kurdish)
    } else if k == 1781991 {
        Some(Language::Langi)
    } else if k == 1781999 {
        Some(Language::Lao)
    } else if k == 1782004 {
        Some(Language::Latin)
    } else if k == 1782006 {
        Some(Language::Latvian)
    } else if k == 1783021 {
        Some(Language::LimburganLimburgerLimburgish)
    } else if k == 1783022 {
        Some(Language::Lingala)
    } else if k == 1783028 {
        Some(Language::Lithuanian)
    } else if k == 1783783 {
        Some(Language::Logo)
    } else if k == 1898851 {
        Some(Language::LogudoreseSardinian)
    } else if k == 1783795 {
        Some(Language::Loniu)
    } else if k == 1783786 {
        Some(Language::Lou)
    } else if k == 1784442 {
        Some(Language::Luxembourgish)
    } else if k == 1798371 {
        Some(Language::Macedonian)
    } else if k == 1798377 {
        Some(Language::Maithili)
    } else if k == 1882873 {
        Some(Language::MalaNigeria)
    } else if k == 1848036 {
        Some(Language::MalaPapuaNewGuinea)
    } else if k == 14055 {
        Some(Language::Malagasy)
    } else if k == 1798393 {
        Some(Language::Malay)
    } else if k == 1798380 {
        Some(Language::Malayalam)
    } else if k == 1799796 {
        Some(Language::Maltese)
    } else if k == 1701494 {
        Some(Language::Manx)
    } else if k == 1798383 {
        Some(Language::Maori)
    } else if k == 1798386 {
        Some(Language::Marathi)
    } else if k == 1798376 {
        Some(Language::Marshallese)
    } else if k == 1816815 {
        Some(Language::NKo)
    } else if k == 1814892 {
        Some(Language::NdebeleSouthSouthNdebele)
    } else if k == 1815280 {
        Some(Language::Nepali)
    } else if k == 1898213 {
        Some(Language::NorthernSami)
    } else if k == 1816546 {
        Some(Language::NorwegianBokmal)
    } else if k == 1816431 {
        Some(Language::NorwegianNynorsk)
    } else if k == 1816562 {
        Some(Language::Norwegian)
    } else if k == 1831401 {
        Some(Language::Occitan)
    } else if k == 1832297 {
        Some(Language::Ojibwa)
    } else if k == 1833321 {
        Some(Language::Oriya)
    } else if k == 1833325 {
        Some(Language::Oromo)
    } else if k == 1833459 {
        Some(Language::OssetianOssetic)
    } else if k == 1847533 {
        Some(Language::PampangaKapampangan)
    } else if k == 1847534 {
        Some(Language::Panjabi)
    } else if k == 1847536 {
        Some(Language::Papiamento)
    } else if k == 1848050 {
        Some(Language::Persian)
    } else if k == 14444 {
        Some(Language::Polish)
    } else if k == 14452 {
        Some(Language::Portuguese)
    } else if k == 1849332 {
        Some(Language::Potawatomi)
    } else if k == 1850099 {
        Some(Language::Pushto)
    } else if k == 1866469 {
        Some(Language::Quechua)
    } else if k == 1702241 {
        Some(Language::RajputGarasia)
    } else if k == 14703 {
        Some(Language::Romanian)
    } else if k == 1882088 {
        Some(Language::Romansh)
    } else if k == 1882093 {
        Some(Language::Romany)
    } else if k == 14709 {
        Some(Language::Russian)
    } else if k == 14829 {
        Some(Language::Samoan)
    } else if k == 1896686 {
        Some(Language::Sanskrit)
    } else if k == 1898852 {
        Some(Language::Sardinian)
    } else if k == 1896943 {
        Some(Language::Scots)
    } else if k == 1897187 {
        Some(Language::Sechelt)
    } else if k == 1898864 {
        Some(Language::Serbian)
    } else if k == 1897569 {
        Some(Language::ShallZwall)
    } else if k == 1898337 {
        Some(Language::Shona)
    } else if k == 1898340 {
        Some(Language::Sindhi)
    } else if k == 1897710 {
        Some(Language::Sinhala)
    } else if k == 14827 {
        Some(Language::Slovak)
    } else if k == 1898476 {
        Some(Language::Solos)
    } else if k == 1898477 {
        Some(Language::Somali)
    } else if k == 1898484 {
        Some(Language::SothoSouthern)
    } else if k == 1898593 {
        Some(Language::Spanish)
    } else if k == 1899246 {
        Some(Language::Sundanese)
    } else if k == 1899489 {
        Some(Language::Swahili)
    } else if k == 1899493 {
        Some(Language::Swedish)
    } else if k == 1899762 {
        Some(Language::Syriac)
    } else if k == 1636713 {
        Some(Language::Saotomense)
    } else if k == 1913836 {
        Some(Language::Tagalog)
    } else if k == 1913835 {
        Some(Language::Tajik)
    } else if k == 1913069 {
        Some(Language::Tamil)
    } else if k == 1913076 {
        Some(Language::Tatar)
    } else if k == 1913580 {
        Some(Language::Telugu)
    } else if k == 1913588 {
        Some(Language::Tetum)
    } else if k == 14952 {
        Some(Language::Thai)
    } else if k == 1914098 {
        Some(Language::Tigrinya)
    } else if k == 1915375 {
        Some(Language::Tsonga)
    } else if k == 1897708 {
        Some(Language::TumulungSisaala)
    } else if k == 14962 {
        Some(Language::Turkish)
    } else if k == 1915627 {
        Some(Language::Turkmen)
    } else if k == 1915881 {
        Some(Language::Twi)
    } else if k == 1930738 {
        Some(Language::Ukrainian)
    } else if k == 1931379 {
        Some(Language::UpperSorbian)
    } else if k == 1931620 {
        Some(Language::Urdu)
    } else if k == 1946350 {
        Some(Language::Venda)
    } else if k == 1946853 {
        Some(Language::Vietnamese)
    } else if k == 1963630 {
        Some(Language::Walloon)
    } else if k == 1962732 {
        Some(Language::Welsh)
    } else if k == 1685881 {
        Some(Language::WesternFrisian)
    } else if k == 1915617 {
        Some(Language::Wiarumus)
    } else if k == 1964012 {
        Some(Language::Wolof)
    } else if k == 1979503 {
        Some(Language::Xhosa)
    } else if k == 1996004 {
        Some(Language::Yiddish)
    } else if k == 1996786 {
        Some(Language::Yoruba)
    } else if k == 1997541 {
        Some(Language::YueChinese)
    } else if k == 2011386 {
        Some(Language::Zari)
    } else if k == 2013932 {
        Some(Language::Zulu)
    } else {
        None
    }
}

/// No two languages share a Baidu wire code.
pub proof fn lemma_baidu_codes_distinct()
    ensures
        forall|a: Language, b: Language| #[trigger] baidu_code(a) is Some && baidu_code(a) == #[trigger] baidu_code(b) ==> a == b,
{
    reveal_with_fuel(key_prefix, 8);
    reveal_strlit("ach");
    assert(code_key("ach"@) == 1602024);
    reveal_strlit("afr");
    assert(code_key("afr"@) == 1602418);
    reveal_strlit("aka");
    assert(code_key("aka"@) == 1603041);
    reveal_strlit("alb");
    assert(code_key("alb"@) == 1603170);
    reveal_strlit("arq");
    assert(code_key("arq"@) == 1603953);
    reveal_strlit("amh");
    assert(code_key("amh"@) == 1603304);
    reveal_strlit("ara");
    assert(code_key("ara"@) == 1603937);
    reveal_strlit("arg");
    assert(code_key("arg"@) == 1603943);
    reveal_strlit("arm");
    assert(code_key("arm"@) == 1603949);
    reveal_strlit("asm");
    assert(code_key("asm"@) == 1604077);
    reveal_strlit("ast");
    assert(code_key("ast"@) == 1604084);
    reveal_strlit("aym");
    assert(code_key("aym"@) == 1604845);
    reveal_strlit("aze");
    assert(code_key("aze"@) == 1604965);
    reveal_strlit("bal");
    assert(code_key("bal"@) == 1618156);
    reveal_strlit("mot");
    assert(code_key("mot"@) == 1800180);
    reveal_strlit("bak");
    assert(code_key("bak"@) == 1618155);
    reveal_strlit("baq");
    assert(code_key("baq"@) == 1618161);
    reveal_strlit("bel");
    assert(code_key("bel"@) == 1618668);
    reveal_strlit("bem");
    assert(code_key("bem"@) == 1618669);
    reveal_strlit("ben");
    assert(code_key("ben"@) == 1618670);
    reveal_strlit("ber");
    assert(code_key("ber"@) == 1618674);
    reveal_strlit("bho");
    assert(code_key("bho"@) == 1619055);
    reveal_strlit("bis");
    assert(code_key("bis"@) == 1619187);
    reveal_strlit("bli");
    assert(code_key("bli"@) == 1619561);
    reveal_strlit("bos");
    assert(code_key("bos"@) == 1619955);
    reveal_strlit("bre");
    assert(code_key("bre"@) == 1620325);
    reveal_strlit("bul");
    assert(code_key("bul"@) == 1620716);
    reveal_strlit("bur");
    assert(code_key("bur"@) == 1620722);
    reveal_strlit("frn");
    assert(code_key("frn"@) == 1685870);
    reveal_strlit("cat");
    assert(code_key("cat"@) == 1634548);
    reveal_strlit("ceb");
    assert(code_key("ceb"@) == 1635042);
    reveal_strlit("hkm");
    assert(code_key("hkm"@) == 1717741);
    reveal_strlit("chr");
    assert(code_key("chr"@) == 1635442);
    reveal_strlit("nya");
    assert(code_key("nya"@) == 1817825);
    reveal_strlit("zh");
    assert(code_key("zh"@) == 15720);
    reveal_strlit("cht");
    assert(code_key("cht"@) == 1635444);
    reveal_strlit("chv");
    assert(code_key("chv"@) == 1635446);
    reveal_strlit("wyw");
    assert(code_key("wyw"@) == 1965303);
    reveal_strlit("cor");
    assert(code_key("cor"@) == 1636338);
    reveal_strlit("cos");
    assert(code_key("cos"@) == 1636339);
    reveal_strlit("cre");
    assert(code_key("cre"@) == 1636709);
    reveal_strlit("hrv");
    assert(code_key("hrv"@) == 1718646);
    reveal_strlit("cs");
    assert(code_key("cs"@) == 12787);
    reveal_strlit("dan");
    assert(code_key("dan"@) == 1650926);
    reveal_strlit("ing");
    assert(code_key("ing"@) == 1734503);
    reveal_strlit("div");
    assert(code_key("div"@) == 1651958);
    reveal_strlit("nl");
    assert(code_key("nl"@) == 14188);
    reveal_strlit("nea");
    assert(code_key("nea"@) == 1815265);
    reveal_strlit("eno");
    assert(code_key("eno"@) == 1668975);
    reveal_strlit("en");
    assert(code_key("en"@) == 13038);
    reveal_strlit("epo");
    assert(code_key("epo"@) == 1669231);
    reveal_strlit("est");
    assert(code_key("est"@) == 1669620);
    reveal_strlit("fao");
    assert(code_key("fao"@) == 1683695);
    reveal_strlit("fil");
    assert(code_key("fil"@) == 1684716);
    reveal_strlit("fin");
    assert(code_key("fin"@) == 1684718);
    reveal_strlit("fra");
    assert(code_key("fra"@) == 1685857);
    reveal_strlit("frm");
    assert(code_key("frm"@) == 1685869);
    reveal_strlit("fri");
    assert(code_key("fri"@) == 1685865);
    reveal_strlit("ful");
    assert(code_key("ful"@) == 1686252);
    reveal_strlit("gla");
    assert(code_key("gla"@) == 1701473);
    reveal_strlit("glg");
    assert(code_key("glg"@) == 1701479);
    reveal_strlit("lug");
    assert(code_key("lug"@) == 1784551);
    reveal_strlit("geo");
    assert(code_key("geo"@) == 1700591);
    reveal_strlit("de");
    assert(code_key("de"@) == 12901);
    reveal_strlit("el");
    assert(code_key("el"@) == 13036);
    reveal_strlit("grn");
    assert(code_key("grn"@) == 1702254);
    reveal_strlit("guj");
    assert(code_key("guj"@) == 1702634);
    reveal_strlit("ht");
    assert(code_key("ht"@) == 13428);
    reveal_strlit("hak");
    assert(code_key("hak"@) == 1716459);
    reveal_strlit("hau");
    assert(code_key("hau"@) == 1716469);
    reveal_strlit("haw");
    assert(code_key("haw"@) == 1716471);
    reveal_strlit("heb");
    assert(code_key("heb"@) == 1716962);
    reveal_strlit("hil");
    assert(code_key("hil"@) == 1717484);
    reveal_strlit("hi");
    assert(code_key("hi"@) == 13417);
    reveal_strlit("hmn");
    assert(code_key("hmn"@) == 1717998);
    reveal_strlit("mau");
    assert(code_key("mau"@) == 1798389);
    reveal_strlit("hu");
    assert(code_key("hu"@) == 13429);
    reveal_strlit("hup");
    assert(code_key("hup"@) == 1719024);
    reveal_strlit("ice");
    assert(code_key("ice"@) == 1733093);
    reveal_strlit("ido");
    assert(code_key("ido"@) == 1733231);
    reveal_strlit("ibo");
    assert(code_key("ibo"@) == 1732975);
    reveal_strlit("id");
    assert(code_key("id"@) == 13540);
    reveal_strlit("ina");
    assert(code_key("ina"@) == 1734497);
    reveal_strlit("iku");
    assert(code_key("iku"@) == 1734133);
    reveal_strlit("gle");
    assert(code_key("gle"@) == 1701477);
    reveal_strlit("it");
    assert(code_key("it"@) == 13556);
    reveal_strlit("jp");
    assert(code_key("jp"@) == 13680);
    reveal_strlit("jav");
    assert(code_key("jav"@) == 1749238);
    reveal_strlit("kab");
    assert(code_key("kab"@) == 1765602);
    reveal_strlit("kal");
    assert(code_key("kal"@) == 1765612);
    reveal_strlit("kli");
    assert(code_key("kli"@) == 1767017);
    reveal_strlit("kan");
    assert(code_key("kan"@) == 1765614);
    reveal_strlit("kau");
    assert(code_key("kau"@) == 1765621);
    reveal_strlit("kah");
    assert(code_key("kah"@) == 1765608);
    reveal_strlit("kas");
    assert(code_key("kas"@) == 1765619);
    reveal_strlit("kin");
    assert(code_key("kin"@) == 1766638);
    reveal_strlit("kir");
    assert(code_key("kir"@) == 1766642);
    reveal_strlit("kon");
    assert(code_key("kon"@) == 1767406);
    reveal_strlit("kok");
    assert(code_key("kok"@) == 1767403);
    reveal_strlit("kor");
    assert(code_key("kor"@) == 1767410);
    reveal_strlit("kur");
    assert(code_key("kur"@) == 1768178);
    reveal_strlit("lag");
    assert(code_key("lag"@) == 1781991);
    reveal_strlit("lao");
    assert(code_key("lao"@) == 1781999);
    reveal_strlit("lat");
    assert(code_key("lat"@) == 1782004);
    reveal_strlit("lav");
    assert(code_key("lav"@) == 1782006);
    reveal_strlit("lim");
    assert(code_key("lim"@) == 1783021);
    reveal_strlit("lin");
    assert(code_key("lin"@) == 1783022);
    reveal_strlit("lit");
    assert(code_key("lit"@) == 1783028);
    reveal_strlit("log");
    assert(code_key("log"@) == 1783783);
    reveal_strlit("src");
    assert(code_key("src"@) == 1898851);
    reveal_strlit("los");
    assert(code_key("los"@) == 1783795);
    reveal_strlit("loj");
    assert(code_key("loj"@) == 1783786);
    reveal_strlit("ltz");
    assert(code_key("ltz"@) == 1784442);
    reveal_strlit("mac");
    assert(code_key("mac"@) == 1798371);
    reveal_strlit("mai");
    assert(code_key("mai"@) == 1798377);
    reveal_strlit("ruy");
    assert(code_key("ruy"@) == 1882873);
    reveal_strlit("ped");
    assert(code_key("ped"@) == 1848036);
    reveal_strlit("mg");
    assert(code_key("mg"@) == 14055);
    reveal_strlit("may");
    assert(code_key("may"@) == 1798393);
    reveal_strlit("mal");
    assert(code_key("mal"@) == 1798380);
    reveal_strlit("mlt");
    assert(code_key("mlt"@) == 1799796);
    reveal_strlit("glv");
    assert(code_key("glv"@) == 1701494);
    reveal_strlit("mao");
    assert(code_key("mao"@) == 1798383);
    reveal_strlit("mar");
    assert(code_key("mar"@) == 1798386);
    reveal_strlit("mah");
    assert(code_key("mah"@) == 1798376);
    reveal_strlit("nqo");
    assert(code_key("nqo"@) == 1816815);
    reveal_strlit("nbl");
    assert(code_key("nbl"@) == 1814892);
    reveal_strlit("nep");
    assert(code_key("nep"@) == 1815280);
    reveal_strlit("sme");
    assert(code_key("sme"@) == 1898213);
    reveal_strlit("nob");
    assert(code_key("nob"@) == 1816546);
    reveal_strlit("nno");
    assert(code_key("nno"@) == 1816431);
    reveal_strlit("nor");
    assert(code_key("nor"@) == 1816562);
    reveal_strlit("oci");
    assert(code_key("oci"@) == 1831401);
    reveal_strlit("oji");
    assert(code_key("oji"@) == 1832297);
    reveal_strlit("ori");
    assert(code_key("ori"@) == 1833321);
    reveal_strlit("orm");
    assert(code_key("orm"@) == 1833325);
    reveal_strlit("oss");
    assert(code_key("oss"@) == 1833459);
    reveal_strlit("pam");
    assert(code_key("pam"@) == 1847533);
    reveal_strlit("pan");
    assert(code_key("pan"@) == 1847534);
    reveal_strlit("pap");
    assert(code_key("pap"@) == 1847536);
    reveal_strlit("per");
    assert(code_key("per"@) == 1848050);
    reveal_strlit("pl");
    assert(code_key("pl"@) == 14444);
    reveal_strlit("pt");
    assert(code_key("pt"@) == 14452);
    reveal_strlit("pot");
    assert(code_key("pot"@) == 1849332);
    reveal_strlit("pus");
    assert(code_key("pus"@) == 1850099);
    reveal_strlit("que");
    assert(code_key("que"@) == 1866469);
    reveal_strlit("gra");
    assert(code_key("gra"@) == 1702241);
    reveal_strlit("ro");
    assert(code_key("ro"@) == 14703);
    reveal_strlit("roh");
    assert(code_key("roh"@) == 1882088);
    reveal_strlit("rom");
    assert(code_key("rom"@) == 1882093);
    reveal_strlit("ru");
    assert(code_key("ru"@) == 14709);
    reveal_strlit("sm");
    assert(code_key("sm"@) == 14829);
    reveal_strlit("san");
    assert(code_key("san"@) == 1896686);
    reveal_strlit("srd");
    assert(code_key("srd"@) == 1898852);
    reveal_strlit("sco");
    assert(code_key("sco"@) == 1896943);
    reveal_strlit("sec");
    assert(code_key("sec"@) == 1897187);
    reveal_strlit("srp");
    assert(code_key("srp"@) == 1898864);
    reveal_strlit("sha");
    assert(code_key("sha"@) == 1897569);
    reveal_strlit("sna");
    assert(code_key("sna"@) == 1898337);
    reveal_strlit("snd");
    assert(code_key("snd"@) == 1898340);
    reveal_strlit("sin");
    assert(code_key("sin"@) == 1897710);
    reveal_strlit("sk");
    assert(code_key("sk"@) == 14827);
    reveal_strlit("sol");
    assert(code_key("sol"@) == 1898476);
    reveal_strlit("som");
    assert(code_key("som"@) == 1898477);
    reveal_strlit("sot");
    assert(code_key("sot"@) == 1898484);
    reveal_strlit("spa");
    assert(code_key("spa"@) == 1898593);
    reveal_strlit("sun");
    assert(code_key("sun"@) == 1899246);
    reveal_strlit("swa");
    assert(code_key("swa"@) == 1899489);
    reveal_strlit("swe");
    assert(code_key("swe"@) == 1899493);
    reveal_strlit("syr");
    assert(code_key("syr"@) == 1899762);
    reveal_strlit("cri");
    assert(code_key("cri"@) == 1636713);
    reveal_strlit("tgl");
    assert(code_key("tgl"@) == 1913836);
    reveal_strlit("tgk");
    assert(code_key("tgk"@) == 1913835);
    reveal_strlit("tam");
    assert(code_key("tam"@) == 1913069);
    reveal_strlit("tat");
    assert(code_key("tat"@) == 1913076);
    reveal_strlit("tel");
    assert(code_key("tel"@) == 1913580);
    reveal_strlit("tet");
    assert(code_key("tet"@) == 1913588);
    reveal_strlit("th");
    assert(code_key("th"@) == 14952);
    reveal_strlit("tir");
    assert(code_key("tir"@) == 1914098);
    reveal_strlit("tso");
    assert(code_key("tso"@) == 1915375);
    reveal_strlit("sil");
    assert(code_key("sil"@) == 1897708);
    reveal_strlit("tr");
    assert(code_key("tr"@) == 14962);
    reveal_strlit("tuk");
    assert(code_key("tuk"@) == 1915627);
    reveal_strlit("twi");
    assert(code_key("twi"@) == 1915881);
    reveal_strlit("ukr");
    assert(code_key("ukr"@) == 1930738);
    reveal_strlit("ups");
    assert(code_key("ups"@) == 1931379);
    reveal_strlit("urd");
    assert(code_key("urd"@) == 1931620);
    reveal_strlit("ven");
    assert(code_key("ven"@) == 1946350);
    reveal_strlit("vie");
    assert(code_key("vie"@) == 1946853);
    reveal_strlit("wln");
    assert(code_key("wln"@) == 1963630);
    reveal_strlit("wel");
    assert(code_key("wel"@) == 1962732);
    reveal_strlit("fry");
    assert(code_key("fry"@) == 1685881);
    reveal_strlit("tua");
    assert(code_key("tua"@) == 1915617);
    reveal_strlit("wol");
    assert(code_key("wol"@) == 1964012);
    reveal_strlit("xho");
    assert(code_key("xho"@) == 1979503);
    reveal_strlit("yid");
    assert(code_key("yid"@) == 1996004);
    reveal_strlit("yor");
    assert(code_key("yor"@) == 1996786);
    reveal_strlit("yue");
    assert(code_key("yue"@) == 1997541);
    reveal_strlit("zaz");
    assert(code_key("zaz"@) == 2011386);
    reveal_strlit("zul");
    assert(code_key("zul"@) == 2013932);
    assert forall|l: Language| #[trigger] baidu_code(l) is Some implies baidu_by_key(code_key(baidu_code(l)->0)) == Some(l) by {}
}

/// The wire code of a language in Caiyun, if it has one.
pub open spec fn caiyun_code(l: Language) -> Option<Seq<char>> {
    match l {
        Language::ChineseTraditional => Some("zh"@),
        Language::Chinese => Some("zh-Hant"@),
        Language::English => Some("en"@),
        Language::French => Some("fr"@),
        Language::German => Some("de"@),
        Language::Italian => Some("it"@),
        Language::Japanese => Some("ja"@),
        Language::Korean => Some("ko"@),
        Language::Portuguese => Some("pt"@),
        Language::Russian => Some("ru"@),
        Language::Spanish => Some("es"@),
        Language::Turkish => Some("tr"@),
        Language::Vietnamese => Some("vi"@),
        _ => None,
    }
}

/// The language whose Caiyun wire code is `s`, if there is one.
pub open spec fn caiyun_language(s: Seq<char>) -> Option<Language> {
    if exists|l: Language| caiyun_code(l) == Some(s) {
        Some(choose|l: Language| caiyun_code(l) == Some(s))
    } else {
        None
    }
}

/// Inverse of the Caiyun table, over the numbers of the codes.
pub open spec fn caiyun_by_key(k: int) -> Option<Language> {
    if k == 15720 {
        Some(Language::ChineseTraditional)
    } else if k == 540147319338868 {
        Some(Language::Chinese)
    } else if k == 13038 {
        Some(Language::English)
    } else if k == 13170 {
        Some(Language::French)
    } else if k == 12901 {
        Some(Language::German)
    } else if k == 13556 {
        Some(Language::Italian)
    } else if k == 13665 {
        Some(Language::Japanese)
    } else if k == 13807 {
        Some(Language::Korean)
    } else if k == 14452 {
        Some(Language::Portuguese)
    } else if k == 14709 {
        Some(Language::Russian)
    } else if k == 13043 {
        Some(Language::Spanish)
    } else if k == 14962 {
        Some(Language::Turkish)
    } else if k == 15209 {
        Some(Language::Vietnamese)
    } else {
        None
    }
}

/// No two languages share a Caiyun wire code.
pub proof fn lemma_caiyun_codes_distinct()
    ensures
        forall|a: Language, b: Language| #[trigger] caiyun_code(a) is Some && caiyun_code(a) == #[trigger] caiyun_code(b) ==> a == b,
{
    reveal_with_fuel(key_prefix, 8);
    reveal_strlit("zh");
    assert(code_key("zh"@) == 15720);
    reveal_strlit("zh-Hant");
    assert(code_key("zh-Hant"@) == 540147319338868);
    reveal_strlit("en");
    assert(code_key("en"@) == 13038);
    reveal_strlit("fr");
    assert(code_key("fr"@) == 13170);
    reveal_strlit("de");
    assert(code_key("de"@) == 12901);
    reveal_strlit("it");
    assert(code_key("it"@) == 13556);
    reveal_strlit("ja");
    assert(code_key("ja"@) == 13665);
    reveal_strlit("ko");
    assert(code_key("ko"@) == 13807);
    reveal_strlit("pt");
    assert(code_key("pt"@) == 14452);
    reveal_strlit("ru");
    assert(code_key("ru"@) == 14709);
    reveal_strlit("es");
    assert(code_key("es"@) == 13043);
    reveal_strlit("tr");
    assert(code_key("tr"@) == 14962);
    reveal_strlit("vi");
    assert(code_key("vi"@) == 15209);
    assert forall|l: Language| #[trigger] caiyun_code(l) is Some implies caiyun_by_key(code_key(caiyun_code(l)->0)) == Some(l) by {}
}

/// The wire code of a language in MyMemory, if it has one.
pub open spec fn mymemory_code(l: Language) -> Option<Seq<char>> {
    match l {
        Language::Afrikaans => Some("af-ZA"@),
        Language::Albanian => Some("sq-AL"@),
        Language::Amharic => Some("am-ET"@),
        Language::AntiguaAndBarbudaCreoleEnglish => Some("aig-AG"@),
        Language::Arabic => Some("ar-SA"@),
        Language::Armenian => Some("hy-AM"@),
        Language::Azerbaijani => Some("az-AZ"@),
        Language::BahamasCreoleEnglish => Some("bah-BS"@),
        Language::Bajan => Some("bjs-BB"@),
        Language::Basque => Some("eu-ES"@),
        Language::Belarusian => Some("be-BY"@),
        Language::Bemba => Some("bem-ZM"@),
        Language::Bengali => Some("bn-IN"@),
        Language::Bislama => Some("bi-VU"@),
        Language::Bosnian => Some("bs-BA"@),
        Language::Breton => Some("br-FR"@),
        Language::Bulgarian => Some("bg-BG"@),
        Language::Burmese => Some("my-MM"@),
        Language::Catalan => Some("ca-ES"@),
        Language::Cebuano => Some("ceb-PH"@),
        Language::CentralKhmer => Some("km-KM"@),
        Language::CentralKurdish => Some("ckb-IQ"@),
        Language::Chamorro => Some("ch-GU"@),
        Language::ChichewaChewaNyanja => Some("ny-MW"@),
        Language::ChineseTraditional => Some("zh-TW"@),
        Language::Chinese => Some("zh-CN"@),
        Language::ClassicalSyriac => Some("syc-TR"@),
        Language::Coptic => Some("cop-EG"@),
        Language::Croatian => Some("hr-HR"@),
        Language::Czech => Some("cs-CZ"@),
        Language::Danish => Some("da-DK"@),
        Language::DivehiDhivehiMaldivian => Some("dv-MV"@),
        Language::Dutch => Some("nl-NL"@),
        Language::Dzongkha => Some("dz-BT"@),
        Language::English => Some("en-GB"@),
        Language::Esperanto => Some("eo-EU"@),
        Language::Estonian => Some("et-EE"@),
        Language::Fanagalo => Some("fn-FNG"@),
        Language::Faroese => Some("fo-FO"@),
        Language::Finnish => Some("fi-FI"@),
        Language::French => Some("fr-FR"@),
        Language::Gaelic => Some("gd-GB"@),
        Language::Galician => Some("gl-ES"@),
        Language::Georgian => Some("ka-GE"@),
        Language::German => Some("de-DE"@),
        Language::Greek => Some("el-GR"@),
        Language::GreekAncient => Some("grc-GR"@),
        Language::GrenadianCreoleEnglish => Some("gcl-GD"@),
        Language::Gujarati => Some("gu-IN"@),
        Language::GuyaneseCreoleEnglish => Some("gyn-GY"@),
        Language::Haitian => Some("ht-HT"@),
        Language::Hausa => Some("ha-NE"@),
        Language::Hawaiian => Some("haw-US"@),
        Language::Hebrew => Some("he-IL"@),
        Language::Hindi => Some("hi-IN"@),
        Language::Hungarian => Some("hu-HU"@),
        Language::Icelandic => Some("is-IS"@),
        Language::Indonesian => Some("id-ID"@),
        Language::Irish => Some("ga-IE"@),
        Language::Italian => Some("it-IT"@),
        Language::JamaicanCreoleEnglish => Some("jam-JM"@),
        Language::Japanese => Some("ja-JP"@),
        Language::Javanese => Some("jv-ID"@),
        Language::Kabuverdianu => Some("kea-CV"@),
        Language::Kabyle => Some("kab-DZ"@),
        Language::KalaallisutGreenlandic => Some("kl-GL"@),
        Language::Kannada => Some("kn-IN"@),
        Language::Kazakh => Some("kk-KZ"@),
        Language::Kinyarwanda => Some("rw-RW"@),
        Language::KirghizKyrgyz => Some("ky-KG"@),
        Language::Korean => Some("ko-KR"@),
        Language::Kurdish => Some("ku-TR"@),
        Language::Lao => Some("lo-LA"@),
        Language::Latin => Some("la-VA"@),
        Language::Latvian => Some("lv-LV"@),
        Language::Lithuanian => Some("lt-LT"@),
        Language::Luxembourgish => Some("lb-LU"@),
        Language::Macedonian => Some("mk-MK"@),
        Language::Malagasy => Some("mg-MG"@),
        Language::Malay => Some("ms-MY"@),
        Language::Maltese => Some("mt-MT"@),
        Language::Manx => Some("gv-IM"@),
        Language::Maori => Some("mi-NZ"@),
        Language::Marshallese => Some("mh-MH"@),
        Language::Mende => Some("men-SL"@),
        Language::Mongolian => Some("mn-MN"@),
        Language::Morisyen => Some("mfe-MU"@),
        Language::Nepali => Some("ne-NP"@),
        Language::NgazidjaComorian => Some("zdj-KM"@),
        Language::Niuean => Some("niu-NU"@),
        Language::Norwegian => Some("no-NO"@),
        Language::Palauan => Some("pau-PW"@),
        Language::Panjabi => Some("pa-IN"@),
        Language::Papiamento => Some("pap-CW"@),
        Language::Persian => Some("fa-IR"@),
        Language::Pijin => Some("pis-SB"@),
        Language::Polish => Some("pl-PL"@),
        Language::Portuguese => Some("pt-PT"@),
        Language::Potawatomi => Some("pot-US"@),
        Language::Pushto => Some("ps-PK"@),
        Language::Quechua => Some("qu-PE"@),
        Language::Romanian => Some("ro-RO"@),
        Language::Romansh => Some("rm-RO"@),
        Language::Rundi => Some("rn-BI"@),
        Language::Russian => Some("ru-RU"@),
        Language::SaintLucianCreoleFrench => Some("acf-LC"@),
        Language::Samoan => Some("sm-WS"@),
        Language::Sango => Some("sg-CF"@),
        Language::Serbian => Some("sr-RS"@),
        Language::SeselwaCreoleFrench => Some("crs-SC"@),
        Language::Shona => Some("sn-ZW"@),
        Language::Sinhala => Some("si-LK"@),
        Language::Slovak => Some("sk-SK"@),
        Language::Slovenian => Some("sl-SI"@),
        Language::Somali => Some("so-SO"@),
        Language::SothoSouthern => Some("st-ST"@),
        Language::Spanish => Some("es-ES"@),
        Language::SrananTongo => Some("srn-SR"@),
        Language::Swahili => Some("sw-SZ"@),
        Language::Swedish => Some("sv-SE"@),
        Language::SwissGerman => Some("de-CH"@),
        Language::Tagalog => Some("tl-PH"@),
        Language::Tajik => Some("tg-TJ"@),
        Language::Tamashek => Some("tmh-DZ"@),
        Language::Tamil => Some("ta-LK"@),
        Language::Telugu => Some("te-IN"@),
        Language::Tetum => Some("tet-TL"@),
        Language::Thai => Some("th-TH"@),
        Language::Tibetan => Some("bo-CN"@),
        Language::Tigrinya => Some("ti-TI"@),
        Language::TokPisin => Some("tpi-PG"@),
        Language::Tokelau => Some("tkl-TK"@),
        Language::Tonga => Some("to-TO"@),
        Language::Tswana => Some("tn-BW"@),
        Language::Turkish => Some("tr-TR"@),
        Language::Turkmen => Some("tk-TM"@),
        Language::Tuvalu => Some("tvl-TV"@),
        Language::Ukrainian => Some("uk-UA"@),
        Language::Uma => Some("ppk-ID"@),
        Language::UpperGuineaCrioulo => Some("pov-GW"@),
        Language::Urdu => Some("ur-PK"@),
        Language::Uzbek => Some("uz-UZ"@),
        Language::Vietnamese => Some("vi-VN"@),
        Language::VincentianCreoleEnglish => Some("svc-VC"@),
        Language::VirginIslandsCreoleEnglish => Some("vic-US"@),
        Language::Wallisian => Some("wls-WF"@),
        Language::Welsh => Some("cy-GB"@),
        Language::Wolof => Some("wo-SN"@),
        Language::Xhosa => Some("xh-ZA"@),
        Language::Yiddish => Some("yi-YD"@),
        Language::Zulu => Some("zu-ZA"@),
        _ => None,
    }
}

/// The language whose MyMemory wire code is `s`, if there is one.
pub open spec fn mymemory_language(s: Seq<char>) -> Option<Language> {
    if exists|l: Language| mymemory_code(l) == Some(s) {
        Some(choose|l: Language| mymemory_code(l) == Some(s))
    } else {
        None
    }
}

/// Inverse of the MyMemory table, over the numbers of the codes.
pub open spec fn mymemory_by_key(k: int) -> Option<Language> {
    if k == 26252897601 {
        Some(Language::Afrikaans)
    } else if k == 31107801292 {
        Some(Language::Albanian)
    } else if k == 26267574996 {
        Some(Language::Amharic)
    } else if k == 3361297096903 {
        Some(Language::AntiguaAndBarbudaCreoleEnglish)
    } else if k == 26278062529 {
        Some(Language::Arabic)
    } else if k == 28171788493 {
        Some(Language::Armenian)
    } else if k == 26294837466 {
        Some(Language::Azerbaijani)
    } else if k == 3393511448915 {
        Some(Language::BahamasCreoleEnglish)
    } else if k == 3395950436674 {
        Some(Language::Bajan)
    } else if k == 27358094035 {
        Some(Language::Basque)
    } else if k == 26519232857 {
        Some(Language::Belarusian)
    } else if k == 3394595679565 {
        Some(Language::Bemba)
    } else if k == 26538108110 {
        Some(Language::Bengali)
    } else if k == 26527624021 {
        Some(Language::Bislama)
    } else if k == 26548592961 {
        Some(Language::Bosnian)
    } else if k == 26546496338 {
        Some(Language::Breton)
    } else if k == 26523427143 {
        Some(Language::Bulgarian)
    } else if k == 29513967309 {
        Some(Language::Burmese)
    } else if k == 26779280083 {
        Some(Language::Catalan)
    } else if k == 3428932347976 {
        Some(Language::Cebuano)
    } else if k == 28951930317 {
        Some(Language::CentralKhmer)
    } else if k == 3430542959825 {
        Some(Language::CentralKurdish)
    } else if k == 26793960405 {
        Some(Language::Chamorro)
    } else if k == 29782402775 {
        Some(Language::ChichewaChewaNyanja)
    } else if k == 32967977559 {
        Some(Language::ChineseTraditional)
    } else if k == 32967975374 {
        Some(Language::Chinese)
    } else if k == 3984058968658 {
        Some(Language::ClassicalSyriac)
    } else if k == 3431646061255 {
        Some(Language::Coptic)
    } else if k == 28157109330 {
        Some(Language::Croatian)
    } else if k == 26817028570 {
        Some(Language::Czech)
    } else if k == 27047715403 {
        Some(Language::Danish)
    } else if k == 27091756758 {
        Some(Language::DivehiDhivehiMaldivian)
    } else if k == 29755139916 {
        Some(Language::Dutch)
    } else if k == 27100143956 {
        Some(Language::Dzongkha)
    } else if k == 27343414210 {
        Some(Language::English)
    } else if k == 27345511125 {
        Some(Language::Esperanto)
    } else if k == 27355996869 {
        Some(Language::Estonian)
    } else if k == 3534316742471 {
        Some(Language::Fanagalo)
    } else if k == 27613946703 {
        Some(Language::Faroese)
    } else if k == 27601363785 {
        Some(Language::Finnish)
    } else if k == 27620238162 {
        Some(Language::French)
    } else if k == 27859313602 {
        Some(Language::Gaelic)
    } else if k == 27876090579 {
        Some(Language::Galician)
    } else if k == 28926763973 {
        Some(Language::Georgian)
    } else if k == 27056104005 {
        Some(Language::German)
    } else if k == 27339219922 {
        Some(Language::Greek)
    } else if k == 3569863058386 {
        Some(Language::GreekAncient)
    } else if k == 3565855400900 {
        Some(Language::GrenadianCreoleEnglish)
    } else if k == 27894965454 {
        Some(Language::Gujarati)
    } else if k == 3571765175257 {
        Some(Language::GuyaneseCreoleEnglish)
    } else if k == 28161303636 {
        Some(Language::Haitian)
    } else if k == 28121458501 {
        Some(Language::Hausa)
    } else if k == 3599701338835 {
        Some(Language::Hawaiian)
    } else if k == 28129846476 {
        Some(Language::Hebrew)
    } else if k == 28138235086 {
        Some(Language::Hindi)
    } else if k == 28163400789 {
        Some(Language::Hungarian)
    } else if k == 28427642067 {
        Some(Language::Icelandic)
    } else if k == 28396184772 {
        Some(Language::Indonesian)
    } else if k == 27853022405 {
        Some(Language::Irish)
    } else if k == 28429739220 {
        Some(Language::Italian)
    } else if k == 3668399842637 {
        Some(Language::JamaicanCreoleEnglish)
    } else if k == 28658328912 {
        Some(Language::Japanese)
    } else if k == 28702368964 {
        Some(Language::Javanese)
    } else if k == 3703808156118 {
        Some(Language::Kabuverdianu)
    } else if k == 3702736511578 {
        Some(Language::Kabyle)
    } else if k == 28949832652 {
        Some(Language::KalaallisutGreenlandic)
    } else if k == 28954027214 {
        Some(Language::Kannada)
    } else if k == 28947736026 {
        Some(Language::Kazakh)
    } else if k == 30851950935 {
        Some(Language::Kinyarwanda)
    } else if k == 28977096135 {
        Some(Language::KirghizKyrgyz)
    } else if k == 28956124626 {
        Some(Language::Korean)
    } else if k == 28968708690 {
        Some(Language::Kurdish)
    } else if k == 29224560193 {
        Some(Language::Lao)
    } else if k == 29195201345 {
        Some(Language::Latin)
    } else if k == 29239240278 {
        Some(Language::Latvian)
    } else if k == 29235045972 {
        Some(Language::Lithuanian)
    } else if k == 29197297237 {
        Some(Language::Luxembourgish)
    } else if k == 29484607179 {
        Some(Language::Macedonian)
    } else if k == 29476218567 {
        Some(Language::Malagasy)
    } else if k == 29501384409 {
        Some(Language::Malay)
    } else if k == 29503481556 {
        Some(Language::Maltese)
    } else if k == 27897062605 {
        Some(Language::Manx)
    } else if k == 29480413018 {
        Some(Language::Maori)
    } else if k == 29478315720 {
        Some(Language::Marshallese)
    } else if k == 3772554897868 {
        Some(Language::Mende)
    } else if k == 29490898638 {
        Some(Language::Mongolian)
    } else if k == 3772804458197 {
        Some(Language::Morisyen)
    } else if k == 29740459856 {
        Some(Language::Nepali)
    } else if k == 4218954671565 {
        Some(Language::NgazidjaComorian)
    } else if k == 3808003057493 {
        Some(Language::Niuean)
    } else if k == 29761431375 {
        Some(Language::Norwegian)
    } else if k == 3874575050839 {
        Some(Language::Palauan)
    } else if k == 30268941518 {
        Some(Language::Panjabi)
    } else if k == 3874564563415 {
        Some(Language::Papiamento)
    } else if k == 27584586962 {
        Some(Language::Persian)
    } else if k == 3876718340546 {
        Some(Language::Pijin)
    } else if k == 30292011084 {
        Some(Language::Polish)
    } else if k == 30308788308 {
        Some(Language::Portuguese)
    } else if k == 3878331050707 {
        Some(Language::Potawatomi)
    } else if k == 30306691147 {
        Some(Language::Pushto)
    } else if k == 30579320901 {
        Some(Language::Quechua)
    } else if k == 30835173711 {
        Some(Language::Romanian)
    } else if k == 30830979407 {
        Some(Language::Romansh)
    } else if k == 30833074505 {
        Some(Language::Rundi)
    } else if k == 30847756629 {
        Some(Language::Russian)
    } else if k == 3359684388419 {
        Some(Language::SaintLucianCreoleFrench)
    } else if k == 31099415507 {
        Some(Language::Samoan)
    } else if k == 31086830022 {
        Some(Language::Sango)
    } else if k == 31109900627 {
        Some(Language::Serbian)
    } else if k == 3432457660867 {
        Some(Language::SeselwaCreoleFrench)
    } else if k == 31101513047 {
        Some(Language::Shona)
    } else if k == 31091025483 {
        Some(Language::Sinhala)
    } else if k == 31095220683 {
        Some(Language::Slovak)
    } else if k == 31097317833 {
        Some(Language::Slovenian)
    } else if k == 31103609295 {
        Some(Language::Somali)
    } else if k == 31114095060 {
        Some(Language::SothoSouthern)
    } else if k == 27353899731 {
        Some(Language::Spanish)
    } else if k == 3982202989010 {
        Some(Language::SrananTongo)
    } else if k == 31120386522 {
        Some(Language::Swahili)
    } else if k == 31118289349 {
        Some(Language::Swedish)
    } else if k == 27056103880 {
        Some(Language::SwissGerman)
    } else if k == 31365752904 {
        Some(Language::Tagalog)
    } else if k == 31355267658 {
        Some(Language::Tajik)
    } else if k == 4015207965274 {
        Some(Language::Tamashek)
    } else if k == 31342683723 {
        Some(Language::Tamil)
    } else if k == 31351071950 {
        Some(Language::Telugu)
    } else if k == 4013085649484 {
        Some(Language::Tetum)
    } else if k == 31357364808 {
        Some(Language::Thai)
    } else if k == 26540204494 {
        Some(Language::Tibetan)
    } else if k == 31359461961 {
        Some(Language::Tigrinya)
    } else if k == 4016015370311 {
        Some(Language::TokPisin)
    } else if k == 4014679485003 {
        Some(Language::Tokelau)
    } else if k == 31372044879 {
        Some(Language::Tonga)
    } else if k == 31369945431 {
        Some(Language::Tswana)
    } else if k == 31378336338 {
        Some(Language::Turkish)
    } else if k == 31363656269 {
        Some(Language::Turkmen)
    } else if k == 4017632275030 {
        Some(Language::Tuvalu)
    } else if k == 31632091841 {
        Some(Language::Ukrainian)
    } else if k == 3878580610244 {
        Some(Language::Uma)
    } else if k == 3878335243223 {
        Some(Language::UpperGuineaCrioulo)
    } else if k == 31646771275 {
        Some(Language::Urdu)
    } else if k == 31663549146 {
        Some(Language::Uzbek)
    } else if k == 31896333134 {
        Some(Language::Vietnamese)
    } else if k == 3983253662531 {
        Some(Language::VincentianCreoleEnglish)
    } else if k == 4082843216595 {
        Some(Language::VirginIslandsCreoleEnglish)
    } else if k == 4118041816006 {
        Some(Language::Wallisian)
    } else if k == 26829611970 {
        Some(Language::Welsh)
    } else if k == 32177351118 {
        Some(Language::Wolof)
    } else if k == 32431107393 {
        Some(Language::Xhosa)
    } else if k == 32701639876 {
        Some(Language::Yiddish)
    } else if k == 32995241281 {
        Some(Language::Zulu)
    } else {
        None
    }
}

/// No two languages share a MyMemory wire code.
pub proof fn lemma_mymemory_codes_distinct()
    ensures
        forall|a: Language, b: Language| #[trigger] mymemory_code(a) is Some && mymemory_code(a) == #[trigger] mymemory_code(b) ==> a == b,
{
    reveal_with_fuel(key_prefix, 8);
    reveal_strlit("af-ZA");
    assert(code_key("af-ZA"@) == 26252897601);
    reveal_strlit("sq-AL");
    assert(code_key("sq-AL"@) == 31107801292);
    reveal_strlit("am-ET");
    assert(code_key("am-ET"@) == 26267574996);
    reveal_strlit("aig-AG");
    assert(code_key("aig-AG"@) == 3361297096903);
    reveal_strlit("ar-SA");
    assert(code_key("ar-SA"@) == 26278062529);
    reveal_strlit("hy-AM");
    assert(code_key("hy-AM"@) == 28171788493);
    reveal_strlit("az-AZ");
    assert(code_key("az-AZ"@) == 26294837466);
    reveal_strlit("bah-BS");
    assert(code_key("bah-BS"@) == 3393511448915);
    reveal_strlit("bjs-BB");
    assert(code_key("bjs-BB"@) == 3395950436674);
    reveal_strlit("eu-ES");
    assert(code_key("eu-ES"@) == 27358094035);
    reveal_strlit("be-BY");
    assert(code_key("be-BY"@) == 26519232857);
    reveal_strlit("bem-ZM");
    assert(code_key("bem-ZM"@) == 3394595679565);
    reveal_strlit("bn-IN");
    assert(code_key("bn-IN"@) == 26538108110);
    reveal_strlit("bi-VU");
    assert(code_key("bi-VU"@) == 26527624021);
    reveal_strlit("bs-BA");
    assert(code_key("bs-BA"@) == 26548592961);
    reveal_strlit("br-FR");
    assert(code_key("br-FR"@) == 26546496338);
    reveal_strlit("bg-BG");
    assert(code_key("bg-BG"@) == 26523427143);
    reveal_strlit("my-MM");
    assert(code_key("my-MM"@) == 29513967309);
    reveal_strlit("ca-ES");
    assert(code_key("ca-ES"@) == 26779280083);
    reveal_strlit("ceb-PH");
    assert(code_key("ceb-PH"@) == 3428932347976);
    reveal_strlit("km-KM");
    assert(code_key("km-KM"@) == 28951930317);
    reveal_strlit("ckb-IQ");
    assert(code_key("ckb-IQ"@) == 3430542959825);
    reveal_strlit("ch-GU");
    assert(code_key("ch-GU"@) == 26793960405);
    reveal_strlit("ny-MW");
    assert(code_key("ny-MW"@) == 29782402775);
    reveal_strlit("zh-TW");
    assert(code_key("zh-TW"@) == 32967977559);
    reveal_strlit("zh-CN");
    assert(code_key("zh-CN"@) == 32967975374);
    reveal_strlit("syc-TR");
    assert(code_key("syc-TR"@) == 3984058968658);
    reveal_strlit("cop-EG");
    assert(code_key("cop-EG"@) == 3431646061255);
    reveal_strlit("hr-HR");
    assert(code_key("hr-HR"@) == 28157109330);
    reveal_strlit("cs-CZ");
    assert(code_key("cs-CZ"@) == 26817028570);
    reveal_strlit("da-DK");
    assert(code_key("da-DK"@) == 27047715403);
    reveal_strlit("dv-MV");
    assert(code_key("dv-MV"@) == 27091756758);
    reveal_strlit("nl-NL");
    assert(code_key("nl-NL"@) == 29755139916);
    reveal_strlit("dz-BT");
    assert(code_key("dz-BT"@) == 27100143956);
    reveal_strlit("en-GB");
    assert(code_key("en-GB"@) == 27343414210);
    reveal_strlit("eo-EU");
    assert(code_key("eo-EU"@) == 27345511125);
    reveal_strlit("et-EE");
    assert(code_key("et-EE"@) == 27355996869);
    reveal_strlit("fn-FNG");
    assert(code_key("fn-FNG"@) == 3534316742471);
    reveal_strlit("fo-FO");
    assert(code_key("fo-FO"@) == 27613946703);
    reveal_strlit("fi-FI");
    assert(code_key("fi-FI"@) == 27601363785);
    reveal_strlit("fr-FR");
    assert(code_key("fr-FR"@) == 27620238162);
    reveal_strlit("gd-GB");
    assert(code_key("gd-GB"@) == 27859313602);
    reveal_strlit("gl-ES");
    assert(code_key("gl-ES"@) == 27876090579);
    reveal_strlit("ka-GE");
    assert(code_key("ka-GE"@) == 28926763973);
    reveal_strlit("de-DE");
    assert(code_key("de-DE"@) == 27056104005);
    reveal_strlit("el-GR");
    assert(code_key("el-GR"@) == 27339219922);
    reveal_strlit("grc-GR");
    assert(code_key("grc-GR"@) == 3569863058386);
    reveal_strlit("gcl-GD");
    assert(code_key("gcl-GD"@) == 3565855400900);
    reveal_strlit("gu-IN");
    assert(code_key("gu-IN"@) == 27894965454);
    reveal_strlit("gyn-GY");
    assert(code_key("gyn-GY"@) == 3571765175257);
    reveal_strlit("ht-HT");
    assert(code_key("ht-HT"@) == 28161303636);
    reveal_strlit("ha-NE");
    assert(code_key("ha-NE"@) == 28121458501);
    reveal_strlit("haw-US");
    assert(code_key("haw-US"@) == 3599701338835);
    reveal_strlit("he-IL");
    assert(code_key("he-IL"@) == 28129846476);
    reveal_strlit("hi-IN");
    assert(code_key("hi-IN"@) == 28138235086);
    reveal_strlit("hu-HU");
    assert(code_key("hu-HU"@) == 28163400789);
    reveal_strlit("is-IS");
    assert(code_key("is-IS"@) == 28427642067);
    reveal_strlit("id-ID");
    assert(code_key("id-ID"@) == 28396184772);
    reveal_strlit("ga-IE");
    assert(code_key("ga-IE"@) == 27853022405);
    reveal_strlit("it-IT");
    assert(code_key("it-IT"@) == 28429739220);
    reveal_strlit("jam-JM");
    assert(code_key("jam-JM"@) == 3668399842637);
    reveal_strlit("ja-JP");
    assert(code_key("ja-JP"@) == 28658328912);
    reveal_strlit("jv-ID");
    assert(code_key("jv-ID"@) == 28702368964);
    reveal_strlit("kea-CV");
    assert(code_key("kea-CV"@) == 3703808156118);
    reveal_strlit("kab-DZ");
    assert(code_key("kab-DZ"@) == 3702736511578);
    reveal_strlit("kl-GL");
    assert(code_key("kl-GL"@) == 28949832652);
    reveal_strlit("kn-IN");
    assert(code_key("kn-IN"@) == 28954027214);
    reveal_strlit("kk-KZ");
    assert(code_key("kk-KZ"@) == 28947736026);
    reveal_strlit("rw-RW");
    assert(code_key("rw-RW"@) == 30851950935);
    reveal_strlit("ky-KG");
    assert(code_key("ky-KG"@) == 28977096135);
    reveal_strlit("ko-KR");
    assert(code_key("ko-KR"@) == 28956124626);
    reveal_strlit("ku-TR");
    assert(code_key("ku-TR"@) == 28968708690);
    reveal_strlit("lo-LA");
    assert(code_key("lo-LA"@) == 29224560193);
    reveal_strlit("la-VA");
    assert(code_key("la-VA"@) == 29195201345);
    reveal_strlit("lv-LV");
    assert(code_key("lv-LV"@) == 29239240278);
    reveal_strlit("lt-LT");
    assert(code_key("lt-LT"@) == 29235045972);
    reveal_strlit("lb-LU");
    assert(code_key("lb-LU"@) == 29197297237);
    reveal_strlit("mk-MK");
    assert(code_key("mk-MK"@) == 29484607179);
    reveal_strlit("mg-MG");
    assert(code_key("mg-MG"@) == 29476218567);
    reveal_strlit("ms-MY");
    assert(code_key("ms-MY"@) == 29501384409);
    reveal_strlit("mt-MT");
    assert(code_key("mt-MT"@) == 29503481556);
    reveal_strlit("gv-IM");
    assert(code_key("gv-IM"@) == 27897062605);
    reveal_strlit("mi-NZ");
    assert(code_key("mi-NZ"@) == 29480413018);
    reveal_strlit("mh-MH");
    assert(code_key("mh-MH"@) == 29478315720);
    reveal_strlit("men-SL");
    assert(code_key("men-SL"@) == 3772554897868);
    reveal_strlit("mn-MN");
    assert(code_key("mn-MN"@) == 29490898638);
    reveal_strlit("mfe-MU");
    assert(code_key("mfe-MU"@) == 3772804458197);
    reveal_strlit("ne-NP");
    assert(code_key("ne-NP"@) == 29740459856);
    reveal_strlit("zdj-KM");
    assert(code_key("zdj-KM"@) == 4218954671565);
    reveal_strlit("niu-NU");
    assert(code_key("niu-NU"@) == 3808003057493);
    reveal_strlit("no-NO");
    assert(code_key("no-NO"@) == 29761431375);
    reveal_strlit("pau-PW");
    assert(code_key("pau-PW"@) == 3874575050839);
    reveal_strlit("pa-IN");
    assert(code_key("pa-IN"@) == 30268941518);
    reveal_strlit("pap-CW");
    assert(code_key("pap-CW"@) == 3874564563415);
    reveal_strlit("fa-IR");
    assert(code_key("fa-IR"@) == 27584586962);
    reveal_strlit("pis-SB");
    assert(code_key("pis-SB"@) == 3876718340546);
    reveal_strlit("pl-PL");
    assert(code_key("pl-PL"@) == 30292011084);
    reveal_strlit("pt-PT");
    assert(code_key("pt-PT"@) == 30308788308);
    reveal_strlit("pot-US");
    assert(code_key("pot-US"@) == 3878331050707);
    reveal_strlit("ps-PK");
    assert(code_key("ps-PK"@) == 30306691147);
    reveal_strlit("qu-PE");
    assert(code_key("qu-PE"@) == 30579320901);
    reveal_strlit("ro-RO");
    assert(code_key("ro-RO"@) == 30835173711);
    reveal_strlit("rm-RO");
    assert(code_key("rm-RO"@) == 30830979407);
    reveal_strlit("rn-BI");
    assert(code_key("rn-BI"@) == 30833074505);
    reveal_strlit("ru-RU");
    assert(code_key("ru-RU"@) == 30847756629);
    reveal_strlit("acf-LC");
    assert(code_key("acf-LC"@) == 3359684388419);
    reveal_strlit("sm-WS");
    assert(code_key("sm-WS"@) == 31099415507);
    reveal_strlit("sg-CF");
    assert(code_key("sg-CF"@) == 31086830022);
    reveal_strlit("sr-RS");
    assert(code_key("sr-RS"@) == 31109900627);
    reveal_strlit("crs-SC");
    assert(code_key("crs-SC"@) == 3432457660867);
    reveal_strlit("sn-ZW");
    assert(code_key("sn-ZW"@) == 31101513047);
    reveal_strlit("si-LK");
    assert(code_key("si-LK"@) == 31091025483);
    reveal_strlit("sk-SK");
    assert(code_key("sk-SK"@) == 31095220683);
    reveal_strlit("sl-SI");
    assert(code_key("sl-SI"@) == 31097317833);
    reveal_strlit("so-SO");
    assert(code_key("so-SO"@) == 31103609295);
    reveal_strlit("st-ST");
    assert(code_key("st-ST"@) == 31114095060);
    reveal_strlit("es-ES");
    assert(code_key("es-ES"@) == 27353899731);
    reveal_strlit("srn-SR");
    assert(code_key("srn-SR"@) == 3982202989010);
    reveal_strlit("sw-SZ");
    assert(code_key("sw-SZ"@) == 31120386522);
    reveal_strlit("sv-SE");
    assert(code_key("sv-SE"@) == 31118289349);
    reveal_strlit("de-CH");
    assert(code_key("de-CH"@) == 27056103880);
    reveal_strlit("tl-PH");
    assert(code_key("tl-PH"@) == 31365752904);
    reveal_strlit("tg-TJ");
    assert(code_key("tg-TJ"@) == 31355267658);
    reveal_strlit("tmh-DZ");
    assert(code_key("tmh-DZ"@) == 4015207965274);
    reveal_strlit("ta-LK");
    assert(code_key("ta-LK"@) == 31342683723);
    reveal_strlit("te-IN");
    assert(code_key("te-IN"@) == 31351071950);
    reveal_strlit("tet-TL");
    assert(code_key("tet-TL"@) == 4013085649484);
    reveal_strlit("th-TH");
    assert(code_key("th-TH"@) == 31357364808);
    reveal_strlit("bo-CN");
    assert(code_key("bo-CN"@) == 26540204494);
    reveal_strlit("ti-TI");
    assert(code_key("ti-TI"@) == 31359461961);
    reveal_strlit("tpi-PG");
    assert(code_key("tpi-PG"@) == 4016015370311);
    reveal_strlit("tkl-TK");
    assert(code_key("tkl-TK"@) == 4014679485003);
    reveal_strlit("to-TO");
    assert(code_key("to-TO"@) == 31372044879);
    reveal_strlit("tn-BW");
    assert(code_key("tn-BW"@) == 31369945431);
    reveal_strlit("tr-TR");
    assert(code_key("tr-TR"@) == 31378336338);
    reveal_strlit("tk-TM");
    assert(code_key("tk-TM"@) == 31363656269);
    reveal_strlit("tvl-TV");
    assert(code_key("tvl-TV"@) == 4017632275030);
    reveal_strlit("uk-UA");
    assert(code_key("uk-UA"@) == 31632091841);
    reveal_strlit("ppk-ID");
    assert(code_key("ppk-ID"@) == 3878580610244);
    reveal_strlit("pov-GW");
    assert(code_key("pov-GW"@) == 3878335243223);
    reveal_strlit("ur-PK");
    assert(code_key("ur-PK"@) == 31646771275);
    reveal_strlit("uz-UZ");
    assert(code_key("uz-UZ"@) == 31663549146);
    reveal_strlit("vi-VN");
    assert(code_key("vi-VN"@) == 31896333134);
    reveal_strlit("svc-VC");
    assert(code_key("svc-VC"@) == 3983253662531);
    reveal_strlit("vic-US");
    assert(code_key("vic-US"@) == 4082843216595);
    reveal_strlit("wls-WF");
    assert(code_key("wls-WF"@) == 4118041816006);
    reveal_strlit("cy-GB");
    assert(code_key("cy-GB"@) == 26829611970);
    reveal_strlit("wo-SN");
    assert(code_key("wo-SN"@) == 32177351118);
    reveal_strlit("xh-ZA");
    assert(code_key("xh-ZA"@) == 32431107393);
    reveal_strlit("yi-YD");
    assert(code_key("yi-YD"@) == 32701639876);
    reveal_strlit("zu-ZA");
    assert(code_key("zu-ZA"@) == 32995241281);
    assert forall|l: Language| #[trigger] mymemory_code(l) is Some implies mymemory_by_key(code_key(mymemory_code(l)->0)) == Some(l) by {}
}

/// The wire code of a language in the short MyMemory vocabulary (also used by Alibaba), if it has one.
pub open spec fn mymemory_short_code(l: Language) -> Option<Seq<char>> {
    match l {
        Language::Afrikaans => Some("af"@),
        Language::Albanian => Some("sq"@),
        Language::Amharic => Some("am"@),
        Language::AntiguaAndBarbudaCreoleEnglish => Some("aig"@),
        Language::Arabic => Some("ar"@),
        Language::Armenian => Some("hy"@),
        Language::Azerbaijani => Some("az"@),
        Language::BahamasCreoleEnglish => Some("bah"@),
        Language::Bajan => Some("bjs"@),
        Language::Basque => Some("eu"@),
        Language::Belarusian => Some("be"@),
        Language::Bemba => Some("bem"@),
        Language::Bengali => Some("bn"@),
        Language::Bislama => Some("bi"@),
        Language::Bosnian => Some("bs"@),
        Language::Breton => Some("br"@),
        Language::Bulgarian => Some("bg"@),
        Language::Burmese => Some("my"@),
        Language::Catalan => Some("ca"@),
        Language::Cebuano => Some("ceb"@),
        Language::CentralKhmer => Some("km"@),
        Language::CentralKurdish => Some("ckb"@),
        Language::Chamorro => Some("ch"@),
        Language::ChichewaChewaNyanja => Some("ny"@),
        Language::Chinese => Some("zh"@),
        Language::ClassicalSyriac => Some("syc"@),
        Language::Coptic => Some("cop"@),
        Language::Croatian => Some("hr"@),
        Language::Czech => Some("cs"@),
        Language::Danish => Some("da"@),
        Language::DivehiDhivehiMaldivian => Some("dv"@),
        Language::Dutch => Some("nl"@),
        Language::Dzongkha => Some("dz"@),
        Language::English => Some("en"@),
        Language::Esperanto => Some("eo"@),
        Language::Estonian => Some("et"@),
        Language::Fanagalo => Some("fng"@),
        Language::Faroese => Some("fo"@),
        Language::Finnish => Some("fi"@),
        Language::French => Some("fr"@),
        Language::Gaelic => Some("gd"@),
        Language::Galician => Some("gl"@),
        Language::Georgian => Some("ka"@),
        Language::German => Some("de"@),
        Language::Greek => Some("el"@),
        Language::GreekAncient => Some("grc"@),
        Language::GrenadianCreoleEnglish => Some("gcl"@),
        Language::Gujarati => Some("gu"@),
        Language::GuyaneseCreoleEnglish => Some("gyn"@),
        Language::Haitian => Some("ht"@),
        Language::Hausa => Some("ha"@),
        Language::Hawaiian => Some("haw"@),
        Language::Hebrew => Some("he"@),
        Language::Hindi => Some("hi"@),
        Language::Hungarian => Some("hu"@),
        Language::Icelandic => Some("is"@),
        Language::Indonesian => Some("id"@),
        Language::Irish => Some("ga"@),
        Language::Italian => Some("it"@),
        Language::JamaicanCreoleEnglish => Some("jam"@),
        Language::Japanese => Some("ja"@),
        Language::Javanese => Some("jv"@),
        Language::Kabuverdianu => Some("kea"@),
        Language::Kabyle => Some("kab"@),
        Language::KalaallisutGreenlandic => Some("kl"@),
        Language::Kannada => Some("kn"@),
        Language::Kazakh => Some("kk"@),
        Language::Kinyarwanda => Some("rw"@),
        Language::KirghizKyrgyz => Some("ky"@),
        Language::Korean => Some("ko"@),
        Language::Kurdish => Some("ku"@),
        Language::Lao => Some("lo"@),
        Language::Latin => Some("la"@),
        Language::Latvian => Some("lv"@),
        Language::Lithuanian => Some("lt"@),
        Language::Luxembourgish => Some("lb"@),
        Language::Macedonian => Some("mk"@),
        Language::Malagasy => Some("mg"@),
        Language::Malay => Some("ms"@),
        Language::Maltese => Some("mt"@),
        Language::Manx => Some("gv"@),
        Language::Maori => Some("mi"@),
        Language::Marshallese => Some("mh"@),
        Language::Mende => Some("men"@),
        Language::Mongolian => Some("mn"@),
        Language::Morisyen => Some("mfe"@),
        Language::Nepali => Some("ne"@),
        Language::NgazidjaComorian => Some("zdj"@),
        Language::Niuean => Some("niu"@),
        Language::Norwegian => Some("no"@),
        Language::Palauan => Some("pau"@),
        Language::Panjabi => Some("pa"@),
        Language::Papiamento => Some("pap"@),
        Language::Persian => Some("fa"@),
        Language::Pijin => Some("pis"@),
        Language::Polish => Some("pl"@),
        Language::Portuguese => Some("pt"@),
        Language::Potawatomi => Some("pot"@),
        Language::Pushto => Some("ps"@),
        Language::Quechua => Some("qu"@),
        Language::Romanian => Some("ro"@),
        Language::Romansh => Some("rm"@),
        Language::Rundi => Some("rn"@),
        Language::Russian => Some("ru"@),
        Language::SaintLucianCreoleFrench => Some("acf"@),
        Language::Samoan => Some("sm"@),
        Language::Sango => Some("sg"@),
        Language::Serbian => Some("sr"@),
        Language::SeselwaCreoleFrench => Some("crs"@),
        Language::Shona => Some("sn"@),
        Language::Sinhala => Some("si"@),
        Language::Slovak => Some("sk"@),
        Language::Slovenian => Some("sl"@),
        Language::Somali => Some("so"@),
        Language::SothoSouthern => Some("st"@),
        Language::Spanish => Some("es"@),
        Language::SrananTongo => Some("srn"@),
        Language::Swahili => Some("sw"@),
        Language::Swedish => Some("sv"@),
        Language::Tagalog => Some("tl"@),
        Language::Tajik => Some("tg"@),
        Language::Tamashek => Some("tmh"@),
        Language::Tamil => Some("ta"@),
        Language::Telugu => Some("te"@),
        Language::Tetum => Some("tet"@),
        Language::Thai => Some("th"@),
        Language::Tibetan => Some("bo"@),
        Language::Tigrinya => Some("ti"@),
        Language::TokPisin => Some("tpi"@),
        Language::Tokelau => Some("tkl"@),
        Language::Tonga => Some("to"@),
        Language::Tswana => Some("tn"@),
        Language::Turkish => Some("tr"@),
        Language::Turkmen => Some("tk"@),
        Language::Tuvalu => Some("tvl"@),
        Language::Ukrainian => Some("uk"@),
        Language::Uma => Some("ppk"@),
        Language::UpperGuineaCrioulo => Some("pov"@),
        Language::Urdu => Some("ur"@),
        Language::Uzbek => Some("uz"@),
        Language::Vietnamese => Some("vi"@),
        Language::VincentianCreoleEnglish => Some("svc"@),
        Language::VirginIslandsCreoleEnglish => Some("vic"@),
        Language::Wallisian => Some("wls"@),
        Language::Welsh => Some("cy"@),
        Language::Wolof => Some("wo"@),
        Language::Xhosa => Some("xh"@),
        Language::Yiddish => Some("yi"@),
        Language::Zulu => Some("zu"@),
        _ => None,
    }
}

/// The language whose the short MyMemory vocabulary (also used by Alibaba) wire code is `s`, if there is one.
pub open spec fn mymemory_short_language(s: Seq<char>) -> Option<Language> {
    if exists|l: Language| mymemory_short_code(l) == Some(s) {
        Some(choose|l: Language| mymemory_short_code(l) == Some(s))
    } else {
        None
    }
}

/// Inverse of the the short MyMemory vocabulary (also used by Alibaba) table, over the numbers of the codes.
pub open spec fn mymemory_short_by_key(k: int) -> Option<Language> {
    if k == 12518 {
        Some(Language::Afrikaans)
    } else if k == 14833 {
        Some(Language::Albanian)
    } else if k == 12525 {
        Some(Language::Amharic)
    } else if k == 1602791 {
        Some(Language::AntiguaAndBarbudaCreoleEnglish)
    } else if k == 12530 {
        Some(Language::Arabic)
    } else if k == 13433 {
        Some(Language::Armenian)
    } else if k == 12538 {
        Some(Language::Azerbaijani)
    } else if k == 1618152 {
        Some(Language::BahamasCreoleEnglish)
    } else if k == 1619315 {
        Some(Language::Bajan)
    } else if k == 13045 {
        Some(Language::Basque)
    } else if k == 12645 {
        Some(Language::Belarusian)
    } else if k == 1618669 {
        Some(Language::Bemba)
    } else if k == 12654 {
        Some(Language::Bengali)
    } else if k == 12649 {
        Some(Language::Bislama)
    } else if k == 12659 {
        Some(Language::Bosnian)
    } else if k == 12658 {
        Some(Language::Breton)
    } else if k == 12647 {
        Some(Language::Bulgarian)
    } else if k == 14073 {
        Some(Language::Burmese)
    } else if k == 12769 {
        Some(Language::Catalan)
    } else if k == 1635042 {
        Some(Language::Cebuano)
    } else if k == 13805 {
        Some(Language::CentralKhmer)
    } else if k == 1635810 {
        Some(Language::CentralKurdish)
    } else if k == 12776 {
        Some(Language::Chamorro)
    } else if k == 14201 {
        Some(Language::ChichewaChewaNyanja)
    } else if k == 15720 {
        Some(Language::Chinese)
    } else if k == 1899747 {
        Some(Language::ClassicalSyriac)
    } else if k == 1636336 {
        Some(Language::Coptic)
    } else if k == 13426 {
        Some(Language::Croatian)
    } else if k == 12787 {
        Some(Language::Czech)
    } else if k == 12897 {
        Some(Language::Danish)
    } else if k == 12918 {
        Some(Language::DivehiDhivehiMaldivian)
    } else if k == 14188 {
        Some(Language::Dutch)
    } else if k == 12922 {
        Some(Language::Dzongkha)
    } else if k == 13038 {
        Some(Language::English)
    } else if k == 13039 {
        Some(Language::Esperanto)
    } else if k == 13044 {
        Some(Language::Estonian)
    } else if k == 1685351 {
        Some(Language::Fanagalo)
    } else if k == 13167 {
        Some(Language::Faroese)
    } else if k == 13161 {
        Some(Language::Finnish)
    } else if k == 13170 {
        Some(Language::French)
    } else if k == 13284 {
        Some(Language::Gaelic)
    } else if k == 13292 {
        Some(Language::Galician)
    } else if k == 13793 {
        Some(Language::Georgian)
    } else if k == 12901 {
        Some(Language::German)
    } else if k == 13036 {
        Some(Language::Greek)
    } else if k == 1702243 {
        Some(Language::GreekAncient)
    } else if k == 1700332 {
        Some(Language::GrenadianCreoleEnglish)
    } else if k == 13301 {
        Some(Language::Gujarati)
    } else if k == 1703150 {
        Some(Language::GuyaneseCreoleEnglish)
    } else if k == 13428 {
        Some(Language::Haitian)
    } else if k == 13409 {
        Some(Language::Hausa)
    } else if k == 1716471 {
        Some(Language::Hawaiian)
    } else if k == 13413 {
        Some(Language::Hebrew)
    } else if k == 13417 {
        Some(Language::Hindi)
    } else if k == 13429 {
        Some(Language::Hungarian)
    } else if k == 13555 {
        Some(Language::Icelandic)
    } else if k == 13540 {
        Some(Language::Indonesian)
    } else if k == 13281 {
        Some(Language::Irish)
    } else if k == 13556 {
        Some(Language::Italian)
    } else if k == 1749229 {
        Some(Language::JamaicanCreoleEnglish)
    } else if k == 13665 {
        Some(Language::Japanese)
    } else if k == 13686 {
        Some(Language::Javanese)
    } else if k == 1766113 {
        Some(Language::Kabuverdianu)
    } else if k == 1765602 {
        Some(Language::Kabyle)
    } else if k == 13804 {
        Some(Language::KalaallisutGreenlandic)
    } else if k == 13806 {
        Some(Language::Kannada)
    } else if k == 13803 {
        Some(Language::Kazakh)
    } else if k == 14711 {
        Some(Language::Kinyarwanda)
    } else if k == 13817 {
        Some(Language::KirghizKyrgyz)
    } else if k == 13807 {
        Some(Language::Korean)
    } else if k == 13813 {
        Some(Language::Kurdish)
    } else if k == 13935 {
        Some(Language::Lao)
    } else if k == 13921 {
        Some(Language::Latin)
    } else if k == 13942 {
        Some(Language::Latvian)
    } else if k == 13940 {
        Some(Language::Lithuanian)
    } else if k == 13922 {
        Some(Language::Luxembourgish)
    } else if k == 14059 {
        Some(Language::Macedonian)
    } else if k == 14055 {
        Some(Language::Malagasy)
    } else if k == 14067 {
        Some(Language::Malay)
    } else if k == 14068 {
        Some(Language::Maltese)
    } else if k == 13302 {
        Some(Language::Manx)
    } else if k == 14057 {
        Some(Language::Maori)
    } else if k == 14056 {
        Some(Language::Marshallese)
    } else if k == 1798894 {
        Some(Language::Mende)
    } else if k == 14062 {
        Some(Language::Mongolian)
    } else if k == 1799013 {
        Some(Language::Morisyen)
    } else if k == 14181 {
        Some(Language::Nepali)
    } else if k == 2011754 {
        Some(Language::NgazidjaComorian)
    } else if k == 1815797 {
        Some(Language::Niuean)
    } else if k == 14191 {
        Some(Language::Norwegian)
    } else if k == 1847541 {
        Some(Language::Palauan)
    } else if k == 14433 {
        Some(Language::Panjabi)
    } else if k == 1847536 {
        Some(Language::Papiamento)
    } else if k == 13153 {
        Some(Language::Persian)
    } else if k == 1848563 {
        Some(Language::Pijin)
    } else if k == 14444 {
        Some(Language::Polish)
    } else if k == 14452 {
        Some(Language::Portuguese)
    } else if k == 1849332 {
        Some(Language::Potawatomi)
    } else if k == 14451 {
        Some(Language::Pushto)
    } else if k == 14581 {
        Some(Language::Quechua)
    } else if k == 14703 {
        Some(Language::Romanian)
    } else if k == 14701 {
        Some(Language::Romansh)
    } else if k == 14702 {
        Some(Language::Rundi)
    } else if k == 14709 {
        Some(Language::Russian)
    } else if k == 1602022 {
        Some(Language::SaintLucianCreoleFrench)
    } else if k == 14829 {
        Some(Language::Samoan)
    } else if k == 14823 {
        Some(Language::Sango)
    } else if k == 14834 {
        Some(Language::Serbian)
    } else if k == 1636723 {
        Some(Language::SeselwaCreoleFrench)
    } else if k == 14830 {
        Some(Language::Shona)
    } else if k == 14825 {
        Some(Language::Sinhala)
    } else if k == 14827 {
        Some(Language::Slovak)
    } else if k == 14828 {
        Some(Language::Slovenian)
    } else if k == 14831 {
        Some(Language::Somali)
    } else if k == 14836 {
        Some(Language::SothoSouthern)
    } else if k == 13043 {
        Some(Language::Spanish)
    } else if k == 1898862 {
        Some(Language::SrananTongo)
    } else if k == 14839 {
        Some(Language::Swahili)
    } else if k == 14838 {
        Some(Language::Swedish)
    } else if k == 14956 {
        Some(Language::Tagalog)
    } else if k == 14951 {
        Some(Language::Tajik)
    } else if k == 1914600 {
        Some(Language::Tamashek)
    } else if k == 14945 {
        Some(Language::Tamil)
    } else if k == 14949 {
        Some(Language::Telugu)
    } else if k == 1913588 {
        Some(Language::Tetum)
    } else if k == 14952 {
        Some(Language::Thai)
    } else if k == 12655 {
        Some(Language::Tibetan)
    } else if k == 14953 {
        Some(Language::Tigrinya)
    } else if k == 1914985 {
        Some(Language::TokPisin)
    } else if k == 1914348 {
        Some(Language::Tokelau)
    } else if k == 14959 {
        Some(Language::Tonga)
    } else if k == 14958 {
        Some(Language::Tswana)
    } else if k == 14962 {
        Some(Language::Turkish)
    } else if k == 14955 {
        Some(Language::Turkmen)
    } else if k == 1915756 {
        Some(Language::Tuvalu)
    } else if k == 15083 {
        Some(Language::Ukrainian)
    } else if k == 1849451 {
        Some(Language::Uma)
    } else if k == 1849334 {
        Some(Language::UpperGuineaCrioulo)
    } else if k == 15090 {
        Some(Language::Urdu)
    } else if k == 15098 {
        Some(Language::Uzbek)
    } else if k == 15209 {
        Some(Language::Vietnamese)
    } else if k == 1899363 {
        Some(Language::VincentianCreoleEnglish)
    } else if k == 1946851 {
        Some(Language::VirginIslandsCreoleEnglish)
    } else if k == 1963635 {
        Some(Language::Wallisian)
    } else if k == 12793 {
        Some(Language::Welsh)
    } else if k == 15343 {
        Some(Language::Wolof)
    } else if k == 15464 {
        Some(Language::Xhosa)
    } else if k == 15593 {
        Some(Language::Yiddish)
    } else if k == 15733 {
        Some(Language::Zulu)
    } else {
        None
    }
}

/// No two languages share a the short MyMemory vocabulary (also used by Alibaba) wire code.
pub proof fn lemma_mymemory_short_codes_distinct()
    ensures
        forall|a: Language, b: Language| #[trigger] mymemory_short_code(a) is Some && mymemory_short_code(a) == #[trigger] mymemory_short_code(b) ==> a == b,
{
    reveal_with_fuel(key_prefix, 8);
    reveal_strlit("af");
    assert(code_key("af"@) == 12518);
    reveal_strlit("sq");
    assert(code_key("sq"@) == 14833);
    reveal_strlit("am");
    assert(code_key("am"@) == 12525);
    reveal_strlit("aig");
    assert(code_key("aig"@) == 1602791);
    reveal_strlit("ar");
    assert(code_key("ar"@) == 12530);
    reveal_strlit("hy");
    assert(code_key("hy"@) == 13433);
    reveal_strlit("az");
    assert(code_key("az"@) == 12538);
    reveal_strlit("bah");
    assert(code_key("bah"@) == 1618152);
    reveal_strlit("bjs");
    assert(code_key("bjs"@) == 1619315);
    reveal_strlit("eu");
    assert(code_key("eu"@) == 13045);
    reveal_strlit("be");
    assert(code_key("be"@) == 12645);
    reveal_strlit("bem");
    assert(code_key("bem"@) == 1618669);
    reveal_strlit("bn");
    assert(code_key("bn"@) == 12654);
    reveal_strlit("bi");
    assert(code_key("bi"@) == 12649);
    reveal_strlit("bs");
    assert(code_key("bs"@) == 12659);
    reveal_strlit("br");
    assert(code_key("br"@) == 12658);
    reveal_strlit("bg");
    assert(code_key("bg"@) == 12647);
    reveal_strlit("my");
    assert(code_key("my"@) == 14073);
    reveal_strlit("ca");
    assert(code_key("ca"@) == 12769);
    reveal_strlit("ceb");
    assert(code_key("ceb"@) == 1635042);
    reveal_strlit("km");
    assert(code_key("km"@) == 13805);
    reveal_strlit("ckb");
    assert(code_key("ckb"@) == 1635810);
    reveal_strlit("ch");
    assert(code_key("ch"@) == 12776);
    reveal_strlit("ny");
    assert(code_key("ny"@) == 14201);
    reveal_strlit("zh");
    assert(code_key("zh"@) == 15720);
    reveal_strlit("syc");
    assert(code_key("syc"@) == 1899747);
    reveal_strlit("cop");
    assert(code_key("cop"@) == 1636336);
    reveal_strlit("hr");
    assert(code_key("hr"@) == 13426);
    reveal_strlit("cs");
    assert(code_key("cs"@) == 12787);
    reveal_strlit("da");
    assert(code_key("da"@) == 12897);
    reveal_strlit("dv");
    assert(code_key("dv"@) == 12918);
    reveal_strlit("nl");
    assert(code_key("nl"@) == 14188);
    reveal_strlit("dz");
    assert(code_key("dz"@) == 12922);
    reveal_strlit("en");
    assert(code_key("en"@) == 13038);
    reveal_strlit("eo");
    assert(code_key("eo"@) == 13039);
    reveal_strlit("et");
    assert(code_key("et"@) == 13044);
    reveal_strlit("fng");
    assert(code_key("fng"@) == 1685351);
    reveal_strlit("fo");
    assert(code_key("fo"@) == 13167);
    reveal_strlit("fi");
    assert(code_key("fi"@) == 13161);
    reveal_strlit("fr");
    assert(code_key("fr"@) == 13170);
    reveal_strlit("gd");
    assert(code_key("gd"@) == 13284);
    reveal_strlit("gl");
    assert(code_key("gl"@) == 13292);
    reveal_strlit("ka");
    assert(code_key("ka"@) == 13793);
    reveal_strlit("de");
    assert(code_key("de"@) == 12901);
    reveal_strlit("el");
    assert(code_key("el"@) == 13036);
    reveal_strlit("grc");
    assert(code_key("grc"@) == 1702243);
    reveal_strlit("gcl");
    assert(code_key("gcl"@) == 1700332);
    reveal_strlit("gu");
    assert(code_key("gu"@) == 13301);
    reveal_strlit("gyn");
    assert(code_key("gyn"@) == 1703150);
    reveal_strlit("ht");
    assert(code_key("ht"@) == 13428);
    reveal_strlit("ha");
    assert(code_key("ha"@) == 13409);
    reveal_strlit("haw");
    assert(code_key("haw"@) == 1716471);
    reveal_strlit("he");
    assert(code_key("he"@) == 13413);
    reveal_strlit("hi");
    assert(code_key("hi"@) == 13417);
    reveal_strlit("hu");
    assert(code_key("hu"@) == 13429);
    reveal_strlit("is");
    assert(code_key("is"@) == 13555);
    reveal_strlit("id");
    assert(code_key("id"@) == 13540);
    reveal_strlit("ga");
    assert(code_key("ga"@) == 13281);
    reveal_strlit("it");
    assert(code_key("it"@) == 13556);
    reveal_strlit("jam");
    assert(code_key("jam"@) == 1749229);
    reveal_strlit("ja");
    assert(code_key("ja"@) == 13665);
    reveal_strlit("jv");
    assert(code_key("jv"@) == 13686);
    reveal_strlit("kea");
    assert(code_key("kea"@) == 1766113);
    reveal_strlit("kab");
    assert(code_key("kab"@) == 1765602);
    reveal_strlit("kl");
    assert(code_key("kl"@) == 13804);
    reveal_strlit("kn");
    assert(code_key("kn"@) == 13806);
    reveal_strlit("kk");
    assert(code_key("kk"@) == 13803);
    reveal_strlit("rw");
    assert(code_key("rw"@) == 14711);
    reveal_strlit("ky");
    assert(code_key("ky"@) == 13817);
    reveal_strlit("ko");
    assert(code_key("ko"@) == 13807);
    reveal_strlit("ku");
    assert(code_key("ku"@) == 13813);
    reveal_strlit("lo");
    assert(code_key("lo"@) == 13935);
    reveal_strlit("la");
    assert(code_key("la"@) == 13921);
    reveal_strlit("lv");
    assert(code_key("lv"@) == 13942);
    reveal_strlit("lt");
    assert(code_key("lt"@) == 13940);
    reveal_strlit("lb");
    assert(code_key("lb"@) == 13922);
    reveal_strlit("mk");
    assert(code_key("mk"@) == 14059);
    reveal_strlit("mg");
    assert(code_key("mg"@) == 14055);
    reveal_strlit("ms");
    assert(code_key("ms"@) == 14067);
    reveal_strlit("mt");
    assert(code_key("mt"@) == 14068);
    reveal_strlit("gv");
    assert(code_key("gv"@) == 13302);
    reveal_strlit("mi");
    assert(code_key("mi"@) == 14057);
    reveal_strlit("mh");
    assert(code_key("mh"@) == 14056);
    reveal_strlit("men");
    assert(code_key("men"@) == 1798894);
    reveal_strlit("mn");
    assert(code_key("mn"@) == 14062);
    reveal_strlit("mfe");
    assert(code_key("mfe"@) == 1799013);
    reveal_strlit("ne");
    assert(code_key("ne"@) == 14181);
    reveal_strlit("zdj");
    assert(code_key("zdj"@) == 2011754);
    reveal_strlit("niu");
    assert(code_key("niu"@) == 1815797);
    reveal_strlit("no");
    assert(code_key("no"@) == 14191);
    reveal_strlit("pau");
    assert(code_key("pau"@) == 1847541);
    reveal_strlit("pa");
    assert(code_key("pa"@) == 14433);
    reveal_strlit("pap");
    assert(code_key("pap"@) == 1847536);
    reveal_strlit("fa");
    assert(code_key("fa"@) == 13153);
    reveal_strlit("pis");
    assert(code_key("pis"@) == 1848563);
    reveal_strlit("pl");
    assert(code_key("pl"@) == 14444);
    reveal_strlit("pt");
    assert(code_key("pt"@) == 14452);
    reveal_strlit("pot");
    assert(code_key("pot"@) == 1849332);
    reveal_strlit("ps");
    assert(code_key("ps"@) == 14451);
    reveal_strlit("qu");
    assert(code_key("qu"@) == 14581);
    reveal_strlit("ro");
    assert(code_key("ro"@) == 14703);
    reveal_strlit("rm");
    assert(code_key("rm"@) == 14701);
    reveal_strlit("rn");
    assert(code_key("rn"@) == 14702);
    reveal_strlit("ru");
    assert(code_key("ru"@) == 14709);
    reveal_strlit("acf");
    assert(code_key("acf"@) == 1602022);
    reveal_strlit("sm");
    assert(code_key("sm"@) == 14829);
    reveal_strlit("sg");
    assert(code_key("sg"@) == 14823);
    reveal_strlit("sr");
    assert(code_key("sr"@) == 14834);
    reveal_strlit("crs");
    assert(code_key("crs"@) == 1636723);
    reveal_strlit("sn");
    assert(code_key("sn"@) == 14830);
    reveal_strlit("si");
    assert(code_key("si"@) == 14825);
    reveal_strlit("sk");
    assert(code_key("sk"@) == 14827);
    reveal_strlit("sl");
    assert(code_key("sl"@) == 14828);
    reveal_strlit("so");
    assert(code_key("so"@) == 14831);
    reveal_strlit("st");
    assert(code_key("st"@) == 14836);
    reveal_strlit("es");
    assert(code_key("es"@) == 13043);
    reveal_strlit("srn");
    assert(code_key("srn"@) == 1898862);
    reveal_strlit("sw");
    assert(code_key("sw"@) == 14839);
    reveal_strlit("sv");
    assert(code_key("sv"@) == 14838);
    reveal_strlit("tl");
    assert(code_key("tl"@) == 14956);
    reveal_strlit("tg");
    assert(code_key("tg"@) == 14951);
    reveal_strlit("tmh");
    assert(code_key("tmh"@) == 1914600);
    reveal_strlit("ta");
    assert(code_key("ta"@) == 14945);
    reveal_strlit("te");
    assert(code_key("te"@) == 14949);
    reveal_strlit("tet");
    assert(code_key("tet"@) == 1913588);
    reveal_strlit("th");
    assert(code_key("th"@) == 14952);
    reveal_strlit("bo");
    assert(code_key("bo"@) == 12655);
    reveal_strlit("ti");
    assert(code_key("ti"@) == 14953);
    reveal_strlit("tpi");
    assert(code_key("tpi"@) == 1914985);
    reveal_strlit("tkl");
    assert(code_key("tkl"@) == 1914348);
    reveal_strlit("to");
    assert(code_key("to"@) == 14959);
    reveal_strlit("tn");
    assert(code_key("tn"@) == 14958);
    reveal_strlit("tr");
    assert(code_key("tr"@) == 14962);
    reveal_strlit("tk");
    assert(code_key("tk"@) == 14955);
    reveal_strlit("tvl");
    assert(code_key("tvl"@) == 1915756);
    reveal_strlit("uk");
    assert(code_key("uk"@) == 15083);
    reveal_strlit("ppk");
    assert(code_key("ppk"@) == 1849451);
    reveal_strlit("pov");
    assert(code_key("pov"@) == 1849334);
    reveal_strlit("ur");
    assert(code_key("ur"@) == 15090);
    reveal_strlit("uz");
    assert(code_key("uz"@) == 15098);
    reveal_strlit("vi");
    assert(code_key("vi"@) == 15209);
    reveal_strlit("svc");
    assert(code_key("svc"@) == 1899363);
    reveal_strlit("vic");
    assert(code_key("vic"@) == 1946851);
    reveal_strlit("wls");
    assert(code_key("wls"@) == 1963635);
    reveal_strlit("cy");
    assert(code_key("cy"@) == 12793);
    reveal_strlit("wo");
    assert(code_key("wo"@) == 15343);
    reveal_strlit("xh");
    assert(code_key("xh"@) == 15464);
    reveal_strlit("yi");
    assert(code_key("yi"@) == 15593);
    reveal_strlit("zu");
    assert(code_key("zu"@) == 15733);
    assert forall|l: Language| #[trigger] mymemory_short_code(l) is Some implies mymemory_short_by_key(code_key(mymemory_short_code(l)->0)) == Some(l) by {}
}

/// The wire code of a language in Youdao, if it has one.
pub open spec fn youdao_code(l: Language) -> Option<Seq<char>> {
    match l {
        Language::Afrikaans => Some("af"@),
        Language::Albanian => Some("sq"@),
        Language::Amharic => Some("am"@),
        Language::Arabic => Some("ar"@),
        Language::Armenian => Some("hy"@),
        Language::Azerbaijani => Some("az"@),
        Language::Basque => Some("eu"@),
        Language::Belarusian => Some("be"@),
        Language::Bengali => Some("bn"@),
        Language::Bosnian => Some("bs"@),
        Language::Bulgarian => Some("bg"@),
        Language::Burmese => Some("my"@),
        Language::Catalan => Some("ca"@),
        Language::Cebuano => Some("ceb"@),
        Language::CentralKhmer => Some("km"@),
        Language::ChichewaChewaNyanja => Some("ny"@),
        Language::ChineseTraditional => Some("zh-CHT"@),
        Language::Chinese => Some("zh-CHS"@),
        Language::Corsican => Some("co"@),
        Language::Croatian => Some("hr"@),
        Language::Czech => Some("cs"@),
        Language::Danish => Some("da"@),
        Language::Dutch => Some("nl"@),
        Language::English => Some("en"@),
        Language::Esperanto => Some("eo"@),
        Language::Estonian => Some("et"@),
        Language::Fijian => Some("fj"@),
        Language::Finnish => Some("fi"@),
        Language::French => Some("fr"@),
        Language::Gaelic => Some("gd"@),
        Language::Galician => Some("gl"@),
        Language::Georgian => Some("ka"@),
        Language::German => Some("de"@),
        Language::Greek => Some("el"@),
        Language::Gujarati => Some("gu"@),
        Language::Haitian => Some("ht"@),
        Language::Hausa => Some("ha"@),
        Language::Hawaiian => Some("haw"@),
        Language::Hebrew => Some("he"@),
        Language::Hindi => Some("hi"@),
        Language::HmongDaw => Some("mww"@),
        Language::Hungarian => Some("hu"@),
        Language::Icelandic => Some("is"@),
        Language::Igbo => Some("ig"@),
        Language::Indonesian => Some("id"@),
        Language::Irish => Some("ga"@),
        Language::Italian => Some("it"@),
        Language::Japanese => Some("ja"@),
        Language::Javanese => Some("jw"@),
        Language::Kannada => Some("kn"@),
        Language::Kazakh => Some("kk"@),
        Language::KirghizKyrgyz => Some("ky"@),
        Language::Klingon => Some("tlh"@),
        Language::Korean => Some("ko"@),
        Language::Kurdish => Some("ku"@),
        Language::Lao => Some("lo"@),
        Language::Latin => Some("la"@),
        Language::Latvian => Some("lv"@),
        Language::Lithuanian => Some("lt"@),
        Language::Luxembourgish => Some("lb"@),
        Language::Macedonian => Some("mk"@),
        Language::Malagasy => Some("mg"@),
        Language::Malay => Some("ms"@),
        Language::Malayalam => Some("ml"@),
        Language::Maltese => Some("mt"@),
        Language::Maori => Some("mi"@),
        Language::Marathi => Some("mr"@),
        Language::Mongolian => Some("mn"@),
        Language::Nepali => Some("ne"@),
        Language::Norwegian => Some("no"@),
        Language::Panjabi => Some("pa"@),
        Language::Persian => Some("fa"@),
        Language::Polish => Some("pl"@),
        Language::Portuguese => Some("pt"@),
        Language::Pushto => Some("ps"@),
        Language::QueretaroOtomi => Some("otq"@),
        Language::Romanian => Some("ro"@),
        Language::Russian => Some("ru"@),
        Language::Samoan => Some("sm"@),
        Language::SerbianLatin => Some("sr-Latn"@),
        Language::Serbian => Some("sr-Cyrl"@),
        Language::Shona => Some("sn"@),
        Language::Sindhi => Some("sd"@),
        Language::Sinhala => Some("si"@),
        Language::Slovak => Some("sk"@),
        Language::Slovenian => Some("sl"@),
        Language::Somali => Some("so"@),
        Language::SothoSouthern => Some("st"@),
        Language::Spanish => Some("es"@),
        Language::Sundanese => Some("su"@),
        Language::Swahili => Some("sw"@),
        Language::Swedish => Some("sv"@),
        Language::Tagalog => Some("tl"@),
        Language::Tahitian => Some("ty"@),
        Language::Tajik => Some("tg"@),
        Language::Tamil => Some("ta"@),
        Language::Telugu => Some("te"@),
        Language::Thai => Some("th"@),
        Language::Tonga => Some("to"@),
        Language::Turkish => Some("tr"@),
        Language::Ukrainian => Some("uk"@),
        Language::Urdu => Some("ur"@),
        Language::Uzbek => Some("uz"@),
        Language::Vietnamese => Some("vi"@),
        Language::Welsh => Some("cy"@),
        Language::WesternFrisian => Some("fy"@),
        Language::Xhosa => Some("xh"@),
        Language::Yiddish => Some("yi"@),
        Language::Yoruba => Some("yo"@),
        Language::Yucateco => Some("yua"@),
        Language::YueChinese => Some("yue"@),
        Language::Zulu => Some("zu"@),
        _ => None,
    }
}

/// The language whose Youdao wire code is `s`, if there is one.
pub open spec fn youdao_language(s: Seq<char>) -> Option<Language> {
    if exists|l: Language| youdao_code(l) == Some(s) {
        Some(choose|l: Language| youdao_code(l) == Some(s))
    } else {
        None
    }
}

/// Inverse of the Youdao table, over the numbers of the codes.
pub open spec fn youdao_by_key(k: int) -> Option<Language> {
    if k == 12518 {
        Some(Language::Afrikaans)
    } else if k == 14833 {
        Some(Language::Albanian)
    } else if k == 12525 {
        Some(Language::Amharic)
    } else if k == 12530 {
        Some(Language::Arabic)
    } else if k == 13433 {
        Some(Language::Armenian)
    } else if k == 12538 {
        Some(Language::Azerbaijani)
    } else if k == 13045 {
        Some(Language::Basque)
    } else if k == 12645 {
        Some(Language::Belarusian)
    } else if k == 12654 {
        Some(Language::Bengali)
    } else if k == 12659 {
        Some(Language::Bosnian)
    } else if k == 12647 {
        Some(Language::Bulgarian)
    } else if k == 14073 {
        Some(Language::Burmese)
    } else if k == 12769 {
        Some(Language::Catalan)
    } else if k == 1635042 {
        Some(Language::Cebuano)
    } else if k == 13805 {
        Some(Language::CentralKhmer)
    } else if k == 14201 {
        Some(Language::ChichewaChewaNyanja)
    } else if k == 4219900847188 {
        Some(Language::ChineseTraditional)
    } else if k == 4219900847187 {
        Some(Language::Chinese)
    } else if k == 12783 {
        Some(Language::Corsican)
    } else if k == 13426 {
        Some(Language::Croatian)
    } else if k == 12787 {
        Some(Language::Czech)
    } else if k == 12897 {
        Some(Language::Danish)
    } else if k == 14188 {
        Some(Language::Dutch)
    } else if k == 13038 {
        Some(Language::English)
    } else if k == 13039 {
        Some(Language::Esperanto)
    } else if k == 13044 {
        Some(Language::Estonian)
    } else if k == 13162 {
        Some(Language::Fijian)
    } else if k == 13161 {
        Some(Language::Finnish)
    } else if k == 13170 {
        Some(Language::French)
    } else if k == 13284 {
        Some(Language::Gaelic)
    } else if k == 13292 {
        Some(Language::Galician)
    } else if k == 13793 {
        Some(Language::Georgian)
    } else if k == 12901 {
        Some(Language::German)
    } else if k == 13036 {
        Some(Language::Greek)
    } else if k == 13301 {
        Some(Language::Gujarati)
    } else if k == 13428 {
        Some(Language::Haitian)
    } else if k == 13409 {
        Some(Language::Hausa)
    } else if k == 1716471 {
        Some(Language::Hawaiian)
    } else if k == 13413 {
        Some(Language::Hebrew)
    } else if k == 13417 {
        Some(Language::Hindi)
    } else if k == 1801207 {
        Some(Language::HmongDaw)
    } else if k == 13429 {
        Some(Language::Hungarian)
    } else if k == 13555 {
        Some(Language::Icelandic)
    } else if k == 13543 {
        Some(Language::Igbo)
    } else if k == 13540 {
        Some(Language::Indonesian)
    } else if k == 13281 {
        Some(Language::Irish)
    } else if k == 13556 {
        Some(Language::Italian)
    } else if k == 13665 {
        Some(Language::Japanese)
    } else if k == 13687 {
        Some(Language::Javanese)
    } else if k == 13806 {
        Some(Language::Kannada)
    } else if k == 13803 {
        Some(Language::Kazakh)
    } else if k == 13817 {
        Some(Language::KirghizKyrgyz)
    } else if k == 1914472 {
        Some(Language::Klingon)
    } else if k == 13807 {
        Some(Language::Korean)
    } else if k == 13813 {
        Some(Language::Kurdish)
    } else if k == 13935 {
        Some(Language::Lao)
    } else if k == 13921 {
        Some(Language::Latin)
    } else if k == 13942 {
        Some(Language::Latvian)
    } else if k == 13940 {
        Some(Language::Lithuanian)
    } else if k == 13922 {
        Some(Language::Luxembourgish)
    } else if k == 14059 {
        Some(Language::Macedonian)
    } else if k == 14055 {
        Some(Language::Malagasy)
    } else if k == 14067 {
        Some(Language::Malay)
    } else if k == 14060 {
        Some(Language::Malayalam)
    } else if k == 14068 {
        Some(Language::Maltese)
    } else if k == 14057 {
        Some(Language::Maori)
    } else if k == 14066 {
        Some(Language::Marathi)
    } else if k == 14062 {
        Some(Language::Mongolian)
    } else if k == 14181 {
        Some(Language::Nepali)
    } else if k == 14191 {
        Some(Language::Norwegian)
    } else if k == 14433 {
        Some(Language::Panjabi)
    } else if k == 13153 {
        Some(Language::Persian)
    } else if k == 14444 {
        Some(Language::Polish)
    } else if k == 14452 {
        Some(Language::Portuguese)
    } else if k == 14451 {
        Some(Language::Pushto)
    } else if k == 1833585 {
        Some(Language::QueretaroOtomi)
    } else if k == 14703 {
        Some(Language::Romanian)
    } else if k == 14709 {
        Some(Language::Russian)
    } else if k == 14829 {
        Some(Language::Samoan)
    } else if k == 509704599534190 {
        Some(Language::SerbianLatin)
    } else if k == 509704581052780 {
        Some(Language::Serbian)
    } else if k == 14830 {
        Some(Language::Shona)
    } else if k == 14820 {
        Some(Language::Sindhi)
    } else if k == 14825 {
        Some(Language::Sinhala)
    } else if k == 14827 {
        Some(Language::Slovak)
    } else if k == 14828 {
        Some(Language::Slovenian)
    } else if k == 14831 {
        Some(Language::Somali)
    } else if k == 14836 {
        Some(Language::SothoSouthern)
    } else if k == 13043 {
        Some(Language::Spanish)
    } else if k == 14837 {
        Some(Language::Sundanese)
    } else if k == 14839 {
        Some(Language::Swahili)
    } else if k == 14838 {
        Some(Language::Swedish)
    } else if k == 14956 {
        Some(Language::Tagalog)
    } else if k == 14969 {
        Some(Language::Tahitian)
    } else if k == 14951 {
        Some(Language::Tajik)
    } else if k == 14945 {
        Some(Language::Tamil)
    } else if k == 14949 {
        Some(Language::Telugu)
    } else if k == 14952 {
        Some(Language::Thai)
    } else if k == 14959 {
        Some(Language::Tonga)
    } else if k == 14962 {
        Some(Language::Turkish)
    } else if k == 15083 {
        Some(Language::Ukrainian)
    } else if k == 15090 {
        Some(Language::Urdu)
    } else if k == 15098 {
        Some(Language::Uzbek)
    } else if k == 15209 {
        Some(Language::Vietnamese)
    } else if k == 12793 {
        Some(Language::Welsh)
    } else if k == 13177 {
        Some(Language::WesternFrisian)
    } else if k == 15464 {
        Some(Language::Xhosa)
    } else if k == 15593 {
        Some(Language::Yiddish)
    } else if k == 15599 {
        Some(Language::Yoruba)
    } else if k == 1997537 {
        Some(Language::Yucateco)
    } else if k == 1997541 {
        Some(Language::YueChinese)
    } else if k == 15733 {
        Some(Language::Zulu)
    } else {
        None
    }
}

/// No two languages share a Youdao wire code.
pub proof fn lemma_youdao_codes_distinct()
    ensures
        forall|a: Language, b: Language| #[trigger] youdao_code(a) is Some && youdao_code(a) == #[trigger] youdao_code(b) ==> a == b,
{
    reveal_with_fuel(key_prefix, 8);
    reveal_strlit("af");
    assert(code_key("af"@) == 12518);
    reveal_strlit("sq");
    assert(code_key("sq"@) == 14833);
    reveal_strlit("am");
    assert(code_key("am"@) == 12525);
    reveal_strlit("ar");
    assert(code_key("ar"@) == 12530);
    reveal_strlit("hy");
    assert(code_key("hy"@) == 13433);
    reveal_strlit("az");
    assert(code_key("az"@) == 12538);
    reveal_strlit("eu");
    assert(code_key("eu"@) == 13045);
    reveal_strlit("be");
    assert(code_key("be"@) == 12645);
    reveal_strlit("bn");
    assert(code_key("bn"@) == 12654);
    reveal_strlit("bs");
    assert(code_key("bs"@) == 12659);
    reveal_strlit("bg");
    assert(code_key("bg"@) == 12647);
    reveal_strlit("my");
    assert(code_key("my"@) == 14073);
    reveal_strlit("ca");
    assert(code_key("ca"@) == 12769);
    reveal_strlit("ceb");
    assert(code_key("ceb"@) == 1635042);
    reveal_strlit("km");
    assert(code_key("km"@) == 13805);
    reveal_strlit("ny");
    assert(code_key("ny"@) == 14201);
    reveal_strlit("zh-CHT");
    assert(code_key("zh-CHT"@) == 4219900847188);
    reveal_strlit("zh-CHS");
    assert(code_key("zh-CHS"@) == 4219900847187);
    reveal_strlit("co");
    assert(code_key("co"@) == 12783);
    reveal_strlit("hr");
    assert(code_key("hr"@) == 13426);
    reveal_strlit("cs");
    assert(code_key("cs"@) == 12787);
    reveal_strlit("da");
    assert(code_key("da"@) == 12897);
    reveal_strlit("nl");
    assert(code_key("nl"@) == 14188);
    reveal_strlit("en");
    assert(code_key("en"@) == 13038);
    reveal_strlit("eo");
    assert(code_key("eo"@) == 13039);
    reveal_strlit("et");
    assert(code_key("et"@) == 13044);
    reveal_strlit("fj");
    assert(code_key("fj"@) == 13162);
    reveal_strlit("fi");
    assert(code_key("fi"@) == 13161);
    reveal_strlit("fr");
    assert(code_key("fr"@) == 13170);
    reveal_strlit("gd");
    assert(code_key("gd"@) == 13284);
    reveal_strlit("gl");
    assert(code_key("gl"@) == 13292);
    reveal_strlit("ka");
    assert(code_key("ka"@) == 13793);
    reveal_strlit("de");
    assert(code_key("de"@) == 12901);
    reveal_strlit("el");
    assert(code_key("el"@) == 13036);
    reveal_strlit("gu");
    assert(code_key("gu"@) == 13301);
    reveal_strlit("ht");
    assert(code_key("ht"@) == 13428);
    reveal_strlit("ha");
    assert(code_key("ha"@) == 13409);
    reveal_strlit("haw");
    assert(code_key("haw"@) == 1716471);
    reveal_strlit("he");
    assert(code_key("he"@) == 13413);
    reveal_strlit("hi");
    assert(code_key("hi"@) == 13417);
    reveal_strlit("mww");
    assert(code_key("mww"@) == 1801207);
    reveal_strlit("hu");
    assert(code_key("hu"@) == 13429);
    reveal_strlit("is");
    assert(code_key("is"@) == 13555);
    reveal_strlit("ig");
    assert(code_key("ig"@) == 13543);
    reveal_strlit("id");
    assert(code_key("id"@) == 13540);
    reveal_strlit("ga");
    assert(code_key("ga"@) == 13281);
    reveal_strlit("it");
    assert(code_key("it"@) == 13556);
    reveal_strlit("ja");
    assert(code_key("ja"@) == 13665);
    reveal_strlit("jw");
    assert(code_key("jw"@) == 13687);
    reveal_strlit("kn");
    assert(code_key("kn"@) == 13806);
    reveal_strlit("kk");
    assert(code_key("kk"@) == 13803);
    reveal_strlit("ky");
    assert(code_key("ky"@) == 13817);
    reveal_strlit("tlh");
    assert(code_key("tlh"@) == 1914472);
    reveal_strlit("ko");
    assert(code_key("ko"@) == 13807);
    reveal_strlit("ku");
    assert(code_key("ku"@) == 13813);
    reveal_strlit("lo");
    assert(code_key("lo"@) == 13935);
    reveal_strlit("la");
    assert(code_key("la"@) == 13921);
    reveal_strlit("lv");
    assert(code_key("lv"@) == 13942);
    reveal_strlit("lt");
    assert(code_key("lt"@) == 13940);
    reveal_strlit("lb");
    assert(code_key("lb"@) == 13922);
    reveal_strlit("mk");
    assert(code_key("mk"@) == 14059);
    reveal_strlit("mg");
    assert(code_key("mg"@) == 14055);
    reveal_strlit("ms");
    assert(code_key("ms"@) == 14067);
    reveal_strlit("ml");
    assert(code_key("ml"@) == 14060);
    reveal_strlit("mt");
    assert(code_key("mt"@) == 14068);
    reveal_strlit("mi");
    assert(code_key("mi"@) == 14057);
    reveal_strlit("mr");
    assert(code_key("mr"@) == 14066);
    reveal_strlit("mn");
    assert(code_key("mn"@) == 14062);
    reveal_strlit("ne");
    assert(code_key("ne"@) == 14181);
    reveal_strlit("no");
    assert(code_key("no"@) == 14191);
    reveal_strlit("pa");
    assert(code_key("pa"@) == 14433);
    reveal_strlit("fa");
    assert(code_key("fa"@) == 13153);
    reveal_strlit("pl");
    assert(code_key("pl"@) == 14444);
    reveal_strlit("pt");
    assert(code_key("pt"@) == 14452);
    reveal_strlit("ps");
    assert(code_key("ps"@) == 14451);
    reveal_strlit("otq");
    assert(code_key("otq"@) == 1833585);
    reveal_strlit("ro");
    assert(code_key("ro"@) == 14703);
    reveal_strlit("ru");
    assert(code_key("ru"@) == 14709);
    reveal_strlit("sm");
    assert(code_key("sm"@) == 14829);
    reveal_strlit("sr-Latn");
    assert(code_key("sr-Latn"@) == 509704599534190);
    reveal_strlit("sr-Cyrl");
    assert(code_key("sr-Cyrl"@) == 509704581052780);
    reveal_strlit("sn");
    assert(code_key("sn"@) == 14830);
    reveal_strlit("sd");
    assert(code_key("sd"@) == 14820);
    reveal_strlit("si");
    assert(code_key("si"@) == 14825);
    reveal_strlit("sk");
    assert(code_key("sk"@) == 14827);
    reveal_strlit("sl");
    assert(code_key("sl"@) == 14828);
    reveal_strlit("so");
    assert(code_key("so"@) == 14831);
    reveal_strlit("st");
    assert(code_key("st"@) == 14836);
    reveal_strlit("es");
    assert(code_key("es"@) == 13043);
    reveal_strlit("su");
    assert(code_key("su"@) == 14837);
    reveal_strlit("sw");
    assert(code_key("sw"@) == 14839);
    reveal_strlit("sv");
    assert(code_key("sv"@) == 14838);
    reveal_strlit("tl");
    assert(code_key("tl"@) == 14956);
    reveal_strlit("ty");
    assert(code_key("ty"@) == 14969);
    reveal_strlit("tg");
    assert(code_key("tg"@) == 14951);
    reveal_strlit("ta");
    assert(code_key("ta"@) == 14945);
    reveal_strlit("te");
    assert(code_key("te"@) == 14949);
    reveal_strlit("th");
    assert(code_key("th"@) == 14952);
    reveal_strlit("to");
    assert(code_key("to"@) == 14959);
    reveal_strlit("tr");
    assert(code_key("tr"@) == 14962);
    reveal_strlit("uk");
    assert(code_key("uk"@) == 15083);
    reveal_strlit("ur");
    assert(code_key("ur"@) == 15090);
    reveal_strlit("uz");
    assert(code_key("uz"@) == 15098);
    reveal_strlit("vi");
    assert(code_key("vi"@) == 15209);
    reveal_strlit("cy");
    assert(code_key("cy"@) == 12793);
    reveal_strlit("fy");
    assert(code_key("fy"@) == 13177);
    reveal_strlit("xh");
    assert(code_key("xh"@) == 15464);
    reveal_strlit("yi");
    assert(code_key("yi"@) == 15593);
    reveal_strlit("yo");
    assert(code_key("yo"@) == 15599);
    reveal_strlit("yua");
    assert(code_key("yua"@) == 1997537);
    reveal_strlit("yue");
    assert(code_key("yue"@) == 1997541);
    reveal_strlit("zu");
    assert(code_key("zu"@) == 15733);
    assert forall|l: Language| #[trigger] youdao_code(l) is Some implies youdao_by_key(code_key(youdao_code(l)->0)) == Some(l) by {}
}

impl Language {
    /// The wire code of this language for the baidu vocabulary.
    pub fn to_baidu(&self) -> (r: Option<&'static str>)
        ensures
            code_view(r) == baidu_code(*self),
    {
        match self {
            Language::Acoli => Some("ach"),
            Language::Afrikaans => Some("afr"),
            Language::Akan => Some("aka"),
            Language::Albanian => Some("alb"),
            Language::AlgerianArabic => Some("arq"),
            Language::Amharic => Some("amh"),
            Language::Arabic => Some("ara"),
            Language::Aragonese => Some("arg"),
            Language::Armenian => Some("arm"),
            Language::Assamese => Some("asm"),
            Language::Asturian => Some("ast"),
            Language::Aymara => Some("aym"),
            Language::Azerbaijani => Some("aze"),
            Language::Baluchi => Some("bal"),
            Language::Bari => Some("mot"),
            Language::Bashkir => Some("bak"),
            Language::Basque => Some("baq"),
            Language::Belarusian => Some("bel"),
            Language::Bemba => Some("bem"),
            Language::Bengali => Some("ben"),
            Language::BerberLanguages => Some("ber"),
            Language::Bhojpuri => Some("bho"),
            Language::Bislama => Some("bis"),
            Language::Bolia => Some("bli"),
            Language::Bosnian => Some("bos"),
            Language::Breton => Some("bre"),
            Language::Bulgarian => Some("bul"),
            Language::Burmese => Some("bur"),
            Language::CanadianFrench => Some("frn"),
            Language::Catalan => Some("cat"),
            Language::Cebuano => Some("ceb"),
            Language::CentralKhmer => Some("hkm"),
            Language::Cherokee => Some("chr"),
            Language::ChichewaChewaNyanja => Some("nya"),
            Language::Chinese => Some("zh"),
            Language::Cholon => Some("cht"),
            Language::Chuvash => Some("chv"),
            Language::ClassicalChinese => Some("wyw"),
            Language::Cornish => Some("cor"),
            Language::Corsican => Some("cos"),
            Language::Cree => Some("cre"),
            Language::Croatian => Some("hrv"),
            Language::Czech => Some("cs"),
            Language::Danish => Some("dan"),
            Language::DegexitAn => Some("ing"),
            Language::DivehiDhivehiMaldivian => Some("div"),
            Language::Dutch => Some("nl"),
            Language::EasternNgadA => Some("nea"),
            Language::Enggano => Some("eno"),
            Language::English => Some("en"),
            Language::Esperanto => Some("epo"),
            Language::Estonian => Some("est"),
            Language::Faroese => Some("fao"),
            Language::FilipinoPilipino => Some("fil"),
            Language::Finnish => Some("fin"),
            Language::French => Some("fra"),
            Language::FrenchMiddle => Some("frm"),
            Language::Friulian => Some("fri"),
            Language::Fulah => Some("ful"),
            Language::Gaelic => Some("gla"),
            Language::Galician => Some("glg"),
            Language::Ganda => Some("lug"),
            Language::Georgian => Some("geo"),
            Language::German => Some("de"),
            Language::Greek => Some("el"),
            Language::Guarani => Some("grn"),
            Language::Gujarati => Some("guj"),
            Language::Haitian => Some("ht"),
            Language::HakkaChinese => Some("hak"),
            Language::Hausa => Some("hau"),
            Language::Hawaiian => Some("haw"),
            Language::Hebrew => Some("heb"),
            Language::Hiligaynon => Some("hil"),
            Language::Hindi => Some("hi"),
            Language::HmongMong => Some("hmn"),
            Language::HuautlaMazatec => Some("mau"),
            Language::Hungarian => Some("hu"),
            Language::Hupa => Some("hup"),
            Language::Icelandic => Some("ice"),
            Language::Ido => Some("ido"),
            Language::Igbo => Some("ibo"),
            Language::Indonesian => Some("id"),
            Language::Interlingua => Some("ina"),
            Language::Inuktitut => Some("iku"),
            Language::Irish => Some("gle"),
            Language::Italian => Some("it"),
            Language::Japanese => Some("jp"),
            Language::Javanese => Some("jav"),
            Language::Kabyle => Some("kab"),
            Language::KalaallisutGreenlandic => Some("kal"),
            Language::Kalumpang => Some("kli"),
            Language::Kannada => Some("kan"),
            Language::Kanuri => Some("kau"),
            Language::Kara => Some("kah"),
            Language::Kashmiri => Some("kas"),
            Language::Kinyarwanda => Some("kin"),
            Language::KirghizKyrgyz => Some("kir"),
            Language::Kongo => Some("kon"),
            Language::Konkani => Some("kok"),
            Language::Korean => Some("kor"),
            Language::Kurdish => Some("kur"),
            Language::Langi => Some("lag"),
            Language::Lao => Some("lao"),
            Language::Latin => Some("lat"),
            Language::Latvian => Some("lav"),
            Language::LimburganLimburgerLimburgish => Some("lim"),
            Language::Lingala => Some("lin"),
            Language::Lithuanian => Some("lit"),
            Language::Logo => Some("log"),
            Language::LogudoreseSardinian => Some("src"),
            Language::Loniu => Some("los"),
            Language::Lou => Some("loj"),
            Language::Luxembourgish => Some("ltz"),
            Language::Macedonian => Some("mac"),
            Language::Maithili => Some("mai"),
            Language::MalaNigeria => Some("ruy"),
            Language::MalaPapuaNewGuinea => Some("ped"),
            Language::Malagasy => Some("mg"),
            Language::Malay => Some("may"),
            Language::Malayalam => Some("mal"),
            Language::Maltese => Some("mlt"),
            Language::Manx => Some("glv"),
            Language::Maori => Some("mao"),
            Language::Marathi => Some("mar"),
            Language::Marshallese => Some("mah"),
            Language::NKo => Some("nqo"),
            Language::NdebeleSouthSouthNdebele => Some("nbl"),
            Language::Nepali => Some("nep"),
            Language::NorthernSami => Some("sme"),
            Language::NorwegianBokmal => Some("nob"),
            Language::NorwegianNynorsk => Some("nno"),
            Language::Norwegian => Some("nor"),
            Language::Occitan => Some("oci"),
            Language::Ojibwa => Some("oji"),
            Language::Oriya => Some("ori"),
            Language::Oromo => Some("orm"),
            Language::OssetianOssetic => Some("oss"),
            Language::PampangaKapampangan => Some("pam"),
            Language::Panjabi => Some("pan"),
            Language::Papiamento => Some("pap"),
            Language::Persian => Some("per"),
            Language::Polish => Some("pl"),
            Language::Portuguese => Some("pt"),
            Language::Potawatomi => Some("pot"),
            Language::Pushto => Some("pus"),
            Language::Quechua => Some("que"),
            Language::RajputGarasia => Some("gra"),
            Language::Romanian => Some("ro"),
            Language::Romansh => Some("roh"),
            Language::Romany => Some("rom"),
            Language::Russian => Some("ru"),
            Language::Samoan => Some("sm"),
            Language::Sanskrit => Some("san"),
            Language::Sardinian => Some("srd"),
            Language::Scots => Some("sco"),
            Language::Sechelt => Some("sec"),
            Language::Serbian => Some("srp"),
            Language::ShallZwall => Some("sha"),
            Language::Shona => Some("sna"),
            Language::Sindhi => Some("snd"),
            Language::Sinhala => Some("sin"),
            Language::Slovak => Some("sk"),
            Language::Solos => Some("sol"),
            Language::Somali => Some("som"),
            Language::SothoSouthern => Some("sot"),
            Language::Spanish => Some("spa"),
            Language::Sundanese => Some("sun"),
            Language::Swahili => Some("swa"),
            Language::Swedish => Some("swe"),
            Language::Syriac => Some("syr"),
            Language::Saotomense => Some("cri"),
            Language::Tagalog => Some("tgl"),
            Language::Tajik => Some("tgk"),
            Language::Tamil => Some("tam"),
            Language::Tatar => Some("tat"),
            Language::Telugu => Some("tel"),
            Language::Tetum => Some("tet"),
            Language::Thai => Some("th"),
            Language::Tigrinya => Some("tir"),
            Language::Tsonga => Some("tso"),
            Language::TumulungSisaala => Some("sil"),
            Language::Turkish => Some("tr"),
            Language::Turkmen => Some("tuk"),
            Language::Twi => Some("twi"),
            Language::Ukrainian => Some("ukr"),
            Language::UpperSorbian => Some("ups"),
            Language::Urdu => Some("urd"),
            Language::Venda => Some("ven"),
            Language::Vietnamese => Some("vie"),
            Language::Walloon => Some("wln"),
            Language::Welsh => Some("wel"),
            Language::WesternFrisian => Some("fry"),
            Language::Wiarumus => Some("tua"),
            Language::Wolof => Some("wol"),
            Language::Xhosa => Some("xho"),
            Language::Yiddish => Some("yid"),
            Language::Yoruba => Some("yor"),
            Language::YueChinese => Some("yue"),
            Language::Zari => Some("zaz"),
            Language::Zulu => Some("zul"),
            _ => None,
        }
    }

    /// The language whose baidu wire code is `s`.
    #[verifier::rlimit(60)]
    pub fn from_baidu(s: &str) -> (r: Option<Language>)
        ensures
            r == baidu_language(s@),
    {
        proof {
            lemma_baidu_codes_distinct();
        }
        if str_eq(s, "ach") {
            assert(baidu_code(Language::Acoli) == Some(s@));
            return Some(Language::Acoli);
        }
        if str_eq(s, "afr") {
            assert(baidu_code(Language::Afrikaans) == Some(s@));
            return Some(Language::Afrikaans);
        }
        if str_eq(s, "aka") {
            assert(baidu_code(Language::Akan) == Some(s@));
            return Some(Language::Akan);
        }
        if str_eq(s, "alb") {
            assert(baidu_code(Language::Albanian) == Some(s@));
            return Some(Language::Albanian);
        }
        if str_eq(s, "arq") {
            assert(baidu_code(Language::AlgerianArabic) == Some(s@));
            return Some(Language::AlgerianArabic);
        }
        if str_eq(s, "amh") {
            assert(baidu_code(Language::Amharic) == Some(s@));
            return Some(Language::Amharic);
        }
        if str_eq(s, "ara") {
            assert(baidu_code(Language::Arabic) == Some(s@));
            return Some(Language::Arabic);
        }
        if str_eq(s, "arg") {
            assert(baidu_code(Language::Aragonese) == Some(s@));
            return Some(Language::Aragonese);
        }
        if str_eq(s, "arm") {
            assert(baidu_code(Language::Armenian) == Some(s@));
            return Some(Language::Armenian);
        }
        if str_eq(s, "asm") {
            assert(baidu_code(Language::Assamese) == Some(s@));
            return Some(Language::Assamese);
        }
        if str_eq(s, "ast") {
            assert(baidu_code(Language::Asturian) == Some(s@));
            return Some(Language::Asturian);
        }
        if str_eq(s, "aym") {
            assert(baidu_code(Language::Aymara) == Some(s@));
            return Some(Language::Aymara);
        }
        if str_eq(s, "aze") {
            assert(baidu_code(Language::Azerbaijani) == Some(s@));
            return Some(Language::Azerbaijani);
        }
        if str_eq(s, "bal") {
            assert(baidu_code(Language::Baluchi) == Some(s@));
            return Some(Language::Baluchi);
        }
        if str_eq(s, "mot") {
            assert(baidu_code(Language::Bari) == Some(s@));
            return Some(Language::Bari);
        }
        if str_eq(s, "bak") {
            assert(baidu_code(Language::Bashkir) == Some(s@));
            return Some(Language::Bashkir);
        }
        if str_eq(s, "baq") {
            assert(baidu_code(Language::Basque) == Some(s@));
            return Some(Language::Basque);
        }
        if str_eq(s, "bel") {
            assert(baidu_code(Language::Belarusian) == Some(s@));
            return Some(Language::Belarusian);
        }
        if str_eq(s, "bem") {
            assert(baidu_code(Language::Bemba) == Some(s@));
            return Some(Language::Bemba);
        }
        if str_eq(s, "ben") {
            assert(baidu_code(Language::Bengali) == Some(s@));
            return Some(Language::Bengali);
        }
        if str_eq(s, "ber") {
            assert(baidu_code(Language::BerberLanguages) == Some(s@));
            return Some(Language::BerberLanguages);
        }
        if str_eq(s, "bho") {
            assert(baidu_code(Language::Bhojpuri) == Some(s@));
            return Some(Language::Bhojpuri);
        }
        if str_eq(s, "bis") {
            assert(baidu_code(Language::Bislama) == Some(s@));
            return Some(Language::Bislama);
        }
        if str_eq(s, "bli") {
            assert(baidu_code(Language::Bolia) == Some(s@));
            return Some(Language::Bolia);
        }
        if str_eq(s, "bos") {
            assert(baidu_code(Language::Bosnian) == Some(s@));
            return Some(Language::Bosnian);
        }
        if str_eq(s, "bre") {
            assert(baidu_code(Language::Breton) == Some(s@));
            return Some(Language::Breton);
        }
        if str_eq(s, "bul") {
            assert(baidu_code(Language::Bulgarian) == Some(s@));
            return Some(Language::Bulgarian);
        }
        if str_eq(s, "bur") {
            assert(baidu_code(Language::Burmese) == Some(s@));
            return Some(Language::Burmese);
        }
        if str_eq(s, "frn") {
            assert(baidu_code(Language::CanadianFrench) == Some(s@));
            return Some(Language::CanadianFrench);
        }
        if str_eq(s, "cat") {
            assert(baidu_code(Language::Catalan) == Some(s@));
            return Some(Language::Catalan);
        }
        if str_eq(s, "ceb") {
            assert(baidu_code(Language::Cebuano) == Some(s@));
            return Some(Language::Cebuano);
        }
        if str_eq(s, "hkm") {
            assert(baidu_code(Language::CentralKhmer) == Some(s@));
            return Some(Language::CentralKhmer);
        }
        if str_eq(s, "chr") {
            assert(baidu_code(Language::Cherokee) == Some(s@));
            return Some(Language::Cherokee);
        }
        if str_eq(s, "nya") {
            assert(baidu_code(Language::ChichewaChewaNyanja) == Some(s@));
            return Some(Language::ChichewaChewaNyanja);
        }
        if str_eq(s, "zh") {
            assert(baidu_code(Language::Chinese) == Some(s@));
            return Some(Language::Chinese);
        }
        if str_eq(s, "cht") {
            assert(baidu_code(Language::Cholon) == Some(s@));
            return Some(Language::Cholon);
        }
        if str_eq(s, "chv") {
            assert(baidu_code(Language::Chuvash) == Some(s@));
            return Some(Language::Chuvash);
        }
        if str_eq(s, "wyw") {
            assert(baidu_code(Language::ClassicalChinese) == Some(s@));
            return Some(Language::ClassicalChinese);
        }
        if str_eq(s, "cor") {
            assert(baidu_code(Language::Cornish) == Some(s@));
            return Some(Language::Cornish);
        }
        if str_eq(s, "cos") {
            assert(baidu_code(Language::Corsican) == Some(s@));
            return Some(Language::Corsican);
        }
        if str_eq(s, "cre") {
            assert(baidu_code(Language::Cree) == Some(s@));
            return Some(Language::Cree);
        }
        if str_eq(s, "hrv") {
            assert(baidu_code(Language::Croatian) == Some(s@));
            return Some(Language::Croatian);
        }
        if str_eq(s, "cs") {
            assert(baidu_code(Language::Czech) == Some(s@));
            return Some(Language::Czech);
        }
        if str_eq(s, "dan") {
            assert(baidu_code(Language::Danish) == Some(s@));
            return Some(Language::Danish);
        }
        if str_eq(s, "ing") {
            assert(baidu_code(Language::DegexitAn) == Some(s@));
            return Some(Language::DegexitAn);
        }
        if str_eq(s, "div") {
            assert(baidu_code(Language::DivehiDhivehiMaldivian) == Some(s@));
            return Some(Language::DivehiDhivehiMaldivian);
        }
        if str_eq(s, "nl") {
            assert(baidu_code(Language::Dutch) == Some(s@));
            return Some(Language::Dutch);
        }
        if str_eq(s, "nea") {
            assert(baidu_code(Language::EasternNgadA) == Some(s@));
            return Some(Language::EasternNgadA);
        }
        if str_eq(s, "eno") {
            assert(baidu_code(Language::Enggano) == Some(s@));
            return Some(Language::Enggano);
        }
        if str_eq(s, "en") {
            assert(baidu_code(Language::English) == Some(s@));
            return Some(Language::English);
        }
        if str_eq(s, "epo") {
            assert(baidu_code(Language::Esperanto) == Some(s@));
            return Some(Language::Esperanto);
        }
        if str_eq(s, "est") {
            assert(baidu_code(Language::Estonian) == Some(s@));
            return Some(Language::Estonian);
        }
        if str_eq(s, "fao") {
            assert(baidu_code(Language::Faroese) == Some(s@));
            return Some(Language::Faroese);
        }
        if str_eq(s, "fil") {
            assert(baidu_code(Language::FilipinoPilipino) == Some(s@));
            return Some(Language::FilipinoPilipino);
        }
        if str_eq(s, "fin") {
            assert(baidu_code(Language::Finnish) == Some(s@));
            return Some(Language::Finnish);
        }
        if str_eq(s, "fra") {
            assert(baidu_code(Language::French) == Some(s@));
            return Some(Language::French);
        }
        if str_eq(s, "frm") {
            assert(baidu_code(Language::FrenchMiddle) == Some(s@));
            return Some(Language::FrenchMiddle);
        }
        if str_eq(s, "fri") {
            assert(baidu_code(Language::Friulian) == Some(s@));
            return Some(Language::Friulian);
        }
        if str_eq(s, "ful") {
            assert(baidu_code(Language::Fulah) == Some(s@));
            return Some(Language::Fulah);
        }
        if str_eq(s, "gla") {
            assert(baidu_code(Language::Gaelic) == Some(s@));
            return Some(Language::Gaelic);
        }
        if str_eq(s, "glg") {
            assert(baidu_code(Language::Galician) == Some(s@));
            return Some(Language::Galician);
        }
        if str_eq(s, "lug") {
            assert(baidu_code(Language::Ganda) == Some(s@));
            return Some(Language::Ganda);
        }
        if str_eq(s, "geo") {
            assert(baidu_code(Language::Georgian) == Some(s@));
            return Some(Language::Georgian);
        }
        if str_eq(s, "de") {
            assert(baidu_code(Language::German) == Some(s@));
            return Some(Language::German);
        }
        if str_eq(s, "el") {
            assert(baidu_code(Language::Greek) == Some(s@));
            return Some(Language::Greek);
        }
        if str_eq(s, "grn") {
            assert(baidu_code(Language::Guarani) == Some(s@));
            return Some(Language::Guarani);
        }
        if str_eq(s, "guj") {
            assert(baidu_code(Language::Gujarati) == Some(s@));
            return Some(Language::Gujarati);
        }
        if str_eq(s, "ht") {
            assert(baidu_code(Language::Haitian) == Some(s@));
            return Some(Language::Haitian);
        }
        if str_eq(s, "hak") {
            assert(baidu_code(Language::HakkaChinese) == Some(s@));
            return Some(Language::HakkaChinese);
        }
        if str_eq(s, "hau") {
            assert(baidu_code(Language::Hausa) == Some(s@));
            return Some(Language::Hausa);
        }
        if str_eq(s, "haw") {
            assert(baidu_code(Language::Hawaiian) == Some(s@));
            return Some(Language::Hawaiian);
        }
        if str_eq(s, "heb") {
            assert(baidu_code(Language::Hebrew) == Some(s@));
            return Some(Language::Hebrew);
        }
        if str_eq(s, "hil") {
            assert(baidu_code(Language::Hiligaynon) == Some(s@));
            return Some(Language::Hiligaynon);
        }
        if str_eq(s, "hi") {
            assert(baidu_code(Language::Hindi) == Some(s@));
            return Some(Language::Hindi);
        }
        if str_eq(s, "hmn") {
            assert(baidu_code(Language::HmongMong) == Some(s@));
            return Some(Language::HmongMong);
        }
        if str_eq(s, "mau") {
            assert(baidu_code(Language::HuautlaMazatec) == Some(s@));
            return Some(Language::HuautlaMazatec);
        }
        if str_eq(s, "hu") {
            assert(baidu_code(Language::Hungarian) == Some(s@));
            return Some(Language::Hungarian);
        }
        if str_eq(s, "hup") {
            assert(baidu_code(Language::Hupa) == Some(s@));
            return Some(Language::Hupa);
        }
        if str_eq(s, "ice") {
            assert(baidu_code(Language::Icelandic) == Some(s@));
            return Some(Language::Icelandic);
        }
        if str_eq(s, "ido") {
            assert(baidu_code(Language::Ido) == Some(s@));
            return Some(Language::Ido);
        }
        if str_eq(s, "ibo") {
            assert(baidu_code(Language::Igbo) == Some(s@));
            return Some(Language::Igbo);
        }
        if str_eq(s, "id") {
            assert(baidu_code(Language::Indonesian) == Some(s@));
            return Some(Language::Indonesian);
        }
        if str_eq(s, "ina") {
            assert(baidu_code(Language::Interlingua) == Some(s@));
            return Some(Language::Interlingua);
        }
        if str_eq(s, "iku") {
            assert(baidu_code(Language::Inuktitut) == Some(s@));
            return Some(Language::Inuktitut);
        }
        if str_eq(s, "gle") {
            assert(baidu_code(Language::Irish) == Some(s@));
            return Some(Language::Irish);
        }
        if str_eq(s, "it") {
            assert(baidu_code(Language::Italian) == Some(s@));
            return Some(Language::Italian);
        }
        if str_eq(s, "jp") {
            assert(baidu_code(Language::Japanese) == Some(s@));
            return Some(Language::Japanese);
        }
        if str_eq(s, "jav") {
            assert(baidu_code(Language::Javanese) == Some(s@));
            return Some(Language::Javanese);
        }
        if str_eq(s, "kab") {
            assert(baidu_code(Language::Kabyle) == Some(s@));
            return Some(Language::Kabyle);
        }
        if str_eq(s, "kal") {
            assert(baidu_code(Language::KalaallisutGreenlandic) == Some(s@));
            return Some(Language::KalaallisutGreenlandic);
        }
        if str_eq(s, "kli") {
            assert(baidu_code(Language::Kalumpang) == Some(s@));
            return Some(Language::Kalumpang);
        }
        if str_eq(s, "kan") {
            assert(baidu_code(Language::Kannada) == Some(s@));
            return Some(Language::Kannada);
        }
        if str_eq(s, "kau") {
            assert(baidu_code(Language::Kanuri) == Some(s@));
            return Some(Language::Kanuri);
        }
        if str_eq(s, "kah") {
            assert(baidu_code(Language::Kara) == Some(s@));
            return Some(Language::Kara);
        }
        if str_eq(s, "kas") {
            assert(baidu_code(Language::Kashmiri) == Some(s@));
            return Some(Language::Kashmiri);
        }
        if str_eq(s, "kin") {
            assert(baidu_code(Language::Kinyarwanda) == Some(s@));
            return Some(Language::Kinyarwanda);
        }
        if str_eq(s, "kir") {
            assert(baidu_code(Language::KirghizKyrgyz) == Some(s@));
            return Some(Language::KirghizKyrgyz);
        }
        if str_eq(s, "kon") {
            assert(baidu_code(Language::Kongo) == Some(s@));
            return Some(Language::Kongo);
        }
        if str_eq(s, "kok") {
            assert(baidu_code(Language::Konkani) == Some(s@));
            return Some(Language::Konkani);
        }
        if str_eq(s, "kor") {
            assert(baidu_code(Language::Korean) == Some(s@));
            return Some(Language::Korean);
        }
        if str_eq(s, "kur") {
            assert(baidu_code(Language::Kurdish) == Some(s@));
            return Some(Language::Kurdish);
        }
        if str_eq(s, "lag") {
            assert(baidu_code(Language::Langi) == Some(s@));
            return Some(Language::Langi);
        }
        if str_eq(s, "lao") {
            assert(baidu_code(Language::Lao) == Some(s@));
            return Some(Language::Lao);
        }
        if str_eq(s, "lat") {
            assert(baidu_code(Language::Latin) == Some(s@));
            return Some(Language::Latin);
        }
        if str_eq(s, "lav") {
            assert(baidu_code(Language::Latvian) == Some(s@));
            return Some(Language::Latvian);
        }
        if str_eq(s, "lim") {
            assert(baidu_code(Language::LimburganLimburgerLimburgish) == Some(s@));
            return Some(Language::LimburganLimburgerLimburgish);
        }
        if str_eq(s, "lin") {
            assert(baidu_code(Language::Lingala) == Some(s@));
            return Some(Language::Lingala);
        }
        if str_eq(s, "lit") {
            assert(baidu_code(Language::Lithuanian) == Some(s@));
            return Some(Language::Lithuanian);
        }
        if str_eq(s, "log") {
            assert(baidu_code(Language::Logo) == Some(s@));
            return Some(Language::Logo);
        }
        if str_eq(s, "src") {
            assert(baidu_code(Language::LogudoreseSardinian) == Some(s@));
            return Some(Language::LogudoreseSardinian);
        }
        if str_eq(s, "los") {
            assert(baidu_code(Language::Loniu) == Some(s@));
            return Some(Language::Loniu);
        }
        if str_eq(s, "loj") {
            assert(baidu_code(Language::Lou) == Some(s@));
            return Some(Language::Lou);
        }
        if str_eq(s, "ltz") {
            assert(baidu_code(Language::Luxembourgish) == Some(s@));
            return Some(Language::Luxembourgish);
        }
        if str_eq(s, "mac") {
            assert(baidu_code(Language::Macedonian) == Some(s@));
            return Some(Language::Macedonian);
        }
        if str_eq(s, "mai") {
            assert(baidu_code(Language::Maithili) == Some(s@));
            return Some(Language::Maithili);
        }
        if str_eq(s, "ruy") {
            assert(baidu_code(Language::MalaNigeria) == Some(s@));
            return Some(Language::MalaNigeria);
        }
        if str_eq(s, "ped") {
            assert(baidu_code(Language::MalaPapuaNewGuinea) == Some(s@));
            return Some(Language::MalaPapuaNewGuinea);
        }
        if str_eq(s, "mg") {
            assert(baidu_code(Language::Malagasy) == Some(s@));
            return Some(Language::Malagasy);
        }
        if str_eq(s, "may") {
            assert(baidu_code(Language::Malay) == Some(s@));
            return Some(Language::Malay);
        }
        if str_eq(s, "mal") {
            assert(baidu_code(Language::Malayalam) == Some(s@));
            return Some(Language::Malayalam);
        }
        if str_eq(s, "mlt") {
            assert(baidu_code(Language::Maltese) == Some(s@));
            return Some(Language::Maltese);
        }
        if str_eq(s, "glv") {
            assert(baidu_code(Language::Manx) == Some(s@));
            return Some(Language::Manx);
        }
        if str_eq(s, "mao") {
            assert(baidu_code(Language::Maori) == Some(s@));
            return Some(Language::Maori);
        }
        if str_eq(s, "mar") {
            assert(baidu_code(Language::Marathi) == Some(s@));
            return Some(Language::Marathi);
        }
        if str_eq(s, "mah") {
            assert(baidu_code(Language::Marshallese) == Some(s@));
            return Some(Language::Marshallese);
        }
        if str_eq(s, "nqo") {
            assert(baidu_code(Language::NKo) == Some(s@));
            return Some(Language::NKo);
        }
        if str_eq(s, "nbl") {
            assert(baidu_code(Language::NdebeleSouthSouthNdebele) == Some(s@));
            return Some(Language::NdebeleSouthSouthNdebele);
        }
        if str_eq(s, "nep") {
            assert(baidu_code(Language::Nepali) == Some(s@));
            return Some(Language::Nepali);
        }
        if str_eq(s, "sme") {
            assert(baidu_code(Language::NorthernSami) == Some(s@));
            return Some(Language::NorthernSami);
        }
        if str_eq(s, "nob") {
            assert(baidu_code(Language::NorwegianBokmal) == Some(s@));
            return Some(Language::NorwegianBokmal);
        }
        if str_eq(s, "nno") {
            assert(baidu_code(Language::NorwegianNynorsk) == Some(s@));
            return Some(Language::NorwegianNynorsk);
        }
        if str_eq(s, "nor") {
            assert(baidu_code(Language::Norwegian) == Some(s@));
            return Some(Language::Norwegian);
        }
        if str_eq(s, "oci") {
            assert(baidu_code(Language::Occitan) == Some(s@));
            return Some(Language::Occitan);
        }
        if str_eq(s, "oji") {
            assert(baidu_code(Language::Ojibwa) == Some(s@));
            return Some(Language::Ojibwa);
        }
        if str_eq(s, "ori") {
            assert(baidu_code(Language::Oriya) == Some(s@));
            return Some(Language::Oriya);
        }
        if str_eq(s, "orm") {
            assert(baidu_code(Language::Oromo) == Some(s@));
            return Some(Language::Oromo);
        }
        if str_eq(s, "oss") {
            assert(baidu_code(Language::OssetianOssetic) == Some(s@));
            return Some(Language::OssetianOssetic);
        }
        if str_eq(s, "pam") {
            assert(baidu_code(Language::PampangaKapampangan) == Some(s@));
            return Some(Language::PampangaKapampangan);
        }
        if str_eq(s, "pan") {
            assert(baidu_code(Language::Panjabi) == Some(s@));
            return Some(Language::Panjabi);
        }
        if str_eq(s, "pap") {
            assert(baidu_code(Language::Papiamento) == Some(s@));
            return Some(Language::Papiamento);
        }
        if str_eq(s, "per") {
            assert(baidu_code(Language::Persian) == Some(s@));
            return Some(Language::Persian);
        }
        if str_eq(s, "pl") {
            assert(baidu_code(Language::Polish) == Some(s@));
            return Some(Language::Polish);
        }
        if str_eq(s, "pt") {
            assert(baidu_code(Language::Portuguese) == Some(s@));
            return Some(Language::Portuguese);
        }
        if str_eq(s, "pot") {
            assert(baidu_code(Language::Potawatomi) == Some(s@));
            return Some(Language::Potawatomi);
        }
        if str_eq(s, "pus") {
            assert(baidu_code(Language::Pushto) == Some(s@));
            return Some(Language::Pushto);
        }
        if str_eq(s, "que") {
            assert(baidu_code(Language::Quechua) == Some(s@));
            return Some(Language::Quechua);
        }
        if str_eq(s, "gra") {
            assert(baidu_code(Language::RajputGarasia) == Some(s@));
            return Some(Language::RajputGarasia);
        }
        if str_eq(s, "ro") {
            assert(baidu_code(Language::Romanian) == Some(s@));
            return Some(Language::Romanian);
        }
        if str_eq(s, "roh") {
            assert(baidu_code(Language::Romansh) == Some(s@));
            return Some(Language::Romansh);
        }
        if str_eq(s, "rom") {
            assert(baidu_code(Language::Romany) == Some(s@));
            return Some(Language::Romany);
        }
        if str_eq(s, "ru") {
            assert(baidu_code(Language::Russian) == Some(s@));
            return Some(Language::Russian);
        }
        if str_eq(s, "sm") {
            assert(baidu_code(Language::Samoan) == Some(s@));
            return Some(Language::Samoan);
        }
        if str_eq(s, "san") {
            assert(baidu_code(Language::Sanskrit) == Some(s@));
            return Some(Language::Sanskrit);
        }
        if str_eq(s, "srd") {
            assert(baidu_code(Language::Sardinian) == Some(s@));
            return Some(Language::Sardinian);
        }
        if str_eq(s, "sco") {
            assert(baidu_code(Language::Scots) == Some(s@));
            return Some(Language::Scots);
        }
        if str_eq(s, "sec") {
            assert(baidu_code(Language::Sechelt) == Some(s@));
            return Some(Language::Sechelt);
        }
        if str_eq(s, "srp") {
            assert(baidu_code(Language::Serbian) == Some(s@));
            return Some(Language::Serbian);
        }
        if str_eq(s, "sha") {
            assert(baidu_code(Language::ShallZwall) == Some(s@));
            return Some(Language::ShallZwall);
        }
        if str_eq(s, "sna") {
            assert(baidu_code(Language::Shona) == Some(s@));
            return Some(Language::Shona);
        }
        if str_eq(s, "snd") {
            assert(baidu_code(Language::Sindhi) == Some(s@));
            return Some(Language::Sindhi);
        }
        if str_eq(s, "sin") {
            assert(baidu_code(Language::Sinhala) == Some(s@));
            return Some(Language::Sinhala);
        }
        if str_eq(s, "sk") {
            assert(baidu_code(Language::Slovak) == Some(s@));
            return Some(Language::Slovak);
        }
        if str_eq(s, "sol") {
            assert(baidu_code(Language::Solos) == Some(s@));
            return Some(Language::Solos);
        }
        if str_eq(s, "som") {
            assert(baidu_code(Language::Somali) == Some(s@));
            return Some(Language::Somali);
        }
        if str_eq(s, "sot") {
            assert(baidu_code(Language::SothoSouthern) == Some(s@));
            return Some(Language::SothoSouthern);
        }
        if str_eq(s, "spa") {
            assert(baidu_code(Language::Spanish) == Some(s@));
            return Some(Language::Spanish);
        }
        if str_eq(s, "sun") {
            assert(baidu_code(Language::Sundanese) == Some(s@));
            return Some(Language::Sundanese);
        }
        if str_eq(s, "swa") {
            assert(baidu_code(Language::Swahili) == Some(s@));
            return Some(Language::Swahili);
        }
        if str_eq(s, "swe") {
            assert(baidu_code(Language::Swedish) == Some(s@));
            return Some(Language::Swedish);
        }
        if str_eq(s, "syr") {
            assert(baidu_code(Language::Syriac) == Some(s@));
            return Some(Language::Syriac);
        }
        if str_eq(s, "cri") {
            assert(baidu_code(Language::Saotomense) == Some(s@));
            return Some(Language::Saotomense);
        }
        if str_eq(s, "tgl") {
            assert(baidu_code(Language::Tagalog) == Some(s@));
            return Some(Language::Tagalog);
        }
        if str_eq(s, "tgk") {
            assert(baidu_code(Language::Tajik) == Some(s@));
            return Some(Language::Tajik);
        }
        if str_eq(s, "tam") {
            assert(baidu_code(Language::Tamil) == Some(s@));
            return Some(Language::Tamil);
        }
        if str_eq(s, "tat") {
            assert(baidu_code(Language::Tatar) == Some(s@));
            return Some(Language::Tatar);
        }
        if str_eq(s, "tel") {
            assert(baidu_code(Language::Telugu) == Some(s@));
            return Some(Language::Telugu);
        }
        if str_eq(s, "tet") {
            assert(baidu_code(Language::Tetum) == Some(s@));
            return Some(Language::Tetum);
        }
        if str_eq(s, "th") {
            assert(baidu_code(Language::Thai) == Some(s@));
            return Some(Language::Thai);
        }
        if str_eq(s, "tir") {
            assert(baidu_code(Language::Tigrinya) == Some(s@));
            return Some(Language::Tigrinya);
        }
        if str_eq(s, "tso") {
            assert(baidu_code(Language::Tsonga) == Some(s@));
            return Some(Language::Tsonga);
        }
        if str_eq(s, "sil") {
            assert(baidu_code(Language::TumulungSisaala) == Some(s@));
            return Some(Language::TumulungSisaala);
        }
        if str_eq(s, "tr") {
            assert(baidu_code(Language::Turkish) == Some(s@));
            return Some(Language::Turkish);
        }
        if str_eq(s, "tuk") {
            assert(baidu_code(Language::Turkmen) == Some(s@));
            return Some(Language::Turkmen);
        }
        if str_eq(s, "twi") {
            assert(baidu_code(Language::Twi) == Some(s@));
            return Some(Language::Twi);
        }
        if str_eq(s, "ukr") {
            assert(baidu_code(Language::Ukrainian) == Some(s@));
            return Some(Language::Ukrainian);
        }
        if str_eq(s, "ups") {
            assert(baidu_code(Language::UpperSorbian) == Some(s@));
            return Some(Language::UpperSorbian);
        }
        if str_eq(s, "urd") {
            assert(baidu_code(Language::Urdu) == Some(s@));
            return Some(Language::Urdu);
        }
        if str_eq(s, "ven") {
            assert(baidu_code(Language::Venda) == Some(s@));
            return Some(Language::Venda);
        }
        if str_eq(s, "vie") {
            assert(baidu_code(Language::Vietnamese) == Some(s@));
            return Some(Language::Vietnamese);
        }
        if str_eq(s, "wln") {
            assert(baidu_code(Language::Walloon) == Some(s@));
            return Some(Language::Walloon);
        }
        if str_eq(s, "wel") {
            assert(baidu_code(Language::Welsh) == Some(s@));
            return Some(Language::Welsh);
        }
        if str_eq(s, "fry") {
            assert(baidu_code(Language::WesternFrisian) == Some(s@));
            return Some(Language::WesternFrisian);
        }
        if str_eq(s, "tua") {
            assert(baidu_code(Language::Wiarumus) == Some(s@));
            return Some(Language::Wiarumus);
        }
        if str_eq(s, "wol") {
            assert(baidu_code(Language::Wolof) == Some(s@));
            return Some(Language::Wolof);
        }
        if str_eq(s, "xho") {
            assert(baidu_code(Language::Xhosa) == Some(s@));
            return Some(Language::Xhosa);
        }
        if str_eq(s, "yid") {
            assert(baidu_code(Language::Yiddish) == Some(s@));
            return Some(Language::Yiddish);
        }
        if str_eq(s, "yor") {
            assert(baidu_code(Language::Yoruba) == Some(s@));
            return Some(Language::Yoruba);
        }
        if str_eq(s, "yue") {
            assert(baidu_code(Language::YueChinese) == Some(s@));
            return Some(Language::YueChinese);
        }
        if str_eq(s, "zaz") {
            assert(baidu_code(Language::Zari) == Some(s@));
            return Some(Language::Zari);
        }
        if str_eq(s, "zul") {
            assert(baidu_code(Language::Zulu) == Some(s@));
            return Some(Language::Zulu);
        }
        None
    }

    /// The wire code of this language for the caiyun vocabulary.
    pub fn to_caiyun(&self) -> (r: Option<&'static str>)
        ensures
            code_view(r) == caiyun_code(*self),
    {
        match self {
            Language::ChineseTraditional => Some("zh"),
            Language::Chinese => Some("zh-Hant"),
            Language::English => Some("en"),
            Language::French => Some("fr"),
            Language::German => Some("de"),
            Language::Italian => Some("it"),
            Language::Japanese => Some("ja"),
            Language::Korean => Some("ko"),
            Language::Portuguese => Some("pt"),
            Language::Russian => Some("ru"),
            Language::Spanish => Some("es"),
            Language::Turkish => Some("tr"),
            Language::Vietnamese => Some("vi"),
            _ => None,
        }
    }

    /// The language whose caiyun wire code is `s`.
    #[verifier::rlimit(60)]
    pub fn from_caiyun(s: &str) -> (r: Option<Language>)
        ensures
            r == caiyun_language(s@),
    {
        proof {
            lemma_caiyun_codes_distinct();
        }
        if str_eq(s, "zh") {
            assert(caiyun_code(Language::ChineseTraditional) == Some(s@));
            return Some(Language::ChineseTraditional);
        }
        if str_eq(s, "zh-Hant") {
            assert(caiyun_code(Language::Chinese) == Some(s@));
            return Some(Language::Chinese);
        }
        if str_eq(s, "en") {
            assert(caiyun_code(Language::English) == Some(s@));
            return Some(Language::English);
        }
        if str_eq(s, "fr") {
            assert(caiyun_code(Language::French) == Some(s@));
            return Some(Language::French);
        }
        if str_eq(s, "de") {
            assert(caiyun_code(Language::German) == Some(s@));
            return Some(Language::German);
        }
        if str_eq(s, "it") {
            assert(caiyun_code(Language::Italian) == Some(s@));
            return Some(Language::Italian);
        }
        if str_eq(s, "ja") {
            assert(caiyun_code(Language::Japanese) == Some(s@));
            return Some(Language::Japanese);
        }
        if str_eq(s, "ko") {
            assert(caiyun_code(Language::Korean) == Some(s@));
            return Some(Language::Korean);
        }
        if str_eq(s, "pt") {
            assert(caiyun_code(Language::Portuguese) == Some(s@));
            return Some(Language::Portuguese);
        }
        if str_eq(s, "ru") {
            assert(caiyun_code(Language::Russian) == Some(s@));
            return Some(Language::Russian);
        }
        if str_eq(s, "es") {
            assert(caiyun_code(Language::Spanish) == Some(s@));
            return Some(Language::Spanish);
        }
        if str_eq(s, "tr") {
            assert(caiyun_code(Language::Turkish) == Some(s@));
            return Some(Language::Turkish);
        }
        if str_eq(s, "vi") {
            assert(caiyun_code(Language::Vietnamese) == Some(s@));
            return Some(Language::Vietnamese);
        }
        None
    }

    /// The wire code of this language for the mymemory vocabulary.
    pub fn to_mymemory(&self) -> (r: Option<&'static str>)
        ensures
            code_view(r) == mymemory_code(*self),
    {
        match self {
            Language::Afrikaans => Some("af-ZA"),
            Language::Albanian => Some("sq-AL"),
            Language::Amharic => Some("am-ET"),
            Language::AntiguaAndBarbudaCreoleEnglish => Some("aig-AG"),
            Language::Arabic => Some("ar-SA"),
            Language::Armenian => Some("hy-AM"),
            Language::Azerbaijani => Some("az-AZ"),
            Language::BahamasCreoleEnglish => Some("bah-BS"),
            Language::Bajan => Some("bjs-BB"),
            Language::Basque => Some("eu-ES"),
            Language::Belarusian => Some("be-BY"),
            Language::Bemba => Some("bem-ZM"),
            Language::Bengali => Some("bn-IN"),
            Language::Bislama => Some("bi-VU"),
            Language::Bosnian => Some("bs-BA"),
            Language::Breton => Some("br-FR"),
            Language::Bulgarian => Some("bg-BG"),
            Language::Burmese => Some("my-MM"),
            Language::Catalan => Some("ca-ES"),
            Language::Cebuano => Some("ceb-PH"),
            Language::CentralKhmer => Some("km-KM"),
            Language::CentralKurdish => Some("ckb-IQ"),
            Language::Chamorro => Some("ch-GU"),
            Language::ChichewaChewaNyanja => Some("ny-MW"),
            Language::ChineseTraditional => Some("zh-TW"),
            Language::Chinese => Some("zh-CN"),
            Language::ClassicalSyriac => Some("syc-TR"),
            Language::Coptic => Some("cop-EG"),
            Language::Croatian => Some("hr-HR"),
            Language::Czech => Some("cs-CZ"),
            Language::Danish => Some("da-DK"),
            Language::DivehiDhivehiMaldivian => Some("dv-MV"),
            Language::Dutch => Some("nl-NL"),
            Language::Dzongkha => Some("dz-BT"),
            Language::English => Some("en-GB"),
            Language::Esperanto => Some("eo-EU"),
            Language::Estonian => Some("et-EE"),
            Language::Fanagalo => Some("fn-FNG"),
            Language::Faroese => Some("fo-FO"),
            Language::Finnish => Some("fi-FI"),
            Language::French => Some("fr-FR"),
            Language::Gaelic => Some("gd-GB"),
            Language::Galician => Some("gl-ES"),
            Language::Georgian => Some("ka-GE"),
            Language::German => Some("de-DE"),
            Language::Greek => Some("el-GR"),
            Language::GreekAncient => Some("grc-GR"),
            Language::GrenadianCreoleEnglish => Some("gcl-GD"),
            Language::Gujarati => Some("gu-IN"),
            Language::GuyaneseCreoleEnglish => Some("gyn-GY"),
            Language::Haitian => Some("ht-HT"),
            Language::Hausa => Some("ha-NE"),
            Language::Hawaiian => Some("haw-US"),
            Language::Hebrew => Some("he-IL"),
            Language::Hindi => Some("hi-IN"),
            Language::Hungarian => Some("hu-HU"),
            Language::Icelandic => Some("is-IS"),
            Language::Indonesian => Some("id-ID"),
            Language::Irish => Some("ga-IE"),
            Language::Italian => Some("it-IT"),
            Language::JamaicanCreoleEnglish => Some("jam-JM"),
            Language::Japanese => Some("ja-JP"),
            Language::Javanese => Some("jv-ID"),
            Language::Kabuverdianu => Some("kea-CV"),
            Language::Kabyle => Some("kab-DZ"),
            Language::KalaallisutGreenlandic => Some("kl-GL"),
            Language::Kannada => Some("kn-IN"),
            Language::Kazakh => Some("kk-KZ"),
            Language::Kinyarwanda => Some("rw-RW"),
            Language::KirghizKyrgyz => Some("ky-KG"),
            Language::Korean => Some("ko-KR"),
            Language::Kurdish => Some("ku-TR"),
            Language::Lao => Some("lo-LA"),
            Language::Latin => Some("la-VA"),
            Language::Latvian => Some("lv-LV"),
            Language::Lithuanian => Some("lt-LT"),
            Language::Luxembourgish => Some("lb-LU"),
            Language::Macedonian => Some("mk-MK"),
            Language::Malagasy => Some("mg-MG"),
            Language::Malay => Some("ms-MY"),
            Language::Maltese => Some("mt-MT"),
            Language::Manx => Some("gv-IM"),
            Language::Maori => Some("mi-NZ"),
            Language::Marshallese => Some("mh-MH"),
            Language::Mende => Some("men-SL"),
            Language::Mongolian => Some("mn-MN"),
            Language::Morisyen => Some("mfe-MU"),
            Language::Nepali => Some("ne-NP"),
            Language::NgazidjaComorian => Some("zdj-KM"),
            Language::Niuean => Some("niu-NU"),
            Language::Norwegian => Some("no-NO"),
            Language::Palauan => Some("pau-PW"),
            Language::Panjabi => Some("pa-IN"),
            Language::Papiamento => Some("pap-CW"),
            Language::Persian => Some("fa-IR"),
            Language::Pijin => Some("pis-SB"),
            Language::Polish => Some("pl-PL"),
            Language::Portuguese => Some("pt-PT"),
            Language::Potawatomi => Some("pot-US"),
            Language::Pushto => Some("ps-PK"),
            Language::Quechua => Some("qu-PE"),
            Language::Romanian => Some("ro-RO"),
            Language::Romansh => Some("rm-RO"),
            Language::Rundi => Some("rn-BI"),
            Language::Russian => Some("ru-RU"),
            Language::SaintLucianCreoleFrench => Some("acf-LC"),
            Language::Samoan => Some("sm-WS"),
            Language::Sango => Some("sg-CF"),
            Language::Serbian => Some("sr-RS"),
            Language::SeselwaCreoleFrench => Some("crs-SC"),
            Language::Shona => Some("sn-ZW"),
            Language::Sinhala => Some("si-LK"),
            Language::Slovak => Some("sk-SK"),
            Language::Slovenian => Some("sl-SI"),
            Language::Somali => Some("so-SO"),
            Language::SothoSouthern => Some("st-ST"),
            Language::Spanish => Some("es-ES"),
            Language::SrananTongo => Some("srn-SR"),
            Language::Swahili => Some("sw-SZ"),
            Language::Swedish => Some("sv-SE"),
            Language::SwissGerman => Some("de-CH"),
            Language::Tagalog => Some("tl-PH"),
            Language::Tajik => Some("tg-TJ"),
            Language::Tamashek => Some("tmh-DZ"),
            Language::Tamil => Some("ta-LK"),
            Language::Telugu => Some("te-IN"),
            Language::Tetum => Some("tet-TL"),
            Language::Thai => Some("th-TH"),
            Language::Tibetan => Some("bo-CN"),
            Language::Tigrinya => Some("ti-TI"),
            Language::TokPisin => Some("tpi-PG"),
            Language::Tokelau => Some("tkl-TK"),
            Language::Tonga => Some("to-TO"),
            Language::Tswana => Some("tn-BW"),
            Language::Turkish => Some("tr-TR"),
            Language::Turkmen => Some("tk-TM"),
            Language::Tuvalu => Some("tvl-TV"),
            Language::Ukrainian => Some("uk-UA"),
            Language::Uma => Some("ppk-ID"),
            Language::UpperGuineaCrioulo => Some("pov-GW"),
            Language::Urdu => Some("ur-PK"),
            Language::Uzbek => Some("uz-UZ"),
            Language::Vietnamese => Some("vi-VN"),
            Language::VincentianCreoleEnglish => Some("svc-VC"),
            Language::VirginIslandsCreoleEnglish => Some("vic-US"),
            Language::Wallisian => Some("wls-WF"),
            Language::Welsh => Some("cy-GB"),
            Language::Wolof => Some("wo-SN"),
            Language::Xhosa => Some("xh-ZA"),
            Language::Yiddish => Some("yi-YD"),
            Language::Zulu => Some("zu-ZA"),
            _ => None,
        }
    }

    /// The language whose mymemory wire code is `s`.
    #[verifier::rlimit(60)]
    pub fn from_mymemory(s: &str) -> (r: Option<Language>)
        ensures
            r == mymemory_language(s@),
    {
        proof {
            lemma_mymemory_codes_distinct();
        }
        if str_eq(s, "af-ZA") {
            assert(mymemory_code(Language::Afrikaans) == Some(s@));
            return Some(Language::Afrikaans);
        }
        if str_eq(s, "sq-AL") {
            assert(mymemory_code(Language::Albanian) == Some(s@));
            return Some(Language::Albanian);
        }
        if str_eq(s, "am-ET") {
            assert(mymemory_code(Language::Amharic) == Some(s@));
            return Some(Language::Amharic);
        }
        if str_eq(s, "aig-AG") {
            assert(mymemory_code(Language::AntiguaAndBarbudaCreoleEnglish) == Some(s@));
            return Some(Language::AntiguaAndBarbudaCreoleEnglish);
        }
        if str_eq(s, "ar-SA") {
            assert(mymemory_code(Language::Arabic) == Some(s@));
            return Some(Language::Arabic);
        }
        if str_eq(s, "hy-AM") {
            assert(mymemory_code(Language::Armenian) == Some(s@));
            return Some(Language::Armenian);
        }
        if str_eq(s, "az-AZ") {
            assert(mymemory_code(Language::Azerbaijani) == Some(s@));
            return Some(Language::Azerbaijani);
        }
        if str_eq(s, "bah-BS") {
            assert(mymemory_code(Language::BahamasCreoleEnglish) == Some(s@));
            return Some(Language::BahamasCreoleEnglish);
        }
        if str_eq(s, "bjs-BB") {
            assert(mymemory_code(Language::Bajan) == Some(s@));
            return Some(Language::Bajan);
        }
        if str_eq(s, "eu-ES") {
            assert(mymemory_code(Language::Basque) == Some(s@));
            return Some(Language::Basque);
        }
        if str_eq(s, "be-BY") {
            assert(mymemory_code(Language::Belarusian) == Some(s@));
            return Some(Language::Belarusian);
        }
        if str_eq(s, "bem-ZM") {
            assert(mymemory_code(Language::Bemba) == Some(s@));
            return Some(Language::Bemba);
        }
        if str_eq(s, "bn-IN") {
            assert(mymemory_code(Language::Bengali) == Some(s@));
            return Some(Language::Bengali);
        }
        if str_eq(s, "bi-VU") {
            assert(mymemory_code(Language::Bislama) == Some(s@));
            return Some(Language::Bislama);
        }
        if str_eq(s, "bs-BA") {
            assert(mymemory_code(Language::Bosnian) == Some(s@));
            return Some(Language::Bosnian);
        }
        if str_eq(s, "br-FR") {
            assert(mymemory_code(Language::Breton) == Some(s@));
            return Some(Language::Breton);
        }
        if str_eq(s, "bg-BG") {
            assert(mymemory_code(Language::Bulgarian) == Some(s@));
            return Some(Language::Bulgarian);
        }
        if str_eq(s, "my-MM") {
            assert(mymemory_code(Language::Burmese) == Some(s@));
            return Some(Language::Burmese);
        }
        if str_eq(s, "ca-ES") {
            assert(mymemory_code(Language::Catalan) == Some(s@));
            return Some(Language::Catalan);
        }
        if str_eq(s, "ceb-PH") {
            assert(mymemory_code(Language::Cebuano) == Some(s@));
            return Some(Language::Cebuano);
        }
        if str_eq(s, "km-KM") {
            assert(mymemory_code(Language::CentralKhmer) == Some(s@));
            return Some(Language::CentralKhmer);
        }
        if str_eq(s, "ckb-IQ") {
            assert(mymemory_code(Language::CentralKurdish) == Some(s@));
            return Some(Language::CentralKurdish);
        }
        if str_eq(s, "ch-GU") {
            assert(mymemory_code(Language::Chamorro) == Some(s@));
            return Some(Language::Chamorro);
        }
        if str_eq(s, "ny-MW") {
            assert(mymemory_code(Language::ChichewaChewaNyanja) == Some(s@));
            return Some(Language::ChichewaChewaNyanja);
        }
        if str_eq(s, "zh-TW") {
            assert(mymemory_code(Language::ChineseTraditional) == Some(s@));
            return Some(Language::ChineseTraditional);
        }
        if str_eq(s, "zh-CN") {
            assert(mymemory_code(Language::Chinese) == Some(s@));
            return Some(Language::Chinese);
        }
        if str_eq(s, "syc-TR") {
            assert(mymemory_code(Language::ClassicalSyriac) == Some(s@));
            return Some(Language::ClassicalSyriac);
        }
        if str_eq(s, "cop-EG") {
            assert(mymemory_code(Language::Coptic) == Some(s@));
            return Some(Language::Coptic);
        }
        if str_eq(s, "hr-HR") {
            assert(mymemory_code(Language::Croatian) == Some(s@));
            return Some(Language::Croatian);
        }
        if str_eq(s, "cs-CZ") {
            assert(mymemory_code(Language::Czech) == Some(s@));
            return Some(Language::Czech);
        }
        if str_eq(s, "da-DK") {
            assert(mymemory_code(Language::Danish) == Some(s@));
            return Some(Language::Danish);
        }
        if str_eq(s, "dv-MV") {
            assert(mymemory_code(Language::DivehiDhivehiMaldivian) == Some(s@));
            return Some(Language::DivehiDhivehiMaldivian);
        }
        if str_eq(s, "nl-NL") {
            assert(mymemory_code(Language::Dutch) == Some(s@));
            return Some(Language::Dutch);
        }
        if str_eq(s, "dz-BT") {
            assert(mymemory_code(Language::Dzongkha) == Some(s@));
            return Some(Language::Dzongkha);
        }
        if str_eq(s, "en-GB") {
            assert(mymemory_code(Language::English) == Some(s@));
            return Some(Language::English);
        }
        if str_eq(s, "eo-EU") {
            assert(mymemory_code(Language::Esperanto) == Some(s@));
            return Some(Language::Esperanto);
        }
        if str_eq(s, "et-EE") {
            assert(mymemory_code(Language::Estonian) == Some(s@));
            return Some(Language::Estonian);
        }
        if str_eq(s, "fn-FNG") {
            assert(mymemory_code(Language::Fanagalo) == Some(s@));
            return Some(Language::Fanagalo);
        }
        if str_eq(s, "fo-FO") {
            assert(mymemory_code(Language::Faroese) == Some(s@));
            return Some(Language::Faroese);
        }
        if str_eq(s, "fi-FI") {
            assert(mymemory_code(Language::Finnish) == Some(s@));
            return Some(Language::Finnish);
        }
        if str_eq(s, "fr-FR") {
            assert(mymemory_code(Language::French) == Some(s@));
            return Some(Language::French);
        }
        if str_eq(s, "gd-GB") {
            assert(mymemory_code(Language::Gaelic) == Some(s@));
            return Some(Language::Gaelic);
        }
        if str_eq(s, "gl-ES") {
            assert(mymemory_code(Language::Galician) == Some(s@));
            return Some(Language::Galician);
        }
        if str_eq(s, "ka-GE") {
            assert(mymemory_code(Language::Georgian) == Some(s@));
            return Some(Language::Georgian);
        }
        if str_eq(s, "de-DE") {
            assert(mymemory_code(Language::German) == Some(s@));
            return Some(Language::German);
        }
        if str_eq(s, "el-GR") {
            assert(mymemory_code(Language::Greek) == Some(s@));
            return Some(Language::Greek);
        }
        if str_eq(s, "grc-GR") {
            assert(mymemory_code(Language::GreekAncient) == Some(s@));
            return Some(Language::GreekAncient);
        }
        if str_eq(s, "gcl-GD") {
            assert(mymemory_code(Language::GrenadianCreoleEnglish) == Some(s@));
            return Some(Language::GrenadianCreoleEnglish);
        }
        if str_eq(s, "gu-IN") {
            assert(mymemory_code(Language::Gujarati) == Some(s@));
            return Some(Language::Gujarati);
        }
        if str_eq(s, "gyn-GY") {
            assert(mymemory_code(Language::GuyaneseCreoleEnglish) == Some(s@));
            return Some(Language::GuyaneseCreoleEnglish);
        }
        if str_eq(s, "ht-HT") {
            assert(mymemory_code(Language::Haitian) == Some(s@));
            return Some(Language::Haitian);
        }
        if str_eq(s, "ha-NE") {
            assert(mymemory_code(Language::Hausa) == Some(s@));
            return Some(Language::Hausa);
        }
        if str_eq(s, "haw-US") {
            assert(mymemory_code(Language::Hawaiian) == Some(s@));
            return Some(Language::Hawaiian);
        }
        if str_eq(s, "he-IL") {
            assert(mymemory_code(Language::Hebrew) == Some(s@));
            return Some(Language::Hebrew);
        }
        if str_eq(s, "hi-IN") {
            assert(mymemory_code(Language::Hindi) == Some(s@));
            return Some(Language::Hindi);
        }
        if str_eq(s, "hu-HU") {
            assert(mymemory_code(Language::Hungarian) == Some(s@));
            return Some(Language::Hungarian);
        }
        if str_eq(s, "is-IS") {
            assert(mymemory_code(Language::Icelandic) == Some(s@));
            return Some(Language::Icelandic);
        }
        if str_eq(s, "id-ID") {
            assert(mymemory_code(Language::Indonesian) == Some(s@));
            return Some(Language::Indonesian);
        }
        if str_eq(s, "ga-IE") {
            assert(mymemory_code(Language::Irish) == Some(s@));
            return Some(Language::Irish);
        }
        if str_eq(s, "it-IT") {
            assert(mymemory_code(Language::Italian) == Some(s@));
            return Some(Language::Italian);
        }
        if str_eq(s, "jam-JM") {
            assert(mymemory_code(Language::JamaicanCreoleEnglish) == Some(s@));
            return Some(Language::JamaicanCreoleEnglish);
        }
        if str_eq(s, "ja-JP") {
            assert(mymemory_code(Language::Japanese) == Some(s@));
            return Some(Language::Japanese);
        }
        if str_eq(s, "jv-ID") {
            assert(mymemory_code(Language::Javanese) == Some(s@));
            return Some(Language::Javanese);
        }
        if str_eq(s, "kea-CV") {
            assert(mymemory_code(Language::Kabuverdianu) == Some(s@));
            return Some(Language::Kabuverdianu);
        }
        if str_eq(s, "kab-DZ") {
            assert(mymemory_code(Language::Kabyle) == Some(s@));
            return Some(Language::Kabyle);
        }
        if str_eq(s, "kl-GL") {
            assert(mymemory_code(Language::KalaallisutGreenlandic) == Some(s@));
            return Some(Language::KalaallisutGreenlandic);
        }
        if str_eq(s, "kn-IN") {
            assert(mymemory_code(Language::Kannada) == Some(s@));
            return Some(Language::Kannada);
        }
        if str_eq(s, "kk-KZ") {
            assert(mymemory_code(Language::Kazakh) == Some(s@));
            return Some(Language::Kazakh);
        }
        if str_eq(s, "rw-RW") {
            assert(mymemory_code(Language::Kinyarwanda) == Some(s@));
            return Some(Language::Kinyarwanda);
        }
        if str_eq(s, "ky-KG") {
            assert(mymemory_code(Language::KirghizKyrgyz) == Some(s@));
            return Some(Language::KirghizKyrgyz);
        }
        if str_eq(s, "ko-KR") {
            assert(mymemory_code(Language::Korean) == Some(s@));
            return Some(Language::Korean);
        }
        if str_eq(s, "ku-TR") {
            assert(mymemory_code(Language::Kurdish) == Some(s@));
            return Some(Language::Kurdish);
        }
        if str_eq(s, "lo-LA") {
            assert(mymemory_code(Language::Lao) == Some(s@));
            return Some(Language::Lao);
        }
        if str_eq(s, "la-VA") {
            assert(mymemory_code(Language::Latin) == Some(s@));
            return Some(Language::Latin);
        }
        if str_eq(s, "lv-LV") {
            assert(mymemory_code(Language::Latvian) == Some(s@));
            return Some(Language::Latvian);
        }
        if str_eq(s, "lt-LT") {
            assert(mymemory_code(Language::Lithuanian) == Some(s@));
            return Some(Language::Lithuanian);
        }
        if str_eq(s, "lb-LU") {
            assert(mymemory_code(Language::Luxembourgish) == Some(s@));
            return Some(Language::Luxembourgish);
        }
        if str_eq(s, "mk-MK") {
            assert(mymemory_code(Language::Macedonian) == Some(s@));
            return Some(Language::Macedonian);
        }
        if str_eq(s, "mg-MG") {
            assert(mymemory_code(Language::Malagasy) == Some(s@));
            return Some(Language::Malagasy);
        }
        if str_eq(s, "ms-MY") {
            assert(mymemory_code(Language::Malay) == Some(s@));
            return Some(Language::Malay);
        }
        if str_eq(s, "mt-MT") {
            assert(mymemory_code(Language::Maltese) == Some(s@));
            return Some(Language::Maltese);
        }
        if str_eq(s, "gv-IM") {
            assert(mymemory_code(Language::Manx) == Some(s@));
            return Some(Language::Manx);
        }
        if str_eq(s, "mi-NZ") {
            assert(mymemory_code(Language::Maori) == Some(s@));
            return Some(Language::Maori);
        }
        if str_eq(s, "mh-MH") {
            assert(mymemory_code(Language::Marshallese) == Some(s@));
            return Some(Language::Marshallese);
        }
        if str_eq(s, "men-SL") {
            assert(mymemory_code(Language::Mende) == Some(s@));
            return Some(Language::Mende);
        }
        if str_eq(s, "mn-MN") {
            assert(mymemory_code(Language::Mongolian) == Some(s@));
            return Some(Language::Mongolian);
        }
        if str_eq(s, "mfe-MU") {
            assert(mymemory_code(Language::Morisyen) == Some(s@));
            return Some(Language::Morisyen);
        }
        if str_eq(s, "ne-NP") {
            assert(mymemory_code(Language::Nepali) == Some(s@));
            return Some(Language::Nepali);
        }
        if str_eq(s, "zdj-KM") {
            assert(mymemory_code(Language::NgazidjaComorian) == Some(s@));
            return Some(Language::NgazidjaComorian);
        }
        if str_eq(s, "niu-NU") {
            assert(mymemory_code(Language::Niuean) == Some(s@));
            return Some(Language::Niuean);
        }
        if str_eq(s, "no-NO") {
            assert(mymemory_code(Language::Norwegian) == Some(s@));
            return Some(Language::Norwegian);
        }
        if str_eq(s, "pau-PW") {
            assert(mymemory_code(Language::Palauan) == Some(s@));
            return Some(Language::Palauan);
        }
        if str_eq(s, "pa-IN") {
            assert(mymemory_code(Language::Panjabi) == Some(s@));
            return Some(Language::Panjabi);
        }
        if str_eq(s, "pap-CW") {
            assert(mymemory_code(Language::Papiamento) == Some(s@));
            return Some(Language::Papiamento);
        }
        if str_eq(s, "fa-IR") {
            assert(mymemory_code(Language::Persian) == Some(s@));
            return Some(Language::Persian);
        }
        if str_eq(s, "pis-SB") {
            assert(mymemory_code(Language::Pijin) == Some(s@));
            return Some(Language::Pijin);
        }
        if str_eq(s, "pl-PL") {
            assert(mymemory_code(Language::Polish) == Some(s@));
            return Some(Language::Polish);
        }
        if str_eq(s, "pt-PT") {
            assert(mymemory_code(Language::Portuguese) == Some(s@));
            return Some(Language::Portuguese);
        }
        if str_eq(s, "pot-US") {
            assert(mymemory_code(Language::Potawatomi) == Some(s@));
            return Some(Language::Potawatomi);
        }
        if str_eq(s, "ps-PK") {
            assert(mymemory_code(Language::Pushto) == Some(s@));
            return Some(Language::Pushto);
        }
        if str_eq(s, "qu-PE") {
            assert(mymemory_code(Language::Quechua) == Some(s@));
            return Some(Language::Quechua);
        }
        if str_eq(s, "ro-RO") {
            assert(mymemory_code(Language::Romanian) == Some(s@));
            return Some(Language::Romanian);
        }
        if str_eq(s, "rm-RO") {
            assert(mymemory_code(Language::Romansh) == Some(s@));
            return Some(Language::Romansh);
        }
        if str_eq(s, "rn-BI") {
            assert(mymemory_code(Language::Rundi) == Some(s@));
            return Some(Language::Rundi);
        }
        if str_eq(s, "ru-RU") {
            assert(mymemory_code(Language::Russian) == Some(s@));
            return Some(Language::Russian);
        }
        if str_eq(s, "acf-LC") {
            assert(mymemory_code(Language::SaintLucianCreoleFrench) == Some(s@));
            return Some(Language::SaintLucianCreoleFrench);
        }
        if str_eq(s, "sm-WS") {
            assert(mymemory_code(Language::Samoan) == Some(s@));
            return Some(Language::Samoan);
        }
        if str_eq(s, "sg-CF") {
            assert(mymemory_code(Language::Sango) == Some(s@));
            return Some(Language::Sango);
        }
        if str_eq(s, "sr-RS") {
            assert(mymemory_code(Language::Serbian) == Some(s@));
            return Some(Language::Serbian);
        }
        if str_eq(s, "crs-SC") {
            assert(mymemory_code(Language::SeselwaCreoleFrench) == Some(s@));
            return Some(Language::SeselwaCreoleFrench);
        }
        if str_eq(s, "sn-ZW") {
            assert(mymemory_code(Language::Shona) == Some(s@));
            return Some(Language::Shona);
        }
        if str_eq(s, "si-LK") {
            assert(mymemory_code(Language::Sinhala) == Some(s@));
            return Some(Language::Sinhala);
        }
        if str_eq(s, "sk-SK") {
            assert(mymemory_code(Language::Slovak) == Some(s@));
            return Some(Language::Slovak);
        }
        if str_eq(s, "sl-SI") {
            assert(mymemory_code(Language::Slovenian) == Some(s@));
            return Some(Language::Slovenian);
        }
        if str_eq(s, "so-SO") {
            assert(mymemory_code(Language::Somali) == Some(s@));
            return Some(Language::Somali);
        }
        if str_eq(s, "st-ST") {
            assert(mymemory_code(Language::SothoSouthern) == Some(s@));
            return Some(Language::SothoSouthern);
        }
        if str_eq(s, "es-ES") {
            assert(mymemory_code(Language::Spanish) == Some(s@));
            return Some(Language::Spanish);
        }
        if str_eq(s, "srn-SR") {
            assert(mymemory_code(Language::SrananTongo) == Some(s@));
            return Some(Language::SrananTongo);
        }
        if str_eq(s, "sw-SZ") {
            assert(mymemory_code(Language::Swahili) == Some(s@));
            return Some(Language::Swahili);
        }
        if str_eq(s, "sv-SE") {
            assert(mymemory_code(Language::Swedish) == Some(s@));
            return Some(Language::Swedish);
        }
        if str_eq(s, "de-CH") {
            assert(mymemory_code(Language::SwissGerman) == Some(s@));
            return Some(Language::SwissGerman);
        }
        if str_eq(s, "tl-PH") {
            assert(mymemory_code(Language::Tagalog) == Some(s@));
            return Some(Language::Tagalog);
        }
        if str_eq(s, "tg-TJ") {
            assert(mymemory_code(Language::Tajik) == Some(s@));
            return Some(Language::Tajik);
        }
        if str_eq(s, "tmh-DZ") {
            assert(mymemory_code(Language::Tamashek) == Some(s@));
            return Some(Language::Tamashek);
        }
        if str_eq(s, "ta-LK") {
            assert(mymemory_code(Language::Tamil) == Some(s@));
            return Some(Language::Tamil);
        }
        if str_eq(s, "te-IN") {
            assert(mymemory_code(Language::Telugu) == Some(s@));
            return Some(Language::Telugu);
        }
        if str_eq(s, "tet-TL") {
            assert(mymemory_code(Language::Tetum) == Some(s@));
            return Some(Language::Tetum);
        }
        if str_eq(s, "th-TH") {
            assert(mymemory_code(Language::Thai) == Some(s@));
            return Some(Language::Thai);
        }
        if str_eq(s, "bo-CN") {
            assert(mymemory_code(Language::Tibetan) == Some(s@));
            return Some(Language::Tibetan);
        }
        if str_eq(s, "ti-TI") {
            assert(mymemory_code(Language::Tigrinya) == Some(s@));
            return Some(Language::Tigrinya);
        }
        if str_eq(s, "tpi-PG") {
            assert(mymemory_code(Language::TokPisin) == Some(s@));
            return Some(Language::TokPisin);
        }
        if str_eq(s, "tkl-TK") {
            assert(mymemory_code(Language::Tokelau) == Some(s@));
            return Some(Language::Tokelau);
        }
        if str_eq(s, "to-TO") {
            assert(mymemory_code(Language::Tonga) == Some(s@));
            return Some(Language::Tonga);
        }
        if str_eq(s, "tn-BW") {
            assert(mymemory_code(Language::Tswana) == Some(s@));
            return Some(Language::Tswana);
        }
        if str_eq(s, "tr-TR") {
            assert(mymemory_code(Language::Turkish) == Some(s@));
            return Some(Language::Turkish);
        }
        if str_eq(s, "tk-TM") {
            assert(mymemory_code(Language::Turkmen) == Some(s@));
            return Some(Language::Turkmen);
        }
        if str_eq(s, "tvl-TV") {
            assert(mymemory_code(Language::Tuvalu) == Some(s@));
            return Some(Language::Tuvalu);
        }
        if str_eq(s, "uk-UA") {
            assert(mymemory_code(Language::Ukrainian) == Some(s@));
            return Some(Language::Ukrainian);
        }
        if str_eq(s, "ppk-ID") {
            assert(mymemory_code(Language::Uma) == Some(s@));
            return Some(Language::Uma);
        }
        if str_eq(s, "pov-GW") {
            assert(mymemory_code(Language::UpperGuineaCrioulo) == Some(s@));
            return Some(Language::UpperGuineaCrioulo);
        }
        if str_eq(s, "ur-PK") {
            assert(mymemory_code(Language::Urdu) == Some(s@));
            return Some(Language::Urdu);
        }
        if str_eq(s, "uz-UZ") {
            assert(mymemory_code(Language::Uzbek) == Some(s@));
            return Some(Language::Uzbek);
        }
        if str_eq(s, "vi-VN") {
            assert(mymemory_code(Language::Vietnamese) == Some(s@));
            return Some(Language::Vietnamese);
        }
        if str_eq(s, "svc-VC") {
            assert(mymemory_code(Language::VincentianCreoleEnglish) == Some(s@));
            return Some(Language::VincentianCreoleEnglish);
        }
        if str_eq(s, "vic-US") {
            assert(mymemory_code(Language::VirginIslandsCreoleEnglish) == Some(s@));
            return Some(Language::VirginIslandsCreoleEnglish);
        }
        if str_eq(s, "wls-WF") {
            assert(mymemory_code(Language::Wallisian) == Some(s@));
            return Some(Language::Wallisian);
        }
        if str_eq(s, "cy-GB") {
            assert(mymemory_code(Language::Welsh) == Some(s@));
            return Some(Language::Welsh);
        }
        if str_eq(s, "wo-SN") {
            assert(mymemory_code(Language::Wolof) == Some(s@));
            return Some(Language::Wolof);
        }
        if str_eq(s, "xh-ZA") {
            assert(mymemory_code(Language::Xhosa) == Some(s@));
            return Some(Language::Xhosa);
        }
        if str_eq(s, "yi-YD") {
            assert(mymemory_code(Language::Yiddish) == Some(s@));
            return Some(Language::Yiddish);
        }
        if str_eq(s, "zu-ZA") {
            assert(mymemory_code(Language::Zulu) == Some(s@));
            return Some(Language::Zulu);
        }
        None
    }

    /// The wire code of this language for the mymemory_short vocabulary.
    pub fn to_mymemory_short(&self) -> (r: Option<&'static str>)
        ensures
            code_view(r) == mymemory_short_code(*self),
    {
        match self {
            Language::Afrikaans => Some("af"),
            Language::Albanian => Some("sq"),
            Language::Amharic => Some("am"),
            Language::AntiguaAndBarbudaCreoleEnglish => Some("aig"),
            Language::Arabic => Some("ar"),
            Language::Armenian => Some("hy"),
            Language::Azerbaijani => Some("az"),
            Language::BahamasCreoleEnglish => Some("bah"),
            Language::Bajan => Some("bjs"),
            Language::Basque => Some("eu"),
            Language::Belarusian => Some("be"),
            Language::Bemba => Some("bem"),
            Language::Bengali => Some("bn"),
            Language::Bislama => Some("bi"),
            Language::Bosnian => Some("bs"),
            Language::Breton => Some("br"),
            Language::Bulgarian => Some("bg"),
            Language::Burmese => Some("my"),
            Language::Catalan => Some("ca"),
            Language::Cebuano => Some("ceb"),
            Language::CentralKhmer => Some("km"),
            Language::CentralKurdish => Some("ckb"),
            Language::Chamorro => Some("ch"),
            Language::ChichewaChewaNyanja => Some("ny"),
            Language::Chinese => Some("zh"),
            Language::ClassicalSyriac => Some("syc"),
            Language::Coptic => Some("cop"),
            Language::Croatian => Some("hr"),
            Language::Czech => Some("cs"),
            Language::Danish => Some("da"),
            Language::DivehiDhivehiMaldivian => Some("dv"),
            Language::Dutch => Some("nl"),
            Language::Dzongkha => Some("dz"),
            Language::English => Some("en"),
            Language::Esperanto => Some("eo"),
            Language::Estonian => Some("et"),
            Language::Fanagalo => Some("fng"),
            Language::Faroese => Some("fo"),
            Language::Finnish => Some("fi"),
            Language::French => Some("fr"),
            Language::Gaelic => Some("gd"),
            Language::Galician => Some("gl"),
            Language::Georgian => Some("ka"),
            Language::German => Some("de"),
            Language::Greek => Some("el"),
            Language::GreekAncient => Some("grc"),
            Language::GrenadianCreoleEnglish => Some("gcl"),
            Language::Gujarati => Some("gu"),
            Language::GuyaneseCreoleEnglish => Some("gyn"),
            Language::Haitian => Some("ht"),
            Language::Hausa => Some("ha"),
            Language::Hawaiian => Some("haw"),
            Language::Hebrew => Some("he"),
            Language::Hindi => Some("hi"),
            Language::Hungarian => Some("hu"),
            Language::Icelandic => Some("is"),
            Language::Indonesian => Some("id"),
            Language::Irish => Some("ga"),
            Language::Italian => Some("it"),
            Language::JamaicanCreoleEnglish => Some("jam"),
            Language::Japanese => Some("ja"),
            Language::Javanese => Some("jv"),
            Language::Kabuverdianu => Some("kea"),
            Language::Kabyle => Some("kab"),
            Language::KalaallisutGreenlandic => Some("kl"),
            Language::Kannada => Some("kn"),
            Language::Kazakh => Some("kk"),
            Language::Kinyarwanda => Some("rw"),
            Language::KirghizKyrgyz => Some("ky"),
            Language::Korean => Some("ko"),
            Language::Kurdish => Some("ku"),
            Language::Lao => Some("lo"),
            Language::Latin => Some("la"),
            Language::Latvian => Some("lv"),
            Language::Lithuanian => Some("lt"),
            Language::Luxembourgish => Some("lb"),
            Language::Macedonian => Some("mk"),
            Language::Malagasy => Some("mg"),
            Language::Malay => Some("ms"),
            Language::Maltese => Some("mt"),
            Language::Manx => Some("gv"),
            Language::Maori => Some("mi"),
            Language::Marshallese => Some("mh"),
            Language::Mende => Some("men"),
            Language::Mongolian => Some("mn"),
            Language::Morisyen => Some("mfe"),
            Language::Nepali => Some("ne"),
            Language::NgazidjaComorian => Some("zdj"),
            Language::Niuean => Some("niu"),
            Language::Norwegian => Some("no"),
            Language::Palauan => Some("pau"),
            Language::Panjabi => Some("pa"),
            Language::Papiamento => Some("pap"),
            Language::Persian => Some("fa"),
            Language::Pijin => Some("pis"),
            Language::Polish => Some("pl"),
            Language::Portuguese => Some("pt"),
            Language::Potawatomi => Some("pot"),
            Language::Pushto => Some("ps"),
            Language::Quechua => Some("qu"),
            Language::Romanian => Some("ro"),
            Language::Romansh => Some("rm"),
            Language::Rundi => Some("rn"),
            Language::Russian => Some("ru"),
            Language::SaintLucianCreoleFrench => Some("acf"),
            Language::Samoan => Some("sm"),
            Language::Sango => Some("sg"),
            Language::Serbian => Some("sr"),
            Language::SeselwaCreoleFrench => Some("crs"),
            Language::Shona => Some("sn"),
            Language::Sinhala => Some("si"),
            Language::Slovak => Some("sk"),
            Language::Slovenian => Some("sl"),
            Language::Somali => Some("so"),
            Language::SothoSouthern => Some("st"),
            Language::Spanish => Some("es"),
            Language::SrananTongo => Some("srn"),
            Language::Swahili => Some("sw"),
            Language::Swedish => Some("sv"),
            Language::Tagalog => Some("tl"),
            Language::Tajik => Some("tg"),
            Language::Tamashek => Some("tmh"),
            Language::Tamil => Some("ta"),
            Language::Telugu => Some("te"),
            Language::Tetum => Some("tet"),
            Language::Thai => Some("th"),
            Language::Tibetan => Some("bo"),
            Language::Tigrinya => Some("ti"),
            Language::TokPisin => Some("tpi"),
            Language::Tokelau => Some("tkl"),
            Language::Tonga => Some("to"),
            Language::Tswana => Some("tn"),
            Language::Turkish => Some("tr"),
            Language::Turkmen => Some("tk"),
            Language::Tuvalu => Some("tvl"),
            Language::Ukrainian => Some("uk"),
            Language::Uma => Some("ppk"),
            Language::UpperGuineaCrioulo => Some("pov"),
            Language::Urdu => Some("ur"),
            Language::Uzbek => Some("uz"),
            Language::Vietnamese => Some("vi"),
            Language::VincentianCreoleEnglish => Some("svc"),
            Language::VirginIslandsCreoleEnglish => Some("vic"),
            Language::Wallisian => Some("wls"),
            Language::Welsh => Some("cy"),
            Language::Wolof => Some("wo"),
            Language::Xhosa => Some("xh"),
            Language::Yiddish => Some("yi"),
            Language::Zulu => Some("zu"),
            _ => None,
        }
    }

    /// The language whose mymemory_short wire code is `s`.
    #[verifier::rlimit(60)]
    pub fn from_mymemory_short(s: &str) -> (r: Option<Language>)
        ensures
            r == mymemory_short_language(s@),
    {
        proof {
            lemma_mymemory_short_codes_distinct();
        }
        if str_eq(s, "af") {
            assert(mymemory_short_code(Language::Afrikaans) == Some(s@));
            return Some(Language::Afrikaans);
        }
        if str_eq(s, "sq") {
            assert(mymemory_short_code(Language::Albanian) == Some(s@));
            return Some(Language::Albanian);
        }
        if str_eq(s, "am") {
            assert(mymemory_short_code(Language::Amharic) == Some(s@));
            return Some(Language::Amharic);
        }
        if str_eq(s, "aig") {
            assert(mymemory_short_code(Language::AntiguaAndBarbudaCreoleEnglish) == Some(s@));
            return Some(Language::AntiguaAndBarbudaCreoleEnglish);
        }
        if str_eq(s, "ar") {
            assert(mymemory_short_code(Language::Arabic) == Some(s@));
            return Some(Language::Arabic);
        }
        if str_eq(s, "hy") {
            assert(mymemory_short_code(Language::Armenian) == Some(s@));
            return Some(Language::Armenian);
        }
        if str_eq(s, "az") {
            assert(mymemory_short_code(Language::Azerbaijani) == Some(s@));
            return Some(Language::Azerbaijani);
        }
        if str_eq(s, "bah") {
            assert(mymemory_short_code(Language::BahamasCreoleEnglish) == Some(s@));
            return Some(Language::BahamasCreoleEnglish);
        }
        if str_eq(s, "bjs") {
            assert(mymemory_short_code(Language::Bajan) == Some(s@));
            return Some(Language::Bajan);
        }
        if str_eq(s, "eu") {
            assert(mymemory_short_code(Language::Basque) == Some(s@));
            return Some(Language::Basque);
        }
        if str_eq(s, "be") {
            assert(mymemory_short_code(Language::Belarusian) == Some(s@));
            return Some(Language::Belarusian);
        }
        if str_eq(s, "bem") {
            assert(mymemory_short_code(Language::Bemba) == Some(s@));
            return Some(Language::Bemba);
        }
        if str_eq(s, "bn") {
            assert(mymemory_short_code(Language::Bengali) == Some(s@));
            return Some(Language::Bengali);
        }
        if str_eq(s, "bi") {
            assert(mymemory_short_code(Language::Bislama) == Some(s@));
            return Some(Language::Bislama);
        }
        if str_eq(s, "bs") {
            assert(mymemory_short_code(Language::Bosnian) == Some(s@));
            return Some(Language::Bosnian);
        }
        if str_eq(s, "br") {
            assert(mymemory_short_code(Language::Breton) == Some(s@));
            return Some(Language::Breton);
        }
        if str_eq(s, "bg") {
            assert(mymemory_short_code(Language::Bulgarian) == Some(s@));
            return Some(Language::Bulgarian);
        }
        if str_eq(s, "my") {
            assert(mymemory_short_code(Language::Burmese) == Some(s@));
            return Some(Language::Burmese);
        }
        if str_eq(s, "ca") {
            assert(mymemory_short_code(Language::Catalan) == Some(s@));
            return Some(Language::Catalan);
        }
        if str_eq(s, "ceb") {
            assert(mymemory_short_code(Language::Cebuano) == Some(s@));
            return Some(Language::Cebuano);
        }
        if str_eq(s, "km") {
            assert(mymemory_short_code(Language::CentralKhmer) == Some(s@));
            return Some(Language::CentralKhmer);
        }
        if str_eq(s, "ckb") {
            assert(mymemory_short_code(Language::CentralKurdish) == Some(s@));
            return Some(Language::CentralKurdish);
        }
        if str_eq(s, "ch") {
            assert(mymemory_short_code(Language::Chamorro) == Some(s@));
            return Some(Language::Chamorro);
        }
        if str_eq(s, "ny") {
            assert(mymemory_short_code(Language::ChichewaChewaNyanja) == Some(s@));
            return Some(Language::ChichewaChewaNyanja);
        }
        if str_eq(s, "zh") {
            assert(mymemory_short_code(Language::Chinese) == Some(s@));
            return Some(Language::Chinese);
        }
        if str_eq(s, "syc") {
            assert(mymemory_short_code(Language::ClassicalSyriac) == Some(s@));
            return Some(Language::ClassicalSyriac);
        }
        if str_eq(s, "cop") {
            assert(mymemory_short_code(Language::Coptic) == Some(s@));
            return Some(Language::Coptic);
        }
        if str_eq(s, "hr") {
            assert(mymemory_short_code(Language::Croatian) == Some(s@));
            return Some(Language::Croatian);
        }
        if str_eq(s, "cs") {
            assert(mymemory_short_code(Language::Czech) == Some(s@));
            return Some(Language::Czech);
        }
        if str_eq(s, "da") {
            assert(mymemory_short_code(Language::Danish) == Some(s@));
            return Some(Language::Danish);
        }
        if str_eq(s, "dv") {
            assert(mymemory_short_code(Language::DivehiDhivehiMaldivian) == Some(s@));
            return Some(Language::DivehiDhivehiMaldivian);
        }
        if str_eq(s, "nl") {
            assert(mymemory_short_code(Language::Dutch) == Some(s@));
            return Some(Language::Dutch);
        }
        if str_eq(s, "dz") {
            assert(mymemory_short_code(Language::Dzongkha) == Some(s@));
            return Some(Language::Dzongkha);
        }
        if str_eq(s, "en") {
            assert(mymemory_short_code(Language::English) == Some(s@));
            return Some(Language::English);
        }
        if str_eq(s, "eo") {
            assert(mymemory_short_code(Language::Esperanto) == Some(s@));
            return Some(Language::Esperanto);
        }
        if str_eq(s, "et") {
            assert(mymemory_short_code(Language::Estonian) == Some(s@));
            return Some(Language::Estonian);
        }
        if str_eq(s, "fng") {
            assert(mymemory_short_code(Language::Fanagalo) == Some(s@));
            return Some(Language::Fanagalo);
        }
        if str_eq(s, "fo") {
            assert(mymemory_short_code(Language::Faroese) == Some(s@));
            return Some(Language::Faroese);
        }
        if str_eq(s, "fi") {
            assert(mymemory_short_code(Language::Finnish) == Some(s@));
            return Some(Language::Finnish);
        }
        if str_eq(s, "fr") {
            assert(mymemory_short_code(Language::French) == Some(s@));
            return Some(Language::French);
        }
        if str_eq(s, "gd") {
            assert(mymemory_short_code(Language::Gaelic) == Some(s@));
            return Some(Language::Gaelic);
        }
        if str_eq(s, "gl") {
            assert(mymemory_short_code(Language::Galician) == Some(s@));
            return Some(Language::Galician);
        }
        if str_eq(s, "ka") {
            assert(mymemory_short_code(Language::Georgian) == Some(s@));
            return Some(Language::Georgian);
        }
        if str_eq(s, "de") {
            assert(mymemory_short_code(Language::German) == Some(s@));
            return Some(Language::German);
        }
        if str_eq(s, "el") {
            assert(mymemory_short_code(Language::Greek) == Some(s@));
            return Some(Language::Greek);
        }
        if str_eq(s, "grc") {
            assert(mymemory_short_code(Language::GreekAncient) == Some(s@));
            return Some(Language::GreekAncient);
        }
        if str_eq(s, "gcl") {
            assert(mymemory_short_code(Language::GrenadianCreoleEnglish) == Some(s@));
            return Some(Language::GrenadianCreoleEnglish);
        }
        if str_eq(s, "gu") {
            assert(mymemory_short_code(Language::Gujarati) == Some(s@));
            return Some(Language::Gujarati);
        }
        if str_eq(s, "gyn") {
            assert(mymemory_short_code(Language::GuyaneseCreoleEnglish) == Some(s@));
            return Some(Language::GuyaneseCreoleEnglish);
        }
        if str_eq(s, "ht") {
            assert(mymemory_short_code(Language::Haitian) == Some(s@));
            return Some(Language::Haitian);
        }
        if str_eq(s, "ha") {
            assert(mymemory_short_code(Language::Hausa) == Some(s@));
            return Some(Language::Hausa);
        }
        if str_eq(s, "haw") {
            assert(mymemory_short_code(Language::Hawaiian) == Some(s@));
            return Some(Language::Hawaiian);
        }
        if str_eq(s, "he") {
            assert(mymemory_short_code(Language::Hebrew) == Some(s@));
            return Some(Language::Hebrew);
        }
        if str_eq(s, "hi") {
            assert(mymemory_short_code(Language::Hindi) == Some(s@));
            return Some(Language::Hindi);
        }
        if str_eq(s, "hu") {
            assert(mymemory_short_code(Language::Hungarian) == Some(s@));
            return Some(Language::Hungarian);
        }
        if str_eq(s, "is") {
            assert(mymemory_short_code(Language::Icelandic) == Some(s@));
            return Some(Language::Icelandic);
        }
        if str_eq(s, "id") {
            assert(mymemory_short_code(Language::Indonesian) == Some(s@));
            return Some(Language::Indonesian);
        }
        if str_eq(s, "ga") {
            assert(mymemory_short_code(Language::Irish) == Some(s@));
            return Some(Language::Irish);
        }
        if str_eq(s, "it") {
            assert(mymemory_short_code(Language::Italian) == Some(s@));
            return Some(Language::Italian);
        }
        if str_eq(s, "jam") {
            assert(mymemory_short_code(Language::JamaicanCreoleEnglish) == Some(s@));
            return Some(Language::JamaicanCreoleEnglish);
        }
        if str_eq(s, "ja") {
            assert(mymemory_short_code(Language::Japanese) == Some(s@));
            return Some(Language::Japanese);
        }
        if str_eq(s, "jv") {
            assert(mymemory_short_code(Language::Javanese) == Some(s@));
            return Some(Language::Javanese);
        }
        if str_eq(s, "kea") {
            assert(mymemory_short_code(Language::Kabuverdianu) == Some(s@));
            return Some(Language::Kabuverdianu);
        }
        if str_eq(s, "kab") {
            assert(mymemory_short_code(Language::Kabyle) == Some(s@));
            return Some(Language::Kabyle);
        }
        if str_eq(s, "kl") {
            assert(mymemory_short_code(Language::KalaallisutGreenlandic) == Some(s@));
            return Some(Language::KalaallisutGreenlandic);
        }
        if str_eq(s, "kn") {
            assert(mymemory_short_code(Language::Kannada) == Some(s@));
            return Some(Language::Kannada);
        }
        if str_eq(s, "kk") {
            assert(mymemory_short_code(Language::Kazakh) == Some(s@));
            return Some(Language::Kazakh);
        }
        if str_eq(s, "rw") {
            assert(mymemory_short_code(Language::Kinyarwanda) == Some(s@));
            return Some(Language::Kinyarwanda);
        }
        if str_eq(s, "ky") {
            assert(mymemory_short_code(Language::KirghizKyrgyz) == Some(s@));
            return Some(Language::KirghizKyrgyz);
        }
        if str_eq(s, "ko") {
            assert(mymemory_short_code(Language::Korean) == Some(s@));
            return Some(Language::Korean);
        }
        if str_eq(s, "ku") {
            assert(mymemory_short_code(Language::Kurdish) == Some(s@));
            return Some(Language::Kurdish);
        }
        if str_eq(s, "lo") {
            assert(mymemory_short_code(Language::Lao) == Some(s@));
            return Some(Language::Lao);
        }
        if str_eq(s, "la") {
            assert(mymemory_short_code(Language::Latin) == Some(s@));
            return Some(Language::Latin);
        }
        if str_eq(s, "lv") {
            assert(mymemory_short_code(Language::Latvian) == Some(s@));
            return Some(Language::Latvian);
        }
        if str_eq(s, "lt") {
            assert(mymemory_short_code(Language::Lithuanian) == Some(s@));
            return Some(Language::Lithuanian);
        }
        if str_eq(s, "lb") {
            assert(mymemory_short_code(Language::Luxembourgish) == Some(s@));
            return Some(Language::Luxembourgish);
        }
        if str_eq(s, "mk") {
            assert(mymemory_short_code(Language::Macedonian) == Some(s@));
            return Some(Language::Macedonian);
        }
        if str_eq(s, "mg") {
            assert(mymemory_short_code(Language::Malagasy) == Some(s@));
            return Some(Language::Malagasy);
        }
        if str_eq(s, "ms") {
            assert(mymemory_short_code(Language::Malay) == Some(s@));
            return Some(Language::Malay);
        }
        if str_eq(s, "mt") {
            assert(mymemory_short_code(Language::Maltese) == Some(s@));
            return Some(Language::Maltese);
        }
        if str_eq(s, "gv") {
            assert(mymemory_short_code(Language::Manx) == Some(s@));
            return Some(Language::Manx);
        }
        if str_eq(s, "mi") {
            assert(mymemory_short_code(Language::Maori) == Some(s@));
            return Some(Language::Maori);
        }
        if str_eq(s, "mh") {
            assert(mymemory_short_code(Language::Marshallese) == Some(s@));
            return Some(Language::Marshallese);
        }
        if str_eq(s, "men") {
            assert(mymemory_short_code(Language::Mende) == Some(s@));
            return Some(Language::Mende);
        }
        if str_eq(s, "mn") {
            assert(mymemory_short_code(Language::Mongolian) == Some(s@));
            return Some(Language::Mongolian);
        }
        if str_eq(s, "mfe") {
            assert(mymemory_short_code(Language::Morisyen) == Some(s@));
            return Some(Language::Morisyen);
        }
        if str_eq(s, "ne") {
            assert(mymemory_short_code(Language::Nepali) == Some(s@));
            return Some(Language::Nepali);
        }
        if str_eq(s, "zdj") {
            assert(mymemory_short_code(Language::NgazidjaComorian) == Some(s@));
            return Some(Language::NgazidjaComorian);
        }
        if str_eq(s, "niu") {
            assert(mymemory_short_code(Language::Niuean) == Some(s@));
            return Some(Language::Niuean);
        }
        if str_eq(s, "no") {
            assert(mymemory_short_code(Language::Norwegian) == Some(s@));
            return Some(Language::Norwegian);
        }
        if str_eq(s, "pau") {
            assert(mymemory_short_code(Language::Palauan) == Some(s@));
            return Some(Language::Palauan);
        }
        if str_eq(s, "pa") {
            assert(mymemory_short_code(Language::Panjabi) == Some(s@));
            return Some(Language::Panjabi);
        }
        if str_eq(s, "pap") {
            assert(mymemory_short_code(Language::Papiamento) == Some(s@));
            return Some(Language::Papiamento);
        }
        if str_eq(s, "fa") {
            assert(mymemory_short_code(Language::Persian) == Some(s@));
            return Some(Language::Persian);
        }
        if str_eq(s, "pis") {
            assert(mymemory_short_code(Language::Pijin) == Some(s@));
            return Some(Language::Pijin);
        }
        if str_eq(s, "pl") {
            assert(mymemory_short_code(Language::Polish) == Some(s@));
            return Some(Language::Polish);
        }
        if str_eq(s, "pt") {
            assert(mymemory_short_code(Language::Portuguese) == Some(s@));
            return Some(Language::Portuguese);
        }
        if str_eq(s, "pot") {
            assert(mymemory_short_code(Language::Potawatomi) == Some(s@));
            return Some(Language::Potawatomi);
        }
        if str_eq(s, "ps") {
            assert(mymemory_short_code(Language::Pushto) == Some(s@));
            return Some(Language::Pushto);
        }
        if str_eq(s, "qu") {
            assert(mymemory_short_code(Language::Quechua) == Some(s@));
            return Some(Language::Quechua);
        }
        if str_eq(s, "ro") {
            assert(mymemory_short_code(Language::Romanian) == Some(s@));
            return Some(Language::Romanian);
        }
        if str_eq(s, "rm") {
            assert(mymemory_short_code(Language::Romansh) == Some(s@));
            return Some(Language::Romansh);
        }
        if str_eq(s, "rn") {
            assert(mymemory_short_code(Language::Rundi) == Some(s@));
            return Some(Language::Rundi);
        }
        if str_eq(s, "ru") {
            assert(mymemory_short_code(Language::Russian) == Some(s@));
            return Some(Language::Russian);
        }
        if str_eq(s, "acf") {
            assert(mymemory_short_code(Language::SaintLucianCreoleFrench) == Some(s@));
            return Some(Language::SaintLucianCreoleFrench);
        }
        if str_eq(s, "sm") {
            assert(mymemory_short_code(Language::Samoan) == Some(s@));
            return Some(Language::Samoan);
        }
        if str_eq(s, "sg") {
            assert(mymemory_short_code(Language::Sango) == Some(s@));
            return Some(Language::Sango);
        }
        if str_eq(s, "sr") {
            assert(mymemory_short_code(Language::Serbian) == Some(s@));
            return Some(Language::Serbian);
        }
        if str_eq(s, "crs") {
            assert(mymemory_short_code(Language::SeselwaCreoleFrench) == Some(s@));
            return Some(Language::SeselwaCreoleFrench);
        }
        if str_eq(s, "sn") {
            assert(mymemory_short_code(Language::Shona) == Some(s@));
            return Some(Language::Shona);
        }
        if str_eq(s, "si") {
            assert(mymemory_short_code(Language::Sinhala) == Some(s@));
            return Some(Language::Sinhala);
        }
        if str_eq(s, "sk") {
            assert(mymemory_short_code(Language::Slovak) == Some(s@));
            return Some(Language::Slovak);
        }
        if str_eq(s, "sl") {
            assert(mymemory_short_code(Language::Slovenian) == Some(s@));
            return Some(Language::Slovenian);
        }
        if str_eq(s, "so") {
            assert(mymemory_short_code(Language::Somali) == Some(s@));
            return Some(Language::Somali);
        }
        if str_eq(s, "st") {
            assert(mymemory_short_code(Language::SothoSouthern) == Some(s@));
            return Some(Language::SothoSouthern);
        }
        if str_eq(s, "es") {
            assert(mymemory_short_code(Language::Spanish) == Some(s@));
            return Some(Language::Spanish);
        }
        if str_eq(s, "srn") {
            assert(mymemory_short_code(Language::SrananTongo) == Some(s@));
            return Some(Language::SrananTongo);
        }
        if str_eq(s, "sw") {
            assert(mymemory_short_code(Language::Swahili) == Some(s@));
            return Some(Language::Swahili);
        }
        if str_eq(s, "sv") {
            assert(mymemory_short_code(Language::Swedish) == Some(s@));
            return Some(Language::Swedish);
        }
        if str_eq(s, "tl") {
            assert(mymemory_short_code(Language::Tagalog) == Some(s@));
            return Some(Language::Tagalog);
        }
        if str_eq(s, "tg") {
            assert(mymemory_short_code(Language::Tajik) == Some(s@));
            return Some(Language::Tajik);
        }
        if str_eq(s, "tmh") {
            assert(mymemory_short_code(Language::Tamashek) == Some(s@));
            return Some(Language::Tamashek);
        }
        if str_eq(s, "ta") {
            assert(mymemory_short_code(Language::Tamil) == Some(s@));
            return Some(Language::Tamil);
        }
        if str_eq(s, "te") {
            assert(mymemory_short_code(Language::Telugu) == Some(s@));
            return Some(Language::Telugu);
        }
        if str_eq(s, "tet") {
            assert(mymemory_short_code(Language::Tetum) == Some(s@));
            return Some(Language::Tetum);
        }
        if str_eq(s, "th") {
            assert(mymemory_short_code(Language::Thai) == Some(s@));
            return Some(Language::Thai);
        }
        if str_eq(s, "bo") {
            assert(mymemory_short_code(Language::Tibetan) == Some(s@));
            return Some(Language::Tibetan);
        }
        if str_eq(s, "ti") {
            assert(mymemory_short_code(Language::Tigrinya) == Some(s@));
            return Some(Language::Tigrinya);
        }
        if str_eq(s, "tpi") {
            assert(mymemory_short_code(Language::TokPisin) == Some(s@));
            return Some(Language::TokPisin);
        }
        if str_eq(s, "tkl") {
            assert(mymemory_short_code(Language::Tokelau) == Some(s@));
            return Some(Language::Tokelau);
        }
        if str_eq(s, "to") {
            assert(mymemory_short_code(Language::Tonga) == Some(s@));
            return Some(Language::Tonga);
        }
        if str_eq(s, "tn") {
            assert(mymemory_short_code(Language::Tswana) == Some(s@));
            return Some(Language::Tswana);
        }
        if str_eq(s, "tr") {
            assert(mymemory_short_code(Language::Turkish) == Some(s@));
            return Some(Language::Turkish);
        }
        if str_eq(s, "tk") {
            assert(mymemory_short_code(Language::Turkmen) == Some(s@));
            return Some(Language::Turkmen);
        }
        if str_eq(s, "tvl") {
            assert(mymemory_short_code(Language::Tuvalu) == Some(s@));
            return Some(Language::Tuvalu);
        }
        if str_eq(s, "uk") {
            assert(mymemory_short_code(Language::Ukrainian) == Some(s@));
            return Some(Language::Ukrainian);
        }
        if str_eq(s, "ppk") {
            assert(mymemory_short_code(Language::Uma) == Some(s@));
            return Some(Language::Uma);
        }
        if str_eq(s, "pov") {
            assert(mymemory_short_code(Language::UpperGuineaCrioulo) == Some(s@));
            return Some(Language::UpperGuineaCrioulo);
        }
        if str_eq(s, "ur") {
            assert(mymemory_short_code(Language::Urdu) == Some(s@));
            return Some(Language::Urdu);
        }
        if str_eq(s, "uz") {
            assert(mymemory_short_code(Language::Uzbek) == Some(s@));
            return Some(Language::Uzbek);
        }
        if str_eq(s, "vi") {
            assert(mymemory_short_code(Language::Vietnamese) == Some(s@));
            return Some(Language::Vietnamese);
        }
        if str_eq(s, "svc") {
            assert(mymemory_short_code(Language::VincentianCreoleEnglish) == Some(s@));
            return Some(Language::VincentianCreoleEnglish);
        }
        if str_eq(s, "vic") {
            assert(mymemory_short_code(Language::VirginIslandsCreoleEnglish) == Some(s@));
            return Some(Language::VirginIslandsCreoleEnglish);
        }
        if str_eq(s, "wls") {
            assert(mymemory_short_code(Language::Wallisian) == Some(s@));
            return Some(Language::Wallisian);
        }
        if str_eq(s, "cy") {
            assert(mymemory_short_code(Language::Welsh) == Some(s@));
            return Some(Language::Welsh);
        }
        if str_eq(s, "wo") {
            assert(mymemory_short_code(Language::Wolof) == Some(s@));
            return Some(Language::Wolof);
        }
        if str_eq(s, "xh") {
            assert(mymemory_short_code(Language::Xhosa) == Some(s@));
            return Some(Language::Xhosa);
        }
        if str_eq(s, "yi") {
            assert(mymemory_short_code(Language::Yiddish) == Some(s@));
            return Some(Language::Yiddish);
        }
        if str_eq(s, "zu") {
            assert(mymemory_short_code(Language::Zulu) == Some(s@));
            return Some(Language::Zulu);
        }
        None
    }

    /// The wire code of this language for the youdao vocabulary.
    pub fn to_youdao(&self) -> (r: Option<&'static str>)
        ensures
            code_view(r) == youdao_code(*self),
    {
        match self {
            Language::Afrikaans => Some("af"),
            Language::Albanian => Some("sq"),
            Language::Amharic => Some("am"),
            Language::Arabic => Some("ar"),
            Language::Armenian => Some("hy"),
            Language::Azerbaijani => Some("az"),
            Language::Basque => Some("eu"),
            Language::Belarusian => Some("be"),
            Language::Bengali => Some("bn"),
            Language::Bosnian => Some("bs"),
            Language::Bulgarian => Some("bg"),
            Language::Burmese => Some("my"),
            Language::Catalan => Some("ca"),
            Language::Cebuano => Some("ceb"),
            Language::CentralKhmer => Some("km"),
            Language::ChichewaChewaNyanja => Some("ny"),
            Language::ChineseTraditional => Some("zh-CHT"),
            Language::Chinese => Some("zh-CHS"),
            Language::Corsican => Some("co"),
            Language::Croatian => Some("hr"),
            Language::Czech => Some("cs"),
            Language::Danish => Some("da"),
            Language::Dutch => Some("nl"),
            Language::English => Some("en"),
            Language::Esperanto => Some("eo"),
            Language::Estonian => Some("et"),
            Language::Fijian => Some("fj"),
            Language::Finnish => Some("fi"),
            Language::French => Some("fr"),
            Language::Gaelic => Some("gd"),
            Language::Galician => Some("gl"),
            Language::Georgian => Some("ka"),
            Language::German => Some("de"),
            Language::Greek => Some("el"),
            Language::Gujarati => Some("gu"),
            Language::Haitian => Some("ht"),
            Language::Hausa => Some("ha"),
            Language::Hawaiian => Some("haw"),
            Language::Hebrew => Some("he"),
            Language::Hindi => Some("hi"),
            Language::HmongDaw => Some("mww"),
            Language::Hungarian => Some("hu"),
            Language::Icelandic => Some("is"),
            Language::Igbo => Some("ig"),
            Language::Indonesian => Some("id"),
            Language::Irish => Some("ga"),
            Language::Italian => Some("it"),
            Language::Japanese => Some("ja"),
            Language::Javanese => Some("jw"),
            Language::Kannada => Some("kn"),
            Language::Kazakh => Some("kk"),
            Language::KirghizKyrgyz => Some("ky"),
            Language::Klingon => Some("tlh"),
            Language::Korean => Some("ko"),
            Language::Kurdish => Some("ku"),
            Language::Lao => Some("lo"),
            Language::Latin => Some("la"),
            Language::Latvian => Some("lv"),
            Language::Lithuanian => Some("lt"),
            Language::Luxembourgish => Some("lb"),
            Language::Macedonian => Some("mk"),
            Language::Malagasy => Some("mg"),
            Language::Malay => Some("ms"),
            Language::Malayalam => Some("ml"),
            Language::Maltese => Some("mt"),
            Language::Maori => Some("mi"),
            Language::Marathi => Some("mr"),
            Language::Mongolian => Some("mn"),
            Language::Nepali => Some("ne"),
            Language::Norwegian => Some("no"),
            Language::Panjabi => Some("pa"),
            Language::Persian => Some("fa"),
            Language::Polish => Some("pl"),
            Language::Portuguese => Some("pt"),
            Language::Pushto => Some("ps"),
            Language::QueretaroOtomi => Some("otq"),
            Language::Romanian => Some("ro"),
            Language::Russian => Some("ru"),
            Language::Samoan => Some("sm"),
            Language::SerbianLatin => Some("sr-Latn"),
            Language::Serbian => Some("sr-Cyrl"),
            Language::Shona => Some("sn"),
            Language::Sindhi => Some("sd"),
            Language::Sinhala => Some("si"),
            Language::Slovak => Some("sk"),
            Language::Slovenian => Some("sl"),
            Language::Somali => Some("so"),
            Language::SothoSouthern => Some("st"),
            Language::Spanish => Some("es"),
            Language::Sundanese => Some("su"),
            Language::Swahili => Some("sw"),
            Language::Swedish => Some("sv"),
            Language::Tagalog => Some("tl"),
            Language::Tahitian => Some("ty"),
            Language::Tajik => Some("tg"),
            Language::Tamil => Some("ta"),
            Language::Telugu => Some("te"),
            Language::Thai => Some("th"),
            Language::Tonga => Some("to"),
            Language::Turkish => Some("tr"),
            Language::Ukrainian => Some("uk"),
            Language::Urdu => Some("ur"),
            Language::Uzbek => Some("uz"),
            Language::Vietnamese => Some("vi"),
            Language::Welsh => Some("cy"),
            Language::WesternFrisian => Some("fy"),
            Language::Xhosa => Some("xh"),
            Language::Yiddish => Some("yi"),
            Language::Yoruba => Some("yo"),
            Language::Yucateco => Some("yua"),
            Language::YueChinese => Some("yue"),
            Language::Zulu => Some("zu"),
            _ => None,
        }
    }

    /// The language whose youdao wire code is `s`.
    #[verifier::rlimit(60)]
    pub fn from_youdao(s: &str) -> (r: Option<Language>)
        ensures
            r == youdao_language(s@),
    {
        proof {
            lemma_youdao_codes_distinct();
        }
        if str_eq(s, "af") {
            assert(youdao_code(Language::Afrikaans) == Some(s@));
            return Some(Language::Afrikaans);
        }
        if str_eq(s, "sq") {
            assert(youdao_code(Language::Albanian) == Some(s@));
            return Some(Language::Albanian);
        }
        if str_eq(s, "am") {
            assert(youdao_code(Language::Amharic) == Some(s@));
            return Some(Language::Amharic);
        }
        if str_eq(s, "ar") {
            assert(youdao_code(Language::Arabic) == Some(s@));
            return Some(Language::Arabic);
        }
        if str_eq(s, "hy") {
            assert(youdao_code(Language::Armenian) == Some(s@));
            return Some(Language::Armenian);
        }
        if str_eq(s, "az") {
            assert(youdao_code(Language::Azerbaijani) == Some(s@));
            return Some(Language::Azerbaijani);
        }
        if str_eq(s, "eu") {
            assert(youdao_code(Language::Basque) == Some(s@));
            return Some(Language::Basque);
        }
        if str_eq(s, "be") {
            assert(youdao_code(Language::Belarusian) == Some(s@));
            return Some(Language::Belarusian);
        }
        if str_eq(s, "bn") {
            assert(youdao_code(Language::Bengali) == Some(s@));
            return Some(Language::Bengali);
        }
        if str_eq(s, "bs") {
            assert(youdao_code(Language::Bosnian) == Some(s@));
            return Some(Language::Bosnian);
        }
        if str_eq(s, "bg") {
            assert(youdao_code(Language::Bulgarian) == Some(s@));
            return Some(Language::Bulgarian);
        }
        if str_eq(s, "my") {
            assert(youdao_code(Language::Burmese) == Some(s@));
            return Some(Language::Burmese);
        }
        if str_eq(s, "ca") {
            assert(youdao_code(Language::Catalan) == Some(s@));
            return Some(Language::Catalan);
        }
        if str_eq(s, "ceb") {
            assert(youdao_code(Language::Cebuano) == Some(s@));
            return Some(Language::Cebuano);
        }
        if str_eq(s, "km") {
            assert(youdao_code(Language::CentralKhmer) == Some(s@));
            return Some(Language::CentralKhmer);
        }
        if str_eq(s, "ny") {
            assert(youdao_code(Language::ChichewaChewaNyanja) == Some(s@));
            return Some(Language::ChichewaChewaNyanja);
        }
        if str_eq(s, "zh-CHT") {
            assert(youdao_code(Language::ChineseTraditional) == Some(s@));
            return Some(Language::ChineseTraditional);
        }
        if str_eq(s, "zh-CHS") {
            assert(youdao_code(Language::Chinese) == Some(s@));
            return Some(Language::Chinese);
        }
        if str_eq(s, "co") {
            assert(youdao_code(Language::Corsican) == Some(s@));
            return Some(Language::Corsican);
        }
        if str_eq(s, "hr") {
            assert(youdao_code(Language::Croatian) == Some(s@));
            return Some(Language::Croatian);
        }
        if str_eq(s, "cs") {
            assert(youdao_code(Language::Czech) == Some(s@));
            return Some(Language::Czech);
        }
        if str_eq(s, "da") {
            assert(youdao_code(Language::Danish) == Some(s@));
            return Some(Language::Danish);
        }
        if str_eq(s, "nl") {
            assert(youdao_code(Language::Dutch) == Some(s@));
            return Some(Language::Dutch);
        }
        if str_eq(s, "en") {
            assert(youdao_code(Language::English) == Some(s@));
            return Some(Language::English);
        }
        if str_eq(s, "eo") {
            assert(youdao_code(Language::Esperanto) == Some(s@));
            return Some(Language::Esperanto);
        }
        if str_eq(s, "et") {
            assert(youdao_code(Language::Estonian) == Some(s@));
            return Some(Language::Estonian);
        }
        if str_eq(s, "fj") {
            assert(youdao_code(Language::Fijian) == Some(s@));
            return Some(Language::Fijian);
        }
        if str_eq(s, "fi") {
            assert(youdao_code(Language::Finnish) == Some(s@));
            return Some(Language::Finnish);
        }
        if str_eq(s, "fr") {
            assert(youdao_code(Language::French) == Some(s@));
            return Some(Language::French);
        }
        if str_eq(s, "gd") {
            assert(youdao_code(Language::Gaelic) == Some(s@));
            return Some(Language::Gaelic);
        }
        if str_eq(s, "gl") {
            assert(youdao_code(Language::Galician) == Some(s@));
            return Some(Language::Galician);
        }
        if str_eq(s, "ka") {
            assert(youdao_code(Language::Georgian) == Some(s@));
            return Some(Language::Georgian);
        }
        if str_eq(s, "de") {
            assert(youdao_code(Language::German) == Some(s@));
            return Some(Language::German);
        }
        if str_eq(s, "el") {
            assert(youdao_code(Language::Greek) == Some(s@));
            return Some(Language::Greek);
        }
        if str_eq(s, "gu") {
            assert(youdao_code(Language::Gujarati) == Some(s@));
            return Some(Language::Gujarati);
        }
        if str_eq(s, "ht") {
            assert(youdao_code(Language::Haitian) == Some(s@));
            return Some(Language::Haitian);
        }
        if str_eq(s, "ha") {
            assert(youdao_code(Language::Hausa) == Some(s@));
            return Some(Language::Hausa);
        }
        if str_eq(s, "haw") {
            assert(youdao_code(Language::Hawaiian) == Some(s@));
            return Some(Language::Hawaiian);
        }
        if str_eq(s, "he") {
            assert(youdao_code(Language::Hebrew) == Some(s@));
            return Some(Language::Hebrew);
        }
        if str_eq(s, "hi") {
            assert(youdao_code(Language::Hindi) == Some(s@));
            return Some(Language::Hindi);
        }
        if str_eq(s, "mww") {
            assert(youdao_code(Language::HmongDaw) == Some(s@));
            return Some(Language::HmongDaw);
        }
        if str_eq(s, "hu") {
            assert(youdao_code(Language::Hungarian) == Some(s@));
            return Some(Language::Hungarian);
        }
        if str_eq(s, "is") {
            assert(youdao_code(Language::Icelandic) == Some(s@));
            return Some(Language::Icelandic);
        }
        if str_eq(s, "ig") {
            assert(youdao_code(Language::Igbo) == Some(s@));
            return Some(Language::Igbo);
        }
        if str_eq(s, "id") {
            assert(youdao_code(Language::Indonesian) == Some(s@));
            return Some(Language::Indonesian);
        }
        if str_eq(s, "ga") {
            assert(youdao_code(Language::Irish) == Some(s@));
            return Some(Language::Irish);
        }
        if str_eq(s, "it") {
            assert(youdao_code(Language::Italian) == Some(s@));
            return Some(Language::Italian);
        }
        if str_eq(s, "ja") {
            assert(youdao_code(Language::Japanese) == Some(s@));
            return Some(Language::Japanese);
        }
        if str_eq(s, "jw") {
            assert(youdao_code(Language::Javanese) == Some(s@));
            return Some(Language::Javanese);
        }
        if str_eq(s, "kn") {
            assert(youdao_code(Language::Kannada) == Some(s@));
            return Some(Language::Kannada);
        }
        if str_eq(s, "kk") {
            assert(youdao_code(Language::Kazakh) == Some(s@));
            return Some(Language::Kazakh);
        }
        if str_eq(s, "ky") {
            assert(youdao_code(Language::KirghizKyrgyz) == Some(s@));
            return Some(Language::KirghizKyrgyz);
        }
        if str_eq(s, "tlh") {
            assert(youdao_code(Language::Klingon) == Some(s@));
            return Some(Language::Klingon);
        }
        if str_eq(s, "ko") {
            assert(youdao_code(Language::Korean) == Some(s@));
            return Some(Language::Korean);
        }
        if str_eq(s, "ku") {
            assert(youdao_code(Language::Kurdish) == Some(s@));
            return Some(Language::Kurdish);
        }
        if str_eq(s, "lo") {
            assert(youdao_code(Language::Lao) == Some(s@));
            return Some(Language::Lao);
        }
        if str_eq(s, "la") {
            assert(youdao_code(Language::Latin) == Some(s@));
            return Some(Language::Latin);
        }
        if str_eq(s, "lv") {
            assert(youdao_code(Language::Latvian) == Some(s@));
            return Some(Language::Latvian);
        }
        if str_eq(s, "lt") {
            assert(youdao_code(Language::Lithuanian) == Some(s@));
            return Some(Language::Lithuanian);
        }
        if str_eq(s, "lb") {
            assert(youdao_code(Language::Luxembourgish) == Some(s@));
            return Some(Language::Luxembourgish);
        }
        if str_eq(s, "mk") {
            assert(youdao_code(Language::Macedonian) == Some(s@));
            return Some(Language::Macedonian);
        }
        if str_eq(s, "mg") {
            assert(youdao_code(Language::Malagasy) == Some(s@));
            return Some(Language::Malagasy);
        }
        if str_eq(s, "ms") {
            assert(youdao_code(Language::Malay) == Some(s@));
            return Some(Language::Malay);
        }
        if str_eq(s, "ml") {
            assert(youdao_code(Language::Malayalam) == Some(s@));
            return Some(Language::Malayalam);
        }
        if str_eq(s, "mt") {
            assert(youdao_code(Language::Maltese) == Some(s@));
            return Some(Language::Maltese);
        }
        if str_eq(s, "mi") {
            assert(youdao_code(Language::Maori) == Some(s@));
            return Some(Language::Maori);
        }
        if str_eq(s, "mr") {
            assert(youdao_code(Language::Marathi) == Some(s@));
            return Some(Language::Marathi);
        }
        if str_eq(s, "mn") {
            assert(youdao_code(Language::Mongolian) == Some(s@));
            return Some(Language::Mongolian);
        }
        if str_eq(s, "ne") {
            assert(youdao_code(Language::Nepali) == Some(s@));
            return Some(Language::Nepali);
        }
        if str_eq(s, "no") {
            assert(youdao_code(Language::Norwegian) == Some(s@));
            return Some(Language::Norwegian);
        }
        if str_eq(s, "pa") {
            assert(youdao_code(Language::Panjabi) == Some(s@));
            return Some(Language::Panjabi);
        }
        if str_eq(s, "fa") {
            assert(youdao_code(Language::Persian) == Some(s@));
            return Some(Language::Persian);
        }
        if str_eq(s, "pl") {
            assert(youdao_code(Language::Polish) == Some(s@));
            return Some(Language::Polish);
        }
        if str_eq(s, "pt") {
            assert(youdao_code(Language::Portuguese) == Some(s@));
            return Some(Language::Portuguese);
        }
        if str_eq(s, "ps") {
            assert(youdao_code(Language::Pushto) == Some(s@));
            return Some(Language::Pushto);
        }
        if str_eq(s, "otq") {
            assert(youdao_code(Language::QueretaroOtomi) == Some(s@));
            return Some(Language::QueretaroOtomi);
        }
        if str_eq(s, "ro") {
            assert(youdao_code(Language::Romanian) == Some(s@));
            return Some(Language::Romanian);
        }
        if str_eq(s, "ru") {
            assert(youdao_code(Language::Russian) == Some(s@));
            return Some(Language::Russian);
        }
        if str_eq(s, "sm") {
            assert(youdao_code(Language::Samoan) == Some(s@));
            return Some(Language::Samoan);
        }
        if str_eq(s, "sr-Latn") {
            assert(youdao_code(Language::SerbianLatin) == Some(s@));
            return Some(Language::SerbianLatin);
        }
        if str_eq(s, "sr-Cyrl") {
            assert(youdao_code(Language::Serbian) == Some(s@));
            return Some(Language::Serbian);
        }
        if str_eq(s, "sn") {
            assert(youdao_code(Language::Shona) == Some(s@));
            return Some(Language::Shona);
        }
        if str_eq(s, "sd") {
            assert(youdao_code(Language::Sindhi) == Some(s@));
            return Some(Language::Sindhi);
        }
        if str_eq(s, "si") {
            assert(youdao_code(Language::Sinhala) == Some(s@));
            return Some(Language::Sinhala);
        }
        if str_eq(s, "sk") {
            assert(youdao_code(Language::Slovak) == Some(s@));
            return Some(Language::Slovak);
        }
        if str_eq(s, "sl") {
            assert(youdao_code(Language::Slovenian) == Some(s@));
            return Some(Language::Slovenian);
        }
        if str_eq(s, "so") {
            assert(youdao_code(Language::Somali) == Some(s@));
            return Some(Language::Somali);
        }
        if str_eq(s, "st") {
            assert(youdao_code(Language::SothoSouthern) == Some(s@));
            return Some(Language::SothoSouthern);
        }
        if str_eq(s, "es") {
            assert(youdao_code(Language::Spanish) == Some(s@));
            return Some(Language::Spanish);
        }
        if str_eq(s, "su") {
            assert(youdao_code(Language::Sundanese) == Some(s@));
            return Some(Language::Sundanese);
        }
        if str_eq(s, "sw") {
            assert(youdao_code(Language::Swahili) == Some(s@));
            return Some(Language::Swahili);
        }
        if str_eq(s, "sv") {
            assert(youdao_code(Language::Swedish) == Some(s@));
            return Some(Language::Swedish);
        }
        if str_eq(s, "tl") {
            assert(youdao_code(Language::Tagalog) == Some(s@));
            return Some(Language::Tagalog);
        }
        if str_eq(s, "ty") {
            assert(youdao_code(Language::Tahitian) == Some(s@));
            return Some(Language::Tahitian);
        }
        if str_eq(s, "tg") {
            assert(youdao_code(Language::Tajik) == Some(s@));
            return Some(Language::Tajik);
        }
        if str_eq(s, "ta") {
            assert(youdao_code(Language::Tamil) == Some(s@));
            return Some(Language::Tamil);
        }
        if str_eq(s, "te") {
            assert(youdao_code(Language::Telugu) == Some(s@));
            return Some(Language::Telugu);
        }
        if str_eq(s, "th") {
            assert(youdao_code(Language::Thai) == Some(s@));
            return Some(Language::Thai);
        }
        if str_eq(s, "to") {
            assert(youdao_code(Language::Tonga) == Some(s@));
            return Some(Language::Tonga);
        }
        if str_eq(s, "tr") {
            assert(youdao_code(Language::Turkish) == Some(s@));
            return Some(Language::Turkish);
        }
        if str_eq(s, "uk") {
            assert(youdao_code(Language::Ukrainian) == Some(s@));
            return Some(Language::Ukrainian);
        }
        if str_eq(s, "ur") {
            assert(youdao_code(Language::Urdu) == Some(s@));
            return Some(Language::Urdu);
        }
        if str_eq(s, "uz") {
            assert(youdao_code(Language::Uzbek) == Some(s@));
            return Some(Language::Uzbek);
        }
        if str_eq(s, "vi") {
            assert(youdao_code(Language::Vietnamese) == Some(s@));
            return Some(Language::Vietnamese);
        }
        if str_eq(s, "cy") {
            assert(youdao_code(Language::Welsh) == Some(s@));
            return Some(Language::Welsh);
        }
        if str_eq(s, "fy") {
            assert(youdao_code(Language::WesternFrisian) == Some(s@));
            return Some(Language::WesternFrisian);
        }
        if str_eq(s, "xh") {
            assert(youdao_code(Language::Xhosa) == Some(s@));
            return Some(Language::Xhosa);
        }
        if str_eq(s, "yi") {
            assert(youdao_code(Language::Yiddish) == Some(s@));
            return Some(Language::Yiddish);
        }
        if str_eq(s, "yo") {
            assert(youdao_code(Language::Yoruba) == Some(s@));
            return Some(Language::Yoruba);
        }
        if str_eq(s, "yua") {
            assert(youdao_code(Language::Yucateco) == Some(s@));
            return Some(Language::Yucateco);
        }
        if str_eq(s, "yue") {
            assert(youdao_code(Language::YueChinese) == Some(s@));
            return Some(Language::YueChinese);
        }
        if str_eq(s, "zu") {
            assert(youdao_code(Language::Zulu) == Some(s@));
            return Some(Language::Zulu);
        }
        None
    }

}

} // verus!
