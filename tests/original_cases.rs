use std::collections::HashSet;
use std::str::FromStr;

use fusion_translator::alibaba::{self, AlibabaTranslator};
use fusion_translator::baidu::{BaiduTranslator, Form};
use fusion_translator::caiyun::CaiyunTranslator;
use fusion_translator::factory::{TranslatorConfig, TranslatorFactory, TranslatorType};
use fusion_translator::language::Language;
use fusion_translator::mymemory::{self, MyMemoryTranslator};
use fusion_translator::youdao::{sha256_encode, truncate, YoudaoTranslator};

#[test]
fn alibaba_translator_test_input_limit_checker() {
    let result = alibaba::input_limit_checker("short text", 500);
    assert!(result.is_ok());

    let long_text = "a".repeat(600);
    let result = alibaba::input_limit_checker(&long_text, 500);
    assert!(result.is_err());
}

#[test]
fn mymemory_translator_test_input_limit_checker() {
    let result = mymemory::input_limit_checker("short text", 500);
    assert!(result.is_ok());

    let long_text = "a".repeat(600);
    let result = mymemory::input_limit_checker(&long_text, 500);
    assert!(result.is_err());
}

#[test]
fn alibaba_translator_test_create_translator() {
    let translator = AlibabaTranslator::new();
    assert!(!translator.local());
}

#[test]
fn alibaba_translator_test_default() {
    let translator = AlibabaTranslator::default();
    assert!(!translator.local());
}

#[test]
fn mymemory_translator_test_create_translator() {
    let translator = MyMemoryTranslator::new();
    assert!(!translator.local());
}

#[test]
fn mymemory_translator_test_default() {
    let translator = MyMemoryTranslator::default();
    assert!(!translator.local());
}

#[test]
fn mymemory_translator_test_translator_fields() {
    let translator = MyMemoryTranslator::new();
    assert_eq!(translator.input_limit, 500);
    assert!(translator.host.contains("mymemory.translated.net"));
}

#[test]
fn baidu_translator_test_new_translator() {
    let translator = BaiduTranslator::new("test_app_id", "test_key");
    assert_eq!(translator.app_id, "test_app_id");
    assert_eq!(translator.key, "test_key");
    assert!(translator.url.contains("baidu.com"));
}

#[test]
fn test_form_creation() {
    let form = Form::new("appid", "hello", "salt", "key", "en", "zh");
    assert_eq!(form.q, "hello");
    assert_eq!(form.from, "en");
    assert_eq!(form.to, "zh");
    assert_eq!(form.appid, "appid");
    assert_eq!(form.salt, "salt");
    assert!(!form.sign.is_empty());
}

#[test]
fn test_form_empty_query() {
    let form = Form::new("appid", "", "salt", "key", "auto", "zh");
    assert!(form.sign.len() == 32);
}

#[test]
fn baidu_translator_test_translator_fields() {
    let translator = BaiduTranslator::new("app_id_123", "key_456");
    assert_eq!(translator.app_id, "app_id_123");
    assert_eq!(translator.key, "key_456");
    assert!(translator.url.starts_with("https://"));
}

#[test]
fn baidu_translator_test_translator_local() {
    let translator = BaiduTranslator::new("test_id", "test_key");
    assert!(!translator.local());
}

#[test]
fn baidu_translator_test_language_mapping() {
    let langs = ["zh", "en", "yue", "wyw", "jp", "kor", "fra", "spa", "th", "ara", "ru", "pt", "de",
            "it", "el", "nl", "pl", "bul", "est", "dan", "fin", "cs", "rom", "slo", "swe", "hu",
            "cht", "vie", "ara", "gle", "oci", "alb", "arq", "aka", "arg", "amh", "asm", "aym",
            "aze", "ast", "oss", "est", "oji", "ori", "orm", "pl", "per", "bre", "bak", "baq",
            "pot", "bel", "ber", "pam", "bul", "sme", "ped", "bem", "bli", "bis", "bal", "ice",
            "bos", "bho", "chv", "tso", "dan", "de", "tat", "sha", "tet", "div", "log", "ru",
            "fra", "fil", "fin", "san", "fri", "ful", "fao", "gla", "kon", "ups", "hkm", "kal",
            "geo", "guj", "gra", "eno", "grn", "kor", "nl", "hup", "hak", "ht", "mot", "hau",
            "kir", "glg", "frn", "cat", "cs", "kab", "kan", "kau", "kah", "cor", "xho", "cos",
            "cre", "cri", "kli", "hrv", "que", "kas", "kok", "kur", "lat", "lao", "rom", "lag",
            "lav", "lim", "lin", "lug", "ltz", "ruy", "kin", "lit", "roh", "ro", "loj", "may",
            "bur", "mar", "mg", "mal", "mac", "mah", "mai", "glv", "mau", "mao", "ben", "mlt",
            "hmn", "nor", "nea", "nbl", "afr", "sot", "nep", "pt", "pan", "pap", "pus", "nya",
            "twi", "chr", "jp", "swe", "srd", "sm", "sec", "srp", "sol", "sin", "epo", "nob", "sk",
            "slo", "swa", "src", "som", "sco", "th", "tr", "tgk", "tam", "tgl", "tir", "tel",
            "tua", "tuk", "ukr", "wln", "wel", "ven", "wol", "urd", "spa", "heb", "el", "hu",
            "fry", "sil", "hil", "los", "haw", "nno", "nqo", "snd", "sna", "ceb", "syr", "sun",
            "en", "hi", "id", "it", "vie", "yid", "ina", "ach", "ing", "ibo", "ido", "yor", "arm",
            "iku", "zh", "cht", "wyw", "yue", "zaz", "frm", "zul", "jav",
    ];
    for lang_str in langs.into_iter().collect::<HashSet<_>>() {
        if lang_str == "slo" {
            continue;
        }
        Language::from_baidu(lang_str).expect(lang_str);
    }
}

#[test]
fn test_duplicate_language_codes() {
    let langs = vec!["zh", "en", "zh", "en", "jp"];
    let unique_langs: HashSet<&str> = langs.into_iter().collect();
    assert_eq!(unique_langs.len(), 3);
}

#[test]
fn test_form_signature_consistency() {
    let form1 = Form::new("appid", "hello", "salt", "key", "en", "zh");
    let form2 = Form::new("appid", "hello", "salt", "key", "en", "zh");
    assert_eq!(form1.sign, form2.sign);
}

#[test]
fn test_different_queries_different_signatures() {
    let form1 = Form::new("appid", "hello", "salt", "key", "en", "zh");
    let form2 = Form::new("appid", "world", "salt", "key", "en", "zh");
    assert_ne!(form1.sign, form2.sign);
}

#[test]
fn caiyun_translator_test_create_translator() {
    let translator = CaiyunTranslator::new("test_token", "test_request_id");
    assert!(!translator.local());
}

#[test]
fn test_new_with_default_request_id() {
    let translator = CaiyunTranslator::new("test_token", "demo");
    assert!(!translator.local());
    assert_eq!(translator.request_id, "demo");
}

#[test]
fn caiyun_translator_test_translator_fields() {
    let token = "my_token";
    let request_id = "my_request_id";
    let translator = CaiyunTranslator::new(token, request_id);

    assert_eq!(translator.token, token);
    assert_eq!(translator.request_id, request_id);
}

#[test]
fn test_translator_type_parse() {
    assert_eq!(TranslatorType::parse("baidu"), Some(TranslatorType::Baidu));
    assert_eq!(TranslatorType::parse("Baidu"), Some(TranslatorType::Baidu));
    assert_eq!(TranslatorType::parse("BAIDU"), Some(TranslatorType::Baidu));
    assert_eq!(TranslatorType::parse("youdao"), Some(TranslatorType::Youdao));
    assert_eq!(TranslatorType::parse("alibaba"), Some(TranslatorType::Alibaba));
    assert_eq!(TranslatorType::parse("ali"), Some(TranslatorType::Alibaba));
    assert_eq!(TranslatorType::parse("caiyun"), Some(TranslatorType::Caiyun));
    assert_eq!(TranslatorType::parse("彩云"), Some(TranslatorType::Caiyun));
    assert_eq!(TranslatorType::parse("mymemory"), Some(TranslatorType::MyMemory));
    assert_eq!(TranslatorType::parse("unknown"), None);
}

#[test]
fn test_translator_type_from_str() {
    assert_eq!(TranslatorType::from_str("baidu"), Ok(TranslatorType::Baidu));
    assert_eq!(TranslatorType::from_str("Baidu"), Ok(TranslatorType::Baidu));
    assert_eq!(TranslatorType::from_str("BAIDU"), Ok(TranslatorType::Baidu));
    assert_eq!(TranslatorType::from_str("youdao"), Ok(TranslatorType::Youdao));
    assert_eq!(TranslatorType::from_str("alibaba"), Ok(TranslatorType::Alibaba));
    assert_eq!(TranslatorType::from_str("ali"), Ok(TranslatorType::Alibaba));
    assert_eq!(TranslatorType::from_str("caiyun"), Ok(TranslatorType::Caiyun));
    assert_eq!(TranslatorType::from_str("彩云"), Ok(TranslatorType::Caiyun));
    assert_eq!(TranslatorType::from_str("mymemory"), Ok(TranslatorType::MyMemory));
    assert_eq!(TranslatorType::from_str("unknown"), Err(()));
}

#[test]
fn test_translator_type_as_str() {
    assert_eq!(TranslatorType::Baidu.as_str(), "baidu");
    assert_eq!(TranslatorType::Youdao.as_str(), "youdao");
    assert_eq!(TranslatorType::Alibaba.as_str(), "alibaba");
    assert_eq!(TranslatorType::Caiyun.as_str(), "caiyun");
    assert_eq!(TranslatorType::MyMemory.as_str(), "mymemory");
}

#[test]
fn test_create_youdao_translator() {
    let config = TranslatorConfig::Youdao {
        app_key: "test_app_key".to_string(),
        app_secret: "test_app_secret".to_string(),
    };
    let translator = TranslatorFactory::create(config);
    assert!(!translator.local());
}

#[test]
fn test_create_alibaba_translator() {
    let config = TranslatorConfig::Alibaba {
        token: "test_token".to_string(),
    };
    let translator = TranslatorFactory::create(config);
    assert!(!translator.local());
}

#[test]
fn test_create_caiyun_translator() {
    let config = TranslatorConfig::Caiyun {
        token: "test_token".to_string(),
        request_id: "test_request_id".to_string(),
    };
    let translator = TranslatorFactory::create(config);
    assert!(!translator.local());
}

#[test]
fn test_create_mymemory_translator() {
    let config = TranslatorConfig::MyMemory;
    let translator = TranslatorFactory::create(config);
    assert!(!translator.local());
}

#[test]
fn test_create_from_type() {
    let translator =
        TranslatorFactory::create_from_type(TranslatorType::Baidu, "test_app_id", "test_key");
    assert!(!translator.local());

    let translator = TranslatorFactory::create_from_type(
        TranslatorType::Youdao,
        "test_app_key",
        "test_app_secret",
    );
    assert!(!translator.local());

    let translator = TranslatorFactory::create_from_type(TranslatorType::Alibaba, "", "");
    assert!(!translator.local());

    let translator =
        TranslatorFactory::create_from_type(TranslatorType::Caiyun, "test_token", "test_request_id");
    assert!(!translator.local());

    let translator = TranslatorFactory::create_from_type(TranslatorType::MyMemory, "", "");
    assert!(!translator.local());
}

#[test]
fn youdao_translator_test_new_translator() {
    let translator = YoudaoTranslator::new("test_app_key", "test_app_secret");
    assert_eq!(translator.app_key, "test_app_key");
    assert_eq!(translator.app_secret, "test_app_secret");
    assert_eq!(translator.mac.len(), 6);
}

#[test]
fn youdao_translator_test_translator_fields() {
    let translator = YoudaoTranslator::new("app_key_123", "app_secret_456");
    assert_eq!(translator.app_key, "app_key_123");
    assert_eq!(translator.app_secret, "app_secret_456");
}

#[test]
fn youdao_translator_test_translator_local() {
    let translator = YoudaoTranslator::new("test_key", "test_secret");
    assert!(!translator.local());
}

#[test]
fn test_translator_mac() {
    let translator = YoudaoTranslator::new("key", "secret");
    assert_eq!(translator.mac.len(), 6);
}

#[test]
fn test_sha256_encode() {
    let result = sha256_encode("test_string");
    assert_eq!(result.len(), 64);
    assert!(result.chars().all(|c| c.is_ascii_hexdigit()));
}

#[test]
fn test_sha256_consistency() {
    let result1 = sha256_encode("hello");
    let result2 = sha256_encode("hello");
    assert_eq!(result1, result2);
}

#[test]
fn test_sha256_different() {
    let result1 = sha256_encode("hello");
    let result2 = sha256_encode("world");
    assert_ne!(result1, result2);
}

#[test]
fn test_truncate_short() {
    let result = truncate("hello world");
    assert_eq!(result, "hello world");
}

#[test]
fn test_truncate_long() {
    let long_text = "this is a very long text that exceeds twenty characters";
    let result = truncate(long_text);
    assert!(result.len() <= 23);
    assert!(result.starts_with("this is a "));
    assert!(result.ends_with("characters"));
}

#[test]
fn test_truncate_empty() {
    let result = truncate("");
    assert_eq!(result, "");
}

#[test]
fn test_truncate_exactly_20() {
    let text = "12345678901234567890";
    let result = truncate(text);
    assert_eq!(result, text);
}

#[test]
fn test_truncate_contains_length() {
    let long_text = "123456789012345678901";
    let result = truncate(long_text);
    assert!(result.contains("21"));
}

#[test]
fn youdao_translator_test_language_mapping() {
    let langs = ["ar", "de", "en", "es", "fr", "hi", "id", "it", "ja", "ko", "nl", "pt", "ru", "th",
            "vi", "zh-CHS", "zh-CHT", "af", "am", "az", "be", "bg", "bn", "bs", "ca", "ceb", "co",
            "cs", "cy", "da", "el", "eo", "et", "eu", "fa", "fi", "fj", "fy", "ga", "gd", "gl",
            "gu", "ha", "haw", "he", "hi", "hr", "ht", "hu", "hy", "ig", "is", "jw", "ka", "kk",
            "km", "kn", "ku", "ky", "la", "lb", "lo", "lt", "lv", "mg", "mi", "mk", "ml", "mn",
            "mr", "ms", "mt", "mww", "my", "ne", "nl", "no", "ny", "otq", "pa", "pl", "ps", "ro",
            "sd", "si", "sk", "sl", "sm", "sn", "so", "sq", "sr-Cyrl", "sr-Latn", "st", "su", "sv",
            "sw", "ta", "te", "tg", "tl", "tlh", "to", "tr", "ty", "uk", "ur", "uz", "xh", "yi",
            "yo", "yua", "yue", "zu",
    ];

    assert!(langs.len() > 0);
    for code in langs {
        Language::from_youdao(code).expect(code);
    }
}

#[test]
fn test_all_languages_available() {
    let langs = ["ar", "de", "en", "es", "fr", "hi", "id", "it", "ja", "ko", "nl", "pt", "ru", "th",
            "vi", "zh-CHS", "zh-CHT", "af", "am", "az", "be", "bg", "bn", "bs", "ca", "ceb", "co",
            "cs", "cy", "da", "el", "eo", "et", "eu", "fa", "fi", "fj", "fy", "ga", "gd", "gl",
            "gu", "ha", "haw", "he", "hi", "hr", "ht", "hu", "hy", "ig", "is", "jw", "ka", "kk",
            "km", "kn", "ku", "ky", "la", "lb", "lo", "lt", "lv", "mg", "mi", "mk", "ml", "mn",
            "mr", "ms", "mt", "mww", "my", "ne", "nl", "no", "ny", "otq", "pa", "pl", "ps", "ro",
            "sd", "si", "sk", "sl", "sm", "sn", "so", "sq", "sr-Cyrl", "sr-Latn", "st", "su", "sv",
            "sw", "ta", "te", "tg", "tl", "tlh", "to", "tr", "ty", "uk", "ur", "uz", "xh", "yi",
            "yo", "yua", "yue", "zu",
    ];

    assert!(langs.len() > 0);
    for code in langs {
        Language::from_youdao(code).expect(code);
    }
}
