use fusion_translator::alibaba::AlibabaTranslator;
use fusion_translator::baidu::{BaiduApiError, BaiduTranslator, Form, Response, TranslationResponse};
use fusion_translator::caiyun::CaiyunTranslator;
use fusion_translator::error::{ApiError, TranslatorError};
use fusion_translator::factory::{Translator, TranslatorFactory, TranslatorType};
use fusion_translator::language::Language;
use fusion_translator::mymemory::MyMemoryTranslator;
use fusion_translator::output::{decode_text_field, TranslationOutput};
use fusion_translator::text::{decimal, join, split};
use fusion_translator::youdao::{local_node_id, sha256_encode, truncate, Resp, YoudaoTranslator};

fn strings(xs: &[&str]) -> Vec<String> {
    xs.iter().map(|s| s.to_string()).collect()
}

fn ok_reply(xs: &[&str]) -> Resp {
    Resp { error_code: Some("0".to_string()), translation: Some(strings(xs)) }
}

#[test]
fn wire_codes_round_trip() {
    for l in [Language::Chinese, Language::English, Language::Japanese, Language::French] {
        let c = l.to_baidu().unwrap();
        assert_eq!(Language::from_baidu(c), Some(l));
        let c = l.to_youdao().unwrap();
        assert_eq!(Language::from_youdao(c), Some(l));
        let c = l.to_caiyun().unwrap();
        assert_eq!(Language::from_caiyun(c), Some(l));
        let c = l.to_mymemory().unwrap();
        assert_eq!(Language::from_mymemory(c), Some(l));
        let c = l.to_mymemory_short().unwrap();
        assert_eq!(Language::from_mymemory_short(c), Some(l));
    }
    assert_eq!(Language::ChineseTraditional.to_caiyun(), Some("zh"));
    assert_eq!(Language::from_caiyun("zh"), Some(Language::ChineseTraditional));
    assert_eq!(Language::Japanese.to_baidu(), Some("jp"));
    assert_eq!(Language::English.to_mymemory(), Some("en-GB"));
}

#[test]
fn unsupported_languages_have_no_code() {
    assert_eq!(Language::Abkhazian.to_baidu(), None);
    assert_eq!(Language::ChineseTraditional.to_mymemory_short(), None);
    assert_eq!(Language::from_baidu("slo"), None);
    assert_eq!(Language::from_youdao(""), None);
    assert_eq!(Language::from_youdao("zh-chs"), None);
}

#[test]
fn batch_join_and_split_keep_count_and_order() {
    let texts = strings(&["one", "two", "three"]);
    let joined = AlibabaTranslator::batch_query(&texts);
    assert_eq!(joined, "one_._._two_._._three");
    let echoed = TranslationOutput { text: joined, lang: Some(Language::English) };
    let back = AlibabaTranslator::split_batch(echoed);
    assert_eq!(back.text, texts);
    assert_eq!(back.lang, Some(Language::English));

    let joined = MyMemoryTranslator::batch_query(&texts);
    let back = MyMemoryTranslator::split_batch(TranslationOutput { text: joined, lang: None });
    assert_eq!(back.text, texts);

    let joined = BaiduTranslator::batch_query(&texts);
    assert_eq!(joined, "one\ntwo\nthree");
    let back = BaiduTranslator::split_batch(TranslationOutput { text: joined, lang: None });
    assert_eq!(back.text, texts);
}

#[test]
fn batch_split_is_lossy_when_a_text_holds_the_delimiter() {
    let texts = strings(&["a_._._b", "c"]);
    let joined = AlibabaTranslator::batch_query(&texts);
    let back = AlibabaTranslator::split_batch(TranslationOutput { text: joined, lang: None });
    assert_eq!(back.text, strings(&["a", "b", "c"]));
}

#[test]
fn split_edges() {
    assert_eq!(split("", "\n"), strings(&[""]));
    assert_eq!(split("a\n", "\n"), strings(&["a", ""]));
    assert_eq!(split("aaa", "aa"), strings(&["", "a"]));
    assert_eq!(join(&[], ","), "");
    assert_eq!(join(&strings(&["x"]), ","), "x");
}

#[test]
fn list_providers_keep_count_and_order() {
    let target = strings(&["uno", "dos", "tres"]);
    let out = CaiyunTranslator::decode(Some(target.clone())).unwrap();
    assert_eq!(out.text, target);
    assert!(out.lang.is_none());

    let out = YoudaoTranslator::decode(ok_reply(&["uno", "dos", "tres"])).unwrap();
    assert_eq!(out.text, target);
    let out = YoudaoTranslator::decode(ok_reply(&["a/nb", "c"])).unwrap();
    assert_eq!(out.text, strings(&["a", "b", "c"]));
    let out = YoudaoTranslator::decode(Resp { error_code: None, translation: Some(target.clone()) }).unwrap();
    assert_eq!(out.text, target);
    let out = YoudaoTranslator::decode(ok_reply(&["uno/ndos/ntres"])).unwrap();
    assert_eq!(out.text, target);
}

#[test]
fn null_list_is_no_translation() {
    assert!(matches!(CaiyunTranslator::decode(None), Err(TranslatorError::NoResponse)));
    let r = YoudaoTranslator::decode(Resp { error_code: Some("0".to_string()), translation: None });
    assert!(matches!(r, Err(TranslatorError::NoResponse)));
}

#[test]
fn youdao_refusal_carries_its_code() {
    let r = YoudaoTranslator::decode(Resp { error_code: Some("202".to_string()), translation: None });
    match r {
        Err(TranslatorError::ApiError(ApiError::Youdao { code })) => assert_eq!(code, "202"),
        _ => panic!("expected a provider error"),
    }
    let r = YoudaoTranslator::decode_one(
        Resp { error_code: Some("108".to_string()), translation: Some(strings(&["x"])) },
        Language::English,
    );
    assert!(matches!(r, Err(TranslatorError::ApiError(ApiError::Youdao { .. }))));
    let a = ApiError::Youdao { code: "202".to_string() };
    assert_eq!(a.describe(), "Youdao API Error [202]");
}

#[test]
fn truncate_at_the_border() {
    assert_eq!(truncate("12345678901234567890"), "12345678901234567890");
    assert_eq!(truncate("123456789012345678901"), "1234567890212345678901");
    assert_eq!(truncate("abcdefghijklmnopqrstuvwxyz"), "abcdefghij26qrstuvwxyz");
}

#[test]
fn truncate_counts_characters() {
    let text = "一二三四五六七八九十一二三四五六七八九十一";
    assert_eq!(truncate(text), "一二三四五六七八九十21二三四五六七八九十一");
    assert_eq!(truncate("你好世界"), "你好世界");
}

#[test]
fn decimal_values() {
    assert_eq!(decimal(0), "0");
    assert_eq!(decimal(7), "7");
    assert_eq!(decimal(1700000000), "1700000000");
    assert_eq!(decimal(u64::MAX), "18446744073709551615");
}

#[test]
fn null_field_is_no_translation() {
    let r = AlibabaTranslator::decode(200, None, Language::English);
    assert!(matches!(r, Err(TranslatorError::NoResponse)));
    let r = MyMemoryTranslator::decode(200, None, Language::English);
    assert!(matches!(r, Err(TranslatorError::NoResponse)));
    let r = decode_text_field(200, Some(String::new()), Language::English).unwrap();
    assert_eq!(r.text, "");
}

#[test]
fn text_field_is_taken_as_it_is() {
    let r = AlibabaTranslator::decode(200, Some("a\"b\nc".to_string()), Language::Chinese).unwrap();
    assert_eq!(r.text, "a\"b\nc");
    assert_eq!(r.lang, Some(Language::Chinese));
    let r = MyMemoryTranslator::decode(204, Some("null".to_string()), Language::English).unwrap();
    assert_eq!(r.text, "null");
}

#[test]
fn failing_status_is_request_failed() {
    let r = AlibabaTranslator::decode(404, Some("hello".to_string()), Language::Chinese);
    assert!(matches!(r, Err(TranslatorError::RequestFailed(404))));
    let r = MyMemoryTranslator::decode(199, None, Language::Chinese);
    assert!(matches!(r, Err(TranslatorError::RequestFailed(199))));
}

#[test]
fn provider_error_is_rejected_with_its_code() {
    let e = BaiduApiError { code: "54001".to_string(), msg: "Invalid Sign".to_string() };
    let r = BaiduTranslator::decode(Response::Failure(e));
    match r {
        Err(TranslatorError::ApiError(ApiError::Baidu { code, message })) => {
            assert_eq!(code, "54001");
            assert_eq!(message, "签名错误。\n解决方案：请检查签名生成方式。");
        }
        _ => panic!("expected a provider error"),
    }
}

#[test]
fn unknown_provider_code_has_generic_remedy() {
    let e = BaiduApiError { code: "99999".to_string(), msg: "?".to_string() };
    assert_eq!(e.solution(), "未知错误");
    let r = BaiduTranslator::decode(Response::Failure(e));
    match r {
        Err(TranslatorError::ApiError(ApiError::Baidu { code, message })) => {
            assert_eq!(code, "99999");
            assert_eq!(message, "未知错误");
        }
        _ => panic!("expected a provider error"),
    }
    let ok = BaiduApiError { code: "52000".to_string(), msg: String::new() };
    assert_eq!(ok.solution(), "成功");
}

#[test]
fn baidu_error_descriptions() {
    let e = BaiduApiError { code: "52001".to_string(), msg: "TIMEOUT".to_string() };
    assert_eq!(
        e.describe(),
        "Error code: `52001`\nError message: `TIMEOUT`\nError meaning: 请求超时。\n解决方案：请重试。\nThe above content is returned by Baidu translation API"
    );
    let a = ApiError::Baidu { code: "1".to_string(), message: "m".to_string() };
    assert_eq!(a.describe(), "Baidu API Error [1]: m");
}

#[test]
fn baidu_reply_shapes() {
    let r = Response::from_fields(
        Some("en".to_string()),
        Some(strings(&["Hello"])),
        Some("1".to_string()),
        Some("x".to_string()),
    );
    assert!(matches!(r, Some(Response::Success(_))));
    let r = Response::from_fields(None, None, Some("54003".to_string()), Some("limit".to_string()));
    match r {
        Some(Response::Failure(e)) => assert_eq!(e.code, "54003"),
        _ => panic!("expected the error shape"),
    }
    assert!(Response::from_fields(Some("en".to_string()), None, None, None).is_none());
}

#[test]
fn baidu_success_decodes_lines_and_language() {
    let v = TranslationResponse { to: "en".to_string(), trans_result: strings(&["Hello", "World"]) };
    let out = BaiduTranslator::decode(Response::Success(v)).unwrap();
    assert_eq!(out.text, "Hello\nWorld");
    assert_eq!(out.lang, Some(Language::English));

    let v = TranslationResponse { to: "xx".to_string(), trans_result: strings(&["a"]) };
    let r = BaiduTranslator::decode(Response::Success(v));
    match r {
        Err(TranslatorError::CouldNotMapLanguage(Some(code))) => assert_eq!(code, "xx"),
        _ => panic!("expected an unmapped language"),
    }
}

#[test]
fn signature_exact_value() {
    let form = Form::new("appid", "hello", "salt", "key", "en", "zh");
    assert_eq!(form.sign, "e0c380041e2578d4f0f8f1ed275b5b8f");
    assert_eq!(sha256_encode("").len(), 64);
}

#[test]
fn signature_changes_with_one_character() {
    let a = Form::new("appid", "hello", "salt", "key", "en", "zh");
    let b = Form::new("appid", "hellp", "salt", "key", "en", "zh");
    let c = Form::new("appid", "hello", "salt", "key", "en", "zh");
    assert_ne!(a.sign, b.sign);
    assert_eq!(a.sign, c.sign);
}

#[test]
fn baidu_form_for_a_request() {
    let t = BaiduTranslator::new("myapp", "secret");
    let form = t.form("你好", None, Language::English).unwrap();
    assert_eq!(form.from, "auto");
    assert_eq!(form.to, "en");
    assert_eq!(form.salt, "0");
    assert_eq!(form.appid, "myapp");
    assert_eq!(form.sign, "55d9931ccd0c3c45b43d7d1835db5b69");
    let form = t.form("hi", Some(Language::Japanese), Language::Chinese).unwrap();
    assert_eq!(form.from, "jp");
    assert_eq!(form.to, "zh");
}

#[test]
fn unmappable_language_is_an_error() {
    let t = BaiduTranslator::new("a", "b");
    let r = t.form("hi", None, Language::Abkhazian);
    assert!(matches!(r, Err(TranslatorError::UnknownLanguage(Language::Abkhazian))));
    let r = t.form("hi", Some(Language::Abkhazian), Language::English);
    assert!(matches!(r, Err(TranslatorError::UnknownLanguage(Language::Abkhazian))));
    let r = AlibabaTranslator::new().request_query("hi", Some(Language::ChineseTraditional), Language::English);
    assert!(matches!(r, Err(TranslatorError::UnknownLanguage(Language::ChineseTraditional))));
}

#[test]
fn too_long_input_is_rejected_before_anything_else() {
    let text = "a".repeat(600);
    let r = AlibabaTranslator::new().request_query(&text, Some(Language::Abkhazian), Language::English);
    assert!(matches!(r, Err(TranslatorError::RequestToLong(600, 500))));
    let r = MyMemoryTranslator::new().request_query(&text, None, Language::English);
    assert!(matches!(r, Err(TranslatorError::RequestToLong(600, 500))));
    let text = "a".repeat(500);
    assert!(MyMemoryTranslator::new().request_query(&text, None, Language::English).is_ok());
}

fn pairs(xs: &[(&str, &str)]) -> Vec<(String, String)> {
    xs.iter().map(|(n, v)| (n.to_string(), v.to_string())).collect()
}

#[test]
fn get_query_parameters() {
    let t = AlibabaTranslator::new();
    let ps = t.request_query("a&b #c+d=e%", None, Language::English).unwrap();
    assert_eq!(
        ps,
        pairs(&[("domain", "general"), ("query", "a&b #c+d=e%"), ("srcLang", "auto"), ("tgtLang", "en")])
    );
    assert_eq!(t.host, "https://translate.alibaba.com/api/translate/text");
    let t = MyMemoryTranslator::new();
    let ps = t.request_query("hi", Some(Language::French), Language::English).unwrap();
    assert_eq!(ps, pairs(&[("q", "hi"), ("langpair", "fr-FR|en-GB")]));
    let ps = t.request_query("x&y", None, Language::Japanese).unwrap();
    assert_eq!(ps, pairs(&[("q", "x&y"), ("langpair", "Autodetect|ja-JP")]));
    assert_eq!(t.host, "https://api.mymemory.translated.net/get");
}

#[test]
fn caiyun_request_body() {
    let t = CaiyunTranslator::new("tok", "rid");
    assert_eq!(t.authorization(), "token tok");
    let texts = strings(&["a", "b"]);
    let req = t.request(&texts, None, Language::English).unwrap();
    assert_eq!(req.trans_type, "auto2en");
    assert_eq!(req.detect, Some(true));
    assert_eq!(req.source, texts);
    assert_eq!(req.request_id, "rid");
    let req = t.request(&texts, Some(Language::English), Language::Japanese).unwrap();
    assert_eq!(req.trans_type, "en2ja");
    assert_eq!(req.detect, None);
    let r = t.request(&texts, None, Language::Abkhazian);
    assert!(matches!(r, Err(TranslatorError::UnknownLanguage(Language::Abkhazian))));
}

#[test]
fn single_text_of_an_empty_reply_is_no_response() {
    assert!(matches!(CaiyunTranslator::decode_one(Some(vec![]), Language::English), Err(TranslatorError::NoResponse)));
    assert!(matches!(CaiyunTranslator::decode_one(None, Language::English), Err(TranslatorError::NoResponse)));
    let o = CaiyunTranslator::decode_one(Some(strings(&["x", "y"])), Language::English).unwrap();
    assert_eq!(o.text, "x");
    assert!(matches!(YoudaoTranslator::decode_one(ok_reply(&[]), Language::English), Err(TranslatorError::NoResponse)));
    let o = YoudaoTranslator::decode_one(ok_reply(&["p/nq"]), Language::English).unwrap();
    assert_eq!(o.text, "p");
}

#[test]
fn youdao_form_is_signed_over_its_fields() {
    let t = YoudaoTranslator::new("key", "secret");
    let texts = strings(&["hello", "world"]);
    let form = t.form(&texts, None, Language::Chinese, 1700000000, 5).unwrap();
    assert_eq!(form.from, "auto");
    assert_eq!(form.to, "zh-CHS");
    assert_eq!(form.sign_type, "v3");
    assert_eq!(form.curtime, "1700000000");
    assert_eq!(form.q, "hello\nworld");
    assert_eq!(form.salt.len(), 36);
    let expected = sha256_encode(&format!("key{}{}1700000000secret", truncate("hello\nworld"), form.salt));
    assert_eq!(form.sign, expected);
    let r = t.form(&texts, Some(Language::Abkhazian), Language::Chinese, 1, 0);
    assert!(matches!(r, Err(TranslatorError::UnknownLanguage(Language::Abkhazian))));
}

#[test]
fn nonces_are_hyphenated_and_fresh() {
    let t = YoudaoTranslator::new("key", "secret");
    let a = t.nonce(1700000000, 0);
    let b = t.nonce(1700000000, 0);
    assert_eq!(a.len(), 36);
    assert_eq!(a.matches('-').count(), 4);
    assert_eq!(&a[14..15], "1");
    assert_eq!(&a[24..], hex::encode(t.mac));
    assert_ne!(a, b);
}

#[test]
fn sha256_exact_value() {
    assert_eq!(
        sha256_encode("hello"),
        "2cf24dba5fb0a30e26e83b2ac5b9e29e1b161e5c1fa7425e73043362938b9824"
    );
}

#[test]
fn node_id_is_locally_administered() {
    let id = local_node_id([0xff, 1, 2, 3, 4, 5]);
    assert_eq!(id, [0xfe, 1, 2, 3, 4, 5]);
    let id = local_node_id([0x00, 9, 9, 9, 9, 9]);
    assert_eq!(id, [0x02, 9, 9, 9, 9, 9]);
    let t = YoudaoTranslator::new("k", "s");
    assert_eq!(t.mac[0] & 3, 2);
}

#[test]
fn unknown_provider_name_is_rejected() {
    let r = TranslatorFactory::create_from_name("deepl", "a", "b");
    match r {
        Err(TranslatorError::UnrecognizedProvider(name)) => assert_eq!(name, "deepl"),
        _ => panic!("expected an unrecognized provider"),
    }
    assert!(TranslatorFactory::create_from_name("", "a", "b").is_err());
}

#[test]
fn provider_names_in_any_case() {
    let t = TranslatorFactory::create_from_name("ALI", "", "").unwrap();
    assert_eq!(t.kind(), TranslatorType::Alibaba);
    let t = TranslatorFactory::create_from_name("My Memory", "", "").unwrap();
    assert_eq!(t.kind(), TranslatorType::MyMemory);
    let t = TranslatorFactory::create_from_name("Baidu", "id", "key").unwrap();
    match t {
        Translator::Baidu(b) => {
            assert_eq!(b.app_id, "id");
            assert_eq!(b.key, "key");
        }
        _ => panic!("expected Baidu"),
    }
    assert_eq!(TranslatorType::from_lowercase("my-memory"), Some(TranslatorType::MyMemory));
    assert_eq!(TranslatorType::from_lowercase("Baidu"), None);
}

#[test]
fn missing_credentials_name_the_setting() {
    let r = TranslatorFactory::create_from_settings(TranslatorType::Baidu, None, None);
    match r {
        Err(TranslatorError::MissingCredentials(n)) => assert_eq!(n, "BAIDU_APP_ID"),
        _ => panic!("expected missing credentials"),
    }
    let r = TranslatorFactory::create_from_settings(TranslatorType::Youdao, Some("k".to_string()), None);
    match r {
        Err(TranslatorError::MissingCredentials(n)) => assert_eq!(n, "YOUDAO_APP_SECRET"),
        _ => panic!("expected missing credentials"),
    }
    let r = TranslatorFactory::create_from_settings(TranslatorType::Caiyun, Some("tok".to_string()), None).unwrap();
    match r {
        Translator::Caiyun(c) => assert_eq!(c.request_id, "demo"),
        _ => panic!("expected Caiyun"),
    }
    assert!(TranslatorFactory::create_from_settings(TranslatorType::MyMemory, None, None).is_ok());
    assert_eq!(TranslatorType::Baidu.setting_names(), (Some("BAIDU_APP_ID"), Some("BAIDU_KEY")));
    assert_eq!(TranslatorType::Alibaba.setting_names(), (None, None));
}
