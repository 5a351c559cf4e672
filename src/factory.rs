//! Choosing a provider: its names, its credentials, and the translator built from them.
use vstd::prelude::*;

use crate::alibaba::AlibabaTranslator;
use crate::baidu::BaiduTranslator;
use crate::caiyun::CaiyunTranslator;
use crate::error::TranslatorError;
use crate::language::{
    baidu_code, baidu_language, code_view, caiyun_code, caiyun_language, lemma_baidu_codes_distinct,
    lemma_caiyun_codes_distinct, lemma_mymemory_codes_distinct,
    lemma_mymemory_short_codes_distinct, lemma_youdao_codes_distinct, mymemory_code,
    mymemory_language, mymemory_short_code, mymemory_short_language, youdao_code,
    youdao_language, Language,
};
use crate::mymemory::MyMemoryTranslator;
use crate::text::str_eq;
use crate::youdao::YoudaoTranslator;

verus! {

/// The text in lower case, as `str::to_lowercase` gives it.
pub uninterp spec fn lower_of(s: Seq<char>) -> Seq<char>;

/// Relies on str::to_lowercase: the result depends on the characters alone.
#[verifier::external_body]
fn lowercase(s: &str) -> (r: String)
    ensures
        r@ == lower_of(s@),
{
    s.to_lowercase()
}

/// The providers.
#[derive(Debug, Clone, Copy, PartialEq, Eq, Structural)]
pub enum TranslatorType {
    Baidu,
    Youdao,
    Alibaba,
    Caiyun,
    MyMemory,
}

/// The provider that a lower-case name stands for, aliases included.
pub open spec fn type_of_name(s: Seq<char>) -> Option<TranslatorType> {
    if s == "baidu"@ {
        Some(TranslatorType::Baidu)
    } else if s == "youdao"@ {
        Some(TranslatorType::Youdao)
    } else if s == "alibaba"@ || s == "ali"@ {
        Some(TranslatorType::Alibaba)
    } else if s == "caiyun"@ || s == "彩云"@ {
        Some(TranslatorType::Caiyun)
    } else if s == "mymemory"@ || s == "my-memory"@ || s == "my memory"@ {
        Some(TranslatorType::MyMemory)
    } else {
        None
    }
}

/// The canonical name of a provider.
pub open spec fn name_of(t: TranslatorType) -> Seq<char> {
    match t {
        TranslatorType::Baidu => "baidu"@,
        TranslatorType::Youdao => "youdao"@,
        TranslatorType::Alibaba => "alibaba"@,
        TranslatorType::Caiyun => "caiyun"@,
        TranslatorType::MyMemory => "mymemory"@,
    }
}

impl TranslatorType {
    /// The provider that a name already in lower case stands for.
    pub fn from_lowercase(name: &str) -> (r: Option<Self>)
        ensures
            r == type_of_name(name@),
    {
        if str_eq(name, "baidu") {
            Some(TranslatorType::Baidu)
        } else if str_eq(name, "youdao") {
            Some(TranslatorType::Youdao)
        } else if str_eq(name, "alibaba") || str_eq(name, "ali") {
            Some(TranslatorType::Alibaba)
        } else if str_eq(name, "caiyun") || str_eq(name, "彩云") {
            Some(TranslatorType::Caiyun)
        } else if str_eq(name, "mymemory") || str_eq(name, "my-memory") || str_eq(name, "my memory") {
            Some(TranslatorType::MyMemory)
        } else {
            None
        }
    }

    /// The provider that a name stands for, in any case.
    pub fn parse(s: &str) -> (r: Option<Self>)
        ensures
            r == type_of_name(lower_of(s@)),
    {
        let lower = lowercase(s);
        Self::from_lowercase(lower.as_str())
    }

    /// The names of the settings that hold this provider's two secrets, where it needs them.
    pub fn setting_names(&self) -> (r: (Option<&'static str>, Option<&'static str>))
        ensures
            code_pair(r) == setting_names(*self),
    {
        match self {
            TranslatorType::Baidu => (Some("BAIDU_APP_ID"), Some("BAIDU_KEY")),
            TranslatorType::Youdao => (Some("YOUDAO_APP_KEY"), Some("YOUDAO_APP_SECRET")),
            TranslatorType::Caiyun => (Some("CAIYUN_TOKEN"), Some("CAIYUN_REQUEST_ID")),
            _ => (None, None),
        }
    }

    /// The canonical name.
    pub fn as_str(&self) -> (r: &'static str)
        ensures
            r@ == name_of(*self),
    {
        match self {
            TranslatorType::Baidu => "baidu",
            TranslatorType::Youdao => "youdao",
            TranslatorType::Alibaba => "alibaba",
            TranslatorType::Caiyun => "caiyun",
            TranslatorType::MyMemory => "mymemory",
        }
    }
}

impl std::str::FromStr for TranslatorType {
    type Err = ();

    fn from_str(s: &str) -> (r: Result<Self, ()>)
        ensures
            type_of_name(lower_of(s@)) is Some ==> r == Ok::<Self, ()>(
                type_of_name(lower_of(s@))->0,
            ),
            type_of_name(lower_of(s@)) is None ==> r == Err::<Self, ()>(()),
    {
        match Self::parse(s) {
            Some(t) => Ok(t),
            None => Err(()),
        }
    }
}

/// The wire code of a language in the vocabulary of a provider (Alibaba uses the short
/// MyMemory codes).
pub open spec fn wire_code(l: Language, t: TranslatorType) -> Option<Seq<char>> {
    match t {
        TranslatorType::Baidu => baidu_code(l),
        TranslatorType::Youdao => youdao_code(l),
        TranslatorType::Alibaba => mymemory_short_code(l),
        TranslatorType::Caiyun => caiyun_code(l),
        TranslatorType::MyMemory => mymemory_code(l),
    }
}

/// The language that a provider's wire code stands for, as the decoding functions of
/// `Language` give it.
pub open spec fn language_of_code(s: Seq<char>, t: TranslatorType) -> Option<Language> {
    match t {
        TranslatorType::Baidu => baidu_language(s),
        TranslatorType::Youdao => youdao_language(s),
        TranslatorType::Alibaba => mymemory_short_language(s),
        TranslatorType::Caiyun => caiyun_language(s),
        TranslatorType::MyMemory => mymemory_language(s),
    }
}

/// For every language that a provider supports, decoding the wire code that encoding gave
/// yields the same language.
pub proof fn lemma_wire_code_round_trip(l: Language, t: TranslatorType)
    requires
        wire_code(l, t) is Some,
    ensures
        language_of_code(wire_code(l, t)->0, t) == Some(l),
{
    let s = wire_code(l, t)->0;
    match t {
        TranslatorType::Baidu => {
            lemma_baidu_codes_distinct();
            assert(baidu_code(l) == Some(s));
        },
        TranslatorType::Youdao => {
            lemma_youdao_codes_distinct();
            assert(youdao_code(l) == Some(s));
        },
        TranslatorType::Alibaba => {
            lemma_mymemory_short_codes_distinct();
            assert(mymemory_short_code(l) == Some(s));
        },
        TranslatorType::Caiyun => {
            lemma_caiyun_codes_distinct();
            assert(caiyun_code(l) == Some(s));
        },
        TranslatorType::MyMemory => {
            lemma_mymemory_codes_distinct();
            assert(mymemory_code(l) == Some(s));
        },
    }
}

/// The credentials of each provider.
#[derive(Debug, Clone)]
pub enum TranslatorConfig {
    Baidu { app_id: String, key: String },
    Youdao { app_key: String, app_secret: String },
    Alibaba { token: String },
    Caiyun { token: String, request_id: String },
    MyMemory,
}

/// A translator of one of the providers.
pub enum Translator {
    Baidu(BaiduTranslator),
    Youdao(YoudaoTranslator),
    Alibaba(AlibabaTranslator),
    Caiyun(CaiyunTranslator),
    MyMemory(MyMemoryTranslator),
}

/// The provider of a translator.
pub open spec fn kind_of(t: Translator) -> TranslatorType {
    match t {
        Translator::Baidu(_) => TranslatorType::Baidu,
        Translator::Youdao(_) => TranslatorType::Youdao,
        Translator::Alibaba(_) => TranslatorType::Alibaba,
        Translator::Caiyun(_) => TranslatorType::Caiyun,
        Translator::MyMemory(_) => TranslatorType::MyMemory,
    }
}

/// The translator holds the credentials given: for the first secret, Baidu's app id,
/// Youdao's app key or Caiyun's token; for the second, Baidu's key, Youdao's secret or
/// Caiyun's request id. Alibaba and MyMemory take none.
pub open spec fn holds_credentials(t: Translator, first: Seq<char>, second: Seq<char>) -> bool {
    match t {
        Translator::Baidu(b) => b.app_id@ == first && b.key@ == second,
        Translator::Youdao(y) => y.app_key@ == first && y.app_secret@ == second,
        Translator::Caiyun(c) => c.token@ == first && c.request_id@ == second,
        Translator::Alibaba(a) => a.input_limit == 500,
        Translator::MyMemory(m) => m.input_limit == 500,
    }
}

impl Translator {
    /// True only for a translator that needs no network; none of these does.
    pub fn local(&self) -> (r: bool)
        ensures
            !r,
    {
        false
    }

    /// The provider.
    pub fn kind(&self) -> (r: TranslatorType)
        ensures
            r == kind_of(*self),
    {
        match self {
            Translator::Baidu(_) => TranslatorType::Baidu,
            Translator::Youdao(_) => TranslatorType::Youdao,
            Translator::Alibaba(_) => TranslatorType::Alibaba,
            Translator::Caiyun(_) => TranslatorType::Caiyun,
            Translator::MyMemory(_) => TranslatorType::MyMemory,
        }
    }
}

/// The names of the settings that hold a provider's two secrets, where it needs them.
pub open spec fn setting_names(t: TranslatorType) -> (Option<Seq<char>>, Option<Seq<char>>) {
    match t {
        TranslatorType::Baidu => (Some("BAIDU_APP_ID"@), Some("BAIDU_KEY"@)),
        TranslatorType::Youdao => (Some("YOUDAO_APP_KEY"@), Some("YOUDAO_APP_SECRET"@)),
        TranslatorType::Caiyun => (Some("CAIYUN_TOKEN"@), Some("CAIYUN_REQUEST_ID"@)),
        _ => (None, None),
    }
}

/// The views of a pair of optional static strings.
pub open spec fn code_pair(r: (Option<&str>, Option<&str>)) -> (Option<Seq<char>>, Option<Seq<char>>) {
    (code_view(r.0), code_view(r.1))
}

/// Builds translators.
pub struct TranslatorFactory;

impl TranslatorFactory {
    /// The translator that the credentials are for.
    pub fn create(config: TranslatorConfig) -> (r: Translator)
        ensures
            match config {
                TranslatorConfig::Baidu { app_id, key } => kind_of(r) == TranslatorType::Baidu
                    && holds_credentials(r, app_id@, key@),
                TranslatorConfig::Youdao { app_key, app_secret } => kind_of(r)
                    == TranslatorType::Youdao && holds_credentials(r, app_key@, app_secret@),
                TranslatorConfig::Alibaba { .. } => kind_of(r) == TranslatorType::Alibaba
                    && holds_credentials(r, Seq::empty(), Seq::empty()),
                TranslatorConfig::Caiyun { token, request_id } => kind_of(r)
                    == TranslatorType::Caiyun && holds_credentials(r, token@, request_id@),
                TranslatorConfig::MyMemory => kind_of(r) == TranslatorType::MyMemory
                    && holds_credentials(r, Seq::empty(), Seq::empty()),
            },
    {
        match config {
            TranslatorConfig::Baidu { app_id, key } => Translator::Baidu(
                BaiduTranslator::new(app_id.as_str(), key.as_str()),
            ),
            TranslatorConfig::Youdao { app_key, app_secret } => Translator::Youdao(
                YoudaoTranslator::new(app_key.as_str(), app_secret.as_str()),
            ),
            TranslatorConfig::Alibaba { .. } => Translator::Alibaba(AlibabaTranslator::new()),
            TranslatorConfig::Caiyun { token, request_id } => Translator::Caiyun(
                CaiyunTranslator::new(token.as_str(), request_id.as_str()),
            ),
            TranslatorConfig::MyMemory => Translator::MyMemory(MyMemoryTranslator::new()),
        }
    }

    /// The translator of a provider, with up to two secrets (see `holds_credentials`).
    pub fn create_from_type(translator_type: TranslatorType, app_id: &str, secret: &str) -> (r:
        Translator)
        ensures
            kind_of(r) == translator_type,
            holds_credentials(r, app_id@, secret@),
    {
        match translator_type {
            TranslatorType::Baidu => Translator::Baidu(BaiduTranslator::new(app_id, secret)),
            TranslatorType::Youdao => Translator::Youdao(YoudaoTranslator::new(app_id, secret)),
            TranslatorType::Alibaba => Translator::Alibaba(AlibabaTranslator::new()),
            TranslatorType::Caiyun => Translator::Caiyun(CaiyunTranslator::new(app_id, secret)),
            TranslatorType::MyMemory => Translator::MyMemory(MyMemoryTranslator::new()),
        }
    }

    /// The translator of the provider that a name stands for, in any case; a name that no
    /// provider goes by is an error, and nothing is built.
    pub fn create_from_name(name: &str, app_id: &str, secret: &str) -> (r: Result<
        Translator,
        TranslatorError,
    >)
        ensures
            type_of_name(lower_of(name@)) is None ==> (r matches Err(
                TranslatorError::UnrecognizedProvider(n),
            ) && n@ == name@),
            type_of_name(lower_of(name@)) is Some ==> (r matches Ok(t) && kind_of(t)
                == type_of_name(lower_of(name@))->0 && holds_credentials(t, app_id@, secret@)),
    {
        match TranslatorType::parse(name) {
            Some(t) => Ok(Self::create_from_type(t, app_id, secret)),
            None => Err(TranslatorError::UnrecognizedProvider(name.to_owned())),
        }
    }

    /// The translator of a provider from the values of its settings (see `setting_names`),
    /// where present. A missing secret is an error that names its setting; Caiyun's request
    /// id falls back to `demo`.
    pub fn create_from_settings(
        translator_type: TranslatorType,
        first: Option<String>,
        second: Option<String>,
    ) -> (r: Result<Translator, TranslatorError>)
        ensures
            setting_names(translator_type).0 is Some && first is None ==> (r matches Err(
                TranslatorError::MissingCredentials(n),
            ) && n@ == setting_names(translator_type).0->0),
            (translator_type == TranslatorType::Baidu || translator_type == TranslatorType::Youdao)
                && first is Some && second is None ==> (r matches Err(
                TranslatorError::MissingCredentials(n),
            ) && n@ == setting_names(translator_type).1->0),
            (translator_type == TranslatorType::Baidu || translator_type == TranslatorType::Youdao)
                && first is Some && second is Some ==> (r matches Ok(t) && kind_of(t)
                == translator_type && holds_credentials(t, first->0@, second->0@)),
            translator_type == TranslatorType::Caiyun && first is Some ==> (r matches Ok(t)
                && kind_of(t) == translator_type && holds_credentials(
                t,
                first->0@,
                match second {
                    Some(s) => s@,
                    None => "demo"@,
                },
            )),
            (translator_type == TranslatorType::Alibaba || translator_type
                == TranslatorType::MyMemory) ==> (r matches Ok(t) && kind_of(t) == translator_type
                && holds_credentials(t, Seq::empty(), Seq::empty())),
    {
        match translator_type {
            TranslatorType::Baidu => {
                let app_id = match first {
                    Some(v) => v,
                    None => return Err(TranslatorError::MissingCredentials("BAIDU_APP_ID".to_owned())),
                };
                let key = match second {
                    Some(v) => v,
                    None => return Err(TranslatorError::MissingCredentials("BAIDU_KEY".to_owned())),
                };
                Ok(Translator::Baidu(BaiduTranslator::new(app_id.as_str(), key.as_str())))
            },
            TranslatorType::Youdao => {
                let app_key = match first {
                    Some(v) => v,
                    None => return Err(
                        TranslatorError::MissingCredentials("YOUDAO_APP_KEY".to_owned()),
                    ),
                };
                let app_secret = match second {
                    Some(v) => v,
                    None => return Err(
                        TranslatorError::MissingCredentials("YOUDAO_APP_SECRET".to_owned()),
                    ),
                };
                Ok(Translator::Youdao(YoudaoTranslator::new(app_key.as_str(), app_secret.as_str())))
            },
            TranslatorType::Alibaba => Ok(Translator::Alibaba(AlibabaTranslator::new())),
            TranslatorType::Caiyun => {
                let token = match first {
                    Some(v) => v,
                    None => return Err(TranslatorError::MissingCredentials("CAIYUN_TOKEN".to_owned())),
                };
                let request_id = match second {
                    Some(v) => v,
                    None => "demo".to_owned(),
                };
                Ok(Translator::Caiyun(CaiyunTranslator::new(token.as_str(), request_id.as_str())))
            },
            TranslatorType::MyMemory => Ok(Translator::MyMemory(MyMemoryTranslator::new())),
        }
    }
}

} // verus!
