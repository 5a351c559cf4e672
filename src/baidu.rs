//! Baidu's translation API: a form POST signed with an MD5 digest of the app id, the text, a
//! salt and the key.
use vstd::prelude::*;

use crate::digest::{hex_encode, hex_of, is_lower_hex_digit, lemma_hex_of, md5_digest, md5_of};
use crate::error::{ApiError, TranslatorError};
use crate::language::{baidu_code, baidu_language, Language};
use crate::output::{split_output, TranslationListOutput, TranslationOutput};
use crate::text::{clean_part, join, joined, lemma_split_joined, split_on, str_eq, views};

verus! {

/// What the signature is the digest of: the app id, the text, the salt and the key, in turn.
pub open spec fn sign_input(appid: Seq<char>, q: Seq<char>, salt: Seq<char>, key: Seq<char>) -> Seq<
    char,
> {
    appid + q + salt + key
}

/// The signature of a request: the MD5 digest of its signing input, in lower-case hex.
pub open spec fn signature(appid: Seq<char>, q: Seq<char>, salt: Seq<char>, key: Seq<char>) -> Seq<
    char,
> {
    hex_of(md5_of(sign_input(appid, q, salt, key)))
}

/// The signature is a function of the signing inputs: equal inputs give equal signatures.
pub proof fn lemma_signature_deterministic(
    appid: Seq<char>,
    q1: Seq<char>,
    q2: Seq<char>,
    salt: Seq<char>,
    key: Seq<char>,
)
    requires
        q1 == q2,
    ensures
        signature(appid, q1, salt, key) == signature(appid, q2, salt, key),
{
}

/// Two texts that differ in any character give different signing inputs, for the same app id,
/// salt and key: the digest is never handed two equal inputs for two texts.
pub proof fn lemma_sign_input_distinguishes_texts(
    appid: Seq<char>,
    q1: Seq<char>,
    q2: Seq<char>,
    salt: Seq<char>,
    key: Seq<char>,
)
    requires
        q1 != q2,
    ensures
        sign_input(appid, q1, salt, key) != sign_input(appid, q2, salt, key),
{
    let s1 = sign_input(appid, q1, salt, key);
    let s2 = sign_input(appid, q2, salt, key);
    if s1 == s2 {
        assert(s1.len() == appid.len() + q1.len() + salt.len() + key.len());
        assert(s2.len() == appid.len() + q2.len() + salt.len() + key.len());
        assert(q1.len() == q2.len());
        assert(s1 =~= appid + q1 + (salt + key));
        assert(s2 =~= appid + q2 + (salt + key));
        assert(s1.subrange(appid.len() as int, (appid.len() + q1.len()) as int) =~= q1);
        assert(s2.subrange(appid.len() as int, (appid.len() + q2.len()) as int) =~= q2);
    }
}

/// The remedy that Baidu documents for an error code; a generic entry for a code it does not list.
pub open spec fn solution_of(code: Seq<char>) -> Seq<char> {
    if code == "52000"@ {
        "成功"@
    } else if code == "52001"@ {
        "请求超时。\n解决方案：请重试。"@
    } else if code == "52002"@ {
        "系统错误。\n解决方案：请重试。"@
    } else if code == "52003"@ {
        "未授权用户。\n解决方案：请检查appid是否正确或服务是否已开通。"@
    } else if code == "54000"@ {
        "必填参数为空。\n解决方案：请检查是否传递了所有必要参数。"@
    } else if code == "54001"@ {
        "签名错误。\n解决方案：请检查签名生成方式。"@
    } else if code == "54003"@ {
        "访问频率受限。\n解决方案：请降低调用频率，或通过认证后切换到高级版本。"@
    } else if code == "54004"@ {
        "账户余额不足。\n解决方案：请前往管理控制台充值。"@
    } else if code == "54005"@ {
        "长查询请求过于频繁。\n解决方案：请降低长查询的发送频率，3秒后重试。"@
    } else if code == "58000"@ {
        "客户端IP非法。\n解决方案：检查个人信息中填写的IP地址是否正确，可前往开发者信息-基本信息进行修改。"@
    } else if code == "58001"@ {
        "目标语言方向不支持。\n解决方案：检查目标语言是否在语言列表中。"@
    } else if code == "58002"@ {
        "服务目前已下线。\n解决方案：请前往管理控制台开启服务。"@
    } else if code == "58003"@ {
        "如果同一IP在同一天使用多个APPID发送翻译请求，该IP将在当日剩余时间内被禁止请求，次日解封。请勿将APPID和密钥输入第三方软件。"@
    } else if code == "90107"@ {
        "认证未通过或已失效。\n解决方案：请前往我的认证查看认证进度。"@
    } else if code == "20003"@ {
        "请检查请求文本是否涉及颠覆、暴力或类似主题相关内容。"@
    } else {
        "未知错误"@
    }
}

/// The form that a request posts.
#[derive(Debug)]
pub struct Form {
    /// The text to translate.
    pub q: String,
    /// The source language's code, or `auto`.
    pub from: String,
    /// The target language's code.
    pub to: String,
    /// The app id.
    pub appid: String,
    /// The salt.
    pub salt: String,
    /// The signature.
    pub sign: String,
}

impl Form {
    /// A form with its signature computed from the app id, text, salt and key.
    pub fn new(appid: &str, q: &str, salt: &str, key: &str, from: &str, to: &str) -> (r: Self)
        ensures
            r.q@ == q@,
            r.from@ == from@,
            r.to@ == to@,
            r.appid@ == appid@,
            r.salt@ == salt@,
            r.sign@ == signature(appid@, q@, salt@, key@),
            r.sign@.len() == 32,
            forall|i: int| 0 <= i < 32 ==> is_lower_hex_digit(#[trigger] r.sign@[i]),
    {
        let mut data = appid.to_owned();
        data.append(q);
        data.append(salt);
        data.append(key);
        let digest = md5_digest(data.as_str());
        proof {
            lemma_hex_of(digest@);
        }
        let sign = hex_encode(&digest);
        Form {
            q: q.to_owned(),
            from: from.to_owned(),
            to: to.to_owned(),
            appid: appid.to_owned(),
            salt: salt.to_owned(),
            sign,
        }
    }
}

/// An error that Baidu reported: its code and its message.
#[derive(Debug, Clone)]
pub struct BaiduApiError {
    /// The error code, a number in text.
    pub code: String,
    /// Baidu's message.
    pub msg: String,
}

impl BaiduApiError {
    /// What the code means and what to do about it.
    pub fn solution(&self) -> (r: &'static str)
        ensures
            r@ == solution_of(self.code@),
    {
        let code = self.code.as_str();
        if str_eq(code, "52000") {
            return "成功";
        }
        if str_eq(code, "52001") {
            return "请求超时。\n解决方案：请重试。";
        }
        if str_eq(code, "52002") {
            return "系统错误。\n解决方案：请重试。";
        }
        if str_eq(code, "52003") {
            return "未授权用户。\n解决方案：请检查appid是否正确或服务是否已开通。";
        }
        if str_eq(code, "54000") {
            return "必填参数为空。\n解决方案：请检查是否传递了所有必要参数。";
        }
        if str_eq(code, "54001") {
            return "签名错误。\n解决方案：请检查签名生成方式。";
        }
        if str_eq(code, "54003") {
            return "访问频率受限。\n解决方案：请降低调用频率，或通过认证后切换到高级版本。";
        }
        if str_eq(code, "54004") {
            return "账户余额不足。\n解决方案：请前往管理控制台充值。";
        }
        if str_eq(code, "54005") {
            return "长查询请求过于频繁。\n解决方案：请降低长查询的发送频率，3秒后重试。";
        }
        if str_eq(code, "58000") {
            return "客户端IP非法。\n解决方案：检查个人信息中填写的IP地址是否正确，可前往开发者信息-基本信息进行修改。";
        }
        if str_eq(code, "58001") {
            return "目标语言方向不支持。\n解决方案：检查目标语言是否在语言列表中。";
        }
        if str_eq(code, "58002") {
            return "服务目前已下线。\n解决方案：请前往管理控制台开启服务。";
        }
        if str_eq(code, "58003") {
            return "如果同一IP在同一天使用多个APPID发送翻译请求，该IP将在当日剩余时间内被禁止请求，次日解封。请勿将APPID和密钥输入第三方软件。";
        }
        if str_eq(code, "90107") {
            return "认证未通过或已失效。\n解决方案：请前往我的认证查看认证进度。";
        }
        if str_eq(code, "20003") {
            return "请检查请求文本是否涉及颠覆、暴力或类似主题相关内容。";
        }
        "未知错误"
    }

    /// The code, the message and their meaning, in a few lines.
    pub fn describe(&self) -> (r: String)
        ensures
            r@ == "Error code: `"@ + self.code@ + "`\nError message: `"@ + self.msg@
                + "`\nError meaning: "@ + solution_of(self.code@)
                + "\nThe above content is returned by Baidu translation API"@,
    {
        let mut r = "Error code: `".to_owned();
        r.append(self.code.as_str());
        r.append("`\nError message: `");
        r.append(self.msg.as_str());
        r.append("`\nError meaning: ");
        r.append(self.solution());
        r.append("\nThe above content is returned by Baidu translation API");
        r
    }
}

/// A successful reply: the target language's code and the translated sentences.
#[derive(Debug)]
pub struct TranslationResponse {
    /// The target language's code.
    pub to: String,
    /// The `dst` of each sentence, in order.
    pub trans_result: Vec<String>,
}

/// A reply: the success shape, or the error shape.
#[derive(Debug)]
pub enum Response {
    Success(TranslationResponse),
    Failure(BaiduApiError),
}

impl Response {
    /// Reads a reply from its fields: the success shape when both of its fields are there,
    /// else the error shape when both of its fields are there, else nothing.
    pub fn from_fields(
        to: Option<String>,
        trans_result: Option<Vec<String>>,
        error_code: Option<String>,
        error_msg: Option<String>,
    ) -> (r: Option<Response>)
        ensures
            to is Some && trans_result is Some ==> r == Some(
                Response::Success(TranslationResponse { to: to->0, trans_result: trans_result->0 }),
            ),
            !(to is Some && trans_result is Some) && error_code is Some && error_msg is Some ==> r
                == Some(Response::Failure(BaiduApiError { code: error_code->0, msg: error_msg->0 })),
            !(to is Some && trans_result is Some) && !(error_code is Some && error_msg is Some)
                ==> r is None,
    {
        match (to, trans_result) {
            (Some(to), Some(trans_result)) => Some(Response::Success(TranslationResponse { to, trans_result })),
            _ => match (error_code, error_msg) {
                (Some(code), Some(msg)) => Some(Response::Failure(BaiduApiError { code, msg })),
                _ => None,
            },
        }
    }
}

/// A batch whose joined text comes back unchanged is cut back into the same texts, as many
/// and in the same order, as long as no text holds a newline.
pub proof fn lemma_batch_round_trip(texts: Seq<Seq<char>>)
    requires
        texts.len() > 0,
        forall|i: int| 0 <= i < texts.len() ==> clean_part(#[trigger] texts[i], "\n"@),
    ensures
        split_on(joined(texts, "\n"@), "\n"@) == texts,
{
    reveal_strlit("\n");
    lemma_split_joined(texts, "\n"@);
}

/// The source-language part of a request: the language's code, or `auto` to detect it.
pub open spec fn baidu_source(from: Option<Language>) -> Option<Seq<char>> {
    match from {
        Some(l) => baidu_code(l),
        None => Some("auto"@),
    }
}

/// The translator of Baidu's API, with its credentials.
pub struct BaiduTranslator {
    /// The address of the API.
    pub url: String,
    /// The app id.
    pub app_id: String,
    /// The secret key.
    pub key: String,
}

impl BaiduTranslator {
    /// A translator with the given credentials.
    pub fn new(app_id: &str, key: &str) -> (r: Self)
        ensures
            r.url@ == "https://fanyi-api.baidu.com/api/trans/vip/translate"@,
            r.app_id@ == app_id@,
            r.key@ == key@,
    {
        BaiduTranslator {
            url: "https://fanyi-api.baidu.com/api/trans/vip/translate".to_owned(),
            app_id: app_id.to_owned(),
            key: key.to_owned(),
        }
    }

    /// Needs the network.
    pub fn local(&self) -> (r: bool)
        ensures
            !r,
    {
        false
    }

    /// The form to post for a translation of `query`, with salt `0`: the target language is
    /// checked first, then the source language.
    pub fn form(&self, query: &str, from: Option<Language>, to: Language) -> (r: Result<
        Form,
        TranslatorError,
    >)
        ensures
            baidu_code(to) is None ==> r == Err::<Form, TranslatorError>(
                TranslatorError::UnknownLanguage(to),
            ),
            baidu_code(to) is Some && baidu_source(from) is None ==> r == Err::<Form, TranslatorError>(
                TranslatorError::UnknownLanguage(from->0),
            ),
            baidu_code(to) is Some && baidu_source(from) is Some ==> (r matches Ok(f) && f.q@ == query@
                && f.from@ == baidu_source(from)->0 && f.to@ == baidu_code(to)->0 && f.appid@
                == self.app_id@ && f.salt@ == "0"@ && f.sign@ == signature(
                self.app_id@,
                query@,
                "0"@,
                self.key@,
            )),
    {
        let tgt = match to.to_baidu() {
            Some(c) => c,
            None => return Err(TranslatorError::UnknownLanguage(to)),
        };
        let src = match from {
            Some(l) => match l.to_baidu() {
                Some(c) => c,
                None => return Err(TranslatorError::UnknownLanguage(l)),
            },
            None => "auto",
        };
        Ok(Form::new(self.app_id.as_str(), query, "0", self.key.as_str(), src, tgt))
    }

    /// The translation in a reply: the sentences joined by newlines, in the language that the
    /// reply names; or the error that Baidu reported, with its remedy.
    pub fn decode(resp: Response) -> (r: Result<TranslationOutput, TranslatorError>)
        ensures
            resp matches Response::Success(v) ==> match baidu_language(v.to@) {
                Some(l) => r matches Ok(o) && o.text@ == joined(views(v.trans_result@), "\n"@)
                    && o.lang == Some(l),
                None => r matches Err(TranslatorError::CouldNotMapLanguage(Some(t))) && t == v.to,
            },
            resp matches Response::Failure(e) ==> (r matches Err(
                TranslatorError::ApiError(ApiError::Baidu { code, message }),
            ) && code == e.code && message@ == solution_of(e.code@)),
    {
        match resp {
            Response::Success(v) => {
                let text = join(v.trans_result.as_slice(), "\n");
                match Language::from_baidu(v.to.as_str()) {
                    Some(l) => Ok(TranslationOutput { text, lang: Some(l) }),
                    None => Err(TranslatorError::CouldNotMapLanguage(Some(v.to))),
                }
            },
            Response::Failure(e) => {
                let message = e.solution().to_owned();
                Err(TranslatorError::ApiError(ApiError::Baidu { message, code: e.code }))
            },
        }
    }

    /// The one text that stands for several: the texts joined by newlines.
    pub fn batch_query(query: &[String]) -> (r: String)
        ensures
            r@ == joined(views(query@), "\n"@),
    {
        join(query, "\n")
    }

    /// The translations of several texts, cut at the newlines of their joined translation.
    pub fn split_batch(t: TranslationOutput) -> (r: TranslationListOutput)
        ensures
            views(r.text@) == split_on(t.text@, "\n"@),
            r.lang == t.lang,
    {
        proof {
            reveal_strlit("\n");
        }
        split_output(t, "\n")
    }
}

} // verus!
