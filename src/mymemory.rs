//! MyMemory: a free service, a GET with the text and the language pair in the query string.
use vstd::prelude::*;

pub use crate::alibaba::input_limit_checker;
use crate::alibaba::{batch_delimiter, reported_len};
use crate::error::TranslatorError;
use crate::language::{mymemory_code, Language};
use crate::output::{decode_text_field, is_success, pair, pair_views, split_output, TranslationListOutput, TranslationOutput};
use crate::text::{join, joined, split_on, views};

verus! {

/// The source-language part of a request: the language's code, or `Autodetect`.
pub open spec fn mymemory_source(from: Option<Language>) -> Option<Seq<char>> {
    match from {
        Some(l) => mymemory_code(l),
        None => Some("Autodetect"@),
    }
}

fn query_pairs(query: &str, src: &str, tgt: &str) -> (r: Vec<(String, String)>)
    ensures
        pair_views(r@) == seq![("q"@, query@), ("langpair"@, src@ + "|"@ + tgt@)],
{
    let mut langpair = src.to_owned();
    langpair.append("|");
    langpair.append(tgt);
    let ps = vec![pair("q", query), pair("langpair", langpair.as_str())];
    assert(pair_views(ps@) =~= seq![("q"@, query@), ("langpair"@, src@ + "|"@ + tgt@)]);
    ps
}

/// The translator of the MyMemory service.
pub struct MyMemoryTranslator {
    /// The longest text, in bytes, that one request may carry.
    pub input_limit: u32,
    /// The address of the service.
    pub host: String,
}

impl MyMemoryTranslator {
    /// A translator with the service's address and its limit of 500 bytes.
    pub fn new() -> (r: Self)
        ensures
            r.input_limit == 500,
            r.host@ == "https://api.mymemory.translated.net/get"@,
    {
        MyMemoryTranslator { input_limit: 500, host: "https://api.mymemory.translated.net/get".to_owned() }
    }

    /// Needs the network.
    pub fn local(&self) -> (r: bool)
        ensures
            !r,
    {
        false
    }

    /// The referer that the service asks requests to carry.
    pub fn referer(&self) -> (r: &'static str)
        ensures
            r@ == "https://mymemory.translated.net"@,
    {
        "https://mymemory.translated.net"
    }

    /// The query parameters to GET from `host` for a translation of `query`, as names and
    /// raw values (the HTTP client encodes them): the length is checked first, then the source
    /// language, then the target language.
    pub fn request_query(&self, query: &str, from: Option<Language>, to: Language) -> (r: Result<
        Vec<(String, String)>,
        TranslatorError,
    >)
        ensures
            query.len() > self.input_limit ==> (r matches Err(TranslatorError::RequestToLong(n, l))
                && n == reported_len(query.len() as nat) && l == self.input_limit),
            query.len() <= self.input_limit && mymemory_source(from) is None ==> r == Err::<
                Vec<(String, String)>,
                TranslatorError,
            >(TranslatorError::UnknownLanguage(from->0)),
            query.len() <= self.input_limit && mymemory_source(from) is Some && mymemory_code(to)
                is None ==> r == Err::<Vec<(String, String)>, TranslatorError>(
                TranslatorError::UnknownLanguage(to),
            ),
            query.len() <= self.input_limit && mymemory_source(from) is Some && mymemory_code(to)
                is Some ==> (r matches Ok(ps) && pair_views(ps@) == seq![
                ("q"@, query@),
                ("langpair"@, mymemory_source(from)->0 + "|"@ + mymemory_code(to)->0),
            ]),
    {
        input_limit_checker(query, self.input_limit)?;
        let src = match from {
            Some(l) => match l.to_mymemory() {
                Some(c) => c,
                None => return Err(TranslatorError::UnknownLanguage(l)),
            },
            None => "Autodetect",
        };
        let tgt = match to.to_mymemory() {
            Some(c) => c,
            None => return Err(TranslatorError::UnknownLanguage(to)),
        };
        Ok(query_pairs(query, src, tgt))
    }

    /// The translation in a reply: its HTTP status and the string value of
    /// `responseData.translatedText` (`None` where it is null or no string).
    pub fn decode(status: u16, translated_text: Option<String>, to: Language) -> (r: Result<
        TranslationOutput,
        TranslatorError,
    >)
        ensures
            !is_success(status) ==> (r matches Err(TranslatorError::RequestFailed(s)) && s == status),
            is_success(status) && translated_text is None ==> (r matches Err(
                TranslatorError::NoResponse,
            )),
            is_success(status) && translated_text is Some ==> (r matches Ok(o) && o.text
                == translated_text->0 && o.lang == Some(to)),
    {
        decode_text_field(status, translated_text, to)
    }

    /// The one text that stands for several: the texts joined by `_._._`.
    pub fn batch_query(query: &[String]) -> (r: String)
        ensures
            r@ == joined(views(query@), batch_delimiter()),
    {
        join(query, "_._._")
    }

    /// The translations of several texts, cut out of the translation of their joined text.
    pub fn split_batch(t: TranslationOutput) -> (r: TranslationListOutput)
        ensures
            views(r.text@) == split_on(t.text@, batch_delimiter()),
            r.lang == t.lang,
    {
        proof {
            reveal_strlit("_._._");
        }
        split_output(t, "_._._")
    }
}

impl Default for MyMemoryTranslator {
    fn default() -> (r: Self)
        ensures
            r.input_limit == 500,
            r.host@ == "https://api.mymemory.translated.net/get"@,
    {
        MyMemoryTranslator::new()
    }
}

} // verus!
