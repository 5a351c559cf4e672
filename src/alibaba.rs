//! Alibaba's web translator: a GET with the text in the query string, no credentials.
use vstd::prelude::*;

use crate::error::TranslatorError;
use crate::language::{mymemory_short_code, Language};
use crate::output::{decode_text_field, is_success, pair, pair_views, split_output, TranslationListOutput, TranslationOutput};
use crate::text::{clean_part, join, joined, lemma_split_joined, split_on, views};

verus! {

/// A byte length as the error reports it: capped at the largest `u32`.
pub open spec fn reported_len(n: nat) -> u32 {
    if n > u32::MAX {
        u32::MAX
    } else {
        n as u32
    }
}

/// Checks that `query` is at most `input_limit` bytes long.
pub fn input_limit_checker(query: &str, input_limit: u32) -> (r: Result<(), TranslatorError>)
    ensures
        query.len() <= input_limit ==> r is Ok,
        query.len() > input_limit ==> (r matches Err(
            TranslatorError::RequestToLong(n, l),
        ) && n == reported_len(query.len() as nat) && l == input_limit),
{
    if query.len() > input_limit as usize {
        let n = query.len();
        let reported = if n > u32::MAX as usize {
            u32::MAX
        } else {
            n as u32
        };
        return Err(TranslatorError::RequestToLong(reported, input_limit));
    }
    Ok(())
}

/// The source-language part of a request: the language's code, or `auto` to detect it.
pub open spec fn alibaba_source(from: Option<Language>) -> Option<Seq<char>> {
    match from {
        Some(l) => mymemory_short_code(l),
        None => Some("auto"@),
    }
}

/// The delimiter that several texts are joined with into one request.
pub open spec fn batch_delimiter() -> Seq<char> {
    "_._._"@
}

/// A batch whose joined text comes back unchanged is cut back into the same texts, as many
/// and in the same order, as long as no text holds the delimiter nor ends in a start of it.
pub proof fn lemma_batch_round_trip(texts: Seq<Seq<char>>)
    requires
        texts.len() > 0,
        forall|i: int| 0 <= i < texts.len() ==> clean_part(#[trigger] texts[i], batch_delimiter()),
    ensures
        split_on(joined(texts, batch_delimiter()), batch_delimiter()) == texts,
{
    reveal_strlit("_._._");
    lemma_split_joined(texts, batch_delimiter());
}

fn query_pairs(query: &str, src: &str, tgt: &str) -> (r: Vec<(String, String)>)
    ensures
        pair_views(r@) == seq![
            ("domain"@, "general"@),
            ("query"@, query@),
            ("srcLang"@, src@),
            ("tgtLang"@, tgt@),
        ],
{
    let ps = vec![
        pair("domain", "general"),
        pair("query", query),
        pair("srcLang", src),
        pair("tgtLang", tgt),
    ];
    assert(pair_views(ps@) =~= seq![
        ("domain"@, "general"@),
        ("query"@, query@),
        ("srcLang"@, src@),
        ("tgtLang"@, tgt@),
    ]);
    ps
}

/// The translator of Alibaba's web service.
pub struct AlibabaTranslator {
    /// The longest text, in bytes, that one request may carry.
    pub input_limit: u32,
    /// The address of the service.
    pub host: String,
}

impl AlibabaTranslator {
    /// A translator with the service's address and its limit of 500 bytes.
    pub fn new() -> (r: Self)
        ensures
            r.input_limit == 500,
            r.host@ == "https://translate.alibaba.com/api/translate/text"@,
    {
        AlibabaTranslator {
            input_limit: 500,
            host: "https://translate.alibaba.com/api/translate/text".to_owned(),
        }
    }

    /// Needs the network.
    pub fn local(&self) -> (r: bool)
        ensures
            !r,
    {
        false
    }

    /// The query parameters to GET from `host` for a translation of `query`, as names and
    /// raw values (the HTTP client encodes them): the length is checked first, then the source
    /// language, then the target language.
    pub fn request_query(&self, query: &str, from: Option<Language>, to: Language) -> (r: Result<
        Vec<(String, String)>,
        TranslatorError,
    >)
        ensures
            query.len() > self.input_limit ==> (r matches Err(
                TranslatorError::RequestToLong(n, l),
            ) && n == reported_len(query.len() as nat) && l == self.input_limit),
            query.len() <= self.input_limit && alibaba_source(from) is None ==> r == Err::<
                Vec<(String, String)>,
                TranslatorError,
            >(TranslatorError::UnknownLanguage(from->0)),
            query.len() <= self.input_limit && alibaba_source(from) is Some
                && mymemory_short_code(to) is None ==> r == Err::<
                Vec<(String, String)>,
                TranslatorError,
            >(TranslatorError::UnknownLanguage(to)),
            query.len() <= self.input_limit && alibaba_source(from) is Some
                && mymemory_short_code(to) is Some ==> (r matches Ok(ps) && pair_views(ps@) == seq![
                ("domain"@, "general"@),
                ("query"@, query@),
                ("srcLang"@, alibaba_source(from)->0),
                ("tgtLang"@, mymemory_short_code(to)->0),
            ]),
    {
        input_limit_checker(query, self.input_limit)?;
        let src = match from {
            Some(l) => match l.to_mymemory_short() {
                Some(c) => c,
                None => return Err(TranslatorError::UnknownLanguage(l)),
            },
            None => "auto",
        };
        let tgt = match to.to_mymemory_short() {
            Some(c) => c,
            None => return Err(TranslatorError::UnknownLanguage(to)),
        };
        Ok(query_pairs(query, src, tgt))
    }

    /// The translation in a reply: its HTTP status and the string value of
    /// `data.translateText` (`None` where it is null or no string).
    pub fn decode(status: u16, translate_text: Option<String>, to: Language) -> (r: Result<
        TranslationOutput,
        TranslatorError,
    >)
        ensures
            !is_success(status) ==> (r matches Err(TranslatorError::RequestFailed(s)) && s
                == status),
            is_success(status) && translate_text is None ==> (r matches Err(
                TranslatorError::NoResponse,
            )),
            is_success(status) && translate_text is Some ==> (r matches Ok(o) && o.text
                == translate_text->0 && o.lang == Some(to)),
    {
        decode_text_field(status, translate_text, to)
    }

    /// The one text that stands for several: the texts joined by `_._._`.
    pub fn batch_query(query: &[String]) -> (r: String)
        ensures
            r@ == joined(views(query@), batch_delimiter()),
    {
        join(query, "_._._")
    }

    /// The translations of several texts, cut out of the translation of their joined text.
    pub fn split_batch(t: TranslationOutput) -> (r: TranslationListOutput)
        ensures
            views(r.text@) == split_on(t.text@, batch_delimiter()),
            r.lang == t.lang,
    {
        proof {
            reveal_strlit("_._._");
        }
        split_output(t, "_._._")
    }
}

impl Default for AlibabaTranslator {
    fn default() -> (r: Self)
        ensures
            r.input_limit == 500,
            r.host@ == "https://translate.alibaba.com/api/translate/text"@,
    {
        AlibabaTranslator::new()
    }
}

} // verus!
