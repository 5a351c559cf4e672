//! Caiyun's translator: a JSON POST that carries all the texts at once, with a bearer token.
use vstd::prelude::*;

use crate::error::TranslatorError;
use crate::language::{caiyun_code, Language};
use crate::output::{first_translation, TranslationListOutput, TranslationOutput};

verus! {

/// The source-language part of a request: the language's code, or `auto` to detect it.
pub open spec fn caiyun_source(from: Option<Language>) -> Option<Seq<char>> {
    match from {
        Some(l) => caiyun_code(l),
        None => Some("auto"@),
    }
}

/// The body of a request, which the caller sends as JSON.
#[derive(Debug)]
pub struct CaiyunRequest {
    /// The direction, as `<source>2<target>`.
    pub trans_type: String,
    /// The texts to translate, in order.
    pub source: Vec<String>,
    /// `Some(true)` where the service is to detect the source language; left out otherwise.
    pub detect: Option<bool>,
    /// The request id.
    pub request_id: String,
}

/// The translator of Caiyun's API, with its token.
pub struct CaiyunTranslator {
    /// The API token.
    pub token: String,
    /// The request id.
    pub request_id: String,
}

impl CaiyunTranslator {
    /// A translator with the given token and request id.
    pub fn new(token: &str, request_id: &str) -> (r: Self)
        ensures
            r.token@ == token@,
            r.request_id@ == request_id@,
    {
        CaiyunTranslator { token: token.to_owned(), request_id: request_id.to_owned() }
    }

    /// Needs the network.
    pub fn local(&self) -> (r: bool)
        ensures
            !r,
    {
        false
    }

    /// The address that requests are posted to.
    pub fn url(&self) -> (r: &'static str)
        ensures
            r@ == "https://api.interpreter.caiyunai.com/v1/translator"@,
    {
        "https://api.interpreter.caiyunai.com/v1/translator"
    }

    /// The value of the `x-authorization` header.
    pub fn authorization(&self) -> (r: String)
        ensures
            r@ == "token "@ + self.token@,
    {
        let mut r = "token ".to_owned();
        r.append(self.token.as_str());
        r
    }

    /// The body to post for a translation of the texts: the source language is checked
    /// first, then the target language. Detection is asked for exactly when no source
    /// language is given.
    pub fn request(&self, query: &[String], from: Option<Language>, to: Language) -> (r: Result<
        CaiyunRequest,
        TranslatorError,
    >)
        ensures
            caiyun_source(from) is None ==> r == Err::<CaiyunRequest, TranslatorError>(
                TranslatorError::UnknownLanguage(from->0),
            ),
            caiyun_source(from) is Some && caiyun_code(to) is None ==> r == Err::<
                CaiyunRequest,
                TranslatorError,
            >(TranslatorError::UnknownLanguage(to)),
            caiyun_source(from) is Some && caiyun_code(to) is Some ==> (r matches Ok(req)
                && req.trans_type@ == caiyun_source(from)->0 + "2"@ + caiyun_code(to)->0
                && req.source@ == query@ && req.detect == (if from is None {
                Some(true)
            } else {
                None
            }) && req.request_id@ == self.request_id@),
    {
        let src = match from {
            Some(l) => match l.to_caiyun() {
                Some(c) => c,
                None => return Err(TranslatorError::UnknownLanguage(l)),
            },
            None => "auto",
        };
        let tgt = match to.to_caiyun() {
            Some(c) => c,
            None => return Err(TranslatorError::UnknownLanguage(to)),
        };
        let mut trans_type = src.to_owned();
        trans_type.append("2");
        trans_type.append(tgt);
        let mut source: Vec<String> = Vec::new();
        let mut i: usize = 0;
        while i < query.len()
            invariant
                i <= query@.len(),
                source@ == query@.subrange(0, i as int),
            decreases query@.len() - i,
        {
            source.push(query[i].clone());
            i = i + 1;
            assert(source@ =~= query@.subrange(0, i as int));
        }
        assert(source@ =~= query@);
        let detect = if from.is_none() {
            Some(true)
        } else {
            None
        };
        Ok(CaiyunRequest { trans_type, source, detect, request_id: self.request_id.clone() })
    }

    /// The translations in a reply: its `target` list as it stands; a reply without one
    /// (absent or null) is no translation.
    pub fn decode(target: Option<Vec<String>>) -> (r: Result<TranslationListOutput, TranslatorError>)
        ensures
            target is Some ==> (r matches Ok(o) && o.text == target->0 && o.lang is None),
            target is None ==> (r matches Err(TranslatorError::NoResponse)),
    {
        match target {
            Some(text) => Ok(TranslationListOutput { text, lang: None }),
            None => Err(TranslatorError::NoResponse),
        }
    }

    /// The translation of one text, out of the reply to a request that carried it alone.
    pub fn decode_one(target: Option<Vec<String>>, to: Language) -> (r: Result<
        TranslationOutput,
        TranslatorError,
    >)
        ensures
            target is Some && target->0@.len() > 0 ==> (r matches Ok(o) && o.text
                == target->0@[0] && o.lang == Some(to)),
            !(target is Some && target->0@.len() > 0) ==> (r matches Err(
                TranslatorError::NoResponse,
            )),
    {
        let list = Self::decode(target)?;
        first_translation(list, to)
    }
}

} // verus!
