//! Youdao's API: a form POST signed with a SHA-256 digest over the app key, a shortened text,
//! a time-based nonce, the time and the secret.
use vstd::prelude::*;
use vstd::string::StrSliceExecFns;

use crate::digest::{
    clock_context, hex_encode, hex_of, is_lower_hex_digit, lemma_hex_of, random_six_bytes,
    random_u16, sha256_digest, sha256_of, unix_timestamp, uuid_v1_text,
};
use crate::error::{ApiError, TranslatorError};
use crate::language::{youdao_code, Language};
use crate::output::{first_translation, TranslationListOutput, TranslationOutput};
use crate::text::{clean_part, decimal, decimal_of, find_from, lemma_split_joined, join, joined, split, split_on, str_eq, views};

verus! {

/// The shortened text that the signature covers: the text itself up to 20 characters, else
/// its first 10 characters, its length in decimal, and its last 10 characters.
pub open spec fn truncated(s: Seq<char>) -> Seq<char> {
    if s.len() <= 20 {
        s
    } else {
        s.subrange(0, 10) + decimal_of(s.len()) + s.subrange(s.len() - 10, s.len() as int)
    }
}

/// Shortens a text as the signature requires, counting characters.
pub fn truncate(s: &str) -> (r: String)
    ensures
        r@ == truncated(s@),
{
    let size = s.unicode_len();
    if size <= 20 {
        s.to_owned()
    } else {
        let mut r = s.substring_char(0, 10).to_owned();
        let digits = decimal(size as u64);
        r.append(digits.as_str());
        r.append(s.substring_char(size - 10, size));
        r
    }
}

/// The SHA-256 digest of a text's bytes, in lower-case hex.
pub fn sha256_encode(sign_str: &str) -> (r: String)
    ensures
        r@ == hex_of(sha256_of(sign_str@)),
        r@.len() == 64,
        forall|i: int| 0 <= i < 64 ==> is_lower_hex_digit(#[trigger] r@[i]),
{
    let digest = sha256_digest(sign_str);
    proof {
        lemma_hex_of(digest@);
    }
    hex_encode(digest.as_slice())
}

/// Six bytes as a node id that marks itself locally administered and unicast: the second
/// lowest bit of the first byte set, its lowest bit clear, the rest as given.
pub fn local_node_id(raw: [u8; 6]) -> (r: [u8; 6])
    ensures
        r@[0] == (raw@[0] | 2u8) & 0xfeu8,
        r@[0] & 3u8 == 2u8,
        forall|i: int| 1 <= i < 6 ==> r@[i] == raw@[i],
{
    let b: u8 = raw[0];
    let first: u8 = (b | 2u8) & 0xfeu8;
    assert(((b | 2u8) & 0xfeu8) & 3u8 == 2u8) by (bit_vector);
    let r = [first, raw[1], raw[2], raw[3], raw[4], raw[5]];
    r
}

/// A random node id, marked as locally administered: it is no hardware address.
pub fn generate_random_mac() -> (r: [u8; 6])
    ensures
        r@[0] & 3u8 == 2u8,
{
    local_node_id(random_six_bytes())
}

/// What the signature is the digest of.
pub open spec fn sign_input(
    app_key: Seq<char>,
    q: Seq<char>,
    salt: Seq<char>,
    curtime: u64,
    app_secret: Seq<char>,
) -> Seq<char> {
    app_key + truncated(q) + salt + decimal_of(curtime as nat) + app_secret
}

/// The source-language part of a request: the language's code, or `auto` to detect it.
pub open spec fn youdao_source(from: Option<Language>) -> Option<Seq<char>> {
    match from {
        Some(l) => youdao_code(l),
        None => Some("auto"@),
    }
}

/// The separator that a translation in a reply may carry between the translations of
/// several texts.
pub open spec fn reply_separator() -> Seq<char> {
    "/n"@
}

/// Each translation of a reply cut at the separator, all the pieces in order.
pub open spec fn reply_pieces(ts: Seq<Seq<char>>) -> Seq<Seq<char>>
    decreases ts.len(),
{
    if ts.len() == 0 {
        Seq::empty()
    } else {
        reply_pieces(ts.drop_last()) + split_on(ts.last(), reply_separator())
    }
}

/// A reply whose translations hold no separator gives them back as they are: as many, in
/// the same order.
pub proof fn lemma_reply_pieces_plain(ts: Seq<Seq<char>>)
    requires
        forall|i: int| 0 <= i < ts.len() ==> find_from(#[trigger] ts[i], reply_separator(), 0) is None,
    ensures
        reply_pieces(ts) == ts,
    decreases ts.len(),
{
    if ts.len() > 0 {
        let init = ts.drop_last();
        assert forall|i: int| 0 <= i < init.len() implies find_from(
            #[trigger] init[i],
            reply_separator(),
            0,
        ) is None by {
            assert(init[i] == ts[i]);
        }
        lemma_reply_pieces_plain(init);
        let x = ts.last();
        assert(find_from(ts[ts.len() - 1], reply_separator(), 0) is None);
        reveal_strlit("/n");
        assert(x.subrange(0, x.len() as int) =~= x);
        assert(split_on(x, reply_separator()) =~= seq![x]);
        assert(ts =~= init.push(x));
    }
}

/// A reply that carries the translations of a batch in one text, with the separator between
/// them, is cut back into them, as many and in the same order, as long as no translation
/// holds the separator nor ends in a start of it.
pub proof fn lemma_reply_joined(ts: Seq<Seq<char>>)
    requires
        ts.len() > 0,
        forall|i: int| 0 <= i < ts.len() ==> clean_part(#[trigger] ts[i], reply_separator()),
    ensures
        reply_pieces(seq![joined(ts, reply_separator())]) == ts,
{
    reveal_strlit("/n");
    lemma_split_joined(ts, reply_separator());
    let one = seq![joined(ts, reply_separator())];
    assert(one.drop_last() =~= Seq::<Seq<char>>::empty());
    assert(reply_pieces(one.drop_last()) =~= Seq::<Seq<char>>::empty());
    assert(reply_pieces(one) =~= split_on(joined(ts, reply_separator()), reply_separator()));
}

/// A reply: its error code, where present (`0` is success), and its translations, where
/// present.
#[derive(Debug)]
pub struct Resp {
    /// The error code.
    pub error_code: Option<String>,
    /// The translations, in order.
    pub translation: Option<Vec<String>>,
}

/// The reply carries an error code other than `0`: Youdao refused the request.
pub open spec fn refused(resp: Resp) -> bool {
    resp.error_code is Some && resp.error_code->0@ != "0"@
}

/// The form that a request posts.
#[derive(Debug)]
pub struct YoudaoForm {
    /// The source language's code, or `auto`.
    pub from: String,
    /// The target language's code.
    pub to: String,
    /// The signature scheme, `v3`.
    pub sign_type: String,
    /// The time of the request, in seconds since the epoch, in decimal.
    pub curtime: String,
    /// The app key.
    pub app_key: String,
    /// The texts, joined by newlines.
    pub q: String,
    /// The nonce.
    pub salt: String,
    /// The signature.
    pub sign: String,
}

/// The translator of Youdao's API, with its credentials and the state its nonces come from.
pub struct YoudaoTranslator {
    /// The app key.
    pub app_key: String,
    /// The app secret.
    pub app_secret: String,
    /// The clock sequence of the nonces.
    pub context: uuid::ContextV1,
    /// The node id of the nonces.
    pub mac: [u8; 6],
}

impl YoudaoTranslator {
    /// A translator with the given credentials, a random clock sequence and a random,
    /// locally administered node id.
    pub fn new(app_key: &str, app_secret: &str) -> (r: Self)
        ensures
            r.app_key@ == app_key@,
            r.app_secret@ == app_secret@,
            r.mac@[0] & 3u8 == 2u8,
    {
        let seed = random_u16();
        YoudaoTranslator {
            mac: generate_random_mac(),
            app_key: app_key.to_owned(),
            app_secret: app_secret.to_owned(),
            context: clock_context(seed),
        }
    }

    /// Needs the network.
    pub fn local(&self) -> (r: bool)
        ensures
            !r,
    {
        false
    }

    /// The address that requests are posted to.
    pub fn url(&self) -> (r: &'static str)
        ensures
            r@ == "https://openapi.youdao.com/api"@,
    {
        "https://openapi.youdao.com/api"
    }

    /// A fresh time-based nonce for the given time, in its hyphenated form: a version 1
    /// identifier on this translator's node id.
    pub fn nonce(&self, secs: u64, nanos: u32) -> (r: String)
        ensures
            r@.len() == 36,
            r@[8] == '-' && r@[13] == '-' && r@[18] == '-' && r@[23] == '-',
            r@[14] == '1',
            r@.subrange(24, 36) == hex_of(self.mac@),
    {
        let ts = unix_timestamp(&self.context, secs, nanos);
        uuid_v1_text(ts, &self.mac)
    }

    /// The form to post for a translation of the texts at time `curtime` (seconds since the
    /// epoch, with `nanos` past it): the source language is checked first, then the target
    /// language.
    pub fn form(
        &self,
        query: &[String],
        from: Option<Language>,
        to: Language,
        curtime: u64,
        nanos: u32,
    ) -> (r: Result<YoudaoForm, TranslatorError>)
        ensures
            youdao_source(from) is None ==> r == Err::<YoudaoForm, TranslatorError>(
                TranslatorError::UnknownLanguage(from->0),
            ),
            youdao_source(from) is Some && youdao_code(to) is None ==> r == Err::<
                YoudaoForm,
                TranslatorError,
            >(TranslatorError::UnknownLanguage(to)),
            youdao_source(from) is Some && youdao_code(to) is Some ==> (r matches Ok(f) && f.from@
                == youdao_source(from)->0 && f.to@ == youdao_code(to)->0 && f.sign_type@ == "v3"@
                && f.curtime@ == decimal_of(curtime as nat) && f.app_key@ == self.app_key@ && f.q@
                == joined(views(query@), "\n"@) && f.salt@.len() == 36 && f.salt@[14] == '1' && f.salt@.subrange(24, 36) == hex_of(
                self.mac@,
            ) && f.sign@ == hex_of(
                sha256_of(sign_input(self.app_key@, f.q@, f.salt@, curtime, self.app_secret@)),
            )),
    {
        let src = match from {
            Some(l) => match l.to_youdao() {
                Some(c) => c,
                None => return Err(TranslatorError::UnknownLanguage(l)),
            },
            None => "auto",
        };
        let tgt = match to.to_youdao() {
            Some(c) => c,
            None => return Err(TranslatorError::UnknownLanguage(to)),
        };
        let salt = self.nonce(curtime, nanos);
        let q = join(query, "\n");
        let time = decimal(curtime);
        let mut sign_str = self.app_key.clone();
        let short = truncate(q.as_str());
        sign_str.append(short.as_str());
        sign_str.append(salt.as_str());
        sign_str.append(time.as_str());
        sign_str.append(self.app_secret.as_str());
        let sign = sha256_encode(sign_str.as_str());
        Ok(YoudaoForm {
            from: src.to_owned(),
            to: tgt.to_owned(),
            sign_type: "v3".to_owned(),
            curtime: time,
            app_key: self.app_key.clone(),
            q,
            salt,
            sign,
        })
    }

    /// The translations in a reply: each of its `translation` list cut at the separator, in
    /// order. An error code other than `0` is Youdao's refusal; a reply without translations
    /// is no translation.
    pub fn decode(resp: Resp) -> (r: Result<TranslationListOutput, TranslatorError>)
        ensures
            refused(resp) ==> (r matches Err(TranslatorError::ApiError(ApiError::Youdao { code })) && code
                == resp.error_code->0),
            !refused(resp) && resp.translation is None ==> (r matches Err(
                TranslatorError::NoResponse,
            )),
            !refused(resp) && resp.translation is Some ==> (r matches Ok(o) && views(o.text@)
                == reply_pieces(views(resp.translation->0@)) && o.lang is None),
    {
        if let Some(code) = &resp.error_code {
            if !str_eq(code.as_str(), "0") {
                return Err(TranslatorError::ApiError(ApiError::Youdao { code: code.clone() }));
            }
        }
        let translation = match resp.translation {
            Some(t) => t,
            None => return Err(TranslatorError::NoResponse),
        };
        proof {
            reveal_strlit("/n");
        }
        let mut text: Vec<String> = Vec::new();
        let mut i: usize = 0;
        while i < translation.len()
            invariant
                i <= translation@.len(),
                views(text@) == reply_pieces(views(translation@).subrange(0, i as int)),
            decreases translation@.len() - i,
        {
            let ghost before = text@;
            proof {
                reveal_strlit("/n");
            }
            let mut pieces = split(translation[i].as_str(), "/n");
            let ghost added = pieces@;
            text.append(&mut pieces);
            i = i + 1;
            proof {
                let ts = views(translation@).subrange(0, i as int);
                assert(ts.drop_last() =~= views(translation@).subrange(0, i - 1));
                assert(views(text@) =~= views(before) + views(added));
            }
        }
        assert(views(translation@).subrange(0, i as int) =~= views(translation@));
        Ok(TranslationListOutput { text, lang: None })
    }

    /// The translation of one text, out of the reply to a request that carried it alone.
    pub fn decode_one(resp: Resp, to: Language) -> (r: Result<TranslationOutput, TranslatorError>)
        ensures
            refused(resp) ==> (r matches Err(TranslatorError::ApiError(ApiError::Youdao { code })) && code
                == resp.error_code->0),
            !refused(resp) && resp.translation is None ==> (r matches Err(
                TranslatorError::NoResponse,
            )),
            !refused(resp) && resp.translation is Some && reply_pieces(
                views(resp.translation->0@),
            ).len() == 0 ==> (r matches Err(TranslatorError::NoResponse)),
            !refused(resp) && resp.translation is Some && reply_pieces(
                views(resp.translation->0@),
            ).len() > 0 ==> (r matches Ok(o) && o.text@ == reply_pieces(
                views(resp.translation->0@),
            )[0] && o.lang == Some(to)),
    {
        let list = Self::decode(resp)?;
        first_translation(list, to)
    }
}

} // verus!
