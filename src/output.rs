//! What a translation returns, and the decoding steps that several providers share.
use vstd::prelude::*;

use crate::error::TranslatorError;
use crate::language::Language;
use crate::text::{split, split_on, views};

verus! {

/// The translation of one text.
#[derive(Clone, Debug)]
pub struct TranslationOutput {
    /// The translated text.
    pub text: String,
    /// The language of the text, where known.
    pub lang: Option<Language>,
}

/// The translations of several texts, in the order of the texts.
#[derive(Clone, Debug)]
pub struct TranslationListOutput {
    /// The translated texts.
    pub text: Vec<String>,
    /// The language of the texts, where known.
    pub lang: Option<Language>,
}

/// A status in 200..=299.
pub open spec fn is_success(status: u16) -> bool {
    200 <= status <= 299
}

/// Decodes the translated field of a reply, given as its string value (`None` where the
/// provider sent a null, or no string at all). A failing status comes first; a missing value
/// is no translation.
pub fn decode_text_field(status: u16, field: Option<String>, to: Language) -> (r: Result<
    TranslationOutput,
    TranslatorError,
>)
    ensures
        !is_success(status) ==> (r matches Err(TranslatorError::RequestFailed(s)) && s == status),
        is_success(status) && field is None ==> (r matches Err(TranslatorError::NoResponse)),
        is_success(status) && field is Some ==> (r matches Ok(o) && o.text == field->0 && o.lang
            == Some(to)),
{
    if !(200 <= status && status <= 299) {
        return Err(TranslatorError::RequestFailed(status));
    }
    match field {
        Some(text) => Ok(TranslationOutput { text, lang: Some(to) }),
        None => Err(TranslatorError::NoResponse),
    }
}

/// The views of a list of name-value pairs.
pub open spec fn pair_views(ps: Seq<(String, String)>) -> Seq<(Seq<char>, Seq<char>)> {
    ps.map_values(|p: (String, String)| (p.0@, p.1@))
}

/// A name-value pair.
pub fn pair(name: &str, value: &str) -> (r: (String, String))
    ensures
        r.0@ == name@,
        r.1@ == value@,
{
    (name.to_owned(), value.to_owned())
}

/// Cuts one translation of several joined texts back into pieces at the delimiter.
pub fn split_output(t: TranslationOutput, d: &str) -> (r: TranslationListOutput)
    requires
        d@.len() > 0,
    ensures
        views(r.text@) == split_on(t.text@, d@),
        r.lang == t.lang,
{
    TranslationListOutput { text: split(t.text.as_str(), d), lang: t.lang }
}

} // verus!

verus! {

/// The first translation of a list, which a one-text request gets back; no translation at all
/// is no response.
pub fn first_translation(list: TranslationListOutput, to: Language) -> (r: Result<
    TranslationOutput,
    TranslatorError,
>)
    ensures
        list.text@.len() == 0 ==> (r matches Err(TranslatorError::NoResponse)),
        list.text@.len() > 0 ==> (r matches Ok(o) && o.text == list.text@[0] && o.lang == Some(to)),
{
    let mut text = list.text;
    if text.len() == 0 {
        return Err(TranslatorError::NoResponse);
    }
    let first = text.remove(0);
    Ok(TranslationOutput { text: first, lang: Some(to) })
}

} // verus!
