//! The url under which a shard connects to the gateway.
//!
//! The text of the url is put together and proved here; whether that text is
//! a url is for the `url` crate to say.
use crate::text::{decimal, push_decimal};
use vstd::prelude::*;
use vstd::string::*;

verus! {

/// A url of the `url` crate.
#[verifier::external_type_specification]
#[verifier::external_body]
pub struct ExUrl(url::Url);

/// The error with which the `url` crate refuses a text.
#[verifier::external_type_specification]
#[verifier::external_body]
pub struct ExUrlParseError(url::ParseError);

/// The url that `Url::parse` reads from a text, or `None` where it reports
/// an error.
pub uninterp spec fn url_parsed(text: Seq<char>) -> Option<url::Url>;

/// `Url::parse`, which is what `Url::from_str` calls: reads an absolute url
/// from a text. The same text always gives the same outcome, which
/// [`url_parsed`] names.
#[verifier::external_body]
pub(crate) fn parse_url(text: &str) -> (res: Result<url::Url, url::ParseError>)
    ensures
        match res {
            Ok(url) => url_parsed(text@) == Some(url),
            Err(_) => url_parsed(text@) is None,
        },
{
    url::Url::parse(text)
}

/// The text of the url under which shards connect: the url that the gateway
/// names, then the version of the protocol and the encoding as its query.
pub open spec fn connect_url_text(url: Seq<char>, version: u32) -> Seq<char> {
    url + "?v="@ + decimal(version as nat) + "&encoding=json"@
}

/// Puts the text of the url under which shards connect together.
pub fn gateway_connect_url(url: &str, version: u32) -> (text: String)
    ensures
        text@ == connect_url_text(url@, version),
{
    let mut text = String::from_str(url);
    text.append("?v=");
    push_decimal(&mut text, version);
    text.append("&encoding=json");
    text
}

} // verus!
