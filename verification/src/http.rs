//! What the library decides about requests to the Discord api. Sending them
//! is the caller's work.
use crate::text::{decimal, push_decimal};
use vstd::prelude::*;
use vstd::string::*;

verus! {

/// The number of requests that the queue to the http client holds before
/// its producers have to wait.
pub const HTTP_QUEUE_CAPACITY: usize = 50;

/// The http status with which the api refuses a token.
pub const UNAUTHORIZED: u16 = 401;

/// The ways in which the api refuses a request.
#[derive(Debug, Clone, Copy, PartialEq, Eq, Structural)]
pub enum DiscordApiError {
    /// The token is not valid.
    Unauthorized,
}

/// The requests that the library makes.
#[derive(Debug, Clone, Copy, PartialEq, Eq, Structural)]
pub enum DiscordHttpReqType {
    /// Retrieves information on connecting to the gateway, and metadata for
    /// sharding bots.
    GetGatewayBot,
}

impl DiscordHttpReqType {
    /// The path of the request below the base url of the api.
    pub fn get_request_path(&self) -> (path: &'static str)
        ensures
            path@ == match *self {
                DiscordHttpReqType::GetGatewayBot => "gateway/bot"@,
            },
    {
        match self {
            DiscordHttpReqType::GetGatewayBot => "gateway/bot",
        }
    }
}

/// The value of the `Authorization` header that carries a bot's token.
pub fn authorization_header(token: &str) -> (value: String)
    ensures
        value@ == "Bot "@ + token@,
{
    String::from_str("Bot ").concat(token)
}

/// The url below which the requests of one version of the api lie.
pub fn api_base_url(base_url: &str, version: u32) -> (url: String)
    ensures
        url@ == base_url@ + "/v"@ + decimal(version as nat) + "/"@,
{
    let mut url = String::from_str(base_url);
    url.append("/v");
    push_decimal(&mut url, version);
    url.append("/");
    url
}

/// Whether the api answered a request, or refused the token.
pub fn check_status(status: u16) -> (res: Result<(), DiscordApiError>)
    ensures
        res is Err <==> status == UNAUTHORIZED,
        res is Err ==> res == Err::<(), DiscordApiError>(DiscordApiError::Unauthorized),
{
    if status == UNAUTHORIZED {
        Err(DiscordApiError::Unauthorized)
    } else {
        Ok(())
    }
}

} // verus!
