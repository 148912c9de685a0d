use vstd::prelude::*;
use vstd::string::to_string_from_display_ensures;

verus! {

/// The error a Connect RPC returns.
#[verifier::external_type_specification]
#[verifier::external_body]
pub struct ExConnectError(connectrpc::ConnectError);

/// The error of an HTTP exchange made with reqwest.
#[verifier::external_type_specification]
#[verifier::external_body]
pub struct ExReqwestError(reqwest::Error);

/// The error of serde_json.
#[verifier::external_type_specification]
#[verifier::external_body]
pub struct ExJsonError(serde_json::Error);

/// The error of a URI that does not parse.
#[verifier::external_type_specification]
#[verifier::external_body]
pub struct ExInvalidUri(http::uri::InvalidUri);

/// The error of the websocket connection.
#[verifier::external_type_specification]
#[verifier::external_body]
pub struct ExWebsocketError(tokio_tungstenite::tungstenite::Error);

/// Everything that can go wrong while a bot talks to its server.
#[derive(Debug)]
pub enum ChurroError {
    Connect(connectrpc::ConnectError),
    Reqwest(reqwest::Error),
    Json(serde_json::Error),
    InvalidUri(http::uri::InvalidUri),
    Websocket(tokio_tungstenite::tungstenite::Error),
    WebsocketRecv(String),
    ResourceNotFound(&'static str),
}

impl ChurroError {
    /// What the error says: an outside error's own text, and for the others
    /// the text of this library.
    pub fn to_string(&self) -> (r: String)
        ensures
            match self {
                ChurroError::Connect(e) => to_string_from_display_ensures(e, r),
                ChurroError::Reqwest(e) => to_string_from_display_ensures(e, r),
                ChurroError::Json(e) => to_string_from_display_ensures(e, r),
                ChurroError::InvalidUri(e) => to_string_from_display_ensures(e, r),
                ChurroError::Websocket(e) => to_string_from_display_ensures(e, r),
                ChurroError::WebsocketRecv(m) => r@ == "error receiving data on websocket: "@ + m@,
                ChurroError::ResourceNotFound(what) => r@ == what@ + " resource not found"@,
            },
    {
        match self {
            ChurroError::Connect(e) => e.to_string(),
            ChurroError::Reqwest(e) => e.to_string(),
            ChurroError::Json(e) => e.to_string(),
            ChurroError::InvalidUri(e) => e.to_string(),
            ChurroError::Websocket(e) => e.to_string(),
            ChurroError::WebsocketRecv(m) => {
                let mut text = String::from_str("error receiving data on websocket: ");
                text.append(m.as_str());
                text
            },
            ChurroError::ResourceNotFound(what) => {
                let mut text = String::from_str(what);
                text.append(" resource not found");
                text
            },
        }
    }
}

pub type CResult<T = ()> = Result<T, ChurroError>;

} // verus!
