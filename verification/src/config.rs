//! The four settings that the program cannot run without.

use vstd::prelude::*;
use vstd::string::*;

verus! {

/// The endpoints and the client id.
#[derive(Debug, PartialEq, Eq)]
pub struct Config {
    pub graphql_endpoint: String,
    pub websocket_endpoint: String,
    pub cognito_client_id: String,
    pub cognito_endpoint: String,
}

/// Whether a setting is there: it is given and not empty.
pub open spec fn is_set(value: Option<String>) -> bool {
    value matches Some(s) && s@.len() > 0
}

/// The complaint about a setting that is not there.
pub open spec fn missing_text(key: Seq<char>) -> Seq<char> {
    "Missing required environment variable: "@ + key
}

/// The text that shows a configuration, line by line.
pub open spec fn debug_text(config: Config) -> Seq<char> {
    "Config:\n"@ + "GraphQL Endpoint: "@ + config.graphql_endpoint@ + "\n"@
        + "WebSocket Endpoint: "@ + config.websocket_endpoint@ + "\n"@ + "Cognito Client ID: "@
        + config.cognito_client_id@ + "\n"@ + "Cognito Endpoint: "@ + config.cognito_endpoint@
        + "\n"@
}

/// A setting's value, or the complaint that names its key.
fn required(value: Option<String>, key: &str) -> (r: Result<String, String>)
    ensures
        match r {
            Ok(s) => is_set(value) && value == Some(s),
            Err(message) => !is_set(value) && message@ == missing_text(key@),
        },
{
    match value {
        Some(s) => {
            if s.as_str().unicode_len() > 0 {
                return Ok(s);
            }
        },
        None => {},
    }
    Err(String::from_str("Missing required environment variable: ").concat(key))
}

impl Config {
    /// Builds the configuration from the four settings as they were read.
    /// The first one that is missing or empty, in the order of the
    /// parameters, is the one complained about.
    pub fn new(
        graphql_endpoint: Option<String>,
        websocket_endpoint: Option<String>,
        cognito_client_id: Option<String>,
        cognito_endpoint: Option<String>,
    ) -> (r: Result<Config, String>)
        ensures
            match r {
                Ok(config) => {
                    &&& is_set(graphql_endpoint) && graphql_endpoint == Some(config.graphql_endpoint)
                    &&& is_set(websocket_endpoint) && websocket_endpoint == Some(
                        config.websocket_endpoint,
                    )
                    &&& is_set(cognito_client_id) && cognito_client_id == Some(
                        config.cognito_client_id,
                    )
                    &&& is_set(cognito_endpoint) && cognito_endpoint == Some(
                        config.cognito_endpoint,
                    )
                },
                Err(message) => if !is_set(graphql_endpoint) {
                    message@ == missing_text("GRAPHQL_ENDPOINT"@)
                } else if !is_set(websocket_endpoint) {
                    message@ == missing_text("WEBSOCKET_ENDPOINT"@)
                } else if !is_set(cognito_client_id) {
                    message@ == missing_text("COGNITO_CLIENT_ID"@)
                } else {
                    !is_set(cognito_endpoint) && message@ == missing_text("COGNITO_ENDPOINT"@)
                },
            },
    {
        let graphql_endpoint = match required(graphql_endpoint, "GRAPHQL_ENDPOINT") {
            Ok(s) => s,
            Err(message) => {
                return Err(message);
            },
        };
        let websocket_endpoint = match required(websocket_endpoint, "WEBSOCKET_ENDPOINT") {
            Ok(s) => s,
            Err(message) => {
                return Err(message);
            },
        };
        let cognito_client_id = match required(cognito_client_id, "COGNITO_CLIENT_ID") {
            Ok(s) => s,
            Err(message) => {
                return Err(message);
            },
        };
        let cognito_endpoint = match required(cognito_endpoint, "COGNITO_ENDPOINT") {
            Ok(s) => s,
            Err(message) => {
                return Err(message);
            },
        };
        Ok(Config { graphql_endpoint, websocket_endpoint, cognito_client_id, cognito_endpoint })
    }

    /// Shows the configuration, one setting per line.
    pub fn debug_string(&self) -> (r: String)
        ensures
            r@ == debug_text(*self),
    {
        let mut out = String::from_str("Config:\n");
        out.append("GraphQL Endpoint: ");
        out.append(self.graphql_endpoint.as_str());
        out.append("\n");
        out.append("WebSocket Endpoint: ");
        out.append(self.websocket_endpoint.as_str());
        out.append("\n");
        out.append("Cognito Client ID: ");
        out.append(self.cognito_client_id.as_str());
        out.append("\n");
        out.append("Cognito Endpoint: ");
        out.append(self.cognito_endpoint.as_str());
        out.append("\n");
        out
    }
}

} // verus!
