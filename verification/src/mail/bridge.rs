//! The entry point that the rest of the client calls: what it checks of its
//! arguments before any operation is started.

use vstd::prelude::*;

verus! {

#[verifier::external_type_specification]
#[verifier::external_body]
pub struct ExParseError(url::ParseError);

/// Why a call was turned down before anything was sent.
#[derive(Clone, Copy, Debug, PartialEq, Eq, Structural)]
pub enum BridgeError {
    /// An argument is empty where it may not be, or is no URL where it has
    /// to be one.
    InvalidArg,
    /// The endpoint was set before.
    AlreadyInitialized,
    /// No endpoint was set yet.
    NotInitialized,
}

/// The text of the absolute URL that `text` parses to, in the form the
/// `url` crate gives it; `None` where `text` is no absolute URL.
pub uninterp spec fn parsed_url(text: Seq<char>) -> Option<Seq<char>>;

/// Calls `Url::parse` of the `url` crate and takes the text of the URL it
/// returns. Success and the text depend on the input alone, and are given
/// the name `parsed_url`.
#[verifier::external_body]
fn parse_url(input: &str) -> (r: Result<String, url::ParseError>)
    ensures
        match r {
            Ok(text) => parsed_url(input@) == Some(text@),
            Err(_) => parsed_url(input@).is_none(),
        },
{
    url::Url::parse(input).map(String::from)
}

/// What is kept of a parse: the text of the URL, or that the argument was
/// not valid.
pub fn endpoint_from(parsed: Result<String, url::ParseError>) -> (r: Result<String, BridgeError>)
    ensures
        match parsed {
            Ok(text) => r == Ok::<String, BridgeError>(text),
            Err(_) => r == Err::<String, BridgeError>(BridgeError::InvalidArg),
        },
{
    match parsed {
        Ok(text) => Ok(text),
        Err(_) => Err(BridgeError::InvalidArg),
    }
}

/// The endpoint that `endpoint` names, as the text of an absolute URL.
pub fn parse_endpoint(endpoint: &str) -> (r: Result<String, BridgeError>)
    ensures
        match r {
            Ok(text) => parsed_url(endpoint@) == Some(text@),
            Err(e) => e == BridgeError::InvalidArg && parsed_url(endpoint@).is_none(),
        },
{
    endpoint_from(parse_url(endpoint))
}

/// The state from which a server reads a folder anew: none where the text
/// that stands for it is empty.
pub fn sync_state_from(sync_state: &str) -> (r: Option<String>)
    ensures
        sync_state@.len() == 0 ==> r.is_none(),
        sync_state@.len() > 0 ==> (r matches Some(s) && s@ == sync_state@),
{
    if sync_state.is_empty() {
        None
    } else {
        Some(sync_state.to_owned())
    }
}

/// A folder can be created only under a parent that is named, and with a
/// name.
pub fn check_create_folder(parent_id: &str, name: &str) -> (r: Result<(), BridgeError>)
    ensures
        r.is_ok() <==> parent_id@.len() > 0 && name@.len() > 0,
        r.is_err() ==> r == Err::<(), BridgeError>(BridgeError::InvalidArg),
{
    if parent_id.is_empty() || name.is_empty() {
        return Err(BridgeError::InvalidArg);
    }
    Ok(())
}

/// The connection that operations are started on: unset at first, then set
/// once and for all.
#[derive(Clone, Debug, PartialEq, Eq)]
pub struct EwsBridge {
    endpoint: Option<String>,
}

impl EwsBridge {
    /// The endpoint that was set, if one was.
    pub closed spec fn endpoint_text(&self) -> Option<Seq<char>> {
        match self.endpoint {
            Some(text) => Some(text@),
            None => None,
        }
    }

    /// A bridge without an endpoint.
    pub fn new() -> (r: EwsBridge)
        ensures
            r.endpoint_text().is_none(),
    {
        EwsBridge { endpoint: None }
    }

    /// Sets the endpoint, which can be done once: a second call fails and
    /// leaves the first endpoint in place.
    pub fn initialize(&mut self, endpoint: String) -> (r: Result<(), BridgeError>)
        ensures
            old(self).endpoint_text().is_none() ==> r.is_ok() && final(self).endpoint_text() == Some(
                endpoint@,
            ),
            old(self).endpoint_text().is_some() ==> r == Err::<(), BridgeError>(
                BridgeError::AlreadyInitialized,
            ) && final(self).endpoint_text() == old(self).endpoint_text(),
    {
        if self.endpoint.is_some() {
            return Err(BridgeError::AlreadyInitialized);
        }
        self.endpoint = Some(endpoint);
        Ok(())
    }

    /// The endpoint to start an operation on.
    pub fn try_new_client(&self) -> (r: Result<String, BridgeError>)
        ensures
            match r {
                Ok(text) => self.endpoint_text() == Some(text@),
                Err(e) => e == BridgeError::NotInitialized && self.endpoint_text().is_none(),
            },
    {
        match &self.endpoint {
            Some(text) => Ok(text.clone()),
            None => Err(BridgeError::NotInitialized),
        }
    }
}

} // verus!
