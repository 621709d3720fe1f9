//! Sending a message: the request that hands its content to the server.

use vstd::prelude::*;
use vstd::string::StringSliceAdditionalSpecFns;
use base64::prelude::{Engine, BASE64_STANDARD};
use crate::mail::folders::BaseFolderId;

verus! {

/// Someone a message goes to.
#[derive(Clone, Debug, PartialEq, Eq)]
pub struct Recipient {
    pub name: Option<String>,
    pub email_address: String,
}

/// The content of a message in MIME format, in base64.
#[derive(Clone, Debug, PartialEq, Eq)]
pub struct MimeContent {
    pub character_set: Option<String>,
    pub content: String,
}

/// A message, as far as sending sets it.
#[derive(Clone, Debug, PartialEq, Eq)]
pub struct Message {
    pub mime_content: Option<MimeContent>,
    pub is_delivery_receipt_requested: Option<bool>,
    pub internet_message_id: Option<String>,
    pub bcc_recipients: Option<Vec<Recipient>>,
}

/// What the server is to do with a message it is given.
#[derive(Clone, Copy, Debug, PartialEq, Eq, Structural)]
pub enum MessageDisposition {
    SaveOnly,
    SendOnly,
    SendAndSaveCopy,
}

/// A request to create items on the server.
#[derive(Clone, Debug, PartialEq, Eq)]
pub struct CreateItem {
    pub items: Vec<Message>,
    pub message_disposition: Option<MessageDisposition>,
    pub saved_item_folder_id: Option<BaseFolderId>,
}

/// The standard base64 encoding of `bytes`, with padding.
pub uninterp spec fn base64_standard(bytes: Seq<u8>) -> Seq<char>;

/// The encoding of `len` bytes can be held in memory.
pub open spec fn encodable(len: int) -> bool {
    4 * ((len + 2) / 3) <= isize::MAX
}

/// Calls `encode` of the `base64` crate's standard engine. The result is
/// the encoding of the input by the standard alphabet with padding, which
/// is given the name `base64_standard`. The crate builds the output in a
/// buffer of the encoded length, so that length must be one that a buffer
/// can have.
#[verifier::external_body]
fn base64_encode(input: &[u8]) -> (r: String)
    requires
        encodable(input@.len() as int),
    ensures
        r@ == base64_standard(input@),
{
    BASE64_STANDARD.encode(input)
}

/// The message that `create_item` puts into its request.
pub open spec fn is_outgoing_message(
    m: Message,
    content: Seq<char>,
    message_id: Seq<char>,
    should_request_dsn: bool,
    bcc_recipients: Seq<Recipient>,
) -> bool {
    &&& m.mime_content matches Some(mime) && mime.character_set.is_none() && mime.content@ == content
    &&& m.is_delivery_receipt_requested == Some(should_request_dsn)
    &&& m.internet_message_id matches Some(id) && id@ == message_id
    &&& if bcc_recipients.len() == 0 {
        m.bcc_recipients.is_none()
    } else {
        m.bcc_recipients matches Some(bcc) && bcc@ == bcc_recipients
    }
}

/// The request that sends one message whose encoded content is `content`.
///
/// The server is told to send and keep no copy: the copy in the folder of
/// sent messages is made by the client, with headers that the server never
/// sees. Blind-copy recipients appear only where there are any.
pub fn create_item(content: String, message_id: String, should_request_dsn: bool, bcc_recipients: Vec<Recipient>) -> (r:
    CreateItem)
    ensures
        r.items@.len() == 1,
        is_outgoing_message(r.items@[0], content@, message_id@, should_request_dsn, bcc_recipients@),
        r.message_disposition == Some(MessageDisposition::SendOnly),
        r.saved_item_folder_id.is_none(),
{
    let bcc = if bcc_recipients.len() > 0 {
        Some(bcc_recipients)
    } else {
        None
    };
    let message = Message {
        mime_content: Some(MimeContent { character_set: None, content }),
        is_delivery_receipt_requested: Some(should_request_dsn),
        internet_message_id: Some(message_id),
        bcc_recipients: bcc,
    };
    let mut items: Vec<Message> = Vec::new();
    items.push(message);
    CreateItem {
        items,
        message_disposition: Some(MessageDisposition::SendOnly),
        saved_item_folder_id: None,
    }
}

/// The request that sends the message `mime_content`, which holds every
/// header but that of the blind-copy recipients.
pub fn send_message(mime_content: &str, message_id: String, should_request_dsn: bool, bcc_recipients: Vec<Recipient>) -> (r:
    CreateItem)
    requires
        encodable(mime_content.spec_bytes().len() as int),
    ensures
        r.items@.len() == 1,
        is_outgoing_message(
            r.items@[0],
            base64_standard(mime_content.spec_bytes()),
            message_id@,
            should_request_dsn,
            bcc_recipients@,
        ),
        r.message_disposition == Some(MessageDisposition::SendOnly),
        r.saved_item_folder_id.is_none(),
{
    let content = base64_encode(mime_content.as_bytes());
    create_item(content, message_id, should_request_dsn, bcc_recipients)
}

/// Like `send_message`, for content of any length: `None` where the content
/// is too long to be encoded in memory.
pub fn try_send_message(mime_content: &str, message_id: String, should_request_dsn: bool, bcc_recipients: Vec<Recipient>) -> (r:
    Option<CreateItem>)
    ensures
        r.is_some() <==> encodable(mime_content.spec_bytes().len() as int),
        r matches Some(request) ==> {
            &&& request.items@.len() == 1
            &&& is_outgoing_message(
                request.items@[0],
                base64_standard(mime_content.spec_bytes()),
                message_id@,
                should_request_dsn,
                bcc_recipients@,
            )
            &&& request.message_disposition == Some(MessageDisposition::SendOnly)
            &&& request.saved_item_folder_id.is_none()
        },
{
    let len: usize = mime_content.as_bytes().len();
    let groups: usize = if len % 3 == 0 {
        len / 3
    } else {
        len / 3 + 1
    };
    let limit: usize = isize::MAX as usize;
    if groups <= limit / 4 {
        Some(send_message(mime_content, message_id, should_request_dsn, bcc_recipients))
    } else {
        None
    }
}

} // verus!
