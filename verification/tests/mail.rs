use congestion_control::mail::auth::{
    button_choice, handle_auth_failure, notify_oauth_failure, notify_password_failure, outcome_after,
    AuthAlertError, AuthErrorOutcome, AuthFailureNotice, AuthMethod, ButtonChoice, PasswordFailureStep,
    NEW_PASSWORD_BUTTON, RETRY_BUTTON,
};
use congestion_control::mail::bridge::{
    check_create_folder, endpoint_from, parse_endpoint, sync_state_from, BridgeError, EwsBridge,
};
use congestion_control::mail::folders::{
    construct_request, delete_folder_request, first_fatal_delete_error, folder_ids_from,
    get_new_ews_ids_from_response, BaseFolderId, DeleteOutcome, DeleteType, Folder, FolderId,
    FolderResponseMessage,
};
use congestion_control::mail::junk::{
    ids_after_move, item_ids_from, mark_as_junk, moved_item_ids, plan_mark_as_junk, BaseItemId,
    ExchangeServerVersion, JunkPlan, JunkResponseError, MarkAsJunkOutcome,
};
use congestion_control::mail::send::{
    create_item, send_message, try_send_message, MessageDisposition, Recipient,
};

fn strings(ids: &[&str]) -> Vec<String> {
    ids.iter().map(|s| s.to_string()).collect()
}

fn by_id(id: &str) -> BaseFolderId {
    BaseFolderId::FolderId { id: id.to_string(), change_key: None }
}

fn folder_id(id: &str) -> Option<FolderId> {
    Some(FolderId { id: id.to_string(), change_key: Some("key".to_string()) })
}

fn message(folders: Vec<Folder>) -> FolderResponseMessage {
    FolderResponseMessage { folders }
}

#[test]
fn request_names_folders_by_id() {
    let request = construct_request("dest".to_string(), strings(&["a", "b", "c"]));
    assert_eq!(request.to_folder_id, by_id("dest"));
    assert_eq!(request.folder_ids, vec![by_id("a"), by_id("b"), by_id("c")]);

    let request = construct_request(String::new(), Vec::new());
    assert_eq!(request.to_folder_id, by_id(""));
    assert!(request.folder_ids.is_empty());

    assert_eq!(folder_ids_from(&strings(&["x"])), vec![by_id("x")]);
}

#[test]
fn new_ids_come_from_the_first_plain_folder() {
    let response = vec![
        message(vec![Folder::Folder { folder_id: folder_id("one") }]),
        // Only the first folder of a message counts.
        message(vec![
            Folder::Folder { folder_id: folder_id("two") },
            Folder::Folder { folder_id: folder_id("ignored") },
        ]),
        // No folder at all.
        message(vec![]),
        // A folder without an identifier.
        message(vec![Folder::Folder { folder_id: None }]),
        // Folders of other kinds.
        message(vec![Folder::CalendarFolder { folder_id: folder_id("calendar") }]),
        message(vec![Folder::ContactsFolder { folder_id: folder_id("contacts") }]),
        message(vec![Folder::SearchFolder { folder_id: folder_id("search") }]),
        message(vec![Folder::TasksFolder { folder_id: folder_id("tasks") }]),
        // Another kind first, then a plain folder.
        message(vec![
            Folder::TasksFolder { folder_id: folder_id("tasks") },
            Folder::Folder { folder_id: folder_id("late") },
        ]),
        message(vec![Folder::Folder { folder_id: folder_id("three") }]),
    ];
    assert_eq!(get_new_ews_ids_from_response(response), strings(&["one", "two", "three"]));
    assert!(get_new_ews_ids_from_response(Vec::new()).is_empty());
}

#[test]
fn folders_are_deleted_for_good() {
    let request = delete_folder_request(&strings(&["a", "b"]));
    assert_eq!(request.delete_type, DeleteType::HardDelete);
    assert_eq!(request.folder_ids, vec![by_id("a"), by_id("b")]);
}

#[test]
fn missing_folders_do_not_stop_a_deletion() {
    let deleted = DeleteOutcome::Deleted;
    let not_found = DeleteOutcome::NotFound;
    let failed = DeleteOutcome::Failed;
    assert_eq!(first_fatal_delete_error(&vec![]), None);
    assert_eq!(first_fatal_delete_error(&vec![deleted, not_found, deleted]), None);
    assert_eq!(first_fatal_delete_error(&vec![not_found]), None);
    assert_eq!(first_fatal_delete_error(&vec![failed]), Some(0));
    assert_eq!(first_fatal_delete_error(&vec![deleted, not_found, failed, failed]), Some(2));
}

#[test]
fn auth_failure_by_method() {
    assert_eq!(handle_auth_failure(AuthMethod::OAuth2), Ok(AuthFailureNotice::OAuth));
    assert_eq!(handle_auth_failure(AuthMethod::PasswordCleartext), Ok(AuthFailureNotice::Password));
    assert_eq!(handle_auth_failure(AuthMethod::Other), Err(AuthAlertError::NotImplemented));
    assert_eq!(notify_oauth_failure(), AuthErrorOutcome::ABORT);
}

#[test]
fn password_failure_steps() {
    assert_eq!(notify_password_failure(""), PasswordFailureStep::PromptForPassword);
    assert_eq!(notify_password_failure("hunter2"), PasswordFailureStep::Confirm);
    assert_eq!(notify_password_failure(" "), PasswordFailureStep::Confirm);

    assert_eq!(RETRY_BUTTON, 0);
    assert_eq!(NEW_PASSWORD_BUTTON, 2);
    assert_eq!(button_choice(0), ButtonChoice::Retry);
    assert_eq!(button_choice(1), ButtonChoice::Cancel);
    assert_eq!(button_choice(2), ButtonChoice::EnterNewPassword);
    assert_eq!(button_choice(3), ButtonChoice::Cancel);
    assert_eq!(button_choice(-1), ButtonChoice::Cancel);
    assert_eq!(button_choice(i32::MAX), ButtonChoice::Cancel);
    assert_eq!(button_choice(i32::MIN), ButtonChoice::Cancel);

    assert_eq!(outcome_after(ButtonChoice::Retry), AuthErrorOutcome::RETRY);
    assert_eq!(outcome_after(ButtonChoice::EnterNewPassword), AuthErrorOutcome::RETRY);
    assert_eq!(outcome_after(ButtonChoice::Cancel), AuthErrorOutcome::ABORT);
    for index in -3..6 {
        let aborts = outcome_after(button_choice(index)) == AuthErrorOutcome::ABORT;
        assert_eq!(aborts, index != 0 && index != 2);
    }
}

#[test]
fn junk_plan_by_version() {
    for version in [ExchangeServerVersion::Exchange2013, ExchangeServerVersion::Exchange2013_SP1] {
        assert!(version.supports_mark_as_junk());
        assert_eq!(plan_mark_as_junk(version, ""), JunkPlan::MarkAsJunk);
        assert_eq!(plan_mark_as_junk(version, "junk"), JunkPlan::MarkAsJunk);
    }
    for version in [
        ExchangeServerVersion::Exchange2007,
        ExchangeServerVersion::Exchange2007_SP1,
        ExchangeServerVersion::Exchange2010,
        ExchangeServerVersion::Exchange2010_SP1,
        ExchangeServerVersion::Exchange2010_SP2,
    ] {
        assert!(!version.supports_mark_as_junk());
        assert_eq!(plan_mark_as_junk(version, "junk"), JunkPlan::MoveToFolder);
        assert_eq!(plan_mark_as_junk(version, ""), JunkPlan::Unsupported);
    }
}

#[test]
fn items_are_named_by_id() {
    let names = item_ids_from(&strings(&["m1", "m2"]));
    assert_eq!(
        names,
        vec![
            BaseItemId::ItemId { id: "m1".to_string(), change_key: None },
            BaseItemId::ItemId { id: "m2".to_string(), change_key: None },
        ]
    );
    assert!(item_ids_from(&Vec::new()).is_empty());
}

#[test]
fn moved_ids_need_every_answer() {
    let moved = |id: &str| MarkAsJunkOutcome::Moved { id: id.to_string() };
    assert_eq!(
        moved_item_ids(&vec![moved("n1"), moved("n2")], 2),
        Ok(strings(&["n1", "n2"]))
    );
    assert_eq!(moved_item_ids(&vec![], 0), Ok(Vec::new()));
    assert_eq!(
        moved_item_ids(&vec![moved("n1")], 2),
        Err(JunkResponseError::UnexpectedResponseMessageCount { expected: 2, actual: 1 })
    );
    // The count is looked at before the answers.
    assert_eq!(
        moved_item_ids(&vec![MarkAsJunkOutcome::Failed, moved("n1")], 1),
        Err(JunkResponseError::UnexpectedResponseMessageCount { expected: 1, actual: 2 })
    );
    assert_eq!(
        moved_item_ids(&vec![moved("n1"), MarkAsJunkOutcome::Failed, MarkAsJunkOutcome::Failed], 3),
        Err(JunkResponseError::Failed { at: 1 })
    );
}

#[test]
fn junk_results() {
    assert_eq!(ids_after_move(strings(&["a"]), false), Some(strings(&["a"])));
    assert_eq!(ids_after_move(strings(&["a"]), true), None);
    assert_eq!(mark_as_junk(Some(strings(&["a", "b"]))), (strings(&["a", "b"]), false));
    assert_eq!(mark_as_junk(Some(Vec::new())), (Vec::new(), false));
    assert_eq!(mark_as_junk(None), (Vec::new(), true));
}

#[test]
fn message_content_is_encoded() {
    let request = send_message("hello", "<id@example.com>".to_string(), true, Vec::new());
    assert_eq!(request.items.len(), 1);
    let message = &request.items[0];
    let mime = message.mime_content.as_ref().unwrap();
    assert_eq!(mime.content, "aGVsbG8=");
    assert_eq!(mime.character_set, None);
    assert_eq!(message.is_delivery_receipt_requested, Some(true));
    assert_eq!(message.internet_message_id.as_deref(), Some("<id@example.com>"));
    assert_eq!(message.bcc_recipients, None);
    assert_eq!(request.message_disposition, Some(MessageDisposition::SendOnly));
    assert_eq!(request.saved_item_folder_id, None);

    // Every length of the last group, and bytes beyond ASCII.
    let encoded = |text: &str| {
        send_message(text, String::new(), false, Vec::new()).items[0]
            .mime_content
            .clone()
            .unwrap()
            .content
    };
    assert_eq!(encoded(""), "");
    assert_eq!(encoded("f"), "Zg==");
    assert_eq!(encoded("fo"), "Zm8=");
    assert_eq!(encoded("foo"), "Zm9v");
    assert_eq!(encoded("foobar"), "Zm9vYmFy");
    assert_eq!(encoded("\u{e9}"), "w6k=");
    assert_eq!(encoded("Subject: x\r\n\r\n?>~"), "U3ViamVjdDogeA0KDQo/Pn4=");
}

#[test]
fn blind_copies_appear_only_where_there_are_any() {
    let bcc = vec![
        Recipient { name: Some("A".to_string()), email_address: "a@example.com".to_string() },
        Recipient { name: None, email_address: "b@example.com".to_string() },
    ];
    let request = create_item("Zm9v".to_string(), "id".to_string(), false, bcc.clone());
    assert_eq!(request.items.len(), 1);
    assert_eq!(request.items[0].bcc_recipients, Some(bcc.clone()));
    assert_eq!(request.items[0].mime_content.as_ref().unwrap().content, "Zm9v");
    assert_eq!(request.items[0].is_delivery_receipt_requested, Some(false));
    assert_eq!(request.message_disposition, Some(MessageDisposition::SendOnly));

    let request = create_item(String::new(), String::new(), true, Vec::new());
    assert_eq!(request.items[0].bcc_recipients, None);

    let request = try_send_message("foo", "id".to_string(), true, bcc.clone()).unwrap();
    assert_eq!(request, send_message("foo", "id".to_string(), true, bcc));
}

#[test]
fn endpoints_must_be_urls() {
    assert_eq!(
        parse_endpoint("https://mail.example.com/EWS/Exchange.asmx"),
        Ok("https://mail.example.com/EWS/Exchange.asmx".to_string())
    );
    // The text is that of the parsed URL, not the argument.
    assert_eq!(parse_endpoint("HTTPS://Example.COM"), Ok("https://example.com/".to_string()));
    assert_eq!(parse_endpoint("https://example.com:443/a/../b"), Ok("https://example.com/b".to_string()));
    assert_eq!(parse_endpoint(""), Err(BridgeError::InvalidArg));
    assert_eq!(parse_endpoint("not a url"), Err(BridgeError::InvalidArg));
    assert_eq!(parse_endpoint("/relative/path"), Err(BridgeError::InvalidArg));
    assert_eq!(parse_endpoint("https://"), Err(BridgeError::InvalidArg));

    assert_eq!(endpoint_from(Ok("text".to_string())), Ok("text".to_string()));
    assert_eq!(endpoint_from(Err(url::ParseError::EmptyHost)), Err(BridgeError::InvalidArg));
    assert_eq!(
        endpoint_from(Err(url::ParseError::RelativeUrlWithoutBase)),
        Err(BridgeError::InvalidArg)
    );
}

#[test]
fn bridge_is_initialized_once() {
    let mut bridge = EwsBridge::new();
    assert_eq!(bridge.try_new_client(), Err(BridgeError::NotInitialized));
    assert_eq!(bridge.initialize("https://a.example/".to_string()), Ok(()));
    assert_eq!(bridge.try_new_client(), Ok("https://a.example/".to_string()));
    assert_eq!(
        bridge.initialize("https://b.example/".to_string()),
        Err(BridgeError::AlreadyInitialized)
    );
    assert_eq!(bridge.try_new_client(), Ok("https://a.example/".to_string()));
}

#[test]
fn arguments_are_checked() {
    assert_eq!(sync_state_from(""), None);
    assert_eq!(sync_state_from("H4sIAAA=="), Some("H4sIAAA==".to_string()));
    assert_eq!(sync_state_from(" "), Some(" ".to_string()));

    assert_eq!(check_create_folder("parent", "name"), Ok(()));
    assert_eq!(check_create_folder("", "name"), Err(BridgeError::InvalidArg));
    assert_eq!(check_create_folder("parent", ""), Err(BridgeError::InvalidArg));
    assert_eq!(check_create_folder("", ""), Err(BridgeError::InvalidArg));
}
