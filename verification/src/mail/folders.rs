//! Copying, moving and deleting folders.

use vstd::prelude::*;

verus! {

/// The identifier that the server gave a folder.
#[derive(Clone, Debug, PartialEq, Eq)]
pub struct FolderId {
    pub id: String,
    pub change_key: Option<String>,
}

/// The ways in which a request names a folder.
#[derive(Clone, Debug, PartialEq, Eq)]
pub enum BaseFolderId {
    /// By the identifier that the server gave it.
    FolderId { id: String, change_key: Option<String> },
    /// By a well-known name, such as the inbox.
    DistinguishedFolderId { id: String, change_key: Option<String> },
}

/// A folder as a response describes it, by kind.
#[derive(Clone, Debug, PartialEq, Eq)]
pub enum Folder {
    CalendarFolder { folder_id: Option<FolderId> },
    ContactsFolder { folder_id: Option<FolderId> },
    Folder { folder_id: Option<FolderId> },
    SearchFolder { folder_id: Option<FolderId> },
    TasksFolder { folder_id: Option<FolderId> },
}

/// The part of a response that answers for one folder of the request.
#[derive(Clone, Debug, PartialEq, Eq)]
pub struct FolderResponseMessage {
    pub folders: Vec<Folder>,
}

/// What a request to copy or to move folders carries.
#[derive(Clone, Debug, PartialEq, Eq)]
pub struct CopyMoveFolderData {
    pub to_folder_id: BaseFolderId,
    pub folder_ids: Vec<BaseFolderId>,
}

/// How the server is to dispose of what is deleted.
#[derive(Clone, Copy, Debug, PartialEq, Eq, Structural)]
pub enum DeleteType {
    HardDelete,
    MoveToDeletedItems,
    SoftDelete,
}

/// A request to delete folders.
#[derive(Clone, Debug, PartialEq, Eq)]
pub struct DeleteFolder {
    pub delete_type: DeleteType,
    pub folder_ids: Vec<BaseFolderId>,
}

/// How the server answered for one folder of a request to delete.
#[derive(Clone, Copy, Debug, PartialEq, Eq, Structural)]
pub enum DeleteOutcome {
    /// The folder is deleted.
    Deleted,
    /// The server knows no such folder.
    NotFound,
    /// The server refused for another reason.
    Failed,
}

/// The texts of a sequence of strings.
pub open spec fn texts(v: Seq<String>) -> Seq<Seq<char>> {
    Seq::new(v.len(), |i: int| v[i]@)
}

/// The name for the folder that the server identifies as `id`.
pub open spec fn names_folder(b: BaseFolderId, id: Seq<char>) -> bool {
    b matches BaseFolderId::FolderId { id: i, change_key } && i@ == id && change_key.is_none()
}

/// `names` holds one name for each identifier of `ids`, in the same order.
pub open spec fn names_folders(names: Seq<BaseFolderId>, ids: Seq<String>) -> bool {
    &&& names.len() == ids.len()
    &&& forall|i: int| 0 <= i < ids.len() ==> names_folder(#[trigger] names[i], ids[i]@)
}

/// The identifier that a response message gives for its folder: that of the
/// first folder it lists, if that is a plain folder and bears one.
pub open spec fn first_folder_id(m: FolderResponseMessage) -> Option<Seq<char>> {
    if m.folders@.len() == 0 {
        None
    } else {
        match m.folders@[0] {
            Folder::Folder { folder_id: Some(folder_id) } => Some(folder_id.id@),
            _ => None,
        }
    }
}

/// The identifiers that the messages of a response give, in their order.
/// A message that gives none is passed over.
pub open spec fn new_folder_ids(response: Seq<FolderResponseMessage>) -> Seq<Seq<char>>
    decreases response.len(),
{
    if response.len() == 0 {
        Seq::empty()
    } else {
        let rest = new_folder_ids(response.drop_last());
        match first_folder_id(response.last()) {
            Some(id) => rest.push(id),
            None => rest,
        }
    }
}

/// Names each folder of `ids` by its identifier, without a change key.
pub fn folder_ids_from(ids: &Vec<String>) -> (names: Vec<BaseFolderId>)
    ensures
        names_folders(names@, ids@),
{
    let mut names: Vec<BaseFolderId> = Vec::new();
    let mut i: usize = 0;
    while i < ids.len()
        invariant
            i <= ids.len(),
            names_folders(names@, ids@.take(i as int)),
        decreases ids.len() - i,
    {
        names.push(BaseFolderId::FolderId { id: ids[i].clone(), change_key: None });
        i += 1;
    }
    assert(ids@.take(ids.len() as int) =~= ids@);
    names
}

/// The request that copies or moves the folders `folder_ids` into the
/// folder `destination_folder_id`.
pub fn construct_request(destination_folder_id: String, folder_ids: Vec<String>) -> (request:
    CopyMoveFolderData)
    ensures
        names_folder(request.to_folder_id, destination_folder_id@),
        names_folders(request.folder_ids@, folder_ids@),
{
    CopyMoveFolderData {
        to_folder_id: BaseFolderId::FolderId { id: destination_folder_id, change_key: None },
        folder_ids: folder_ids_from(&folder_ids),
    }
}

/// The identifiers that the copied or moved folders now have, as the
/// response gives them.
pub fn get_new_ews_ids_from_response(response: Vec<FolderResponseMessage>) -> (ids: Vec<String>)
    ensures
        texts(ids@) == new_folder_ids(response@),
{
    let mut ids: Vec<String> = Vec::new();
    let mut i: usize = 0;
    while i < response.len()
        invariant
            i <= response.len(),
            texts(ids@) == new_folder_ids(response@.take(i as int)),
        decreases response.len() - i,
    {
        let ghost before = ids@;
        assert(response@.take(i + 1).drop_last() =~= response@.take(i as int));
        let message = &response[i];
        if message.folders.len() > 0 {
            match &message.folders[0] {
                Folder::Folder { folder_id: Some(folder_id) } => {
                    ids.push(folder_id.id.clone());
                    assert(texts(ids@) =~= texts(before).push(folder_id.id@));
                },
                _ => {},
            }
        }
        i += 1;
    }
    assert(response@.take(response.len() as int) =~= response@);
    ids
}

/// The request that deletes the folders `folder_ids` for good.
pub fn delete_folder_request(folder_ids: &Vec<String>) -> (request: DeleteFolder)
    ensures
        request.delete_type == DeleteType::HardDelete,
        names_folders(request.folder_ids@, folder_ids@),
{
    DeleteFolder { delete_type: DeleteType::HardDelete, folder_ids: folder_ids_from(folder_ids) }
}

/// Position `i` holds a refusal that the deletion cannot pass over.
pub open spec fn fatal_at(outcomes: Seq<DeleteOutcome>, i: int) -> bool {
    0 <= i < outcomes.len() && outcomes[i] == DeleteOutcome::Failed
}

/// Where the answers to a request to delete first report a failure that
/// matters. A folder that the server no longer knows is as good as deleted:
/// an earlier attempt removed it there and not here.
pub fn first_fatal_delete_error(outcomes: &Vec<DeleteOutcome>) -> (r: Option<usize>)
    ensures
        r.is_none() <==> forall|i: int| !fatal_at(outcomes@, i),
        r matches Some(at) ==> fatal_at(outcomes@, at as int) && forall|i: int|
            i < at ==> !fatal_at(outcomes@, i),
{
    let mut i: usize = 0;
    while i < outcomes.len()
        invariant
            i <= outcomes.len(),
            forall|k: int| k < i ==> !fatal_at(outcomes@, k),
        decreases outcomes.len() - i,
    {
        if outcomes[i] == DeleteOutcome::Failed {
            assert(fatal_at(outcomes@, i as int));
            return Some(i);
        }
        i += 1;
    }
    None
}

} // verus!
