//! Marking messages as junk, on servers that have an operation for it and
//! on those that do not.

use vstd::prelude::*;

verus! {

/// Versions of the server, oldest first.
#[allow(non_camel_case_types)]
#[derive(Clone, Copy, Debug, PartialEq, Eq, Structural)]
pub enum ExchangeServerVersion {
    Exchange2007,
    Exchange2007_SP1,
    Exchange2010,
    Exchange2010_SP1,
    Exchange2010_SP2,
    Exchange2013,
    Exchange2013_SP1,
}

/// The ways in which a request names an item.
#[derive(Clone, Debug, PartialEq, Eq)]
pub enum BaseItemId {
    ItemId { id: String, change_key: Option<String> },
}

/// How messages get to the junk folder.
#[derive(Clone, Copy, Debug, PartialEq, Eq, Structural)]
pub enum JunkPlan {
    /// By the operation made for it.
    MarkAsJunk,
    /// By moving them like any other message.
    MoveToFolder,
    /// Not at all: the server is too old for the one, and no folder is
    /// known for the other.
    Unsupported,
}

/// How the server answered for one message of a request to mark as junk.
#[derive(Clone, Debug, PartialEq, Eq)]
pub enum MarkAsJunkOutcome {
    /// The message was moved and now has this identifier.
    Moved { id: String },
    /// The server refused.
    Failed,
}

/// Why the answers to a request to mark as junk were not taken.
#[derive(Clone, Copy, Debug, PartialEq, Eq, Structural)]
pub enum JunkResponseError {
    /// The response has another number of messages than the request had
    /// items.
    UnexpectedResponseMessageCount { expected: usize, actual: usize },
    /// The message at this position reports a failure.
    Failed { at: usize },
}

impl ExchangeServerVersion {
    /// Place of the version in the order of releases.
    pub open spec fn rank(self) -> int {
        match self {
            ExchangeServerVersion::Exchange2007 => 0,
            ExchangeServerVersion::Exchange2007_SP1 => 1,
            ExchangeServerVersion::Exchange2010 => 2,
            ExchangeServerVersion::Exchange2010_SP1 => 3,
            ExchangeServerVersion::Exchange2010_SP2 => 4,
            ExchangeServerVersion::Exchange2013 => 5,
            ExchangeServerVersion::Exchange2013_SP1 => 6,
        }
    }

    /// The operation that marks as junk came with the release of 2013.
    pub open spec fn has_mark_as_junk(self) -> bool {
        self.rank() >= ExchangeServerVersion::Exchange2013.rank()
    }

    pub fn supports_mark_as_junk(self) -> (r: bool)
        ensures
            r == self.has_mark_as_junk(),
    {
        match self {
            ExchangeServerVersion::Exchange2013 => true,
            ExchangeServerVersion::Exchange2013_SP1 => true,
            _ => false,
        }
    }
}

pub open spec fn junk_plan_for(version: ExchangeServerVersion, legacy_destination_folder_id: Seq<char>) -> JunkPlan {
    if version.has_mark_as_junk() {
        JunkPlan::MarkAsJunk
    } else if legacy_destination_folder_id.len() > 0 {
        JunkPlan::MoveToFolder
    } else {
        JunkPlan::Unsupported
    }
}

/// How to get messages to the junk folder of a server of `version`, where
/// `legacy_destination_folder_id` names that folder if it is known.
pub fn plan_mark_as_junk(version: ExchangeServerVersion, legacy_destination_folder_id: &str) -> (r: JunkPlan)
    ensures
        r == junk_plan_for(version, legacy_destination_folder_id@),
{
    if version.supports_mark_as_junk() {
        JunkPlan::MarkAsJunk
    } else if !legacy_destination_folder_id.is_empty() {
        JunkPlan::MoveToFolder
    } else {
        JunkPlan::Unsupported
    }
}

/// `names` holds one name for each identifier of `ids`, in the same order,
/// none with a change key.
pub open spec fn names_items(names: Seq<BaseItemId>, ids: Seq<String>) -> bool {
    &&& names.len() == ids.len()
    &&& forall|i: int|
        0 <= i < ids.len() ==> (#[trigger] names[i] matches BaseItemId::ItemId { id, change_key } && id@
            == ids[i]@ && change_key.is_none())
}

/// Names each item of `ews_ids` by its identifier.
pub fn item_ids_from(ews_ids: &Vec<String>) -> (names: Vec<BaseItemId>)
    ensures
        names_items(names@, ews_ids@),
{
    let mut names: Vec<BaseItemId> = Vec::new();
    let mut i: usize = 0;
    while i < ews_ids.len()
        invariant
            i <= ews_ids.len(),
            names_items(names@, ews_ids@.take(i as int)),
        decreases ews_ids.len() - i,
    {
        names.push(BaseItemId::ItemId { id: ews_ids[i].clone(), change_key: None });
        i += 1;
    }
    assert(ews_ids@.take(ews_ids.len() as int) =~= ews_ids@);
    names
}

/// Position `i` holds a failure.
pub open spec fn failed_at(outcomes: Seq<MarkAsJunkOutcome>, i: int) -> bool {
    0 <= i < outcomes.len() && outcomes[i] is Failed
}

/// `ids` are the identifiers that `outcomes` give, one for one.
pub open spec fn ids_of_moved(ids: Seq<String>, outcomes: Seq<MarkAsJunkOutcome>) -> bool {
    &&& ids.len() == outcomes.len()
    &&& forall|i: int|
        0 <= i < outcomes.len() ==> (#[trigger] outcomes[i] matches MarkAsJunkOutcome::Moved { id } && id@
            == ids[i]@)
}

/// The new identifiers of the messages marked as junk, read from the
/// answers to a request for `expected` items.
///
/// A response with another number of answers is refused before any is
/// read. Otherwise the first failure decides, and only a response without
/// one gives identifiers: all of them, in the order of the request.
pub fn moved_item_ids(outcomes: &Vec<MarkAsJunkOutcome>, expected: usize) -> (r: Result<
    Vec<String>,
    JunkResponseError,
>)
    ensures
        outcomes@.len() != expected ==> r == Err::<Vec<String>, JunkResponseError>(
            JunkResponseError::UnexpectedResponseMessageCount { expected, actual: outcomes@.len() as usize },
        ),
        outcomes@.len() == expected ==> match r {
            Ok(ids) => ids_of_moved(ids@, outcomes@),
            Err(JunkResponseError::Failed { at }) => failed_at(outcomes@, at as int) && forall|i: int|
                i < at ==> !failed_at(outcomes@, i),
            Err(_) => false,
        },
        r.is_ok() <==> outcomes@.len() == expected && forall|i: int| !failed_at(outcomes@, i),
{
    if outcomes.len() != expected {
        return Err(
            JunkResponseError::UnexpectedResponseMessageCount { expected, actual: outcomes.len() },
        );
    }
    let mut ids: Vec<String> = Vec::new();
    let mut i: usize = 0;
    while i < outcomes.len()
        invariant
            i <= outcomes.len(),
            outcomes@.len() == expected,
            ids_of_moved(ids@, outcomes@.take(i as int)),
            forall|k: int| k < i ==> !failed_at(outcomes@, k),
        decreases outcomes.len() - i,
    {
        match &outcomes[i] {
            MarkAsJunkOutcome::Moved { id } => {
                ids.push(id.clone());
            },
            MarkAsJunkOutcome::Failed => {
                assert(failed_at(outcomes@, i as int));
                return Err(JunkResponseError::Failed { at: i });
            },
        }
        i += 1;
    }
    assert(outcomes@.take(outcomes.len() as int) =~= outcomes@);
    Ok(ids)
}

/// What a move to the junk folder leaves to report: the new identifiers,
/// unless the folder has to be read anew to learn them.
pub fn ids_after_move(new_ids: Vec<String>, requires_resync: bool) -> (r: Option<Vec<String>>)
    ensures
        requires_resync ==> r.is_none(),
        !requires_resync ==> r == Some(new_ids),
{
    if requires_resync {
        None
    } else {
        Some(new_ids)
    }
}

/// What the listener is told on success: the new identifiers, and whether
/// it has to fall back on reading the folder anew because there are none.
pub fn mark_as_junk(ids: Option<Vec<String>>) -> (r: (Vec<String>, bool))
    ensures
        r.1 == ids.is_none(),
        ids matches Some(v) ==> r.0 == v,
        ids.is_none() ==> r.0@.len() == 0,
{
    match ids {
        Some(v) => (v, false),
        None => (Vec::new(), true),
    }
}

} // verus!
