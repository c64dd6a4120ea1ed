use vstd::prelude::*;

verus! {

/// The kind of a dialog as seen in the chat list: a direct conversation with
/// one user, a group chat, or a broadcast channel / supergroup.
#[derive(Clone, Copy, PartialEq, Eq, Structural, Debug)]
pub enum DialogKind {
    User,
    Group,
    Channel,
}

/// The plain facts about one dialog that rule evaluation reads: its kind, its
/// numeric identity, its display name, its optional public handle, and whether
/// an extended-info fetch applies to it.
///
/// `info_available` is false for direct user conversations and for chats whose
/// remote record is empty or forbidden; for those an info-based condition is
/// false without any fetch, and that outcome is never retried.
#[derive(Debug)]
pub struct DialogSnapshot {
    pub kind: DialogKind,
    pub id: i64,
    pub title: String,
    pub username: Option<String>,
    pub info_available: bool,
}

} // verus!
