use vstd::prelude::*;

use crate::peer::PeerRef;
use crate::peer::clone_peers;
use crate::strutil::clone_opt_string;

verus! {

/// A plain filter folder: membership flags over dialog categories, exclusion
/// flags, an id, a title, optional decoration, and three peer lists.
#[derive(PartialEq, Eq, Debug)]
pub struct PlainFolder {
    pub contacts: bool,
    pub non_contacts: bool,
    pub groups: bool,
    pub broadcasts: bool,
    pub bots: bool,
    pub exclude_muted: bool,
    pub exclude_read: bool,
    pub exclude_archived: bool,
    pub id: i32,
    pub title: String,
    pub emoticon: Option<String>,
    pub color: Option<i32>,
    pub pinned_peers: Vec<PeerRef>,
    pub include_peers: Vec<PeerRef>,
    pub exclude_peers: Vec<PeerRef>,
}

/// A chatlist-style folder: a shared-invites flag, an id, a title, optional
/// decoration, and two peer lists.
#[derive(PartialEq, Eq, Debug)]
pub struct ChatlistFolder {
    pub has_my_invites: bool,
    pub id: i32,
    pub title: String,
    pub emoticon: Option<String>,
    pub color: Option<i32>,
    pub pinned_peers: Vec<PeerRef>,
    pub include_peers: Vec<PeerRef>,
}

/// One remote folder: the immutable default folder, a plain filter, or a
/// chatlist filter.
#[derive(PartialEq, Eq, Debug)]
pub enum Folder {
    Default,
    Plain(PlainFolder),
    Chatlist(ChatlistFolder),
}

/// The abstract form of a plain filter folder.
pub struct PlainView {
    pub contacts: bool,
    pub non_contacts: bool,
    pub groups: bool,
    pub broadcasts: bool,
    pub bots: bool,
    pub exclude_muted: bool,
    pub exclude_read: bool,
    pub exclude_archived: bool,
    pub id: int,
    pub title: Seq<char>,
    pub emoticon: Option<Seq<char>>,
    pub color: Option<i32>,
    pub pinned_peers: Seq<PeerRef>,
    pub include_peers: Seq<PeerRef>,
    pub exclude_peers: Seq<PeerRef>,
}

/// The abstract form of a chatlist folder.
pub struct ChatlistView {
    pub has_my_invites: bool,
    pub id: int,
    pub title: Seq<char>,
    pub emoticon: Option<Seq<char>>,
    pub color: Option<i32>,
    pub pinned_peers: Seq<PeerRef>,
    pub include_peers: Seq<PeerRef>,
}

/// The abstract form of a remote folder.
pub enum FolderView {
    Default,
    Plain(PlainView),
    Chatlist(ChatlistView),
}

impl View for PlainFolder {
    type V = PlainView;

    open spec fn view(&self) -> PlainView {
        PlainView {
            contacts: self.contacts,
            non_contacts: self.non_contacts,
            groups: self.groups,
            broadcasts: self.broadcasts,
            bots: self.bots,
            exclude_muted: self.exclude_muted,
            exclude_read: self.exclude_read,
            exclude_archived: self.exclude_archived,
            id: self.id as int,
            title: self.title@,
            emoticon: self.emoticon.deep_view(),
            color: self.color,
            pinned_peers: self.pinned_peers@,
            include_peers: self.include_peers@,
            exclude_peers: self.exclude_peers@,
        }
    }
}

impl View for ChatlistFolder {
    type V = ChatlistView;

    open spec fn view(&self) -> ChatlistView {
        ChatlistView {
            has_my_invites: self.has_my_invites,
            id: self.id as int,
            title: self.title@,
            emoticon: self.emoticon.deep_view(),
            color: self.color,
            pinned_peers: self.pinned_peers@,
            include_peers: self.include_peers@,
        }
    }
}

impl View for Folder {
    type V = FolderView;

    open spec fn view(&self) -> FolderView {
        match self {
            Folder::Default => FolderView::Default,
            Folder::Plain(f) => FolderView::Plain(f@),
            Folder::Chatlist(c) => FolderView::Chatlist(c@),
        }
    }
}

/// The id a folder exposes; the default folder has none.
pub open spec fn spec_filter_id(f: FolderView) -> Option<int> {
    match f {
        FolderView::Default => None,
        FolderView::Plain(p) => Some(p.id),
        FolderView::Chatlist(c) => Some(c.id),
    }
}

/// The title a folder exposes; the default folder has none.
pub open spec fn spec_filter_title(f: FolderView) -> Option<Seq<char>> {
    match f {
        FolderView::Default => None,
        FolderView::Plain(p) => Some(p.title),
        FolderView::Chatlist(c) => Some(c.title),
    }
}

/// The folder with its id replaced; the default folder is left as it is.
pub open spec fn spec_set_filter_id(f: FolderView, id: int) -> FolderView {
    match f {
        FolderView::Default => FolderView::Default,
        FolderView::Plain(p) => FolderView::Plain(PlainView { id, ..p }),
        FolderView::Chatlist(c) => FolderView::Chatlist(ChatlistView { id, ..c }),
    }
}

/// The folder's numeric id, absent on the default folder.
pub fn get_filter_id(filter: &Folder) -> (r: Option<i32>)
    ensures
        match r {
            Some(id) => spec_filter_id(filter@) == Some(id as int),
            None => spec_filter_id(filter@) is None,
        },
{
    match filter {
        Folder::Plain(f) => Some(f.id),
        Folder::Default => None,
        Folder::Chatlist(c) => Some(c.id),
    }
}

/// Replaces the folder's id; the default folder is left untouched.
pub fn set_filter_id(filter: &mut Folder, id: i32)
    ensures
        final(filter)@ == spec_set_filter_id(old(filter)@, id as int),
{
    match filter {
        Folder::Plain(f) => {
            f.id = id;
        },
        Folder::Default => {},
        Folder::Chatlist(c) => {
            c.id = id;
        },
    }
}

/// The folder's title, absent on the default folder.
pub fn get_filter_title(filter: &Folder) -> (r: Option<&str>)
    ensures
        match r {
            Some(t) => spec_filter_title(filter@) == Some(t@),
            None => spec_filter_title(filter@) is None,
        },
{
    match filter {
        Folder::Plain(f) => Some(f.title.as_str()),
        Folder::Default => None,
        Folder::Chatlist(c) => Some(c.title.as_str()),
    }
}

impl Clone for PlainFolder {
    /// The clone reads the same as the original.
    fn clone(&self) -> (r: Self)
        ensures
            r@ == self@,
    {
        PlainFolder {
            contacts: self.contacts,
            non_contacts: self.non_contacts,
            groups: self.groups,
            broadcasts: self.broadcasts,
            bots: self.bots,
            exclude_muted: self.exclude_muted,
            exclude_read: self.exclude_read,
            exclude_archived: self.exclude_archived,
            id: self.id,
            title: self.title.clone(),
            emoticon: clone_opt_string(&self.emoticon),
            color: self.color,
            pinned_peers: clone_peers(&self.pinned_peers),
            include_peers: clone_peers(&self.include_peers),
            exclude_peers: clone_peers(&self.exclude_peers),
        }
    }
}

impl Clone for ChatlistFolder {
    /// The clone reads the same as the original.
    fn clone(&self) -> (r: Self)
        ensures
            r@ == self@,
    {
        ChatlistFolder {
            has_my_invites: self.has_my_invites,
            id: self.id,
            title: self.title.clone(),
            emoticon: clone_opt_string(&self.emoticon),
            color: self.color,
            pinned_peers: clone_peers(&self.pinned_peers),
            include_peers: clone_peers(&self.include_peers),
        }
    }
}

impl Clone for Folder {
    /// The clone reads the same as the original.
    fn clone(&self) -> (r: Self)
        ensures
            r@ == self@,
    {
        match self {
            Folder::Default => Folder::Default,
            Folder::Plain(f) => Folder::Plain(f.clone()),
            Folder::Chatlist(c) => Folder::Chatlist(c.clone()),
        }
    }
}

} // verus!
