use vstd::prelude::*;

use crate::folder::ChatlistFolder;
use crate::folder::ChatlistView;
use crate::folder::Folder;
use crate::folder::FolderView;
use crate::folder::PlainFolder;
use crate::folder::PlainView;
use crate::peer::PeerRef;
use crate::peer::clone_peers;
use crate::peer::contains_peer;
use crate::strutil::clone_opt_string;

verus! {

/// The first option when present, else the second.
pub open spec fn opt_or<T>(a: Option<T>, b: Option<T>) -> Option<T> {
    if a is Some {
        a
    } else {
        b
    }
}

/// The peer-list union: each incoming peer the target does not hold yet is
/// appended, in incoming order; one the target already holds is left alone.
///
/// Deduplicating against the target is a deliberate choice: it keeps the
/// merge idempotent, so reapplying an unchanged desired layout does not grow
/// the lists.
pub open spec fn spec_merge_peers(target: Seq<PeerRef>, incoming: Seq<PeerRef>) -> Seq<PeerRef>
    decreases incoming.len(),
{
    if incoming.len() == 0 {
        target
    } else {
        let t2 = if target.contains(incoming[0]) {
            target
        } else {
            target.push(incoming[0])
        };
        spec_merge_peers(t2, incoming.drop_first())
    }
}

/// Appends to `updated` the peers of `new_items` it does not hold yet, in
/// their order; peers it already holds are not appended again (see
/// [`spec_merge_peers`] for why the union deduplicates).
#[verifier::loop_isolation(false)]
pub fn merge_peer_lists(updated: &mut Vec<PeerRef>, new_items: &Vec<PeerRef>)
    ensures
        final(updated)@ == spec_merge_peers(old(updated)@, new_items@),
{
    let mut j: usize = 0;
    proof {
        assert(new_items@.skip(0) =~= new_items@);
    }
    while j < new_items.len()
        invariant
            j <= new_items@.len(),
            spec_merge_peers(old(updated)@, new_items@) == spec_merge_peers(
                updated@,
                new_items@.skip(j as int),
            ),
        decreases new_items@.len() - j,
    {
        let ghost pre = updated@;
        let item = &new_items[j];
        if !contains_peer(updated, item) {
            updated.push(item.clone());
        }
        proof {
            let rest = new_items@.skip(j as int);
            assert(rest[0] == new_items@[j as int]);
            assert(rest.drop_first() =~= new_items@.skip(j + 1 as int));
            assert(spec_merge_peers(pre, rest) == spec_merge_peers(
                updated@,
                new_items@.skip(j + 1 as int),
            ));
        }
        j += 1;
    }
    proof {
        assert(new_items@.skip(new_items@.len() as int) =~= Seq::<PeerRef>::empty());
    }
}

/// The merge of two chatlist folders: invite flags joined by or, the first
/// folder's id and title, its decoration where it has one, and the peer-list
/// unions.
pub open spec fn spec_merge_chatlists(first: ChatlistView, second: ChatlistView) -> ChatlistView {
    ChatlistView {
        has_my_invites: first.has_my_invites || second.has_my_invites,
        id: first.id,
        title: first.title,
        emoticon: opt_or(first.emoticon, second.emoticon),
        color: opt_or(first.color, second.color),
        pinned_peers: spec_merge_peers(first.pinned_peers, second.pinned_peers),
        include_peers: spec_merge_peers(first.include_peers, second.include_peers),
    }
}

/// The merge of two plain filter folders: every flag joined by or, the first
/// folder's id and title, its decoration where it has one, and the peer-list
/// unions over all three lists.
pub open spec fn spec_merge_plains(first: PlainView, second: PlainView) -> PlainView {
    PlainView {
        contacts: first.contacts || second.contacts,
        non_contacts: first.non_contacts || second.non_contacts,
        groups: first.groups || second.groups,
        broadcasts: first.broadcasts || second.broadcasts,
        bots: first.bots || second.bots,
        exclude_muted: first.exclude_muted || second.exclude_muted,
        exclude_read: first.exclude_read || second.exclude_read,
        exclude_archived: first.exclude_archived || second.exclude_archived,
        id: first.id,
        title: first.title,
        emoticon: opt_or(first.emoticon, second.emoticon),
        color: opt_or(first.color, second.color),
        pinned_peers: spec_merge_peers(first.pinned_peers, second.pinned_peers),
        include_peers: spec_merge_peers(first.include_peers, second.include_peers),
        exclude_peers: spec_merge_peers(first.exclude_peers, second.exclude_peers),
    }
}

/// The merge of a plain filter with a chatlist folder: the plain filter is
/// the richer schema, so its flags, id, title and exclude list stand, with
/// the decoration precedence and the two shared peer-list unions applied.
pub open spec fn spec_merge_plain_with_chatlist(first: PlainView, second: ChatlistView) -> PlainView {
    PlainView {
        emoticon: opt_or(first.emoticon, second.emoticon),
        color: opt_or(first.color, second.color),
        pinned_peers: spec_merge_peers(first.pinned_peers, second.pinned_peers),
        include_peers: spec_merge_peers(first.include_peers, second.include_peers),
        ..first
    }
}

/// The merge of two folders of any kind: a default on either side gives a
/// default (never sent anywhere); two folders of one kind merge kind-wise;
/// mixed kinds merge into a plain filter, the richer schema.
pub open spec fn spec_merge_filters(current: FolderView, saved: FolderView) -> FolderView {
    match current {
        FolderView::Default => FolderView::Default,
        FolderView::Plain(cur) => match saved {
            FolderView::Default => FolderView::Default,
            FolderView::Plain(sav) => FolderView::Plain(spec_merge_plains(cur, sav)),
            FolderView::Chatlist(sav) => FolderView::Plain(
                spec_merge_plain_with_chatlist(cur, sav),
            ),
        },
        FolderView::Chatlist(cur) => match saved {
            FolderView::Default => FolderView::Default,
            FolderView::Plain(sav) => FolderView::Plain(spec_merge_plain_with_chatlist(sav, cur)),
            FolderView::Chatlist(sav) => FolderView::Chatlist(spec_merge_chatlists(cur, sav)),
        },
    }
}

fn or_opt_string(a: &Option<String>, b: &Option<String>) -> (r: Option<String>)
    ensures
        r.deep_view() == opt_or(a.deep_view(), b.deep_view()),
{
    match a {
        Some(x) => Some(x.clone()),
        None => clone_opt_string(b),
    }
}

fn or_opt_color(a: Option<i32>, b: Option<i32>) -> (r: Option<i32>)
    ensures
        r == opt_or(a, b),
{
    match a {
        Some(x) => Some(x),
        None => b,
    }
}

/// Merges two chatlist folders, the first one's fields taking precedence.
pub fn merge_two_chat_lists(first: &ChatlistFolder, second: &ChatlistFolder) -> (r: Folder)
    ensures
        r@ == FolderView::Chatlist(spec_merge_chatlists(first@, second@)),
{
    let mut pinned = clone_peers(&first.pinned_peers);
    merge_peer_lists(&mut pinned, &second.pinned_peers);
    let mut included = clone_peers(&first.include_peers);
    merge_peer_lists(&mut included, &second.include_peers);
    Folder::Chatlist(
        ChatlistFolder {
            has_my_invites: first.has_my_invites || second.has_my_invites,
            id: first.id,
            title: first.title.clone(),
            emoticon: or_opt_string(&first.emoticon, &second.emoticon),
            color: or_opt_color(first.color, second.color),
            pinned_peers: pinned,
            include_peers: included,
        },
    )
}

/// Merges two plain filter folders, the first one's fields taking precedence.
pub fn merge_two_filters(first: &PlainFolder, second: &PlainFolder) -> (r: Folder)
    ensures
        r@ == FolderView::Plain(spec_merge_plains(first@, second@)),
{
    let mut pinned = clone_peers(&first.pinned_peers);
    merge_peer_lists(&mut pinned, &second.pinned_peers);
    let mut included = clone_peers(&first.include_peers);
    merge_peer_lists(&mut included, &second.include_peers);
    let mut exclude = clone_peers(&first.exclude_peers);
    merge_peer_lists(&mut exclude, &second.exclude_peers);
    Folder::Plain(
        PlainFolder {
            contacts: first.contacts || second.contacts,
            non_contacts: first.non_contacts || second.non_contacts,
            groups: first.groups || second.groups,
            broadcasts: first.broadcasts || second.broadcasts,
            bots: first.bots || second.bots,
            exclude_muted: first.exclude_muted || second.exclude_muted,
            exclude_read: first.exclude_read || second.exclude_read,
            exclude_archived: first.exclude_archived || second.exclude_archived,
            id: first.id,
            title: first.title.clone(),
            emoticon: or_opt_string(&first.emoticon, &second.emoticon),
            color: or_opt_color(first.color, second.color),
            pinned_peers: pinned,
            include_peers: included,
            exclude_peers: exclude,
        },
    )
}

/// Merges a chatlist folder into a plain filter; the plain filter holds more
/// fields, so the result is a plain filter.
pub fn merge_chat_list_with_filter(first: &PlainFolder, second: &ChatlistFolder) -> (r: Folder)
    ensures
        r@ == FolderView::Plain(spec_merge_plain_with_chatlist(first@, second@)),
{
    let mut pinned = clone_peers(&first.pinned_peers);
    merge_peer_lists(&mut pinned, &second.pinned_peers);
    let mut included = clone_peers(&first.include_peers);
    merge_peer_lists(&mut included, &second.include_peers);
    Folder::Plain(
        PlainFolder {
            contacts: first.contacts,
            non_contacts: first.non_contacts,
            groups: first.groups,
            broadcasts: first.broadcasts,
            bots: first.bots,
            exclude_muted: first.exclude_muted,
            exclude_read: first.exclude_read,
            exclude_archived: first.exclude_archived,
            id: first.id,
            title: first.title.clone(),
            emoticon: or_opt_string(&first.emoticon, &second.emoticon),
            color: or_opt_color(first.color, second.color),
            pinned_peers: pinned,
            include_peers: included,
            exclude_peers: clone_peers(&first.exclude_peers),
        },
    )
}

/// Merges the currently stored folder with the newly desired one, kind-wise.
pub fn merge_filters(current_filter: &Folder, saved_filter: &Folder) -> (r: Folder)
    ensures
        r@ == spec_merge_filters(current_filter@, saved_filter@),
{
    match current_filter {
        Folder::Default => Folder::Default,
        Folder::Plain(current_df) => match saved_filter {
            Folder::Default => Folder::Default,
            Folder::Plain(saved_df) => merge_two_filters(current_df, saved_df),
            Folder::Chatlist(saved_cl) => merge_chat_list_with_filter(current_df, saved_cl),
        },
        Folder::Chatlist(current_cl) => match saved_filter {
            Folder::Default => Folder::Default,
            Folder::Plain(saved_df) => merge_chat_list_with_filter(saved_df, current_cl),
            Folder::Chatlist(saved_cl) => merge_two_chat_lists(current_cl, saved_cl),
        },
    }
}

proof fn lemma_merge_peers_absorbed(target: Seq<PeerRef>, incoming: Seq<PeerRef>)
    requires
        forall|k: int| 0 <= k < incoming.len() ==> target.contains(#[trigger] incoming[k]),
    ensures
        spec_merge_peers(target, incoming) == target,
    decreases incoming.len(),
{
    if incoming.len() > 0 {
        assert(target.contains(incoming[0]));
        assert(forall|k: int|
            0 <= k < incoming.drop_first().len() ==> target.contains(
                #[trigger] incoming.drop_first()[k],
            ));
        lemma_merge_peers_absorbed(target, incoming.drop_first());
    }
}

/// Merge idempotence: merging a folder with itself gives the folder back,
/// field for field. A second reconciliation of an unchanged desired layout
/// therefore computes exactly the folders that already stand — no field
/// drifts and no peer list grows.
pub proof fn lemma_merge_idempotent(f: FolderView)
    ensures
        spec_merge_filters(f, f) == f,
{
    match f {
        FolderView::Default => {},
        FolderView::Plain(p) => {
            lemma_merge_peers_absorbed(p.pinned_peers, p.pinned_peers);
            lemma_merge_peers_absorbed(p.include_peers, p.include_peers);
            lemma_merge_peers_absorbed(p.exclude_peers, p.exclude_peers);
            assert(spec_merge_plains(p, p) == p);
        },
        FolderView::Chatlist(c) => {
            lemma_merge_peers_absorbed(c.pinned_peers, c.pinned_peers);
            lemma_merge_peers_absorbed(c.include_peers, c.include_peers);
            assert(spec_merge_chatlists(c, c) == c);
        },
    }
}

} // verus!
