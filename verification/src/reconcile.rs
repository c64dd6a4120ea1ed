use vstd::prelude::*;

use crate::folder::Folder;
use crate::folder::FolderView;
use crate::folder::get_filter_id;
use crate::folder::get_filter_title;
use crate::folder::set_filter_id;
use crate::folder::spec_filter_id;
use crate::folder::spec_filter_title;
use crate::folder::spec_set_filter_id;
use crate::merge::merge_filters;
use crate::merge::spec_merge_filters;
use crate::strutil::opt_str_eq;

verus! {

/// The smallest id the service hands out for a custom folder.
pub const MIN_CUSTOM_FILTER_ID: i32 = 2;

/// The abstract forms of a list of folders.
pub open spec fn folder_views(s: Seq<Folder>) -> Seq<FolderView> {
    Seq::new(s.len(), |i: int| s[i]@)
}

/// The position of the first current folder whose title equals the given one
/// (with the default folder exposing no title), or -1 when none does.
pub open spec fn spec_find_matching(currents: Seq<FolderView>, title: Option<Seq<char>>) -> int
    decreases currents.len(),
{
    if currents.len() == 0 {
        -1
    } else if spec_filter_title(currents[0]) == title {
        0
    } else {
        let r = spec_find_matching(currents.drop_first(), title);
        if r < 0 {
            -1
        } else {
            r + 1
        }
    }
}

proof fn lemma_find_matching_bounds(currents: Seq<FolderView>, title: Option<Seq<char>>)
    ensures
        ({
            let r = spec_find_matching(currents, title);
            &&& -1 <= r < currents.len()
            &&& (r == -1 <==> forall|k: int|
                0 <= k < currents.len() ==> spec_filter_title(#[trigger] currents[k]) != title)
            &&& (r >= 0 ==> spec_filter_title(currents[r]) == title && forall|k: int|
                0 <= k < r ==> spec_filter_title(#[trigger] currents[k]) != title)
        }),
    decreases currents.len(),
{
    if currents.len() > 0 && spec_filter_title(currents[0]) != title {
        lemma_find_matching_bounds(currents.drop_first(), title);
        assert(forall|k: int|
            1 <= k < currents.len() ==> currents.drop_first()[k - 1] == #[trigger] currents[k]);
    }
}

/// The index of the first current folder carrying the same title as the
/// given folder, or `None` when no title matches. Matching goes by title
/// alone: the remote service reuses numeric ids once a folder is deleted and
/// recreated, so an id identifies nothing across runs.
pub fn find_matching_filter(current_filters: &Vec<Folder>, saved_filter: &Folder) -> (r: Option<
    usize,
>)
    ensures
        match r {
            Some(j) => j < current_filters@.len() && spec_find_matching(
                folder_views(current_filters@),
                spec_filter_title(saved_filter@),
            ) == j as int,
            None => spec_find_matching(
                folder_views(current_filters@),
                spec_filter_title(saved_filter@),
            ) == -1,
        },
{
    proof {
        lemma_find_matching_bounds(
            folder_views(current_filters@),
            spec_filter_title(saved_filter@),
        );
    }
    let saved_title = get_filter_title(saved_filter);
    let mut k: usize = 0;
    while k < current_filters.len()
        invariant
            k <= current_filters@.len(),
            match saved_title {
                Some(t) => spec_filter_title(saved_filter@) == Some(t@),
                None => spec_filter_title(saved_filter@) is None,
            },
            forall|j: int|
                0 <= j < k ==> spec_filter_title(#[trigger] folder_views(current_filters@)[j])
                    != spec_filter_title(saved_filter@),
        decreases current_filters@.len() - k,
    {
        let cur_title = get_filter_title(&current_filters[k]);
        if opt_str_eq(cur_title, saved_title) {
            proof {
                assert(spec_filter_title(folder_views(current_filters@)[k as int])
                    == spec_filter_title(saved_filter@));
                lemma_find_matching_bounds(
                    folder_views(current_filters@),
                    spec_filter_title(saved_filter@),
                );
            }
            return Some(k);
        }
        k += 1;
    }
    None
}

/// The larger of two optional values, a present one beating an absent one.
pub open spec fn opt_max(a: Option<int>, b: Option<int>) -> Option<int> {
    match a {
        None => b,
        Some(x) => match b {
            None => a,
            Some(y) => if x > y {
                a
            } else {
                b
            },
        },
    }
}

/// The greatest id any of the folders exposes, `None` when none exposes one.
pub open spec fn spec_max_filter_id(fs: Seq<FolderView>) -> Option<int>
    decreases fs.len(),
{
    if fs.len() == 0 {
        None
    } else {
        opt_max(spec_filter_id(fs[0]), spec_max_filter_id(fs.drop_first()))
    }
}

/// The id a newly created folder receives: one past the greatest id in use,
/// or the smallest custom id when no folder exposes an id.
pub open spec fn spec_next_filter_id(currents: Seq<FolderView>) -> int {
    match spec_max_filter_id(currents) {
        None => MIN_CUSTOM_FILTER_ID as int,
        Some(m) => m + 1,
    }
}

#[verifier::loop_isolation(false)]
pub fn find_next_available_filter_id(filters: &Vec<Folder>) -> (r: i32)
    requires
        spec_next_filter_id(folder_views(filters@)) <= i32::MAX,
    ensures
        r as int == spec_next_filter_id(folder_views(filters@)),
{
    let ghost views = folder_views(filters@);
    let mut biggest: Option<i32> = None;
    let mut k: usize = 0;
    proof {
        assert(views.skip(0) =~= views);
    }
    while k < filters.len()
        invariant
            k <= filters@.len(),
            spec_max_filter_id(views) == opt_max(
                match biggest {
                    None => None,
                    Some(b) => Some(b as int),
                },
                spec_max_filter_id(views.skip(k as int)),
            ),
        decreases filters@.len() - k,
    {
        let ghost pre = biggest;
        let id = get_filter_id(&filters[k]);
        match (id, biggest) {
            (Some(i), None) => {
                biggest = Some(i);
            },
            (Some(i), Some(b)) => {
                if i > b {
                    biggest = Some(i);
                }
            },
            (None, _) => {},
        }
        proof {
            let rest = views.skip(k as int);
            assert(rest[0] == views[k as int]);
            assert(rest.drop_first() =~= views.skip(k + 1 as int));
        }
        k += 1;
    }
    proof {
        assert(views.skip(views.len() as int) =~= Seq::<FolderView>::empty());
    }
    match biggest {
        None => MIN_CUSTOM_FILTER_ID,
        Some(id) => id + 1,
    }
}

/// One create-or-update request: the id it targets and the full folder
/// payload to store there.
#[derive(PartialEq, Eq, Debug)]
pub struct FolderUpdate {
    pub id: i32,
    pub folder: Folder,
}

/// The abstract form of one request.
pub struct UpdateView {
    pub id: int,
    pub folder: FolderView,
}

impl View for FolderUpdate {
    type V = UpdateView;

    open spec fn view(&self) -> UpdateView {
        UpdateView { id: self.id as int, folder: self.folder@ }
    }
}

/// The abstract forms of a list of requests.
pub open spec fn update_views(s: Seq<FolderUpdate>) -> Seq<UpdateView> {
    Seq::new(s.len(), |i: int| s[i]@)
}

/// The ordered plan that reconciles the desired folders against the current
/// ones: each desired folder in turn either updates its title match — merged,
/// under the current folder's id — or, with no match, is created under a
/// freshly allocated id; a desired folder whose match exposes no id (the
/// default folder) is skipped.
pub open spec fn spec_plan(
    currents: Seq<FolderView>,
    desireds: Seq<FolderView>,
    next_id: int,
) -> Seq<UpdateView>
    decreases desireds.len(),
{
    if desireds.len() == 0 {
        Seq::empty()
    } else {
        let d = desireds[0];
        let j = spec_find_matching(currents, spec_filter_title(d));
        if j >= 0 {
            match spec_filter_id(currents[j]) {
                None => spec_plan(currents, desireds.drop_first(), next_id),
                Some(cid) => seq![
                    UpdateView {
                        id: cid,
                        folder: spec_set_filter_id(spec_merge_filters(currents[j], d), cid),
                    },
                ] + spec_plan(currents, desireds.drop_first(), next_id),
            }
        } else {
            seq![UpdateView { id: next_id, folder: d }] + spec_plan(
                currents,
                desireds.drop_first(),
                next_id + 1,
            )
        }
    }
}

/// Computes the requests that make the remote folders carry the desired
/// layout, merging folders that already exist rather than overwriting them.
///
/// The folder matching goes by title, never by id: an update targets the id
/// the current folder holds today, and any id embedded in a desired folder
/// plays no part. New folders receive ids counted up from one past the
/// greatest id in use.
#[verifier::loop_isolation(false)]
pub fn plan_folder_updates(current_filters: &Vec<Folder>, desired_filters: &Vec<Folder>) -> (r:
    Vec<FolderUpdate>)
    requires
        spec_next_filter_id(folder_views(current_filters@)) + desired_filters@.len() <= i32::MAX,
    ensures
        update_views(r@) == spec_plan(
            folder_views(current_filters@),
            folder_views(desired_filters@),
            spec_next_filter_id(folder_views(current_filters@)),
        ),
{
    let ghost currents = folder_views(current_filters@);
    let ghost desireds = folder_views(desired_filters@);
    let ghost next0 = spec_next_filter_id(currents);
    let mut next_id: i32 = find_next_available_filter_id(current_filters);
    let mut result: Vec<FolderUpdate> = Vec::new();
    let mut k: usize = 0;
    proof {
        assert(desireds.skip(0) =~= desireds);
    }
    while k < desired_filters.len()
        invariant
            k <= desired_filters@.len(),
            next_id as int + (desireds.len() - k) <= i32::MAX,
            spec_plan(currents, desireds, next0) == update_views(result@) + spec_plan(
                currents,
                desireds.skip(k as int),
                next_id as int,
            ),
        decreases desired_filters@.len() - k,
    {
        let ghost pre = result@;
        let ghost rest = desireds.skip(k as int);
        proof {
            assert(rest[0] == desireds[k as int]);
            assert(rest.drop_first() =~= desireds.skip(k + 1 as int));
        }
        let saved = &desired_filters[k];
        match find_matching_filter(current_filters, saved) {
            Some(j) => {
                match get_filter_id(&current_filters[j]) {
                    Some(cid) => {
                        let mut merged = merge_filters(&current_filters[j], saved);
                        set_filter_id(&mut merged, cid);
                        result.push(FolderUpdate { id: cid, folder: merged });
                        proof {
                            assert(update_views(result@) =~= update_views(pre) + seq![
                                result@[result@.len() - 1]@,
                            ]);
                            assert(update_views(result@) + spec_plan(
                                currents,
                                desireds.skip(k + 1 as int),
                                next_id as int,
                            ) =~= spec_plan(currents, desireds, next0));
                        }
                    },
                    None => {},
                }
            },
            None => {
                let new_id = next_id;
                next_id = next_id + 1;
                result.push(FolderUpdate { id: new_id, folder: saved.clone() });
                proof {
                    assert(update_views(result@) =~= update_views(pre) + seq![
                        result@[result@.len() - 1]@,
                    ]);
                    assert(update_views(result@) + spec_plan(
                        currents,
                        desireds.skip(k + 1 as int),
                        next_id as int,
                    ) =~= spec_plan(currents, desireds, next0));
                }
            },
        }
        k += 1;
    }
    proof {
        assert(desireds.skip(desireds.len() as int) =~= Seq::<FolderView>::empty());
        assert(update_views(result@) =~= update_views(result@) + spec_plan(
            currents,
            desireds.skip(desireds.len() as int),
            next_id as int,
        ));
    }
    result
}

/// Folder matching is by title, not id: when the first desired folder matches
/// a current folder that exposes an id, the emitted request targets exactly
/// that id, whatever id the desired folder itself embeds.
pub proof fn lemma_match_by_title(
    currents: Seq<FolderView>,
    desireds: Seq<FolderView>,
    next_id: int,
)
    requires
        desireds.len() > 0,
        ({
            let j = spec_find_matching(currents, spec_filter_title(desireds[0]));
            j >= 0 && spec_filter_id(currents[j]) is Some
        }),
    ensures
        ({
            let j = spec_find_matching(currents, spec_filter_title(desireds[0]));
            let cid = spec_filter_id(currents[j]).unwrap();
            spec_plan(currents, desireds, next_id)[0] == UpdateView {
                id: cid,
                folder: spec_set_filter_id(spec_merge_filters(currents[j], desireds[0]), cid),
            }
        }),
{
}

/// Whether some current folder holds this id.
pub open spec fn id_in_current(currents: Seq<FolderView>, id: int) -> bool {
    exists|k: int| 0 <= k < currents.len() && spec_filter_id(#[trigger] currents[k]) == Some(id)
}

/// Whether this id is fresh for the current folders: at least the reserved
/// minimum, and strictly greater than every id a current folder holds.
pub open spec fn id_fresh_for(currents: Seq<FolderView>, id: int) -> bool {
    &&& id >= MIN_CUSTOM_FILTER_ID as int
    &&& forall|k: int|
        0 <= k < currents.len() ==> match spec_filter_id(#[trigger] currents[k]) {
            Some(cid) => cid < id,
            None => true,
        }
}

proof fn lemma_max_bounds(fs: Seq<FolderView>)
    ensures
        spec_max_filter_id(fs) matches Some(m) ==> id_in_current(fs, m),
        forall|k: int|
            0 <= k < fs.len() ==> match spec_filter_id(#[trigger] fs[k]) {
                Some(id) => spec_max_filter_id(fs) matches Some(m) && id <= m,
                None => true,
            },
    decreases fs.len(),
{
    if fs.len() > 0 {
        let rest = fs.drop_first();
        lemma_max_bounds(rest);
        assert(forall|k: int| 1 <= k < fs.len() ==> rest[k - 1] == #[trigger] fs[k]);
        match spec_max_filter_id(fs) {
            None => {},
            Some(m) => {
                if spec_filter_id(fs[0]) == Some(m) {
                    assert(id_in_current(fs, m));
                } else {
                    assert(spec_max_filter_id(rest) == Some(m));
                    let k = choose|k: int|
                        0 <= k < rest.len() && spec_filter_id(#[trigger] rest[k]) == Some(m);
                    assert(spec_filter_id(fs[k + 1]) == Some(m));
                    assert(id_in_current(fs, m));
                }
            },
        }
    }
}

/// The allocator's starting point is fresh: one past the greatest id in use
/// is at least the reserved minimum and above every current folder's id.
///
/// The service only hands out ids at or above the reserved minimum, so every
/// observed id is assumed to be; with a stray id below it the allocator would
/// continue from that id instead.
pub proof fn lemma_next_id_fresh(currents: Seq<FolderView>)
    requires
        forall|k: int|
            0 <= k < currents.len() ==> match spec_filter_id(#[trigger] currents[k]) {
                Some(cid) => cid >= MIN_CUSTOM_FILTER_ID as int,
                None => true,
            },
    ensures
        id_fresh_for(currents, spec_next_filter_id(currents)),
{
    lemma_max_bounds(currents);
    let next = spec_next_filter_id(currents);
    assert forall|k: int|
        0 <= k < currents.len() implies match spec_filter_id(#[trigger] currents[k]) {
        Some(cid) => cid < next,
        None => true,
    } by {
        match spec_filter_id(currents[k]) {
            None => {},
            Some(cid) => {
                match spec_max_filter_id(currents) {
                    None => {
                        assert(false);
                    },
                    Some(m) => {
                        assert(cid <= m);
                        assert(next == m + 1);
                    },
                }
            },
        }
    }
}

/// Freshly allocated ids never collide: every request the plan emits targets
/// either an id some current folder already holds (an update, merged in
/// place) or a fresh id — at least the reserved minimum and strictly greater
/// than every currently observed id (a creation).
pub proof fn lemma_plan_targets(
    currents: Seq<FolderView>,
    desireds: Seq<FolderView>,
    next_id: int,
)
    requires
        id_fresh_for(currents, next_id),
    ensures
        forall|j: int|
            0 <= j < spec_plan(currents, desireds, next_id).len() ==> {
                let id = (#[trigger] spec_plan(currents, desireds, next_id)[j]).id;
                id_in_current(currents, id) || id_fresh_for(currents, id)
            },
    decreases desireds.len(),
{
    if desireds.len() > 0 {
        let d = desireds[0];
        let jm = spec_find_matching(currents, spec_filter_title(d));
        lemma_find_matching_bounds(currents, spec_filter_title(d));
        if jm >= 0 {
            match spec_filter_id(currents[jm]) {
                None => {
                    lemma_plan_targets(currents, desireds.drop_first(), next_id);
                },
                Some(cid) => {
                    lemma_plan_targets(currents, desireds.drop_first(), next_id);
                    assert(id_in_current(currents, cid));
                },
            }
        } else {
            assert(id_fresh_for(currents, next_id + 1));
            lemma_plan_targets(currents, desireds.drop_first(), next_id + 1);
        }
    }
}

/// The ids of all current folders that expose one, in order: what the clear
/// command deletes (the default folder, exposing none, is left standing).
pub open spec fn spec_clear_plan(currents: Seq<FolderView>) -> Seq<int>
    decreases currents.len(),
{
    if currents.len() == 0 {
        Seq::empty()
    } else {
        match spec_filter_id(currents[0]) {
            None => spec_clear_plan(currents.drop_first()),
            Some(id) => seq![id] + spec_clear_plan(currents.drop_first()),
        }
    }
}

/// The ids whose folders the clear command deletes, in the current order.
#[verifier::loop_isolation(false)]
pub fn plan_folder_clear(current_filters: &Vec<Folder>) -> (r: Vec<i32>)
    ensures
        r@.map_values(|id: i32| id as int) == spec_clear_plan(folder_views(current_filters@)),
{
    let ghost currents = folder_views(current_filters@);
    let mut result: Vec<i32> = Vec::new();
    let mut k: usize = 0;
    proof {
        assert(currents.skip(0) =~= currents);
    }
    while k < current_filters.len()
        invariant
            k <= current_filters@.len(),
            spec_clear_plan(currents) == result@.map_values(|id: i32| id as int)
                + spec_clear_plan(currents.skip(k as int)),
        decreases current_filters@.len() - k,
    {
        let ghost pre = result@;
        let ghost rest = currents.skip(k as int);
        proof {
            assert(rest[0] == currents[k as int]);
            assert(rest.drop_first() =~= currents.skip(k + 1 as int));
        }
        match get_filter_id(&current_filters[k]) {
            Some(id) => {
                result.push(id);
                proof {
                    assert(result@.map_values(|id: i32| id as int) =~= pre.map_values(
                        |id: i32| id as int,
                    ) + seq![result@[result@.len() - 1] as int]);
                    assert(result@.map_values(|id: i32| id as int) + spec_clear_plan(
                        currents.skip(k + 1 as int),
                    ) =~= spec_clear_plan(currents));
                }
            },
            None => {},
        }
        k += 1;
    }
    proof {
        assert(currents.skip(currents.len() as int) =~= Seq::<FolderView>::empty());
        assert(result@.map_values(|id: i32| id as int) =~= result@.map_values(|id: i32| id as int)
            + spec_clear_plan(currents.skip(currents.len() as int)));
    }
    result
}

} // verus!
