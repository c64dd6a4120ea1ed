use vstd::prelude::*;

use crate::condition::Condition;
use crate::condition::InfoCell;
use crate::condition::IoAnswer;
use crate::condition::IoRequest;
use crate::condition::Outcome;
use crate::condition::SpecEval;
use crate::condition::eval_condition;
use crate::condition::spec_eval;
use crate::dialog::DialogSnapshot;
use crate::folder::ChatlistFolder;
use crate::folder::ChatlistView;
use crate::folder::Folder;
use crate::folder::FolderView;
use crate::peer::PeerRef;
use crate::peer::clone_peers;
use crate::strutil::str_eq;

verus! {

/// One named rule of the rule file. The ordered list of rules is semantically
/// significant: a catch-all condition defers exactly to the rules before it.
pub struct Rule {
    pub name: String,
    pub condition: Condition,
}

/// The state of one dialog's walk through the ordered rule list: the rule it
/// stands at, the positions of the rules matched so far, the write-once
/// matched flag the catch-all leaf reads, the dialog's extended-info cache,
/// and the answers supplied for the current rule's evaluation attempt.
#[derive(Debug)]
pub struct DialogPass {
    pub rule_idx: usize,
    pub matched: Vec<usize>,
    pub has_matched: bool,
    pub info: InfoCell,
    pub answers: Vec<IoAnswer>,
}

/// What one step of the pass came to: every rule decided, outside work to
/// perform before the current rule can be decided, or the current rule
/// decided one way or the other.
#[derive(PartialEq, Eq, Debug)]
pub enum PassOutcome {
    Finished,
    Need(IoRequest),
    RuleDone(bool),
}

/// A pass is well formed when its matched flag agrees with its matched list —
/// the flag stands exactly when some rule has matched — and every recorded
/// match lies before the rule the pass stands at.
pub open spec fn pass_wf(p: DialogPass) -> bool {
    &&& p.has_matched <==> p.matched@.len() > 0
    &&& forall|i: int| 0 <= i < p.matched@.len() ==> #[trigger] p.matched@[i] < p.rule_idx
}

impl DialogPass {
    /// A fresh pass for one dialog: standing at the first rule, nothing
    /// matched, nothing cached, no answers.
    pub fn new() -> (r: DialogPass)
        ensures
            r.rule_idx == 0,
            r.matched@ == Seq::<usize>::empty(),
            !r.has_matched,
            r.info@ is None,
            r.answers@ == Seq::<IoAnswer>::empty(),
            pass_wf(r),
    {
        let r = DialogPass {
            rule_idx: 0,
            matched: Vec::new(),
            has_matched: false,
            info: InfoCell::Unknown,
            answers: Vec::new(),
        };
        proof {
            assert(r.matched@ =~= Seq::<usize>::empty());
            assert(r.answers@ =~= Seq::<IoAnswer>::empty());
        }
        r
    }

    /// Hands the pass the answer to the request its last step raised.
    pub fn supply(&mut self, a: IoAnswer)
        ensures
            final(self).answers@ == old(self).answers@.push(a),
            final(self).rule_idx == old(self).rule_idx,
            final(self).matched == old(self).matched,
            final(self).has_matched == old(self).has_matched,
            final(self).info == old(self).info,
    {
        self.answers.push(a);
    }

    /// Attempts the rule the pass stands at, over the answers supplied so
    /// far.
    ///
    /// Past the last rule the pass is finished. A blocked evaluation leaves
    /// the pass as it was and hands out the request. A decided one advances
    /// the pass one rule: a match records the rule's position and raises the
    /// matched flag (rules keep being tried afterwards — one dialog may match
    /// several rules), the answer queue empties, and a successful info fetch
    /// stays cached for the dialog's remaining rules.
    pub fn step(&mut self, rules: &Vec<Rule>, d: &DialogSnapshot) -> (r: PassOutcome)
        ensures
            ({
                let idx = old(self).rule_idx;
                if idx >= rules@.len() {
                    r == PassOutcome::Finished && *final(self) == *old(self)
                } else {
                    match spec_eval(
                        rules@[idx as int].condition,
                        *d,
                        old(self).has_matched,
                        old(self).answers@,
                        0,
                        old(self).info@,
                    ) {
                        SpecEval::Need(q) => (r matches PassOutcome::Need(req) && req@ == q)
                            && *final(self) == *old(self),
                        SpecEval::Done { value, cursor: _, info } => {
                            &&& r == PassOutcome::RuleDone(value)
                            &&& final(self).rule_idx == idx + 1
                            &&& final(self).matched@ == if value {
                                old(self).matched@.push(idx)
                            } else {
                                old(self).matched@
                            }
                            &&& final(self).has_matched == (old(self).has_matched || value)
                            &&& final(self).info@ == info
                            &&& final(self).answers@ == Seq::<IoAnswer>::empty()
                        },
                    }
                }
            }),
            pass_wf(*old(self)) ==> pass_wf(*final(self)),
    {
        if self.rule_idx >= rules.len() {
            return PassOutcome::Finished;
        }
        let mut cursor: usize = 0;
        let mut cell = match &self.info {
            InfoCell::Unknown => InfoCell::Unknown,
            InfoCell::Cached(s) => InfoCell::Cached(s.clone()),
        };
        let r = eval_condition(
            &rules[self.rule_idx].condition,
            d,
            self.has_matched,
            &self.answers,
            &mut cursor,
            &mut cell,
        );
        match r {
            Outcome::Need(q) => PassOutcome::Need(q),
            Outcome::Done(b) => {
                self.info = cell;
                self.answers = Vec::new();
                if b {
                    self.matched.push(self.rule_idx);
                    self.has_matched = true;
                }
                self.rule_idx += 1;
                proof {
                    assert(self.answers@ =~= Seq::<IoAnswer>::empty());
                }
                PassOutcome::RuleDone(b)
            },
        }
    }
}

/// Rule order law: the catch-all leaf is true for a dialog exactly when no
/// prior rule in the list has matched it. For a well-formed pass standing at
/// a rule whose condition is the catch-all, that rule matches exactly when
/// the matched list is still empty — so a catch-all placed last collects
/// exactly the dialogs every earlier rule passed over, and a rule placed
/// after a match sees the flag already raised.
pub proof fn lemma_catch_all_rule(p: DialogPass, rules: Seq<Rule>, d: DialogSnapshot)
    requires
        pass_wf(p),
        p.rule_idx < rules.len(),
        rules[p.rule_idx as int].condition is NotMatched,
    ensures
        spec_eval(rules[p.rule_idx as int].condition, d, p.has_matched, p.answers@, 0, p.info@)
            == (SpecEval::Done { value: p.matched@.len() == 0, cursor: 0, info: p.info@ }),
{
}

/// The desired folder layout under construction: folder names in the order
/// they first matched, each with the peers assigned to it so far, duplicates
/// preserved in assignment order.
pub struct DesiredAssignment {
    pub folders: Vec<(String, Vec<PeerRef>)>,
}

impl View for DesiredAssignment {
    type V = Seq<(Seq<char>, Seq<PeerRef>)>;

    open spec fn view(&self) -> Seq<(Seq<char>, Seq<PeerRef>)> {
        Seq::new(self.folders@.len(), |i: int| (self.folders@[i].0@, self.folders@[i].1@))
    }
}

/// The position of the first entry carrying the name, or -1 when none does.
pub open spec fn spec_find_name(entries: Seq<(Seq<char>, Seq<PeerRef>)>, name: Seq<char>) -> int
    decreases entries.len(),
{
    if entries.len() == 0 {
        -1
    } else if entries[0].0 == name {
        0
    } else {
        let r = spec_find_name(entries.drop_first(), name);
        if r < 0 {
            -1
        } else {
            r + 1
        }
    }
}

proof fn lemma_find_name_bounds(entries: Seq<(Seq<char>, Seq<PeerRef>)>, name: Seq<char>)
    ensures
        ({
            let r = spec_find_name(entries, name);
            &&& -1 <= r < entries.len()
            &&& (r == -1 <==> forall|k: int|
                0 <= k < entries.len() ==> (#[trigger] entries[k]).0 != name)
            &&& (r >= 0 ==> entries[r].0 == name && forall|k: int|
                0 <= k < r ==> (#[trigger] entries[k]).0 != name)
        }),
    decreases entries.len(),
{
    if entries.len() > 0 && entries[0].0 != name {
        lemma_find_name_bounds(entries.drop_first(), name);
        assert(forall|k: int|
            1 <= k < entries.len() ==> entries.drop_first()[k - 1] == #[trigger] entries[k]);
    }
}

/// The layout after assigning a peer to a named folder: the peer appended to
/// the member list of the first entry of that name, or a fresh entry holding
/// just that peer when the name is new.
pub open spec fn spec_add_assignment(
    entries: Seq<(Seq<char>, Seq<PeerRef>)>,
    name: Seq<char>,
    peer: PeerRef,
) -> Seq<(Seq<char>, Seq<PeerRef>)> {
    let j = spec_find_name(entries, name);
    if j >= 0 {
        entries.update(j, (entries[j].0, entries[j].1.push(peer)))
    } else {
        entries.push((name, seq![peer]))
    }
}

impl DesiredAssignment {
    /// An empty layout.
    pub fn new() -> (r: DesiredAssignment)
        ensures
            r@ == Seq::<(Seq<char>, Seq<PeerRef>)>::empty(),
    {
        let r = DesiredAssignment { folders: Vec::new() };
        proof {
            assert(r@ =~= Seq::<(Seq<char>, Seq<PeerRef>)>::empty());
        }
        r
    }

    /// Assigns the peer to the named folder, creating the folder entry on its
    /// first use; repeated assignments are preserved in order.
    #[verifier::loop_isolation(false)]
    pub fn add(&mut self, name: &str, peer: PeerRef)
        ensures
            final(self)@ == spec_add_assignment(old(self)@, name@, peer),
    {
        let ghost entries = self@;
        proof {
            lemma_find_name_bounds(entries, name@);
            assert forall|k: int| 0 <= k < entries.len() implies #[trigger] entries[k] == (
                self.folders@[k].0@,
                self.folders@[k].1@,
            ) by {}
        }
        let mut j: usize = 0;
        while j < self.folders.len()
            invariant
                j <= self.folders@.len(),
                *self == *old(self),
                forall|k: int| 0 <= k < j ==> (#[trigger] entries[k]).0 != name@,
            decreases self.folders@.len() - j,
        {
            if str_eq(self.folders[j].0.as_str(), name) {
                proof {
                    assert(entries[j as int].0 == name@);
                    assert(spec_find_name(entries, name@) == j as int);
                }
                let ghost pre = self.folders@;
                let (nm, mut peers) = self.folders.remove(j);
                peers.push(peer);
                self.folders.insert(j, (nm, peers));
                proof {
                    assert(self.folders@ =~= pre.update(j as int, (nm, peers)));
                    assert forall|k: int| 0 <= k < self@.len() implies #[trigger] self@[k]
                        == spec_add_assignment(entries, name@, peer)[k] by {
                        if k != j {
                            assert(self.folders@[k] == pre[k]);
                        }
                    }
                    assert(self@ =~= spec_add_assignment(entries, name@, peer));
                }
                return ;
            } else {
                proof {
                    assert(entries[j as int].0 != name@);
                }
            }
            j += 1;
        }
        proof {
            assert(spec_find_name(entries, name@) == -1);
        }
        let mut peers: Vec<PeerRef> = Vec::new();
        peers.push(peer);
        self.folders.push((name.to_owned(), peers));
        proof {
            assert(peers@ =~= seq![peer]);
            assert(self@ =~= spec_add_assignment(entries, name@, peer));
        }
    }
}

/// The layout after recording one dialog's matched rules, first match first:
/// the dialog's peer reference goes to the folder of every rule it matched.
pub open spec fn spec_record(
    entries: Seq<(Seq<char>, Seq<PeerRef>)>,
    rules: Seq<Rule>,
    matched: Seq<usize>,
    peer: PeerRef,
) -> Seq<(Seq<char>, Seq<PeerRef>)>
    decreases matched.len(),
{
    if matched.len() == 0 {
        entries
    } else {
        spec_record(
            spec_add_assignment(entries, rules[matched[0] as int].name@, peer),
            rules,
            matched.drop_first(),
            peer,
        )
    }
}

/// Appends the dialog's peer reference to the folder of every rule the
/// dialog matched — one dialog may land in several folders.
#[verifier::loop_isolation(false)]
pub fn record_matches(
    assignment: &mut DesiredAssignment,
    rules: &Vec<Rule>,
    matched: &Vec<usize>,
    peer: &PeerRef,
)
    requires
        forall|i: int| 0 <= i < matched@.len() ==> #[trigger] matched@[i] < rules@.len(),
    ensures
        final(assignment)@ == spec_record(old(assignment)@, rules@, matched@, *peer),
{
    let mut k: usize = 0;
    proof {
        assert(matched@.skip(0) =~= matched@);
    }
    while k < matched.len()
        invariant
            k <= matched@.len(),
            spec_record(old(assignment)@, rules@, matched@, *peer) == spec_record(
                assignment@,
                rules@,
                matched@.skip(k as int),
                *peer,
            ),
        decreases matched@.len() - k,
    {
        let ghost rest = matched@.skip(k as int);
        proof {
            assert(rest[0] == matched@[k as int]);
            assert(rest.drop_first() =~= matched@.skip(k + 1 as int));
        }
        let idx = matched[k];
        assignment.add(rules[idx].name.as_str(), peer.clone());
        k += 1;
    }
    proof {
        assert(matched@.skip(matched@.len() as int) =~= Seq::<usize>::empty());
    }
}

/// The desired folder list an assignment stands for: one chatlist folder per
/// entry, titled with the folder name and holding the assigned peers as its
/// include list, under a placeholder id that reconciliation never reads.
pub fn build_desired_folders(assignment: &DesiredAssignment) -> (r: Vec<Folder>)
    ensures
        r@.len() == assignment@.len(),
        forall|i: int|
            0 <= i < r@.len() ==> (#[trigger] r@[i])@ == FolderView::Chatlist(
                ChatlistView {
                    has_my_invites: false,
                    id: 0,
                    title: assignment@[i].0,
                    emoticon: None,
                    color: None,
                    pinned_peers: Seq::empty(),
                    include_peers: assignment@[i].1,
                },
            ),
{
    let mut r: Vec<Folder> = Vec::new();
    let mut k: usize = 0;
    while k < assignment.folders.len()
        invariant
            k <= assignment.folders@.len(),
            r@.len() == k,
            forall|i: int|
                0 <= i < k ==> (#[trigger] r@[i])@ == FolderView::Chatlist(
                    ChatlistView {
                        has_my_invites: false,
                        id: 0,
                        title: assignment@[i].0,
                        emoticon: None,
                        color: None,
                        pinned_peers: Seq::empty(),
                        include_peers: assignment@[i].1,
                    },
                ),
        decreases assignment.folders@.len() - k,
    {
        let entry = &assignment.folders[k];
        let folder = Folder::Chatlist(
            ChatlistFolder {
                has_my_invites: false,
                id: 0,
                title: entry.0.clone(),
                emoticon: None,
                color: None,
                pinned_peers: Vec::new(),
                include_peers: clone_peers(&entry.1),
            },
        );
        proof {
            assert(folder@ == FolderView::Chatlist(
                ChatlistView {
                    has_my_invites: false,
                    id: 0,
                    title: assignment@[k as int].0,
                    emoticon: None,
                    color: None,
                    pinned_peers: Seq::empty(),
                    include_peers: assignment@[k as int].1,
                },
            ));
        }
        r.push(folder);
        k += 1;
    }
    r
}

} // verus!
