use vstd::prelude::*;

use crate::dialog::DialogKind;
use crate::dialog::DialogSnapshot;
use crate::numeral::dec_str_signed;
use crate::numeral::i64_to_string;
use crate::regex_ops::regex_find;
use crate::regex_ops::regex_matches;
use crate::strutil::clone_opt_string;
use crate::strutil::str_eq;

verus! {

/// One node of a rule's condition tree.
///
/// The combinators hold nested conditions; the leaves test the dialog, fetch
/// remote metadata, scan participants, run an external executable, or ask
/// whether an earlier rule in the list already matched this dialog.
#[derive(PartialEq, Eq, Debug)]
pub enum Condition {
    And(Vec<Condition>),
    Or(Vec<Condition>),
    Not(Box<Condition>),
    TitleRegex(String),
    InfoRegex(String),
    DialogType(DialogKind),
    ContactPresent(String),
    ExternalExecutable { path: String, params: Vec<String> },
    NotMatched,
}

/// Outside work that evaluation needs before it can go on: fetch the dialog's
/// extended info, scan the participants for a handle, or run an executable
/// with already-resolved arguments (the path still carries its leading tilde).
#[derive(PartialEq, Eq, Debug)]
pub enum IoRequest {
    FetchInfo,
    ScanContact { login: String },
    RunExecutable { path: String, args: Vec<String> },
}

/// The abstract form of an [`IoRequest`]: its strings as character sequences.
pub enum ReqView {
    FetchInfo,
    ScanContact { login: Seq<char> },
    RunExecutable { path: Seq<char>, args: Seq<Seq<char>> },
}

impl View for IoRequest {
    type V = ReqView;

    open spec fn view(&self) -> ReqView {
        match self {
            IoRequest::FetchInfo => ReqView::FetchInfo,
            IoRequest::ScanContact { login } => ReqView::ScanContact { login: login@ },
            IoRequest::RunExecutable { path, args } => ReqView::RunExecutable {
                path: path@,
                args: args.deep_view(),
            },
        }
    }
}

/// The reply to one [`IoRequest`], in the order the requests were raised.
///
/// `Info(Some(about))` is a successful extended-info fetch carrying the
/// about/bio text, and is cached; `Info(None)` is a failed fetch, which is not
/// cached, so a later info condition asks again. `Contact` says whether the
/// sought handle was found (false also on an enumeration failure). `Exec` says
/// whether the process exited successfully (false also on a launch failure).
#[derive(PartialEq, Eq, Debug)]
pub enum IoAnswer {
    Info(Option<String>),
    Contact(bool),
    Exec(bool),
}

/// The write-once cache for a dialog's extended info: unknown until a fetch
/// succeeded, then the about/bio text, kept for the rest of the dialog's pass.
#[derive(PartialEq, Eq, Debug)]
pub enum InfoCell {
    Unknown,
    Cached(String),
}

impl View for InfoCell {
    type V = Option<Seq<char>>;

    open spec fn view(&self) -> Option<Seq<char>> {
        match self {
            InfoCell::Unknown => None,
            InfoCell::Cached(s) => Some(s@),
        }
    }
}

/// What one evaluation attempt came to: a decided value, or a demand for
/// outside work whose answer was not in the queue yet.
#[derive(PartialEq, Eq, Debug)]
pub enum Outcome {
    Done(bool),
    Need(IoRequest),
}

/// The abstract result of evaluation: blocked on a request, or decided, with
/// the position reached in the answer queue and the info cache as it stands.
pub enum SpecEval {
    Need(ReqView),
    Done { value: bool, cursor: int, info: Option<Seq<char>> },
}

/// Whether the word stands for a placeholder: at least one character, opening
/// and closing with `@`.
pub open spec fn spec_is_placeholder(p: Seq<char>) -> bool {
    p.len() >= 1 && p[0] == '@' && p[p.len() - 1] == '@'
}

/// The value a placeholder takes for a dialog, `None` when the placeholder is
/// unknown or does not apply to the dialog's kind (or the dialog has no
/// public handle where one is asked for).
pub open spec fn spec_placeholder_value(p: Seq<char>, d: DialogSnapshot) -> Option<Seq<char>> {
    if p == "@user_login@"@ {
        if d.kind == DialogKind::User {
            d.username.deep_view()
        } else {
            None
        }
    } else if p == "@id@"@ {
        Some(dec_str_signed(d.id as int))
    } else if p == "@channel_login@"@ {
        if d.kind == DialogKind::Channel {
            d.username.deep_view()
        } else {
            None
        }
    } else if p == "@channel_title@"@ {
        if d.kind == DialogKind::Channel {
            Some(d.title@)
        } else {
            None
        }
    } else if p == "@group_login@"@ {
        if d.kind == DialogKind::Group {
            d.username.deep_view()
        } else {
            None
        }
    } else if p == "@group_title@"@ {
        if d.kind == DialogKind::Group {
            Some(d.title@)
        } else {
            None
        }
    } else {
        None
    }
}

/// What one executable argument resolves to: itself when it is no
/// placeholder, else the placeholder's value for the dialog.
pub open spec fn spec_resolve_param(p: String, d: DialogSnapshot) -> Option<Seq<char>> {
    if spec_is_placeholder(p@) {
        spec_placeholder_value(p@, d)
    } else {
        Some(p@)
    }
}

/// The fully resolved argument list, `None` as soon as any argument fails to
/// resolve.
pub open spec fn spec_resolve_params(params: Seq<String>, d: DialogSnapshot) -> Option<
    Seq<Seq<char>>,
> {
    if forall|k: int| 0 <= k < params.len() ==> (#[trigger] spec_resolve_param(params[k], d)) is Some {
        Some(Seq::new(params.len(), |k: int| spec_resolve_param(params[k], d).unwrap()))
    } else {
        None
    }
}

/// Evaluation of a condition against a dialog, replayed over a queue of
/// answers to the outside requests raised so far.
///
/// The walk is pre-order and left-to-right. Leaves that need outside work
/// consume the answer at `cursor`; when the queue is exhausted there,
/// evaluation blocks with the request. A successful info fetch is cached in
/// `info` and later info leaves read the cache instead of consuming answers;
/// a failed fetch is not cached, so the next info leaf asks again. An answer
/// of a kind other than the leaf asked for counts as a failure.
pub open spec fn spec_eval(
    c: Condition,
    d: DialogSnapshot,
    has_matched: bool,
    answers: Seq<IoAnswer>,
    cursor: int,
    info: Option<Seq<char>>,
) -> SpecEval
    decreases c, 0int,
{
    match c {
        Condition::And(children) => spec_eval_children(
            children,
            true,
            d,
            has_matched,
            answers,
            cursor,
            info,
            0,
        ),
        Condition::Or(children) => spec_eval_children(
            children,
            false,
            d,
            has_matched,
            answers,
            cursor,
            info,
            0,
        ),
        Condition::Not(child) => match spec_eval(*child, d, has_matched, answers, cursor, info) {
            SpecEval::Need(q) => SpecEval::Need(q),
            SpecEval::Done { value, cursor, info } => SpecEval::Done {
                value: !value,
                cursor,
                info,
            },
        },
        Condition::TitleRegex(p) => SpecEval::Done {
            value: regex_matches(p@, d.title@),
            cursor,
            info,
        },
        Condition::InfoRegex(p) => match info {
            Some(about) => SpecEval::Done { value: regex_matches(p@, about), cursor, info },
            None => {
                if !d.info_available {
                    SpecEval::Done { value: false, cursor, info }
                } else if 0 <= cursor < answers.len() {
                    match answers[cursor] {
                        IoAnswer::Info(Some(about)) => SpecEval::Done {
                            value: regex_matches(p@, about@),
                            cursor: cursor + 1,
                            info: Some(about@),
                        },
                        _ => SpecEval::Done { value: false, cursor: cursor + 1, info: None },
                    }
                } else {
                    SpecEval::Need(ReqView::FetchInfo)
                }
            },
        },
        Condition::DialogType(k) => SpecEval::Done { value: d.kind == k, cursor, info },
        Condition::ContactPresent(login) => {
            if 0 <= cursor < answers.len() {
                match answers[cursor] {
                    IoAnswer::Contact(b) => SpecEval::Done { value: b, cursor: cursor + 1, info },
                    _ => SpecEval::Done { value: false, cursor: cursor + 1, info },
                }
            } else {
                SpecEval::Need(ReqView::ScanContact { login: login@ })
            }
        },
        Condition::ExternalExecutable { path, params } => {
            match spec_resolve_params(params@, d) {
                None => SpecEval::Done { value: false, cursor, info },
                Some(args) => {
                    if 0 <= cursor < answers.len() {
                        match answers[cursor] {
                            IoAnswer::Exec(b) => SpecEval::Done {
                                value: b,
                                cursor: cursor + 1,
                                info,
                            },
                            _ => SpecEval::Done { value: false, cursor: cursor + 1, info },
                        }
                    } else {
                        SpecEval::Need(ReqView::RunExecutable { path: path@, args })
                    }
                },
            }
        },
        Condition::NotMatched => SpecEval::Done { value: !has_matched, cursor, info },
    }
}

/// Evaluation of a combinator's children from position `i` on, left to right.
///
/// With `conjunctive` true this is the And walk: it stops at the first false
/// child; with it false, the Or walk, stopping at the first true child. An
/// exhausted list yields `conjunctive` itself: And of nothing is true, Or of
/// nothing is false.
pub open spec fn spec_eval_children(
    children: Vec<Condition>,
    conjunctive: bool,
    d: DialogSnapshot,
    has_matched: bool,
    answers: Seq<IoAnswer>,
    cursor: int,
    info: Option<Seq<char>>,
    i: int,
) -> SpecEval
    decreases children, children@.len() - i,
{
    if i < 0 || i >= children@.len() {
        SpecEval::Done { value: conjunctive, cursor, info }
    } else {
        match spec_eval(children[i], d, has_matched, answers, cursor, info) {
            SpecEval::Need(q) => SpecEval::Need(q),
            SpecEval::Done { value, cursor: cursor2, info: info2 } => {
                if value == conjunctive {
                    spec_eval_children(
                        children,
                        conjunctive,
                        d,
                        has_matched,
                        answers,
                        cursor2,
                        info2,
                        i + 1,
                    )
                } else {
                    SpecEval::Done { value, cursor: cursor2, info: info2 }
                }
            },
        }
    }
}

/// The cursor and cache state evaluation stands in between two children.
pub struct EvalState {
    pub cursor: int,
    pub info: Option<Seq<char>>,
}

/// The state reached after evaluating children `[k, i)` when every one of
/// them evaluated to `conjunctive` without blocking; `None` when one of them
/// blocked or stopped the walk instead.
pub open spec fn spec_pass_between(
    children: Vec<Condition>,
    conjunctive: bool,
    d: DialogSnapshot,
    has_matched: bool,
    answers: Seq<IoAnswer>,
    cursor: int,
    info: Option<Seq<char>>,
    k: int,
    i: int,
) -> Option<EvalState>
    decreases i - k,
{
    if k >= i {
        Some(EvalState { cursor, info })
    } else {
        match spec_eval(children[k], d, has_matched, answers, cursor, info) {
            SpecEval::Done { value, cursor: c2, info: i2 } => {
                if value == conjunctive {
                    spec_pass_between(children, conjunctive, d, has_matched, answers, c2, i2, k + 1, i)
                } else {
                    None
                }
            },
            SpecEval::Need(_) => None,
        }
    }
}

proof fn lemma_children_stop(
    children: Vec<Condition>,
    conjunctive: bool,
    d: DialogSnapshot,
    has_matched: bool,
    answers: Seq<IoAnswer>,
    cursor: int,
    info: Option<Seq<char>>,
    k: int,
    i: int,
    st: EvalState,
)
    requires
        0 <= k <= i < children@.len(),
        spec_pass_between(children, conjunctive, d, has_matched, answers, cursor, info, k, i)
            == Some(st),
        spec_eval(children[i], d, has_matched, answers, st.cursor, st.info) matches SpecEval::Done {
            value,
            ..
        } && value != conjunctive,
    ensures
        spec_eval_children(children, conjunctive, d, has_matched, answers, cursor, info, k)
            == spec_eval(children[i], d, has_matched, answers, st.cursor, st.info),
    decreases i - k,
{
    if k < i {
        match spec_eval(children[k], d, has_matched, answers, cursor, info) {
            SpecEval::Done { value, cursor: c2, info: i2 } => {
                lemma_children_stop(
                    children,
                    conjunctive,
                    d,
                    has_matched,
                    answers,
                    c2,
                    i2,
                    k + 1,
                    i,
                    st,
                );
            },
            SpecEval::Need(_) => {
                assert(false);
            },
        }
    }
}

/// Conjunction short-circuit law: when the children before position `i` all
/// evaluate to true, threading the answer cursor and the info cache, and the
/// child at `i` evaluates to false, the conjunction's result is exactly that
/// child's result — false, in the state the false child left. The children
/// after `i` are never evaluated and consume no answers.
pub proof fn lemma_and_short_circuit(
    children: Vec<Condition>,
    d: DialogSnapshot,
    has_matched: bool,
    answers: Seq<IoAnswer>,
    cursor: int,
    info: Option<Seq<char>>,
    i: int,
    st: EvalState,
)
    requires
        0 <= i < children@.len(),
        spec_pass_between(children, true, d, has_matched, answers, cursor, info, 0, i)
            == Some(st),
        spec_eval(children[i], d, has_matched, answers, st.cursor, st.info) matches SpecEval::Done {
            value: false,
            ..
        },
    ensures
        spec_eval(Condition::And(children), d, has_matched, answers, cursor, info) == spec_eval(
            children[i],
            d,
            has_matched,
            answers,
            st.cursor,
            st.info,
        ),
{
    lemma_children_stop(children, true, d, has_matched, answers, cursor, info, 0, i, st);
}

/// Disjunction short-circuit law, the mirror of the conjunction's: the walk
/// ends at the first true child, in that child's state.
pub proof fn lemma_or_short_circuit(
    children: Vec<Condition>,
    d: DialogSnapshot,
    has_matched: bool,
    answers: Seq<IoAnswer>,
    cursor: int,
    info: Option<Seq<char>>,
    i: int,
    st: EvalState,
)
    requires
        0 <= i < children@.len(),
        spec_pass_between(children, false, d, has_matched, answers, cursor, info, 0, i)
            == Some(st),
        spec_eval(children[i], d, has_matched, answers, st.cursor, st.info) matches SpecEval::Done {
            value: true,
            ..
        },
    ensures
        spec_eval(Condition::Or(children), d, has_matched, answers, cursor, info) == spec_eval(
            children[i],
            d,
            has_matched,
            answers,
            st.cursor,
            st.info,
        ),
{
    lemma_children_stop(children, false, d, has_matched, answers, cursor, info, 0, i, st);
}

/// Negation law: a Not node evaluates to the negation of its child, with the
/// same final state, and blocks exactly when the child blocks.
pub proof fn lemma_not_negates(
    child: Box<Condition>,
    d: DialogSnapshot,
    has_matched: bool,
    answers: Seq<IoAnswer>,
    cursor: int,
    info: Option<Seq<char>>,
)
    ensures
        spec_eval(Condition::Not(child), d, has_matched, answers, cursor, info) == match spec_eval(
            *child,
            d,
            has_matched,
            answers,
            cursor,
            info,
        ) {
            SpecEval::Need(q) => SpecEval::Need(q),
            SpecEval::Done { value, cursor, info } => SpecEval::Done {
                value: !value,
                cursor,
                info,
            },
        },
{
}

/// Whether the word stands for a placeholder: it opens and closes with `@`.
pub fn is_placeholder(param: &str) -> (r: bool)
    ensures
        r == spec_is_placeholder(param@),
{
    let n = param.unicode_len();
    if n == 0 {
        return false;
    }
    let first = param.get_char(0);
    let last = param.get_char(n - 1);
    first == '@' && last == '@'
}

/// The value a placeholder takes for a dialog: the dialog's id for `@id@`,
/// its handle or title for the placeholders of the matching dialog kind, and
/// `None` for an unknown placeholder or one that does not apply.
pub fn placeholder_value(placeholder: &str, dialog: &DialogSnapshot) -> (r: Option<String>)
    ensures
        r.deep_view() == spec_placeholder_value(placeholder@, *dialog),
{
    if str_eq(placeholder, "@user_login@") {
        if dialog.kind == DialogKind::User {
            clone_opt_string(&dialog.username)
        } else {
            None
        }
    } else if str_eq(placeholder, "@id@") {
        Some(i64_to_string(dialog.id))
    } else if str_eq(placeholder, "@channel_login@") {
        if dialog.kind == DialogKind::Channel {
            clone_opt_string(&dialog.username)
        } else {
            None
        }
    } else if str_eq(placeholder, "@channel_title@") {
        if dialog.kind == DialogKind::Channel {
            Some(dialog.title.clone())
        } else {
            None
        }
    } else if str_eq(placeholder, "@group_login@") {
        if dialog.kind == DialogKind::Group {
            clone_opt_string(&dialog.username)
        } else {
            None
        }
    } else if str_eq(placeholder, "@group_title@") {
        if dialog.kind == DialogKind::Group {
            Some(dialog.title.clone())
        } else {
            None
        }
    } else {
        None
    }
}

/// True iff the pattern finds a match in the dialog's display name.
pub fn chat_title_match(pattern: &str, dialog: &DialogSnapshot) -> (r: bool)
    ensures
        r == regex_matches(pattern@, dialog.title@),
{
    regex_find(pattern, dialog.title.as_str())
}

/// One step of the participant scan behind a contact condition: whether this
/// participant's public handle equals the sought login, exactly.
pub fn participant_matches(login: &str, username: Option<&str>) -> (r: bool)
    ensures
        r == match username {
            Some(u) => u@ == login@,
            None => false,
        },
{
    match username {
        Some(u) => str_eq(u, login),
        None => false,
    }
}

/// One evaluation attempt of a condition against a dialog, over the answers
/// supplied so far.
///
/// The attempt either decides the condition — leaving the cursor past the
/// answers it consumed and the info cache updated by any successful fetch —
/// or blocks with the outside request whose answer is missing; the caller
/// performs the work, appends the answer, and replays the attempt.
#[verifier::loop_isolation(false)]
pub fn eval_condition(
    c: &Condition,
    d: &DialogSnapshot,
    has_matched: bool,
    answers: &Vec<IoAnswer>,
    cursor: &mut usize,
    info: &mut InfoCell,
) -> (r: Outcome)
    requires
        *old(cursor) <= answers@.len(),
    ensures
        match r {
            Outcome::Need(req) => spec_eval(
                *c,
                *d,
                has_matched,
                answers@,
                *old(cursor) as int,
                old(info)@,
            ) == SpecEval::Need(req@),
            Outcome::Done(b) => *final(cursor) <= answers@.len() && spec_eval(
                *c,
                *d,
                has_matched,
                answers@,
                *old(cursor) as int,
                old(info)@,
            ) == (SpecEval::Done {
                value: b,
                cursor: *final(cursor) as int,
                info: final(info)@,
            }),
        },
    decreases *c,
{
    match c {
        Condition::And(children) => eval_children(
            children,
            true,
            d,
            has_matched,
            answers,
            cursor,
            info,
        ),
        Condition::Or(children) => eval_children(
            children,
            false,
            d,
            has_matched,
            answers,
            cursor,
            info,
        ),
        Condition::Not(child) => {
            match eval_condition(child, d, has_matched, answers, cursor, info) {
                Outcome::Need(q) => Outcome::Need(q),
                Outcome::Done(b) => Outcome::Done(!b),
            }
        },
        Condition::TitleRegex(p) => Outcome::Done(regex_find(p.as_str(), d.title.as_str())),
        Condition::InfoRegex(p) => {
            if let InfoCell::Cached(about) = &*info {
                return Outcome::Done(regex_find(p.as_str(), about.as_str()));
            }
            if !d.info_available {
                return Outcome::Done(false);
            }
            if *cursor < answers.len() {
                let idx = *cursor;
                *cursor = idx + 1;
                match &answers[idx] {
                    IoAnswer::Info(Some(about)) => {
                        let v = regex_find(p.as_str(), about.as_str());
                        *info = InfoCell::Cached(about.clone());
                        Outcome::Done(v)
                    },
                    _ => Outcome::Done(false),
                }
            } else {
                Outcome::Need(IoRequest::FetchInfo)
            }
        },
        Condition::DialogType(k) => Outcome::Done(d.kind == *k),
        Condition::ContactPresent(login) => {
            if *cursor < answers.len() {
                let idx = *cursor;
                *cursor = idx + 1;
                match &answers[idx] {
                    IoAnswer::Contact(b) => Outcome::Done(*b),
                    _ => Outcome::Done(false),
                }
            } else {
                Outcome::Need(IoRequest::ScanContact { login: login.clone() })
            }
        },
        Condition::ExternalExecutable { path, params } => {
            let mut resolved: Vec<String> = Vec::new();
            let mut j: usize = 0;
            while j < params.len()
                invariant
                    j <= params@.len(),
                    *cursor == *old(cursor),
                    *info == *old(info),
                    resolved@.len() == j,
                    forall|k: int|
                        0 <= k < j ==> #[trigger] spec_resolve_param(params@[k], *d) == Some(
                            resolved@[k]@,
                        ),
                decreases params@.len() - j,
            {
                let p = &params[j];
                if is_placeholder(p.as_str()) {
                    match placeholder_value(p.as_str(), d) {
                        Some(v) => {
                            proof {
                                assert(spec_resolve_param(params@[j as int], *d) == Some(v@));
                            }
                            resolved.push(v);
                        },
                        None => {
                            proof {
                                assert(spec_resolve_param(params@[j as int], *d) is None);
                                assert(spec_resolve_params(params@, *d) is None);
                            }
                            return Outcome::Done(false);
                        },
                    }
                } else {
                    proof {
                        assert(spec_resolve_param(params@[j as int], *d) == Some(p@));
                    }
                    resolved.push(p.clone());
                }
                j += 1;
            }
            proof {
                assert(resolved.deep_view() =~= Seq::new(
                    params@.len(),
                    |k: int| spec_resolve_param(params@[k], *d).unwrap(),
                ));
                assert(spec_resolve_params(params@, *d) == Some(resolved.deep_view()));
            }
            if *cursor < answers.len() {
                let idx = *cursor;
                *cursor = idx + 1;
                match &answers[idx] {
                    IoAnswer::Exec(b) => Outcome::Done(*b),
                    _ => Outcome::Done(false),
                }
            } else {
                Outcome::Need(IoRequest::RunExecutable { path: path.clone(), args: resolved })
            }
        },
        Condition::NotMatched => Outcome::Done(!has_matched),
    }
}

fn eval_children(
    children: &Vec<Condition>,
    conjunctive: bool,
    d: &DialogSnapshot,
    has_matched: bool,
    answers: &Vec<IoAnswer>,
    cursor: &mut usize,
    info: &mut InfoCell,
) -> (r: Outcome)
    requires
        *old(cursor) <= answers@.len(),
    ensures
        match r {
            Outcome::Need(req) => spec_eval_children(
                *children,
                conjunctive,
                *d,
                has_matched,
                answers@,
                *old(cursor) as int,
                old(info)@,
                0,
            ) == SpecEval::Need(req@),
            Outcome::Done(b) => *final(cursor) <= answers@.len() && spec_eval_children(
                *children,
                conjunctive,
                *d,
                has_matched,
                answers@,
                *old(cursor) as int,
                old(info)@,
                0,
            ) == (SpecEval::Done {
                value: b,
                cursor: *final(cursor) as int,
                info: final(info)@,
            }),
        },
    decreases *children,
{
    let mut j: usize = 0;
    while j < children.len()
        invariant
            j <= children@.len(),
            *cursor <= answers@.len(),
            spec_eval_children(
                *children,
                conjunctive,
                *d,
                has_matched,
                answers@,
                *old(cursor) as int,
                old(info)@,
                0,
            ) == spec_eval_children(
                *children,
                conjunctive,
                *d,
                has_matched,
                answers@,
                *cursor as int,
                info@,
                j as int,
            ),
        decreases children@.len() - j,
    {
        let ghost cur_pre = *cursor as int;
        let ghost info_pre = info@;
        let r = eval_condition(&children[j], d, has_matched, answers, cursor, info);
        match r {
            Outcome::Need(q) => {
                return Outcome::Need(q);
            },
            Outcome::Done(b) => {
                if b != conjunctive {
                    return Outcome::Done(b);
                }
            },
        }
        j += 1;
    }
    Outcome::Done(conjunctive)
}

} // verus!
