//! Interactive selection: the operator answers one prompt per candidate —
//! yes, no, all remaining, or quit — and the library decides which
//! candidates end up selected.

use vstd::prelude::*;
use crate::model::{DirInfo, DirInfoModel, dir_views};
use crate::strutil::{trim_blank, trim_spec};

verus! {

/// One reply at a selection prompt.
#[derive(Clone, Copy, Debug, PartialEq, Eq, Structural)]
pub enum SelectionAnswer {
    /// Select this candidate.
    Yes,
    /// Skip this candidate.
    No,
    /// Select this candidate and every remaining one without asking.
    All,
    /// Stop: skip this candidate and every remaining one.
    Quit,
}

/// Running state of a selection pass.
#[derive(Clone, Copy, Debug, PartialEq, Eq, Structural)]
pub struct SelectionState {
    /// Every remaining candidate is taken without asking.
    pub select_all: bool,
    /// Selection has been cut short; nothing further is taken.
    pub stopped: bool,
}

/// The state in which a selection pass starts.
pub open spec fn selection_start() -> SelectionState {
    SelectionState { select_all: false, stopped: false }
}

/// One step of the selection pass: the next state and whether the current
/// candidate is taken.
pub open spec fn selection_step_spec(st: SelectionState, ans: SelectionAnswer) -> (
    SelectionState,
    bool,
) {
    if st.stopped {
        (st, false)
    } else if st.select_all {
        (st, true)
    } else {
        match ans {
            SelectionAnswer::Yes => (st, true),
            SelectionAnswer::No => (st, false),
            SelectionAnswer::All => (SelectionState { select_all: true, stopped: false }, true),
            SelectionAnswer::Quit => (
                SelectionState { select_all: st.select_all, stopped: true },
                false,
            ),
        }
    }
}

/// Applies one reply to the selection state.
pub fn selection_step(st: SelectionState, ans: SelectionAnswer) -> (r: (SelectionState, bool))
    ensures
        r == selection_step_spec(st, ans),
{
    if st.stopped {
        (st, false)
    } else if st.select_all {
        (st, true)
    } else {
        match ans {
            SelectionAnswer::Yes => (st, true),
            SelectionAnswer::No => (st, false),
            SelectionAnswer::All => (SelectionState { select_all: true, stopped: false }, true),
            SelectionAnswer::Quit => (
                SelectionState { select_all: st.select_all, stopped: true },
                false,
            ),
        }
    }
}

/// How a trimmed reply reads as an answer: a single `y`, `a` or `q` in
/// either case; anything else skips the candidate.
pub open spec fn parse_answer_spec(t: Seq<char>) -> SelectionAnswer {
    if t.len() == 1 && (t[0] == 'y' || t[0] == 'Y') {
        SelectionAnswer::Yes
    } else if t.len() == 1 && (t[0] == 'a' || t[0] == 'A') {
        SelectionAnswer::All
    } else if t.len() == 1 && (t[0] == 'q' || t[0] == 'Q') {
        SelectionAnswer::Quit
    } else {
        SelectionAnswer::No
    }
}

/// Reads the operator's reply, blanks stripped.
pub fn parse_selection_answer(reply: &str) -> (r: SelectionAnswer)
    ensures
        r == parse_answer_spec(trim_spec(reply@)),
{
    let t = trim_blank(reply);
    if t.unicode_len() != 1 {
        return SelectionAnswer::No;
    }
    let c = t.get_char(0);
    if c == 'y' || c == 'Y' {
        SelectionAnswer::Yes
    } else if c == 'a' || c == 'A' {
        SelectionAnswer::All
    } else if c == 'q' || c == 'Q' {
        SelectionAnswer::Quit
    } else {
        SelectionAnswer::No
    }
}

/// The candidates taken from position `i` on, starting in state `st`.
pub open spec fn selection_from(
    dirs: Seq<DirInfo>,
    answers: Seq<SelectionAnswer>,
    i: int,
    st: SelectionState,
) -> Seq<DirInfoModel>
    decreases dirs.len() - i,
{
    if i < 0 || i >= dirs.len() {
        Seq::empty()
    } else {
        let step = selection_step_spec(st, answers[i]);
        (if step.1 {
            seq![dirs[i]@]
        } else {
            Seq::empty()
        }) + selection_from(dirs, answers, i + 1, step.0)
    }
}

/// Walks the candidates with one reply each and returns those selected, in
/// order.
pub fn select_directories(dirs: &Vec<DirInfo>, answers: &Vec<SelectionAnswer>) -> (r: Vec<
    DirInfo,
>)
    requires
        answers@.len() >= dirs@.len(),
    ensures
        dir_views(r@) == selection_from(dirs@, answers@, 0, selection_start()),
{
    let mut out: Vec<DirInfo> = Vec::new();
    let mut st = SelectionState { select_all: false, stopped: false };
    let mut i: usize = 0;
    proof {
        assert(dir_views(out@) =~= Seq::<DirInfoModel>::empty());
    }
    while i < dirs.len()
        invariant
            i <= dirs@.len(),
            answers@.len() >= dirs@.len(),
            selection_from(dirs@, answers@, 0, selection_start()) == dir_views(out@)
                + selection_from(dirs@, answers@, i as int, st),
        decreases dirs@.len() - i,
    {
        let ghost st_pre = st;
        let ghost out_pre = out@;
        let step = selection_step(st, answers[i]);
        st = step.0;
        if step.1 {
            out.push(dirs[i].duplicate());
        }
        proof {
            assert(selection_from(dirs@, answers@, i as int, st_pre) == (if step.1 {
                seq![dirs@[i as int]@]
            } else {
                Seq::<DirInfoModel>::empty()
            }) + selection_from(dirs@, answers@, i + 1, st));
            if step.1 {
                assert(dir_views(out@) =~= dir_views(out_pre).push(dirs@[i as int]@));
                assert(dir_views(out_pre) + selection_from(dirs@, answers@, i as int, st_pre)
                    =~= dir_views(out@) + selection_from(dirs@, answers@, i + 1, st));
            } else {
                assert(dir_views(out_pre) + selection_from(dirs@, answers@, i as int, st_pre)
                    =~= dir_views(out@) + selection_from(dirs@, answers@, i + 1, st));
            }
        }
        i += 1;
    }
    proof {
        assert(selection_from(dirs@, answers@, dirs@.len() as int, st) =~= Seq::<
            DirInfoModel,
        >::empty());
        assert(dir_views(out@) + selection_from(dirs@, answers@, dirs@.len() as int, st)
            =~= dir_views(out@));
    }
    out
}

} // verus!
