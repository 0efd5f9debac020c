//! The sixteen states of the TAP and their transition table.

use vstd::prelude::*;

verus! {

/// A state of the TAP controller automaton.
#[derive(Clone, Copy, Debug, PartialEq, Eq, Structural)]
pub enum TapState {
    TestLogicReset,
    RunTestIdle,
    SelectDrScan,
    CaptureDr,
    ShiftDr,
    Exit1Dr,
    PauseDr,
    Exit2Dr,
    UpdateDr,
    SelectIrScan,
    CaptureIr,
    ShiftIr,
    Exit1Ir,
    PauseIr,
    Exit2Ir,
    UpdateIr,
}

impl TapState {
    /// The transition table: the state entered from `self` on one clock
    /// cycle with the given TMS level. TDI plays no part.
    pub open spec fn next(self, tms: bool) -> TapState {
        match self {
            TapState::TestLogicReset => if tms { TapState::TestLogicReset } else { TapState::RunTestIdle },
            TapState::RunTestIdle => if tms { TapState::SelectDrScan } else { TapState::RunTestIdle },
            TapState::SelectDrScan => if tms { TapState::SelectIrScan } else { TapState::CaptureDr },
            TapState::CaptureDr => if tms { TapState::Exit1Dr } else { TapState::ShiftDr },
            TapState::ShiftDr => if tms { TapState::Exit1Dr } else { TapState::ShiftDr },
            TapState::Exit1Dr => if tms { TapState::UpdateDr } else { TapState::PauseDr },
            TapState::PauseDr => if tms { TapState::Exit2Dr } else { TapState::PauseDr },
            TapState::Exit2Dr => if tms { TapState::UpdateDr } else { TapState::ShiftDr },
            TapState::UpdateDr => if tms { TapState::SelectDrScan } else { TapState::RunTestIdle },
            TapState::SelectIrScan => if tms { TapState::TestLogicReset } else { TapState::CaptureIr },
            TapState::CaptureIr => if tms { TapState::Exit1Ir } else { TapState::ShiftIr },
            TapState::ShiftIr => if tms { TapState::Exit1Ir } else { TapState::ShiftIr },
            TapState::Exit1Ir => if tms { TapState::UpdateIr } else { TapState::PauseIr },
            TapState::PauseIr => if tms { TapState::Exit2Ir } else { TapState::PauseIr },
            TapState::Exit2Ir => if tms { TapState::UpdateIr } else { TapState::ShiftIr },
            TapState::UpdateIr => if tms { TapState::SelectDrScan } else { TapState::RunTestIdle },
        }
    }

    /// Position of the state in the declaration order, from 0 to 15.
    pub open spec fn ordinal(self) -> nat {
        match self {
            TapState::TestLogicReset => 0,
            TapState::RunTestIdle => 1,
            TapState::SelectDrScan => 2,
            TapState::CaptureDr => 3,
            TapState::ShiftDr => 4,
            TapState::Exit1Dr => 5,
            TapState::PauseDr => 6,
            TapState::Exit2Dr => 7,
            TapState::UpdateDr => 8,
            TapState::SelectIrScan => 9,
            TapState::CaptureIr => 10,
            TapState::ShiftIr => 11,
            TapState::Exit1Ir => 12,
            TapState::PauseIr => 13,
            TapState::Exit2Ir => 14,
            TapState::UpdateIr => 15,
        }
    }

    /// The state at a position of the declaration order; positions past 15
    /// name the last state.
    pub open spec fn at(i: nat) -> TapState {
        if i == 0 {
            TapState::TestLogicReset
        } else if i == 1 {
            TapState::RunTestIdle
        } else if i == 2 {
            TapState::SelectDrScan
        } else if i == 3 {
            TapState::CaptureDr
        } else if i == 4 {
            TapState::ShiftDr
        } else if i == 5 {
            TapState::Exit1Dr
        } else if i == 6 {
            TapState::PauseDr
        } else if i == 7 {
            TapState::Exit2Dr
        } else if i == 8 {
            TapState::UpdateDr
        } else if i == 9 {
            TapState::SelectIrScan
        } else if i == 10 {
            TapState::CaptureIr
        } else if i == 11 {
            TapState::ShiftIr
        } else if i == 12 {
            TapState::Exit1Ir
        } else if i == 13 {
            TapState::PauseIr
        } else if i == 14 {
            TapState::Exit2Ir
        } else {
            TapState::UpdateIr
        }
    }

    /// One clock cycle of the automaton.
    pub fn transition(self, tms: bool) -> (r: TapState)
        ensures
            r == self.next(tms),
    {
        match (self, tms) {
            (TapState::TestLogicReset, true) => TapState::TestLogicReset,
            (TapState::TestLogicReset, false) => TapState::RunTestIdle,
            (TapState::RunTestIdle, true) => TapState::SelectDrScan,
            (TapState::RunTestIdle, false) => TapState::RunTestIdle,
            (TapState::SelectDrScan, true) => TapState::SelectIrScan,
            (TapState::SelectDrScan, false) => TapState::CaptureDr,
            (TapState::CaptureDr, true) => TapState::Exit1Dr,
            (TapState::CaptureDr, false) => TapState::ShiftDr,
            (TapState::ShiftDr, true) => TapState::Exit1Dr,
            (TapState::ShiftDr, false) => TapState::ShiftDr,
            (TapState::Exit1Dr, true) => TapState::UpdateDr,
            (TapState::Exit1Dr, false) => TapState::PauseDr,
            (TapState::PauseDr, true) => TapState::Exit2Dr,
            (TapState::PauseDr, false) => TapState::PauseDr,
            (TapState::Exit2Dr, true) => TapState::UpdateDr,
            (TapState::Exit2Dr, false) => TapState::ShiftDr,
            (TapState::UpdateDr, true) => TapState::SelectDrScan,
            (TapState::UpdateDr, false) => TapState::RunTestIdle,
            (TapState::SelectIrScan, true) => TapState::TestLogicReset,
            (TapState::SelectIrScan, false) => TapState::CaptureIr,
            (TapState::CaptureIr, true) => TapState::Exit1Ir,
            (TapState::CaptureIr, false) => TapState::ShiftIr,
            (TapState::ShiftIr, true) => TapState::Exit1Ir,
            (TapState::ShiftIr, false) => TapState::ShiftIr,
            (TapState::Exit1Ir, true) => TapState::UpdateIr,
            (TapState::Exit1Ir, false) => TapState::PauseIr,
            (TapState::PauseIr, true) => TapState::Exit2Ir,
            (TapState::PauseIr, false) => TapState::PauseIr,
            (TapState::Exit2Ir, true) => TapState::UpdateIr,
            (TapState::Exit2Ir, false) => TapState::ShiftIr,
            (TapState::UpdateIr, true) => TapState::SelectDrScan,
            (TapState::UpdateIr, false) => TapState::RunTestIdle,
        }
    }

    /// Position of the state in the declaration order.
    pub fn index(self) -> (i: usize)
        ensures
            i == self.ordinal(),
            i < 16,
            TapState::at(i as nat) == self,
    {
        match self {
            TapState::TestLogicReset => 0,
            TapState::RunTestIdle => 1,
            TapState::SelectDrScan => 2,
            TapState::CaptureDr => 3,
            TapState::ShiftDr => 4,
            TapState::Exit1Dr => 5,
            TapState::PauseDr => 6,
            TapState::Exit2Dr => 7,
            TapState::UpdateDr => 8,
            TapState::SelectIrScan => 9,
            TapState::CaptureIr => 10,
            TapState::ShiftIr => 11,
            TapState::Exit1Ir => 12,
            TapState::PauseIr => 13,
            TapState::Exit2Ir => 14,
            TapState::UpdateIr => 15,
        }
    }

    /// The state at a position of the declaration order, if there is one.
    pub fn from_index(i: usize) -> (r: Option<TapState>)
        ensures
            i < 16 ==> r == Some(TapState::at(i as nat)),
            i < 16 ==> TapState::at(i as nat).ordinal() == i,
            i >= 16 ==> r.is_none(),
    {
        match i {
            0 => Some(TapState::TestLogicReset),
            1 => Some(TapState::RunTestIdle),
            2 => Some(TapState::SelectDrScan),
            3 => Some(TapState::CaptureDr),
            4 => Some(TapState::ShiftDr),
            5 => Some(TapState::Exit1Dr),
            6 => Some(TapState::PauseDr),
            7 => Some(TapState::Exit2Dr),
            8 => Some(TapState::UpdateDr),
            9 => Some(TapState::SelectIrScan),
            10 => Some(TapState::CaptureIr),
            11 => Some(TapState::ShiftIr),
            12 => Some(TapState::Exit1Ir),
            13 => Some(TapState::PauseIr),
            14 => Some(TapState::Exit2Ir),
            15 => Some(TapState::UpdateIr),
            _ => None,
        }
    }
}

/// The state reached from `start` after clocking the TMS levels of `tms` in
/// order, first element first.
pub open spec fn replay(start: TapState, tms: Seq<bool>) -> TapState
    decreases tms.len(),
{
    if tms.len() == 0 {
        start
    } else {
        replay(start.next(tms[0]), tms.subrange(1, tms.len() as int))
    }
}

/// Clocks a TMS sequence through the transition table.
pub fn run(start: TapState, tms: &[bool]) -> (r: TapState)
    ensures
        r == replay(start, tms@),
{
    let mut cur = start;
    let mut i: usize = 0;
    assert(tms@.subrange(0, tms@.len() as int) =~= tms@);
    while i < tms.len()
        invariant
            i <= tms.len(),
            replay(cur, tms@.subrange(i as int, tms@.len() as int)) == replay(start, tms@),
        decreases tms.len() - i,
    {
        proof {
            let rest = tms@.subrange(i as int, tms@.len() as int);
            assert(rest.subrange(1, rest.len() as int) =~= tms@.subrange(i + 1, tms@.len() as int));
        }
        cur = cur.transition(tms[i]);
        i += 1;
    }
    assert(tms@.subrange(i as int, tms@.len() as int).len() == 0);
    cur
}

/// Five cycles with TMS high.
pub open spec fn five_ones() -> Seq<bool> {
    seq![true, true, true, true, true]
}

/// Five consecutive cycles with TMS high end in Test-Logic-Reset, whatever
/// the state they start from.
pub proof fn lemma_five_ones_reset(s: TapState)
    ensures
        s.next(true).next(true).next(true).next(true).next(true) == TapState::TestLogicReset,
        replay(s, five_ones()) == TapState::TestLogicReset,
{
    let p = five_ones();
    let rest1 = p.subrange(1, 5);
    let rest2 = rest1.subrange(1, 4);
    let rest3 = rest2.subrange(1, 3);
    let rest4 = rest3.subrange(1, 2);
    let rest5 = rest4.subrange(1, 1);
    let at1 = s.next(true);
    let at2 = at1.next(true);
    let at3 = at2.next(true);
    let at4 = at3.next(true);
    let at5 = at4.next(true);
    assert(at5 == TapState::TestLogicReset);
    assert(replay(at5, rest5) == at5);
    assert(replay(at4, rest4) == replay(at5, rest5));
    assert(replay(at3, rest3) == replay(at4, rest4));
    assert(replay(at2, rest2) == replay(at3, rest3));
    assert(replay(at1, rest1) == replay(at2, rest2));
    assert(replay(s, p) == replay(at1, rest1));
}

} // verus!
