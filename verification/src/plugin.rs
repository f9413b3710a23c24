//! The application core: one state container owning the speakers, the display
//! state, the repeating console timer and the last printed console line, with
//! one handler per event (an interaction change, a timer advance).

use vstd::prelude::*;

use crate::responder::DisplayState;
use crate::responder::InteractionSignal;
use crate::responder::Speaker;
use crate::responder::color_for;
use crate::responder::color_of;
use crate::responder::emphasized;
use crate::responder::neutral_color;
use crate::responder::spoken_all;
use crate::responder::spoken_forms;
use crate::responder::transition_text;
use crate::responder::utterances;
use crate::selector::SelectError;
use crate::selector::is_valid_pick;
use crate::selector::pick_different;
use crate::timer::TickTimer;
use vstd::string::StringExecFns;

verus! {

/// The console timer's interval: one tick every two seconds.
pub const TIMER_INTERVAL_MS: u64 = 2000;

/// The string the selector compares a new console line against: the last
/// printed line, or the empty sequence when nothing was printed yet (no
/// spoken form is empty, so the first draw is unconstrained).
pub open spec fn console_current(last: Option<String>) -> Seq<char> {
    match last {
        Option::Some(l) => l@,
        Option::None => Seq::empty(),
    }
}

/// The whole application state: the fixed speakers, the display state the
/// host renders, the repeating console timer, and the last printed line.
pub struct BarrkPlugin {
    pub speakers: Vec<Speaker>,
    pub display: DisplayState,
    pub timer: TickTimer,
    pub last_line: Option<String>,
}

impl BarrkPlugin {
    /// Well-formedness: the timer is well formed.
    pub open spec fn wf(self) -> bool {
        self.timer.wf()
    }

    /// Set up the fixed startup state: three speakers saying "Bark", "Woof"
    /// and "arf", the initial label "Dog" on a neutral background, a
    /// two-second repeating timer, and no console line printed yet.
    pub fn new() -> (p: BarrkPlugin)
        ensures
            p.wf(),
            p.speakers@.len() == 3,
            p.speakers@[0].utterance@ == "Bark"@,
            p.speakers@[1].utterance@ == "Woof"@,
            p.speakers@[2].utterance@ == "arf"@,
            p.display.text@ == "Dog"@,
            p.display.color == neutral_color(),
            p.timer.interval_ms == TIMER_INTERVAL_MS,
            p.timer.accumulated_ms == 0,
            p.last_line is None,
    {
        let mut speakers: Vec<Speaker> = Vec::new();
        speakers.push(Speaker::new(String::from_str("Bark")));
        speakers.push(Speaker::new(String::from_str("Woof")));
        speakers.push(Speaker::new(String::from_str("arf")));
        BarrkPlugin {
            speakers,
            display: DisplayState { text: String::from_str("Dog"), color: color_of(InteractionSignal::Idle) },
            timer: TickTimer::new(TIMER_INTERVAL_MS),
            last_line: None,
        }
    }

    /// Respond to one interaction change: draw a new bark against the text
    /// shown so far, display it (with the emphasis suffix when pressed), and
    /// set the state's color. With no speaker at all this is the fatal
    /// configuration error, and nothing is changed.
    pub fn handle_interaction(&mut self, signal: InteractionSignal) -> (r: Result<(), SelectError>)
        ensures
            final(self).speakers == old(self).speakers,
            final(self).timer == old(self).timer,
            final(self).last_line == old(self).last_line,
            match r {
                Ok(u) => old(self).speakers@.len() > 0 && transition_text(
                    old(self).display.text@,
                    spoken_all(utterances(old(self).speakers@)),
                    signal,
                    final(self).display.text@,
                ) && final(self).display.color == color_for(signal),
                Err(e) => old(self).speakers@.len() == 0 && e == SelectError::EmptyCandidates
                    && final(self).display == old(self).display,
            },
    {
        let cands = spoken_forms(&self.speakers);
        match pick_different(&self.display.text, &cands) {
            Err(e) => Err(e),
            Ok(bark) => {
                let ghost prev = self.display.text@;
                let ghost bv = bark@;
                match signal {
                    InteractionSignal::Pressed => {
                        let mut t = bark;
                        t.append("!");
                        t.append("!");
                        proof {
                            reveal_strlit("!");
                            assert(t@ =~= emphasized(bv));
                        }
                        self.display.text = t;
                    },
                    _ => {
                        self.display.text = bark;
                    },
                }
                self.display.color = color_of(signal);
                proof {
                    let cs = spoken_all(utterances(old(self).speakers@));
                    assert(is_valid_pick(prev, cs, bv));
                    assert(transition_text(prev, cs, signal, self.display.text@));
                }
                Ok(())
            },
        }
    }

    /// Advance the timer by one frame's delta. On a tick, draw a bark against
    /// the last printed line and return the new console line (the caller
    /// prints it); between ticks return nothing. A tick with no speaker at
    /// all is the fatal configuration error.
    pub fn advance_timer(&mut self, delta_ms: u64) -> (r: Result<Option<String>, SelectError>)
        requires
            old(self).wf(),
            delta_ms <= u64::MAX - old(self).timer.accumulated_ms,
        ensures
            final(self).wf(),
            final(self).speakers == old(self).speakers,
            final(self).display == old(self).display,
            final(self).timer.interval_ms == old(self).timer.interval_ms,
            final(self).timer.accumulated_ms == (old(self).timer.accumulated_ms + delta_ms) % (
            old(self).timer.interval_ms as int),
            ({
                let ticked = old(self).timer.accumulated_ms + delta_ms >= old(
                    self).timer.interval_ms;
                match r {
                    Ok(Option::None) => !ticked && final(self).last_line == old(self).last_line,
                    Ok(Option::Some(line)) => ticked && old(self).speakers@.len() > 0
                        && is_valid_pick(
                        console_current(old(self).last_line),
                        spoken_all(utterances(old(self).speakers@)),
                        line@,
                    ) && final(self).last_line == Option::Some(line),
                    Err(e) => ticked && old(self).speakers@.len() == 0 && e
                        == SelectError::EmptyCandidates && final(self).last_line == old(
                        self).last_line,
                }
            }),
    {
        let ticked = self.timer.tick(delta_ms);
        if !ticked {
            return Ok(None);
        }
        let cands = spoken_forms(&self.speakers);
        let current = match &self.last_line {
            Some(l) => l.clone(),
            None => String::new(),
        };
        match pick_different(&current, &cands) {
            Err(e) => Err(e),
            Ok(line) => {
                self.last_line = Some(line.clone());
                Ok(Some(line))
            },
        }
    }
}

} // verus!
