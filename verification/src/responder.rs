//! The interaction responder's vocabulary: the pointer-interaction signal, the
//! background colors it maps to, the display state, the speakers and their
//! utterances, and the spoken form of an utterance (the utterance followed by
//! one exclamation mark) that every bark is drawn from.

use vstd::prelude::*;

use crate::selector::is_valid_pick;
use crate::selector::views_of;
use vstd::string::StringExecFns;

verus! {

/// The pointer state relative to the control, delivered by the host once per
/// frame when it changes.
#[derive(Clone, Copy, Debug, PartialEq, Eq, Structural)]
pub enum InteractionSignal {
    Idle,
    Hovered,
    Pressed,
}

/// A background color, as red, green and blue intensities in hundredths of
/// full intensity (each component lies in 0 ..= 100).
#[derive(Clone, Copy, Debug, PartialEq, Eq, Structural)]
pub struct Rgb {
    pub red: u8,
    pub green: u8,
    pub blue: u8,
}

/// The neutral, dark color shown while the control is idle.
pub open spec fn neutral_color() -> Rgb {
    Rgb { red: 15, green: 15, blue: 15 }
}

/// The medium highlight shown while the control is hovered.
pub open spec fn medium_color() -> Rgb {
    Rgb { red: 25, green: 25, blue: 25 }
}

/// The strong (green) highlight shown while the control is pressed.
pub open spec fn strong_color() -> Rgb {
    Rgb { red: 35, green: 75, blue: 35 }
}

/// The color each interaction state maps to.
pub open spec fn color_for(signal: InteractionSignal) -> Rgb {
    match signal {
        InteractionSignal::Idle => neutral_color(),
        InteractionSignal::Hovered => medium_color(),
        InteractionSignal::Pressed => strong_color(),
    }
}

/// Build the color for an interaction state.
pub fn color_of(signal: InteractionSignal) -> (c: Rgb)
    ensures
        c == color_for(signal),
{
    match signal {
        InteractionSignal::Idle => Rgb { red: 15, green: 15, blue: 15 },
        InteractionSignal::Hovered => Rgb { red: 25, green: 25, blue: 25 },
        InteractionSignal::Pressed => Rgb { red: 35, green: 75, blue: 35 },
    }
}

/// Law: the three interaction colors are pairwise distinct.
pub proof fn lemma_colors_pairwise_distinct()
    ensures
        neutral_color() != medium_color(),
        neutral_color() != strong_color(),
        medium_color() != strong_color(),
{
}

/// The text and background color currently shown on the control.
pub struct DisplayState {
    pub text: String,
    pub color: Rgb,
}

/// A speaker: an entity whose sole relevant property is the one utterance it
/// says, set at creation and never mutated.
pub struct Speaker {
    pub utterance: String,
}

impl Speaker {
    /// Create a speaker with its one utterance.
    pub fn new(utterance: String) -> (s: Speaker)
        ensures
            s.utterance == utterance,
    {
        Speaker { utterance }
    }
}

/// The utterances of a list of speakers, as character sequences.
pub open spec fn utterances(speakers: Seq<Speaker>) -> Seq<Seq<char>> {
    speakers.map(|i: int, s: Speaker| s.utterance@)
}

/// The spoken form of an utterance: the utterance followed by one '!'.
pub open spec fn spoken(u: Seq<char>) -> Seq<char> {
    u.push('!')
}

/// The spoken forms of a list of utterances.
pub open spec fn spoken_all(us: Seq<Seq<char>>) -> Seq<Seq<char>> {
    us.map(|i: int, u: Seq<char>| spoken(u))
}

/// A bark with the emphasis suffix "!!" appended, as shown while pressed.
pub open spec fn emphasized(b: Seq<char>) -> Seq<char> {
    b.push('!').push('!')
}

/// Whether a text ends with the two-character emphasis "!!".
pub open spec fn ends_with_emphasis(t: Seq<char>) -> bool {
    t.len() >= 2 && t[t.len() - 1] == '!' && t[t.len() - 2] == '!'
}

/// How one interaction transition rewrites the displayed text: some bark `b`,
/// validly selected against the previous text from the candidates, shown bare
/// for Idle and Hovered and with the emphasis suffix for Pressed.
pub open spec fn transition_text(
    prev: Seq<char>,
    candidates: Seq<Seq<char>>,
    signal: InteractionSignal,
    t: Seq<char>,
) -> bool {
    exists|b: Seq<char>|
        is_valid_pick(prev, candidates, b) && t == (if signal is Pressed {
            emphasized(b)
        } else {
            b
        })
}

/// Build the spoken form of each speaker's utterance.
pub fn spoken_forms(speakers: &Vec<Speaker>) -> (r: Vec<String>)
    ensures
        r@.len() == speakers@.len(),
        views_of(r@) == spoken_all(utterances(speakers@)),
{
    let mut r: Vec<String> = Vec::new();
    let mut i: usize = 0;
    while i < speakers.len()
        invariant
            i <= speakers@.len(),
            r@.len() == i,
            forall|j: int| 0 <= j < i ==> r@[j]@ == spoken(speakers@[j].utterance@),
        decreases speakers@.len() - i,
    {
        let mut form = speakers[i].utterance.clone();
        form.append("!");
        proof {
            reveal_strlit("!");
            assert(form@ =~= spoken(speakers@[i as int].utterance@));
        }
        r.push(form);
        i += 1;
    }
    proof {
        assert(views_of(r@) =~= spoken_all(utterances(speakers@)));
    }
    r
}

/// Law: a Pressed transition always shows text ending in the "!!" emphasis.
pub proof fn lemma_pressed_has_emphasis(
    prev: Seq<char>,
    candidates: Seq<Seq<char>>,
    t: Seq<char>,
)
    requires
        transition_text(prev, candidates, InteractionSignal::Pressed, t),
    ensures
        ends_with_emphasis(t),
{
    let b = choose|b: Seq<char>|
        is_valid_pick(prev, candidates, b) && t == emphasized(b);
    assert(t.len() == b.len() + 2);
    assert(t[t.len() - 1] == '!');
    assert(t[t.len() - 2] == '!');
}

/// Law: an Idle or Hovered transition over spoken forms never shows the
/// emphasis, provided no utterance itself ends in '!' (the spoken form then
/// ends in exactly one '!').
pub proof fn lemma_unpressed_no_emphasis(
    prev: Seq<char>,
    us: Seq<Seq<char>>,
    signal: InteractionSignal,
    t: Seq<char>,
)
    requires
        !(signal is Pressed),
        forall|i: int| 0 <= i < us.len() ==> us[i].len() == 0 || us[i][us[i].len() - 1] != '!',
        transition_text(prev, spoken_all(us), signal, t),
    ensures
        !ends_with_emphasis(t),
{
    let b = choose|b: Seq<char>| is_valid_pick(prev, spoken_all(us), b) && t == b;
    assert(spoken_all(us).contains(b));
    let i = choose|i: int| 0 <= i < spoken_all(us).len() && spoken_all(us)[i] == b;
    assert(b == spoken(us[i]));
    if us[i].len() == 0 {
        assert(t.len() == 1);
    } else {
        assert(t[t.len() - 2] == us[i][us[i].len() - 1]);
        assert(t[t.len() - 2] != '!');
    }
}

/// Law: a transition changes the displayed text whenever the candidates hold
/// at least two distinct values and the previous text does not already carry
/// the emphasis (the host delivers a signal only when it changes, so no text
/// carrying the emphasis is ever the starting point of a Pressed transition).
pub proof fn lemma_transition_changes_text(
    prev: Seq<char>,
    candidates: Seq<Seq<char>>,
    signal: InteractionSignal,
    t: Seq<char>,
)
    requires
        exists|i: int, j: int|
            0 <= i < candidates.len() && 0 <= j < candidates.len() && candidates[i]
                != candidates[j],
        !ends_with_emphasis(prev),
        transition_text(prev, candidates, signal, t),
    ensures
        t != prev,
{
    let b = choose|b: Seq<char>|
        is_valid_pick(prev, candidates, b) && t == (if signal is Pressed {
            emphasized(b)
        } else {
            b
        });
    if signal is Pressed {
        lemma_pressed_has_emphasis(prev, candidates, t);
    } else {
        crate::selector::lemma_pick_avoids_repeat(prev, candidates, b);
    }
}

/// Law: every valid selection from the spoken forms of a list of utterances
/// is the spoken form of one of them.
pub proof fn lemma_pick_is_spoken_form(current: Seq<char>, us: Seq<Seq<char>>, out: Seq<char>)
    requires
        is_valid_pick(current, spoken_all(us), out),
    ensures
        exists|i: int| 0 <= i < us.len() && out == spoken(us[i]),
{
    assert(spoken_all(us).contains(out));
    let i = choose|i: int| 0 <= i < spoken_all(us).len() && spoken_all(us)[i] == out;
    assert(0 <= i < us.len() && out == spoken(us[i]));
}

} // verus!
