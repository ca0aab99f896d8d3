//! The registry and the buffer taken together, under everything that can
//! happen to them, and what holds of every run.

use crate::interceptor::{buffer_after, outcome, presses, HookEvent, Outcome};
use crate::key::Key;
use crate::recording::Buffer;
use crate::status::AppStatus;
use vstd::prelude::*;

verus! {

/// The shared state: the hotkey in force and the recording buffer.
#[verifier::ext_equal]
pub struct System<S> {
    pub hotkey: Key,
    pub buffer: Buffer<S>,
}

/// One thing that happens to the shared state.
#[verifier::ext_equal]
pub enum Stimulus<S> {
    /// The keyboard hook delivers an event to the interceptor, which
    /// handles it with `handle_keyboard_event`.
    Hook(HookEvent),
    /// The audio source delivers samples, which go to
    /// `RecordingState::push`.
    Audio(Seq<S>),
    /// The menu sets a hotkey, through `HotkeyRegistry::set`.
    Choose(Key),
}

/// The statuses of a full cycle, by their place in it.
pub open spec fn cycle(place: int) -> AppStatus {
    if place % 3 == 0 {
        AppStatus::Recording
    } else if place % 3 == 1 {
        AppStatus::Transcribing
    } else {
        AppStatus::WaitingForHotkey
    }
}

impl<S> System<S> {
    /// Whether `stimulus` is a press of the hotkey in force.
    pub open spec fn toggles(self, stimulus: Stimulus<S>) -> bool {
        stimulus matches Stimulus::Hook(event) && presses(event, self.hotkey)
    }

    /// What the interceptor makes of `stimulus`. Only the hook reaches it.
    pub open spec fn outcome(self, stimulus: Stimulus<S>) -> Outcome<S> {
        match stimulus {
            Stimulus::Hook(event) => outcome(self.buffer, self.hotkey, event),
            _ => Outcome::Forward,
        }
    }

    /// The state after `stimulus`.
    pub open spec fn step(self, stimulus: Stimulus<S>) -> System<S> {
        match stimulus {
            Stimulus::Hook(event) => System {
                hotkey: self.hotkey,
                buffer: buffer_after(self.buffer, self.hotkey, event),
            },
            Stimulus::Audio(samples) => System {
                hotkey: self.hotkey,
                buffer: self.buffer.push(samples),
            },
            Stimulus::Choose(key) => System { hotkey: key, buffer: self.buffer },
        }
    }

    /// The state after `stimuli`, one after the other.
    pub open spec fn run(self, stimuli: Seq<Stimulus<S>>) -> System<S>
        decreases stimuli.len(),
    {
        if stimuli.len() == 0 {
            self
        } else {
            self.step(stimuli.first()).run(stimuli.drop_first())
        }
    }

    /// How many of `stimuli` are presses of the hotkey in force when they
    /// come.
    pub open spec fn toggle_count(self, stimuli: Seq<Stimulus<S>>) -> nat
        decreases stimuli.len(),
    {
        if stimuli.len() == 0 {
            0
        } else {
            let rest = self.step(stimuli.first()).toggle_count(stimuli.drop_first());
            if self.toggles(stimuli.first()) {
                rest + 1
            } else {
                rest
            }
        }
    }

    /// The key that the menu chose last in `stimuli`, and the hotkey in
    /// force before them if it chose none.
    pub open spec fn last_chosen(self, stimuli: Seq<Stimulus<S>>) -> Key
        decreases stimuli.len(),
    {
        if stimuli.len() == 0 {
            self.hotkey
        } else {
            match stimuli.last() {
                Stimulus::Choose(key) => key,
                _ => self.last_chosen(stimuli.drop_last()),
            }
        }
    }

    /// The statuses that the interceptor makes known in the course of
    /// `stimuli`, in order, each session carried to its conclusion.
    pub open spec fn emitted(self, stimuli: Seq<Stimulus<S>>) -> Seq<AppStatus>
        decreases stimuli.len(),
    {
        if stimuli.len() == 0 {
            seq![]
        } else {
            self.outcome(stimuli.first()).session_statuses() + self.step(stimuli.first()).emitted(
                stimuli.drop_first(),
            )
        }
    }
}

/// Samples delivered one chunk after the other.
pub open spec fn deliveries<S>(chunks: Seq<Seq<S>>) -> Seq<Stimulus<S>> {
    Seq::new(chunks.len(), |i: int| Stimulus::Audio(chunks[i]))
}

/// A press of the hotkey in force flips the recording toggle, and nothing
/// else touches it.
pub proof fn law_only_the_hotkey_toggles<S>(system: System<S>, stimulus: Stimulus<S>)
    ensures
        system.step(stimulus).buffer.recording == (system.buffer.recording != system.toggles(
            stimulus,
        )),
{
}

/// The buffer goes into recording only from idle and out of it only from
/// recording: a press of the hotkey is the one or the other, by the state
/// it meets, and no other event is either.
pub proof fn law_transitions_meet_their_conditions<S>(system: System<S>, event: HookEvent)
    ensures
        presses(event, system.hotkey) && !system.buffer.recording ==> system.step(
            Stimulus::Hook(event),
        ).buffer == system.buffer.begin(),
        presses(event, system.hotkey) && system.buffer.recording ==> system.step(
            Stimulus::Hook(event),
        ).buffer == system.buffer.end(),
        !presses(event, system.hotkey) ==> system.step(Stimulus::Hook(event)) == system,
{
}

/// Over any run the recording toggle alternates: it ends where it began
/// after an even number of presses of the hotkey, and on the other side
/// after an odd number.
pub proof fn law_recording_alternates<S>(system: System<S>, stimuli: Seq<Stimulus<S>>)
    ensures
        system.run(stimuli).buffer.recording == (system.buffer.recording != (system.toggle_count(
            stimuli,
        ) % 2 == 1)),
    decreases stimuli.len(),
{
    if stimuli.len() > 0 {
        law_recording_alternates(system.step(stimuli.first()), stimuli.drop_first());
    }
}

/// An idle buffer holds no samples: true at the start, this stays true
/// whatever happens.
pub proof fn law_idle_buffer_stays_empty<S>(system: System<S>, stimuli: Seq<Stimulus<S>>)
    requires
        system.buffer.settled(),
    ensures
        system.run(stimuli).buffer.settled(),
    decreases stimuli.len(),
{
    if stimuli.len() > 0 {
        law_idle_buffer_stays_empty(system.step(stimuli.first()), stimuli.drop_first());
    }
}

/// Samples delivered while the buffer is idle leave no trace: whatever
/// comes later, the state is the one it would have been without them, and
/// so is what the next event captures.
pub proof fn law_idle_audio_is_dropped<S>(
    system: System<S>,
    samples: Seq<S>,
    later: Seq<Stimulus<S>>,
    then: Stimulus<S>,
)
    requires
        !system.buffer.recording,
    ensures
        system.step(Stimulus::Audio(samples)) == system,
        system.run(seq![Stimulus::Audio(samples)] + later) == system.run(later),
        system.run(seq![Stimulus::Audio(samples)] + later).outcome(then) == system.run(
            later,
        ).outcome(then),
        system.emitted(seq![Stimulus::Audio(samples)] + later) == system.emitted(later),
{
    let stimuli = seq![Stimulus::Audio(samples)] + later;
    assert(stimuli.first() == Stimulus::Audio(samples));
    assert(stimuli.drop_first() =~= later);
    assert(system.step(Stimulus::Audio(samples)) =~= system);
    assert(system.emitted(stimuli) =~= system.emitted(later));
}

/// The transition into recording empties the buffer, whatever it held:
/// what comes of it depends on the sample rate alone.
pub proof fn law_begin_clears<S>(system: System<S>)
    requires
        !system.buffer.recording,
    ensures
        system.buffer.begin() == (Buffer::<S> {
            recording: true,
            samples: Seq::empty(),
            sample_rate: system.buffer.sample_rate,
        }),
        system.step(Stimulus::Hook(HookEvent::KeyPress(system.hotkey))).buffer
            == system.buffer.begin(),
{
}

/// While the buffer records, every delivery is kept, in the order of
/// arrival, behind what was there.
pub proof fn law_recording_keeps_every_delivery<S>(system: System<S>, chunks: Seq<Seq<S>>)
    requires
        system.buffer.recording,
    ensures
        system.run(deliveries(chunks)) == (System {
            hotkey: system.hotkey,
            buffer: Buffer {
                recording: true,
                samples: system.buffer.samples + chunks.flatten(),
                sample_rate: system.buffer.sample_rate,
            },
        }),
    decreases chunks.len(),
{
    let stimuli = deliveries(chunks);
    if chunks.len() == 0 {
        assert(system.buffer.samples + chunks.flatten() =~= system.buffer.samples);
        assert(system.run(stimuli) =~= system);
    } else {
        let next = system.step(stimuli.first());
        assert(stimuli.drop_first() =~= deliveries(chunks.drop_first()));
        law_recording_keeps_every_delivery(next, chunks.drop_first());
        assert(next.buffer.samples + chunks.drop_first().flatten() =~= system.buffer.samples
            + chunks.flatten());
    }
}

/// A session from the press that starts it to the press that ends it
/// captures exactly what was delivered in between, at the buffer's rate; if
/// that is nothing, the capture is discarded.
pub proof fn law_session_captures_what_was_delivered<S>(system: System<S>, chunks: Seq<Seq<S>>)
    requires
        !system.buffer.recording,
    ensures
        ({
            let press = Stimulus::Hook(HookEvent::KeyPress(system.hotkey));
            let armed = system.step(press).run(deliveries(chunks));
            &&& system.outcome(press) == Outcome::<S>::Started
            &&& armed.outcome(press) == (if chunks.flatten().len() == 0 {
                Outcome::Discarded
            } else {
                Outcome::Captured {
                    sample_rate: system.buffer.sample_rate,
                    samples: chunks.flatten(),
                }
            })
            &&& armed.step(press) == (System {
                hotkey: system.hotkey,
                buffer: Buffer::<S>::idle(system.buffer.sample_rate),
            })
        }),
{
    let press = Stimulus::Hook(HookEvent::KeyPress(system.hotkey));
    let started = system.step(press);
    law_recording_keeps_every_delivery(started, chunks);
    assert(started.buffer.samples + chunks.flatten() =~= chunks.flatten());
}

/// A press of the hotkey that ends a recording with nothing captured is
/// suppressed and hands nothing to the transcription service, so that no
/// text reaches the injector; `Transcribing` is made known all the same,
/// and `WaitingForHotkey` after it.
pub proof fn law_empty_capture_is_discarded<S>(system: System<S>, stimulus: Stimulus<S>)
    requires
        system.toggles(stimulus),
        system.buffer.recording,
        system.buffer.samples.len() == 0,
    ensures
        system.outcome(stimulus) == Outcome::<S>::Discarded,
        system.outcome(stimulus).suppresses(),
        !system.outcome(stimulus).transcribes(),
        system.outcome(stimulus).session_statuses() == seq![
            AppStatus::Transcribing,
            AppStatus::WaitingForHotkey,
        ],
{
}

/// Every press of the hotkey that ends a recording makes `Transcribing`
/// known and then `WaitingForHotkey`, whatever was captured and whatever
/// became of it.
pub proof fn law_every_session_returns_to_waiting<S>(system: System<S>, stimulus: Stimulus<S>)
    requires
        system.toggles(stimulus),
        system.buffer.recording,
    ensures
        system.outcome(stimulus).session_statuses() == seq![
            AppStatus::Transcribing,
            AppStatus::WaitingForHotkey,
        ],
{
}

/// Choosing a hotkey leaves the recording as it is. From then on a press of
/// the chosen key is the one that toggles, and a press of the key it
/// replaced goes on to other programs like any other.
pub proof fn law_hotkey_change_keeps_the_session<S>(
    system: System<S>,
    key: Key,
    event: HookEvent,
)
    ensures
        system.step(Stimulus::Choose(key)).hotkey == key,
        system.step(Stimulus::Choose(key)).buffer == system.buffer,
        system.step(Stimulus::Choose(key)).outcome(Stimulus::Hook(event)) == outcome(
            system.buffer,
            key,
            event,
        ),
        system.step(Stimulus::Choose(key)).toggles(Stimulus::Hook(event)) <==> event
            == HookEvent::KeyPress(key),
        key != system.hotkey ==> system.step(Stimulus::Choose(key)).step(
            Stimulus::Hook(HookEvent::KeyPress(system.hotkey)),
        ) == system.step(Stimulus::Choose(key)),
{
}

/// The hotkey in force is always the key that was chosen last, whole: no
/// earlier choice shows through, and nothing but a choice changes it.
pub proof fn law_hotkey_is_the_last_chosen<S>(system: System<S>, stimuli: Seq<Stimulus<S>>)
    ensures
        system.run(stimuli).hotkey == system.last_chosen(stimuli),
    decreases stimuli.len(),
{
    if stimuli.len() > 0 {
        let next = system.step(stimuli.first());
        let rest = stimuli.drop_first();
        law_hotkey_is_the_last_chosen(next, rest);
        lemma_last_chosen_from_the_front(system, stimuli);
    }
}

/// The last choice in a run is the last choice after its first step.
proof fn lemma_last_chosen_from_the_front<S>(system: System<S>, stimuli: Seq<Stimulus<S>>)
    requires
        stimuli.len() > 0,
    ensures
        system.last_chosen(stimuli) == system.step(stimuli.first()).last_chosen(
            stimuli.drop_first(),
        ),
    decreases stimuli.len(),
{
    let next = system.step(stimuli.first());
    let rest = stimuli.drop_first();
    let front = stimuli.drop_last();
    if rest.len() > 0 {
        assert(rest.last() == stimuli.last());
        assert(front.first() == stimuli.first());
        assert(front.drop_first() =~= rest.drop_last());
        lemma_last_chosen_from_the_front(system, front);
    } else {
        assert(stimuli.last() == stimuli.first());
        assert(system.last_chosen(front) == system.hotkey);
        assert(next.last_chosen(rest) == next.hotkey);
    }
}

/// From an idle start the statuses come round in the cycle `Recording`,
/// `Transcribing`, `WaitingForHotkey`, none skipped and none out of place.
pub proof fn law_statuses_follow_the_cycle<S>(system: System<S>, stimuli: Seq<Stimulus<S>>)
    ensures
        forall|i: int|
            0 <= i < system.emitted(stimuli).len() ==> #[trigger] system.emitted(stimuli)[i]
                == cycle(
                if system.buffer.recording {
                    i + 1
                } else {
                    i
                },
            ),
    decreases stimuli.len(),
{
    if stimuli.len() > 0 {
        let first = stimuli.first();
        let next = system.step(first);
        let head = system.outcome(first).session_statuses();
        let tail = next.emitted(stimuli.drop_first());
        law_statuses_follow_the_cycle(next, stimuli.drop_first());
        assert(system.emitted(stimuli) == head + tail);
        assert forall|i: int| 0 <= i < system.emitted(stimuli).len() implies #[trigger] system.emitted(
            stimuli,
        )[i] == cycle(
            if system.buffer.recording {
                i + 1
            } else {
                i
            },
        ) by {
            if i >= head.len() {
                assert(system.emitted(stimuli)[i] == tail[i - head.len()]);
            }
        }
    }
}

} // verus!
