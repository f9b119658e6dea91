//! The first-run intro tour as a state machine: the window's animation loop
//! and buttons feed it events, and it says which sounds to play and when the
//! tour is over.

use vstd::prelude::*;

verus! {

/// How long each timed phase lasts before the next one, in milliseconds.
pub const FADE_IN_MS: u64 = 600;
pub const PAGE_REVEAL_MS: u64 = 800;
pub const PAGE_TRANSITION_MS: u64 = 500;
pub const FADE_OUT_MS: u64 = 500;

/// The phases of the intro.
#[derive(Clone, Copy, PartialEq, Eq, Structural, Debug)]
pub enum IntroPhase {
    FadeIn,
    PageReveal,
    Ready,
    PageTransition,
    FadeOut,
    Complete,
}

/// Sounds the intro asks for.
#[derive(Clone, Copy, PartialEq, Eq, Structural, Debug)]
pub enum IntroSound {
    Click,
    Transition,
    Complete,
}

/// The intro's animation state.
#[derive(Clone, Copy, PartialEq, Eq, Debug)]
pub struct IntroState {
    pub phase: IntroPhase,
    pub current_page: usize,
    pub user_interacted: bool,
    /// 1 when the last page change went forward, -1 when it went back.
    pub swipe_direction: i32,
}

/// What the window must do after an event.
#[derive(Clone, Debug)]
pub struct IntroEffects {
    /// Sounds to play, in order.
    pub sounds: Vec<IntroSound>,
    /// The phase changed: its clock restarts.
    pub phase_restarted: bool,
    /// The page changed: its clock restarts.
    pub page_restarted: bool,
    /// All audio must stop.
    pub stop_audio: bool,
    /// The intro is over and the window reports completion.
    pub completed: bool,
}

impl IntroEffects {
    /// Nothing to do.
    pub open spec fn is_none(&self) -> bool {
        &&& self.sounds@.len() == 0
        &&& !self.phase_restarted
        &&& !self.page_restarted
        &&& !self.stop_audio
        &&& !self.completed
    }

    fn none() -> (r: Self)
        ensures
            r.is_none(),
    {
        IntroEffects { sounds: Vec::new(), phase_restarted: false, page_restarted: false, stop_audio: false, completed: false }
    }
}

impl IntroState {
    /// The state the intro starts in: fading in on the first page.
    pub fn new() -> (r: Self)
        ensures
            r.phase == IntroPhase::FadeIn,
            r.current_page == 0,
            !r.user_interacted,
            r.swipe_direction == 1,
    {
        IntroState { phase: IntroPhase::FadeIn, current_page: 0, user_interacted: false, swipe_direction: 1 }
    }

    /// Moves to `new_phase`; entering the page reveal plays the transition sound.
    fn advance_phase(&mut self, new_phase: IntroPhase, fx: &mut IntroEffects)
        ensures
            final(self).phase == new_phase,
            final(self).current_page == old(self).current_page,
            final(self).user_interacted == old(self).user_interacted,
            final(self).swipe_direction == old(self).swipe_direction,
            old(self).phase == new_phase ==> *final(fx) == *old(fx),
            old(self).phase != new_phase ==> final(fx).phase_restarted
                && final(fx).sounds@ == (if new_phase == IntroPhase::PageReveal {
                    old(fx).sounds@.push(IntroSound::Transition)
                } else {
                    old(fx).sounds@
                })
                && final(fx).page_restarted == old(fx).page_restarted
                && final(fx).stop_audio == old(fx).stop_audio
                && final(fx).completed == old(fx).completed,
    {
        if self.phase == new_phase {
            return;
        }
        self.phase = new_phase;
        fx.phase_restarted = true;
        if new_phase == IntroPhase::PageReveal {
            fx.sounds.push(IntroSound::Transition);
        }
    }

    /// One animation frame, `phase_elapsed_ms` after the phase began: the
    /// fade-in, the page reveal, a page transition and the fade-out each end
    /// once their time has passed; the end of the fade-out completes the
    /// intro and stops the audio.
    pub fn tick(&mut self, phase_elapsed_ms: u64) -> (fx: IntroEffects)
        ensures
            final(self).current_page == old(self).current_page,
            final(self).user_interacted == old(self).user_interacted,
            final(self).phase == (match old(self).phase {
                IntroPhase::FadeIn => if phase_elapsed_ms > FADE_IN_MS { IntroPhase::PageReveal } else { IntroPhase::FadeIn },
                IntroPhase::PageReveal => if phase_elapsed_ms > PAGE_REVEAL_MS { IntroPhase::Ready } else { IntroPhase::PageReveal },
                IntroPhase::PageTransition => if phase_elapsed_ms > PAGE_TRANSITION_MS { IntroPhase::Ready } else { IntroPhase::PageTransition },
                IntroPhase::FadeOut => if phase_elapsed_ms > FADE_OUT_MS { IntroPhase::Complete } else { IntroPhase::FadeOut },
                p => p,
            }),
            fx.phase_restarted == (final(self).phase != old(self).phase),
            fx.sounds@ == (if final(self).phase == IntroPhase::PageReveal && old(self).phase != IntroPhase::PageReveal {
                seq![IntroSound::Transition]
            } else {
                Seq::<IntroSound>::empty()
            }),
            !fx.page_restarted,
            fx.completed == (old(self).phase == IntroPhase::FadeOut && final(self).phase == IntroPhase::Complete),
            fx.stop_audio == fx.completed,
    {
        let mut fx = IntroEffects::none();
        match self.phase {
            IntroPhase::FadeIn => {
                if phase_elapsed_ms > FADE_IN_MS {
                    self.advance_phase(IntroPhase::PageReveal, &mut fx);
                }
            },
            IntroPhase::PageReveal => {
                if phase_elapsed_ms > PAGE_REVEAL_MS {
                    self.advance_phase(IntroPhase::Ready, &mut fx);
                }
            },
            IntroPhase::PageTransition => {
                if phase_elapsed_ms > PAGE_TRANSITION_MS {
                    self.advance_phase(IntroPhase::Ready, &mut fx);
                }
            },
            IntroPhase::FadeOut => {
                if phase_elapsed_ms > FADE_OUT_MS {
                    self.advance_phase(IntroPhase::Complete, &mut fx);
                    fx.stop_audio = true;
                    fx.completed = true;
                }
            },
            _ => {},
        }
        assert(fx.sounds@ =~= (if self.phase == IntroPhase::PageReveal && old(self).phase != IntroPhase::PageReveal {
            seq![IntroSound::Transition]
        } else {
            Seq::<IntroSound>::empty()
        }));
        fx
    }

    /// Ends the tour, once: the first call plays the completion sound and
    /// starts the fade-out; later calls do nothing.
    fn finish_into(&mut self, fx: &mut IntroEffects)
        ensures
            old(self).user_interacted ==> *final(self) == *old(self) && *final(fx) == *old(fx),
            !old(self).user_interacted ==> final(self).user_interacted
                && final(self).phase == IntroPhase::FadeOut
                && final(self).current_page == old(self).current_page
                && final(self).swipe_direction == old(self).swipe_direction
                && final(fx).sounds@ == old(fx).sounds@.push(IntroSound::Complete)
                && final(fx).phase_restarted == (old(fx).phase_restarted || old(self).phase != IntroPhase::FadeOut)
                && final(fx).page_restarted == old(fx).page_restarted
                && final(fx).stop_audio == old(fx).stop_audio
                && final(fx).completed == old(fx).completed,
    {
        if !self.user_interacted {
            self.user_interacted = true;
            fx.sounds.push(IntroSound::Complete);
            self.advance_phase(IntroPhase::FadeOut, fx);
        }
    }

    /// Ends the tour (see `finish_into`).
    pub fn finish(&mut self) -> (fx: IntroEffects)
        ensures
            old(self).user_interacted ==> *final(self) == *old(self) && fx.is_none(),
            !old(self).user_interacted ==> final(self).user_interacted
                && final(self).phase == IntroPhase::FadeOut
                && final(self).current_page == old(self).current_page
                && fx.sounds@ == seq![IntroSound::Complete]
                && fx.phase_restarted == (old(self).phase != IntroPhase::FadeOut)
                && !fx.completed && !fx.stop_audio && !fx.page_restarted,
    {
        let mut fx = IntroEffects::none();
        self.finish_into(&mut fx);
        assert(!old(self).user_interacted ==> fx.sounds@ =~= seq![IntroSound::Complete]);
        fx
    }

    /// Goes to the next page when the current one is ready; on the last page
    /// this ends the tour instead. Each accepted press clicks.
    pub fn next_page(&mut self, total_pages: usize) -> (fx: IntroEffects)
        ensures
            old(self).current_page < total_pages ==> final(self).current_page < total_pages,
            old(self).phase != IntroPhase::Ready ==> *final(self) == *old(self) && fx.is_none(),
            old(self).phase == IntroPhase::Ready && old(self).current_page + 1 < total_pages ==> {
                &&& final(self).current_page == old(self).current_page + 1
                &&& final(self).phase == IntroPhase::PageTransition
                &&& final(self).swipe_direction == 1
                &&& final(self).user_interacted == old(self).user_interacted
                &&& fx.sounds@ == seq![IntroSound::Click]
                &&& fx.page_restarted && fx.phase_restarted && !fx.completed
            },
            old(self).phase == IntroPhase::Ready && old(self).current_page + 1 >= total_pages ==> {
                &&& final(self).current_page == old(self).current_page
                &&& fx.sounds@[0] == IntroSound::Click
                &&& old(self).user_interacted ==> *final(self) == *old(self) && fx.sounds@ == seq![IntroSound::Click]
                &&& !old(self).user_interacted ==> final(self).phase == IntroPhase::FadeOut && final(self).user_interacted
                    && fx.sounds@ == seq![IntroSound::Click, IntroSound::Complete]
                &&& !fx.page_restarted && !fx.completed
            },
    {
        let mut fx = IntroEffects::none();
        if self.phase != IntroPhase::Ready {
            return fx;
        }
        fx.sounds.push(IntroSound::Click);
        if self.current_page >= total_pages || total_pages - self.current_page <= 1 {
            self.finish_into(&mut fx);
        } else {
            self.current_page = self.current_page + 1;
            fx.page_restarted = true;
            self.swipe_direction = 1;
            self.advance_phase(IntroPhase::PageTransition, &mut fx);
        }
        assert(fx.sounds@.len() > 0 ==> fx.sounds@[0] == IntroSound::Click);
        fx
    }

    /// Goes back a page when the current one is ready and is not the first.
    pub fn prev_page(&mut self) -> (fx: IntroEffects)
        ensures
            final(self).current_page <= old(self).current_page,
            (old(self).phase != IntroPhase::Ready || old(self).current_page == 0) ==> *final(self) == *old(self)
                && fx.is_none(),
            (old(self).phase == IntroPhase::Ready && old(self).current_page > 0) ==> {
                &&& final(self).current_page == old(self).current_page - 1
                &&& final(self).phase == IntroPhase::PageTransition
                &&& final(self).swipe_direction == -1
                &&& final(self).user_interacted == old(self).user_interacted
                &&& fx.sounds@ == seq![IntroSound::Click]
                &&& fx.page_restarted && fx.phase_restarted && !fx.completed
            },
    {
        let mut fx = IntroEffects::none();
        if self.phase != IntroPhase::Ready || self.current_page == 0 {
            return fx;
        }
        fx.sounds.push(IntroSound::Click);
        self.current_page = self.current_page - 1;
        fx.page_restarted = true;
        self.swipe_direction = -1;
        self.advance_phase(IntroPhase::PageTransition, &mut fx);
        fx
    }

    /// Skips the rest of the tour: a click, then the end of the tour.
    pub fn skip(&mut self) -> (fx: IntroEffects)
        ensures
            fx.sounds@[0] == IntroSound::Click,
            old(self).user_interacted ==> *final(self) == *old(self) && fx.sounds@ == seq![IntroSound::Click],
            !old(self).user_interacted ==> final(self).phase == IntroPhase::FadeOut && final(self).user_interacted
                && final(self).current_page == old(self).current_page
                && fx.sounds@ == seq![IntroSound::Click, IntroSound::Complete],
            !fx.completed,
    {
        let mut fx = IntroEffects::none();
        fx.sounds.push(IntroSound::Click);
        self.finish_into(&mut fx);
        fx
    }
}

/// The navigation bar of the intro: whether the buttons respond, and what
/// the forward button and the page counter say.
#[derive(Clone, Debug)]
pub struct IntroNav {
    pub back_enabled: bool,
    pub forward_enabled: bool,
    pub is_last_page: bool,
    /// `Get Started` on the last page, `Next` before it.
    pub forward_label: &'static str,
    /// `<page> / <total>`, counting pages from one.
    pub counter: String,
}

/// The navigation bar for `state` in a tour of `total_pages` pages: the
/// buttons respond only when the page is ready, and going back needs a page
/// before this one.
pub fn intro_nav(state: &IntroState, total_pages: usize) -> (r: IntroNav)
    requires
        state.current_page < usize::MAX,
    ensures
        r.forward_enabled == (state.phase == IntroPhase::Ready),
        r.back_enabled == (state.phase == IntroPhase::Ready && state.current_page != 0),
        r.is_last_page == (state.current_page + 1 >= total_pages),
        r.forward_label@ == (if r.is_last_page { "Get Started"@ } else { "Next"@ }),
        r.counter@ == crate::text::decimal((state.current_page + 1) as nat) + " / "@
            + crate::text::decimal(total_pages as nat),
{
    let ready = match state.phase {
        IntroPhase::Ready => true,
        _ => false,
    };
    let is_last_page = state.current_page + 1 >= total_pages;
    let mut v = crate::text::decimal_chars((state.current_page + 1) as u64);
    crate::text::vec_append_str(&mut v, " / ");
    let t = crate::text::decimal_chars(total_pages as u64);
    crate::text::vec_append(&mut v, &t);
    IntroNav {
        back_enabled: ready && state.current_page != 0,
        forward_enabled: ready,
        is_last_page,
        forward_label: if is_last_page { "Get Started" } else { "Next" },
        counter: crate::text::string_from_chars(&v),
    }
}

/// Whether a command-line argument asks to show the intro again.
pub fn is_intro_flag(arg: &str) -> (r: bool)
    ensures
        r == (arg@ == "--OOBE"@ || arg@ == "--oobe"@),
{
    crate::text::str_eq(arg, "--OOBE") || crate::text::str_eq(arg, "--oobe")
}

/// Whether the intro counts as seen, and whether it has now been forced
/// this session. The `--OOBE` flag forces the intro once per session;
/// otherwise it was seen when its marker file exists.
pub fn intro_seen(flag_given: bool, shown_this_session: bool, marker_exists: bool) -> (r: (bool, bool))
    ensures
        r.0 == (if flag_given && !shown_this_session { false } else { marker_exists }),
        r.1 == (shown_this_session || flag_given),
{
    if flag_given && !shown_this_session {
        (false, true)
    } else {
        (marker_exists, shown_this_session || flag_given)
    }
}

} // verus!
