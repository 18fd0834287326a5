//! When the interface animates, and which transition it plays: the
//! decisions behind the drawing of modal and page transitions.

use vstd::prelude::*;

verus! {

/// How modals appear and disappear.
#[derive(Debug, Clone, Copy, PartialEq, Eq, Structural)]
pub enum AnimationStyle {
    Coalesce,
    Fade,
    Slide,
    /// No animation.
    Off,
}

/// A transition effect to play.
#[derive(Debug, Clone, Copy, PartialEq, Eq, Structural)]
pub enum TransitionKind {
    /// Characters gather into place.
    Coalesce,
    /// Characters scatter away.
    Dissolve,
    /// Fade in from black text.
    FadeFromBlack,
    /// Fade out to black text.
    FadeToBlack,
    /// Fade in from white text.
    FadeFromWhite,
    /// Slide in from below, three cells at a time, over black.
    SlideInUp,
    /// Slide out downwards, three cells at a time, over black.
    SlideOutDown,
}

/// A transition and its timing: how long it lasts, and whether it eases
/// out (cubic, fast then slow) or in (cubic, slow then fast).
#[derive(Debug, Clone, Copy, PartialEq, Eq, Structural)]
pub struct Transition {
    pub kind: TransitionKind,
    pub duration_ms: u32,
    pub ease_out: bool,
}

/// The animation settings of an element.
#[derive(Debug, Clone, Copy, PartialEq, Eq, Structural)]
pub struct AnimationFlags {
    /// Whether the element is active (focused)
    pub is_active: bool,
    /// Whether animations are on
    pub animations_enabled: bool,
    /// How modals appear and disappear
    pub animation_style: AnimationStyle,
}

/// Whether anything animates: animations are on and the style is not `Off`.
pub open spec fn animates(f: AnimationFlags) -> bool {
    f.animations_enabled && f.animation_style != AnimationStyle::Off
}

/// The transition for a modal opening: coalescing in 600 ms, fading in
/// from black in 400 ms, or sliding up in 350 ms, all easing out.
pub open spec fn modal_open_spec(f: AnimationFlags) -> Option<Transition> {
    if !animates(f) {
        None
    } else {
        match f.animation_style {
            AnimationStyle::Coalesce => Some(Transition { kind: TransitionKind::Coalesce, duration_ms: 600, ease_out: true }),
            AnimationStyle::Fade => Some(Transition { kind: TransitionKind::FadeFromBlack, duration_ms: 400, ease_out: true }),
            AnimationStyle::Slide => Some(Transition { kind: TransitionKind::SlideInUp, duration_ms: 350, ease_out: true }),
            AnimationStyle::Off => None,
        }
    }
}

/// The transition for a modal closing: dissolving in 300 ms, fading to
/// black in 250 ms, or sliding down in 300 ms, all easing in.
pub open spec fn modal_close_spec(f: AnimationFlags) -> Option<Transition> {
    if !animates(f) {
        None
    } else {
        match f.animation_style {
            AnimationStyle::Coalesce => Some(Transition { kind: TransitionKind::Dissolve, duration_ms: 300, ease_out: false }),
            AnimationStyle::Fade => Some(Transition { kind: TransitionKind::FadeToBlack, duration_ms: 250, ease_out: false }),
            AnimationStyle::Slide => Some(Transition { kind: TransitionKind::SlideOutDown, duration_ms: 300, ease_out: false }),
            AnimationStyle::Off => None,
        }
    }
}

impl AnimationFlags {
    /// Animations on, the element inactive, in the given style.
    pub fn new(style: AnimationStyle) -> (f: AnimationFlags)
        ensures
            f == (AnimationFlags { is_active: false, animations_enabled: true, animation_style: style }),
    {
        AnimationFlags { is_active: false, animations_enabled: true, animation_style: style }
    }

    /// Make the element active or not; the answer says whether its pulse
    /// timer restarts, which it does when the state changes.
    pub fn set_active(&mut self, active: bool) -> (restart: bool)
        ensures
            restart == (old(self).is_active != active),
            *final(self) == (AnimationFlags { is_active: active, ..*old(self) }),
    {
        let restart = self.is_active != active;
        self.is_active = active;
        restart
    }

    /// Turn animations on or off.
    pub fn set_animations_enabled(&mut self, enabled: bool)
        ensures
            *final(self) == (AnimationFlags { animations_enabled: enabled, ..*old(self) }),
    {
        self.animations_enabled = enabled;
    }

    /// Whether anything animates (see `animates`).
    pub fn animates(&self) -> (r: bool)
        ensures
            r == animates(*self),
    {
        self.animations_enabled && self.animation_style != AnimationStyle::Off
    }

    /// The transition to play when a modal opens, if any.
    pub fn modal_open(&self) -> (r: Option<Transition>)
        ensures
            r == modal_open_spec(*self),
    {
        if !self.animates() {
            return None;
        }
        match self.animation_style {
            AnimationStyle::Coalesce => Some(Transition { kind: TransitionKind::Coalesce, duration_ms: 600, ease_out: true }),
            AnimationStyle::Fade => Some(Transition { kind: TransitionKind::FadeFromBlack, duration_ms: 400, ease_out: true }),
            AnimationStyle::Slide => Some(Transition { kind: TransitionKind::SlideInUp, duration_ms: 350, ease_out: true }),
            AnimationStyle::Off => None,
        }
    }

    /// The transition to play when a modal closes, if any.
    pub fn modal_close(&self) -> (r: Option<Transition>)
        ensures
            r == modal_close_spec(*self),
    {
        if !self.animates() {
            return None;
        }
        match self.animation_style {
            AnimationStyle::Coalesce => Some(Transition { kind: TransitionKind::Dissolve, duration_ms: 300, ease_out: false }),
            AnimationStyle::Fade => Some(Transition { kind: TransitionKind::FadeToBlack, duration_ms: 250, ease_out: false }),
            AnimationStyle::Slide => Some(Transition { kind: TransitionKind::SlideOutDown, duration_ms: 300, ease_out: false }),
            AnimationStyle::Off => None,
        }
    }

    /// The transition to play when the page changes: a 250 ms fade in from
    /// white, easing out, whenever anything animates.
    pub fn page_transition(&self) -> (r: Option<Transition>)
        ensures
            r == if animates(*self) {
                Some(Transition { kind: TransitionKind::FadeFromWhite, duration_ms: 250, ease_out: true })
            } else {
                None
            },
    {
        if self.animates() {
            Some(Transition { kind: TransitionKind::FadeFromWhite, duration_ms: 250, ease_out: true })
        } else {
            None
        }
    }
}

} // verus!
