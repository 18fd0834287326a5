use rockbot_tui::animation::{AnimationFlags, AnimationStyle, Transition, TransitionKind};

#[test]
fn transitions_follow_the_style() {
    let f = AnimationFlags::new(AnimationStyle::Coalesce);
    assert!(f.animates());
    assert_eq!(f.modal_open(), Some(Transition { kind: TransitionKind::Coalesce, duration_ms: 600, ease_out: true }));
    assert_eq!(f.modal_close(), Some(Transition { kind: TransitionKind::Dissolve, duration_ms: 300, ease_out: false }));
    let f = AnimationFlags::new(AnimationStyle::Fade);
    assert_eq!(f.modal_open(), Some(Transition { kind: TransitionKind::FadeFromBlack, duration_ms: 400, ease_out: true }));
    assert_eq!(f.modal_close(), Some(Transition { kind: TransitionKind::FadeToBlack, duration_ms: 250, ease_out: false }));
    let f = AnimationFlags::new(AnimationStyle::Slide);
    assert_eq!(f.modal_open(), Some(Transition { kind: TransitionKind::SlideInUp, duration_ms: 350, ease_out: true }));
    assert_eq!(f.modal_close(), Some(Transition { kind: TransitionKind::SlideOutDown, duration_ms: 300, ease_out: false }));
    assert_eq!(f.page_transition(), Some(Transition { kind: TransitionKind::FadeFromWhite, duration_ms: 250, ease_out: true }));
}

#[test]
fn nothing_animates_when_off_or_disabled() {
    let f = AnimationFlags::new(AnimationStyle::Off);
    assert!(!f.animates());
    assert_eq!(f.modal_open(), None);
    assert_eq!(f.modal_close(), None);
    assert_eq!(f.page_transition(), None);
    let mut g = AnimationFlags::new(AnimationStyle::Fade);
    g.set_animations_enabled(false);
    assert_eq!(g.modal_open(), None);
    assert_eq!(g.page_transition(), None);
}

#[test]
fn activity_change_restarts_the_pulse() {
    let mut f = AnimationFlags::new(AnimationStyle::Fade);
    assert!(f.set_active(true));
    assert!(f.is_active);
    assert!(!f.set_active(true));
    assert!(f.set_active(false));
}
