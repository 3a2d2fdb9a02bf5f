use text_expander::event_loop::{type_expansion, EventLoop, LoopMode};
use text_expander::keymap::{
    KEY_A, KEY_B, KEY_BACKSPACE, KEY_C, KEY_D, KEY_E, KEY_ENTER, KEY_ESC, KEY_H, KEY_I, KEY_L,
    KEY_LEFTSHIFT, KEY_O, KEY_SEMICOLON, KEY_T, KEY_TAB, KEY_X,
};
use text_expander::matcher::{TextExpander, TriggerEntry};
use text_expander::template::{Trigger, Var, VarKind, VarParams};

fn chars(s: &str) -> Vec<char> {
    s.chars().collect()
}

fn text(v: &[char]) -> String {
    v.iter().collect()
}

fn plain_entry(trigger_text: &str, replace: &str) -> TriggerEntry {
    TriggerEntry {
        text: chars(trigger_text),
        trigger: Trigger { replace: chars(replace), vars: vec![] },
    }
}

/// The key press (code, shift) that produces a character of the small
/// alphabet these tests type.
fn key_for(c: char) -> (u16, bool) {
    match c {
        'a' => (KEY_A, false),
        'b' => (KEY_B, false),
        'c' => (KEY_C, false),
        'd' => (KEY_D, false),
        'h' => (KEY_H, false),
        'i' => (KEY_I, false),
        'e' => (KEY_E, false),
        'l' => (KEY_L, false),
        'o' => (KEY_O, false),
        't' => (KEY_T, false),
        'x' => (KEY_X, false),
        ':' => (KEY_SEMICOLON, true),
        other => panic!("no key mapping for {:?}", other),
    }
}

/// Type one character: shift down if needed, press, release, shift up.
/// Returns the match reported by the character press, if any.
fn type_char(exp: &mut TextExpander, c: char) -> Option<(usize, usize)> {
    let (code, shift) = key_for(c);
    if shift {
        assert_eq!(exp.process(KEY_LEFTSHIFT, true), None);
    }
    let r = exp.process(code, true);
    assert_eq!(exp.process(code, false), None);
    if shift {
        assert_eq!(exp.process(KEY_LEFTSHIFT, false), None);
    }
    r
}

/// Type a whole string; returns the last match fired, if any.
fn type_str(exp: &mut TextExpander, s: &str) -> Option<(usize, usize)> {
    let mut last = None;
    for c in s.chars() {
        if let Some(m) = type_char(exp, c) {
            last = Some(m);
        }
    }
    last
}

#[test]
fn buffer_never_exceeds_longest_trigger_length() {
    let mut exp = TextExpander::new(vec![plain_entry("abc", "X")]);
    assert_eq!(exp.max_len, 3);
    for _ in 0..10 {
        type_char(&mut exp, 'x');
        assert!(exp.buffer.len() <= exp.max_len);
    }
}

#[test]
fn empty_trigger_set_uses_fallback_bound() {
    let exp = TextExpander::new(vec![]);
    assert_eq!(exp.max_len, 64);
    assert!(exp.buffer.is_empty());
    assert!(!exp.shift);
}

#[test]
fn typing_a_trigger_matches_with_its_length() {
    let mut exp = TextExpander::new(vec![plain_entry("hello", "hi there")]);
    assert_eq!(type_str(&mut exp, "hello"), Some((5, 0)));
    assert!(exp.buffer.is_empty(), "buffer is cleared after a match");
}

#[test]
fn oldest_characters_are_dropped_from_the_front() {
    let mut exp = TextExpander::new(vec![plain_entry("bcd", "X")]);
    // Typing "abcd" pushes 'a' out of the three-character buffer, so the
    // tail "bcd" completes the trigger.
    assert_eq!(type_str(&mut exp, "abcd"), Some((3, 0)));
}

#[test]
fn control_keys_reset_the_buffer() {
    for code in [KEY_ENTER, KEY_TAB, KEY_ESC] {
        let mut exp = TextExpander::new(vec![plain_entry("abc", "X")]);
        type_str(&mut exp, "ab");
        assert_eq!(exp.buffer.len(), 2);
        assert_eq!(exp.process(code, true), None);
        assert!(exp.buffer.is_empty());
    }
}

#[test]
fn no_trigger_spans_a_context_boundary() {
    let mut exp = TextExpander::new(vec![plain_entry("abc", "X")]);
    type_str(&mut exp, "ab");
    exp.process(KEY_ENTER, true);
    // The 'c' alone no longer completes the trigger.
    assert_eq!(type_char(&mut exp, 'c'), None);
}

#[test]
fn backspace_removes_exactly_one_trailing_character() {
    let mut exp = TextExpander::new(vec![plain_entry("abcd", "X")]);
    type_str(&mut exp, "abc");
    assert_eq!(exp.process(KEY_BACKSPACE, true), None);
    assert_eq!(text(&exp.buffer), "ab");
    assert_eq!(exp.process(KEY_BACKSPACE, true), None);
    assert_eq!(text(&exp.buffer), "a");
}

#[test]
fn backspace_on_empty_buffer_is_a_noop() {
    let mut exp = TextExpander::new(vec![plain_entry("ab", "X")]);
    for _ in 0..3 {
        assert_eq!(exp.process(KEY_BACKSPACE, true), None);
        assert!(exp.buffer.is_empty());
    }
}

#[test]
fn backspace_mirrors_on_screen_deletion() {
    let mut exp = TextExpander::new(vec![plain_entry("abc", "X")]);
    type_str(&mut exp, "abx");
    assert_eq!(exp.process(KEY_BACKSPACE, true), None);
    // The buffer is "ab" again, so 'c' completes the trigger.
    assert_eq!(type_char(&mut exp, 'c'), Some((3, 0)));
}

#[test]
fn key_release_does_not_change_the_buffer() {
    let mut exp = TextExpander::new(vec![plain_entry("ab", "X")]);
    assert_eq!(exp.process(KEY_A, true), None);
    assert_eq!(exp.process(KEY_A, false), None);
    assert_eq!(text(&exp.buffer), "a");
}

#[test]
fn shift_state_follows_press_and_release() {
    let mut exp = TextExpander::new(vec![plain_entry("a:", "X")]);
    assert!(!exp.shift);
    exp.process(KEY_LEFTSHIFT, true);
    assert!(exp.shift);
    exp.process(KEY_LEFTSHIFT, false);
    assert!(!exp.shift);
}

#[test]
fn longest_simultaneous_suffix_wins() {
    // Both "hi:" and ":hi:" are configured; typing ":hi:" leaves both as
    // suffixes of the buffer, and the longer one is picked.
    let entries = vec![plain_entry("hi:", "short"), plain_entry(":hi:", "long")];
    let mut exp = TextExpander::new(entries);
    let m = type_str(&mut exp, ":hi:");
    assert_eq!(m, Some((4, 1)));
}

#[test]
fn longest_match_wins_regardless_of_configuration_order() {
    let entries = vec![plain_entry(":hi:", "long"), plain_entry("hi:", "short")];
    let mut exp = TextExpander::new(entries);
    assert_eq!(type_str(&mut exp, ":hi:"), Some((4, 0)));
}

#[test]
fn identical_trigger_texts_pick_the_first_entry() {
    let entries = vec![plain_entry("ab", "first"), plain_entry("ab", "second")];
    let mut exp = TextExpander::new(entries);
    assert_eq!(type_str(&mut exp, "ab"), Some((2, 0)));
}

#[test]
fn trigger_matches_after_unrelated_prefix() {
    let mut exp = TextExpander::new(vec![plain_entry("hello", "X")]);
    assert_eq!(type_str(&mut exp, "xxhello"), Some((5, 0)));
}

#[test]
fn a_trigger_that_is_a_prefix_fires_first() {
    // "ab" completes while "abc" is still being typed; the match clears
    // the buffer, so the final 'c' completes nothing.
    let entries = vec![plain_entry("ab", "short"), plain_entry("abc", "long")];
    let mut exp = TextExpander::new(entries);
    assert_eq!(type_char(&mut exp, 'a'), None);
    assert_eq!(type_char(&mut exp, 'b'), Some((2, 0)));
    assert_eq!(type_char(&mut exp, 'c'), None);
}

#[test]
fn match_is_not_rescanned_after_expansion() {
    // After a match the buffer is empty: the same trigger must be typed
    // in full again to fire again.
    let mut exp = TextExpander::new(vec![plain_entry("ab", "X")]);
    assert_eq!(type_str(&mut exp, "ab"), Some((2, 0)));
    assert_eq!(type_char(&mut exp, 'b'), None);
}

#[test]
fn date_scenario_end_to_end() {
    // Trigger table {":dt:" -> "{{d}}", vars: [{d, date, format="%Y"}]}.
    let entry = TriggerEntry {
        text: chars(":dt:"),
        trigger: Trigger {
            replace: chars("{{d}}"),
            vars: vec![Var {
                name: chars("d"),
                kind: VarKind::Date,
                params: VarParams {
                    format: Some(chars("%Y")),
                    cmd: None,
                    echo: None,
                },
            }],
        },
    };
    let mut exp = TextExpander::new(vec![entry]);
    let m = type_str(&mut exp, ":dt:");
    assert_eq!(m, Some((4, 0)));
    let (delete, idx) = m.unwrap();
    assert_eq!(delete, 4);
    let trig = &exp.triggers[idx].trigger;
    // The date collaborator is asked for "%Y"; its (trimmed) output is
    // the resolved year string.
    assert_eq!(
        trig.vars[0].request(),
        text_expander::template::ExternalRequest::RunDate(chars("%Y"))
    );
    let out = trig.expand(&vec![chars("2026")]);
    assert_eq!(text(&out), "2026");
}

#[test]
fn feedback_drain_keeps_buffer_empty() {
    // After a match the loop drains: the injected delete and insert
    // events echoed back through a monitored source must not corrupt the
    // buffer.
    let mut el = EventLoop::new(TextExpander::new(vec![plain_entry("hi:", "hello world")]));
    assert_eq!(el.mode, LoopMode::Consuming);

    for code in [KEY_H, KEY_I] {
        assert_eq!(el.handle_event(code, true), None);
        assert_eq!(el.handle_event(code, false), None);
    }
    assert_eq!(el.handle_event(KEY_LEFTSHIFT, true), None);
    let fired = el.handle_event(KEY_SEMICOLON, true);
    assert_eq!(fired, Some((3, 0)));
    assert_eq!(el.mode, LoopMode::Draining);
    assert!(el.expander.buffer.is_empty());

    // Synthetic echo: three deletes, then the replacement text re-read
    // as key events.  All of it is discarded while draining.
    for _ in 0..3 {
        assert_eq!(el.handle_event(KEY_BACKSPACE, true), None);
        assert_eq!(el.handle_event(KEY_BACKSPACE, false), None);
    }
    for code in [KEY_H, KEY_E, KEY_L, KEY_L, KEY_O] {
        assert_eq!(el.handle_event(code, true), None);
        assert_eq!(el.handle_event(code, false), None);
    }
    assert!(el.expander.buffer.is_empty());
    assert_eq!(el.mode, LoopMode::Draining);

    el.drain_complete();
    assert_eq!(el.mode, LoopMode::Consuming);
    assert!(el.expander.buffer.is_empty());
}

#[test]
fn consuming_resumes_after_drain() {
    let mut el = EventLoop::new(TextExpander::new(vec![plain_entry("ab", "X")]));
    assert_eq!(el.handle_event(KEY_A, true), None);
    let m = el.handle_event(KEY_B, true);
    assert_eq!(m, Some((2, 0)));
    el.drain_complete();
    // The engine still works after the drain.
    assert_eq!(el.handle_event(KEY_A, true), None);
    assert_eq!(el.handle_event(KEY_B, true), Some((2, 0)));
}

#[test]
fn type_expansion_builds_the_injector_arguments() {
    let args = type_expansion(2, &chars("hi"));
    let words: Vec<String> = args.iter().map(|a| a.iter().collect()).collect();
    assert_eq!(words, vec!["-k", "BackSpace", "-k", "BackSpace", "--", "hi"]);
}

#[test]
fn type_expansion_without_deletes() {
    let args = type_expansion(0, &chars("text"));
    let words: Vec<String> = args.iter().map(|a| a.iter().collect()).collect();
    assert_eq!(words, vec!["--", "text"]);
}
