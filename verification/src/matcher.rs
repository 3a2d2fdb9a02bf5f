//! The match buffer: a bounded tail of recently typed characters,
//! checked after every character against the configured trigger set for
//! a suffix match.
//!
//! When several triggers are suffixes of the buffer at once, the matcher
//! picks the longest one; among matches of equal length — which are
//! necessarily the same text, see
//! [`lemma_equal_length_suffixes_equal`] — it picks the first configured
//! entry.  The pick is therefore deterministic.
use vstd::prelude::*;

use crate::keymap::KEY_BACKSPACE;
use crate::keymap::char_for;
use crate::keymap::is_reset_key;
use crate::keymap::is_shift_key;
use crate::keymap::key_to_char;
use crate::keymap::reset_key;
use crate::keymap::shift_key;
use crate::template::Trigger;
use crate::text::is_suffix;
use crate::text::is_suffix_of;

verus! {

/// The buffer bound used when no trigger is configured.
pub const FALLBACK_MAX_LEN: usize = 64;

/// One configured trigger: the text typed to fire it, and the template
/// that replaces it.
pub struct TriggerEntry {
    pub text: Vec<char>,
    pub trigger: Trigger,
}

/// The buffer after `c` is appended: the most recent `max` characters
/// remain, older ones are dropped from the front.
pub open spec fn pushed(buf: Seq<char>, c: char, max: nat) -> Seq<char> {
    let b = buf.push(c);
    if b.len() > max {
        b.skip(b.len() - max)
    } else {
        b
    }
}

/// The buffer after a backspace: the last character is removed; a
/// backspace on an empty buffer is a no-op.
pub open spec fn popped(buf: Seq<char>) -> Seq<char> {
    if buf.len() == 0 {
        buf
    } else {
        buf.drop_last()
    }
}

/// Entry `j` of the trigger set is a suffix of the buffer.
pub open spec fn trig_matches(ts: Seq<TriggerEntry>, buf: Seq<char>, j: int) -> bool {
    0 <= j < ts.len() && is_suffix_of(ts[j].text@, buf)
}

/// Some entry of the trigger set is a suffix of the buffer.
pub open spec fn match_exists(ts: Seq<TriggerEntry>, buf: Seq<char>) -> bool {
    exists|j: int| trig_matches(ts, buf, j)
}

/// Entry `i` is the one the matcher picks: a matching entry of maximal
/// trigger length, and the first matching entry of that length.
pub open spec fn is_best_match(ts: Seq<TriggerEntry>, buf: Seq<char>, i: int) -> bool {
    &&& trig_matches(ts, buf, i)
    &&& forall|j: int|
        trig_matches(ts, buf, j) ==> ts[j].text@.len() <= ts[i].text@.len()
    &&& forall|j: int|
        0 <= j < i && trig_matches(ts, buf, j) ==> ts[j].text@.len() < ts[i].text@.len()
}

/// Per-run state of the matching engine: the configured trigger set
/// (read-only for the whole run), the bounded buffer of recently typed
/// characters, the buffer bound, and the shift state.
pub struct TextExpander {
    pub triggers: Vec<TriggerEntry>,
    pub buffer: Vec<char>,
    pub max_len: usize,
    pub shift: bool,
}

/// Everything [`TextExpander::process`] guarantees, as one relation
/// between the state before (`pre`), the state after (`post`), the key
/// event, and the returned match.  A match is reported as the number of
/// characters to delete together with the index of the picked entry.
pub open spec fn process_post(
    pre: TextExpander,
    post: TextExpander,
    code: u16,
    pressed: bool,
    r: Option<(usize, usize)>,
) -> bool {
    &&& post.triggers == pre.triggers
    &&& post.max_len == pre.max_len
    &&& if is_shift_key(code) {
        post.shift == pressed && post.buffer@ == pre.buffer@ && r is None
    } else {
        &&& post.shift == pre.shift
        &&& if !pressed {
            post.buffer@ == pre.buffer@ && r is None
        } else if is_reset_key(code) {
            post.buffer@ == Seq::<char>::empty() && r is None
        } else if code == KEY_BACKSPACE {
            post.buffer@ == popped(pre.buffer@) && r is None
        } else {
            match char_for(code, pre.shift) {
                Option::None => post.buffer@ == pre.buffer@ && r is None,
                Option::Some(c) => {
                    let nb = pushed(pre.buffer@, c, pre.max_len as nat);
                    if match_exists(pre.triggers@, nb) {
                        &&& post.buffer@ == Seq::<char>::empty()
                        &&& exists|i: int|
                            is_best_match(pre.triggers@, nb, i) && r == Some(
                                (pre.triggers@[i].text@.len() as usize, i as usize),
                            )
                    } else {
                        post.buffer@ == nb && r is None
                    }
                },
            }
        }
    }
}

impl TextExpander {
    /// The state invariant: the buffer never exceeds the bound, and the
    /// bound covers every configured trigger.
    pub open spec fn wf(&self) -> bool {
        &&& self.buffer@.len() <= self.max_len
        &&& forall|i: int|
            0 <= i < self.triggers@.len() ==> self.triggers@[i].text@.len() <= self.max_len
    }

    /// Build the engine over a fixed trigger set: the buffer starts
    /// empty, shift is up, and the buffer bound is the length of the
    /// longest configured trigger (or a fixed fallback when the set is
    /// empty — an empty set is a fatal startup condition upstream).
    pub fn new(triggers: Vec<TriggerEntry>) -> (r: TextExpander)
        ensures
            r.wf(),
            r.triggers@ == triggers@,
            r.buffer@ == Seq::<char>::empty(),
            r.shift == false,
            triggers@.len() == 0 ==> r.max_len == FALLBACK_MAX_LEN,
            triggers@.len() > 0 ==> exists|i: int|
                0 <= i < triggers@.len() && r.max_len == triggers@[i].text@.len(),
    {
        let n = triggers.len();
        let mut max_len: usize = FALLBACK_MAX_LEN;
        if n > 0 {
            max_len = triggers[0].text.len();
            let mut i: usize = 1;
            while i < n
                invariant
                    n == triggers@.len(),
                    1 <= i <= n,
                    exists|j: int| 0 <= j < i && max_len == triggers@[j].text@.len(),
                    forall|j: int| 0 <= j < i ==> triggers@[j].text@.len() <= max_len,
                decreases n - i,
            {
                let l = triggers[i].text.len();
                if l > max_len {
                    max_len = l;
                }
                i = i + 1;
            }
        }
        TextExpander { triggers, buffer: Vec::new(), max_len, shift: false }
    }

    /// Feed one key event through the engine.  Shift keys toggle the
    /// shift state; Enter, Tab and Escape clear the buffer; Backspace
    /// removes the last buffered character; a printable key appends its
    /// character and the trigger set is scanned for a suffix match.  On
    /// a match the buffer is cleared and the result gives the number of
    /// characters to delete and the index of the matched entry.
    pub fn process(&mut self, code: u16, pressed: bool) -> (r: Option<(usize, usize)>)
        requires
            old(self).wf(),
        ensures
            final(self).wf(),
            process_post(*old(self), *final(self), code, pressed, r),
            r matches Some(m) ==> m.1 < final(self).triggers@.len(),
    {
        if shift_key(code) {
            self.shift = pressed;
            return None;
        }
        if !pressed {
            return None;
        }
        if reset_key(code) {
            self.buffer.clear();
            return None;
        }
        if code == KEY_BACKSPACE {
            self.buffer.pop();
            proof {
                if old(self).buffer@.len() > 0 {
                    assert(self.buffer@ =~= popped(old(self).buffer@));
                }
            }
            return None;
        }
        match key_to_char(code, self.shift) {
            Option::None => None,
            Option::Some(c) => {
                self.buffer.push(c);
                if self.buffer.len() > self.max_len {
                    self.buffer.remove(0);
                }
                proof {
                    assert(self.buffer@ =~= pushed(old(self).buffer@, c, old(self).max_len as nat));
                }
                let mut best: usize = 0;
                let mut found: bool = false;
                let mut j: usize = 0;
                let n = self.triggers.len();
                while j < n
                    invariant
                        n == self.triggers@.len(),
                        j <= n,
                        found ==> best < n && trig_matches(self.triggers@, self.buffer@, best as int),
                        found ==> forall|t: int|
                            0 <= t < j && trig_matches(self.triggers@, self.buffer@, t)
                                ==> self.triggers@[t].text@.len()
                                <= self.triggers@[best as int].text@.len(),
                        found ==> forall|t: int|
                            0 <= t < best && trig_matches(self.triggers@, self.buffer@, t)
                                ==> self.triggers@[t].text@.len()
                                < self.triggers@[best as int].text@.len(),
                        !found ==> forall|t: int|
                            0 <= t < j ==> !trig_matches(self.triggers@, self.buffer@, t),
                    decreases n - j,
                {
                    if is_suffix(&self.triggers[j].text, &self.buffer) {
                        if !found {
                            found = true;
                            best = j;
                        } else if self.triggers[j].text.len() > self.triggers[best].text.len() {
                            best = j;
                        }
                    }
                    j = j + 1;
                }
                if found {
                    proof {
                        assert(is_best_match(self.triggers@, self.buffer@, best as int));
                    }
                    let d = self.triggers[best].text.len();
                    self.buffer.clear();
                    Some((d, best))
                } else {
                    None
                }
            },
        }
    }
}

/// The buffer after a whole sequence of characters is appended, one at a
/// time.
pub open spec fn feed_all(buf: Seq<char>, cs: Seq<char>, max: nat) -> Seq<char>
    decreases cs.len(),
{
    if cs.len() == 0 {
        buf
    } else {
        feed_all(pushed(buf, cs[0], max), cs.drop_first(), max)
    }
}

/// The buffer never exceeds the bound, whatever sequence of characters
/// is typed: the bound is an invariant of appending.
pub proof fn lemma_feed_all_bounded(buf: Seq<char>, cs: Seq<char>, max: nat)
    requires
        buf.len() <= max,
    ensures
        feed_all(buf, cs, max).len() <= max,
    decreases cs.len(),
{
    if cs.len() == 0 {
    } else {
        lemma_feed_all_bounded(pushed(buf, cs[0], max), cs.drop_first(), max);
    }
}

/// Typing a text into a buffer with enough room appends it verbatim.
pub proof fn lemma_feed_all_appends(buf: Seq<char>, cs: Seq<char>, max: nat)
    requires
        buf.len() + cs.len() <= max,
    ensures
        feed_all(buf, cs, max) == buf + cs,
    decreases cs.len(),
{
    if cs.len() == 0 {
        assert(buf + cs =~= buf);
    } else {
        assert(pushed(buf, cs[0], max) == buf.push(cs[0]));
        lemma_feed_all_appends(buf.push(cs[0]), cs.drop_first(), max);
        assert(buf.push(cs[0]) + cs.drop_first() =~= buf + cs);
    }
}

/// Two suffix matches of equal length on the same buffer are the same
/// text: among simultaneous matches, only the longest-match rule and the
/// first-entry rule are ever needed to pick deterministically.
pub proof fn lemma_equal_length_suffixes_equal(a: Seq<char>, b: Seq<char>, buf: Seq<char>)
    requires
        is_suffix_of(a, buf),
        is_suffix_of(b, buf),
        a.len() == b.len(),
    ensures
        a == b,
{
}

/// The matcher's pick is deterministic: at most one entry satisfies
/// [`is_best_match`].
pub proof fn lemma_best_match_unique(ts: Seq<TriggerEntry>, buf: Seq<char>, i: int, j: int)
    requires
        is_best_match(ts, buf, i),
        is_best_match(ts, buf, j),
    ensures
        i == j,
{
    assert(ts[i].text@.len() <= ts[j].text@.len());
    assert(ts[j].text@.len() <= ts[i].text@.len());
    if i < j {
        assert(ts[i].text@.len() < ts[j].text@.len());
        assert(false);
    }
    if j < i {
        assert(ts[j].text@.len() < ts[i].text@.len());
        assert(false);
    }
}

/// Typing exactly the characters of a configured trigger into an empty
/// buffer — with no other trigger completing on a proper prefix, so the
/// buffer evolves by plain appends as [`feed_all`] models — makes the
/// buffer equal the trigger, a match fires, and the picked entry,
/// whichever entry it is, has exactly the trigger's length: the reported
/// number of characters to delete equals the trigger's length.
pub proof fn lemma_typing_trigger_matches(ts: Seq<TriggerEntry>, t: Seq<char>, max: nat, i: int)
    requires
        0 <= i < ts.len(),
        ts[i].text@ == t,
        t.len() <= max,
    ensures
        feed_all(Seq::empty(), t, max) == t,
        match_exists(ts, feed_all(Seq::empty(), t, max)),
        forall|k: int|
            is_best_match(ts, feed_all(Seq::empty(), t, max), k) ==> ts[k].text@.len() == t.len(),
{
    lemma_feed_all_appends(Seq::empty(), t, max);
    assert(Seq::empty() + t =~= t);
    assert(t.subrange(t.len() - t.len(), t.len() as int) =~= t);
    assert(trig_matches(ts, t, i));
    assert forall|k: int| is_best_match(ts, t, k) implies ts[k].text@.len() == t.len() by {
        assert(trig_matches(ts, t, k));
        assert(ts[i].text@.len() <= ts[k].text@.len());
        assert(ts[k].text@.len() <= t.len());
    }
}

} // verus!
