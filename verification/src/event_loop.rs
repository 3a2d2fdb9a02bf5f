//! The event-loop discipline, modelled as a two-mode state machine.
//!
//! In consuming mode decoded key events drive the matching engine; a
//! match switches the loop to draining mode, in which every event read
//! back from the input sources is discarded — the injected replacement
//! text is echoed through a monitored virtual device, and reading it
//! back as user input would corrupt the buffer or re-trigger the
//! expansion.  The unverified driver around this library performs the
//! blocking waits, reads the devices, invokes the injector, and calls
//! [`EventLoop::drain_complete`] once no pending events remain.
use vstd::prelude::*;

use crate::matcher::TextExpander;
use crate::matcher::process_post;
use crate::text::chars_copy;

verus! {

/// The two modes of the loop.
#[derive(Clone, Copy, Debug, PartialEq, Eq)]
pub enum LoopMode {
    /// Normal operation: events feed the matching engine.
    Consuming,
    /// Post-injection: events are the echo of the loop's own output and
    /// are discarded.
    Draining,
}

/// The top-level driver state: the matching engine and the current mode.
pub struct EventLoop {
    pub expander: TextExpander,
    pub mode: LoopMode,
}

impl EventLoop {
    /// The loop is well-formed exactly when its engine is.
    pub open spec fn wf(&self) -> bool {
        self.expander.wf()
    }

    /// Start the loop in consuming mode.
    pub fn new(expander: TextExpander) -> (r: EventLoop)
        requires
            expander.wf(),
        ensures
            r.wf(),
            r.mode is Consuming,
            r.expander == expander,
    {
        EventLoop { expander, mode: LoopMode::Consuming }
    }

    /// Feed one decoded key event through the loop.  In consuming mode
    /// the event drives the matching engine, and a match switches the
    /// loop to draining mode with an empty buffer.  In draining mode the
    /// event is discarded unread by the engine: it is the echo of the
    /// loop's own injected output, and the state does not change at all.
    pub fn handle_event(&mut self, code: u16, pressed: bool) -> (r: Option<(usize, usize)>)
        requires
            old(self).wf(),
        ensures
            final(self).wf(),
            old(self).mode is Draining ==> *final(self) == *old(self) && r is None,
            old(self).mode is Consuming ==> process_post(
                old(self).expander,
                final(self).expander,
                code,
                pressed,
                r,
            ),
            old(self).mode is Consuming && r is Some ==> final(self).mode is Draining
                && final(self).expander.buffer@ == Seq::<char>::empty(),
            old(self).mode is Consuming && r is None ==> final(self).mode is Consuming,
            r matches Some(m) ==> m.1 < final(self).expander.triggers@.len(),
    {
        match self.mode {
            LoopMode::Draining => None,
            LoopMode::Consuming => {
                let r = self.expander.process(code, pressed);
                if r.is_some() {
                    self.mode = LoopMode::Draining;
                }
                r
            },
        }
    }

    /// The drain phase is over: the driver saw no pending events remain
    /// on any source, and the loop resumes consuming.
    pub fn drain_complete(&mut self)
        requires
            old(self).wf(),
        ensures
            final(self).wf(),
            final(self).mode is Consuming,
            final(self).expander == old(self).expander,
    {
        self.mode = LoopMode::Consuming;
    }
}

/// The argument word `-k`.
pub open spec fn flag_k() -> Seq<char> {
    seq!['-', 'k']
}

/// The injector's name for the delete keystroke.
pub open spec fn backspace_key_name() -> Seq<char> {
    seq!['B', 'a', 'c', 'k', 'S', 'p', 'a', 'c', 'e']
}

/// The separator word `--` that ends the flags.
pub open spec fn flag_sep() -> Seq<char> {
    seq!['-', '-']
}

/// The argument list handed to the text-injection collaborator: one
/// `-k BackSpace` pair per character to delete, then `--` and the
/// literal expansion text.
pub fn type_expansion(backspaces: usize, text: &Vec<char>) -> (r: Vec<Vec<char>>)
    requires
        2 * backspaces + 2 <= usize::MAX,
    ensures
        r@.len() == 2 * backspaces + 2,
        forall|i: int| #![trigger r@[2 * i]]
            0 <= i < backspaces ==> r@[2 * i]@ == flag_k() && r@[2 * i + 1]@
                == backspace_key_name(),
        r@[2 * (backspaces as int)]@ == flag_sep(),
        r@[2 * (backspaces as int) + 1]@ == text@,
{
    let mut r: Vec<Vec<char>> = Vec::new();
    let mut b: usize = 0;
    while b < backspaces
        invariant
            2 * backspaces + 2 <= usize::MAX,
            b <= backspaces,
            r@.len() == 2 * b,
            forall|i: int| #![trigger r@[2 * i]]
                0 <= i < b ==> r@[2 * i]@ == flag_k() && r@[2 * i + 1]@ == backspace_key_name(),
        decreases backspaces - b,
    {
        let mut k: Vec<char> = Vec::new();
        k.push('-');
        k.push('k');
        proof {
            assert(k@ =~= flag_k());
        }
        r.push(k);
        let mut name: Vec<char> = Vec::new();
        name.push('B');
        name.push('a');
        name.push('c');
        name.push('k');
        name.push('S');
        name.push('p');
        name.push('a');
        name.push('c');
        name.push('e');
        proof {
            assert(name@ =~= backspace_key_name());
        }
        r.push(name);
        b = b + 1;
    }
    let mut sep: Vec<char> = Vec::new();
    sep.push('-');
    sep.push('-');
    proof {
        assert(sep@ =~= flag_sep());
    }
    r.push(sep);
    let literal = chars_copy(text);
    r.push(literal);
    r
}

} // verus!
