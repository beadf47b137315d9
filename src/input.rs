use vstd::prelude::*;

verus! {

/// Upper bound on the raw keystrokes kept for one word; a push that finds the
/// buffer full is dropped.
pub const MAX_POSSIBLE_WORD_LENGTH: usize = 10;

/// Length of a run of one repeated character after which a word is abandoned.
pub const MAX_DUPLICATE_LENGTH: usize = 4;

/// The Vietnamese encoding scheme in use.
#[derive(Clone, Copy, Debug, PartialEq, Eq, Structural)]
pub enum TypingMethod {
    VNI,
    Telex,
}

/// Whether `c` is one of the Telex keys that can change a word's marks.
pub open spec fn is_telex_trigger(c: char) -> bool {
    c == 'a' || c == 'e' || c == 'o' || c == 'd' || c == 's' || c == 't' || c == 'j'
        || c == 'f' || c == 'x' || c == 'r' || c == 'w' || c == 'z'
}

/// Whether `c` is a decimal digit, the VNI mark keys.
pub open spec fn is_vni_trigger(c: char) -> bool {
    '0' <= c && c <= '9'
}

/// Whether a keystroke `c` should be routed into the transformation.
pub open spec fn is_trigger(enabled: bool, method: TypingMethod, c: char) -> bool {
    enabled && match method {
        TypingMethod::VNI => is_vni_trigger(c),
        TypingMethod::Telex => is_telex_trigger(c),
    }
}

fn chars_of(s: &str) -> (r: Vec<char>)
    ensures
        r@ == s@,
{
    let mut r: Vec<char> = Vec::new();
    for c in it: s.chars()
        invariant
            r@ == it.seq().take(it.index() as int),
    {
        r.push(c);
    }
    r
}


/// What a state holds, as mathematical values.
pub struct InputStateView {
    /// Raw keystrokes of the current word.
    pub buffer: Seq<char>,
    /// What is on screen for the current word.
    pub display: Seq<char>,
    pub method: TypingMethod,
    pub enabled: bool,
    /// Whether the current word may still be transformed.
    pub tracking: bool,
}

/// Whether `buf` ends with `MAX_DUPLICATE_LENGTH` copies of one character.
pub open spec fn ends_in_run(buf: Seq<char>) -> bool {
    &&& buf.len() >= MAX_DUPLICATE_LENGTH
    &&& forall|i: int|
        buf.len() - MAX_DUPLICATE_LENGTH <= i < buf.len() ==> #[trigger] buf[i] == buf[buf.len()
            - MAX_DUPLICATE_LENGTH]
}

/// How many characters to erase before rewriting a word shown as `display`.
pub open spec fn backspace_count(display: Seq<char>, is_delete: bool) -> nat {
    if is_delete && display.len() >= 1 {
        display.len()
    } else if display.len() >= 1 {
        (display.len() - 1) as nat
    } else {
        0
    }
}

impl InputStateView {
    /// The initial state: Telex, enabled, tracking, nothing buffered.
    pub open spec fn initial() -> InputStateView {
        InputStateView {
            buffer: Seq::empty(),
            display: Seq::empty(),
            method: TypingMethod::Telex,
            enabled: true,
            tracking: true,
        }
    }

    /// The bound that pushes keep: never more than the word-length limit.
    pub open spec fn wf(self) -> bool {
        self.buffer.len() <= MAX_POSSIBLE_WORD_LENGTH
    }

    /// Both buffers emptied.
    pub open spec fn cleared(self) -> InputStateView {
        InputStateView { buffer: Seq::empty(), display: Seq::empty(), ..self }
    }

    /// The word abandoned: buffers emptied, tracking off.
    pub open spec fn stopped(self) -> InputStateView {
        InputStateView { tracking: false, ..self.cleared() }
    }

    /// A fresh word: buffers emptied if anything was buffered, tracking on.
    pub open spec fn fresh_word(self) -> InputStateView {
        if self.buffer.len() == 0 {
            InputStateView { tracking: true, ..self }
        } else {
            InputStateView { tracking: true, ..self.cleared() }
        }
    }

    /// The state after a keystroke `c` is pushed.
    pub open spec fn pushed(self, c: char) -> InputStateView {
        if self.buffer.len() < MAX_POSSIBLE_WORD_LENGTH {
            let next = InputStateView {
                buffer: self.buffer.push(c),
                display: self.display.push(c),
                ..self
            };
            if ends_in_run(next.buffer) {
                next.stopped()
            } else {
                next
            }
        } else {
            self
        }
    }

    /// The state after the last raw keystroke is taken back.
    pub open spec fn popped(self) -> InputStateView {
        let next = if self.buffer.len() == 0 {
            self
        } else {
            InputStateView { buffer: self.buffer.drop_last(), ..self }
        };
        if next.buffer.len() == 0 {
            next.fresh_word()
        } else {
            next
        }
    }
}

/// The per-word keystroke state of the input method.
pub struct InputState {
    buffer: Vec<char>,
    display_buffer: Vec<char>,
    method: TypingMethod,
    enabled: bool,
    should_track: bool,
}

impl View for InputState {
    type V = InputStateView;

    closed spec fn view(&self) -> InputStateView {
        InputStateView {
            buffer: self.buffer@,
            display: self.display_buffer@,
            method: self.method,
            enabled: self.enabled,
            tracking: self.should_track,
        }
    }
}

impl InputState {
    /// Well-formedness: the buffer respects the bound that pushes keep.
    pub open spec fn wf(&self) -> bool {
        self@.wf()
    }

    /// The initial state: Telex, enabled, tracking, nothing buffered.
    pub fn new() -> (r: InputState)
        ensures
            r@ == InputStateView::initial(),
            r.wf(),
    {
        InputState {
            buffer: Vec::new(),
            display_buffer: Vec::new(),
            method: TypingMethod::Telex,
            enabled: true,
            should_track: true,
        }
    }

    pub fn is_enabled(&self) -> (r: bool)
        ensures
            r == self@.enabled,
    {
        self.enabled
    }

    pub fn is_tracking(&self) -> (r: bool)
        ensures
            r == self@.tracking,
    {
        self.should_track
    }

    pub fn is_buffer_empty(&self) -> (r: bool)
        ensures
            r == (self@.buffer.len() == 0),
    {
        self.buffer.len() == 0
    }

    pub fn get_method(&self) -> (r: TypingMethod)
        ensures
            r == self@.method,
    {
        self.method
    }

    /// Empties both buffers, leaving the flags and the method alone.
    pub fn clear(&mut self)
        ensures
            final(self)@ == old(self)@.cleared(),
    {
        self.buffer.clear();
        self.display_buffer.clear();
        proof {
            assert(self@ =~~= old(self)@.cleared());
        }
    }

    /// Starts a fresh word: drops whatever is buffered and resumes tracking.
    pub fn new_word(&mut self)
        ensures
            final(self)@ == old(self)@.fresh_word(),
            final(self)@.buffer.len() == 0,
            final(self)@.tracking,
    {
        if self.buffer.len() != 0 {
            self.clear();
        }
        self.should_track = true;
    }

    /// Abandons the current word: drops what is buffered and stops tracking.
    pub fn stop_tracking(&mut self)
        ensures
            final(self)@ == old(self)@.stopped(),
            final(self)@.buffer.len() == 0,
            !final(self)@.tracking,
    {
        self.clear();
        self.should_track = false;
    }

    /// Switches transformation on or off and starts a fresh word.
    pub fn toggle_vietnamese(&mut self)
        ensures
            final(self)@ == (InputStateView { enabled: !old(self)@.enabled, ..old(self)@ }).fresh_word(),
    {
        self.enabled = !self.enabled;
        self.new_word();
    }

    /// Selects the encoding scheme and starts a fresh word.
    pub fn set_method(&mut self, method: TypingMethod)
        ensures
            final(self)@ == (InputStateView { method: method, ..old(self)@ }).fresh_word(),
    {
        self.method = method;
        self.new_word();
    }

    /// Whether the keystroke `c` is a transformation key under the current
    /// method; never while transformation is switched off.
    pub fn should_transform_keys(&self, c: &char) -> (r: bool)
        ensures
            r == is_trigger(self@.enabled, self@.method, *c),
    {
        if !self.enabled {
            return false;
        }
        match self.method {
            TypingMethod::VNI => '0' <= *c && *c <= '9',
            TypingMethod::Telex => {
                let k = *c;
                k == 'a' || k == 'e' || k == 'o' || k == 'd' || k == 's' || k == 't' || k == 'j'
                    || k == 'f' || k == 'x' || k == 'r' || k == 'w' || k == 'z'
            },
        }
    }

    /// Whether the buffer ends with a run of `MAX_DUPLICATE_LENGTH` copies of
    /// one character, which no Vietnamese word holds.
    pub fn should_stop_tracking(&self) -> (r: bool)
        ensures
            r == ends_in_run(self@.buffer),
    {
        let len = self.buffer.len();
        if len < MAX_DUPLICATE_LENGTH {
            return false;
        }
        let start = len - MAX_DUPLICATE_LENGTH;
        let first = self.buffer[start];
        let mut i: usize = start + 1;
        while i < len
            invariant
                start + 1 <= i <= len,
                len == self.buffer@.len(),
                start == len - MAX_DUPLICATE_LENGTH,
                first == self.buffer@[start as int],
                forall|j: int| start <= j < i ==> self.buffer@[j] == first,
            decreases len - i,
        {
            if self.buffer[i] != first {
                return false;
            }
            i = i + 1;
        }
        true
    }

    /// Records a keystroke for the current word, unless the buffer already
    /// holds `MAX_POSSIBLE_WORD_LENGTH` keystrokes; abandons the word when the
    /// keystroke completes a run of repeated characters.
    pub fn push(&mut self, c: char)
        ensures
            final(self)@ == old(self)@.pushed(c),
            old(self).wf() ==> final(self).wf(),
    {
        if self.buffer.len() < MAX_POSSIBLE_WORD_LENGTH {
            self.buffer.push(c);
            self.display_buffer.push(c);
            if self.should_stop_tracking() {
                self.stop_tracking();
            }
        }
    }

    /// Takes back the last raw keystroke; an emptied buffer starts a fresh
    /// word. What is on screen is left for the caller.
    pub fn pop(&mut self)
        ensures
            final(self)@ == old(self)@.popped(),
    {
        self.buffer.pop();
        if self.buffer.len() == 0 {
            self.new_word();
        }
    }

    /// Records `buf` as what is now on screen for the current word.
    pub fn replace(&mut self, buf: String)
        ensures
            final(self)@ == (InputStateView { display: buf@, ..old(self)@ }),
    {
        self.display_buffer = chars_of(buf.as_str());
    }

    /// How many characters the host erases before writing a rewritten word:
    /// all that is shown on a deletion, else all but the keystroke just typed.
    pub fn get_backspace_count(&self, is_delete: bool) -> (r: usize)
        ensures
            r == backspace_count(self@.display, is_delete),
    {
        let dp_len = self.display_buffer.len();
        if is_delete && dp_len >= 1 {
            dp_len
        } else if dp_len >= 1 {
            dp_len - 1
        } else {
            0
        }
    }

    /// Whether `word` differs from the raw keystrokes, that is whether the
    /// screen needs rewriting.
    pub fn should_send_keyboard_event(&self, word: &str) -> (r: bool)
        ensures
            r == (self@.buffer != word@),
    {
        let w = chars_of(word);
        if w.len() != self.buffer.len() {
            proof {
                assert(self@.buffer.len() != word@.len());
            }
            return true;
        }
        let mut i: usize = 0;
        while i < w.len()
            invariant
                w@ == word@,
                w.len() == self.buffer.len(),
                i <= w.len(),
                forall|j: int| 0 <= j < i ==> self.buffer@[j] == w@[j],
            decreases w.len() - i,
        {
            if self.buffer[i] != w[i] {
                proof {
                    assert(self@.buffer[i as int] != word@[i as int]);
                }
                return true;
            }
            i = i + 1;
        }
        proof {
            assert(self@.buffer =~= word@);
        }
        false
    }

    /// The current word as the selected method rewrites it.
    pub fn transform_keys(&self) -> (r: String)
        ensures
            r@ == transformed(self@.method, self@.buffer),
    {
        match self.method {
            TypingMethod::VNI => vni_transform(&self.buffer),
            TypingMethod::Telex => telex_transform(&self.buffer),
        }
    }
}

/// What the Telex method makes of a sequence of keystrokes.
pub uninterp spec fn telex_of(keys: Seq<char>) -> Seq<char>;

/// What the VNI method makes of a sequence of keystrokes.
pub uninterp spec fn vni_of(keys: Seq<char>) -> Seq<char>;

/// The rewrite of `keys` under `method`.
pub open spec fn transformed(method: TypingMethod, keys: Seq<char>) -> Seq<char> {
    match method {
        TypingMethod::VNI => vni_of(keys),
        TypingMethod::Telex => telex_of(keys),
    }
}

/// Relies on vi::telex::transform_buffer, which appends to an empty output
/// the word that the Telex keys compose; it reads nothing but the keys.
#[verifier::external_body]
#[allow(deprecated)]
fn telex_transform(keys: &Vec<char>) -> (r: String)
    ensures
        r@ == telex_of(keys@),
{
    let mut output = String::new();
    vi::telex::transform_buffer(keys.iter().copied(), &mut output);
    output
}

/// Relies on vi::vni::transform_buffer, which appends to an empty output the
/// word that the VNI keys compose; it reads nothing but the keys.
#[verifier::external_body]
#[allow(deprecated)]
fn vni_transform(keys: &Vec<char>) -> (r: String)
    ensures
        r@ == vni_of(keys@),
{
    let mut output = String::new();
    vi::vni::transform_buffer(keys.iter().copied(), &mut output);
    output
}

} // verus!
