//! Display control arbitration.
//!
//! One display is shared by every process in the system, and the host
//! tracks, globally, which process (if any) controls it.  The protocol is a
//! single-owner scheme: `assume_control` succeeds only when the display is
//! unclaimed, `override_control` seizes it unconditionally,
//! `release_control` succeeds only for the current holder, and
//! `displace_control` evicts whoever holds it.  Because control can be
//! seized asynchronously, every operation on the display re-checks the
//! holder and quietly does nothing when control was lost.
//!
//! [`Display`] is that host-tracked state written out, with each operation
//! specified as a transition of [`DisplayView`]; the proofs at the bottom
//! state the arbitration and key-buffer laws over those transitions.

use vstd::prelude::*;

verus! {

/// The errors for the display.
#[derive(Debug, Clone, Copy, PartialEq, Eq, Structural)]
pub enum DisplayError {
    /// The display is controlled by another process (or, for a release, the
    /// caller is not the holder — the host reports both the same way).
    Occupied,
}

impl DisplayError {
    /// A human-readable description of the error.
    pub fn message(&self) -> (r: String)
        ensures
            r@ == "The display is currently occupied by another process"@,
    {
        String::from_str("The display is currently occupied by another process")
    }
}

/// One key event as the display's single-slot key buffer stores it: a raw
/// key code plus the modifier state.
#[derive(Debug, Clone, Copy, PartialEq, Eq, Structural)]
pub struct KeyPress {
    pub key: i32,
    pub shift: bool,
    pub ctrl: bool,
}

/// The character a key event stands for, if it has a textual meaning.
/// Key codes follow the common on-screen-keyboard numbering: letters at
/// 65–90, digits at 48–57, and the usual punctuation block.
pub open spec fn key_char(key: i32, shift: bool) -> Option<char> {
    if key == 9 {
        Some('\t')
    } else if key == 13 {
        Some('\n')
    } else if key == 32 {
        Some(' ')
    } else if 48 <= key <= 57 {
        if shift {
            shifted_digit_char(key)
        } else {
            Some((key as u8) as char)
        }
    } else if 65 <= key <= 90 {
        if shift {
            Some((key as u8) as char)
        } else {
            Some(((key + 32) as u8) as char)
        }
    } else if key == 186 {
        Some(if shift { ':' } else { ';' })
    } else if key == 187 {
        Some(if shift { '+' } else { '=' })
    } else if key == 188 {
        Some(if shift { '<' } else { ',' })
    } else if key == 189 {
        Some(if shift { '_' } else { '-' })
    } else if key == 190 {
        Some(if shift { '>' } else { '.' })
    } else if key == 191 {
        Some(if shift { '?' } else { '/' })
    } else if key == 192 {
        Some(if shift { '~' } else { '`' })
    } else if key == 219 {
        Some(if shift { '{' } else { '[' })
    } else if key == 220 {
        Some(if shift { '|' } else { '\\' })
    } else if key == 221 {
        Some(if shift { '}' } else { ']' })
    } else if key == 222 {
        Some(if shift { '"' } else { '\'' })
    } else {
        None
    }
}

/// The symbol on the shifted digit key.
pub open spec fn shifted_digit_char(key: i32) -> Option<char> {
    if key == 48 {
        Some(')')
    } else if key == 49 {
        Some('!')
    } else if key == 50 {
        Some('@')
    } else if key == 51 {
        Some('#')
    } else if key == 52 {
        Some('$')
    } else if key == 53 {
        Some('%')
    } else if key == 54 {
        Some('^')
    } else if key == 55 {
        Some('&')
    } else if key == 56 {
        Some('*')
    } else {
        Some('(')
    }
}

impl KeyPress {
    /// Convert the key event to its textual representation, or `None` when
    /// the key has no textual meaning.
    pub fn to_char(&self) -> (r: Option<char>)
        ensures
            r == key_char(self.key, self.shift),
    {
        let key = self.key;
        let shift = self.shift;
        if key == 9 {
            Some('\t')
        } else if key == 13 {
            Some('\n')
        } else if key == 32 {
            Some(' ')
        } else if 48 <= key && key <= 57 {
            if shift {
                if key == 48 {
                    Some(')')
                } else if key == 49 {
                    Some('!')
                } else if key == 50 {
                    Some('@')
                } else if key == 51 {
                    Some('#')
                } else if key == 52 {
                    Some('$')
                } else if key == 53 {
                    Some('%')
                } else if key == 54 {
                    Some('^')
                } else if key == 55 {
                    Some('&')
                } else if key == 56 {
                    Some('*')
                } else {
                    Some('(')
                }
            } else {
                Some((key as u8) as char)
            }
        } else if 65 <= key && key <= 90 {
            if shift {
                Some((key as u8) as char)
            } else {
                Some(((key + 32) as u8) as char)
            }
        } else if key == 186 {
            Some(if shift { ':' } else { ';' })
        } else if key == 187 {
            Some(if shift { '+' } else { '=' })
        } else if key == 188 {
            Some(if shift { '<' } else { ',' })
        } else if key == 189 {
            Some(if shift { '_' } else { '-' })
        } else if key == 190 {
            Some(if shift { '>' } else { '.' })
        } else if key == 191 {
            Some(if shift { '?' } else { '/' })
        } else if key == 192 {
            Some(if shift { '~' } else { '`' })
        } else if key == 219 {
            Some(if shift { '{' } else { '[' })
        } else if key == 220 {
            Some(if shift { '|' } else { '\\' })
        } else if key == 221 {
            Some(if shift { '}' } else { ']' })
        } else if key == 222 {
            Some(if shift { '"' } else { '\'' })
        } else {
            None
        }
    }
}

/// Abstract state of the display: the process that holds control (processes
/// are abstract tokens here), the single-slot key buffer, and the text
/// buffer.
pub struct DisplayView {
    pub holder: Option<u64>,
    pub key: Option<KeyPress>,
    pub text: Seq<char>,
}

/// Whether a claim of control would succeed: only on an unclaimed display.
pub open spec fn assume_control_ok(v: DisplayView) -> bool {
    v.holder is None
}

/// The display after process `p` tries to assume control.
pub open spec fn assume_control_next(v: DisplayView, p: u64) -> DisplayView {
    if v.holder is None {
        DisplayView { holder: Some(p), ..v }
    } else {
        v
    }
}

/// The display after process `p` overrides control: `p` holds it, whatever
/// held before.
pub open spec fn override_control_next(v: DisplayView, p: u64) -> DisplayView {
    DisplayView { holder: Some(p), ..v }
}

/// Whether a release by `p` would succeed: only for the current holder.
pub open spec fn release_control_ok(v: DisplayView, p: u64) -> bool {
    v.holder == Some(p)
}

/// The display after process `p` tries to release control.
pub open spec fn release_control_next(v: DisplayView, p: u64) -> DisplayView {
    if v.holder == Some(p) {
        DisplayView { holder: None, ..v }
    } else {
        v
    }
}

/// The display after control is displaced: unclaimed, whoever held it.
pub open spec fn displace_control_next(v: DisplayView) -> DisplayView {
    DisplayView { holder: None, ..v }
}

/// The display after process `p` pushes its stdout `out`: appended to the
/// text buffer for the holder, a no-op for anyone else.
pub open spec fn push_stdout_next(v: DisplayView, p: u64, out: Seq<char>) -> DisplayView {
    if v.holder == Some(p) {
        DisplayView { text: v.text + out, ..v }
    } else {
        v
    }
}

/// The display after process `p` sets the text buffer: replaced for the
/// holder, a no-op for anyone else.
pub open spec fn set_text_next(v: DisplayView, p: u64, t: Seq<char>) -> DisplayView {
    if v.holder == Some(p) {
        DisplayView { text: t, ..v }
    } else {
        v
    }
}

/// What a read of the key buffer by `p` returns: the buffered key for the
/// holder, `None` for anyone else.
pub open spec fn key_buffer_result(v: DisplayView, p: u64) -> Option<KeyPress> {
    if v.holder == Some(p) {
        v.key
    } else {
        None
    }
}

/// The display after `p` reads the key buffer: cleared for the holder,
/// untouched for anyone else — the read and the clear are one step.
pub open spec fn key_buffer_next(v: DisplayView, p: u64) -> DisplayView {
    if v.holder == Some(p) {
        DisplayView { key: None, ..v }
    } else {
        v
    }
}

/// The display after `p` clears the key buffer.
pub open spec fn clear_key_next(v: DisplayView, p: u64) -> DisplayView {
    if v.holder == Some(p) {
        DisplayView { key: None, ..v }
    } else {
        v
    }
}

/// The display after the user presses a key: the single slot holds the new
/// event, displacing any unread one.
pub open spec fn press_key_next(v: DisplayView, k: KeyPress) -> DisplayView {
    DisplayView { key: Some(k), ..v }
}

/// The display, as the host tracks it: who controls it, the single-slot key
/// buffer, and the text buffer.
pub struct Display {
    holder: Option<u64>,
    key: Option<KeyPress>,
    text: String,
}

impl View for Display {
    type V = DisplayView;

    closed spec fn view(&self) -> DisplayView {
        DisplayView { holder: self.holder, key: self.key, text: self.text@ }
    }
}

impl Display {
    /// A display nobody controls, with empty buffers.
    pub fn new() -> (r: Display)
        ensures
            r@ == (DisplayView {
                holder: None,
                key: None,
                text: Seq::<char>::empty(),
            }),
    {
        Display { holder: None, key: None, text: String::new() }
    }

    /// Whether `p` currently holds control.
    fn held_by(&self, p: u64) -> (r: bool)
        ensures
            r == (self@.holder == Some(p)),
    {
        match self.holder {
            Some(h) => h == p,
            None => false,
        }
    }

    /// Process `p` assumes control over the display.
    ///
    /// Succeeds exactly when the display is unclaimed; fails with
    /// [`DisplayError::Occupied`] while any process holds it.
    pub fn assume_control(&mut self, p: u64) -> (r: Result<(), DisplayError>)
        ensures
            final(self)@ == assume_control_next(old(self)@, p),
            r is Ok <==> assume_control_ok(old(self)@),
            r is Err ==> r == Err::<(), DisplayError>(DisplayError::Occupied),
    {
        match self.holder {
            None => {
                self.holder = Some(p);
                Ok(())
            },
            Some(_) => Err(DisplayError::Occupied),
        }
    }

    /// Process `p` seizes control unconditionally, evicting any holder.
    pub fn override_control(&mut self, p: u64)
        ensures
            final(self)@ == override_control_next(old(self)@, p),
    {
        self.holder = Some(p);
    }

    /// Process `p` releases control.
    ///
    /// Succeeds exactly when `p` is the holder; whether the display is
    /// unclaimed or held by someone else, the same
    /// [`DisplayError::Occupied`] comes back — the host does not tell the
    /// two apart.
    pub fn release_control(&mut self, p: u64) -> (r: Result<(), DisplayError>)
        ensures
            final(self)@ == release_control_next(old(self)@, p),
            r is Ok <==> release_control_ok(old(self)@, p),
            r is Err ==> r == Err::<(), DisplayError>(DisplayError::Occupied),
    {
        if self.held_by(p) {
            self.holder = None;
            Ok(())
        } else {
            Err(DisplayError::Occupied)
        }
    }

    /// Take control away from whichever process holds it, unconditionally.
    pub fn displace_control(&mut self)
        ensures
            final(self)@ == displace_control_next(old(self)@),
    {
        self.holder = None;
    }

    /// Process `p` pushes its stdout onto the display's text buffer; a
    /// silent no-op when `p` does not hold control.
    pub fn push_stdout(&mut self, p: u64, out: &str)
        ensures
            final(self)@ == push_stdout_next(old(self)@, p, out@),
    {
        if self.held_by(p) {
            self.text.append(out);
        }
    }

    /// Process `p` replaces the display's text buffer; a silent no-op when
    /// `p` does not hold control.
    pub fn set_text(&mut self, p: u64, text: &str)
        ensures
            final(self)@ == set_text_next(old(self)@, p, text@),
    {
        if self.held_by(p) {
            self.text = text.to_owned();
        }
    }

    /// Process `p` reads the key buffer, clearing it in the same step, so a
    /// key event is delivered to at most one reader.  Returns `None` when
    /// the buffer is empty or `p` does not hold control.
    pub fn key_buffer(&mut self, p: u64) -> (r: Option<KeyPress>)
        ensures
            final(self)@ == key_buffer_next(old(self)@, p),
            r == key_buffer_result(old(self)@, p),
    {
        if self.held_by(p) {
            let k = self.key;
            self.key = None;
            k
        } else {
            None
        }
    }

    /// Process `p` clears the key buffer; a silent no-op when `p` does not
    /// hold control.
    pub fn clear_key(&mut self, p: u64)
        ensures
            final(self)@ == clear_key_next(old(self)@, p),
    {
        if self.held_by(p) {
            self.key = None;
        }
    }

    /// A key is pressed: the single slot holds the new event, displacing
    /// any unread one.
    pub fn press_key(&mut self, k: KeyPress)
        ensures
            final(self)@ == press_key_next(old(self)@, k),
    {
        self.key = Some(k);
    }

    /// The process that currently holds control, if any.
    pub fn holder(&self) -> (r: Option<u64>)
        ensures
            r == self@.holder,
    {
        self.holder
    }

    /// The display's text buffer.
    pub fn text(&self) -> (r: &String)
        ensures
            r@ == self@.text,
    {
        &self.text
    }
}

/// Map the host's status code for a control request or release to its
/// outcome: non-negative is success, anything negative means occupied.
pub fn control_outcome(status: i32) -> (r: Result<(), DisplayError>)
    ensures
        r is Ok <==> status >= 0,
        r is Err ==> r == Err::<(), DisplayError>(DisplayError::Occupied),
{
    if status < 0 {
        Err(DisplayError::Occupied)
    } else {
        Ok(())
    }
}

/// Assemble a key event from the three raw values the host reports: a
/// negative key code means no key (or no control), anything else pairs the
/// code with the modifier flags.
pub fn key_from_raw(key: i32, shift: i32, ctrl: i32) -> (r: Option<KeyPress>)
    ensures
        key >= 0 ==> r == Some(KeyPress { key, shift: shift != 0, ctrl: ctrl != 0 }),
        key < 0 ==> r is None,
{
    if key < 0 {
        None
    } else {
        Some(KeyPress { key, shift: shift != 0, ctrl: ctrl != 0 })
    }
}

/// The arbitration law: on an unclaimed display, process `a` can assume
/// control; a second claim by `b` then fails; `b` can nevertheless override
/// unconditionally and becomes the holder; and after that a release by `a`
/// fails, since `a` no longer holds control.
pub proof fn lemma_arbitration_protocol(v: DisplayView, a: u64, b: u64)
    requires
        v.holder is None,
        a != b,
    ensures
        ({
            let v1 = assume_control_next(v, a);
            let v2 = override_control_next(v1, b);
            &&& assume_control_ok(v)
            &&& v1.holder == Some(a)
            &&& !assume_control_ok(v1)
            &&& v2.holder == Some(b)
            &&& !release_control_ok(v2, a)
        }),
{
}

/// The read-and-clear law: whatever the display's state, two reads of the
/// key buffer by the same process with no key event in between return
/// `None` the second time.
pub proof fn lemma_key_buffer_read_and_clear(v: DisplayView, p: u64)
    ensures
        key_buffer_result(key_buffer_next(v, p), p) is None,
{
}

/// A key event is delivered to at most one reader: once a read has
/// returned the event, every further read by any process returns nothing
/// until a new key is pressed.
pub proof fn lemma_key_delivered_at_most_once(v: DisplayView, p: u64, q: u64)
    requires
        key_buffer_result(v, p) is Some,
    ensures
        key_buffer_result(key_buffer_next(v, p), q) is None,
{
}

} // verus!
