//! The two string literal scanners, each an explicit state machine that is
//! fed the source one byte at a time.
//!
//! Every byte that moves a machine is ASCII, so the bytes of a multi-byte
//! character pass through both machines as ordinary content.

use crate::lines::{measure, Consumed};
use vstd::prelude::*;

verus! {

/// The stages of the quoted-string machine.
#[derive(Clone, Copy, Debug, PartialEq, Eq)]
pub enum StringStage {
    /// The next byte is taken as content, whatever it is. The machine starts
    /// here, so the opening quote never closes the literal.
    Escaped,
    /// A backslash escapes the byte after it, a quote closes the literal.
    Plain,
    /// The closing quote has been consumed.
    Closed,
}

impl StringStage {
    /// The stage after consuming `b`.
    pub open spec fn next(self, b: u8) -> StringStage {
        match self {
            StringStage::Escaped => StringStage::Plain,
            StringStage::Plain => if b == '\\' as u8 {
                StringStage::Escaped
            } else if b == '"' as u8 {
                StringStage::Closed
            } else {
                StringStage::Plain
            },
            StringStage::Closed => StringStage::Closed,
        }
    }

    /// Consumes one byte.
    pub fn step(self, b: u8) -> (r: StringStage)
        ensures
            r == self.next(b),
    {
        match self {
            StringStage::Escaped => StringStage::Plain,
            StringStage::Plain => if b == '\\' as u8 {
                StringStage::Escaped
            } else if b == '"' as u8 {
                StringStage::Closed
            } else {
                StringStage::Plain
            },
            StringStage::Closed => StringStage::Closed,
        }
    }

    /// Whether the literal is complete.
    pub fn is_closed(self) -> (r: bool)
        ensures
            r == (self is Closed),
    {
        match self {
            StringStage::Closed => true,
            _ => false,
        }
    }
}

/// Where the quoted-string machine, in `stage` before the byte at `at`, closes:
/// the position just after the closing quote. `None` where the input ends
/// first.
pub open spec fn string_literal_end(s: Seq<u8>, at: int, stage: StringStage) -> Option<int>
    decreases s.len() - at,
{
    if stage is Closed {
        Some(at)
    } else if at < 0 || at >= s.len() {
        None
    } else {
        string_literal_end(s, at + 1, stage.next(s[at]))
    }
}

/// The end of the quoted string literal that opens at `from`.
pub open spec fn quoted_literal_end(s: Seq<u8>, from: int) -> Option<int> {
    string_literal_end(s, from, StringStage::Escaped)
}

/// A literal that closes has consumed at least one byte, and its last byte is
/// the closing quote.
pub proof fn lemma_string_literal_end(s: Seq<u8>, at: int, stage: StringStage)
    requires
        0 <= at <= s.len(),
        !(stage is Closed),
    ensures
        string_literal_end(s, at, stage) matches Some(end) ==> {
            &&& at < end <= s.len()
            &&& s[end - 1] == '"' as u8
            &&& stage is Escaped ==> at + 1 < end
        },
    decreases s.len() - at,
{
    if at < s.len() {
        let next = stage.next(s[at]);
        if !(next is Closed) {
            lemma_string_literal_end(s, at + 1, next);
        }
    }
}

/// Scans the quoted string literal that opens at `from`: from the opening
/// quote through the first later quote that no backslash escapes. Returns the
/// measures of the literal, or `None` where the input ends before it closes.
pub fn lex_string_literal(bytes: &[u8], from: usize) -> (r: Option<Consumed>)
    requires
        from <= bytes@.len(),
    ensures
        match r {
            Some(c) => {
                &&& quoted_literal_end(bytes@, from as int) == Some(from + c.len)
                &&& from + c.len <= bytes@.len()
                &&& c.describes(bytes@.subrange(from as int, from + c.len))
            },
            None => quoted_literal_end(bytes@, from as int) is None,
        },
{
    let mut stage = StringStage::Escaped;
    let mut at: usize = from;
    while at < bytes.len() && !stage.is_closed()
        invariant
            from <= at <= bytes@.len(),
            quoted_literal_end(bytes@, from as int) == string_literal_end(
                bytes@,
                at as int,
                stage,
            ),
        decreases bytes@.len() - at,
    {
        stage = stage.step(bytes[at]);
        at += 1;
    }
    if stage.is_closed() {
        Some(measure(bytes, from, at))
    } else {
        None
    }
}

/// The stages of the raw-string machine.
#[derive(Clone, Copy, Debug, PartialEq, Eq)]
pub enum RawStage {
    /// Counting the ticks of the opening fence. The first other byte, the
    /// opening quote, ends the count.
    Opening,
    /// Inside the literal, looking for a quote.
    Body,
    /// After a quote, counting the ticks that follow it.
    Closing,
    /// As many ticks as the fence has were seen after a quote.
    Closed,
}

/// The state of the raw-string machine: its stage, the number of ticks in the
/// opening fence, and the number of ticks seen since the last quote.
pub struct RawState {
    pub stage: RawStage,
    pub fence: nat,
    pub ticks: nat,
}

impl RawState {
    /// The state before the first byte of a literal.
    pub open spec fn start() -> RawState {
        RawState { stage: RawStage::Opening, fence: 0, ticks: 0 }
    }

    /// The state after consuming `b`. A byte other than a tick that arrives
    /// while counting closing ticks sends the machine back to the body and is
    /// itself content, also where it is a quote.
    pub open spec fn next(self, b: u8) -> RawState {
        match self.stage {
            RawStage::Opening => if b == '\'' as u8 {
                RawState { stage: RawStage::Opening, fence: self.fence + 1, ticks: self.ticks }
            } else {
                RawState { stage: RawStage::Body, fence: self.fence, ticks: self.ticks }
            },
            RawStage::Body => if b == '"' as u8 {
                RawState { stage: RawStage::Closing, fence: self.fence, ticks: self.ticks }
            } else {
                self
            },
            RawStage::Closing => if b == '\'' as u8 {
                if self.ticks + 1 == self.fence {
                    RawState { stage: RawStage::Closed, fence: self.fence, ticks: self.ticks + 1 }
                } else {
                    RawState { stage: RawStage::Closing, fence: self.fence, ticks: self.ticks + 1 }
                }
            } else {
                RawState { stage: RawStage::Body, fence: self.fence, ticks: 0 }
            },
            RawStage::Closed => self,
        }
    }
}

/// The raw-string machine as it runs.
#[derive(Clone, Copy, Debug, PartialEq, Eq)]
pub struct RawScanner {
    pub stage: RawStage,
    pub fence: usize,
    pub ticks: usize,
}

impl View for RawScanner {
    type V = RawState;

    open spec fn view(&self) -> RawState {
        RawState { stage: self.stage, fence: self.fence as nat, ticks: self.ticks as nat }
    }
}

impl RawScanner {
    /// The machine before the first byte of a literal.
    pub fn new() -> (r: RawScanner)
        ensures
            r@ == RawState::start(),
    {
        RawScanner { stage: RawStage::Opening, fence: 0, ticks: 0 }
    }

    /// Consumes one byte.
    pub fn step(self, b: u8) -> (r: RawScanner)
        requires
            self.fence < usize::MAX,
            self.ticks < usize::MAX,
        ensures
            r@ == self@.next(b),
            r.fence <= self.fence + 1,
            r.ticks <= self.ticks + 1,
    {
        match self.stage {
            RawStage::Opening => if b == '\'' as u8 {
                RawScanner { stage: RawStage::Opening, fence: self.fence + 1, ticks: self.ticks }
            } else {
                RawScanner { stage: RawStage::Body, fence: self.fence, ticks: self.ticks }
            },
            RawStage::Body => if b == '"' as u8 {
                RawScanner { stage: RawStage::Closing, fence: self.fence, ticks: self.ticks }
            } else {
                self
            },
            RawStage::Closing => if b == '\'' as u8 {
                if self.ticks + 1 == self.fence {
                    RawScanner { stage: RawStage::Closed, fence: self.fence, ticks: self.ticks + 1 }
                } else {
                    RawScanner {
                        stage: RawStage::Closing,
                        fence: self.fence,
                        ticks: self.ticks + 1,
                    }
                }
            } else {
                RawScanner { stage: RawStage::Body, fence: self.fence, ticks: 0 }
            },
            RawStage::Closed => self,
        }
    }

    /// Whether the literal is complete.
    pub fn is_closed(self) -> (r: bool)
        ensures
            r == (self.stage is Closed),
    {
        match self.stage {
            RawStage::Closed => true,
            _ => false,
        }
    }
}

/// Where the raw-string machine, in `state` before the byte at `at`, closes:
/// the position just after the last tick of the closing fence. `None` where
/// the input ends first.
pub open spec fn raw_string_end(s: Seq<u8>, at: int, state: RawState) -> Option<int>
    decreases s.len() - at,
{
    if state.stage is Closed {
        Some(at)
    } else if at < 0 || at >= s.len() {
        None
    } else {
        raw_string_end(s, at + 1, state.next(s[at]))
    }
}

/// The end of the raw string literal whose fence opens at `from`.
pub open spec fn raw_literal_end(s: Seq<u8>, from: int) -> Option<int> {
    raw_string_end(s, from, RawState::start())
}

/// A raw literal that closes has consumed at least one byte, and its last byte
/// is a tick.
pub proof fn lemma_raw_string_end(s: Seq<u8>, at: int, state: RawState)
    requires
        0 <= at <= s.len(),
        !(state.stage is Closed),
    ensures
        raw_string_end(s, at, state) matches Some(end) ==> at < end <= s.len() && s[end - 1]
            == '\'' as u8,
    decreases s.len() - at,
{
    if at < s.len() {
        let next = state.next(s[at]);
        if !(next.stage is Closed) {
            lemma_raw_string_end(s, at + 1, next);
        }
    }
}

/// Scans the raw string literal whose fence opens at `from`: the ticks of the
/// fence, the opening quote, and everything through the first quote that as
/// many ticks follow as the fence has. Returns the measures of the literal, or
/// `None` where the input ends before it closes.
pub fn lex_raw_string_literal(bytes: &[u8], from: usize) -> (r: Option<Consumed>)
    requires
        from <= bytes@.len(),
    ensures
        match r {
            Some(c) => {
                &&& raw_literal_end(bytes@, from as int) == Some(from + c.len)
                &&& from + c.len <= bytes@.len()
                &&& c.describes(bytes@.subrange(from as int, from + c.len))
            },
            None => raw_literal_end(bytes@, from as int) is None,
        },
{
    let mut scanner = RawScanner::new();
    let mut at: usize = from;
    while at < bytes.len() && !scanner.is_closed()
        invariant
            from <= at <= bytes@.len(),
            scanner.fence <= at - from,
            scanner.ticks <= at - from,
            raw_literal_end(bytes@, from as int) == raw_string_end(bytes@, at as int, scanner@),
        decreases bytes@.len() - at,
    {
        scanner = scanner.step(bytes[at]);
        at += 1;
    }
    if scanner.is_closed() {
        Some(measure(bytes, from, at))
    } else {
        None
    }
}

} // verus!
