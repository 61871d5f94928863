//! A bridge to the system clipboard, which may be missing: a session without
//! a clipboard leaves the bridge unavailable, and every operation on it then
//! reports failure instead of touching anything.

use vstd::prelude::*;

verus! {

/// The clipboard handle of the `arboard` crate.
#[verifier::external_type_specification]
#[verifier::external_body]
pub struct ExClipboard(arboard::Clipboard);

/// The error type of the `arboard` crate.
#[verifier::external_type_specification]
#[verifier::external_body]
pub struct ExClipboardError(arboard::Error);

/// Calls `arboard::Clipboard::new`, which connects to the clipboard of the
/// desktop session. Whether it succeeds depends on the session, so nothing is
/// stated of its result.
#[verifier::external_body]
fn open_system_clipboard() -> (r: Result<arboard::Clipboard, arboard::Error>) {
    arboard::Clipboard::new()
}

/// Calls `arboard::Clipboard::get_text` on the connection's handle, which
/// reads the text that is on the clipboard now. What it reads depends on the
/// other programs of the session, so nothing is stated of which outcome
/// comes; the contract claims only that the outcome is appended to the
/// connection's record of reads, and that the call places nothing.
#[verifier::external_body]
fn read_system_clipboard(clipboard: &mut SystemClipboard) -> (r: Result<String, arboard::Error>)
    ensures
        final(clipboard).reads() == old(clipboard).reads().push(
            match r {
                Ok(text) => Some(text@),
                Err(_) => None,
            },
        ),
        final(clipboard).writes() == old(clipboard).writes(),
        final(clipboard).placed() == old(clipboard).placed(),
{
    clipboard.handle.get_text()
}

/// The text that a read of the clipboard gives back: the text where the read
/// succeeded, and nothing where it failed.
pub fn text_of_read(read: Result<String, arboard::Error>) -> (r: Option<String>)
    ensures
        match read {
            Ok(text) => r == Some(text),
            Err(_) => r is None,
        },
{
    match read {
        Ok(text) => Some(text),
        Err(_) => None,
    }
}

/// Whether a write to the clipboard went through.
pub fn write_went_through(write: Result<(), arboard::Error>) -> (r: bool)
    ensures
        r == write is Ok,
{
    match write {
        Ok(()) => true,
        Err(_) => false,
    }
}

/// A connection to the system clipboard, with a record of what was done
/// through it: the outcome of every read (the text read, or nothing where the
/// read failed), every write attempted (its text and whether it went
/// through), and the text last placed on the clipboard.
pub struct SystemClipboard {
    handle: arboard::Clipboard,
    placed: Ghost<Option<Seq<char>>>,
    reads: Ghost<Seq<Option<Seq<char>>>>,
    writes: Ghost<Seq<(Seq<char>, bool)>>,
}

impl SystemClipboard {
    /// The text last placed on the clipboard through this connection, if any.
    pub closed spec fn placed(&self) -> Option<Seq<char>> {
        self.placed@
    }

    /// The outcomes of the reads made through this connection, oldest first.
    pub closed spec fn reads(&self) -> Seq<Option<Seq<char>>> {
        self.reads@
    }

    /// The writes attempted through this connection, oldest first, each with
    /// whether it went through.
    pub closed spec fn writes(&self) -> Seq<(Seq<char>, bool)> {
        self.writes@
    }

    /// A fresh connection, through which nothing has been read or placed yet.
    fn over(handle: arboard::Clipboard) -> (c: Self)
        ensures
            c.placed() is None,
            c.reads() == Seq::<Option<Seq<char>>>::empty(),
            c.writes() == Seq::<(Seq<char>, bool)>::empty(),
    {
        SystemClipboard { handle, placed: Ghost(None), reads: Ghost(Seq::empty()), writes: Ghost(Seq::empty()) }
    }

    /// Calls `arboard::Clipboard::set_text`, which places `text` on the
    /// clipboard. The contract claims that a successful call placed exactly
    /// `text`, that a failed one placed nothing, and that the attempt and its
    /// outcome are appended to the connection's record of writes; whether
    /// the session accepts the text is not known beforehand, so nothing is
    /// stated of which outcome comes.
    #[verifier::external_body]
    fn place_text(&mut self, text: &str) -> (r: Result<(), arboard::Error>)
        ensures
            r is Ok ==> final(self).placed() == Some(text@),
            r is Err ==> final(self).placed() == old(self).placed(),
            final(self).writes() == old(self).writes().push((text@, r is Ok)),
            final(self).reads() == old(self).reads(),
    {
        self.handle.set_text(text)
    }
}

/// A bridge to the system clipboard.
pub struct ClipboardManager {
    clipboard: Option<SystemClipboard>,
}

impl ClipboardManager {
    /// Whether the bridge holds a connection to the system clipboard.
    pub closed spec fn is_available(&self) -> bool {
        self.clipboard is Some
    }

    /// The text last placed on the clipboard through this bridge, if any.
    pub closed spec fn last_placed(&self) -> Option<Seq<char>> {
        match self.clipboard {
            Some(c) => c.placed(),
            None => None,
        }
    }

    /// The outcomes of the reads made through this bridge, oldest first;
    /// empty for an unavailable bridge.
    pub closed spec fn reads(&self) -> Seq<Option<Seq<char>>> {
        match self.clipboard {
            Some(c) => c.reads(),
            None => Seq::empty(),
        }
    }

    /// The writes attempted through this bridge, oldest first, each with
    /// whether it went through; empty for an unavailable bridge.
    pub closed spec fn writes(&self) -> Seq<(Seq<char>, bool)> {
        match self.clipboard {
            Some(c) => c.writes(),
            None => Seq::empty(),
        }
    }

    /// Connects to the system clipboard; where the session offers none, the
    /// bridge is unavailable.
    pub fn new() -> (m: Self)
        ensures
            m.last_placed() is None,
            m.reads() == Seq::<Option<Seq<char>>>::empty(),
            m.writes() == Seq::<(Seq<char>, bool)>::empty(),
    {
        Self::from_connection(open_system_clipboard())
    }

    /// A bridge over the outcome of connecting to the system clipboard: it is
    /// available exactly when the connection was made.
    pub fn from_connection(opened: Result<arboard::Clipboard, arboard::Error>) -> (m: Self)
        ensures
            m.is_available() == opened is Ok,
            m.last_placed() is None,
            m.reads() == Seq::<Option<Seq<char>>>::empty(),
            m.writes() == Seq::<(Seq<char>, bool)>::empty(),
    {
        match opened {
            Ok(clipboard) => ClipboardManager { clipboard: Some(SystemClipboard::over(clipboard)) },
            Err(_) => ClipboardManager { clipboard: None },
        }
    }

    /// Reads the text on the clipboard. An unavailable bridge reads nothing
    /// and records nothing; an available one makes one read and gives back
    /// exactly its outcome: the text the clipboard holds, or nothing where
    /// the read fails.
    pub fn get_text(&mut self) -> (r: Option<String>)
        ensures
            final(self).is_available() == old(self).is_available(),
            final(self).last_placed() == old(self).last_placed(),
            final(self).writes() == old(self).writes(),
            old(self).is_available() ==> final(self).reads() == old(self).reads().push(
                match r {
                    Some(text) => Some(text@),
                    None => None,
                },
            ),
            !old(self).is_available() ==> r is None && final(self).reads() == old(self).reads(),
    {
        match &mut self.clipboard {
            Some(clipboard) => text_of_read(read_system_clipboard(clipboard)),
            None => None,
        }
    }

    /// Places `text` on the clipboard and tells whether that went through. An
    /// available bridge attempts exactly one write of `text` and reports its
    /// outcome; an unavailable bridge never succeeds and attempts nothing; a write that goes through leaves
    /// `text` as the text last placed, and one that fails leaves the record
    /// as it was.
    pub fn set_text(&mut self, text: &str) -> (r: bool)
        ensures
            final(self).is_available() == old(self).is_available(),
            r ==> old(self).is_available(),
            r ==> final(self).last_placed() == Some(text@),
            !r ==> final(self).last_placed() == old(self).last_placed(),
            final(self).reads() == old(self).reads(),
            old(self).is_available() ==> final(self).writes() == old(self).writes().push(
                (text@, r),
            ),
            !old(self).is_available() ==> final(self).writes() == old(self).writes(),
    {
        match &mut self.clipboard {
            Some(clipboard) => write_went_through(clipboard.place_text(text)),
            None => false,
        }
    }
}

} // verus!
