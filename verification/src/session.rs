//! The decode session: the state one parse (or one serialize) threads through
//! every recursive call.
//!
//! The session holds the string interner and the "last seen file/line" cursor
//! that the delta-compressed location format needs, plus a reference count of
//! active uses.  Nested or sequential parses on the same session share the
//! caches; when the count returns to zero the caches are cleared, so a later,
//! unrelated parse can never observe a previous parse's cursor or strings.

use vstd::prelude::*;
use vstd::string::StringExecFns;
use crate::intern::{do_intern, IStr, Interner, spec_intern_index, spec_intern_table};

verus! {

/// The delta-compression cursor: the file and line of the most recently
/// decoded (or emitted) bare location.
pub struct LastLocation {
    pub file: IStr,
    pub line: u64,
}

/// The mathematical state of a session's caches.
pub struct SessV {
    /// Interned string contents, in insertion order.
    pub strings: Seq<Seq<char>>,
    /// Handle index of the cursor's file.
    pub file: int,
    /// The cursor's line.
    pub line: u64,
}

impl SessV {
    /// The state of a session that has never decoded a location: the table
    /// holds only the empty string and the cursor points at it, line 0.
    pub open spec fn fresh() -> SessV {
        SessV { strings: seq![Seq::<char>::empty()], file: 0, line: 0 }
    }

    /// The cursor points into the table.
    pub open spec fn wf(self) -> bool {
        &&& self.strings.len() >= 1
        &&& self.strings[0] == Seq::<char>::empty()
        &&& 0 <= self.file < self.strings.len()
    }

    /// Interning `s` from this state: the state after, and the handle index.
    pub open spec fn intern(self, s: Seq<char>) -> (SessV, int) {
        (
            SessV { strings: spec_intern_table(self.strings, s), ..self },
            spec_intern_index(self.strings, s),
        )
    }
}

/// A caller-owned decode session.
pub struct Session {
    interner: Interner,
    last: LastLocation,
    depth: u64,
}

impl Session {
    /// The caches' mathematical state.
    pub closed spec fn view(&self) -> SessV {
        SessV { strings: self.interner@, file: self.last.file.index as int, line: self.last.line }
    }

    /// The number of activations currently alive.
    pub closed spec fn depth(&self) -> u64 {
        self.depth
    }

    /// Well-formed: the interner is, and the cursor points into it.
    pub closed spec fn wf(&self) -> bool {
        self.interner.wf() && self@.wf()
    }

    /// What well-formedness gives at the specification level: the cache
    /// state is well-formed and the intern table holds no duplicates.
    pub proof fn lemma_wf(&self)
        requires
            self.wf(),
        ensures
            self@.wf(),
            crate::intern::strings_distinct(self@.strings),
    {
    }

    /// A session with fresh caches and no active use.
    pub fn new() -> (r: Session)
        ensures
            r.wf(),
            r@ == SessV::fresh(),
            r.depth() == 0,
    {
        Session { interner: Interner::new(), last: LastLocation { file: IStr { index: 0 }, line: 0 }, depth: 0 }
    }

    /// The string a handle stands for.
    pub fn resolve(&self, h: IStr) -> (r: &String)
        requires
            h.index < self@.strings.len(),
        ensures
            r@ == self@.strings[h.index as int],
    {
        self.interner.resolve(h)
    }

    /// The cursor's current file handle.
    pub fn last_file(&self) -> (h: IStr)
        ensures
            h.index as int == self@.file,
    {
        self.last.file
    }

    /// The cursor's current line.
    pub fn last_line(&self) -> (n: u64)
        ensures
            n == self@.line,
    {
        self.last.line
    }

    /// Move the cursor to a file just seen on the wire.
    pub fn set_last_file(&mut self, h: IStr)
        requires
            old(self).wf(),
            h.index < old(self)@.strings.len(),
        ensures
            final(self).wf(),
            final(self)@ == (SessV { file: h.index as int, ..old(self)@ }),
            final(self).depth() == old(self).depth(),
    {
        self.last.file = h;
    }

    /// Move the cursor to a line just seen on the wire.
    pub fn set_last_line(&mut self, n: u64)
        requires
            old(self).wf(),
        ensures
            final(self).wf(),
            final(self)@ == (SessV { line: n, ..old(self)@ }),
            final(self).depth() == old(self).depth(),
    {
        self.last.line = n;
    }
}

/// Intern a string the session already owns.
pub fn owned(sess: &mut Session, s: String) -> (h: IStr)
    requires
        old(sess).wf(),
    ensures
        final(sess).wf(),
        final(sess)@ == old(sess)@.intern(s@).0,
        h.index as int == old(sess)@.intern(s@).1,
        h.index < final(sess)@.strings.len(),
        final(sess)@.strings[h.index as int] == s@,
        final(sess).depth() == old(sess).depth(),
{
    let h = do_intern(&mut sess.interner, s);
    proof {
        crate::intern::lemma_find_from(old(sess)@.strings, s@, 0);
    }
    h
}

/// Intern a borrowed string, copying it only when it is new to the table.
pub fn borrowed(sess: &mut Session, s: &str) -> (h: IStr)
    requires
        old(sess).wf(),
    ensures
        final(sess).wf(),
        final(sess)@ == old(sess)@.intern(s@).0,
        h.index as int == old(sess)@.intern(s@).1,
        h.index < final(sess)@.strings.len(),
        final(sess)@.strings[h.index as int] == s@,
        final(sess).depth() == old(sess).depth(),
{
    owned(sess, String::from_str(s))
}

/// Reset the delta-compression cursor to "no file seen, line 0".  Only the
/// cursor: the intern table keeps its strings, so handles held by decoded
/// trees stay valid.  A serialize pass on a session that already decoded
/// calls this to start compressing from a clean cursor.
pub fn thread_local_reset(sess: &mut Session)
    ensures
        final(sess)@ == (SessV { file: 0, line: 0, ..old(sess)@ }),
        final(sess).depth() == old(sess).depth(),
        old(sess).wf() ==> final(sess).wf(),
{
    sess.last = LastLocation { file: IStr { index: 0 }, line: 0 };
}

/// Begin one concurrent use of the session's caches.  Decode and encode calls
/// are expected to run between `activate` and `deactivate`.
pub fn activate(sess: &mut Session)
    requires
        old(sess).depth() < u64::MAX,
    ensures
        final(sess).depth() == old(sess).depth() + 1,
        final(sess)@ == old(sess)@,
        final(sess).wf() == old(sess).wf(),
{
    sess.depth = sess.depth + 1;
}

/// End one concurrent use.  When the last use ends, the caches are cleared,
/// so no later parse can observe this parse's interner or cursor state.
pub fn deactivate(sess: &mut Session)
    requires
        old(sess).depth() > 0,
    ensures
        final(sess).depth() == old(sess).depth() - 1,
        old(sess).depth() == 1 ==> final(sess)@ == SessV::fresh() && final(sess).wf(),
        old(sess).depth() > 1 ==> final(sess)@ == old(sess)@ && final(sess).wf() == old(sess).wf(),
{
    sess.depth = sess.depth - 1;
    if sess.depth == 0 {
        sess.interner = Interner::new();
        thread_local_reset(sess);
    }
}

} // verus!
