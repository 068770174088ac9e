//! String interning.
//!
//! A dump repeats the same few filenames thousands of times.  The interner
//! keeps one copy of each distinct string and hands out small handles; two
//! textually equal strings interned into the same table always receive the
//! same handle, so sharing is observable by handle equality.

use vstd::prelude::*;
use vstd::string::StringExecFns;

verus! {

/// A handle into an [`Interner`]: the index of the string's single shared
/// entry.  Handle equality means content equality within one session.
#[derive(Clone, Copy, PartialEq, Eq, Structural, Debug, Hash)]
pub struct IStr {
    pub index: usize,
}

/// The intern table.  Entry 0 is always the empty string, which serves as the
/// default "no file seen yet" value of the location cursor.
pub struct Interner {
    strings: Vec<String>,
}

/// The first index at or after `i` whose entry equals `s`, or `t.len()` when
/// no entry from `i` on matches.
pub open spec fn find_from(t: Seq<Seq<char>>, s: Seq<char>, i: int) -> int
    decreases t.len() - i,
    when 0 <= i <= t.len()
{
    if i >= t.len() {
        t.len() as int
    } else if t[i] == s {
        i
    } else {
        find_from(t, s, i + 1)
    }
}

/// The handle that interning `s` into table `t` yields: the first matching
/// entry, or a fresh entry at the end.
pub open spec fn spec_intern_index(t: Seq<Seq<char>>, s: Seq<char>) -> int {
    find_from(t, s, 0)
}

/// The table after interning `s` into `t`: unchanged on a hit, extended by
/// `s` on a miss.
pub open spec fn spec_intern_table(t: Seq<Seq<char>>, s: Seq<char>) -> Seq<Seq<char>> {
    if find_from(t, s, 0) < t.len() {
        t
    } else {
        t.push(s)
    }
}

/// `find_from` really is the first match: everything before it differs from
/// `s`, and it points at a match whenever one exists.
pub proof fn lemma_find_from(t: Seq<Seq<char>>, s: Seq<char>, i: int)
    requires
        0 <= i <= t.len(),
    ensures
        i <= find_from(t, s, i) <= t.len(),
        find_from(t, s, i) < t.len() ==> t[find_from(t, s, i)] == s,
        forall|j: int| i <= j < find_from(t, s, i) ==> t[j] != s,
    decreases t.len() - i,
{
    if i < t.len() && t[i] != s {
        lemma_find_from(t, s, i + 1);
    }
}

/// Appending an entry does not disturb the search result over the old range:
/// a hit stays where it was, and a miss now finds the appended entry.
pub proof fn lemma_find_from_push(t: Seq<Seq<char>>, s: Seq<char>, x: Seq<char>, i: int)
    requires
        0 <= i <= t.len(),
    ensures
        find_from(t, s, i) < t.len() ==> find_from(t.push(x), s, i) == find_from(t, s, i),
        find_from(t, s, i) == t.len() && x == s ==> find_from(t.push(x), s, i) == t.len(),
        find_from(t, s, i) == t.len() && x != s ==> find_from(t.push(x), s, i) == t.len() + 1,
    decreases t.len() - i,
{
    if i < t.len() {
        if t[i] != s {
            lemma_find_from_push(t, s, x, i + 1);
        }
    } else {
        assert(t.push(x)[i] == x);
        if x != s {
            assert(find_from(t.push(x), s, i + 1) == t.len() + 1);
        }
    }
}

/// No two entries of the table hold the same content.
pub open spec fn strings_distinct(t: Seq<Seq<char>>) -> bool {
    forall|i: int, j: int| 0 <= i < j < t.len() ==> t[i] != t[j]
}

/// In a duplicate-free table, interning a string the table already holds
/// returns that entry's own index and leaves the table unchanged.
pub proof fn lemma_intern_existing(t: Seq<Seq<char>>, h: int)
    requires
        strings_distinct(t),
        0 <= h < t.len(),
    ensures
        spec_intern_index(t, t[h]) == h,
        spec_intern_table(t, t[h]) == t,
{
    lemma_find_from(t, t[h], 0);
    if find_from(t, t[h], 0) < h {
        assert(t[find_from(t, t[h], 0)] == t[h]);
    }
}

impl Interner {
    /// The table's content, in insertion order.
    pub closed spec fn view(&self) -> Seq<Seq<char>> {
        self.strings.deep_view()
    }

    /// Well-formed: entry 0 is the empty string and no content is duplicated,
    /// so every content has exactly one handle.
    pub open spec fn wf(&self) -> bool {
        &&& self@.len() >= 1
        &&& self@[0] == Seq::<char>::empty()
        &&& strings_distinct(self@)
    }

    /// A fresh table holding only the empty string.
    pub fn new() -> (r: Interner)
        ensures
            r.wf(),
            r@ == seq![Seq::<char>::empty()],
    {
        let mut strings: Vec<String> = Vec::new();
        strings.push(String::new());
        let r = Interner { strings };
        proof {
            assert(r@ =~= seq![Seq::<char>::empty()]);
        }
        r
    }

    /// The number of interned strings.
    pub fn len(&self) -> (n: usize)
        ensures
            n == self@.len(),
    {
        self.strings.len()
    }

    /// The content a handle stands for.
    pub fn resolve(&self, h: IStr) -> (r: &String)
        requires
            h.index < self@.len(),
        ensures
            r@ == self@[h.index as int],
    {
        &self.strings[h.index]
    }
}

/// Intern a string: return the handle of the existing entry with equal
/// content, or append the string as a new entry and return its handle.
pub fn do_intern(it: &mut Interner, s: String) -> (h: IStr)
    requires
        old(it).wf(),
    ensures
        final(it).wf(),
        h.index as int == spec_intern_index(old(it)@, s@),
        final(it)@ == spec_intern_table(old(it)@, s@),
        h.index < final(it)@.len(),
        final(it)@[h.index as int] == s@,
        old(it)@.len() <= final(it)@.len(),
        forall|i: int| 0 <= i < old(it)@.len() ==> final(it)@[i] == old(it)@[i],
{
    let ghost t = it@;
    let n = it.strings.len();
    let mut i: usize = 0;
    while i < n
        invariant
            n == t.len(),
            it@ == t,
            it.wf(),
            0 <= i <= n,
            forall|j: int| 0 <= j < i ==> t[j] != s@,
        decreases n - i,
    {
        if it.strings[i] == s {
            proof {
                assert(t[i as int] == s@);
                lemma_find_from(t, s@, 0);
            }
            return IStr { index: i };
        }
        proof {
            assert(t[i as int] != s@);
        }
        i = i + 1;
    }
    proof {
        lemma_find_from(t, s@, 0);
    }
    it.strings.push(s);
    proof {
        assert(it@ =~= t.push(s@));
    }
    IStr { index: n }
}

/// Interning is idempotent per content: once a string is in the table,
/// interning equal content again yields the very same handle and leaves the
/// table untouched.  This is the sharing guarantee: equal filenames in one
/// session resolve to one entry.
pub proof fn lemma_intern_shares(t: Seq<Seq<char>>, s1: Seq<char>, s2: Seq<char>)
    requires
        s1 == s2,
    ensures
        spec_intern_index(spec_intern_table(t, s1), s2) == spec_intern_index(t, s1),
        spec_intern_table(spec_intern_table(t, s1), s2) == spec_intern_table(t, s1),
{
    lemma_find_from(t, s1, 0);
    if find_from(t, s1, 0) < t.len() {
    } else {
        lemma_find_from_push(t, s1, s1, 0);
        lemma_find_from(t.push(s1), s1, 0);
    }
}


/// Interning keeps the table duplicate-free: a new entry is only appended
/// when no existing entry matches it.
pub proof fn lemma_intern_preserves_distinct(t: Seq<Seq<char>>, s: Seq<char>)
    requires
        strings_distinct(t),
    ensures
        strings_distinct(spec_intern_table(t, s)),
{
    lemma_find_from(t, s, 0);
    if find_from(t, s, 0) == t.len() {
        let t2 = t.push(s);
        assert forall|i: int, j: int| 0 <= i < j < t2.len() implies t2[i] != t2[j] by {
            if j == t.len() {
                assert(t[i] != s);
            }
        }
    }
}

} // verus!
