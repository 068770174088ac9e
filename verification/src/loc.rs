//! Source locations and the delta codec.
//!
//! The wire format compresses locations: a bare location omits its `file`
//! and `line` whenever they equal those of the previously emitted location.
//! Omission is load-bearing — a reader that fills in defaults instead of the
//! last-seen cursor silently corrupts locations — so decoding threads the
//! session cursor through every location in arrival order, and encoding
//! re-applies the same compression.

use vstd::prelude::*;
use vstd::string::StringExecFns;
use crate::error::{Error, ErrV};
use crate::intern::IStr;
use crate::json::{jview, jview_fields, Json, JsonV};
use crate::session::{SessV, Session};

verus! {

broadcast use vstd::string::group_string_axioms;

/// A single file/line/column point.  `file` and the optional `presumed_file`
/// are interner handles; `included_from` chains to the file that included
/// this one.
pub struct BareSourceLocation {
    pub offset: u64,
    pub file: IStr,
    pub line: u64,
    pub presumed_file: Option<IStr>,
    pub presumed_line: Option<u64>,
    pub col: u64,
    pub tok_len: u64,
    pub included_from: Option<IncludedFrom>,
    pub is_macro_arg_expansion: bool,
}

/// The chain of files that `#include`d a location's file.
pub struct IncludedFrom {
    pub included_from: Option<Box<IncludedFrom>>,
    pub file: IStr,
}

/// Where a token was written and where a macro expanded it; both absent
/// means the location is unknown.
pub struct SourceLocation {
    pub spelling_loc: Option<BareSourceLocation>,
    pub expansion_loc: Option<BareSourceLocation>,
}

/// A begin/end pair of locations.
pub struct SourceRange {
    pub begin: SourceLocation,
    pub end: SourceLocation,
}

/// The mathematical form of a bare location.  File references are handle
/// indices into the session's intern table; the include chain is the list of
/// handle indices, nearest includer first.
pub struct BareLocV {
    pub offset: u64,
    pub file: int,
    pub line: u64,
    pub presumed_file: Option<int>,
    pub presumed_line: Option<u64>,
    pub col: u64,
    pub tok_len: u64,
    pub included_from: Seq<int>,
    pub is_macro_arg_expansion: bool,
}

/// The mathematical form of a `SourceLocation`.
pub struct LocV {
    pub spelling: Option<BareLocV>,
    pub expansion: Option<BareLocV>,
}

/// The mathematical form of a `SourceRange`.
pub struct RangeV {
    pub begin: LocV,
    pub end: LocV,
}

/// The chain of handle indices an include link denotes, this file's
/// includer first.
pub open spec fn inc_chain(i: IncludedFrom) -> Seq<int>
    decreases i,
{
    match i.included_from {
        None => seq![i.file.index as int],
        Some(parent) => seq![i.file.index as int] + inc_chain(*parent),
    }
}

impl View for IncludedFrom {
    type V = Seq<int>;

    /// The chain as a list of handle indices, this file's includer first.
    open spec fn view(&self) -> Seq<int> {
        inc_chain(*self)
    }
}

/// The chain of an optional include link: empty when absent.
pub open spec fn opt_inc_view(i: Option<IncludedFrom>) -> Seq<int> {
    match i {
        None => Seq::empty(),
        Some(inc) => inc_chain(inc),
    }
}

impl View for BareSourceLocation {
    type V = BareLocV;

    open spec fn view(&self) -> BareLocV {
        BareLocV {
            offset: self.offset,
            file: self.file.index as int,
            line: self.line,
            presumed_file: match self.presumed_file {
                None => None,
                Some(h) => Some(h.index as int),
            },
            presumed_line: self.presumed_line,
            col: self.col,
            tok_len: self.tok_len,
            included_from: opt_inc_view(self.included_from),
            is_macro_arg_expansion: self.is_macro_arg_expansion,
        }
    }
}

impl View for SourceLocation {
    type V = LocV;

    open spec fn view(&self) -> LocV {
        LocV {
            spelling: match &self.spelling_loc {
                None => None,
                Some(l) => Some(l.view()),
            },
            expansion: match &self.expansion_loc {
                None => None,
                Some(l) => Some(l.view()),
            },
        }
    }
}

impl View for SourceRange {
    type V = RangeV;

    open spec fn view(&self) -> RangeV {
        RangeV { begin: self.begin@, end: self.end@ }
    }
}

/// All handles of a bare location point into a table of `n` strings.
pub open spec fn bare_wf(l: BareLocV, n: int) -> bool {
    &&& 0 <= l.file < n
    &&& match l.presumed_file {
        None => true,
        Some(h) => 0 <= h < n,
    }
    &&& forall|i: int| 0 <= i < l.included_from.len() ==> 0 <= #[trigger] l.included_from[i] < n
}

/// All handles of a location point into a table of `n` strings.
pub open spec fn loc_wf(l: LocV, n: int) -> bool {
    &&& match l.spelling {
        None => true,
        Some(b) => bare_wf(b, n),
    }
    &&& match l.expansion {
        None => true,
        Some(b) => bare_wf(b, n),
    }
}

/// All handles of a range point into a table of `n` strings.
pub open spec fn range_wf(r: RangeV, n: int) -> bool {
    loc_wf(r.begin, n) && loc_wf(r.end, n)
}

// ---------------------------------------------------------------------------
// Decoding, at the specification level.
// ---------------------------------------------------------------------------

/// A string field value, or the error its shape earns.
pub open spec fn as_str_value(v: JsonV) -> Result<Seq<char>, ErrV> {
    match v {
        JsonV::Str(s) => Ok(s),
        _ => Err(ErrV::TypeMismatch { expected: "a string"@ }),
    }
}

/// An unsigned 64-bit field value, or the error its shape earns.
pub open spec fn as_u64_value(v: JsonV) -> Result<u64, ErrV> {
    match v {
        JsonV::Int(n) => if 0 <= n < 0x1_0000_0000_0000_0000 {
            Ok(n as u64)
        } else {
            Err(ErrV::TypeMismatch { expected: "an unsigned 64-bit integer"@ })
        },
        _ => Err(ErrV::TypeMismatch { expected: "an unsigned 64-bit integer"@ }),
    }
}

/// A boolean field value, or the error its shape earns.
pub open spec fn as_bool_value(v: JsonV) -> Result<bool, ErrV> {
    match v {
        JsonV::Bool(b) => Ok(b),
        _ => Err(ErrV::TypeMismatch { expected: "a boolean"@ }),
    }
}

/// Decoding state of an include chain object: what has been seen so far.
pub struct IncAcc {
    pub seen_included_from: bool,
    pub file: Option<int>,
    pub st: SessV,
}

/// One field of an `includedFrom` object: the nested chain is drained and
/// discarded, `file` is interned, anything else is an error.
pub open spec fn inc_step(acc: IncAcc, name: Seq<char>, value: JsonV) -> Result<IncAcc, ErrV> {
    if name == "includedFrom"@ {
        if acc.seen_included_from {
            Err(ErrV::DuplicateField { field: "includedFrom"@ })
        } else {
            Ok(IncAcc { seen_included_from: true, ..acc })
        }
    } else if name == "file"@ {
        if acc.file is Some {
            Err(ErrV::DuplicateField { field: "file"@ })
        } else {
            match as_str_value(value) {
                Ok(s) => Ok(
                    IncAcc { file: Some(acc.st.intern(s).1), st: acc.st.intern(s).0, ..acc },
                ),
                Err(e) => Err(e),
            }
        }
    } else {
        Err(ErrV::UnknownField { field: name, kind: None })
    }
}

/// Fold `inc_step` over the fields from position `i` on.
pub open spec fn inc_fold(fields: Seq<(Seq<char>, JsonV)>, i: int, acc: IncAcc) -> Result<
    IncAcc,
    ErrV,
>
    decreases fields.len() - i,
    when 0 <= i <= fields.len()
{
    if i == fields.len() {
        Ok(acc)
    } else {
        match inc_step(acc, fields[i].0, fields[i].1) {
            Ok(a) => inc_fold(fields, i + 1, a),
            Err(e) => Err(e),
        }
    }
}

/// Decode an `includedFrom` value: an object whose `file` is required; the
/// chain past the first link is not reconstructed.
pub open spec fn spec_decode_inc(j: JsonV, st: SessV) -> Result<(Seq<int>, SessV), ErrV> {
    match j {
        JsonV::Obj(fields) => {
            let init = IncAcc { seen_included_from: false, file: None, st };
            match inc_fold(fields, 0, init) {
                Ok(acc) => match acc.file {
                    Some(h) => Ok((seq![h], acc.st)),
                    None => Err(ErrV::MissingField { field: "file"@, kind: None }),
                },
                Err(e) => Err(e),
            }
        },
        _ => Err(ErrV::TypeMismatch { expected: "an object"@ }),
    }
}

/// Decoding state of a bare location's fields after `offset`.
pub struct BareAcc {
    pub file: Option<int>,
    pub line: Option<u64>,
    pub presumed_file: Option<int>,
    pub presumed_line: Option<u64>,
    pub col: Option<u64>,
    pub tok_len: Option<u64>,
    pub included_from: Seq<int>,
    pub is_macro_arg_expansion: bool,
    pub st: SessV,
}

/// One field of a bare location after `offset`: a repeated `offset` is an
/// error, the known fields are collected in any order (a repetition keeps
/// the later value, as the wire producer never repeats them), and an unknown
/// name is an error.
pub open spec fn bare_step(acc: BareAcc, name: Seq<char>, value: JsonV) -> Result<BareAcc, ErrV> {
    if name == "offset"@ {
        Err(ErrV::DuplicateField { field: "offset"@ })
    } else if name == "file"@ {
        match as_str_value(value) {
            Ok(s) => Ok(BareAcc { file: Some(acc.st.intern(s).1), st: acc.st.intern(s).0, ..acc }),
            Err(e) => Err(e),
        }
    } else if name == "line"@ {
        match as_u64_value(value) {
            Ok(n) => Ok(BareAcc { line: Some(n), ..acc }),
            Err(e) => Err(e),
        }
    } else if name == "presumedFile"@ {
        match as_str_value(value) {
            Ok(s) => Ok(
                BareAcc {
                    presumed_file: Some(acc.st.intern(s).1),
                    st: acc.st.intern(s).0,
                    ..acc
                },
            ),
            Err(e) => Err(e),
        }
    } else if name == "presumedLine"@ {
        match as_u64_value(value) {
            Ok(n) => Ok(BareAcc { presumed_line: Some(n), ..acc }),
            Err(e) => Err(e),
        }
    } else if name == "col"@ {
        match as_u64_value(value) {
            Ok(n) => Ok(BareAcc { col: Some(n), ..acc }),
            Err(e) => Err(e),
        }
    } else if name == "tokLen"@ {
        match as_u64_value(value) {
            Ok(n) => Ok(BareAcc { tok_len: Some(n), ..acc }),
            Err(e) => Err(e),
        }
    } else if name == "includedFrom"@ {
        match spec_decode_inc(value, acc.st) {
            Ok((chain, st)) => Ok(BareAcc { included_from: chain, st, ..acc }),
            Err(e) => Err(e),
        }
    } else if name == "isMacroArgExpansion"@ {
        match as_bool_value(value) {
            Ok(b) => Ok(BareAcc { is_macro_arg_expansion: b, ..acc }),
            Err(e) => Err(e),
        }
    } else {
        Err(ErrV::UnknownField { field: name, kind: None })
    }
}

/// Fold `bare_step` over the fields from position `i` on.
pub open spec fn bare_fold(fields: Seq<(Seq<char>, JsonV)>, i: int, acc: BareAcc) -> Result<
    BareAcc,
    ErrV,
>
    decreases fields.len() - i,
    when 0 <= i <= fields.len()
{
    if i == fields.len() {
        Ok(acc)
    } else {
        match bare_step(acc, fields[i].0, fields[i].1) {
            Ok(a) => bare_fold(fields, i + 1, a),
            Err(e) => Err(e),
        }
    }
}

/// The empty decoding state for the fields after `offset`.
pub open spec fn bare_acc_init(st: SessV) -> BareAcc {
    BareAcc {
        file: None,
        line: None,
        presumed_file: None,
        presumed_line: None,
        col: None,
        tok_len: None,
        included_from: Seq::empty(),
        is_macro_arg_expansion: false,
        st,
    }
}

/// Finish a bare location: an omitted `file` or `line` inherits the cursor,
/// a present one becomes the new cursor; `col` and `tokLen` are mandatory.
pub open spec fn bare_finish(offset: u64, acc: BareAcc) -> Result<(BareLocV, SessV), ErrV> {
    let file = match acc.file {
        Some(h) => h,
        None => acc.st.file,
    };
    let line = match acc.line {
        Some(n) => n,
        None => acc.st.line,
    };
    match acc.col {
        None => Err(ErrV::MissingField { field: "col"@, kind: None }),
        Some(col) => match acc.tok_len {
            None => Err(ErrV::MissingField { field: "tokLen"@, kind: None }),
            Some(tok_len) => Ok(
                (
                    BareLocV {
                        offset,
                        file,
                        line,
                        presumed_file: acc.presumed_file,
                        presumed_line: acc.presumed_line,
                        col,
                        tok_len,
                        included_from: acc.included_from,
                        is_macro_arg_expansion: acc.is_macro_arg_expansion,
                    },
                    SessV { file, line, ..acc.st },
                ),
            ),
        },
    }
}

/// Decode the fields of a bare location, `offset` first and mandatory.
pub open spec fn spec_decode_bare_fields(fields: Seq<(Seq<char>, JsonV)>, st: SessV) -> Result<
    (BareLocV, SessV),
    ErrV,
> {
    if fields.len() == 0 {
        Err(ErrV::MissingField { field: "offset"@, kind: None })
    } else if fields[0].0 != "offset"@ {
        Err(ErrV::UnknownField { field: fields[0].0, kind: None })
    } else {
        match as_u64_value(fields[0].1) {
            Err(e) => Err(e),
            Ok(offset) => match bare_fold(fields, 1, bare_acc_init(st)) {
                Ok(acc) => bare_finish(offset, acc),
                Err(e) => Err(e),
            },
        }
    }
}

/// Decode a bare location: an object whose first field is `offset`.
pub open spec fn spec_decode_bare(j: JsonV, st: SessV) -> Result<(BareLocV, SessV), ErrV> {
    match j {
        JsonV::Obj(fields) => spec_decode_bare_fields(fields, st),
        _ => Err(ErrV::TypeMismatch { expected: "an object"@ }),
    }
}

/// Decode a `SourceLocation`: an empty object is the unknown location; a
/// `spellingLoc`/`expansionLoc` pair gives distinct points, in that order
/// and with nothing after them; bare-location fields directly on the object
/// mean spelling and expansion coincide.
pub open spec fn spec_decode_loc(j: JsonV, st: SessV) -> Result<(LocV, SessV), ErrV> {
    match j {
        JsonV::Obj(fields) => {
            if fields.len() == 0 {
                Ok((LocV { spelling: None, expansion: None }, st))
            } else if fields[0].0 == "spellingLoc"@ {
                match spec_decode_bare(fields[0].1, st) {
                    Err(e) => Err(e),
                    Ok((sp, st1)) => {
                        if fields.len() < 2 {
                            Err(ErrV::MissingField { field: "expansionLoc"@, kind: None })
                        } else if fields[1].0 != "expansionLoc"@ {
                            Err(ErrV::UnknownField { field: fields[1].0, kind: None })
                        } else {
                            match spec_decode_bare(fields[1].1, st1) {
                                Err(e) => Err(e),
                                Ok((ex, st2)) => {
                                    if fields.len() > 2 {
                                        Err(ErrV::UnknownField { field: fields[2].0, kind: None })
                                    } else {
                                        Ok((LocV { spelling: Some(sp), expansion: Some(ex) }, st2))
                                    }
                                },
                            }
                        }
                    },
                }
            } else if fields[0].0 == "offset"@ {
                match spec_decode_bare_fields(fields, st) {
                    Err(e) => Err(e),
                    Ok((b, st1)) => Ok((LocV { spelling: Some(b), expansion: Some(b) }, st1)),
                }
            } else {
                Err(ErrV::UnknownField { field: fields[0].0, kind: None })
            }
        },
        _ => Err(ErrV::TypeMismatch { expected: "an object"@ }),
    }
}

/// Decoding state of a range object.
pub struct RangeAcc {
    pub begin: Option<LocV>,
    pub end: Option<LocV>,
    pub st: SessV,
}

/// One field of a range: `begin` and `end`, each at most once, in any
/// order; values are decoded in arrival order, which matters for the cursor.
pub open spec fn range_step(acc: RangeAcc, name: Seq<char>, value: JsonV) -> Result<
    RangeAcc,
    ErrV,
> {
    if name == "begin"@ {
        if acc.begin is Some {
            Err(ErrV::DuplicateField { field: "begin"@ })
        } else {
            match spec_decode_loc(value, acc.st) {
                Ok((l, st)) => Ok(RangeAcc { begin: Some(l), st, ..acc }),
                Err(e) => Err(e),
            }
        }
    } else if name == "end"@ {
        if acc.end is Some {
            Err(ErrV::DuplicateField { field: "end"@ })
        } else {
            match spec_decode_loc(value, acc.st) {
                Ok((l, st)) => Ok(RangeAcc { end: Some(l), st, ..acc }),
                Err(e) => Err(e),
            }
        }
    } else {
        Err(ErrV::UnknownField { field: name, kind: None })
    }
}

/// Fold `range_step` over the fields from position `i` on.
pub open spec fn range_fold(fields: Seq<(Seq<char>, JsonV)>, i: int, acc: RangeAcc) -> Result<
    RangeAcc,
    ErrV,
>
    decreases fields.len() - i,
    when 0 <= i <= fields.len()
{
    if i == fields.len() {
        Ok(acc)
    } else {
        match range_step(acc, fields[i].0, fields[i].1) {
            Ok(a) => range_fold(fields, i + 1, a),
            Err(e) => Err(e),
        }
    }
}

/// Decode a `SourceRange`: an object with mandatory `begin` and `end`.
pub open spec fn spec_decode_range(j: JsonV, st: SessV) -> Result<(RangeV, SessV), ErrV> {
    match j {
        JsonV::Obj(fields) => {
            match range_fold(fields, 0, RangeAcc { begin: None, end: None, st }) {
                Err(e) => Err(e),
                Ok(acc) => match acc.begin {
                    None => Err(ErrV::MissingField { field: "begin"@, kind: None }),
                    Some(begin) => match acc.end {
                        None => Err(ErrV::MissingField { field: "end"@, kind: None }),
                        Some(end) => Ok((RangeV { begin, end }, acc.st)),
                    },
                },
            }
        },
        _ => Err(ErrV::TypeMismatch { expected: "an object"@ }),
    }
}


// ---------------------------------------------------------------------------
// Decoding, executable and proved against the specification above.
// ---------------------------------------------------------------------------

/// Interner growth: every handle valid in `a` is valid in `b` and resolves
/// to the same string.
pub open spec fn st_extends(a: SessV, b: SessV) -> bool {
    &&& a.strings.len() <= b.strings.len()
    &&& forall|i: int| 0 <= i < a.strings.len() ==> b.strings[i] == a.strings[i]
}

/// Demand a string value.
fn want_str<'a>(j: &'a Json) -> (r: Result<&'a String, Error>)
    ensures
        match as_str_value(jview(*j)) {
            Ok(s) => (r matches Ok(v) && v@ == s),
            Err(e) => (r matches Err(err) && err@ == e),
        },
{
    match j {
        Json::Str(s) => Ok(s),
        _ => Err(Error::TypeMismatch { expected: String::from_str("a string") }),
    }
}

/// Demand an unsigned 64-bit integer value.
fn want_u64(j: &Json) -> (r: Result<u64, Error>)
    ensures
        match as_u64_value(jview(*j)) {
            Ok(n) => (r matches Ok(v) && v == n),
            Err(e) => (r matches Err(err) && err@ == e),
        },
{
    match j {
        Json::Int(n) => {
            if 0 <= *n && *n < 0x1_0000_0000_0000_0000i128 {
                Ok(*n as u64)
            } else {
                Err(Error::TypeMismatch {
                    expected: String::from_str("an unsigned 64-bit integer"),
                })
            }
        },
        _ => Err(Error::TypeMismatch { expected: String::from_str("an unsigned 64-bit integer") }),
    }
}

/// Demand a boolean value.
fn want_bool(j: &Json) -> (r: Result<bool, Error>)
    ensures
        match as_bool_value(jview(*j)) {
            Ok(b) => (r matches Ok(v) && v == b),
            Err(e) => (r matches Err(err) && err@ == e),
        },
{
    match j {
        Json::Bool(b) => Ok(*b),
        _ => Err(Error::TypeMismatch { expected: String::from_str("a boolean") }),
    }
}

/// How an executable decode result relates to its specification: on a
/// specified success the value's abstraction and the final session state are
/// the specified ones; on a specified error, that error is returned.
pub open spec fn outcome<T: View>(
    r: Result<T, Error>,
    s: Result<(<T as View>::V, SessV), ErrV>,
    stf: SessV,
) -> bool {
    match s {
        Ok(p) => r matches Ok(v) && v@ == p.0 && stf == p.1,
        Err(e) => r matches Err(err) && err@ == e,
    }
}

/// The handle index of an optional handle.
pub open spec fn opt_handle(h: Option<IStr>) -> Option<int> {
    match h {
        Some(h) => Some(h.index as int),
        None => None,
    }
}

/// An optional handle points into a table of `n` strings.
pub open spec fn opt_handle_wf(h: Option<IStr>, n: int) -> bool {
    match h {
        Some(h) => h.index < n,
        None => true,
    }
}

/// The include-chain decoding state the executable walk is in.
pub open spec fn inc_acc(seen: bool, file: Option<IStr>, st: SessV) -> IncAcc {
    IncAcc { seen_included_from: seen, file: opt_handle(file), st }
}


/// Decode an `includedFrom` value.
pub fn decode_included_from(j: &Json, sess: &mut Session) -> (r: Result<IncludedFrom, Error>)
    requires
        old(sess).wf(),
    ensures
        final(sess).wf(),
        final(sess).depth() == old(sess).depth(),
        st_extends(old(sess)@, final(sess)@),
        final(sess)@.file == old(sess)@.file,
        final(sess)@.line == old(sess)@.line,
        outcome(r, spec_decode_inc(jview(*j), old(sess)@), final(sess)@),
        (r matches Ok(inc) ==> opt_inc_wf(Some(inc), final(sess)@.strings.len() as int)),
{
    let fields = match j {
        Json::Obj(fields) => fields,
        _ => {
            return Err(Error::TypeMismatch { expected: String::from_str("an object") });
        },
    };
    let ghost fv = jview_fields(fields@);
    proof {
        crate::json::lemma_jview_fields_index(fields@);
        assert(jview(*j) == JsonV::Obj(fv));
    }
    let n = fields.len();
    let mut seen_inc = false;
    let mut file: Option<IStr> = None;
    let mut i: usize = 0;
    while i < n
        invariant
            old(sess).wf(),
            sess.wf(),
            sess.depth() == old(sess).depth(),
            st_extends(old(sess)@, sess@),
            sess@.file == old(sess)@.file,
            sess@.line == old(sess)@.line,
            0 <= i <= n,
            n == fields@.len(),
            fv == jview_fields(fields@),
            fv.len() == n,
            jview(*j) == JsonV::Obj(fv),
            inc_fold(fv, 0, inc_acc(false, None, old(sess)@)) == inc_fold(
                fv,
                i as int,
                inc_acc(seen_inc, file, sess@),
            ),
            opt_handle_wf(file, sess@.strings.len() as int),
        decreases n - i,
    {
        proof {
            crate::json::lemma_jview_fields_index(fields@);
        }
        let name = fields[i].0.as_str();
        if crate::kind::str_eq(name, "includedFrom") {
            if seen_inc {
                return Err(Error::DuplicateField { field: String::from_str("includedFrom") });
            }
            seen_inc = true;
        } else if crate::kind::str_eq(name, "file") {
            if file.is_some() {
                return Err(Error::DuplicateField { field: String::from_str("file") });
            }
            let s = match want_str(&fields[i].1) {
                Ok(s) => s,
                Err(e) => {
                    return Err(e);
                },
            };
            let s = s.clone();
            let h = crate::session::owned(sess, s);
            file = Some(h);
        } else {
            return Err(Error::UnknownField {
                field: fields[i].0.clone(),
                kind: None,
            });
        }
        i = i + 1;
    }
    match file {
        Some(h) => {
            let r = IncludedFrom { included_from: None, file: h };
            proof {
                assert(r@ =~= seq![h.index as int]);
            }
            Ok(r)
        },
        None => Err(Error::MissingField { field: String::from_str("file"), kind: None }),
    }
}

/// The bare-location decoding state the executable walk is in.
pub open spec fn bare_acc(
    file: Option<IStr>,
    line: Option<u64>,
    presumed_file: Option<IStr>,
    presumed_line: Option<u64>,
    col: Option<u64>,
    tok_len: Option<u64>,
    included_from: Option<IncludedFrom>,
    is_macro_arg_expansion: bool,
    st: SessV,
) -> BareAcc {
    BareAcc {
        file: opt_handle(file),
        line,
        presumed_file: opt_handle(presumed_file),
        presumed_line,
        col,
        tok_len,
        included_from: opt_inc_view(included_from),
        is_macro_arg_expansion,
        st,
    }
}

/// Every handle of an optional include chain points into a table of `n`
/// strings.
pub open spec fn opt_inc_wf(i: Option<IncludedFrom>, n: int) -> bool {
    forall|k: int| 0 <= k < opt_inc_view(i).len() ==> 0 <= #[trigger] opt_inc_view(i)[k] < n
}

/// Decode the fields of a bare location object, `offset` first.
fn decode_bare_fields(fields: &Vec<(String, Json)>, sess: &mut Session) -> (r: Result<
    BareSourceLocation,
    Error,
>)
    requires
        old(sess).wf(),
    ensures
        final(sess).wf(),
        final(sess).depth() == old(sess).depth(),
        st_extends(old(sess)@, final(sess)@),
        outcome(r, spec_decode_bare_fields(jview_fields(fields@), old(sess)@), final(sess)@),
{
    let ghost fv = jview_fields(fields@);
    proof {
        crate::json::lemma_jview_fields_index(fields@);
    }
    let n = fields.len();
    if n == 0 {
        return Err(Error::MissingField { field: String::from_str("offset"), kind: None });
    }
    if !crate::kind::str_eq(fields[0].0.as_str(), "offset") {
        return Err(Error::UnknownField { field: fields[0].0.clone(), kind: None });
    }
    let offset = match want_u64(&fields[0].1) {
        Ok(v) => v,
        Err(e) => {
            return Err(e);
        },
    };
    let mut file: Option<IStr> = None;
    let mut line: Option<u64> = None;
    let mut presumed_file: Option<IStr> = None;
    let mut presumed_line: Option<u64> = None;
    let mut col: Option<u64> = None;
    let mut tok_len: Option<u64> = None;
    let mut included_from: Option<IncludedFrom> = None;
    let mut is_macro = false;
    let mut i: usize = 1;
    while i < n
        invariant
            old(sess).wf(),
            sess.wf(),
            sess.depth() == old(sess).depth(),
            st_extends(old(sess)@, sess@),
            sess@.file == old(sess)@.file,
            sess@.line == old(sess)@.line,
            1 <= i <= n,
            n == fields@.len(),
            fv == jview_fields(fields@),
            fv.len() == n,
            fv[0].0 == "offset"@,
            as_u64_value(fv[0].1) == Ok::<u64, ErrV>(offset),
            bare_fold(fv, 1, bare_acc_init(old(sess)@)) == bare_fold(
                fv,
                i as int,
                bare_acc(
                    file,
                    line,
                    presumed_file,
                    presumed_line,
                    col,
                    tok_len,
                    included_from,
                    is_macro,
                    sess@,
                ),
            ),
            opt_handle_wf(file, sess@.strings.len() as int),
            opt_handle_wf(presumed_file, sess@.strings.len() as int),
            opt_inc_wf(included_from, sess@.strings.len() as int),
        decreases n - i,
    {
        proof {
            crate::json::lemma_jview_fields_index(fields@);
        }
        let name = fields[i].0.as_str();
        if crate::kind::str_eq(name, "offset") {
            return Err(Error::DuplicateField { field: String::from_str("offset") });
        } else if crate::kind::str_eq(name, "file") {
            let s = match want_str(&fields[i].1) {
                Ok(s) => s.clone(),
                Err(e) => {
                    return Err(e);
                },
            };
            file = Some(crate::session::owned(sess, s));
        } else if crate::kind::str_eq(name, "line") {
            match want_u64(&fields[i].1) {
                Ok(v) => {
                    line = Some(v);
                },
                Err(e) => {
                    return Err(e);
                },
            }
        } else if crate::kind::str_eq(name, "presumedFile") {
            let s = match want_str(&fields[i].1) {
                Ok(s) => s.clone(),
                Err(e) => {
                    return Err(e);
                },
            };
            presumed_file = Some(crate::session::owned(sess, s));
        } else if crate::kind::str_eq(name, "presumedLine") {
            match want_u64(&fields[i].1) {
                Ok(v) => {
                    presumed_line = Some(v);
                },
                Err(e) => {
                    return Err(e);
                },
            }
        } else if crate::kind::str_eq(name, "col") {
            match want_u64(&fields[i].1) {
                Ok(v) => {
                    col = Some(v);
                },
                Err(e) => {
                    return Err(e);
                },
            }
        } else if crate::kind::str_eq(name, "tokLen") {
            match want_u64(&fields[i].1) {
                Ok(v) => {
                    tok_len = Some(v);
                },
                Err(e) => {
                    return Err(e);
                },
            }
        } else if crate::kind::str_eq(name, "includedFrom") {
            match decode_included_from(&fields[i].1, sess) {
                Ok(inc) => {
                    proof {
                        assert(inc@ == inc_chain(inc));
                    }
                    included_from = Some(inc);
                },
                Err(e) => {
                    return Err(e);
                },
            }
        } else if crate::kind::str_eq(name, "isMacroArgExpansion") {
            match want_bool(&fields[i].1) {
                Ok(b) => {
                    is_macro = b;
                },
                Err(e) => {
                    return Err(e);
                },
            }
        } else {
            return Err(Error::UnknownField { field: fields[i].0.clone(), kind: None });
        }
        i = i + 1;
    }
    let file_h = match file {
        Some(h) => {
            sess.set_last_file(h);
            h
        },
        None => sess.last_file(),
    };
    let line_v = match line {
        Some(v) => {
            sess.set_last_line(v);
            v
        },
        None => sess.last_line(),
    };
    let col_v = match col {
        Some(v) => v,
        None => {
            return Err(Error::MissingField { field: String::from_str("col"), kind: None });
        },
    };
    let tok_len_v = match tok_len {
        Some(v) => v,
        None => {
            return Err(Error::MissingField { field: String::from_str("tokLen"), kind: None });
        },
    };
    Ok(BareSourceLocation {
        offset,
        file: file_h,
        line: line_v,
        presumed_file,
        presumed_line,
        col: col_v,
        tok_len: tok_len_v,
        included_from,
        is_macro_arg_expansion: is_macro,
    })
}

/// Decode a `BareSourceLocation` value.
pub fn decode_bare_source_location(j: &Json, sess: &mut Session) -> (r: Result<
    BareSourceLocation,
    Error,
>)
    requires
        old(sess).wf(),
    ensures
        final(sess).wf(),
        final(sess).depth() == old(sess).depth(),
        st_extends(old(sess)@, final(sess)@),
        outcome(r, spec_decode_bare(jview(*j), old(sess)@), final(sess)@),
{
    match j {
        Json::Obj(fields) => decode_bare_fields(fields, sess),
        _ => Err(Error::TypeMismatch { expected: String::from_str("an object") }),
    }
}

/// Copy an include chain; the copy denotes the same chain.
fn clone_included_from(i: &IncludedFrom) -> (r: IncludedFrom)
    ensures
        r@ == i@,
    decreases *i,
{
    let parent = match &i.included_from {
        None => None,
        Some(p) => Some(Box::new(clone_included_from(p))),
    };
    IncludedFrom { included_from: parent, file: i.file }
}

/// Copy a bare location; the copy has the same abstraction.
fn clone_bare(l: &BareSourceLocation) -> (r: BareSourceLocation)
    ensures
        r@ == l@,
{
    BareSourceLocation {
        offset: l.offset,
        file: l.file,
        line: l.line,
        presumed_file: l.presumed_file,
        presumed_line: l.presumed_line,
        col: l.col,
        tok_len: l.tok_len,
        included_from: match &l.included_from {
            None => None,
            Some(inc) => Some(clone_included_from(inc)),
        },
        is_macro_arg_expansion: l.is_macro_arg_expansion,
    }
}

/// Decode a `SourceLocation` value.
pub fn decode_source_location(j: &Json, sess: &mut Session) -> (r: Result<SourceLocation, Error>)
    requires
        old(sess).wf(),
    ensures
        final(sess).wf(),
        final(sess).depth() == old(sess).depth(),
        st_extends(old(sess)@, final(sess)@),
        outcome(r, spec_decode_loc(jview(*j), old(sess)@), final(sess)@),
{
    let fields = match j {
        Json::Obj(fields) => fields,
        _ => {
            return Err(Error::TypeMismatch { expected: String::from_str("an object") });
        },
    };
    let ghost fv = jview_fields(fields@);
    proof {
        crate::json::lemma_jview_fields_index(fields@);
        assert(jview(*j) == JsonV::Obj(fv));
    }
    let n = fields.len();
    if n == 0 {
        return Ok(SourceLocation { spelling_loc: None, expansion_loc: None });
    }
    if crate::kind::str_eq(fields[0].0.as_str(), "spellingLoc") {
        let sp = match decode_bare_source_location(&fields[0].1, sess) {
            Ok(l) => l,
            Err(e) => {
                return Err(e);
            },
        };
        if n < 2 {
            return Err(Error::MissingField { field: String::from_str("expansionLoc"), kind: None });
        }
        if !crate::kind::str_eq(fields[1].0.as_str(), "expansionLoc") {
            return Err(Error::UnknownField { field: fields[1].0.clone(), kind: None });
        }
        let ex = match decode_bare_source_location(&fields[1].1, sess) {
            Ok(l) => l,
            Err(e) => {
                return Err(e);
            },
        };
        if n > 2 {
            return Err(Error::UnknownField { field: fields[2].0.clone(), kind: None });
        }
        Ok(SourceLocation { spelling_loc: Some(sp), expansion_loc: Some(ex) })
    } else if crate::kind::str_eq(fields[0].0.as_str(), "offset") {
        let b = match decode_bare_fields(fields, sess) {
            Ok(l) => l,
            Err(e) => {
                return Err(e);
            },
        };
        let b2 = clone_bare(&b);
        Ok(SourceLocation { spelling_loc: Some(b2), expansion_loc: Some(b) })
    } else {
        Err(Error::UnknownField { field: fields[0].0.clone(), kind: None })
    }
}


/// The range decoding state the executable walk is in.
pub open spec fn range_acc(
    begin: Option<SourceLocation>,
    end: Option<SourceLocation>,
    st: SessV,
) -> RangeAcc {
    RangeAcc {
        begin: match begin {
            Some(l) => Some(l@),
            None => None,
        },
        end: match end {
            Some(l) => Some(l@),
            None => None,
        },
        st,
    }
}

/// Decode a `SourceRange` value.
pub fn decode_source_range(j: &Json, sess: &mut Session) -> (r: Result<SourceRange, Error>)
    requires
        old(sess).wf(),
    ensures
        final(sess).wf(),
        final(sess).depth() == old(sess).depth(),
        st_extends(old(sess)@, final(sess)@),
        outcome(r, spec_decode_range(jview(*j), old(sess)@), final(sess)@),
{
    let fields = match j {
        Json::Obj(fields) => fields,
        _ => {
            return Err(Error::TypeMismatch { expected: String::from_str("an object") });
        },
    };
    let ghost fv = jview_fields(fields@);
    proof {
        crate::json::lemma_jview_fields_index(fields@);
        assert(jview(*j) == JsonV::Obj(fv));
    }
    let n = fields.len();
    let mut begin: Option<SourceLocation> = None;
    let mut end: Option<SourceLocation> = None;
    let mut i: usize = 0;
    while i < n
        invariant
            old(sess).wf(),
            sess.wf(),
            sess.depth() == old(sess).depth(),
            st_extends(old(sess)@, sess@),
            0 <= i <= n,
            n == fields@.len(),
            fv == jview_fields(fields@),
            fv.len() == n,
            jview(*j) == JsonV::Obj(fv),
            range_fold(fv, 0, range_acc(None, None, old(sess)@)) == range_fold(
                fv,
                i as int,
                range_acc(begin, end, sess@),
            ),
        decreases n - i,
    {
        proof {
            crate::json::lemma_jview_fields_index(fields@);
        }
        let name = fields[i].0.as_str();
        if crate::kind::str_eq(name, "begin") {
            if begin.is_some() {
                return Err(Error::DuplicateField { field: String::from_str("begin") });
            }
            match decode_source_location(&fields[i].1, sess) {
                Ok(l) => {
                    begin = Some(l);
                },
                Err(e) => {
                    return Err(e);
                },
            }
        } else if crate::kind::str_eq(name, "end") {
            if end.is_some() {
                return Err(Error::DuplicateField { field: String::from_str("end") });
            }
            match decode_source_location(&fields[i].1, sess) {
                Ok(l) => {
                    end = Some(l);
                },
                Err(e) => {
                    return Err(e);
                },
            }
        } else {
            return Err(Error::UnknownField { field: fields[i].0.clone(), kind: None });
        }
        i = i + 1;
    }
    let begin_l = match begin {
        Some(l) => l,
        None => {
            return Err(Error::MissingField { field: String::from_str("begin"), kind: None });
        },
    };
    let end_l = match end {
        Some(l) => l,
        None => {
            return Err(Error::MissingField { field: String::from_str("end"), kind: None });
        },
    };
    Ok(SourceRange { begin: begin_l, end: end_l })
}


// ---------------------------------------------------------------------------
// Encoding: the mirror image, re-applying the delta compression.
// ---------------------------------------------------------------------------

/// Encode an include chain (nearest includer first) as nested objects, the
/// nested chain before the `file` entry.
pub open spec fn spec_encode_inc(chain: Seq<int>, strings: Seq<Seq<char>>) -> JsonV
    decreases chain.len(),
    when chain.len() >= 1
{
    if chain.len() == 1 {
        JsonV::Obj(seq![("file"@, JsonV::Str(strings[chain[0]]))])
    } else {
        JsonV::Obj(
            seq![
                ("includedFrom"@, spec_encode_inc(chain.skip(1), strings)),
                ("file"@, JsonV::Str(strings[chain[0]])),
            ],
        )
    }
}

/// Encode a bare location: `offset` always; `file` only when it differs
/// from the cursor, and then `line` too, since the reader's line cursor is
/// invalidated by the file change; otherwise `line` only when it differs
/// from the cursor; the optional and mandatory rest in fixed order; the
/// `isMacroArgExpansion` flag only when set.
pub open spec fn spec_encode_bare(l: BareLocV, st: SessV) -> (Seq<(Seq<char>, JsonV)>, SessV) {
    let head = seq![("offset"@, JsonV::Int(l.offset as int))];
    let head = if l.file != st.file {
        head + seq![
            ("file"@, JsonV::Str(st.strings[l.file])),
            ("line"@, JsonV::Int(l.line as int)),
        ]
    } else if l.line != st.line {
        head + seq![("line"@, JsonV::Int(l.line as int))]
    } else {
        head
    };
    let head = match l.presumed_file {
        Some(h) => head + seq![("presumedFile"@, JsonV::Str(st.strings[h]))],
        None => head,
    };
    let head = match l.presumed_line {
        Some(n) => head + seq![("presumedLine"@, JsonV::Int(n as int))],
        None => head,
    };
    let head = head + seq![("col"@, JsonV::Int(l.col as int)), ("tokLen"@, JsonV::Int(l.tok_len as int))];
    let head = if l.included_from.len() >= 1 {
        head + seq![("includedFrom"@, spec_encode_inc(l.included_from, st.strings))]
    } else {
        head
    };
    let head = if l.is_macro_arg_expansion {
        head + seq![("isMacroArgExpansion"@, JsonV::Bool(true))]
    } else {
        head
    };
    (head, SessV { file: l.file, line: l.line, ..st })
}

/// Encode a `SourceLocation`: when spelling and expansion are field-wise
/// identical they collapse to a single bare-location object; otherwise each
/// present side is emitted under its own key, spelling first.
pub open spec fn spec_encode_loc(l: LocV, st: SessV) -> (JsonV, SessV) {
    if l.spelling is Some && l.expansion is Some && l.spelling == l.expansion {
        let p = spec_encode_bare(l.spelling->0, st);
        (JsonV::Obj(p.0), p.1)
    } else {
        let p1 = match l.spelling {
            Some(b) => {
                let q = spec_encode_bare(b, st);
                (seq![("spellingLoc"@, JsonV::Obj(q.0))], q.1)
            },
            None => (Seq::empty(), st),
        };
        let p2 = match l.expansion {
            Some(b) => {
                let q = spec_encode_bare(b, p1.1);
                (seq![("expansionLoc"@, JsonV::Obj(q.0))], q.1)
            },
            None => (Seq::empty(), p1.1),
        };
        (JsonV::Obj(p1.0 + p2.0), p2.1)
    }
}

/// Encode a `SourceRange`: `begin` then `end`.
pub open spec fn spec_encode_range(r: RangeV, st: SessV) -> (JsonV, SessV) {
    let p1 = spec_encode_loc(r.begin, st);
    let p2 = spec_encode_loc(r.end, p1.1);
    (JsonV::Obj(seq![("begin"@, p1.0), ("end"@, p2.0)]), p2.1)
}


/// The chain an include link denotes is never empty, and starts with the
/// link's own file handle.
pub proof fn lemma_inc_chain(i: IncludedFrom)
    ensures
        inc_chain(i).len() >= 1,
        inc_chain(i)[0] == i.file.index as int,
    decreases i,
{
    if i.included_from is Some {
        lemma_inc_chain(*i.included_from->0);
    }
}

/// Whether two include chains are the same.
fn inc_eq(x: &IncludedFrom, y: &IncludedFrom) -> (r: bool)
    ensures
        r == (inc_chain(*x) == inc_chain(*y)),
    decreases *x,
{
    proof {
        lemma_inc_chain(*x);
        lemma_inc_chain(*y);
    }
    if !(x.file == y.file) {
        proof {
            assert(inc_chain(*x)[0] != inc_chain(*y)[0]);
        }
        return false;
    }
    match (&x.included_from, &y.included_from) {
        (None, None) => {
            proof {
                assert(inc_chain(*x) =~= inc_chain(*y));
            }
            true
        },
        (Some(px), Some(py)) => {
            let same = inc_eq(px, py);
            proof {
                if same {
                    assert(inc_chain(*x) =~= inc_chain(*y));
                } else {
                    assert(inc_chain(*x).skip(1) =~= inc_chain(**px));
                    assert(inc_chain(*y).skip(1) =~= inc_chain(**py));
                }
            }
            same
        },
        (None, Some(py)) => {
            proof {
                lemma_inc_chain(**py);
                assert(inc_chain(*x).len() == 1);
                assert(inc_chain(*y).len() >= 2);
            }
            false
        },
        (Some(px), None) => {
            proof {
                lemma_inc_chain(**px);
                assert(inc_chain(*x).len() >= 2);
                assert(inc_chain(*y).len() == 1);
            }
            false
        },
    }
}

/// Whether two optional 64-bit values are the same.
fn opt_u64_eq(a: &Option<u64>, b: &Option<u64>) -> (r: bool)
    ensures
        r == (*a == *b),
{
    match (a, b) {
        (None, None) => true,
        (Some(x), Some(y)) => *x == *y,
        _ => false,
    }
}

/// Whether two bare locations are field-wise identical (chains compared by
/// content).
fn bare_eq(a: &BareSourceLocation, b: &BareSourceLocation) -> (r: bool)
    ensures
        r == (a@ == b@),
{
    let files_eq = match (&a.presumed_file, &b.presumed_file) {
        (None, None) => true,
        (Some(x), Some(y)) => x == y,
        _ => false,
    };
    let incs_eq = match (&a.included_from, &b.included_from) {
        (None, None) => true,
        (Some(x), Some(y)) => inc_eq(x, y),
        _ => {
            proof {
                if a.included_from is Some {
                    lemma_inc_chain(a.included_from->0);
                } else {
                    lemma_inc_chain(b.included_from->0);
                }
            }
            false
        },
    };
    let r = a.offset == b.offset && a.file == b.file && a.line == b.line && files_eq
        && opt_u64_eq(&a.presumed_line, &b.presumed_line) && a.col == b.col
        && a.tok_len == b.tok_len && incs_eq
        && a.is_macro_arg_expansion == b.is_macro_arg_expansion;
    r
}

/// One field appended to an object keeps the earlier abstraction and adds
/// its own.
pub proof fn lemma_jview_fields_push(s: Seq<(String, Json)>)
    requires
        s.len() >= 1,
    ensures
        jview_fields(s) == jview_fields(s.drop_last()).push((s.last().0@, jview(s.last().1))),
{
}

/// Encode an include chain.
pub fn encode_included_from(inc: &IncludedFrom, sess: &Session) -> (r: Json)
    requires
        sess.wf(),
        opt_inc_wf(Some(*inc), sess@.strings.len() as int),
    ensures
        jview(r) == spec_encode_inc(inc_chain(*inc), sess@.strings),
    decreases *inc,
{
    proof {
        lemma_inc_chain(*inc);
    }
    let mut out: Vec<(String, Json)> = Vec::new();
    proof {
        assert(jview_fields(out@) =~= Seq::<(Seq<char>, JsonV)>::empty());
    }
    match &inc.included_from {
        None => {},
        Some(p) => {
            proof {
                lemma_inc_chain(**p);
                assert(inc_chain(*inc).skip(1) =~= inc_chain(**p));
                assert forall|k: int| 0 <= k < inc_chain(**p).len() implies 0 <= #[trigger] inc_chain(
                    **p,
                )[k] < sess@.strings.len() by {
                    assert(inc_chain(**p)[k] == inc_chain(*inc)[k + 1]);
                    assert(opt_inc_view(Some(*inc))[k + 1] == inc_chain(*inc)[k + 1]);
                }
            }
            let nested = encode_included_from(p, sess);
            let ghost before = out@;
            out.push((String::from_str("includedFrom"), nested));
            proof {
                lemma_jview_fields_push(out@);
                assert(out@.drop_last() =~= before);
            }
        },
    }
    proof {
        assert(opt_inc_view(Some(*inc))[0] == inc_chain(*inc)[0]);
    }
    let file_str = sess.resolve(inc.file).clone();
    let ghost before = out@;
    let entry_val = Json::Str(file_str);
    out.push((String::from_str("file"), entry_val));
    proof {
        lemma_jview_fields_push(out@);
        assert(out@.drop_last() =~= before);
        if inc.included_from is Some {
            assert(jview_fields(out@) =~= seq![
                ("includedFrom"@, spec_encode_inc(inc_chain(*inc).skip(1), sess@.strings)),
                ("file"@, JsonV::Str(sess@.strings[inc_chain(*inc)[0]])),
            ]);
        } else {
            assert(jview_fields(out@) =~= seq![
                ("file"@, JsonV::Str(sess@.strings[inc_chain(*inc)[0]])),
            ]);
            assert(inc_chain(*inc).len() == 1);
        }
    }
    Json::Obj(out)
}


/// Append one field to an object under construction, tracking its
/// abstraction.
pub(crate) fn push_field(out: &mut Vec<(String, Json)>, name: String, value: Json)
    ensures
        jview_fields(final(out)@) == jview_fields(old(out)@).push((name@, jview(value))),
{
    let ghost before = out@;
    out.push((name, value));
    proof {
        lemma_jview_fields_push(out@);
        assert(out@.drop_last() =~= before);
    }
}

/// Encode a bare location's fields, updating the cursor.
pub fn encode_bare_source_location(l: &BareSourceLocation, sess: &mut Session) -> (r: Vec<
    (String, Json),
>)
    requires
        old(sess).wf(),
        bare_wf(l@, old(sess)@.strings.len() as int),
    ensures
        final(sess).wf(),
        final(sess).depth() == old(sess).depth(),
        final(sess)@.strings == old(sess)@.strings,
        jview_fields(r@) == spec_encode_bare(l@, old(sess)@).0,
        final(sess)@ == spec_encode_bare(l@, old(sess)@).1,
{
    let ghost st0 = old(sess)@;
    let ghost expect = spec_encode_bare(l@, old(sess)@).0;
    let mut out: Vec<(String, Json)> = Vec::new();
    proof {
        assert(jview_fields(out@) =~= Seq::<(Seq<char>, JsonV)>::empty());
    }
    push_field(&mut out, String::from_str("offset"), Json::Int(l.offset as i128));
    if !(l.file == sess.last_file()) {
        let file_str = sess.resolve(l.file).clone();
        push_field(&mut out, String::from_str("file"), Json::Str(file_str));
        push_field(&mut out, String::from_str("line"), Json::Int(l.line as i128));
        sess.set_last_file(l.file);
        sess.set_last_line(l.line);
    } else if !(l.line == sess.last_line()) {
        push_field(&mut out, String::from_str("line"), Json::Int(l.line as i128));
        sess.set_last_line(l.line);
    }
    if let Some(h) = l.presumed_file {
        let fs = sess.resolve(h).clone();
        push_field(&mut out, String::from_str("presumedFile"), Json::Str(fs));
    }
    if let Some(n) = l.presumed_line {
        push_field(&mut out, String::from_str("presumedLine"), Json::Int(n as i128));
    }
    push_field(&mut out, String::from_str("col"), Json::Int(l.col as i128));
    push_field(&mut out, String::from_str("tokLen"), Json::Int(l.tok_len as i128));
    if let Some(inc) = &l.included_from {
        let nested = encode_included_from(inc, sess);
        push_field(&mut out, String::from_str("includedFrom"), nested);
    }
    if l.is_macro_arg_expansion {
        push_field(&mut out, String::from_str("isMacroArgExpansion"), Json::Bool(true));
    }
    proof {
        assert(jview_fields(out@) =~= expect);
    }
    out
}

/// Encode a `SourceLocation`, collapsing identical spelling and expansion
/// sides into the single bare form.
pub fn encode_source_location(l: &SourceLocation, sess: &mut Session) -> (r: Json)
    requires
        old(sess).wf(),
        loc_wf(l@, old(sess)@.strings.len() as int),
    ensures
        final(sess).wf(),
        final(sess).depth() == old(sess).depth(),
        final(sess)@.strings == old(sess)@.strings,
        jview(r) == spec_encode_loc(l@, old(sess)@).0,
        final(sess)@ == spec_encode_loc(l@, old(sess)@).1,
{
    let collapse = match (&l.spelling_loc, &l.expansion_loc) {
        (Some(sp), Some(ex)) => bare_eq(sp, ex),
        _ => false,
    };
    if collapse {
        if let Some(sp) = &l.spelling_loc {
            let fields = encode_bare_source_location(sp, sess);
            return Json::Obj(fields);
        }
    }
    let mut out: Vec<(String, Json)> = Vec::new();
    proof {
        assert(jview_fields(out@) =~= Seq::<(Seq<char>, JsonV)>::empty());
    }
    if let Some(sp) = &l.spelling_loc {
        let fields = encode_bare_source_location(sp, sess);
        push_field(&mut out, String::from_str("spellingLoc"), Json::Obj(fields));
    }
    if let Some(ex) = &l.expansion_loc {
        let fields = encode_bare_source_location(ex, sess);
        push_field(&mut out, String::from_str("expansionLoc"), Json::Obj(fields));
    }
    proof {
        assert(jview_fields(out@) =~= spec_encode_loc(l@, old(sess)@).0->Obj_0);
    }
    Json::Obj(out)
}

/// Encode a `SourceRange`.
pub fn encode_source_range(r0: &SourceRange, sess: &mut Session) -> (r: Json)
    requires
        old(sess).wf(),
        range_wf(r0@, old(sess)@.strings.len() as int),
    ensures
        final(sess).wf(),
        final(sess).depth() == old(sess).depth(),
        final(sess)@.strings == old(sess)@.strings,
        jview(r) == spec_encode_range(r0@, old(sess)@).0,
        final(sess)@ == spec_encode_range(r0@, old(sess)@).1,
{
    let mut out: Vec<(String, Json)> = Vec::new();
    proof {
        assert(jview_fields(out@) =~= Seq::<(Seq<char>, JsonV)>::empty());
    }
    let b = encode_source_location(&r0.begin, sess);
    push_field(&mut out, String::from_str("begin"), b);
    let e = encode_source_location(&r0.end, sess);
    push_field(&mut out, String::from_str("end"), e);
    proof {
        assert(jview_fields(out@) =~= spec_encode_range(r0@, old(sess)@).0->Obj_0);
    }
    Json::Obj(out)
}


// ---------------------------------------------------------------------------
// Round-trip laws.
// ---------------------------------------------------------------------------

/// The wire field names are pairwise distinct strings.
pub proof fn lemma_field_names_distinct()
    ensures
        !("offset"@ == "file"@),
        !("offset"@ == "line"@),
        !("offset"@ == "presumedFile"@),
        !("offset"@ == "presumedLine"@),
        !("offset"@ == "col"@),
        !("offset"@ == "tokLen"@),
        !("offset"@ == "includedFrom"@),
        !("offset"@ == "isMacroArgExpansion"@),
        !("offset"@ == "spellingLoc"@),
        !("offset"@ == "expansionLoc"@),
        !("offset"@ == "begin"@),
        !("offset"@ == "end"@),
        !("offset"@ == "id"@),
        !("offset"@ == "kind"@),
        !("offset"@ == "inner"@),
        !("file"@ == "line"@),
        !("file"@ == "presumedFile"@),
        !("file"@ == "presumedLine"@),
        !("file"@ == "col"@),
        !("file"@ == "tokLen"@),
        !("file"@ == "includedFrom"@),
        !("file"@ == "isMacroArgExpansion"@),
        !("file"@ == "spellingLoc"@),
        !("file"@ == "expansionLoc"@),
        !("file"@ == "begin"@),
        !("file"@ == "end"@),
        !("file"@ == "id"@),
        !("file"@ == "kind"@),
        !("file"@ == "inner"@),
        !("line"@ == "presumedFile"@),
        !("line"@ == "presumedLine"@),
        !("line"@ == "col"@),
        !("line"@ == "tokLen"@),
        !("line"@ == "includedFrom"@),
        !("line"@ == "isMacroArgExpansion"@),
        !("line"@ == "spellingLoc"@),
        !("line"@ == "expansionLoc"@),
        !("line"@ == "begin"@),
        !("line"@ == "end"@),
        !("line"@ == "id"@),
        !("line"@ == "kind"@),
        !("line"@ == "inner"@),
        !("presumedFile"@ == "presumedLine"@),
        !("presumedFile"@ == "col"@),
        !("presumedFile"@ == "tokLen"@),
        !("presumedFile"@ == "includedFrom"@),
        !("presumedFile"@ == "isMacroArgExpansion"@),
        !("presumedFile"@ == "spellingLoc"@),
        !("presumedFile"@ == "expansionLoc"@),
        !("presumedFile"@ == "begin"@),
        !("presumedFile"@ == "end"@),
        !("presumedFile"@ == "id"@),
        !("presumedFile"@ == "kind"@),
        !("presumedFile"@ == "inner"@),
        !("presumedLine"@ == "col"@),
        !("presumedLine"@ == "tokLen"@),
        !("presumedLine"@ == "includedFrom"@),
        !("presumedLine"@ == "isMacroArgExpansion"@),
        !("presumedLine"@ == "spellingLoc"@),
        !("presumedLine"@ == "expansionLoc"@),
        !("presumedLine"@ == "begin"@),
        !("presumedLine"@ == "end"@),
        !("presumedLine"@ == "id"@),
        !("presumedLine"@ == "kind"@),
        !("presumedLine"@ == "inner"@),
        !("col"@ == "tokLen"@),
        !("col"@ == "includedFrom"@),
        !("col"@ == "isMacroArgExpansion"@),
        !("col"@ == "spellingLoc"@),
        !("col"@ == "expansionLoc"@),
        !("col"@ == "begin"@),
        !("col"@ == "end"@),
        !("col"@ == "id"@),
        !("col"@ == "kind"@),
        !("col"@ == "inner"@),
        !("tokLen"@ == "includedFrom"@),
        !("tokLen"@ == "isMacroArgExpansion"@),
        !("tokLen"@ == "spellingLoc"@),
        !("tokLen"@ == "expansionLoc"@),
        !("tokLen"@ == "begin"@),
        !("tokLen"@ == "end"@),
        !("tokLen"@ == "id"@),
        !("tokLen"@ == "kind"@),
        !("tokLen"@ == "inner"@),
        !("includedFrom"@ == "isMacroArgExpansion"@),
        !("includedFrom"@ == "spellingLoc"@),
        !("includedFrom"@ == "expansionLoc"@),
        !("includedFrom"@ == "begin"@),
        !("includedFrom"@ == "end"@),
        !("includedFrom"@ == "id"@),
        !("includedFrom"@ == "kind"@),
        !("includedFrom"@ == "inner"@),
        !("isMacroArgExpansion"@ == "spellingLoc"@),
        !("isMacroArgExpansion"@ == "expansionLoc"@),
        !("isMacroArgExpansion"@ == "begin"@),
        !("isMacroArgExpansion"@ == "end"@),
        !("isMacroArgExpansion"@ == "id"@),
        !("isMacroArgExpansion"@ == "kind"@),
        !("isMacroArgExpansion"@ == "inner"@),
        !("spellingLoc"@ == "expansionLoc"@),
        !("spellingLoc"@ == "begin"@),
        !("spellingLoc"@ == "end"@),
        !("spellingLoc"@ == "id"@),
        !("spellingLoc"@ == "kind"@),
        !("spellingLoc"@ == "inner"@),
        !("expansionLoc"@ == "begin"@),
        !("expansionLoc"@ == "end"@),
        !("expansionLoc"@ == "id"@),
        !("expansionLoc"@ == "kind"@),
        !("expansionLoc"@ == "inner"@),
        !("begin"@ == "end"@),
        !("begin"@ == "id"@),
        !("begin"@ == "kind"@),
        !("begin"@ == "inner"@),
        !("end"@ == "id"@),
        !("end"@ == "kind"@),
        !("end"@ == "inner"@),
        !("id"@ == "kind"@),
        !("id"@ == "inner"@),
        !("kind"@ == "inner"@),
{
    reveal_strlit("offset");
    reveal_strlit("file");
    reveal_strlit("line");
    reveal_strlit("presumedFile");
    reveal_strlit("presumedLine");
    reveal_strlit("col");
    reveal_strlit("tokLen");
    reveal_strlit("includedFrom");
    reveal_strlit("isMacroArgExpansion");
    reveal_strlit("spellingLoc");
    reveal_strlit("expansionLoc");
    reveal_strlit("begin");
    reveal_strlit("end");
    reveal_strlit("id");
    reveal_strlit("kind");
    reveal_strlit("inner");
    assert("offset"@.len() == 6);
    assert("file"@.len() == 4);
    assert("line"@.len() == 4);
    assert("presumedFile"@.len() == 12);
    assert("presumedLine"@.len() == 12);
    assert("col"@.len() == 3);
    assert("tokLen"@.len() == 6);
    assert("includedFrom"@.len() == 12);
    assert("isMacroArgExpansion"@.len() == 19);
    assert("spellingLoc"@.len() == 11);
    assert("expansionLoc"@.len() == 12);
    assert("begin"@.len() == 5);
    assert("end"@.len() == 3);
    assert("id"@.len() == 2);
    assert("kind"@.len() == 4);
    assert("inner"@.len() == 5);
    assert("offset"@[0] == 'o');
    assert("tokLen"@[0] == 't');
    assert("file"@[0] == 'f');
    assert("line"@[0] == 'l');
    assert("file"@[0] == 'f');
    assert("kind"@[0] == 'k');
    assert("line"@[0] == 'l');
    assert("kind"@[0] == 'k');
    assert("presumedFile"@[8] == 'F');
    assert("presumedLine"@[8] == 'L');
    assert("presumedFile"@[0] == 'p');
    assert("includedFrom"@[0] == 'i');
    assert("presumedFile"@[0] == 'p');
    assert("expansionLoc"@[0] == 'e');
    assert("presumedLine"@[0] == 'p');
    assert("includedFrom"@[0] == 'i');
    assert("presumedLine"@[0] == 'p');
    assert("expansionLoc"@[0] == 'e');
    assert("col"@[0] == 'c');
    assert("end"@[0] == 'e');
    assert("includedFrom"@[0] == 'i');
    assert("expansionLoc"@[0] == 'e');
    assert("begin"@[0] == 'b');
    assert("inner"@[0] == 'i');
}

/// A bare location as decoding produces it: all handles valid in a table of
/// `nstr` strings, and an include chain of at most one link (decoding never
/// reconstructs deeper chains).
pub open spec fn bare_canonical_n(l: BareLocV, nstr: int) -> bool {
    &&& bare_wf(l, nstr)
    &&& l.included_from.len() <= 1
}

/// A bare location as decoding produces it, relative to a session state.
pub open spec fn bare_canonical(l: BareLocV, st: SessV) -> bool {
    bare_canonical_n(l, st.strings.len() as int)
}

/// Encoding a canonical bare location from cursor state `st` and decoding
/// the emitted fields from the same state reconstructs the location exactly,
/// and leaves decoder and encoder in the same state.
/// Encoding a one-link include chain and decoding it yields the chain and
/// leaves the state untouched.
pub proof fn lemma_inc_round_trip(chain: Seq<int>, st: SessV)
    requires
        st.wf(),
        crate::intern::strings_distinct(st.strings),
        chain.len() == 1,
        0 <= chain[0] < st.strings.len(),
    ensures
        spec_decode_inc(spec_encode_inc(chain, st.strings), st) == Ok::<(Seq<int>, SessV), ErrV>(
            (chain, st),
        ),
{
    reveal_with_fuel(inc_fold, 3);
    lemma_field_names_distinct();
    crate::intern::lemma_intern_existing(st.strings, chain[0]);
    let j = spec_encode_inc(chain, st.strings);
    let fields = j->Obj_0;
    let init = IncAcc { seen_included_from: false, file: None, st };
    assert(fields.len() == 1);
    assert(fields[0].0 == "file"@);
    assert(fields[0].1 == JsonV::Str(st.strings[chain[0]]));
    let step0 = inc_step(init, fields[0].0, fields[0].1);
    assert(step0 is Ok);
    let a = step0->Ok_0;
    assert(a.file == Some(chain[0]));
    assert(a.st.strings == st.strings);
    assert(a.st == st);
    assert(inc_fold(fields, 0, init) == inc_fold(fields, 1, a));
    assert(inc_fold(fields, 1, a) == Ok::<IncAcc, ErrV>(a));
    let q = spec_decode_inc(j, st);
    assert(q->Ok_0.0 =~= chain);
}

/// Encoding a canonical bare location from cursor state `st` and decoding
/// the emitted fields from the same state reconstructs the location exactly,
/// and leaves decoder and encoder in the same state.
#[verifier::rlimit(60)]
#[verifier::spinoff_prover]
pub proof fn lemma_bare_round_trip(l: BareLocV, st: SessV)
    requires
        st.wf(),
        crate::intern::strings_distinct(st.strings),
        bare_canonical(l, st),
    ensures
        spec_decode_bare_fields(spec_encode_bare(l, st).0, st) == Ok::<(BareLocV, SessV), ErrV>(
            (l, spec_encode_bare(l, st).1),
        ),
{
    reveal_with_fuel(bare_fold, 3);
    lemma_field_names_distinct();
    let p = spec_encode_bare(l, st);
    let fields = p.0;
    crate::intern::lemma_intern_existing(st.strings, l.file);
    let a0 = bare_acc_init(st);
    let s1 = if l.file != st.file {
        assert(fields[1] == ("file"@, JsonV::Str(st.strings[l.file])));
        assert(fields[2] == ("line"@, JsonV::Int(l.line as int)));
        let stepf = bare_step(a0, fields[1].0, fields[1].1);
        assert(stepf is Ok);
        let af = stepf->Ok_0;
        assert(af.st.strings == st.strings);
        assert(af.st == st);
        assert(af == (BareAcc { file: Some(l.file), ..a0 }));
        assert(bare_fold(fields, 1, a0) == bare_fold(fields, 2, af));
        let a = BareAcc { file: Some(l.file), line: Some(l.line), ..a0 };
        assert(bare_step(af, fields[2].0, fields[2].1) == Ok::<BareAcc, ErrV>(a));
        assert(bare_fold(fields, 2, af) == bare_fold(fields, 3, a));
        (3int, a)
    } else if l.line != st.line {
        assert(fields[1] == ("line"@, JsonV::Int(l.line as int)));
        let a = BareAcc { line: Some(l.line), ..a0 };
        assert(bare_fold(fields, 1, a0) == bare_fold(fields, 2, a));
        (2int, a)
    } else {
        (1int, a0)
    };
    let (i1, a1) = s1;
    let s2 = match l.presumed_file {
        Some(h) => {
            crate::intern::lemma_intern_existing(st.strings, h);
            assert(fields[i1] == ("presumedFile"@, JsonV::Str(st.strings[h])));
            let stepp = bare_step(a1, fields[i1].0, fields[i1].1);
            assert(stepp is Ok);
            let ap = stepp->Ok_0;
            assert(ap.st.strings == a1.st.strings);
            assert(ap.st == a1.st);
            let a = BareAcc { presumed_file: Some(h), ..a1 };
            assert(ap == a);
            assert(bare_fold(fields, i1, a1) == bare_fold(fields, i1 + 1, a));
            (i1 + 1, a)
        },
        None => (i1, a1),
    };
    let (i2, a2) = s2;
    let s3 = match l.presumed_line {
        Some(n) => {
            assert(fields[i2] == ("presumedLine"@, JsonV::Int(n as int)));
            let a = BareAcc { presumed_line: Some(n), ..a2 };
            assert(bare_fold(fields, i2, a2) == bare_fold(fields, i2 + 1, a));
            (i2 + 1, a)
        },
        None => (i2, a2),
    };
    let (i3, a3) = s3;
    assert(fields[i3] == ("col"@, JsonV::Int(l.col as int)));
    assert(fields[i3 + 1] == ("tokLen"@, JsonV::Int(l.tok_len as int)));
    let a3c = BareAcc { col: Some(l.col), ..a3 };
    assert(bare_step(a3, fields[i3].0, fields[i3].1) == Ok::<BareAcc, ErrV>(a3c));
    assert(bare_fold(fields, i3, a3) == bare_fold(fields, i3 + 1, a3c));
    let a4 = BareAcc { col: Some(l.col), tok_len: Some(l.tok_len), ..a3 };
    assert(bare_step(a3c, fields[i3 + 1].0, fields[i3 + 1].1) == Ok::<BareAcc, ErrV>(a4));
    assert(bare_fold(fields, i3 + 1, a3c) == bare_fold(fields, i3 + 2, a4));
    let i4 = i3 + 2;
    let s5 = if l.included_from.len() == 1 {
        assert(0 <= l.included_from[0] < st.strings.len());
        lemma_inc_round_trip(l.included_from, st);
        assert(fields[i4] == ("includedFrom"@, spec_encode_inc(l.included_from, st.strings)));
        let a = BareAcc { included_from: l.included_from, ..a4 };
        assert(bare_fold(fields, i4, a4) == bare_fold(fields, i4 + 1, a));
        (i4 + 1, a)
    } else {
        assert(l.included_from =~= Seq::<int>::empty());
        (i4, a4)
    };
    let (i5, a5) = s5;
    let s6 = if l.is_macro_arg_expansion {
        assert(fields[i5] == ("isMacroArgExpansion"@, JsonV::Bool(true)));
        let a = BareAcc { is_macro_arg_expansion: true, ..a5 };
        assert(bare_fold(fields, i5, a5) == bare_fold(fields, i5 + 1, a));
        (i5 + 1, a)
    } else {
        (i5, a5)
    };
    let (i6, a6) = s6;
    assert(i6 == fields.len());
    assert(bare_fold(fields, i6, a6) == Ok::<BareAcc, ErrV>(a6));
    assert(bare_fold(fields, 1, a0) == Ok::<BareAcc, ErrV>(a6));
    assert(bare_finish(l.offset, a6) == Ok::<(BareLocV, SessV), ErrV>((l, p.1)));
    assert(fields[0] == ("offset"@, JsonV::Int(l.offset as int)));
}


/// A location as decoding produces it: both sides absent, or both present
/// and canonical in a table of `nstr` strings.
pub open spec fn loc_canonical_n(l: LocV, nstr: int) -> bool {
    match (l.spelling, l.expansion) {
        (None, None) => true,
        (Some(a), Some(b)) => bare_canonical_n(a, nstr) && bare_canonical_n(b, nstr),
        _ => false,
    }
}

/// A location as decoding produces it, relative to a session state.
pub open spec fn loc_canonical(l: LocV, st: SessV) -> bool {
    loc_canonical_n(l, st.strings.len() as int)
}

/// Encoding a canonical location and decoding the result reconstructs it
/// exactly, with matching final states.
pub proof fn lemma_loc_round_trip(l: LocV, st: SessV)
    requires
        st.wf(),
        crate::intern::strings_distinct(st.strings),
        loc_canonical(l, st),
    ensures
        spec_decode_loc(spec_encode_loc(l, st).0, st) == Ok::<(LocV, SessV), ErrV>(
            (l, spec_encode_loc(l, st).1),
        ),
{
    lemma_field_names_distinct();
    let p = spec_encode_loc(l, st);
    if l.spelling is Some && l.expansion is Some && l.spelling == l.expansion {
        let sp = l.spelling->0;
        lemma_bare_round_trip(sp, st);
        let q = spec_encode_bare(sp, st);
        assert(q.0[0] == ("offset"@, JsonV::Int(sp.offset as int)));
        assert(spec_decode_loc(JsonV::Obj(q.0), st) == Ok::<(LocV, SessV), ErrV>((l, q.1)));
    } else {
        match (l.spelling, l.expansion) {
            (None, None) => {
                assert(p.0->Obj_0 =~= Seq::<(Seq<char>, JsonV)>::empty());
            },
            (Some(sp), Some(ex)) => {
                lemma_bare_round_trip(sp, st);
                let q1 = spec_encode_bare(sp, st);
                let st1 = q1.1;
                assert(st1.wf());
                lemma_bare_round_trip(ex, st1);
                let q2 = spec_encode_bare(ex, st1);
                let fields = p.0->Obj_0;
                assert(fields =~= seq![
                    ("spellingLoc"@, JsonV::Obj(q1.0)),
                    ("expansionLoc"@, JsonV::Obj(q2.0)),
                ]);
                assert(spec_decode_bare(JsonV::Obj(q1.0), st) == Ok::<(BareLocV, SessV), ErrV>(
                    (sp, st1),
                ));
                assert(spec_decode_bare(JsonV::Obj(q2.0), st1) == Ok::<(BareLocV, SessV), ErrV>(
                    (ex, q2.1),
                ));
            },
            _ => {},
        }
    }
}

/// A range as decoding produces it, in a table of `nstr` strings.
pub open spec fn range_canonical_n(r: RangeV, nstr: int) -> bool {
    loc_canonical_n(r.begin, nstr) && loc_canonical_n(r.end, nstr)
}

/// A range as decoding produces it, relative to a session state.
pub open spec fn range_canonical(r: RangeV, st: SessV) -> bool {
    range_canonical_n(r, st.strings.len() as int)
}

/// Encoding a location moves only the cursor: the string table is kept, and
/// well-formedness survives when the location's handles are valid.
pub proof fn lemma_encode_loc_state(l: LocV, st: SessV)
    ensures
        spec_encode_loc(l, st).1.strings == st.strings,
        st.wf() && loc_wf(l, st.strings.len() as int) ==> spec_encode_loc(l, st).1.wf(),
{
}

/// Encoding a range moves only the cursor, as for locations.
pub proof fn lemma_encode_range_state(r: RangeV, st: SessV)
    ensures
        spec_encode_range(r, st).1.strings == st.strings,
        st.wf() && range_wf(r, st.strings.len() as int) ==> spec_encode_range(r, st).1.wf(),
{
    lemma_encode_loc_state(r.begin, st);
    lemma_encode_loc_state(r.end, spec_encode_loc(r.begin, st).1);
}

/// Encoding a canonical range and decoding the result reconstructs it
/// exactly, with matching final states.
pub proof fn lemma_range_round_trip(r: RangeV, st: SessV)
    requires
        st.wf(),
        crate::intern::strings_distinct(st.strings),
        range_canonical(r, st),
    ensures
        spec_decode_range(spec_encode_range(r, st).0, st) == Ok::<(RangeV, SessV), ErrV>(
            (r, spec_encode_range(r, st).1),
        ),
{
    reveal_with_fuel(range_fold, 4);
    lemma_field_names_distinct();
    let p1 = spec_encode_loc(r.begin, st);
    let st1 = p1.1;
    lemma_loc_round_trip(r.begin, st);
    assert(st1.strings == st.strings);
    assert(loc_canonical(r.end, st1));
    lemma_loc_round_trip(r.end, st1);
    let p2 = spec_encode_loc(r.end, st1);
    let fields = spec_encode_range(r, st).0->Obj_0;
    let init = RangeAcc { begin: None, end: None, st };
    let a1 = RangeAcc { begin: Some(r.begin), end: None, st: st1 };
    assert(range_step(init, fields[0].0, fields[0].1) == Ok::<RangeAcc, ErrV>(a1));
    assert(range_fold(fields, 0, init) == range_fold(fields, 1, a1));
    let a2 = RangeAcc { begin: Some(r.begin), end: Some(r.end), st: p2.1 };
    assert(range_step(a1, fields[1].0, fields[1].1) == Ok::<RangeAcc, ErrV>(a2));
    assert(range_fold(fields, 1, a1) == range_fold(fields, 2, a2));
}


/// Decode a list of bare-location objects in order, threading the cursor.
pub open spec fn spec_decode_bare_list(js: Seq<JsonV>, st: SessV) -> Result<
    (Seq<BareLocV>, SessV),
    ErrV,
>
    decreases js.len(),
{
    if js.len() == 0 {
        Ok((Seq::empty(), st))
    } else {
        match spec_decode_bare(js[0], st) {
            Err(e) => Err(e),
            Ok((l, st1)) => match spec_decode_bare_list(js.skip(1), st1) {
                Err(e) => Err(e),
                Ok((ls, st2)) => Ok((seq![l] + ls, st2)),
            },
        }
    }
}

/// Encode a list of bare locations in order, threading the cursor.
pub open spec fn spec_encode_bare_list(ls: Seq<BareLocV>, st: SessV) -> (Seq<JsonV>, SessV)
    decreases ls.len(),
{
    if ls.len() == 0 {
        (Seq::empty(), st)
    } else {
        let p = spec_encode_bare(ls[0], st);
        let q = spec_encode_bare_list(ls.skip(1), p.1);
        (seq![JsonV::Obj(p.0)] + q.0, q.1)
    }
}

/// Location delta compression round-trips over whole sequences: encoding a
/// list of canonical locations from a cursor state and decoding the result
/// from the same state reconstructs every location — in particular, when all
/// locations share one file, the file omitted from the second one on is
/// reconstructed as that file for all of them.
pub proof fn lemma_bare_list_round_trip(ls: Seq<BareLocV>, st: SessV)
    requires
        st.wf(),
        crate::intern::strings_distinct(st.strings),
        forall|i: int| 0 <= i < ls.len() ==> bare_canonical(#[trigger] ls[i], st),
    ensures
        spec_decode_bare_list(spec_encode_bare_list(ls, st).0, st) == Ok::<
            (Seq<BareLocV>, SessV),
            ErrV,
        >((ls, spec_encode_bare_list(ls, st).1)),
    decreases ls.len(),
{
    if ls.len() > 0 {
        lemma_bare_round_trip(ls[0], st);
        let p = spec_encode_bare(ls[0], st);
        assert(p.1.strings == st.strings);
        assert(forall|i: int|
            0 <= i < ls.skip(1).len() ==> bare_canonical(#[trigger] ls.skip(1)[i], p.1));
        lemma_bare_list_round_trip(ls.skip(1), p.1);
        let q = spec_encode_bare_list(ls.skip(1), p.1);
        let js = spec_encode_bare_list(ls, st).0;
        assert(js[0] == JsonV::Obj(p.0));
        assert(js.skip(1) =~= q.0);
        assert(spec_decode_bare(js[0], st) == Ok::<(BareLocV, SessV), ErrV>((ls[0], p.1)));
        assert(spec_decode_bare_list(js.skip(1), p.1) == Ok::<(Seq<BareLocV>, SessV), ErrV>(
            (ls.skip(1), q.1),
        ));
        assert(seq![ls[0]] + ls.skip(1) =~= ls);
        assert(js.len() == 1 + q.0.len());
    } else {
        assert(ls =~= Seq::<BareLocV>::empty());
        assert(spec_encode_bare_list(ls, st).0 =~= Seq::<JsonV>::empty());
    }
}

/// When the cursor already points at a location's file, the encoder omits
/// the `file` entry entirely.
pub proof fn lemma_delta_file_omitted(l: BareLocV, st: SessV)
    requires
        l.file == st.file,
    ensures
        forall|k: int|
            0 <= k < spec_encode_bare(l, st).0.len() ==> (#[trigger] spec_encode_bare(
                l,
                st,
            ).0[k]).0 != "file"@,
{
    lemma_field_names_distinct();
}

/// When a location's file differs from the cursor, the encoder emits `line`
/// right after `file` even if the line number equals the cursor's: the file
/// change invalidated the reader's line cursor.
pub proof fn lemma_delta_file_change_reemits_line(l: BareLocV, st: SessV)
    requires
        l.file != st.file,
    ensures
        spec_encode_bare(l, st).0[1] == ("file"@, JsonV::Str(st.strings[l.file])),
        spec_encode_bare(l, st).0[2] == ("line"@, JsonV::Int(l.line as int)),
{
}


/// Decoding an include chain never moves the cursor.
pub proof fn lemma_inc_fold_cursor(fields: Seq<(Seq<char>, JsonV)>, i: int, acc: IncAcc)
    requires
        0 <= i <= fields.len(),
    ensures
        inc_fold(fields, i, acc) matches Ok(a) ==> a.st.file == acc.st.file && a.st.line
            == acc.st.line,
    decreases fields.len() - i,
{
    if i < fields.len() {
        match inc_step(acc, fields[i].0, fields[i].1) {
            Ok(a2) => {
                lemma_inc_fold_cursor(fields, i + 1, a2);
            },
            Err(_) => {},
        }
    }
}

/// A bare-location field walk that never sees `file` or `line` leaves them
/// uncollected and the cursor where it was.
pub proof fn lemma_bare_fold_no_file_line(fields: Seq<(Seq<char>, JsonV)>, i: int, acc: BareAcc)
    requires
        0 <= i <= fields.len(),
        forall|k: int|
            i <= k < fields.len() ==> (#[trigger] fields[k]).0 != "file"@ && fields[k].0
                != "line"@,
        acc.file is None,
        acc.line is None,
    ensures
        bare_fold(fields, i, acc) matches Ok(a) ==> a.file is None && a.line is None && a.st.file
            == acc.st.file && a.st.line == acc.st.line,
    decreases fields.len() - i,
{
    if i < fields.len() {
        match bare_step(acc, fields[i].0, fields[i].1) {
            Ok(a2) => {
                if fields[i].0 == "includedFrom"@ {
                    match fields[i].1 {
                        JsonV::Obj(inner_fields) => {
                            lemma_inc_fold_cursor(
                                inner_fields,
                                0,
                                IncAcc { seen_included_from: false, file: None, st: acc.st },
                            );
                        },
                        _ => {},
                    }
                }
                lemma_bare_fold_no_file_line(fields, i + 1, a2);
            },
            Err(_) => {},
        }
    }
}

/// Lifecycle isolation: once the caches are fresh — as they are after the
/// last guard is released — a bare location whose `file` and `line` are
/// omitted decodes to the empty file and line zero, never to a previous
/// parse's cursor values.
pub proof fn lemma_lifecycle_isolation(fields: Seq<(Seq<char>, JsonV)>)
    requires
        forall|k: int|
            0 <= k < fields.len() ==> (#[trigger] fields[k]).0 != "file"@ && fields[k].0
                != "line"@,
    ensures
        spec_decode_bare_fields(fields, SessV::fresh()) matches Ok(p) ==> p.0.file == 0
            && SessV::fresh().strings[p.0.file] == Seq::<char>::empty() && p.0.line == 0,
{
    let st = SessV::fresh();
    if fields.len() > 0 && fields[0].0 == "offset"@ {
        lemma_bare_fold_no_file_line(fields, 1, bare_acc_init(st));
    }
}


// ---------------------------------------------------------------------------
// Decoding produces canonical values.
// ---------------------------------------------------------------------------

/// Interning extends the table, keeps it well-formed and duplicate-free,
/// and hands back a handle into the result.
pub proof fn lemma_intern_state(st: SessV, s: Seq<char>)
    ensures
        st_extends(st, st.intern(s).0),
        0 <= st.intern(s).1 < st.intern(s).0.strings.len(),
        st.wf() ==> st.intern(s).0.wf(),
        crate::intern::strings_distinct(st.strings) ==> crate::intern::strings_distinct(
            st.intern(s).0.strings,
        ),
{
    crate::intern::lemma_find_from(st.strings, s, 0);
    if crate::intern::strings_distinct(st.strings) {
        crate::intern::lemma_intern_preserves_distinct(st.strings, s);
    }
}

/// The session invariants a decode step carries: well-formed, duplicate
/// free.
pub open spec fn st_ok(st: SessV) -> bool {
    st.wf() && crate::intern::strings_distinct(st.strings)
}

/// Bare canonicity only loosens as the table grows.
pub proof fn lemma_bare_canonical_mono(l: BareLocV, n1: int, n2: int)
    requires
        bare_canonical_n(l, n1),
        n1 <= n2,
    ensures
        bare_canonical_n(l, n2),
{
}

/// Location canonicity only loosens as the table grows.
pub proof fn lemma_loc_canonical_mono(l: LocV, n1: int, n2: int)
    requires
        loc_canonical_n(l, n1),
        n1 <= n2,
    ensures
        loc_canonical_n(l, n2),
{
}

/// Range canonicity only loosens as the table grows.
pub proof fn lemma_range_canonical_mono(r: RangeV, n1: int, n2: int)
    requires
        range_canonical_n(r, n1),
        n1 <= n2,
    ensures
        range_canonical_n(r, n2),
{
}

/// A successful include-chain walk extends the session and yields a valid
/// handle.
pub proof fn lemma_inc_fold_ok(fields: Seq<(Seq<char>, JsonV)>, i: int, acc: IncAcc)
    requires
        0 <= i <= fields.len(),
        st_ok(acc.st),
        opt_int_wf(acc.file, acc.st.strings.len() as int),
    ensures
        inc_fold(fields, i, acc) matches Ok(a) ==> st_extends(acc.st, a.st) && st_ok(a.st)
            && opt_int_wf(a.file, a.st.strings.len() as int),
    decreases fields.len() - i,
{
    if i < fields.len() {
        match inc_step(acc, fields[i].0, fields[i].1) {
            Ok(a2) => {
                if fields[i].0 == "file"@ {
                    match as_str_value(fields[i].1) {
                        Ok(sv) => {
                            lemma_intern_state(acc.st, sv);
                        },
                        Err(_) => {},
                    }
                }
                lemma_inc_fold_ok(fields, i + 1, a2);
            },
            Err(_) => {},
        }
    }
}

/// An optional handle index points into a table of `n` strings.
pub open spec fn opt_int_wf(h: Option<int>, n: int) -> bool {
    match h {
        Some(v) => 0 <= v < n,
        None => true,
    }
}

/// A decoded include chain is one valid link, and the session only grew.
pub proof fn lemma_decode_inc_ok(j: JsonV, st: SessV)
    requires
        st_ok(st),
    ensures
        spec_decode_inc(j, st) matches Ok(p) ==> st_extends(st, p.1) && st_ok(p.1) && p.0.len()
            == 1 && 0 <= p.0[0] < p.1.strings.len(),
{
    match j {
        JsonV::Obj(fields) => {
            lemma_inc_fold_ok(fields, 0, IncAcc { seen_included_from: false, file: None, st });
        },
        _ => {},
    }
}

/// The accumulator invariants of a bare-location walk.
pub open spec fn bare_acc_ok(acc: BareAcc) -> bool {
    &&& st_ok(acc.st)
    &&& opt_int_wf(acc.file, acc.st.strings.len() as int)
    &&& opt_int_wf(acc.presumed_file, acc.st.strings.len() as int)
    &&& acc.included_from.len() <= 1
    &&& forall|k: int|
        0 <= k < acc.included_from.len() ==> 0 <= #[trigger] acc.included_from[k]
            < acc.st.strings.len()
}

/// A successful bare-location walk keeps the accumulator invariants and only
/// grows the session.
pub proof fn lemma_bare_fold_ok(fields: Seq<(Seq<char>, JsonV)>, i: int, acc: BareAcc)
    requires
        0 <= i <= fields.len(),
        bare_acc_ok(acc),
    ensures
        bare_fold(fields, i, acc) matches Ok(a) ==> st_extends(acc.st, a.st) && bare_acc_ok(a)
            && a.st.file == acc.st.file && a.st.line == acc.st.line,
    decreases fields.len() - i,
{
    if i < fields.len() {
        match bare_step(acc, fields[i].0, fields[i].1) {
            Ok(a2) => {
                if fields[i].0 == "file"@ || fields[i].0 == "presumedFile"@ {
                    match as_str_value(fields[i].1) {
                        Ok(sv) => {
                            lemma_intern_state(acc.st, sv);
                        },
                        Err(_) => {},
                    }
                } else if fields[i].0 == "includedFrom"@ {
                    lemma_decode_inc_ok(fields[i].1, acc.st);
                    match spec_decode_inc(fields[i].1, acc.st) {
                        Ok(p) => {
                            lemma_inc_fold_cursor_of(fields[i].1, acc.st);
                        },
                        Err(_) => {},
                    }
                }
                lemma_bare_fold_ok(fields, i + 1, a2);
            },
            Err(_) => {},
        }
    }
}

/// Decoding an include chain never moves the cursor (value form).
pub proof fn lemma_inc_fold_cursor_of(j: JsonV, st: SessV)
    ensures
        spec_decode_inc(j, st) matches Ok(p) ==> p.1.file == st.file && p.1.line == st.line,
{
    match j {
        JsonV::Obj(fields) => {
            lemma_inc_fold_cursor(fields, 0, IncAcc { seen_included_from: false, file: None, st });
        },
        _ => {},
    }
}

/// A decoded bare location is canonical for the session it leaves behind.
pub proof fn lemma_decode_bare_fields_canonical(fields: Seq<(Seq<char>, JsonV)>, st: SessV)
    requires
        st_ok(st),
    ensures
        spec_decode_bare_fields(fields, st) matches Ok(p) ==> st_extends(st, p.1) && st_ok(p.1)
            && bare_canonical_n(p.0, p.1.strings.len() as int),
{
    if fields.len() > 0 && fields[0].0 == "offset"@ {
        match as_u64_value(fields[0].1) {
            Ok(_) => {
                lemma_bare_fold_ok(fields, 1, bare_acc_init(st));
            },
            Err(_) => {},
        }
    }
}

/// A decoded bare location value is canonical for the session it leaves.
pub proof fn lemma_decode_bare_canonical(j: JsonV, st: SessV)
    requires
        st_ok(st),
    ensures
        spec_decode_bare(j, st) matches Ok(p) ==> st_extends(st, p.1) && st_ok(p.1)
            && bare_canonical_n(p.0, p.1.strings.len() as int),
{
    match j {
        JsonV::Obj(fields) => {
            lemma_decode_bare_fields_canonical(fields, st);
        },
        _ => {},
    }
}

/// A decoded location is canonical for the session it leaves behind.
pub proof fn lemma_decode_loc_canonical(j: JsonV, st: SessV)
    requires
        st_ok(st),
    ensures
        spec_decode_loc(j, st) matches Ok(p) ==> st_extends(st, p.1) && st_ok(p.1)
            && loc_canonical_n(p.0, p.1.strings.len() as int),
{
    match j {
        JsonV::Obj(fields) => {
            if fields.len() == 0 {
            } else if fields[0].0 == "spellingLoc"@ {
                lemma_decode_bare_canonical(fields[0].1, st);
                match spec_decode_bare(fields[0].1, st) {
                    Ok(p1) => {
                        lemma_decode_bare_canonical(fields[1].1, p1.1);
                        match spec_decode_bare(fields[1].1, p1.1) {
                            Ok(p2) => {
                                lemma_bare_canonical_mono(
                                    p1.0,
                                    p1.1.strings.len() as int,
                                    p2.1.strings.len() as int,
                                );
                            },
                            Err(_) => {},
                        }
                    },
                    Err(_) => {},
                }
            } else if fields[0].0 == "offset"@ {
                lemma_decode_bare_fields_canonical(fields, st);
            }
        },
        _ => {},
    }
}

/// A decoded range is canonical for the session it leaves behind.
pub proof fn lemma_decode_range_canonical(j: JsonV, st: SessV)
    requires
        st_ok(st),
    ensures
        spec_decode_range(j, st) matches Ok(p) ==> st_extends(st, p.1) && st_ok(p.1)
            && range_canonical_n(p.0, p.1.strings.len() as int),
{
    match j {
        JsonV::Obj(fields) => {
            lemma_range_fold_canonical(fields, 0, RangeAcc { begin: None, end: None, st });
        },
        _ => {},
    }
}

/// The accumulator invariants of a range walk.
pub open spec fn range_acc_ok(acc: RangeAcc) -> bool {
    &&& st_ok(acc.st)
    &&& match acc.begin {
        Some(l) => loc_canonical_n(l, acc.st.strings.len() as int),
        None => true,
    }
    &&& match acc.end {
        Some(l) => loc_canonical_n(l, acc.st.strings.len() as int),
        None => true,
    }
}

/// A successful range walk keeps the accumulator invariants.
pub proof fn lemma_range_fold_canonical(fields: Seq<(Seq<char>, JsonV)>, i: int, acc: RangeAcc)
    requires
        0 <= i <= fields.len(),
        range_acc_ok(acc),
    ensures
        range_fold(fields, i, acc) matches Ok(a) ==> st_extends(acc.st, a.st) && range_acc_ok(a),
    decreases fields.len() - i,
{
    if i < fields.len() {
        match range_step(acc, fields[i].0, fields[i].1) {
            Ok(a2) => {
                if fields[i].0 == "begin"@ || fields[i].0 == "end"@ {
                    lemma_decode_loc_canonical(fields[i].1, acc.st);
                    match spec_decode_loc(fields[i].1, acc.st) {
                        Ok(p) => {
                            match acc.begin {
                                Some(l) => lemma_loc_canonical_mono(
                                    l,
                                    acc.st.strings.len() as int,
                                    p.1.strings.len() as int,
                                ),
                                None => {},
                            }
                            match acc.end {
                                Some(l) => lemma_loc_canonical_mono(
                                    l,
                                    acc.st.strings.len() as int,
                                    p.1.strings.len() as int,
                                ),
                                None => {},
                            }
                        },
                        Err(_) => {},
                    }
                }
                lemma_range_fold_canonical(fields, i + 1, a2);
            },
            Err(_) => {},
        }
    }
}

} // verus!
