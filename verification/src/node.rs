//! The node tree decoder and encoder.
//!
//! A node object's structural fields (`id`, `kind`, `inner`) belong to the
//! tree; everything else belongs to the payload schema of the node's kind.
//! The decoder scans fields in arrival order: `id` may precede `kind`; the
//! moment `kind` is consumed (or the object ends without one) the payload
//! schema takes over, and `inner` — wherever it appears among the remaining
//! fields — is diverted into the child list rather than handed to the
//! payload.  The encoder emits `kind` first, then the payload's fields, then
//! `inner`, re-applying the location delta compression on the way out.
//!
//! The payload schema is declared as data: variant names aligned with kind
//! strings, a shape per variant, and per-field value types, with a variant
//! named `Unknown` or `Other` accepted as the fallback for any unrecognized
//! kind string.

use vstd::prelude::*;
use vstd::string::StringExecFns;
use crate::error::{Error, ErrV, FieldOfKindError};
use crate::id::{id_ok, id_val, Id};
use crate::json::{json_clone, jview, jview_fields, jview_seq, Json, JsonV};
use crate::kind::{str_eq, AnyKind, Kind};
use crate::loc::{
    spec_decode_loc, spec_decode_range, decode_source_location, decode_source_range, loc_wf,
    range_wf, LocV, RangeV, SourceLocation, SourceRange, st_extends,
};
use crate::session::{SessV, Session};
use crate::Node;

verus! {

broadcast use vstd::string::group_string_axioms;

/// The value type a schema declares for one payload field.
#[derive(Copy, Clone, PartialEq, Eq, Structural, Debug)]
pub enum FieldTy {
    /// A `SourceLocation`, decoded through the delta codec.
    Loc,
    /// A `SourceRange`, decoded through the delta codec.
    Range,
    /// Any value, carried verbatim.
    Verbatim,
}

/// One declared payload field.
pub struct FieldDecl {
    pub name: String,
    pub ty: FieldTy,
    pub required: bool,
}

/// The shape of one variant's payload.
pub enum VariantShape {
    /// The payload carries no data; remaining fields are drained off the
    /// wire (populating `inner`) and otherwise discarded.
    Unit,
    /// The payload is struct-shaped, with declared named fields.
    Fields(Vec<FieldDecl>),
    /// Declared but unsupported on this wire format: always rejected.
    Tuple,
}

/// One variant of an enum-shaped payload schema.
pub struct VariantDecl {
    pub name: String,
    pub shape: VariantShape,
}

/// A payload schema: variant names expected to align with kind strings.  A
/// variant named `Unknown` or `Other` doubles as the fallback for kind
/// strings matching no variant; with several such variants the last one
/// wins.
pub struct Schema {
    pub variants: Vec<VariantDecl>,
}

/// A decoded payload field value.
pub enum FieldValue {
    Loc(SourceLocation),
    Range(SourceRange),
    Verbatim(Json),
}

/// The payload of a decoded node: the resolved kind tag, the index of the
/// schema variant that accepted it, and the payload's own fields in arrival
/// order.
pub struct Payload {
    pub tag: AnyKind,
    pub variant: usize,
    pub fields: Vec<(String, FieldValue)>,
}

// ---------------------------------------------------------------------------
// Abstractions.
// ---------------------------------------------------------------------------

/// The mathematical form of a field declaration.
pub struct FieldDeclV {
    pub name: Seq<char>,
    pub ty: FieldTy,
    pub required: bool,
}

/// The mathematical form of a variant's shape.
pub enum ShapeV {
    Unit,
    Fields(Seq<FieldDeclV>),
    Tuple,
}

/// The mathematical form of a variant declaration.
pub struct VariantV {
    pub name: Seq<char>,
    pub shape: ShapeV,
}

/// The mathematical form of a decoded field value.
pub enum FieldValV {
    Loc(LocV),
    Range(RangeV),
    Verbatim(JsonV),
}

/// The mathematical form of a payload.
pub struct PayloadV {
    pub tag: Seq<char>,
    pub tagged: bool,
    pub variant: int,
    pub fields: Seq<(Seq<char>, FieldValV)>,
}

/// The mathematical form of a node.
pub struct NodeV {
    pub id: u64,
    pub kind: PayloadV,
    pub inner: Seq<NodeV>,
}

impl View for FieldDecl {
    type V = FieldDeclV;

    open spec fn view(&self) -> FieldDeclV {
        FieldDeclV { name: self.name@, ty: self.ty, required: self.required }
    }
}

impl View for VariantDecl {
    type V = VariantV;

    open spec fn view(&self) -> VariantV {
        VariantV {
            name: self.name@,
            shape: match &self.shape {
                VariantShape::Unit => ShapeV::Unit,
                VariantShape::Fields(decls) => ShapeV::Fields(decls.deep_view()),
                VariantShape::Tuple => ShapeV::Tuple,
            },
        }
    }
}

impl DeepView for FieldDecl {
    type V = FieldDeclV;

    open spec fn deep_view(&self) -> FieldDeclV {
        self.view()
    }
}

impl View for Schema {
    type V = Seq<VariantV>;

    open spec fn view(&self) -> Seq<VariantV> {
        self.variants.deep_view()
    }
}

impl DeepView for VariantDecl {
    type V = VariantV;

    open spec fn deep_view(&self) -> VariantV {
        self.view()
    }
}

impl View for FieldValue {
    type V = FieldValV;

    open spec fn view(&self) -> FieldValV {
        match self {
            FieldValue::Loc(l) => FieldValV::Loc(l@),
            FieldValue::Range(r) => FieldValV::Range(r@),
            FieldValue::Verbatim(j) => FieldValV::Verbatim(jview(*j)),
        }
    }
}

/// Pair-wise abstraction of decoded payload fields, order preserved.
pub open spec fn pf_view(s: Seq<(String, FieldValue)>) -> Seq<(Seq<char>, FieldValV)>
    decreases s,
{
    if s.len() == 0 {
        Seq::empty()
    } else {
        pf_view(s.drop_last()).push((s.last().0@, s.last().1@))
    }
}

/// The payload field abstraction is pointwise.
pub proof fn lemma_pf_view_index(s: Seq<(String, FieldValue)>)
    ensures
        pf_view(s).len() == s.len(),
        forall|i: int| 0 <= i < s.len() ==> #[trigger] pf_view(s)[i] == (s[i].0@, s[i].1@),
    decreases s,
{
    if s.len() > 0 {
        lemma_pf_view_index(s.drop_last());
    }
}

impl View for Payload {
    type V = PayloadV;

    open spec fn view(&self) -> PayloadV {
        PayloadV {
            tag: self.tag@,
            tagged: !(self.tag matches AnyKind::Kind(Kind::null)),
            variant: self.variant as int,
            fields: pf_view(self.fields@),
        }
    }
}

/// The abstraction of a decoded node tree.
pub open spec fn node_view(n: Node<Payload>) -> NodeV
    decreases n,
{
    NodeV {
        id: n.id.id,
        kind: n.kind@,
        inner: {
            proof {
                assert(decreases_to!(n => n.inner));
                assert(decreases_to!(n.inner => n.inner@));
            }
            node_view_seq(n.inner@)
        },
    }
}

/// Element-wise abstraction of a child list.
pub open spec fn node_view_seq(s: Seq<Node<Payload>>) -> Seq<NodeV>
    decreases s,
{
    if s.len() == 0 {
        Seq::empty()
    } else {
        node_view_seq(s.drop_last()).push(node_view(s.last()))
    }
}

/// The child-list abstraction is pointwise.
pub proof fn lemma_node_view_seq_index(s: Seq<Node<Payload>>)
    ensures
        node_view_seq(s).len() == s.len(),
        forall|i: int| 0 <= i < s.len() ==> #[trigger] node_view_seq(s)[i] == node_view(s[i]),
    decreases s,
{
    if s.len() > 0 {
        lemma_node_view_seq_index(s.drop_last());
    }
}

// ---------------------------------------------------------------------------
// Decoding, at the specification level.
// ---------------------------------------------------------------------------

/// The first variant whose name is `name`, or the variant count when none
/// matches.
pub open spec fn find_variant_from(sch: Seq<VariantV>, name: Seq<char>, i: int) -> int
    decreases sch.len() - i,
    when 0 <= i <= sch.len()
{
    if i >= sch.len() {
        sch.len() as int
    } else if sch[i].name == name {
        i
    } else {
        find_variant_from(sch, name, i + 1)
    }
}

/// The last variant named `Unknown` or `Other`, or the variant count when
/// there is none.
pub open spec fn find_fallback_from(sch: Seq<VariantV>, i: int) -> int
    decreases sch.len() - i,
    when 0 <= i <= sch.len()
{
    if i >= sch.len() {
        sch.len() as int
    } else {
        let rest = find_fallback_from(sch, i + 1);
        if rest < sch.len() {
            rest
        } else if sch[i].name == "Unknown"@ || sch[i].name == "Other"@ {
            i
        } else {
            sch.len() as int
        }
    }
}

/// The first declaration whose name is `name`, or the declaration count.
pub open spec fn find_decl_from(decls: Seq<FieldDeclV>, name: Seq<char>, i: int) -> int
    decreases decls.len() - i,
    when 0 <= i <= decls.len()
{
    if i >= decls.len() {
        decls.len() as int
    } else if decls[i].name == name {
        i
    } else {
        find_decl_from(decls, name, i + 1)
    }
}

/// Whether a decoded field with this name is already present.
pub open spec fn has_field(pf: Seq<(Seq<char>, FieldValV)>, name: Seq<char>) -> bool {
    exists|k: int| 0 <= k < pf.len() && pf[k].0 == name
}

/// The first declared-but-required field not present in `pf`, in
/// declaration order; the declaration count when none is missing.
pub open spec fn missing_decl_from(
    decls: Seq<FieldDeclV>,
    pf: Seq<(Seq<char>, FieldValV)>,
    i: int,
) -> int
    decreases decls.len() - i,
    when 0 <= i <= decls.len()
{
    if i >= decls.len() {
        decls.len() as int
    } else if decls[i].required && !has_field(pf, decls[i].name) {
        i
    } else {
        missing_decl_from(decls, pf, i + 1)
    }
}

/// The kind annotation payload-phase errors carry: the tag's string form,
/// unless the node had no kind tag.
pub open spec fn kind_note(tagged: bool, tag: Seq<char>) -> Option<Seq<char>> {
    if tagged {
        Some(tag)
    } else {
        None
    }
}

/// Scan a node object's leading fields: `id` at most once, until `kind` is
/// consumed or the object ends.  Returns the position after the prefix, the
/// parsed id, and the kind string when one was present.
pub open spec fn spec_node_prefix(
    fields: Seq<(Seq<char>, JsonV)>,
    i: int,
    id: Option<u64>,
) -> Result<(int, Option<u64>, Option<Seq<char>>), ErrV>
    decreases fields.len() - i,
    when 0 <= i <= fields.len()
{
    if i == fields.len() {
        Ok((i, id, None))
    } else {
        let name = fields[i].0;
        if name == "id"@ {
            if id is Some {
                Err(ErrV::DuplicateField { field: "id"@ })
            } else {
                match fields[i].1 {
                    JsonV::Str(s) => if id_ok(s) {
                        spec_node_prefix(fields, i + 1, Some(id_val(s) as u64))
                    } else {
                        Err(ErrV::TypeMismatch { expected: "a node id"@ })
                    },
                    _ => Err(ErrV::TypeMismatch { expected: "a node id"@ }),
                }
            }
        } else if name == "kind"@ {
            match fields[i].1 {
                JsonV::Str(s) => Ok((i + 1, id, Some(s))),
                _ => Err(ErrV::TypeMismatch { expected: "a string"@ }),
            }
        } else if name == "inner"@ {
            Err(ErrV::MissingField { field: "kind"@, kind: None })
        } else {
            Err(ErrV::UnknownField { field: name, kind: None })
        }
    }
}

/// Walk the fields after the prefix: `inner` (at most once, wherever it
/// appears) becomes the child list; with declared fields (`decls` present),
/// each other field must be declared, appear at most once, and decode per
/// its declared type; without declarations (unit payload) other fields are
/// drained and discarded — but a drained `loc` or `range` still runs
/// through the delta codec, because the wire producer compressed every
/// location it emitted against the cursor, whether or not this consumer's
/// schema cares.  Everything is processed in arrival order, which the
/// location cursor depends on.
pub open spec fn spec_walk_fields(
    fields: Seq<(Seq<char>, JsonV)>,
    i: int,
    sch: Seq<VariantV>,
    decls: Option<Seq<FieldDeclV>>,
    tagged: bool,
    tag: Seq<char>,
    pf: Seq<(Seq<char>, FieldValV)>,
    kids: Option<Seq<NodeV>>,
    st: SessV,
) -> Result<(Seq<(Seq<char>, FieldValV)>, Seq<NodeV>, SessV), ErrV>
    decreases fields, fields.len() - i,
    when 0 <= i <= fields.len()
{
    if i == fields.len() {
        match decls {
            Some(ds) => {
                let m = missing_decl_from(ds, pf, 0);
                if m < ds.len() {
                    Err(ErrV::MissingField { field: ds[m].name, kind: kind_note(tagged, tag) })
                } else {
                    Ok((pf, kids_or_empty(kids), st))
                }
            },
            None => Ok((pf, kids_or_empty(kids), st)),
        }
    } else {
        let name = fields[i].0;
        let value = fields[i].1;
        if name == "inner"@ {
            if kids is Some {
                Err(ErrV::DuplicateField { field: "inner"@ })
            } else {
                match value {
                    JsonV::Arr(elems) => {
                        proof {
                            assert(decreases_to!(fields => fields[i]));
                            assert(decreases_to!(fields[i] => fields[i].1));
                            assert(fields[i].1->Arr_0 == elems);
                            assert(decreases_to!(fields[i].1 => fields[i].1->Arr_0));
                        }
                        match spec_decode_children(elems, 0, sch, st) {
                            Ok((ks, st1)) => spec_walk_fields(
                                fields,
                                i + 1,
                                sch,
                                decls,
                                tagged,
                                tag,
                                pf,
                                Some(ks),
                                st1,
                            ),
                            Err(e) => Err(e),
                        }
                    },
                    _ => Err(ErrV::TypeMismatch { expected: "an array"@ }),
                }
            }
        } else {
            match decls {
                None => if name == "loc"@ {
                    match spec_decode_loc(value, st) {
                        Ok((_, st1)) => spec_walk_fields(
                            fields,
                            i + 1,
                            sch,
                            decls,
                            tagged,
                            tag,
                            pf,
                            kids,
                            st1,
                        ),
                        Err(e) => Err(e),
                    }
                } else if name == "range"@ {
                    match spec_decode_range(value, st) {
                        Ok((_, st1)) => spec_walk_fields(
                            fields,
                            i + 1,
                            sch,
                            decls,
                            tagged,
                            tag,
                            pf,
                            kids,
                            st1,
                        ),
                        Err(e) => Err(e),
                    }
                } else {
                    spec_walk_fields(fields, i + 1, sch, decls, tagged, tag, pf, kids, st)
                },
                Some(ds) => {
                    let d = find_decl_from(ds, name, 0);
                    if d == ds.len() {
                        Err(ErrV::UnknownField { field: name, kind: kind_note(tagged, tag) })
                    } else if has_field(pf, name) {
                        Err(ErrV::DuplicateField { field: name })
                    } else {
                        match ds[d].ty {
                            FieldTy::Loc => match spec_decode_loc(value, st) {
                                Ok((l, st1)) => spec_walk_fields(
                                    fields,
                                    i + 1,
                                    sch,
                                    decls,
                                    tagged,
                                    tag,
                                    pf.push((name, FieldValV::Loc(l))),
                                    kids,
                                    st1,
                                ),
                                Err(e) => Err(e),
                            },
                            FieldTy::Range => match spec_decode_range(value, st) {
                                Ok((r, st1)) => spec_walk_fields(
                                    fields,
                                    i + 1,
                                    sch,
                                    decls,
                                    tagged,
                                    tag,
                                    pf.push((name, FieldValV::Range(r))),
                                    kids,
                                    st1,
                                ),
                                Err(e) => Err(e),
                            },
                            FieldTy::Verbatim => spec_walk_fields(
                                fields,
                                i + 1,
                                sch,
                                decls,
                                tagged,
                                tag,
                                pf.push((name, FieldValV::Verbatim(value))),
                                kids,
                                st,
                            ),
                        }
                    }
                },
            }
        }
    }
}

/// The child list, or no children at all when `inner` never appeared.
pub open spec fn kids_or_empty(kids: Option<Seq<NodeV>>) -> Seq<NodeV> {
    match kids {
        Some(ks) => ks,
        None => Seq::empty(),
    }
}

/// Decode the elements of an `inner` array, in order.
pub open spec fn spec_decode_children(
    elems: Seq<JsonV>,
    k: int,
    sch: Seq<VariantV>,
    st: SessV,
) -> Result<(Seq<NodeV>, SessV), ErrV>
    decreases elems, elems.len() - k,
    when 0 <= k <= elems.len()
{
    if k == elems.len() {
        Ok((Seq::empty(), st))
    } else {
        proof {
            assert(decreases_to!(elems => elems[k]));
        }
        match spec_decode_node(elems[k], sch, st) {
            Ok((n, st1)) => match spec_decode_children(elems, k + 1, sch, st1) {
                Ok((ns, st2)) => Ok((seq![n] + ns, st2)),
                Err(e) => Err(e),
            },
            Err(e) => Err(e),
        }
    }
}

/// Route a node's remaining fields to the payload variant its kind string
/// selects: the variant of that name; else the declared fallback (`Unknown`
/// or `Other`); else the decode fails with an unknown-variant error.
pub open spec fn spec_dispatch(
    fields: Seq<(Seq<char>, JsonV)>,
    i: int,
    sch: Seq<VariantV>,
    tag: Seq<char>,
    tagged: bool,
    st: SessV,
) -> Result<(int, Seq<(Seq<char>, FieldValV)>, Seq<NodeV>, SessV), ErrV>
    decreases fields, fields.len() - i + 1,
    when 0 <= i <= fields.len()
{
    let vi = find_variant_from(sch, tag, 0);
    let chosen = if vi < sch.len() {
        vi
    } else {
        find_fallback_from(sch, 0)
    };
    if chosen >= sch.len() {
        Err(ErrV::UnknownVariant { kind: tag })
    } else {
        match sch[chosen].shape {
            ShapeV::Tuple => Err(
                ErrV::TypeMismatch { expected: "tuple variant of type `"@ + tag + "`"@ },
            ),
            ShapeV::Unit => match spec_walk_fields(
                fields,
                i,
                sch,
                None,
                tagged,
                tag,
                Seq::empty(),
                None,
                st,
            ) {
                Ok((pf, kids, st1)) => Ok((chosen, pf, kids, st1)),
                Err(e) => Err(e),
            },
            ShapeV::Fields(ds) => match spec_walk_fields(
                fields,
                i,
                sch,
                Some(ds),
                tagged,
                tag,
                Seq::empty(),
                None,
                st,
            ) {
                Ok((pf, kids, st1)) => Ok((chosen, pf, kids, st1)),
                Err(e) => Err(e),
            },
        }
    }
}

/// Decode one node object against a schema: scan the `id`/`kind` prefix,
/// resolve the kind (the `null` sentinel when absent), dispatch the
/// remaining fields to the selected payload variant, and assemble the node.
pub open spec fn spec_decode_node(j: JsonV, sch: Seq<VariantV>, st: SessV) -> Result<
    (NodeV, SessV),
    ErrV,
>
    decreases j, 0int,
{
    match j {
        JsonV::Obj(fields) => {
            proof {
                assert(j->Obj_0 == fields);
                assert(decreases_to!(j => j->Obj_0));
            }
            match spec_node_prefix(fields, 0, None) {
                Err(e) => Err(e),
                Ok((i, id, tagopt)) => {
                    let tagged = tagopt is Some;
                    let tag = match tagopt {
                        Some(s) => s,
                        None => "null"@,
                    };
                    if !(0 <= i <= fields.len()) {
                        Err(ErrV::TypeMismatch { expected: "an object"@ })
                    } else {
                        match spec_dispatch(fields, i, sch, tag, tagged, st) {
                            Err(e) => Err(e),
                            Ok((variant, pf, kids, st1)) => Ok(
                                (
                                    NodeV {
                                        id: match id {
                                            Some(v) => v,
                                            None => 0,
                                        },
                                        kind: PayloadV { tag, tagged, variant, fields: pf },
                                        inner: kids,
                                    },
                                    st1,
                                ),
                            ),
                        }
                    }
                },
            }
        },
        _ => Err(ErrV::TypeMismatch { expected: "an object"@ }),
    }
}


// ---------------------------------------------------------------------------
// Decoding, executable and proved against the specification above.
// ---------------------------------------------------------------------------

/// `find_variant_from` is the first match at or after `i`.
pub proof fn lemma_find_variant_from(sch: Seq<VariantV>, name: Seq<char>, i: int)
    requires
        0 <= i <= sch.len(),
    ensures
        i <= find_variant_from(sch, name, i) <= sch.len(),
        find_variant_from(sch, name, i) < sch.len() ==> sch[find_variant_from(
            sch,
            name,
            i,
        )].name == name,
        forall|j: int| i <= j < find_variant_from(sch, name, i) ==> sch[j].name != name,
    decreases sch.len() - i,
{
    if i < sch.len() && sch[i].name != name {
        lemma_find_variant_from(sch, name, i + 1);
    }
}

/// Whether a variant name doubles as the fallback marker.
pub open spec fn is_fallback_name(name: Seq<char>) -> bool {
    name == "Unknown"@ || name == "Other"@
}

/// `find_fallback_from` is the last fallback-named variant at or after `i`.
pub proof fn lemma_find_fallback_from(sch: Seq<VariantV>, i: int)
    requires
        0 <= i <= sch.len(),
    ensures
        i <= find_fallback_from(sch, i) <= sch.len(),
        find_fallback_from(sch, i) < sch.len() ==> is_fallback_name(
            sch[find_fallback_from(sch, i)].name,
        ),
        forall|j: int|
            find_fallback_from(sch, i) < j < sch.len() && i <= j ==> !is_fallback_name(
                sch[j].name,
            ),
        find_fallback_from(sch, i) == sch.len() ==> forall|j: int|
            i <= j < sch.len() ==> !is_fallback_name(sch[j].name),
    decreases sch.len() - i,
{
    if i < sch.len() {
        lemma_find_fallback_from(sch, i + 1);
    }
}

/// `find_decl_from` is the first match at or after `i`.
pub proof fn lemma_find_decl_from(decls: Seq<FieldDeclV>, name: Seq<char>, i: int)
    requires
        0 <= i <= decls.len(),
    ensures
        i <= find_decl_from(decls, name, i) <= decls.len(),
        find_decl_from(decls, name, i) < decls.len() ==> decls[find_decl_from(
            decls,
            name,
            i,
        )].name == name,
        forall|j: int| i <= j < find_decl_from(decls, name, i) ==> decls[j].name != name,
    decreases decls.len() - i,
{
    if i < decls.len() && decls[i].name != name {
        lemma_find_decl_from(decls, name, i + 1);
    }
}

/// `missing_decl_from` is the first required declaration absent from `pf`.
pub proof fn lemma_missing_decl_from(decls: Seq<FieldDeclV>, pf: Seq<(Seq<char>, FieldValV)>, i: int)
    requires
        0 <= i <= decls.len(),
    ensures
        i <= missing_decl_from(decls, pf, i) <= decls.len(),
        missing_decl_from(decls, pf, i) < decls.len() ==> decls[missing_decl_from(
            decls,
            pf,
            i,
        )].required && !has_field(pf, decls[missing_decl_from(decls, pf, i)].name),
        forall|j: int|
            i <= j < missing_decl_from(decls, pf, i) ==> !(decls[j].required && !has_field(
                pf,
                decls[j].name,
            )),
    decreases decls.len() - i,
{
    if i < decls.len() && !(decls[i].required && !has_field(pf, decls[i].name)) {
        lemma_missing_decl_from(decls, pf, i + 1);
    }
}

/// Find the variant a kind string names.
fn find_variant(variants: &Vec<VariantDecl>, name: &str) -> (r: usize)
    ensures
        r as int == find_variant_from(variants.deep_view(), name@, 0),
{
    let ghost sv = variants.deep_view();
    let n = variants.len();
    let mut i: usize = 0;
    while i < n
        invariant
            0 <= i <= n,
            n == variants@.len(),
            sv == variants.deep_view(),
            sv.len() == n,
            forall|j: int| 0 <= j < i ==> (#[trigger] sv[j]).name != name@,
        decreases n - i,
    {
        proof {
            assert(sv[i as int] == variants@[i as int].deep_view());
        }
        if str_eq(variants[i].name.as_str(), name) {
            proof {
                lemma_find_variant_from(sv, name@, 0);
                if find_variant_from(sv, name@, 0) > i {
                    assert(sv[i as int].name != name@);
                }
            }
            return i;
        }
        i = i + 1;
    }
    proof {
        lemma_find_variant_from(sv, name@, 0);
    }
    n
}

/// Find the declared fallback variant, the last one named `Unknown` or
/// `Other`.
fn find_fallback(variants: &Vec<VariantDecl>) -> (r: usize)
    ensures
        r as int == find_fallback_from(variants.deep_view(), 0),
{
    let ghost sv = variants.deep_view();
    let n = variants.len();
    let mut fb = n;
    let mut i: usize = 0;
    while i < n
        invariant
            0 <= i <= n,
            n == variants@.len(),
            sv == variants.deep_view(),
            sv.len() == n,
            fb <= n,
            fb < n ==> is_fallback_name(sv[fb as int].name) && fb < i,
            forall|j: int| fb < j < i ==> !is_fallback_name((#[trigger] sv[j]).name),
            fb == n ==> forall|j: int| 0 <= j < i ==> !is_fallback_name((#[trigger] sv[j]).name),
        decreases n - i,
    {
        proof {
            assert(sv[i as int] == variants@[i as int].deep_view());
        }
        if str_eq(variants[i].name.as_str(), "Unknown") || str_eq(
            variants[i].name.as_str(),
            "Other",
        ) {
            fb = i;
        }
        i = i + 1;
    }
    proof {
        lemma_find_fallback_from(sv, 0);
        let r = find_fallback_from(sv, 0);
        if fb < n {
            if r == n {
                assert(!is_fallback_name(sv[fb as int].name));
            } else if r < fb {
                assert(!is_fallback_name(sv[fb as int].name));
            } else if fb < r {
                assert(!is_fallback_name(sv[r].name));
            }
        } else {
            if r < n {
                assert(!is_fallback_name(sv[r].name));
            }
        }
    }
    fb
}

/// Find the declaration a payload field name matches.
fn find_decl(decls: &Vec<FieldDecl>, name: &str) -> (r: usize)
    ensures
        r as int == find_decl_from(decls.deep_view(), name@, 0),
{
    let ghost dv = decls.deep_view();
    let n = decls.len();
    let mut i: usize = 0;
    while i < n
        invariant
            0 <= i <= n,
            n == decls@.len(),
            dv == decls.deep_view(),
            dv.len() == n,
            forall|j: int| 0 <= j < i ==> (#[trigger] dv[j]).name != name@,
        decreases n - i,
    {
        proof {
            assert(dv[i as int] == decls@[i as int].deep_view());
        }
        if str_eq(decls[i].name.as_str(), name) {
            proof {
                lemma_find_decl_from(dv, name@, 0);
                if find_decl_from(dv, name@, 0) > i {
                    assert(dv[i as int].name != name@);
                }
            }
            return i;
        }
        i = i + 1;
    }
    proof {
        lemma_find_decl_from(dv, name@, 0);
    }
    n
}

/// Whether a decoded field of this name was already collected.
fn pf_has(pf: &Vec<(String, FieldValue)>, name: &str) -> (r: bool)
    ensures
        r == has_field(pf_view(pf@), name@),
{
    proof {
        lemma_pf_view_index(pf@);
    }
    let n = pf.len();
    let mut i: usize = 0;
    while i < n
        invariant
            0 <= i <= n,
            n == pf@.len(),
            pf_view(pf@).len() == n,
            forall|j: int| 0 <= j < n ==> #[trigger] pf_view(pf@)[j] == (pf@[j].0@, pf@[j].1@),
            forall|j: int| 0 <= j < i ==> (#[trigger] pf_view(pf@)[j]).0 != name@,
        decreases n - i,
    {
        if str_eq(pf[i].0.as_str(), name) {
            proof {
                assert(pf_view(pf@)[i as int].0 == name@);
            }
            return true;
        }
        i = i + 1;
    }
    false
}

/// Find the first required declaration with no collected field.
fn missing_decl(decls: &Vec<FieldDecl>, pf: &Vec<(String, FieldValue)>) -> (r: usize)
    ensures
        r as int == missing_decl_from(decls.deep_view(), pf_view(pf@), 0),
{
    let ghost dv = decls.deep_view();
    let ghost pv = pf_view(pf@);
    let n = decls.len();
    let mut i: usize = 0;
    while i < n
        invariant
            0 <= i <= n,
            n == decls@.len(),
            dv == decls.deep_view(),
            pv == pf_view(pf@),
            dv.len() == n,
            forall|j: int|
                0 <= j < i ==> !((#[trigger] dv[j]).required && !has_field(pv, dv[j].name)),
        decreases n - i,
    {
        proof {
            assert(dv[i as int] == decls@[i as int].deep_view());
        }
        if decls[i].required && !pf_has(pf, decls[i].name.as_str()) {
            proof {
                lemma_missing_decl_from(dv, pv, 0);
                if missing_decl_from(dv, pv, 0) > i {
                    assert(!(dv[i as int].required && !has_field(pv, dv[i as int].name)));
                }
            }
            return i;
        }
        i = i + 1;
    }
    proof {
        lemma_missing_decl_from(dv, pv, 0);
    }
    n
}



/// How a child-list decode result relates to its specification.
pub open spec fn children_outcome(
    r: Result<Vec<Node<Payload>>, Error>,
    s: Result<(Seq<NodeV>, SessV), ErrV>,
    stf: SessV,
) -> bool {
    match s {
        Ok(p) => r matches Ok(ks) && node_view_seq(ks@) == p.0 && stf == p.1,
        Err(e) => r matches Err(err) && err@ == e,
    }
}

/// Decode the elements of an `inner` array, in order.
pub fn decode_children(elems: &Vec<Json>, schema: &Schema, sess: &mut Session) -> (r: Result<
    Vec<Node<Payload>>,
    Error,
>)
    requires
        old(sess).wf(),
    ensures
        final(sess).wf(),
        final(sess).depth() == old(sess).depth(),
        st_extends(old(sess)@, final(sess)@),
        children_outcome(
            r,
            spec_decode_children(jview_seq(elems@), 0, schema@, old(sess)@),
            final(sess)@,
        ),
    decreases *elems,
{
    let ghost ev = jview_seq(elems@);
    let ghost sch = schema@;
    proof {
        crate::json::lemma_jview_seq_index(elems@);
    }
    let m = elems.len();
    let mut ks: Vec<Node<Payload>> = Vec::new();
    let mut k: usize = 0;
    proof {
        assert(node_view_seq(ks@) =~= Seq::<NodeV>::empty());
        assert(children_state(ev, 0, sch, old(sess)@, Seq::empty()) == children_state(
            ev,
            0,
            sch,
            sess@,
            node_view_seq(ks@),
        ));
    }
    while k < m
        invariant
            old(sess).wf(),
            sess.wf(),
            sess.depth() == old(sess).depth(),
            st_extends(old(sess)@, sess@),
            0 <= k <= m,
            m == elems@.len(),
            ev == jview_seq(elems@),
            ev.len() == m,
            sch == schema@,
            children_state(ev, 0, sch, old(sess)@, Seq::empty()) == children_state(
                ev,
                k as int,
                sch,
                sess@,
                node_view_seq(ks@),
            ),
        decreases m - k,
    {
        proof {
            crate::json::lemma_jview_seq_index(elems@);
            assert(decreases_to!(*elems => elems@));
            assert(decreases_to!(elems@ => elems@[k as int]));
        }
        let ghost st_prev = sess@;
        let ghost ks_prev = node_view_seq(ks@);
        let child = match decode_node(&elems[k], schema, sess) {
            Ok(child) => child,
            Err(e) => {
                return Err(e);
            },
        };
        let ghost ks_before = ks@;
        ks.push(child);
        proof {
            assert(ks@.drop_last() =~= ks_before);
            assert(ks@.last() == child);
            assert(node_view_seq(ks@) == ks_prev.push(node_view(child)));
            match spec_decode_children(ev, k + 1, sch, sess@) {
                Ok(p) => {
                    assert(ks_prev.push(node_view(child)) + p.0 =~= ks_prev + (
                    seq![node_view(child)] + p.0));
                },
                Err(_) => {},
            }
        }
        k = k + 1;
    }
    Ok(ks)
}


/// Once the prefix, tag, and variant of a node object are fixed, decoding
/// the whole object reduces to walking the remaining fields.
pub open spec fn node_reduces(
    jv: JsonV,
    sch: Seq<VariantV>,
    fv: Seq<(Seq<char>, JsonV)>,
    i0: int,
    decls: Option<Seq<FieldDeclV>>,
    tagged: bool,
    tag: Seq<char>,
    st0: SessV,
    chosen: int,
    idv: u64,
) -> bool {
    spec_decode_node(jv, sch, st0) == (match spec_walk_fields(
        fv,
        i0,
        sch,
        decls,
        tagged,
        tag,
        Seq::empty(),
        None,
        st0,
    ) {
        Ok(p) => Ok::<(NodeV, SessV), ErrV>(
            (
                NodeV {
                    id: idv,
                    kind: PayloadV { tag, tagged, variant: chosen, fields: p.0 },
                    inner: p.1,
                },
                p.2,
            ),
        ),
        Err(e) => Err(e),
    })
}

/// How a node decode result relates to its specification.
pub open spec fn node_outcome(
    r: Result<Node<Payload>, Error>,
    s: Result<(NodeV, SessV), ErrV>,
    stf: SessV,
) -> bool {
    match s {
        Ok(p) => r matches Ok(n) && node_view(n) == p.0 && stf == p.1,
        Err(e) => r matches Err(err) && err@ == e,
    }
}

/// The parsed-id abstraction of the prefix scan.
pub open spec fn oid(id: Option<Id>) -> Option<u64> {
    match id {
        Some(x) => Some(x.id),
        None => None,
    }
}

/// The prefix-scan state the executable walk is in: still scanning when no
/// kind has been seen, finished the moment one has.
pub open spec fn prefix_state(
    fv: Seq<(Seq<char>, JsonV)>,
    i: int,
    id: Option<Id>,
    t: Option<String>,
) -> Result<(int, Option<u64>, Option<Seq<char>>), ErrV> {
    match t {
        None => if 0 <= i <= fv.len() {
            spec_node_prefix(fv, i, oid(id))
        } else {
            spec_node_prefix(fv, 0, None)
        },
        Some(s) => Ok((i, oid(id), Some(s@))),
    }
}

/// The declared-fields abstraction of the payload walk.
pub open spec fn odecls(d: Option<&Vec<FieldDecl>>) -> Option<Seq<FieldDeclV>> {
    match d {
        Some(v) => Some(v.deep_view()),
        None => None,
    }
}

/// The child-list abstraction of the payload walk.
pub open spec fn okids(k: Option<Vec<Node<Payload>>>, kv: Seq<NodeV>) -> Option<Seq<NodeV>> {
    match k {
        Some(_) => Some(kv),
        None => None,
    }
}

/// What decoding the remaining `inner` elements must produce for the whole
/// array to decode to the children collected so far plus the rest.
pub open spec fn children_state(
    ev: Seq<JsonV>,
    k: int,
    sch: Seq<VariantV>,
    st: SessV,
    ksv: Seq<NodeV>,
) -> Result<(Seq<NodeV>, SessV), ErrV> {
    if 0 <= k <= ev.len() {
        match spec_decode_children(ev, k, sch, st) {
            Ok((ns, st2)) => Ok((ksv + ns, st2)),
            Err(e) => Err(e),
        }
    } else {
        Err(ErrV::TypeMismatch { expected: "an array"@ })
    }
}

/// Whether a tag is a real kind tag rather than the null sentinel.
pub open spec fn tagged_of(tag: AnyKind) -> bool {
    !(tag matches AnyKind::Kind(Kind::null))
}

/// How a payload-walk result relates to its specification.
pub open spec fn walk_outcome(
    r: Result<(Vec<(String, FieldValue)>, Vec<Node<Payload>>), Error>,
    s: Result<(Seq<(Seq<char>, FieldValV)>, Seq<NodeV>, SessV), ErrV>,
    stf: SessV,
) -> bool {
    match s {
        Ok(p) => r matches Ok(pair) && pf_view(pair.0@) == p.0 && node_view_seq(pair.1@) == p.1
            && stf == p.2,
        Err(e) => r matches Err(err) && err@ == e,
    }
}

/// Walk a node object's fields after the prefix: divert `inner` into the
/// child list, collect or drain the payload fields, all in arrival order.
#[verifier::rlimit(50)]
#[verifier::spinoff_prover]
fn walk_fields_exec(
    fields: &Vec<(String, Json)>,
    i0: usize,
    schema: &Schema,
    decls: Option<&Vec<FieldDecl>>,
    tag: &AnyKind,
    sess: &mut Session,
) -> (r: Result<(Vec<(String, FieldValue)>, Vec<Node<Payload>>), Error>)
    requires
        old(sess).wf(),
        i0 <= fields@.len(),
    ensures
        final(sess).wf(),
        final(sess).depth() == old(sess).depth(),
        st_extends(old(sess)@, final(sess)@),
        walk_outcome(
            r,
            spec_walk_fields(
                jview_fields(fields@),
                i0 as int,
                schema@,
                odecls(decls),
                tagged_of(*tag),
                tag@,
                Seq::empty(),
                None,
                old(sess)@,
            ),
            final(sess)@,
        ),
    decreases *fields,
{
    let ghost sch = schema@;
    let ghost fv = jview_fields(fields@);
    let ghost tagv = tag@;
    let ghost tagged = tagged_of(*tag);
    let ghost st0 = old(sess)@;
    proof {
        crate::json::lemma_jview_fields_index(fields@);
    }
    let n = fields.len();
    let mut i = i0;
    let mut pf: Vec<(String, FieldValue)> = Vec::new();
    let mut kids: Option<Vec<Node<Payload>>> = None;
    let mut kidsv_tracker: Ghost<Seq<NodeV>> = Ghost(Seq::empty());
    proof {
        assert(pf_view(pf@) =~= Seq::<(Seq<char>, FieldValV)>::empty());
    }
    while i < n
        invariant
            old(sess).wf(),
            sess.wf(),
            sess.depth() == old(sess).depth(),
            st_extends(old(sess)@, sess@),
            i0 as int <= i as int <= n,
            n == fields@.len(),
            fv == jview_fields(fields@),
            fv.len() == n,
            sch == schema@,
            tagged == tagged_of(*tag),
            tagv == tag@,
            st0 == old(sess)@,
            spec_walk_fields(fv, i0 as int, sch, odecls(decls), tagged, tagv, Seq::empty(), None, st0)
                == spec_walk_fields(
                fv,
                i as int,
                sch,
                odecls(decls),
                tagged,
                tagv,
                pf_view(pf@),
                okids(kids, kidsv_tracker@),
                sess@,
            ),
            (kids matches Some(ks) ==> node_view_seq(ks@) == kidsv_tracker@),
        decreases n - i,
    {
        proof {
            crate::json::lemma_jview_fields_index(fields@);
            crate::loc::lemma_field_names_distinct();
        }
        let ghost cur = spec_walk_fields(
            fv,
            i as int,
            sch,
            odecls(decls),
            tagged,
            tagv,
            pf_view(pf@),
            okids(kids, kidsv_tracker@),
            sess@,
        );
        let name = fields[i].0.as_str();
        if str_eq(name, "inner") {
            if kids.is_some() {
                proof {
                    assert(cur == Err::<(Seq<(Seq<char>, FieldValV)>, Seq<NodeV>, SessV), ErrV>(
                        ErrV::DuplicateField { field: "inner"@ },
                    ));
                }
                return Err(Error::DuplicateField { field: String::from_str("inner") });
            }
            let elems = match &fields[i].1 {
                Json::Arr(elems) => elems,
                _ => {
                    proof {
                        assert(cur == Err::<(Seq<(Seq<char>, FieldValV)>, Seq<NodeV>, SessV), ErrV>(
                            ErrV::TypeMismatch { expected: "an array"@ },
                        ));
                    }
                    return Err(Error::TypeMismatch { expected: String::from_str("an array") });
                },
            };
            let ghost ev = jview_seq(elems@);
            proof {
                crate::json::lemma_jview_seq_index(elems@);
                assert(fv[i as int].1 == JsonV::Arr(ev));
                assert(decreases_to!(*fields => fields@));
                assert(decreases_to!(fields@ => fields@[i as int]));
                assert(decreases_to!(fields@[i as int] => fields@[i as int].1));
                assert(fields@[i as int].1->Arr_0 == *elems);
                assert(decreases_to!(fields@[i as int].1 => fields@[i as int].1->Arr_0));
            }
            let ghost st_before = sess@;
            let ks = match decode_children(elems, schema, sess) {
                Ok(ks) => ks,
                Err(e) => {
                    proof {
                        assert(cur == Err::<(Seq<(Seq<char>, FieldValV)>, Seq<NodeV>, SessV), ErrV>(
                            e@,
                        ));
                    }
                    return Err(e);
                },
            };
            proof {
                assert(spec_decode_children(ev, 0, sch, st_before) == Ok::<
                    (Seq<NodeV>, SessV),
                    ErrV,
                >((node_view_seq(ks@), sess@)));
                assert(cur == spec_walk_fields(
                    fv,
                    i + 1,
                    sch,
                    odecls(decls),
                    tagged,
                    tagv,
                    pf_view(pf@),
                    Some(node_view_seq(ks@)),
                    sess@,
                ));
            }
            kidsv_tracker = Ghost(node_view_seq(ks@));
            kids = Some(ks);
            i = i + 1;
        } else {
            match decls {
                None => {
                    // A drained location still moves the cursor: later
                    // locations omit `file`/`line` against it.
                    if str_eq(name, "loc") {
                        match decode_source_location(&fields[i].1, sess) {
                            Ok(_) => {},
                            Err(e) => {
                                proof {
                                    assert(cur == Err::<
                                        (Seq<(Seq<char>, FieldValV)>, Seq<NodeV>, SessV),
                                        ErrV,
                                    >(e@));
                                }
                                return Err(e);
                            },
                        }
                    } else if str_eq(name, "range") {
                        match decode_source_range(&fields[i].1, sess) {
                            Ok(_) => {},
                            Err(e) => {
                                proof {
                                    assert(cur == Err::<
                                        (Seq<(Seq<char>, FieldValV)>, Seq<NodeV>, SessV),
                                        ErrV,
                                    >(e@));
                                }
                                return Err(e);
                            },
                        }
                    }
                    i = i + 1;
                },
                Some(ds) => {
                    let d = find_decl(ds, name);
                    if d >= ds.len() {
                        proof {
                            assert(ds.deep_view().len() == ds@.len());
                            lemma_find_decl_from(ds.deep_view(), fv[i as int].0, 0);
                            assert(cur == Err::<
                                (Seq<(Seq<char>, FieldValV)>, Seq<NodeV>, SessV),
                                ErrV,
                            >(ErrV::UnknownField {
                                field: fv[i as int].0,
                                kind: kind_note(tagged, tagv),
                            }));
                        }
                        let e = FieldOfKindError::UnknownField { field: fields[i].0.clone() };
                        return Err(e.with_kind(tag));
                    }
                    if pf_has(&pf, name) {
                        proof {
                            assert(cur == Err::<
                                (Seq<(Seq<char>, FieldValV)>, Seq<NodeV>, SessV),
                                ErrV,
                            >(ErrV::DuplicateField { field: fv[i as int].0 }));
                        }
                        return Err(Error::DuplicateField { field: fields[i].0.clone() });
                    }
                    proof {
                        assert(ds.deep_view()[d as int] == ds@[d as int].deep_view());
                    }
                    let ghost st_val = sess@;
                    let fvv: FieldValue = match ds[d].ty {
                        FieldTy::Loc => match decode_source_location(&fields[i].1, sess) {
                            Ok(l) => FieldValue::Loc(l),
                            Err(e) => {
                                proof {
                                    assert(cur == Err::<
                                        (Seq<(Seq<char>, FieldValV)>, Seq<NodeV>, SessV),
                                        ErrV,
                                    >(e@));
                                }
                                return Err(e);
                            },
                        },
                        FieldTy::Range => match decode_source_range(&fields[i].1, sess) {
                            Ok(rg) => FieldValue::Range(rg),
                            Err(e) => {
                                proof {
                                    assert(cur == Err::<
                                        (Seq<(Seq<char>, FieldValV)>, Seq<NodeV>, SessV),
                                        ErrV,
                                    >(e@));
                                }
                                return Err(e);
                            },
                        },
                        FieldTy::Verbatim => FieldValue::Verbatim(json_clone(&fields[i].1)),
                    };
                    let ghost pf_before = pf_view(pf@);
                    let ghost pfvec_before = pf@;
                    pf.push((fields[i].0.clone(), fvv));
                    proof {
                        assert(pf@.drop_last() =~= pfvec_before);
                        assert(pf@.last().0@ == fields@[i as int].0@);
                        assert(pf@.last().1 == fvv);
                        assert(pf_view(pf@) == pf_before.push((fields@[i as int].0@, fvv@)));
                        assert(cur == spec_walk_fields(
                            fv,
                            i + 1,
                            sch,
                            odecls(decls),
                            tagged,
                            tagv,
                            pf_view(pf@),
                            okids(kids, kidsv_tracker@),
                            sess@,
                        ));
                    }
                    i = i + 1;
                },
            }
        }
    }
    // Required payload fields must all have appeared.
    let ghost endw = spec_walk_fields(
        fv,
        n as int,
        sch,
        odecls(decls),
        tagged,
        tagv,
        pf_view(pf@),
        okids(kids, kidsv_tracker@),
        sess@,
    );
    if let Some(ds) = decls {
        let m = missing_decl(ds, &pf);
        if m < ds.len() {
            proof {
                assert(ds.deep_view()[m as int] == ds@[m as int].deep_view());
                assert(endw == Err::<(Seq<(Seq<char>, FieldValV)>, Seq<NodeV>, SessV), ErrV>(
                    ErrV::MissingField { field: ds@[m as int].name@, kind: kind_note(tagged, tagv) },
                ));
            }
            let e = FieldOfKindError::MissingField { field: ds[m].name.clone() };
            return Err(e.with_kind(tag));
        }
    }
    let kids_final = match kids {
        Some(ks) => ks,
        None => Vec::new(),
    };
    proof {
        if kids is None {
            assert(node_view_seq(kids_final@) =~= Seq::<NodeV>::empty());
        }
        assert(endw == Ok::<(Seq<(Seq<char>, FieldValV)>, Seq<NodeV>, SessV), ErrV>(
            (pf_view(pf@), node_view_seq(kids_final@), sess@),
        ));
    }
    Ok((pf, kids_final))
}

/// Decode one node object against a schema, threading the session.
#[verifier::rlimit(50)]
#[verifier::spinoff_prover]
pub fn decode_node(j: &Json, schema: &Schema, sess: &mut Session) -> (r: Result<
    Node<Payload>,
    Error,
>)
    requires
        old(sess).wf(),
    ensures
        final(sess).wf(),
        final(sess).depth() == old(sess).depth(),
        st_extends(old(sess)@, final(sess)@),
        node_outcome(r, spec_decode_node(jview(*j), schema@, old(sess)@), final(sess)@),
    decreases *j,
{
    let ghost sch = schema@;
    let fields = match j {
        Json::Obj(fields) => fields,
        _ => {
            return Err(Error::TypeMismatch { expected: String::from_str("an object") });
        },
    };
    let ghost fv = jview_fields(fields@);
    proof {
        crate::json::lemma_jview_fields_index(fields@);
        assert(jview(*j) == JsonV::Obj(fv));
    }
    let n = fields.len();

    // Prefix scan: `id` and `kind`, in arrival order.
    let mut i: usize = 0;
    let mut id: Option<Id> = None;
    let mut tag_str: Option<String> = None;
    while i < n && tag_str.is_none()
        invariant
            0 <= i <= n,
            n == fields@.len(),
            fv == jview_fields(fields@),
            fv.len() == n,
            jview(*j) == JsonV::Obj(fv),
            sess.wf(),
            sess@ == old(sess)@,
            sess.depth() == old(sess).depth(),
            spec_node_prefix(fv, 0, None) == prefix_state(fv, i as int, id, tag_str),
        decreases n - i,
    {
        proof {
            crate::json::lemma_jview_fields_index(fields@);
            crate::loc::lemma_field_names_distinct();
        }
        let name = fields[i].0.as_str();
        if str_eq(name, "id") {
            if id.is_some() {
                return Err(Error::DuplicateField { field: String::from_str("id") });
            }
            let sval = match &fields[i].1 {
                Json::Str(sval) => sval,
                _ => {
                    return Err(Error::TypeMismatch { expected: String::from_str("a node id") });
                },
            };
            let parsed = match Id::parse(sval.as_str()) {
                Some(parsed) => parsed,
                None => {
                    return Err(Error::TypeMismatch { expected: String::from_str("a node id") });
                },
            };
            id = Some(parsed);
            i = i + 1;
        } else if str_eq(name, "kind") {
            let sval = match &fields[i].1 {
                Json::Str(sval) => sval,
                _ => {
                    return Err(Error::TypeMismatch { expected: String::from_str("a string") });
                },
            };
            tag_str = Some(sval.clone());
            i = i + 1;
        } else if str_eq(name, "inner") {
            return Err(Error::MissingField { field: String::from_str("kind"), kind: None });
        } else {
            return Err(Error::UnknownField { field: fields[i].0.clone(), kind: None });
        }
    }

    // Resolve the kind tag; absent means the null sentinel.
    let tagged = tag_str.is_some();
    let tag: AnyKind = match &tag_str {
        Some(s) => AnyKind::resolve(s.as_str()),
        None => AnyKind::null(),
    };
    let ghost tagv: Seq<char> = tag@;
    proof {
        if !tagged {
            assert(tag@ == "null"@);
        }
        assert(tagged == tagged_of(tag));
        assert(spec_node_prefix(fv, 0, None) == Ok::<
            (int, Option<u64>, Option<Seq<char>>),
            ErrV,
        >((i as int, oid(id), if tagged { Some(tagv) } else { None })));
    }

    // Select the payload variant: exact name match, else declared fallback.
    let vi = find_variant(&schema.variants, tag.as_str());
    let nv = schema.variants.len();
    let chosen = if vi < nv {
        vi
    } else {
        find_fallback(&schema.variants)
    };
    if chosen >= nv {
        return Err(Error::UnknownVariant { kind: String::from_str(tag.as_str()) });
    }
    proof {
        assert(sch[chosen as int] == schema.variants@[chosen as int].deep_view());
    }
    let decls: Option<&Vec<FieldDecl>> = match &schema.variants[chosen].shape {
        VariantShape::Tuple => {
            return Err(Error::TypeMismatch {
                expected: String::from_str("tuple variant of type `").concat(tag.as_str()).concat(
                    "`",
                ),
            });
        },
        VariantShape::Unit => None,
        VariantShape::Fields(ds) => Some(ds),
    };
    let ghost idv: u64 = match id {
        Some(x) => x.id,
        None => 0,
    };
    proof {
        assert(decreases_to!(*j => j->Obj_0));
        assert(j->Obj_0 == *fields);
        assert(node_reduces(
            jview(*j),
            sch,
            fv,
            i as int,
            odecls(decls),
            tagged,
            tagv,
            sess@,
            chosen as int,
            idv,
        ));
    }
    let pair = match walk_fields_exec(fields, i, schema, decls, &tag, sess) {
        Ok(pair) => pair,
        Err(e) => {
            return Err(e);
        },
    };
    let (pf, kids_final) = pair;
    let id_final = match id {
        Some(x) => x,
        None => Id::null(),
    };
    let node = Node {
        id: id_final,
        kind: Payload { tag, variant: chosen, fields: pf },
        inner: kids_final,
    };
    Ok(node)
}


// ---------------------------------------------------------------------------
// Encoding: kind first, payload fields next, `inner` last.
// ---------------------------------------------------------------------------

/// All location handles in a payload field list point into a table of
/// `len` strings.
pub open spec fn pf_wf(pf: Seq<(Seq<char>, FieldValV)>, len: int) -> bool {
    forall|k: int|
        0 <= k < pf.len() ==> match (#[trigger] pf[k]).1 {
            FieldValV::Loc(l) => loc_wf(l, len),
            FieldValV::Range(r) => range_wf(r, len),
            FieldValV::Verbatim(_) => true,
        }
}

/// All location handles in a node tree point into a table of `len` strings.
pub open spec fn node_wf(n: NodeV, len: int) -> bool
    decreases n, 0int,
{
    &&& pf_wf(n.kind.fields, len)
    &&& {
        proof {
            assert(decreases_to!(n => n.inner));
        }
        nodes_wf(n.inner, len)
    }
}

/// All location handles in a node list point into a table of `len` strings.
pub open spec fn nodes_wf(ns: Seq<NodeV>, len: int) -> bool
    decreases ns, 1int,
{
    if ns.len() == 0 {
        true
    } else {
        node_wf(ns.last(), len) && nodes_wf(ns.drop_last(), len)
    }
}

/// Encode a payload field list from position `i` on, threading the cursor.
pub open spec fn spec_encode_pf(
    pf: Seq<(Seq<char>, FieldValV)>,
    i: int,
    st: SessV,
) -> (Seq<(Seq<char>, JsonV)>, SessV)
    decreases pf.len() - i,
    when 0 <= i <= pf.len()
{
    if i == pf.len() {
        (Seq::empty(), st)
    } else {
        let (entry, st1) = match pf[i].1 {
            FieldValV::Loc(l) => {
                let p = crate::loc::spec_encode_loc(l, st);
                ((pf[i].0, p.0), p.1)
            },
            FieldValV::Range(r) => {
                let p = crate::loc::spec_encode_range(r, st);
                ((pf[i].0, p.0), p.1)
            },
            FieldValV::Verbatim(v) => ((pf[i].0, v), st),
        };
        let rest = spec_encode_pf(pf, i + 1, st1);
        (seq![entry] + rest.0, rest.1)
    }
}

/// Encode one node: `id` when it is not null, `kind` when the node carries
/// a real tag, the payload's fields in their stored order, and `inner` last
/// when there are children.
pub open spec fn spec_encode_node(n: NodeV, st: SessV) -> (JsonV, SessV)
    decreases n, 0int,
{
    let head: Seq<(Seq<char>, JsonV)> = if n.id != 0 {
        seq![("id"@, JsonV::Str(crate::id::id_repr(n.id as int)))]
    } else {
        Seq::empty()
    };
    let head = if n.kind.tagged {
        head + seq![("kind"@, JsonV::Str(n.kind.tag))]
    } else {
        head
    };
    let p = spec_encode_pf(n.kind.fields, 0, st);
    let head = head + p.0;
    if n.inner.len() > 0 {
        let q = {
            proof {
                assert(decreases_to!(n => n.inner));
            }
            spec_encode_nodes(n.inner, 0, p.1)
        };
        (JsonV::Obj(head + seq![("inner"@, JsonV::Arr(q.0))]), q.1)
    } else {
        (JsonV::Obj(head), p.1)
    }
}

/// Encode a node list from position `k` on, threading the cursor.
pub open spec fn spec_encode_nodes(ns: Seq<NodeV>, k: int, st: SessV) -> (Seq<JsonV>, SessV)
    decreases ns, 1int, ns.len() - k,
    when 0 <= k <= ns.len()
{
    if k == ns.len() {
        (Seq::empty(), st)
    } else {
        let p = {
            proof {
                assert(decreases_to!(ns => ns[k]));
            }
            spec_encode_node(ns[k], st)
        };
        let rest = spec_encode_nodes(ns, k + 1, p.1);
        (seq![p.0] + rest.0, rest.1)
    }
}


/// Encode one node tree, re-applying the delta compression.
#[verifier::rlimit(50)]
#[verifier::spinoff_prover]
pub fn encode_node(n: &Node<Payload>, sess: &mut Session) -> (r: Json)
    requires
        old(sess).wf(),
        node_wf(node_view(*n), old(sess)@.strings.len() as int),
    ensures
        final(sess).wf(),
        final(sess).depth() == old(sess).depth(),
        final(sess)@.strings == old(sess)@.strings,
        jview(r) == spec_encode_node(node_view(*n), old(sess)@).0,
        final(sess)@ == spec_encode_node(node_view(*n), old(sess)@).1,
    decreases *n,
{
    let ghost nv = node_view(*n);
    let mut out: Vec<(String, Json)> = Vec::new();
    proof {
        assert(jview_fields(out@) =~= Seq::<(Seq<char>, JsonV)>::empty());
        lemma_pf_view_index(n.kind.fields@);
    }
    if n.id.id != 0 {
        let hex = n.id.to_hex();
        crate::loc::push_field(&mut out, String::from_str("id"), Json::Str(hex));
    }
    let tagged = !matches!(&n.kind.tag, AnyKind::Kind(Kind::null));
    if tagged {
        let ks = String::from_str(n.kind.tag.as_str());
        crate::loc::push_field(&mut out, String::from_str("kind"), Json::Str(ks));
    }
    let ghost head0 = jview_fields(out@);
    let ghost st0 = sess@;
    let ghost pfv = nv.kind.fields;
    let m = n.kind.fields.len();
    let mut i: usize = 0;
    while i < m
        invariant
            old(sess).wf(),
            sess.wf(),
            sess.depth() == old(sess).depth(),
            sess@.strings == old(sess)@.strings,
            0 <= i <= m,
            m == n.kind.fields@.len(),
            pfv == pf_view(n.kind.fields@),
            pfv.len() == m,
            pfv == nv.kind.fields,
            node_wf(nv, old(sess)@.strings.len() as int),
            nv == node_view(*n),
            st0 == old(sess)@,
            jview_fields(out@) + spec_encode_pf(pfv, i as int, sess@).0 == head0
                + spec_encode_pf(pfv, 0, st0).0,
            spec_encode_pf(pfv, i as int, sess@).1 == spec_encode_pf(pfv, 0, st0).1,
        decreases m - i,
    {
        proof {
            lemma_pf_view_index(n.kind.fields@);
            assert(pf_wf(pfv, old(sess)@.strings.len() as int));
            assert(pfv[i as int] == (n.kind.fields@[i as int].0@, n.kind.fields@[i as int].1@));
        }
        let name = n.kind.fields[i].0.clone();
        let value: Json = match &n.kind.fields[i].1 {
            FieldValue::Loc(l) => crate::loc::encode_source_location(l, sess),
            FieldValue::Range(rg) => crate::loc::encode_source_range(rg, sess),
            FieldValue::Verbatim(v) => json_clone(v),
        };
        crate::loc::push_field(&mut out, name, value);
        i = i + 1;
    }
    proof {
        assert(spec_encode_pf(pfv, m as int, sess@).0 =~= Seq::<(Seq<char>, JsonV)>::empty());
        assert(jview_fields(out@) =~= head0 + spec_encode_pf(pfv, 0, st0).0);
    }
    if n.inner.len() > 0 {
        let ghost stp = sess@;
        let ghost kv = nv.inner;
        proof {
            lemma_node_view_seq_index(n.inner@);
            assert(nodes_wf(kv, old(sess)@.strings.len() as int));
        }
        let c = n.inner.len();
        let mut kids_js: Vec<Json> = Vec::new();
        let mut k: usize = 0;
        proof {
            assert(jview_seq(kids_js@) =~= Seq::<JsonV>::empty());
        }
        while k < c
            invariant
                old(sess).wf(),
                sess.wf(),
                sess.depth() == old(sess).depth(),
                sess@.strings == old(sess)@.strings,
                0 <= k <= c,
                c == n.inner@.len(),
                kv == node_view_seq(n.inner@),
                kv.len() == c,
                nodes_wf(kv, old(sess)@.strings.len() as int),
                stp == spec_encode_pf(pf_view(n.kind.fields@), 0, st0).1,
                jview_seq(kids_js@) + spec_encode_nodes(kv, k as int, sess@).0
                    == spec_encode_nodes(kv, 0, stp).0,
                spec_encode_nodes(kv, k as int, sess@).1 == spec_encode_nodes(kv, 0, stp).1,
        decreases c - k,
        {
            proof {
                lemma_node_view_seq_index(n.inner@);
                lemma_nodes_wf_index(kv, old(sess)@.strings.len() as int);
                assert(decreases_to!(*n => n.inner));
                assert(decreases_to!(n.inner => n.inner@));
                assert(decreases_to!(n.inner@ => n.inner@[k as int]));
            }
            let cj = encode_node(&n.inner[k], sess);
            let ghost kb = kids_js@;
            kids_js.push(cj);
            proof {
                assert(kids_js@.drop_last() =~= kb);
                assert(jview_seq(kids_js@) == jview_seq(kb).push(jview(cj)));
                let rest = spec_encode_nodes(kv, k + 1, sess@);
                assert(jview_seq(kb).push(jview(cj)) + rest.0 =~= jview_seq(kb) + (seq![jview(cj)]
                    + rest.0));
            }
            k = k + 1;
        }
        proof {
            assert(spec_encode_nodes(kv, c as int, sess@).0 =~= Seq::<JsonV>::empty());
            assert(jview_seq(kids_js@) =~= spec_encode_nodes(kv, 0, stp).0);
        }
        let ghost before_inner = out@;
        crate::loc::push_field(&mut out, String::from_str("inner"), Json::Arr(kids_js));
        proof {
            let whole = head0 + spec_encode_pf(pfv, 0, st0).0;
            assert(jview_fields(out@) =~= whole + seq![
                ("inner"@, JsonV::Arr(spec_encode_nodes(kv, 0, stp).0)),
            ]);
            assert(head0 =~= spec_head(nv));
        }
        Json::Obj(out)
    } else {
        proof {
            assert(nv.inner.len() == 0);
            assert(head0 =~= spec_head(nv));
        }
        Json::Obj(out)
    }
}

/// The `id` and `kind` entries a node's encoding begins with.
pub open spec fn spec_head(n: NodeV) -> Seq<(Seq<char>, JsonV)> {
    let head: Seq<(Seq<char>, JsonV)> = if n.id != 0 {
        seq![("id"@, JsonV::Str(crate::id::id_repr(n.id as int)))]
    } else {
        Seq::empty()
    };
    if n.kind.tagged {
        head + seq![("kind"@, JsonV::Str(n.kind.tag))]
    } else {
        head
    }
}

/// Well-formedness of a node list carries to each element.
pub proof fn lemma_nodes_wf_index(ns: Seq<NodeV>, len: int)
    requires
        nodes_wf(ns, len),
    ensures
        forall|k: int| 0 <= k < ns.len() ==> node_wf(#[trigger] ns[k], len),
    decreases ns,
{
    if ns.len() > 0 {
        lemma_nodes_wf_index(ns.drop_last(), len);
        assert(forall|k: int| 0 <= k < ns.len() - 1 ==> ns.drop_last()[k] == ns[k]);
    }
}


/// The decoding half of the codec, configured with a payload schema.
pub struct NodeDeserializer<'a> {
    pub schema: &'a Schema,
}

impl<'a> NodeDeserializer<'a> {
    /// A decoder for one payload schema.
    pub fn new(schema: &'a Schema) -> (r: NodeDeserializer<'a>)
        ensures
            r.schema == schema,
    {
        NodeDeserializer { schema }
    }

    /// Decode one node object.
    pub fn decode(&self, j: &Json, sess: &mut Session) -> (r: Result<Node<Payload>, Error>)
        requires
            old(sess).wf(),
        ensures
            final(sess).wf(),
            final(sess).depth() == old(sess).depth(),
            st_extends(old(sess)@, final(sess)@),
            node_outcome(r, spec_decode_node(jview(*j), self.schema@, old(sess)@), final(sess)@),
    {
        decode_node(j, self.schema, sess)
    }
}

/// The encoding half of the codec.
pub struct NodeSerializer {}

impl NodeSerializer {
    /// An encoder.
    pub fn new() -> (r: NodeSerializer) {
        NodeSerializer {  }
    }

    /// Encode one node tree.
    pub fn encode(&self, n: &Node<Payload>, sess: &mut Session) -> (r: Json)
        requires
            old(sess).wf(),
            node_wf(node_view(*n), old(sess)@.strings.len() as int),
        ensures
            final(sess).wf(),
            final(sess).depth() == old(sess).depth(),
            final(sess)@.strings == old(sess)@.strings,
            jview(r) == spec_encode_node(node_view(*n), old(sess)@).0,
            final(sess)@ == spec_encode_node(node_view(*n), old(sess)@).1,
    {
        encode_node(n, sess)
    }
}

/// Kind fallback: a kind string that matches no declared variant dispatches
/// to the declared fallback variant when the schema has one — any successful
/// dispatch lands on the fallback, whose payload receives the verbatim tag —
/// and fails with exactly an unknown-variant error naming the string when
/// the schema declares none.
pub proof fn lemma_kind_fallback(
    fields: Seq<(Seq<char>, JsonV)>,
    i: int,
    sch: Seq<VariantV>,
    tag: Seq<char>,
    tagged: bool,
    st: SessV,
)
    requires
        0 <= i <= fields.len(),
        find_variant_from(sch, tag, 0) == sch.len(),
    ensures
        find_fallback_from(sch, 0) == sch.len() ==> spec_dispatch(fields, i, sch, tag, tagged, st)
            == Err::<(int, Seq<(Seq<char>, FieldValV)>, Seq<NodeV>, SessV), ErrV>(
            ErrV::UnknownVariant { kind: tag },
        ),
        find_fallback_from(sch, 0) < sch.len() ==> (spec_dispatch(
            fields,
            i,
            sch,
            tag,
            tagged,
            st,
        ) matches Ok(p) ==> p.0 == find_fallback_from(sch, 0)),
{
    lemma_find_fallback_from(sch, 0);
}


// ---------------------------------------------------------------------------
// The node-level round trip.
// ---------------------------------------------------------------------------

/// The variant a tag string selects: the variant of that name, else the
/// declared fallback, else the variant count.
pub open spec fn dispatch_choice(sch: Seq<VariantV>, tag: Seq<char>) -> int {
    let vi = find_variant_from(sch, tag, 0);
    if vi < sch.len() {
        vi
    } else {
        find_fallback_from(sch, 0)
    }
}

/// One collected payload field is clean: not named `inner`, and its first
/// matching declaration has its value's type, location values canonical for
/// a table of `nstr` strings.
pub open spec fn pf_entry_ok(e: (Seq<char>, FieldValV), ds: Seq<FieldDeclV>, nstr: int) -> bool {
    let d = find_decl_from(ds, e.0, 0);
    &&& e.0 != "inner"@
    &&& d < ds.len()
    &&& match e.1 {
        FieldValV::Loc(l) => ds[d].ty == FieldTy::Loc && crate::loc::loc_canonical_n(l, nstr),
        FieldValV::Range(r) => ds[d].ty == FieldTy::Range && crate::loc::range_canonical_n(
            r,
            nstr,
        ),
        FieldValV::Verbatim(_) => ds[d].ty == FieldTy::Verbatim,
    }
}

/// Payload fields as decoding collects them: every entry clean, names
/// distinct.
pub open spec fn pf_entries_ok(
    pf: Seq<(Seq<char>, FieldValV)>,
    ds: Seq<FieldDeclV>,
    nstr: int,
) -> bool {
    &&& forall|k1: int, k2: int| 0 <= k1 < k2 < pf.len() ==> pf[k1].0 != pf[k2].0
    &&& forall|k: int| 0 <= k < pf.len() ==> pf_entry_ok(#[trigger] pf[k], ds, nstr)
}

/// A payload field list as decoding against `ds` produces it: the entries
/// collect cleanly and no required declaration is missing.
pub open spec fn pf_canonical(
    pf: Seq<(Seq<char>, FieldValV)>,
    ds: Seq<FieldDeclV>,
    nstr: int,
) -> bool {
    pf_entries_ok(pf, ds, nstr) && missing_decl_from(ds, pf, 0) == ds.len()
}

/// A node as decoding against `sch` produces it: an untagged node is bare
/// (the `null` tag, no payload fields, no children); the stored variant is
/// the one its tag selects, and that variant's shape accepts the stored
/// fields; children are canonical in turn.
pub open spec fn node_canonical(n: NodeV, sch: Seq<VariantV>, nstr: int) -> bool
    decreases n, 0int,
{
    &&& (!n.kind.tagged ==> n.kind.tag == "null"@ && n.kind.fields.len() == 0 && n.inner.len()
        == 0)
    &&& n.kind.variant == dispatch_choice(sch, n.kind.tag)
    &&& 0 <= n.kind.variant < sch.len()
    &&& match sch[n.kind.variant].shape {
        ShapeV::Tuple => false,
        ShapeV::Unit => n.kind.fields.len() == 0,
        ShapeV::Fields(ds) => pf_canonical(n.kind.fields, ds, nstr),
    }
    &&& {
        proof {
            assert(decreases_to!(n => n.inner));
        }
        nodes_canonical(n.inner, sch, nstr)
    }
}

/// A node list whose members are all canonical.
pub open spec fn nodes_canonical(ns: Seq<NodeV>, sch: Seq<VariantV>, nstr: int) -> bool
    decreases ns, 1int,
{
    if ns.len() == 0 {
        true
    } else {
        node_canonical(ns.last(), sch, nstr) && nodes_canonical(ns.drop_last(), sch, nstr)
    }
}

/// Canonicity of a node list carries to each element.
pub proof fn lemma_nodes_canonical_index(ns: Seq<NodeV>, sch: Seq<VariantV>, nstr: int)
    requires
        nodes_canonical(ns, sch, nstr),
    ensures
        forall|k: int| 0 <= k < ns.len() ==> node_canonical(#[trigger] ns[k], sch, nstr),
    decreases ns,
{
    if ns.len() > 0 {
        lemma_nodes_canonical_index(ns.drop_last(), sch, nstr);
        assert(forall|k: int| 0 <= k < ns.len() - 1 ==> ns.drop_last()[k] == ns[k]);
    }
}

/// Encoding payload fields emits exactly one entry per field, keeps the
/// string table, and preserves state well-formedness.
pub proof fn lemma_encode_pf_props(pf: Seq<(Seq<char>, FieldValV)>, j: int, st: SessV)
    requires
        0 <= j <= pf.len(),
        pf_wf(pf, st.strings.len() as int),
    ensures
        spec_encode_pf(pf, j, st).0.len() == pf.len() - j,
        spec_encode_pf(pf, j, st).1.strings == st.strings,
        st.wf() ==> spec_encode_pf(pf, j, st).1.wf(),
    decreases pf.len() - j,
{
    if j < pf.len() {
        match pf[j].1 {
            FieldValV::Loc(l) => {
                crate::loc::lemma_encode_loc_state(l, st);
                lemma_encode_pf_props(pf, j + 1, crate::loc::spec_encode_loc(l, st).1);
            },
            FieldValV::Range(r) => {
                crate::loc::lemma_encode_range_state(r, st);
                lemma_encode_pf_props(pf, j + 1, crate::loc::spec_encode_range(r, st).1);
            },
            FieldValV::Verbatim(_) => {
                lemma_encode_pf_props(pf, j + 1, st);
            },
        }
    }
}

/// Canonical payload fields have valid handles.
pub proof fn lemma_pf_canonical_wf(pf: Seq<(Seq<char>, FieldValV)>, ds: Seq<FieldDeclV>, nstr: int)
    requires
        pf_canonical(pf, ds, nstr),
    ensures
        pf_wf(pf, nstr),
{
    assert forall|k: int| 0 <= k < pf.len() implies match (#[trigger] pf[k]).1 {
        FieldValV::Loc(l) => crate::loc::loc_wf(l, nstr),
        FieldValV::Range(r) => crate::loc::range_wf(r, nstr),
        FieldValV::Verbatim(_) => true,
    } by {
        assert(pf_canonical(pf, ds, nstr));
    }
}


/// Walking the encoded form of canonical payload fields collects exactly
/// those fields back, ending in the encoder's final cursor state.
#[verifier::rlimit(60)]
#[verifier::spinoff_prover]
pub proof fn lemma_walk_encoded_pf(
    fields: Seq<(Seq<char>, JsonV)>,
    i: int,
    pfv: Seq<(Seq<char>, FieldValV)>,
    j: int,
    ds: Seq<FieldDeclV>,
    sch: Seq<VariantV>,
    tagged: bool,
    tag: Seq<char>,
    kids: Option<Seq<NodeV>>,
    st: SessV,
)
    requires
        0 <= j <= pfv.len(),
        0 <= i,
        i + (pfv.len() - j) <= fields.len(),
        st.wf(),
        crate::intern::strings_distinct(st.strings),
        pf_canonical(pfv, ds, st.strings.len() as int),
        fields.subrange(i, i + (pfv.len() - j)) == spec_encode_pf(pfv, j, st).0,
    ensures
        spec_walk_fields(fields, i, sch, Some(ds), tagged, tag, pfv.subrange(0, j), kids, st)
            == spec_walk_fields(
            fields,
            i + (pfv.len() - j),
            sch,
            Some(ds),
            tagged,
            tag,
            pfv,
            kids,
            spec_encode_pf(pfv, j, st).1,
        ),
    decreases pfv.len() - j,
{
    lemma_pf_canonical_wf(pfv, ds, st.strings.len() as int);
    lemma_encode_pf_props(pfv, j, st);
    if j == pfv.len() {
        assert(pfv.subrange(0, j) =~= pfv);
    } else {
        let enc = spec_encode_pf(pfv, j, st);
        let name = pfv[j].0;
        let entry = enc.0[0];
        assert(fields[i] == entry) by {
            assert(fields.subrange(i, i + (pfv.len() - j))[0] == fields[i]);
        }
        assert(entry.0 == name);
        assert(name != "inner"@);
        let d = find_decl_from(ds, name, 0);
        assert(d < ds.len());
        let done = pfv.subrange(0, j);
        assert(!has_field(done, name)) by {
            assert(forall|k: int| 0 <= k < j ==> (#[trigger] done[k]).0 == pfv[k].0);
            assert(forall|k: int| 0 <= k < j ==> pfv[k].0 != name);
        }
        let (st1, fval) = match pfv[j].1 {
            FieldValV::Loc(l) => {
                crate::loc::lemma_loc_round_trip(l, st);
                crate::loc::lemma_encode_loc_state(l, st);
                (crate::loc::spec_encode_loc(l, st).1, FieldValV::Loc(l))
            },
            FieldValV::Range(r) => {
                crate::loc::lemma_range_round_trip(r, st);
                crate::loc::lemma_encode_range_state(r, st);
                (crate::loc::spec_encode_range(r, st).1, FieldValV::Range(r))
            },
            FieldValV::Verbatim(v) => (st, FieldValV::Verbatim(v)),
        };
        assert(st1.strings == st.strings);
        assert((name, fval) == pfv[j]);
        assert(done.push(pfv[j]) =~= pfv.subrange(0, j + 1));
        assert(fields.subrange(i + 1, i + 1 + (pfv.len() - (j + 1))) =~= spec_encode_pf(
            pfv,
            j + 1,
            st1,
        ).0) by {
            let whole = fields.subrange(i, i + (pfv.len() - j));
            assert(whole == seq![entry] + spec_encode_pf(pfv, j + 1, st1).0);
            assert(forall|k: int|
                0 <= k < pfv.len() - j - 1 ==> #[trigger] fields.subrange(
                    i + 1,
                    i + 1 + (pfv.len() - (j + 1)),
                )[k] == fields[i + 1 + k] && whole[k + 1] == fields[i + 1 + k]);
        }
        lemma_walk_encoded_pf(fields, i + 1, pfv, j + 1, ds, sch, tagged, tag, kids, st1);
        assert(spec_walk_fields(fields, i, sch, Some(ds), tagged, tag, done, kids, st)
            == spec_walk_fields(
            fields,
            i + 1,
            sch,
            Some(ds),
            tagged,
            tag,
            pfv.subrange(0, j + 1),
            kids,
            st1,
        ));
        assert(spec_encode_pf(pfv, j, st).1 == spec_encode_pf(pfv, j + 1, st1).1);
    }
}


/// Encoding a node moves only the cursor: the string table is kept and
/// well-formedness survives.
pub proof fn lemma_encode_node_state(n: NodeV, st: SessV)
    requires
        node_wf(n, st.strings.len() as int),
    ensures
        spec_encode_node(n, st).1.strings == st.strings,
        st.wf() ==> spec_encode_node(n, st).1.wf(),
    decreases n, 0int,
{
    lemma_encode_pf_props(n.kind.fields, 0, st);
    let stp = spec_encode_pf(n.kind.fields, 0, st).1;
    if n.inner.len() > 0 {
        assert(decreases_to!(n => n.inner));
        lemma_encode_nodes_state(n.inner, 0, stp, st.strings.len() as int);
    }
}

/// Encoding a node list moves only the cursor and emits one element per
/// node.
pub proof fn lemma_encode_nodes_state(ns: Seq<NodeV>, k: int, st: SessV, nstr: int)
    requires
        0 <= k <= ns.len(),
        nodes_wf(ns, nstr),
        st.strings.len() == nstr,
    ensures
        spec_encode_nodes(ns, k, st).0.len() == ns.len() - k,
        spec_encode_nodes(ns, k, st).1.strings == st.strings,
        st.wf() ==> spec_encode_nodes(ns, k, st).1.wf(),
    decreases ns, 1int, ns.len() - k,
{
    if k < ns.len() {
        lemma_nodes_wf_index(ns, nstr);
        assert(decreases_to!(ns => ns[k]));
        lemma_encode_node_state(ns[k], st);
        lemma_encode_nodes_state(ns, k + 1, spec_encode_node(ns[k], st).1, nstr);
    }
}

/// A canonical node has valid handles throughout.
pub proof fn lemma_node_canonical_wf(n: NodeV, sch: Seq<VariantV>, nstr: int)
    requires
        node_canonical(n, sch, nstr),
    ensures
        node_wf(n, nstr),
    decreases n, 0int,
{
    match sch[n.kind.variant].shape {
        ShapeV::Tuple => {},
        ShapeV::Unit => {
            assert(pf_wf(n.kind.fields, nstr));
        },
        ShapeV::Fields(ds) => {
            lemma_pf_canonical_wf(n.kind.fields, ds, nstr);
        },
    }
    assert(decreases_to!(n => n.inner));
    lemma_nodes_canonical_wf(n.inner, sch, nstr);
}

/// A canonical node list has valid handles throughout.
pub proof fn lemma_nodes_canonical_wf(ns: Seq<NodeV>, sch: Seq<VariantV>, nstr: int)
    requires
        nodes_canonical(ns, sch, nstr),
    ensures
        nodes_wf(ns, nstr),
    decreases ns, 1int,
{
    if ns.len() > 0 {
        lemma_node_canonical_wf(ns.last(), sch, nstr);
        lemma_nodes_canonical_wf(ns.drop_last(), sch, nstr);
    }
}


/// Decoding the encoded forms of canonical nodes, standing at position `p`
/// of an `inner` array, reconstructs the nodes and ends in the encoder's
/// final cursor state.
#[verifier::rlimit(60)]
#[verifier::spinoff_prover]
pub proof fn lemma_decode_encoded_children(
    elems: Seq<JsonV>,
    p: int,
    ns: Seq<NodeV>,
    k: int,
    sch: Seq<VariantV>,
    st: SessV,
)
    requires
        0 <= p <= elems.len(),
        0 <= k <= ns.len(),
        elems.len() - p == ns.len() - k,
        st.wf(),
        crate::intern::strings_distinct(st.strings),
        nodes_canonical(ns, sch, st.strings.len() as int),
        elems.subrange(p, elems.len() as int) == spec_encode_nodes(ns, k, st).0,
    ensures
        spec_decode_children(elems, p, sch, st) == Ok::<(Seq<NodeV>, SessV), ErrV>(
            (ns.skip(k), spec_encode_nodes(ns, k, st).1),
        ),
    decreases ns, 1int, ns.len() - k,
{
    let nstr = st.strings.len() as int;
    lemma_nodes_canonical_wf(ns, sch, nstr);
    lemma_encode_nodes_state(ns, k, st, nstr);
    if k == ns.len() {
        assert(ns.skip(k) =~= Seq::<NodeV>::empty());
    } else {
        lemma_nodes_canonical_index(ns, sch, nstr);
        assert(decreases_to!(ns => ns[k]));
        let enc0 = spec_encode_node(ns[k], st);
        assert(elems[p] == enc0.0) by {
            assert(elems.subrange(p, elems.len() as int)[0] == elems[p]);
        }
        lemma_node_round_trip(ns[k], sch, st);
        lemma_nodes_wf_index(ns, nstr);
        lemma_encode_node_state(ns[k], st);
        let st1 = enc0.1;
        assert(st1.strings == st.strings);
        assert(elems.subrange(p + 1, elems.len() as int) =~= spec_encode_nodes(ns, k + 1, st1).0)
            by {
            let whole = elems.subrange(p, elems.len() as int);
            assert(whole == seq![enc0.0] + spec_encode_nodes(ns, k + 1, st1).0);
            assert(forall|m: int|
                0 <= m < elems.len() - p - 1 ==> #[trigger] elems.subrange(
                    p + 1,
                    elems.len() as int,
                )[m] == elems[p + 1 + m] && whole[m + 1] == elems[p + 1 + m]);
        }
        lemma_decode_encoded_children(elems, p + 1, ns, k + 1, sch, st1);
        assert(seq![ns[k]] + ns.skip(k + 1) =~= ns.skip(k));
        assert(spec_encode_nodes(ns, k, st).1 == spec_encode_nodes(ns, k + 1, st1).1);
    }
}

/// Round trip: encoding a canonical node from cursor state `st` and
/// decoding the result from the same state against the same schema
/// reconstructs the node exactly — id, kind payload, and children
/// recursively — and leaves decoder and encoder in the same state.  This is
/// the fixed point on the canonical compressed form: nodes as decoding
/// itself produces them.
#[verifier::rlimit(100)]
#[verifier::spinoff_prover]
pub proof fn lemma_node_round_trip(n: NodeV, sch: Seq<VariantV>, st: SessV)
    requires
        st.wf(),
        crate::intern::strings_distinct(st.strings),
        node_canonical(n, sch, st.strings.len() as int),
    ensures
        spec_decode_node(spec_encode_node(n, st).0, sch, st) == Ok::<(NodeV, SessV), ErrV>(
            (n, spec_encode_node(n, st).1),
        ),
    decreases n, 0int, 0int,
{
    crate::loc::lemma_field_names_distinct();
    let nstr = st.strings.len() as int;
    lemma_node_canonical_wf(n, sch, nstr);
    lemma_pf_canonical_wf_any(n, sch, nstr);
    lemma_encode_pf_props(n.kind.fields, 0, st);
    let pfv = n.kind.fields;
    let penc = spec_encode_pf(pfv, 0, st);
    let stp = penc.1;
    let enc = spec_encode_node(n, st);
    let fields = enc.0->Obj_0;
    let hl = spec_head(n).len() as int;
    assert(decreases_to!(n => n.inner));
    let cenc = spec_encode_nodes(n.inner, 0, stp);
    if n.inner.len() > 0 {
        lemma_encode_nodes_state(n.inner, 0, stp, nstr);
        assert(fields == spec_head(n) + penc.0 + seq![("inner"@, JsonV::Arr(cenc.0))]);
        assert(enc.1 == cenc.1);
    } else {
        assert(fields == spec_head(n) + penc.0);
        assert(enc.1 == stp);
    }
    let idv: Option<u64> = if n.id != 0 {
        Some(n.id)
    } else {
        None
    };
    let tago: Option<Seq<char>> = if n.kind.tagged {
        Some(n.kind.tag)
    } else {
        None
    };
    // The prefix scan reads back the id and kind entries.
    if n.id != 0 {
        crate::id::lemma_id_round_trip(n.id);
        assert(spec_head(n)[0] == ("id"@, JsonV::Str(crate::id::id_repr(n.id as int))));
        assert(fields[0] == ("id"@, JsonV::Str(crate::id::id_repr(n.id as int))));
        if n.kind.tagged {
            assert(fields[1] == ("kind"@, JsonV::Str(n.kind.tag)));
            assert(spec_node_prefix(fields, 0, None) == spec_node_prefix(fields, 1, Some(n.id)));
            assert(spec_node_prefix(fields, 1, Some(n.id)) == Ok::<
                (int, Option<u64>, Option<Seq<char>>),
                ErrV,
            >((2, Some(n.id), Some(n.kind.tag))));
        } else {
            assert(fields.len() == 1);
            assert(spec_node_prefix(fields, 0, None) == spec_node_prefix(fields, 1, Some(n.id)));
        }
    } else {
        if n.kind.tagged {
            assert(fields[0] == ("kind"@, JsonV::Str(n.kind.tag)));
        } else {
            assert(fields.len() == 0);
        }
    }
    assert(spec_node_prefix(fields, 0, None) == Ok::<(int, Option<u64>, Option<Seq<char>>), ErrV>(
        (hl, idv, tago),
    ));
    // Dispatch lands on the stored variant.
    let chosen = n.kind.variant;
    assert(find_variant_from(sch, n.kind.tag, 0) < sch.len() ==> chosen == find_variant_from(
        sch,
        n.kind.tag,
        0,
    ));
    // The payload walk reads back the payload fields and the children.
    let pfl = pfv.len() as int;
    match sch[chosen].shape {
        ShapeV::Tuple => {
            assert(false);
        },
        ShapeV::Unit => {
            assert(pfl == 0);
            assert(penc.0.len() == 0);
            assert(pfv =~= Seq::<(Seq<char>, FieldValV)>::empty());
            assert(stp == st);
            if n.inner.len() > 0 {
                assert(fields =~= spec_head(n) + seq![("inner"@, JsonV::Arr(cenc.0))]);
                assert(fields[hl] == ("inner"@, JsonV::Arr(cenc.0)));
                assert(fields.len() == hl + 1);
                assert(cenc.0.subrange(0, cenc.0.len() as int) =~= cenc.0);
                lemma_decode_encoded_children(cenc.0, 0, n.inner, 0, sch, st);
                assert(n.inner.skip(0) =~= n.inner);
                assert(spec_walk_fields(fields, hl, sch, None, n.kind.tagged, n.kind.tag,
                    Seq::empty(), None, st) == spec_walk_fields(fields, hl + 1, sch, None,
                    n.kind.tagged, n.kind.tag, Seq::empty(), Some(n.inner), cenc.1));
                assert(spec_walk_fields(fields, hl + 1, sch, None, n.kind.tagged, n.kind.tag,
                    Seq::empty(), Some(n.inner), cenc.1) == Ok::<
                    (Seq<(Seq<char>, FieldValV)>, Seq<NodeV>, SessV),
                    ErrV,
                >((Seq::empty(), n.inner, cenc.1)));
            } else {
                assert(fields.len() == hl);
                assert(spec_walk_fields(fields, hl, sch, None, n.kind.tagged, n.kind.tag,
                    Seq::empty(), None, st) == Ok::<
                    (Seq<(Seq<char>, FieldValV)>, Seq<NodeV>, SessV),
                    ErrV,
                >((Seq::empty(), Seq::empty(), st)));
            }
        },
        ShapeV::Fields(ds) => {
            assert(fields.subrange(hl, hl + pfl) =~= penc.0) by {
                assert(forall|m: int|
                    0 <= m < pfl ==> #[trigger] fields.subrange(hl, hl + pfl)[m] == fields[hl + m]
                        && (spec_head(n) + penc.0)[hl + m] == penc.0[m]);
                if n.inner.len() > 0 {
                    assert(forall|m: int|
                        0 <= m < pfl ==> #[trigger] fields[hl + m] == (spec_head(n) + penc.0)[hl
                            + m]);
                }
            }
            assert(Seq::<(Seq<char>, FieldValV)>::empty() =~= pfv.subrange(0, 0));
            lemma_walk_encoded_pf(fields, hl, pfv, 0, ds, sch, n.kind.tagged, n.kind.tag, None, st);
            if n.inner.len() > 0 {
                assert(fields[hl + pfl] == ("inner"@, JsonV::Arr(cenc.0)));
                assert(fields.len() == hl + pfl + 1);
                assert(cenc.0.subrange(0, cenc.0.len() as int) =~= cenc.0);
                assert(stp.wf());
                lemma_decode_encoded_children(cenc.0, 0, n.inner, 0, sch, stp);
                assert(n.inner.skip(0) =~= n.inner);
                assert(spec_walk_fields(fields, hl + pfl, sch, Some(ds), n.kind.tagged, n.kind.tag,
                    pfv, None, stp) == spec_walk_fields(fields, hl + pfl + 1, sch, Some(ds),
                    n.kind.tagged, n.kind.tag, pfv, Some(n.inner), cenc.1));
                assert(spec_walk_fields(fields, hl + pfl + 1, sch, Some(ds), n.kind.tagged,
                    n.kind.tag, pfv, Some(n.inner), cenc.1) == Ok::<
                    (Seq<(Seq<char>, FieldValV)>, Seq<NodeV>, SessV),
                    ErrV,
                >((pfv, n.inner, cenc.1)));
            } else {
                assert(fields.len() == hl + pfl);
                assert(spec_walk_fields(fields, hl + pfl, sch, Some(ds), n.kind.tagged, n.kind.tag,
                    pfv, None, stp) == Ok::<
                    (Seq<(Seq<char>, FieldValV)>, Seq<NodeV>, SessV),
                    ErrV,
                >((pfv, Seq::empty(), stp)));
            }
        },
    }
    // Reassembly gives back the very node.
    if n.inner.len() == 0 {
        assert(n.inner =~= Seq::<NodeV>::empty());
    }
    if pfl == 0 {
        assert(pfv =~= Seq::<(Seq<char>, FieldValV)>::empty());
    }
    let tag2: Seq<char> = match tago {
        Some(t) => t,
        None => "null"@,
    };
    assert(tag2 == n.kind.tag);
    assert((tago is Some) == n.kind.tagged);
    let dres = spec_dispatch(fields, hl, sch, n.kind.tag, n.kind.tagged, st);
    assert(dres == Ok::<(int, Seq<(Seq<char>, FieldValV)>, Seq<NodeV>, SessV), ErrV>(
        (chosen, n.kind.fields, n.inner, enc.1),
    ));
    assert(n.kind == (PayloadV {
        tag: n.kind.tag,
        tagged: n.kind.tagged,
        variant: n.kind.variant,
        fields: n.kind.fields,
    }));
    assert(n == (NodeV { id: n.id, kind: n.kind, inner: n.inner }));
    assert(spec_decode_node(enc.0, sch, st) == Ok::<(NodeV, SessV), ErrV>((n, enc.1)));
}

/// Canonical payload fields of any shape have valid handles.
pub proof fn lemma_pf_canonical_wf_any(n: NodeV, sch: Seq<VariantV>, nstr: int)
    requires
        node_canonical(n, sch, nstr),
    ensures
        pf_wf(n.kind.fields, nstr),
{
    match sch[n.kind.variant].shape {
        ShapeV::Tuple => {},
        ShapeV::Unit => {},
        ShapeV::Fields(ds) => {
            lemma_pf_canonical_wf(n.kind.fields, ds, nstr);
        },
    }
}


/// Canonicity only loosens as the table grows.
pub proof fn lemma_pf_entries_mono(
    pf: Seq<(Seq<char>, FieldValV)>,
    ds: Seq<FieldDeclV>,
    n1: int,
    n2: int,
)
    requires
        pf_entries_ok(pf, ds, n1),
        n1 <= n2,
    ensures
        pf_entries_ok(pf, ds, n2),
{
    assert forall|k: int| 0 <= k < pf.len() implies pf_entry_ok(#[trigger] pf[k], ds, n2) by {
        assert(pf_entry_ok(pf[k], ds, n1));
        match pf[k].1 {
            FieldValV::Loc(l) => crate::loc::lemma_loc_canonical_mono(l, n1, n2),
            FieldValV::Range(r) => crate::loc::lemma_range_canonical_mono(r, n1, n2),
            FieldValV::Verbatim(_) => {},
        }
    }
}

/// Node canonicity only loosens as the table grows.
pub proof fn lemma_node_canonical_mono(n: NodeV, sch: Seq<VariantV>, n1: int, n2: int)
    requires
        node_canonical(n, sch, n1),
        n1 <= n2,
    ensures
        node_canonical(n, sch, n2),
    decreases n, 0int,
{
    match sch[n.kind.variant].shape {
        ShapeV::Tuple => {},
        ShapeV::Unit => {},
        ShapeV::Fields(ds) => {
            lemma_pf_entries_mono(n.kind.fields, ds, n1, n2);
        },
    }
    assert(decreases_to!(n => n.inner));
    lemma_nodes_canonical_mono(n.inner, sch, n1, n2);
}

/// Node-list canonicity only loosens as the table grows.
pub proof fn lemma_nodes_canonical_mono(ns: Seq<NodeV>, sch: Seq<VariantV>, n1: int, n2: int)
    requires
        nodes_canonical(ns, sch, n1),
        n1 <= n2,
    ensures
        nodes_canonical(ns, sch, n2),
    decreases ns, 1int,
{
    if ns.len() > 0 {
        lemma_node_canonical_mono(ns.last(), sch, n1, n2);
        lemma_nodes_canonical_mono(ns.drop_last(), sch, n1, n2);
    }
}

/// Element-wise canonicity gives list canonicity.
pub proof fn lemma_nodes_canonical_from_index(ns: Seq<NodeV>, sch: Seq<VariantV>, nstr: int)
    requires
        forall|k: int| 0 <= k < ns.len() ==> node_canonical(#[trigger] ns[k], sch, nstr),
    ensures
        nodes_canonical(ns, sch, nstr),
    decreases ns,
{
    if ns.len() > 0 {
        assert(forall|k: int| 0 <= k < ns.len() - 1 ==> ns.drop_last()[k] == ns[k]);
        lemma_nodes_canonical_from_index(ns.drop_last(), sch, nstr);
    }
}

/// The prefix scan stays within the object and ends exactly at the object's
/// end when no kind tag was present.
pub proof fn lemma_prefix_bounds(fields: Seq<(Seq<char>, JsonV)>, i: int, id: Option<u64>)
    requires
        0 <= i <= fields.len(),
    ensures
        spec_node_prefix(fields, i, id) matches Ok(t) ==> i <= t.0 <= fields.len() && (t.2 is None
            ==> t.0 == fields.len()),
    decreases fields.len() - i,
{
    if i < fields.len() {
        if fields[i].0 == "id"@ && id is None {
            match fields[i].1 {
                JsonV::Str(sv) => {
                    if crate::id::id_ok(sv) {
                        lemma_prefix_bounds(fields, i + 1, Some(crate::id::id_val(sv) as u64));
                    }
                },
                _ => {},
            }
        }
    }
}


/// A successful payload walk only grows the session, and what it collects
/// is canonical: clean entries (under declarations), the initial fields kept
/// (without declarations), and canonical children.
#[verifier::rlimit(80)]
#[verifier::spinoff_prover]
pub proof fn lemma_walk_fields_canonical(
    fields: Seq<(Seq<char>, JsonV)>,
    i: int,
    sch: Seq<VariantV>,
    decls: Option<Seq<FieldDeclV>>,
    tagged: bool,
    tag: Seq<char>,
    pf: Seq<(Seq<char>, FieldValV)>,
    kids: Option<Seq<NodeV>>,
    st: SessV,
)
    requires
        0 <= i <= fields.len(),
        crate::loc::st_ok(st),
        (match decls {
            Some(ds) => pf_entries_ok(pf, ds, st.strings.len() as int),
            None => pf.len() == 0,
        }),
        (match kids {
            Some(ks) => nodes_canonical(ks, sch, st.strings.len() as int),
            None => true,
        }),
    ensures
        spec_walk_fields(fields, i, sch, decls, tagged, tag, pf, kids, st) matches Ok(p)
            ==> st_extends(st, p.2) && crate::loc::st_ok(p.2) && (match decls {
            Some(ds) => pf_canonical(p.0, ds, p.2.strings.len() as int),
            None => p.0 == pf,
        }) && nodes_canonical(p.1, sch, p.2.strings.len() as int),
    decreases fields, fields.len() - i,
{
    let nstr = st.strings.len() as int;
    if i == fields.len() {
        match decls {
            Some(ds) => {
                lemma_missing_decl_from(ds, pf, 0);
            },
            None => {},
        }
        match kids {
            Some(ks) => {},
            None => {
                assert(nodes_canonical(Seq::<NodeV>::empty(), sch, nstr));
            },
        }
    } else {
        let name = fields[i].0;
        let value = fields[i].1;
        if name == "inner"@ {
            if kids is Some {
            } else {
                match value {
                    JsonV::Arr(elems) => {
                        assert(decreases_to!(fields => fields[i]));
                        assert(decreases_to!(fields[i] => fields[i].1));
                        assert(fields[i].1->Arr_0 == elems);
                        assert(decreases_to!(fields[i].1 => fields[i].1->Arr_0));
                        lemma_decode_children_canonical(elems, 0, sch, st);
                        match spec_decode_children(elems, 0, sch, st) {
                            Ok((ks, st1)) => {
                                match decls {
                                    Some(ds) => lemma_pf_entries_mono(
                                        pf,
                                        ds,
                                        nstr,
                                        st1.strings.len() as int,
                                    ),
                                    None => {},
                                }
                                lemma_walk_fields_canonical(
                                    fields,
                                    i + 1,
                                    sch,
                                    decls,
                                    tagged,
                                    tag,
                                    pf,
                                    Some(ks),
                                    st1,
                                );
                            },
                            Err(_) => {},
                        }
                    },
                    _ => {},
                }
            }
        } else {
            match decls {
                None => {
                    if name == "loc"@ {
                        crate::loc::lemma_decode_loc_canonical(value, st);
                        match crate::loc::spec_decode_loc(value, st) {
                            Ok((_, st1)) => {
                                match kids {
                                    Some(ks) => lemma_nodes_canonical_mono(
                                        ks,
                                        sch,
                                        nstr,
                                        st1.strings.len() as int,
                                    ),
                                    None => {},
                                }
                                lemma_walk_fields_canonical(
                                    fields,
                                    i + 1,
                                    sch,
                                    decls,
                                    tagged,
                                    tag,
                                    pf,
                                    kids,
                                    st1,
                                );
                            },
                            Err(_) => {},
                        }
                    } else if name == "range"@ {
                        crate::loc::lemma_decode_range_canonical(value, st);
                        match crate::loc::spec_decode_range(value, st) {
                            Ok((_, st1)) => {
                                match kids {
                                    Some(ks) => lemma_nodes_canonical_mono(
                                        ks,
                                        sch,
                                        nstr,
                                        st1.strings.len() as int,
                                    ),
                                    None => {},
                                }
                                lemma_walk_fields_canonical(
                                    fields,
                                    i + 1,
                                    sch,
                                    decls,
                                    tagged,
                                    tag,
                                    pf,
                                    kids,
                                    st1,
                                );
                            },
                            Err(_) => {},
                        }
                    } else {
                        lemma_walk_fields_canonical(
                            fields,
                            i + 1,
                            sch,
                            decls,
                            tagged,
                            tag,
                            pf,
                            kids,
                            st,
                        );
                    }
                },
                Some(ds) => {
                    lemma_find_decl_from(ds, name, 0);
                    let d = find_decl_from(ds, name, 0);
                    if d == ds.len() {
                    } else if has_field(pf, name) {
                    } else {
                        let (st1, fval): (SessV, FieldValV) = match ds[d].ty {
                            FieldTy::Loc => {
                                crate::loc::lemma_decode_loc_canonical(value, st);
                                match crate::loc::spec_decode_loc(value, st) {
                                    Ok((l, s1)) => (s1, FieldValV::Loc(l)),
                                    Err(_) => (st, FieldValV::Verbatim(value)),
                                }
                            },
                            FieldTy::Range => {
                                crate::loc::lemma_decode_range_canonical(value, st);
                                match crate::loc::spec_decode_range(value, st) {
                                    Ok((r, s1)) => (s1, FieldValV::Range(r)),
                                    Err(_) => (st, FieldValV::Verbatim(value)),
                                }
                            },
                            FieldTy::Verbatim => (st, FieldValV::Verbatim(value)),
                        };
                        let ok = match ds[d].ty {
                            FieldTy::Loc => crate::loc::spec_decode_loc(value, st) is Ok,
                            FieldTy::Range => crate::loc::spec_decode_range(value, st) is Ok,
                            FieldTy::Verbatim => true,
                        };
                        if ok {
                            let pf2 = pf.push((name, fval));
                            let n2 = st1.strings.len() as int;
                            lemma_pf_entries_mono(pf, ds, nstr, n2);
                            assert(forall|k: int| 0 <= k < pf.len() ==> #[trigger] pf2[k] == pf[k]);
                            assert(pf2[pf.len() as int] == (name, fval));
                            assert(forall|k: int|
                                0 <= k < pf.len() ==> (#[trigger] pf[k]).0 != name);
                            assert(name != "inner"@);
                            assert(find_decl_from(ds, name, 0) == d && d < ds.len());
                            assert(pf_entry_ok((name, fval), ds, n2)) by {
                                match ds[d].ty {
                                    FieldTy::Loc => {
                                        let l = crate::loc::spec_decode_loc(value, st)->Ok_0.0;
                                        assert(fval == FieldValV::Loc(l));
                                        assert(crate::loc::loc_canonical_n(l, n2));
                                    },
                                    FieldTy::Range => {
                                        let r = crate::loc::spec_decode_range(value, st)->Ok_0.0;
                                        assert(fval == FieldValV::Range(r));
                                        assert(crate::loc::range_canonical_n(r, n2));
                                    },
                                    FieldTy::Verbatim => {
                                        assert(fval == FieldValV::Verbatim(value));
                                    },
                                }
                            }
                            assert forall|k1: int, k2: int|
                                0 <= k1 < k2 < pf2.len() implies pf2[k1].0 != pf2[k2].0 by {
                                if k2 < pf.len() {
                                    assert(pf_entries_ok(pf, ds, n2));
                                } else {
                                    assert(pf2[k1].0 == pf[k1].0);
                                    assert(pf2[k2].0 == name);
                                }
                            }
                            assert forall|k: int|
                                0 <= k < pf2.len() implies pf_entry_ok(
                                #[trigger] pf2[k],
                                ds,
                                n2,
                            ) by {
                                if k < pf.len() {
                                    assert(pf_entry_ok(pf[k], ds, n2));
                                    assert(pf2[k] == pf[k]);
                                } else {
                                    assert(pf2[k] == (name, fval));
                                }
                            }
                            assert(pf_entries_ok(pf2, ds, n2));
                            match kids {
                                Some(ks) => lemma_nodes_canonical_mono(
                                    ks,
                                    sch,
                                    nstr,
                                    st1.strings.len() as int,
                                ),
                                None => {},
                            }
                            lemma_walk_fields_canonical(
                                fields,
                                i + 1,
                                sch,
                                decls,
                                tagged,
                                tag,
                                pf2,
                                kids,
                                st1,
                            );
                        }
                    }
                },
            }
        }
    }
}

/// Successfully decoded children are canonical.
pub proof fn lemma_decode_children_canonical(
    elems: Seq<JsonV>,
    k: int,
    sch: Seq<VariantV>,
    st: SessV,
)
    requires
        0 <= k <= elems.len(),
        crate::loc::st_ok(st),
    ensures
        spec_decode_children(elems, k, sch, st) matches Ok(p) ==> st_extends(st, p.1)
            && crate::loc::st_ok(p.1) && nodes_canonical(p.0, sch, p.1.strings.len() as int),
    decreases elems, elems.len() - k,
{
    if k < elems.len() {
        assert(decreases_to!(elems => elems[k]));
        lemma_decode_node_canonical(elems[k], sch, st);
        match spec_decode_node(elems[k], sch, st) {
            Ok((n, st1)) => {
                lemma_decode_children_canonical(elems, k + 1, sch, st1);
                match spec_decode_children(elems, k + 1, sch, st1) {
                    Ok((ns, st2)) => {
                        lemma_node_canonical_mono(
                            n,
                            sch,
                            st1.strings.len() as int,
                            st2.strings.len() as int,
                        );
                        lemma_nodes_canonical_index(ns, sch, st2.strings.len() as int);
                        let whole = seq![n] + ns;
                        assert(forall|m: int|
                            0 <= m < whole.len() ==> node_canonical(
                                #[trigger] whole[m],
                                sch,
                                st2.strings.len() as int,
                            ));
                        lemma_nodes_canonical_from_index(whole, sch, st2.strings.len() as int);
                    },
                    Err(_) => {},
                }
            },
            Err(_) => {},
        }
    }
}

/// A successfully decoded node is canonical for the session it leaves
/// behind: re-encoding it reproduces its wire form (see the round-trip
/// theorem).
#[verifier::rlimit(80)]
#[verifier::spinoff_prover]
pub proof fn lemma_decode_node_canonical(j: JsonV, sch: Seq<VariantV>, st: SessV)
    requires
        crate::loc::st_ok(st),
    ensures
        spec_decode_node(j, sch, st) matches Ok(p) ==> st_extends(st, p.1) && crate::loc::st_ok(
            p.1,
        ) && node_canonical(p.0, sch, p.1.strings.len() as int),
    decreases j, 0int,
{
    match j {
        JsonV::Obj(fields) => {
            assert(j->Obj_0 == fields);
            assert(decreases_to!(j => j->Obj_0));
            lemma_prefix_bounds(fields, 0, None);
            match spec_node_prefix(fields, 0, None) {
                Ok((i, id, tagopt)) => {
                    let tagged = tagopt is Some;
                    let tag = match tagopt {
                        Some(sv) => sv,
                        None => "null"@,
                    };
                    lemma_find_variant_from(sch, tag, 0);
                    lemma_find_fallback_from(sch, 0);
                    let vi = find_variant_from(sch, tag, 0);
                    let chosen = if vi < sch.len() {
                        vi
                    } else {
                        find_fallback_from(sch, 0)
                    };
                    if 0 <= chosen < sch.len() {
                        match sch[chosen].shape {
                            ShapeV::Tuple => {},
                            ShapeV::Unit => {
                                lemma_walk_fields_canonical(
                                    fields,
                                    i,
                                    sch,
                                    None,
                                    tagged,
                                    tag,
                                    Seq::empty(),
                                    None,
                                    st,
                                );
                            },
                            ShapeV::Fields(ds) => {
                                assert(pf_entries_ok(
                                    Seq::<(Seq<char>, FieldValV)>::empty(),
                                    ds,
                                    st.strings.len() as int,
                                ));
                                lemma_walk_fields_canonical(
                                    fields,
                                    i,
                                    sch,
                                    Some(ds),
                                    tagged,
                                    tag,
                                    Seq::empty(),
                                    None,
                                    st,
                                );
                            },
                        }
                        match spec_dispatch(fields, i, sch, tag, tagged, st) {
                            Ok((variant, pfr, kidsr, stf)) => {
                                assert(variant == chosen);
                                if !tagged {
                                    assert(i == fields.len());
                                    assert(pfr =~= Seq::<(Seq<char>, FieldValV)>::empty());
                                    assert(kidsr =~= Seq::<NodeV>::empty());
                                }
                                let idv: u64 = match id {
                                    Some(v) => v,
                                    None => 0,
                                };
                                let nn = NodeV {
                                    id: idv,
                                    kind: PayloadV { tag, tagged, variant, fields: pfr },
                                    inner: kidsr,
                                };
                                assert(nn.kind.variant == dispatch_choice(sch, nn.kind.tag));
                                assert(crate::loc::st_ok(stf));
                                assert(st_extends(st, stf));
                                assert(nodes_canonical(kidsr, sch, stf.strings.len() as int));
                                assert(match sch[variant as int].shape {
                                    ShapeV::Tuple => false,
                                    ShapeV::Unit => nn.kind.fields.len() == 0,
                                    ShapeV::Fields(ds) => pf_canonical(
                                        nn.kind.fields,
                                        ds,
                                        stf.strings.len() as int,
                                    ),
                                });
                                assert(node_canonical(nn, sch, stf.strings.len() as int));
                                assert(spec_decode_node(j, sch, st) == Ok::<(NodeV, SessV), ErrV>(
                                    (nn, stf),
                                ));
                            },
                            Err(_) => {},
                        }
                    }
                },
                Err(_) => {},
            }
        },
        _ => {},
    }
}

/// Any decoded tree round-trips: a tree that came out of a successful
/// decode, re-encoded over the same interner with the cursor reset (as a
/// fresh serialize pass does), decodes back to the very same tree.
pub proof fn lemma_decoded_tree_round_trips(j: JsonV, sch: Seq<VariantV>, st: SessV)
    requires
        crate::loc::st_ok(st),
        spec_decode_node(j, sch, st) is Ok,
    ensures
        ({
            let n = spec_decode_node(j, sch, st)->Ok_0.0;
            let strim = (SessV {
                file: 0,
                line: 0,
                ..spec_decode_node(j, sch, st)->Ok_0.1
            });
            spec_decode_node(spec_encode_node(n, strim).0, sch, strim) == Ok::<
                (NodeV, SessV),
                ErrV,
            >((n, spec_encode_node(n, strim).1))
        }),
{
    lemma_decode_node_canonical(j, sch, st);
    let n = spec_decode_node(j, sch, st)->Ok_0.0;
    let st1 = spec_decode_node(j, sch, st)->Ok_0.1;
    let strim = SessV { file: 0, line: 0, ..st1 };
    assert(strim.wf());
    lemma_node_round_trip(n, sch, strim);
}

} // verus!
