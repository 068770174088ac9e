//! The structured-value model the codec operates on.
//!
//! The decoder is a recursive-descent walk over an already-tokenized value
//! tree; producing that tree from text (or bytes, or a reader) is the caller's
//! business.  Field order inside an object is significant: the location codec
//! and the node decoder both process fields in arrival order.

use vstd::prelude::*;

verus! {

/// A structured value from the wire: the subset of JSON the dump format uses.
/// Objects keep their fields in arrival order; duplicate keys are representable
/// and the decoder decides, per field, whether they are an error.
pub enum Json {
    Null,
    Bool(bool),
    Int(i128),
    Str(String),
    Arr(Vec<Json>),
    Obj(Vec<(String, Json)>),
}

/// The mathematical shape of a `Json` value.
pub enum JsonV {
    Null,
    Bool(bool),
    Int(int),
    Str(Seq<char>),
    Arr(Seq<JsonV>),
    Obj(Seq<(Seq<char>, JsonV)>),
}

/// The abstraction of a value: strings become character sequences,
/// containers become sequences of abstractions.
pub open spec fn jview(j: Json) -> JsonV
    decreases j,
{
    match j {
        Json::Null => JsonV::Null,
        Json::Bool(b) => JsonV::Bool(b),
        Json::Int(n) => JsonV::Int(n as int),
        Json::Str(s) => JsonV::Str(s@),
        Json::Arr(v) => {
            proof {
                assert(decreases_to!(j => v));
                assert(decreases_to!(v => v@));
            }
            JsonV::Arr(jview_seq(v@))
        },
        Json::Obj(v) => {
            proof {
                assert(decreases_to!(j => v));
                assert(decreases_to!(v => v@));
            }
            JsonV::Obj(jview_fields(v@))
        },
    }
}

/// Element-wise abstraction of an array's values.
pub open spec fn jview_seq(s: Seq<Json>) -> Seq<JsonV>
    decreases s,
{
    if s.len() == 0 {
        Seq::empty()
    } else {
        jview_seq(s.drop_last()).push(jview(s.last()))
    }
}

/// Pair-wise abstraction of an object's fields, order preserved.
pub open spec fn jview_fields(s: Seq<(String, Json)>) -> Seq<(Seq<char>, JsonV)>
    decreases s,
{
    if s.len() == 0 {
        Seq::empty()
    } else {
        jview_fields(s.drop_last()).push((s.last().0@, jview(s.last().1)))
    }
}

/// The field abstraction is pointwise: each field keeps its position.
pub proof fn lemma_jview_fields_index(s: Seq<(String, Json)>)
    ensures
        jview_fields(s).len() == s.len(),
        forall|i: int|
            0 <= i < s.len() ==> #[trigger] jview_fields(s)[i] == (s[i].0@, jview(s[i].1)),
    decreases s,
{
    if s.len() > 0 {
        lemma_jview_fields_index(s.drop_last());
    }
}

/// The array abstraction is pointwise: each element keeps its position.
pub proof fn lemma_jview_seq_index(s: Seq<Json>)
    ensures
        jview_seq(s).len() == s.len(),
        forall|i: int| 0 <= i < s.len() ==> #[trigger] jview_seq(s)[i] == jview(s[i]),
    decreases s,
{
    if s.len() > 0 {
        lemma_jview_seq_index(s.drop_last());
    }
}


/// Copy a value; the copy has the same abstraction.
pub fn json_clone(j: &Json) -> (r: Json)
    ensures
        jview(r) == jview(*j),
    decreases *j,
{
    match j {
        Json::Null => Json::Null,
        Json::Bool(b) => Json::Bool(*b),
        Json::Int(n) => Json::Int(*n),
        Json::Str(s) => Json::Str(s.clone()),
        Json::Arr(v) => {
            let mut out: Vec<Json> = Vec::new();
            let n = v.len();
            let mut i: usize = 0;
            proof {
                lemma_jview_seq_index(v@);
                lemma_jview_seq_index(out@);
            }
            while i < n
                invariant
                    *j == Json::Arr(*v),
                    0 <= i <= n,
                    n == v@.len(),
                    out@.len() == i,
                    forall|k: int| 0 <= k < i ==> jview(#[trigger] out@[k]) == jview(v@[k]),
                decreases n - i,
            {
                proof {
                    assert(j->Arr_0 == *v);
                    assert(decreases_to!(*j => j->Arr_0));
                    assert(decreases_to!(*v => v@));
                    assert(decreases_to!(v@ => v@[i as int]));
                }
                let c = json_clone(&v[i]);
                out.push(c);
                i = i + 1;
            }
            proof {
                lemma_jview_seq_index(v@);
                lemma_jview_seq_index(out@);
                assert(jview_seq(out@) =~= jview_seq(v@));
            }
            Json::Arr(out)
        },
        Json::Obj(v) => {
            let mut out: Vec<(String, Json)> = Vec::new();
            let n = v.len();
            let mut i: usize = 0;
            while i < n
                invariant
                    *j == Json::Obj(*v),
                    0 <= i <= n,
                    n == v@.len(),
                    out@.len() == i,
                    forall|k: int|
                        0 <= k < i ==> (#[trigger] out@[k]).0@ == v@[k].0@ && jview(out@[k].1)
                            == jview(v@[k].1),
                decreases n - i,
            {
                proof {
                    assert(j->Obj_0 == *v);
                    assert(decreases_to!(*j => j->Obj_0));
                    assert(decreases_to!(*v => v@));
                    assert(decreases_to!(v@ => v@[i as int]));
                    assert(decreases_to!(v@[i as int] => v@[i as int].1));
                }
                let name = v[i].0.clone();
                let c = json_clone(&v[i].1);
                out.push((name, c));
                i = i + 1;
            }
            proof {
                lemma_jview_fields_index(v@);
                lemma_jview_fields_index(out@);
                assert(jview_fields(out@) =~= jview_fields(v@));
            }
            Json::Obj(out)
        },
    }
}

} // verus!
