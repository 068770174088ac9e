use clang_ast::error::Error;
use clang_ast::id::Id;
use clang_ast::json::Json;
use clang_ast::kind::{AnyKind, Kind};
use clang_ast::node::{
    decode_node, encode_node, FieldDecl, FieldTy, FieldValue, NodeDeserializer, NodeSerializer,
    Payload, Schema, VariantDecl, VariantShape,
};
use clang_ast::session::{activate, borrowed, deactivate, Session};
use clang_ast::Node;

fn obj(fields: Vec<(&str, Json)>) -> Json {
    Json::Obj(fields.into_iter().map(|(n, v)| (n.to_string(), v)).collect())
}

fn s(x: &str) -> Json {
    Json::Str(x.to_string())
}

fn bare_loc(extra: Vec<(&str, Json)>) -> Json {
    let mut v = vec![("offset", Json::Int(1))];
    v.extend(extra);
    v.push(("col", Json::Int(5)));
    v.push(("tokLen", Json::Int(3)));
    obj(v)
}

fn schema() -> Schema {
    Schema {
        variants: vec![
            VariantDecl {
                name: "CallExpr".to_string(),
                shape: VariantShape::Fields(vec![
                    FieldDecl { name: "loc".to_string(), ty: FieldTy::Loc, required: false },
                    FieldDecl { name: "extra".to_string(), ty: FieldTy::Verbatim, required: false },
                    FieldDecl { name: "name".to_string(), ty: FieldTy::Verbatim, required: true },
                ]),
            },
            VariantDecl { name: "NullStmt".to_string(), shape: VariantShape::Unit },
            VariantDecl { name: "Unknown".to_string(), shape: VariantShape::Unit },
        ],
    }
}

fn schema_no_fallback() -> Schema {
    Schema {
        variants: vec![VariantDecl { name: "NullStmt".to_string(), shape: VariantShape::Unit }],
    }
}

#[test]
fn id_round_trips_through_hex() {
    let id = Id::parse("0x1a2b").unwrap();
    assert_eq!(id.id, 0x1a2b);
    assert_eq!(id.to_hex(), "0x1a2b");
    assert_eq!(Id::parse("0x0").unwrap().id, 0);
    assert_eq!(Id::parse("0xFFFFFFFFFFFFFFFF").unwrap().id, u64::MAX);
    assert_eq!(Id::parse("0xffffffffffffffff").unwrap().to_hex(), "0xffffffffffffffff");
}

#[test]
fn id_rejects_bad_forms() {
    assert!(Id::parse("1a2b").is_none());
    assert!(Id::parse("0x").is_none());
    assert!(Id::parse("0xzz").is_none());
    assert!(Id::parse("").is_none());
    assert!(Id::parse("0x+1a").is_none());
    assert!(Id::parse("0x10000000000000000").is_none());
}

#[test]
fn resolution_distinguishes_catalogue_hits() {
    match AnyKind::resolve("CallExpr") {
        AnyKind::Kind(k) => assert_eq!(k.as_str(), "CallExpr"),
        _ => panic!("a catalogue name must resolve to its entry"),
    }
    match AnyKind::resolve("MadeUpThing") {
        AnyKind::Owned(s) => assert_eq!(s, "MadeUpThing"),
        _ => panic!("an unknown name must be carried verbatim"),
    }
}

#[test]
fn drained_location_still_moves_the_cursor() {
    // NullStmt is unit-shaped: its fields are discarded, yet the delta
    // cursor must advance exactly as if the payload had consumed them.
    let sch = schema();
    let j = obj(vec![
        ("kind", s("NullStmt")),
        ("loc", bare_loc(vec![("file", s("x.cc")), ("line", Json::Int(9))])),
    ]);
    let mut sess = Session::new();
    activate(&mut sess);
    let n = decode_node(&j, &sch, &mut sess).unwrap();
    assert!(n.kind.fields.is_empty());
    let follow = clang_ast::loc::decode_bare_source_location(&bare_loc(vec![]), &mut sess)
        .unwrap();
    assert_eq!(sess.resolve(follow.file), "x.cc");
    assert_eq!(follow.line, 9);
    deactivate(&mut sess);
}

#[test]
fn cursor_reset_keeps_interned_strings() {
    let mut sess = Session::new();
    activate(&mut sess);
    let l = clang_ast::loc::decode_bare_source_location(
        &bare_loc(vec![("file", s("keep.cc")), ("line", Json::Int(2))]),
        &mut sess,
    )
    .unwrap();
    clang_ast::session::thread_local_reset(&mut sess);
    // the cursor is fresh again ...
    let fresh = clang_ast::loc::decode_bare_source_location(&bare_loc(vec![]), &mut sess)
        .unwrap();
    assert_eq!(sess.resolve(fresh.file), "");
    assert_eq!(fresh.line, 0);
    // ... but handles held from before the reset still resolve
    assert_eq!(sess.resolve(l.file), "keep.cc");
    deactivate(&mut sess);
}

#[test]
fn kind_catalogue_round_trips() {
    let k = Kind::from_str("CallExpr").unwrap();
    assert_eq!(k.as_str(), "CallExpr");
    assert_eq!(Kind::from_str("WhileStmt").unwrap().as_str(), "WhileStmt");
    assert!(Kind::from_str("NotARealKind").is_err());
    assert!(Kind::from_str("null").is_err());
    assert_eq!(AnyKind::resolve("CallExpr").as_str(), "CallExpr");
    assert_eq!(AnyKind::resolve("MadeUpThing").as_str(), "MadeUpThing");
}

#[test]
fn interner_shares_equal_strings() {
    let mut sess = Session::new();
    activate(&mut sess);
    let h1 = borrowed(&mut sess, "foo.cc");
    let h2 = borrowed(&mut sess, "foo.cc");
    let h3 = borrowed(&mut sess, "bar.cc");
    assert_eq!(h1, h2);
    assert_ne!(h1, h3);
    assert_eq!(sess.resolve(h1), "foo.cc");
    deactivate(&mut sess);
}

#[test]
fn location_delta_inherits_file_and_line() {
    let mut sess = Session::new();
    activate(&mut sess);
    let l1 = clang_ast::loc::decode_bare_source_location(
        &bare_loc(vec![("file", s("a.cc")), ("line", Json::Int(7))]),
        &mut sess,
    )
    .unwrap();
    let l2 = clang_ast::loc::decode_bare_source_location(&bare_loc(vec![]), &mut sess).unwrap();
    assert_eq!(l1.file, l2.file);
    assert_eq!(sess.resolve(l2.file), "a.cc");
    assert_eq!(l2.line, 7);
    // a file change re-seeds line even when the number repeats on the wire
    let l3 = clang_ast::loc::decode_bare_source_location(
        &bare_loc(vec![("file", s("b.cc")), ("line", Json::Int(7))]),
        &mut sess,
    )
    .unwrap();
    assert_eq!(sess.resolve(l3.file), "b.cc");
    assert_eq!(l3.line, 7);
    deactivate(&mut sess);
}

#[test]
fn fresh_parse_never_sees_old_cursor() {
    let mut sess = Session::new();
    activate(&mut sess);
    let _ = clang_ast::loc::decode_bare_source_location(
        &bare_loc(vec![("file", s("old.cc")), ("line", Json::Int(9))]),
        &mut sess,
    )
    .unwrap();
    deactivate(&mut sess);
    // the count returned to zero: the caches were cleared
    activate(&mut sess);
    let l = clang_ast::loc::decode_bare_source_location(&bare_loc(vec![]), &mut sess).unwrap();
    assert_eq!(sess.resolve(l.file), "");
    assert_eq!(l.line, 0);
    deactivate(&mut sess);
}

#[test]
fn duplicate_offset_is_an_error() {
    let mut sess = Session::new();
    let j = obj(vec![
        ("offset", Json::Int(1)),
        ("offset", Json::Int(2)),
        ("col", Json::Int(5)),
        ("tokLen", Json::Int(3)),
    ]);
    match clang_ast::loc::decode_bare_source_location(&j, &mut sess) {
        Err(Error::DuplicateField { field }) => assert_eq!(field, "offset"),
        other => panic!("expected a duplicate-field error, got {:?}", other.is_ok()),
    }
}

#[test]
fn missing_col_is_an_error() {
    let mut sess = Session::new();
    let j = obj(vec![("offset", Json::Int(1)), ("tokLen", Json::Int(3))]);
    match clang_ast::loc::decode_bare_source_location(&j, &mut sess) {
        Err(Error::MissingField { field, .. }) => assert_eq!(field, "col"),
        _ => panic!("expected a missing-field error"),
    }
}

fn decode(j: &Json, sch: &Schema, sess: &mut Session) -> Result<Node<Payload>, Error> {
    activate(sess);
    let r = NodeDeserializer::new(sch).decode(j, sess);
    deactivate(sess);
    r
}

#[test]
fn node_inner_interleaving_is_immaterial() {
    let sch = schema();
    let child = obj(vec![("kind", s("NullStmt"))]);
    let a = obj(vec![
        ("kind", s("CallExpr")),
        ("inner", Json::Arr(vec![child.clone_for_test()])),
        ("extra", Json::Int(1)),
        ("name", s("f")),
    ]);
    let b = obj(vec![
        ("kind", s("CallExpr")),
        ("extra", Json::Int(1)),
        ("name", s("f")),
        ("inner", Json::Arr(vec![child])),
    ]);
    let mut s1 = Session::new();
    let mut s2 = Session::new();
    let na = decode(&a, &sch, &mut s1).unwrap();
    let nb = decode(&b, &sch, &mut s2).unwrap();
    assert_eq!(na.kind.tag.as_str(), nb.kind.tag.as_str());
    assert_eq!(na.inner.len(), 1);
    assert_eq!(nb.inner.len(), 1);
    assert_eq!(na.kind.fields.len(), nb.kind.fields.len());
    assert_eq!(na.inner[0].kind.tag.as_str(), "NullStmt");
}

#[test]
fn kind_fallback_accepts_unknown_kinds() {
    let sch = schema();
    let j = obj(vec![("kind", s("BrandNewExpr")), ("whatever", Json::Int(3))]);
    let mut sess = Session::new();
    let n = decode(&j, &sch, &mut sess).unwrap();
    assert_eq!(n.kind.tag.as_str(), "BrandNewExpr");
    assert_eq!(n.kind.variant, 2);
}

#[test]
fn unknown_kind_without_fallback_fails() {
    let sch = schema_no_fallback();
    let j = obj(vec![("kind", s("BrandNewExpr"))]);
    let mut sess = Session::new();
    match decode(&j, &sch, &mut sess) {
        Err(Error::UnknownVariant { kind }) => assert_eq!(kind, "BrandNewExpr"),
        _ => panic!("expected an unknown-variant error"),
    }
}

#[test]
fn unknown_payload_field_names_the_kind() {
    let sch = schema();
    let j = obj(vec![("kind", s("CallExpr")), ("name", s("f")), ("weird", Json::Int(1))]);
    let mut sess = Session::new();
    match decode(&j, &sch, &mut sess) {
        Err(Error::UnknownField { field, kind }) => {
            assert_eq!(field, "weird");
            assert_eq!(kind.as_deref(), Some("CallExpr"));
        },
        _ => panic!("expected an unknown-field error"),
    }
}

#[test]
fn node_round_trips_through_the_wire_form() {
    let sch = schema();
    let j = obj(vec![
        ("id", s("0x1a2b")),
        ("kind", s("CallExpr")),
        ("loc", bare_loc(vec![("file", s("a.cc")), ("line", Json::Int(4))])),
        ("name", s("f")),
        ("inner", Json::Arr(vec![obj(vec![("kind", s("NullStmt"))])])),
    ]);
    let mut sess = Session::new();
    activate(&mut sess);
    let n = decode_node(&j, &sch, &mut sess).unwrap();
    assert_eq!(n.id.to_hex(), "0x1a2b");
    // reset only the cursor, as a fresh serialize on a shared session does;
    // the interner must outlive the tree that holds handles into it
    clang_ast::session::thread_local_reset(&mut sess);
    let out = encode_node(&n, &mut sess);
    clang_ast::session::thread_local_reset(&mut sess);
    let n2 = NodeDeserializer::new(&sch).decode(&out, &mut sess).unwrap();
    assert_eq!(n2.id.to_hex(), "0x1a2b");
    assert_eq!(n2.kind.tag.as_str(), "CallExpr");
    assert_eq!(n2.kind.fields.len(), n.kind.fields.len());
    assert_eq!(n2.inner.len(), 1);
    match (&n.kind.fields[0].1, &n2.kind.fields[0].1) {
        (FieldValue::Loc(l1), FieldValue::Loc(l2)) => {
            assert_eq!(l1.spelling_loc.as_ref().unwrap().line, 4);
            assert_eq!(l2.spelling_loc.as_ref().unwrap().line, 4);
            assert_eq!(
                sess.resolve(l2.spelling_loc.as_ref().unwrap().file),
                "a.cc"
            );
        },
        _ => panic!("expected location fields"),
    }
    deactivate(&mut sess);
}

#[test]
fn fallback_nodes_round_trip_with_verbatim_tag() {
    // An unknown kind routed to the Unit fallback keeps its verbatim tag,
    // and the re-encoded form routes to the fallback again.
    let sch = schema();
    let j = obj(vec![
        ("kind", s("BrandNewExpr")),
        ("inner", Json::Arr(vec![obj(vec![("kind", s("NullStmt"))])])),
    ]);
    let mut sess = Session::new();
    activate(&mut sess);
    let n = decode_node(&j, &sch, &mut sess).unwrap();
    assert_eq!(n.kind.tag.as_str(), "BrandNewExpr");
    assert_eq!(n.kind.variant, 2);
    clang_ast::session::thread_local_reset(&mut sess);
    let out = encode_node(&n, &mut sess);
    clang_ast::session::thread_local_reset(&mut sess);
    let n2 = decode_node(&out, &sch, &mut sess).unwrap();
    assert_eq!(n2.kind.tag.as_str(), "BrandNewExpr");
    assert_eq!(n2.kind.variant, 2);
    assert_eq!(n2.inner.len(), 1);
    assert_eq!(n2.inner[0].kind.tag.as_str(), "NullStmt");
    deactivate(&mut sess);
}

#[test]
fn encoder_emits_kind_first_and_inner_last() {
    let sch = schema();
    let j = obj(vec![
        ("kind", s("CallExpr")),
        ("name", s("f")),
        ("inner", Json::Arr(vec![obj(vec![("kind", s("NullStmt"))])])),
    ]);
    let mut sess = Session::new();
    activate(&mut sess);
    let n = decode_node(&j, &sch, &mut sess).unwrap();
    deactivate(&mut sess);
    activate(&mut sess);
    let _ = NodeSerializer::new();
    let out = encode_node(&n, &mut sess);
    deactivate(&mut sess);
    match out {
        Json::Obj(fields) => {
            assert_eq!(fields[0].0, "kind");
            assert_eq!(fields.last().unwrap().0, "inner");
        },
        _ => panic!("expected an object"),
    }
}

trait CloneForTest {
    fn clone_for_test(&self) -> Json;
}

impl CloneForTest for Json {
    fn clone_for_test(&self) -> Json {
        clang_ast::json::json_clone(self)
    }
}
