use fable_data::def::semantic::{first_diff, sem_eq, DiffPolicy, SemVal};

fn s(v: Vec<(&'static str, SemVal)>) -> SemVal {
    SemVal::Struct(v)
}

#[test]
fn scalars_and_refs() {
    assert!(sem_eq(&SemVal::Int(3), &SemVal::Int(3), DiffPolicy::strict()));
    assert!(!sem_eq(&SemVal::Int(3), &SemVal::Int(4), DiffPolicy::strict()));
    assert!(sem_eq(
        &SemVal::DefRef("OBJECT_X".into()),
        &SemVal::DefRef("OBJECT_X".into()),
        DiffPolicy::strict()
    ));
}

#[test]
fn maps_unordered_vs_strict() {
    let a = SemVal::MapPairs(vec![(SemVal::Int(1), SemVal::Int(10)), (SemVal::Int(2), SemVal::Int(20))]);
    let b = SemVal::MapPairs(vec![(SemVal::Int(2), SemVal::Int(20)), (SemVal::Int(1), SemVal::Int(10))]);
    assert!(!sem_eq(&a, &b, DiffPolicy::strict()));
    assert!(sem_eq(&a, &b, DiffPolicy::unordered()));
}

#[test]
fn opaque_detection() {
    let v = s(vec![("blob", SemVal::Opaque("array"))]);
    assert!(v.contains_opaque());
    assert!(sem_eq(&SemVal::Opaque("array"), &SemVal::Opaque("array"), DiffPolicy::strict()));
}

#[test]
fn first_diff_path() {
    let a = s(vec![("x", SemVal::Int(1)), ("y", SemVal::Int(2))]);
    let b = s(vec![("x", SemVal::Int(1)), ("y", SemVal::Int(9))]);
    let d = first_diff(&a, &b, DiffPolicy::strict()).unwrap();
    assert_eq!(d.path, "y");
}

// ── own tests ────────────────────────────────────────────────────────────────

#[test]
fn lists_unordered_vs_strict() {
    let a = SemVal::List(vec![SemVal::Str("a".into()), SemVal::Str("b".into()), SemVal::Str("a".into())]);
    let b = SemVal::List(vec![SemVal::Str("b".into()), SemVal::Str("a".into()), SemVal::Str("a".into())]);
    let c = SemVal::List(vec![SemVal::Str("b".into()), SemVal::Str("b".into()), SemVal::Str("a".into())]);
    assert!(!sem_eq(&a, &b, DiffPolicy::strict()));
    assert!(sem_eq(&a, &b, DiffPolicy::unordered()));
    assert!(!sem_eq(&a, &c, DiffPolicy::unordered()));
    let p = DiffPolicy { unordered_maps: true, unordered_lists: false };
    assert!(!sem_eq(&a, &b, p));
}

#[test]
fn different_variants_and_lengths_differ() {
    assert!(!sem_eq(&SemVal::Int(1), &SemVal::F32(1), DiffPolicy::unordered()));
    assert!(!sem_eq(&SemVal::Str("x".into()), &SemVal::WStr("x".into()), DiffPolicy::strict()));
    assert!(!sem_eq(&SemVal::List(vec![SemVal::Int(1)]), &SemVal::List(vec![]), DiffPolicy::unordered()));
    assert!(sem_eq(&SemVal::PString(vec![1, 2]), &SemVal::PString(vec![1, 2]), DiffPolicy::strict()));
    assert!(!sem_eq(&SemVal::Variant(1, vec![]), &SemVal::Variant(2, vec![]), DiffPolicy::strict()));
    let a = s(vec![("x", SemVal::Int(1))]);
    let b = s(vec![("z", SemVal::Int(1))]);
    assert!(!sem_eq(&a, &b, DiffPolicy::strict()));
}

#[test]
fn contains_opaque_nested() {
    let v = SemVal::List(vec![SemVal::MapPairs(vec![(SemVal::Int(1), SemVal::Variant(0, vec![("m", SemVal::Opaque("x"))]))])]);
    assert!(v.contains_opaque());
    let w = SemVal::List(vec![SemVal::MapPairs(vec![(SemVal::Int(1), SemVal::Int(2))])]);
    assert!(!w.contains_opaque());
    assert!(!SemVal::Str("Opaque".into()).contains_opaque());
}

#[test]
fn first_diff_renders_both_sides() {
    let a = s(vec![("outer", s(vec![("list", SemVal::List(vec![SemVal::Int(1), SemVal::Str("q\"".into())]))]))]);
    let b = s(vec![("outer", s(vec![("list", SemVal::List(vec![SemVal::Int(1), SemVal::Int(-5)]))]))]);
    let d = first_diff(&a, &b, DiffPolicy::strict()).unwrap();
    assert_eq!(d.path, "outer.list[1]");
    assert_eq!(d.ours, "Str(\"q\\\"\")");
    assert_eq!(d.theirs, "Int(-5)");
    assert!(first_diff(&a, &a, DiffPolicy::strict()).is_none());
}

#[test]
fn first_diff_map_keys_and_containers() {
    let a = SemVal::MapPairs(vec![(SemVal::Int(1), SemVal::Int(10))]);
    let b = SemVal::MapPairs(vec![(SemVal::Int(2), SemVal::Int(10))]);
    let d = first_diff(&a, &b, DiffPolicy::strict()).unwrap();
    assert_eq!(d.path, "[0].key");
    let c = SemVal::List(vec![SemVal::Int(1), SemVal::Int(2)]);
    let e = SemVal::List(vec![SemVal::Int(1)]);
    let d = first_diff(&c, &e, DiffPolicy::strict()).unwrap();
    assert_eq!(d.path, "");
    assert_eq!(d.ours, "List(len=2)");
    assert_eq!(d.theirs, "List(len=1)");
    let v1 = SemVal::Variant(3, vec![("a", SemVal::Bool(true))]);
    let v2 = SemVal::Variant(4, vec![]);
    let d = first_diff(&v1, &v2, DiffPolicy::strict()).unwrap();
    assert_eq!(d.ours, "Variant(tag=3,fields=1)");
    assert_eq!(d.theirs, "Variant(tag=4,fields=0)");
    let d = first_diff(&SemVal::PString(vec![1, 200]), &SemVal::F32(7), DiffPolicy::strict()).unwrap();
    assert_eq!(d.ours, "PString([1, 200])");
    assert_eq!(d.theirs, "F32(7)");
}

#[test]
fn first_diff_descends_positionally_under_unordered() {
    // The positional descent finds the reordering under either policy.
    let a = SemVal::List(vec![SemVal::Int(1), SemVal::Int(2)]);
    let b = SemVal::List(vec![SemVal::Int(2), SemVal::Int(1)]);
    let d = first_diff(&a, &b, DiffPolicy::unordered()).unwrap();
    assert_eq!(d.path, "[0]");
}

#[test]
fn default_policy_is_strict() {
    let p = DiffPolicy::default();
    assert!(!p.unordered_maps && !p.unordered_lists);
}

#[test]
fn strict_equality_is_symmetric() {
    let a = s(vec![("x", SemVal::List(vec![SemVal::Int(1), SemVal::Str("a".into())]))]);
    let b = s(vec![("x", SemVal::List(vec![SemVal::Int(1), SemVal::Str("b".into())]))]);
    let c = s(vec![("x", SemVal::List(vec![SemVal::Int(1)]))]);
    for (p, q) in [(&a, &b), (&a, &c), (&b, &c), (&a, &a)] {
        assert_eq!(sem_eq(p, q, DiffPolicy::strict()), sem_eq(q, p, DiffPolicy::strict()));
    }
    assert!(sem_eq(&a, &a, DiffPolicy::strict()));
    assert!(!sem_eq(&a, &b, DiffPolicy::strict()));
}

#[test]
fn strict_equality_holds_under_every_policy() {
    let a = SemVal::List(vec![
        SemVal::Int(1),
        SemVal::MapPairs(vec![(SemVal::Int(2), SemVal::Str("x".into())), (SemVal::Int(2), SemVal::Str("x".into()))]),
        SemVal::Int(1),
    ]);
    let b = SemVal::List(vec![
        SemVal::Int(1),
        SemVal::MapPairs(vec![(SemVal::Int(2), SemVal::Str("x".into())), (SemVal::Int(2), SemVal::Str("x".into()))]),
        SemVal::Int(1),
    ]);
    assert!(sem_eq(&a, &b, DiffPolicy::strict()));
    assert!(sem_eq(&a, &b, DiffPolicy::unordered()));
    assert!(sem_eq(&a, &a, DiffPolicy::unordered()));
    assert!(first_diff(&a, &b, DiffPolicy::unordered()).is_none());
    assert!(first_diff(&a, &b, DiffPolicy::strict()).is_none());
}

#[test]
fn unordered_lists_pair_each_element_once() {
    let l = |v: &[i64]| SemVal::List(v.iter().map(|x| SemVal::Int(*x)).collect());
    let mut p = DiffPolicy::strict();
    p.unordered_lists = true;
    assert!(sem_eq(&l(&[1, 1, 2]), &l(&[2, 1, 1]), p));
    assert!(!sem_eq(&l(&[1, 1, 2]), &l(&[1, 2, 2]), p));
    assert!(!sem_eq(&l(&[1, 2]), &l(&[1, 2, 2]), p));
    assert!(!sem_eq(&l(&[1, 1, 2]), &l(&[2, 1, 1]), DiffPolicy::strict()));
}

#[test]
fn strict_equality_agrees_with_structural_equality() {
    let a = s(vec![("x", SemVal::List(vec![SemVal::Int(1), SemVal::F32(0x3f80_0000)]))]);
    let b = s(vec![("x", SemVal::List(vec![SemVal::Int(1), SemVal::F32(0x3f80_0000)]))]);
    let c = s(vec![("x", SemVal::List(vec![SemVal::Int(1), SemVal::F32(0x4000_0000)]))]);
    assert_eq!(sem_eq(&a, &b, DiffPolicy::strict()), a == b);
    assert_eq!(sem_eq(&a, &c, DiffPolicy::strict()), a == c);
}
