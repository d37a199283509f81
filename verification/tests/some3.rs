use someval::Some3;

type Triple = Some3<i64, &'static str, bool>;

#[test]
fn some3_try_from_options_covers_every_subset() {
    assert_eq!(Triple::try_from_options(None, None, None), None);
    assert_eq!(
        Triple::try_from_options(Some(1), None, None),
        Some(Triple::A(1))
    );
    assert_eq!(
        Triple::try_from_options(None, Some("x"), None),
        Some(Triple::B("x"))
    );
    assert_eq!(
        Triple::try_from_options(None, None, Some(true)),
        Some(Triple::C(true))
    );
    assert_eq!(
        Triple::try_from_options(Some(1), Some("x"), None),
        Some(Triple::AB(1, "x"))
    );
    assert_eq!(
        Triple::try_from_options(Some(1), None, Some(true)),
        Some(Triple::AC(1, true))
    );
    assert_eq!(
        Triple::try_from_options(None, Some("x"), Some(true)),
        Some(Triple::BC("x", true))
    );
    assert_eq!(
        Triple::try_from_options(Some(1), Some("x"), Some(true)),
        Some(Triple::ABC(1, "x", true))
    );
}

#[test]
fn some3_try_from_tuple_rejects_all_empty_with_message() {
    let res = Triple::try_from_tuple((None, None, None));
    assert_eq!(res, Err("no value of any accepted type present"));
    let ok = Triple::try_from_tuple((None, Some("x"), None));
    assert_eq!(ok, Ok(Triple::B("x")));
}

#[test]
fn some3_ac_variant_decomposes_to_outer_slots() {
    let val = Triple::AC(42, false);
    assert_eq!(val.into_options(), (Some(42), None, Some(false)));
}

#[test]
fn some3_round_trip_optionals() {
    let built = Triple::try_from_options(None, Some("mid"), Some(true)).unwrap();
    assert_eq!(built.into_options(), (None, Some("mid"), Some(true)));
}

#[test]
fn some3_round_trip_full_tuple() {
    let built = Triple::from_tuple((7, "all", true));
    assert_eq!(built, Triple::ABC(7, "all", true));
    assert_eq!(built.into_options(), (Some(7), Some("all"), Some(true)));
}

#[test]
fn some3_accessors_agree_with_decomposition() {
    let val = Triple::AC(42, false);
    let (opta, optb, optc) = val.into_options();
    assert_eq!(val.a(), opta);
    assert_eq!(val.b(), optb);
    assert_eq!(val.c(), optc);

    let one = Triple::B("only");
    assert_eq!(one.a(), None);
    assert_eq!(one.b(), Some("only"));
    assert_eq!(one.c(), None);
}

#[test]
fn some3_as_ref_keeps_variant_and_values() {
    let val = Triple::AC(42, false);
    match val.as_ref() {
        Some3::AC(x, z) => {
            assert_eq!(*x, 42);
            assert_eq!(*z, false);
        }
        _ => panic!("borrowing view changed the variant"),
    }
    assert_eq!(val.as_ref().a(), Some(&42));
    assert_eq!(val.as_ref().b(), None);
    assert_eq!(val.as_ref().c(), Some(&false));
}

#[test]
fn some3_equality_is_structural() {
    assert_eq!(Triple::AC(42, false), Triple::AC(42, false));
    assert_ne!(Triple::AC(42, false), Triple::AC(42, true));
    // Different subsets are unequal even when a shared slot value coincides.
    assert_ne!(Triple::A(42), Triple::AC(42, false));
    assert_ne!(Triple::AB(1, "x"), Triple::ABC(1, "x", true));
}
