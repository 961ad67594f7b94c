use webrtc::ICEParameters;

fn params(ufrag: &str, pwd: &str, lite: bool) -> ICEParameters {
    ICEParameters {
        username_fragment: ufrag.to_string(),
        password: pwd.to_string(),
        ice_lite: lite,
    }
}

#[test]
fn default_parameters_are_empty() {
    let p = ICEParameters::default();
    assert_eq!(p.username_fragment, "");
    assert_eq!(p.password, "");
    assert!(!p.ice_lite);
    assert_eq!(p, params("", "", false));
}

#[test]
fn parameters_equality_is_reflexive_and_symmetric() {
    let a = params("abc", "xyz", true);
    let b = params("abc", "xyz", true);
    assert_eq!(a, a);
    assert_eq!(a, b);
    assert_eq!(b, a);
}

#[test]
fn parameters_differing_in_one_field_are_unequal() {
    let a = params("abc", "xyz", true);
    let others = [
        params("abd", "xyz", true),
        params("abc", "xy", true),
        params("abc", "xyz", false),
    ];
    for o in others {
        assert_ne!(a, o);
        assert_ne!(o, a);
    }
}

#[test]
fn cloned_parameters_are_equal() {
    let a = params("abc", "xyz", true);
    let c = a.clone();
    assert_eq!(a, c);
    assert_eq!(c.username_fragment, "abc");
    assert_eq!(c.password, "xyz");
    assert!(c.ice_lite);
}
