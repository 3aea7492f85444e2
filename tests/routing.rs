use prompt_gateway::message::{str_equal, Role};
use prompt_gateway::routing::{combine_routes, select_target, DEFAULT_THRESHOLD};

#[test]
fn selects_arg_max_above_threshold() {
    assert_eq!(select_target(&vec![3000, 9100, 8500], DEFAULT_THRESHOLD), Some(1));
    assert_eq!(select_target(&vec![8200], DEFAULT_THRESHOLD), Some(0));
}

#[test]
fn ties_go_to_the_first_declared() {
    assert_eq!(select_target(&vec![9000, 9000, 100], 8000), Some(0));
}

#[test]
fn below_threshold_selects_nothing() {
    assert_eq!(select_target(&vec![7999, 100, -500], 8000), None);
    assert_eq!(select_target(&vec![], 8000), None);
    assert_eq!(select_target(&vec![8000], 8000), Some(0));
}

#[test]
fn raising_threshold_never_adds_routes() {
    let scores = vec![4000, 8500, 6000];
    let mut routed_before = true;
    for t in [0i64, 4000, 8500, 8501, 9000] {
        let r = select_target(&scores, t);
        if r.is_some() {
            assert!(routed_before);
            assert_eq!(r, Some(1));
        }
        routed_before = r.is_some();
    }
}

#[test]
fn embedding_wins_over_intent() {
    assert_eq!(combine_routes(Some(2), Some(1), Some(0)), Some(2));
    assert_eq!(combine_routes(None, Some(1), Some(0)), Some(1));
    assert_eq!(combine_routes(None, None, Some(0)), Some(0));
    assert_eq!(combine_routes(None, None, None), None);
}

#[test]
fn role_names_round_trip() {
    for r in [Role::System, Role::User, Role::Assistant, Role::Tool] {
        assert_eq!(Role::from_name(r.name()), Some(r));
    }
    assert_eq!(Role::from_name("robot"), None);
    assert_eq!(Role::from_name("User"), None);
    assert!(str_equal("abc", "abc"));
    assert!(!str_equal("abc", "abd"));
}
