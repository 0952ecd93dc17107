use noteforge::errors::ApiError;
use noteforge::roles::{classify, PageRole};

#[test]
fn classify_single_page() {
    let roles = classify(1).unwrap();
    assert_eq!(roles.len(), 1);
    assert!(matches!(roles[0], PageRole::Single));
}

#[test]
fn classify_two_pages() {
    let roles = classify(2).unwrap();
    assert_eq!(roles.len(), 2);
    assert!(matches!(roles[0], PageRole::First));
    assert!(matches!(roles[1], PageRole::Last));
}

#[test]
fn classify_three_pages() {
    let roles = classify(3).unwrap();
    assert_eq!(roles.len(), 3);
    assert!(matches!(roles[0], PageRole::First));
    assert!(matches!(roles[1], PageRole::Middle));
    assert!(matches!(roles[2], PageRole::Last));
}

#[test]
fn classify_five_pages_has_one_opening_and_one_closing() {
    let roles = classify(5).unwrap();
    assert_eq!(roles.len(), 5);
    let openings = roles
        .iter()
        .filter(|r| matches!(r, PageRole::First | PageRole::Single))
        .count();
    let closings = roles
        .iter()
        .filter(|r| matches!(r, PageRole::Last | PageRole::Single))
        .count();
    assert_eq!(openings, 1);
    assert_eq!(closings, 1);
    assert!(matches!(roles[0], PageRole::First));
    assert!(matches!(roles[4], PageRole::Last));
    for i in 1..4 {
        assert!(matches!(roles[i], PageRole::Middle));
    }
}

#[test]
fn classify_zero_pages_is_a_validation_error() {
    let error = classify(0).unwrap_err();
    assert!(matches!(error, ApiError::ValidationError(_)));
    assert_eq!(error.status_code(), 400);
}
