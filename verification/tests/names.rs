use gateway::name::AccountName;
use gateway::name::ProjectName;
use gateway::ErrorKind;

#[test]
fn valid_project_names_round_trip() {
    for s in ["abc", "my-project_01", "ABC-123", "a_b", "___", "000"] {
        let p = ProjectName::from_str(s).unwrap();
        assert_eq!(p.as_str(), s);
        assert_eq!(p.0, s);
    }
}

#[test]
fn project_name_length_bounds() {
    let three = "aaa";
    let sixty_four: String = std::iter::repeat('a').take(64).collect();
    assert!(ProjectName::from_str(three).is_ok());
    assert!(ProjectName::from_str(&sixty_four).is_ok());

    let two = "aa";
    let sixty_five: String = std::iter::repeat('a').take(65).collect();
    assert!(ProjectName::from_str(two).is_err());
    assert!(ProjectName::from_str(&sixty_five).is_err());
}

#[test]
fn invalid_project_names_rejected_with_kind() {
    for s in ["", "ab", "a/b", "has space", "héllo", "dot.dot", "semi;colon", "a\nb"] {
        let e = ProjectName::from_str(s).unwrap_err();
        assert_eq!(e.kind(), ErrorKind::InvalidProjectName);
    }
}

#[test]
fn account_name_accepts_non_empty() {
    let a = AccountName::from_str("alice").unwrap();
    assert_eq!(a.as_str(), "alice");
    assert_eq!(a.0, "alice");
}

#[test]
fn account_name_rejects_empty() {
    let e = AccountName::from_str("").unwrap_err();
    assert_eq!(e.kind(), ErrorKind::InvalidProjectName);
}
