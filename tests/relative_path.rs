use std::convert::TryFrom;

use direct_decl::relative_path::Prefix;

#[test]
fn test_valid_usize_prefix() {
    let valid_prefix: usize = 2;
    assert_eq!(Ok(Prefix::Dummy), Prefix::try_from(valid_prefix));
}

#[test]
fn test_invalid_usize_prefix() {
    let invalid_prefix: usize = 22;

    assert_eq!(
        Err("prefix 22 is not defined".to_string()),
        Prefix::try_from(invalid_prefix)
    )
}

#[test]
fn prefix_numbers_and_names() {
    assert_eq!(Prefix::try_from(0usize), Ok(Prefix::Root));
    assert_eq!(Prefix::try_from(1usize), Ok(Prefix::Hhi));
    assert_eq!(Prefix::try_from(3usize), Ok(Prefix::Tmp));
    assert_eq!(Prefix::try_from(4usize), Err("prefix 4 is not defined".to_string()));
    assert_eq!(Prefix::try_from(1234usize), Err("prefix 1234 is not defined".to_string()));
    assert_eq!(Prefix::Root.to_str(), "root");
    assert_eq!(Prefix::Hhi.to_str(), "hhi");
    assert_eq!(Prefix::Tmp.to_str(), "tmp");
    assert_eq!(Prefix::Dummy.to_str(), "dummy");
}
