use liborchestra::error::Error;
use liborchestra::{hosts, misc, primitives, repository, ssh};

#[test]
fn errors_of_modules_are_held() {
    let error = Error::from(ssh::Error::ChannelNotAvailable);
    assert_eq!(error.message(), "Ssh related error happened:\nChannel is not yet available");
    let error = Error::from(repository::Error::NoFFPossible);
    assert!(error.message().starts_with("Repository related error happened:\n"));
    let error = Error::from(misc::Error::InvalidRepository);
    assert_eq!(error.message(), "Misc related error happened:\nInvalid expegit repository");
    let error = Error::from(primitives::Error::Operation("x".to_owned()));
    assert_eq!(
        error.message(),
        "Primitives related error occurred:\nAn error occurred while performing the operation:\nx"
    );
    assert_eq!(Error::Generic("x".to_owned()).message(), "Error happened:\nx");
    assert_eq!(Error::Io("x".to_owned()).message(), "Io related error happened:\nx");
    assert_eq!(Error::Yaml("x".to_owned()).message(), "Yaml related error happened:\nx");
    assert_eq!(Error::Regex("x".to_owned()).message(), "Regex related error happened:\nx");
    assert_eq!(Error::Git("x".to_owned()).message(), "Git related error happened:\nx");
    assert_eq!(Error::YamlScanError("x".to_owned()).message(), "Yaml related error happened:\nx");
}

#[test]
fn errors_become_errors_of_operations() {
    let error = hosts::Error::from(ssh::Error::WouldBlock);
    assert_eq!(error.show(), "Ssh(WouldBlock)");
    match error.to_operation() {
        primitives::Error::Operation(text) => {
            assert_eq!(text, "An ssh-related error occurred: \nBlocking operation.")
        }
        _ => panic!("Not of an operation"),
    }
    match ssh::Error::ChannelNotAvailable.to_operation() {
        primitives::Error::Operation(text) => assert_eq!(text, "Channel is not yet available"),
        _ => panic!("Not of an operation"),
    }
}
