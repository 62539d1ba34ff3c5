use repo_import::errors::FormatError;
use repo_import::namespace::extract_namespace;

#[test]
fn github_url_yields_owner_and_repo() {
    assert_eq!(
        extract_namespace("https://www.github.com/tokio-rs/tokio"),
        Ok(String::from("tokio-rs/tokio"))
    );
}

#[test]
fn trailing_dot_git_is_stripped() {
    assert_eq!(
        extract_namespace("https://host/owner/repo.git"),
        Ok(String::from("owner/repo"))
    );
}

#[test]
fn deep_paths_use_last_two_segments() {
    assert_eq!(
        extract_namespace("https://host/a/b/owner/repo"),
        Ok(String::from("owner/repo"))
    );
}

#[test]
fn single_segment_is_rejected() {
    assert_eq!(
        extract_namespace("https://host/onlyone"),
        Err(FormatError::MissingSegments)
    );
}

#[test]
fn invalid_url_is_rejected() {
    assert_eq!(
        extract_namespace("not a url at all"),
        Err(FormatError::InvalidUrl)
    );
}
