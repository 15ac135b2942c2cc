use unduler::RawCommit;

fn now() -> i64 {
    chrono::Utc::now().timestamp()
}

fn make_commit(hash: &str, message: &str) -> RawCommit {
    RawCommit::new(hash, message, "Test Author", "test@example.com", now())
}

#[test]
fn raw_test_new() {
    let now = now();
    let commit = RawCommit::new(
        "abc1234567890",
        "feat: add feature",
        "Test Author",
        "test@example.com",
        now,
    );

    assert_eq!(commit.hash, "abc1234567890");
    assert_eq!(commit.message, "feat: add feature");
    assert_eq!(commit.author, "Test Author");
    assert_eq!(commit.email, "test@example.com");
    assert_eq!(commit.date, now);
}

#[test]
fn test_new_with_into() {
    let commit = RawCommit::new(
        &String::from("hash"),
        &String::from("message"),
        &String::from("author"),
        &String::from("email"),
        now(),
    );

    assert_eq!(commit.hash, "hash");
    assert_eq!(commit.message, "message");
}

#[test]
fn test_subject() {
    let commit = RawCommit::new(
        "abc1234567890",
        "feat: add new feature\n\nThis is the body",
        "Test Author",
        "test@example.com",
        now(),
    );

    assert_eq!(commit.subject(), "feat: add new feature");
}

#[test]
fn test_subject_single_line() {
    let commit = make_commit("abc123", "single line message");
    assert_eq!(commit.subject(), "single line message");
}

#[test]
fn test_subject_empty() {
    let commit = make_commit("abc123", "");
    assert_eq!(commit.subject(), "");
}

#[test]
fn test_subject_only_newlines() {
    let commit = make_commit("abc123", "\n\n\n");
    assert_eq!(commit.subject(), "");
}

#[test]
fn test_subject_with_carriage_return() {
    let commit = make_commit("abc123", "fix: windows line\r\nbody");
    assert_eq!(commit.subject(), "fix: windows line");
    // A carriage return that no line feed follows belongs to the line.
    let commit = make_commit("abc123", "fix: bare\r");
    assert_eq!(commit.subject(), "fix: bare\r");
}

#[test]
fn test_body_none_single_line() {
    let commit = make_commit("abc123", "single line");
    assert!(commit.body().is_none());
}

#[test]
fn test_body_none_with_body_text() {
    let commit = make_commit("abc123", "subject\n\nbody text");
    // Body extraction is not provided: the result is always absent
    assert!(commit.body().is_none());
}

#[test]
fn test_short_hash() {
    let commit = RawCommit::new(
        "abc1234567890",
        "feat: add new feature",
        "Test Author",
        "test@example.com",
        now(),
    );

    assert_eq!(commit.short_hash(), "abc1234");
}

#[test]
fn test_short_hash_exact_7() {
    let commit = make_commit("abc1234", "message");
    assert_eq!(commit.short_hash(), "abc1234");
}

#[test]
fn test_short_hash_less_than_7() {
    let commit = make_commit("abc", "message");
    assert_eq!(commit.short_hash(), "abc");
}

#[test]
fn test_short_hash_empty() {
    let commit = make_commit("", "message");
    assert_eq!(commit.short_hash(), "");
}

#[test]
fn raw_test_clone() {
    let commit = make_commit("abc123", "message");
    let cloned = commit.clone();
    assert_eq!(commit.hash, cloned.hash);
    assert_eq!(commit.message, cloned.message);
}

#[test]
fn raw_test_debug() {
    let commit = make_commit("abc123", "message");
    let debug = format!("{commit:?}");
    assert!(debug.contains("RawCommit"));
    assert!(debug.contains("abc123"));
}

#[test]
fn raw_test_eq() {
    let now = now();
    let commit1 = RawCommit::new("abc", "msg", "author", "email", now);
    let commit2 = RawCommit::new("abc", "msg", "author", "email", now);
    assert_eq!(commit1, commit2);
}
