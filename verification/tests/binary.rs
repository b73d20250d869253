use nostr_faucet_e2e::binary::{faucet_source, Build, Source};
use nostr_faucet_e2e::{funding, limits};

fn some(text: &str) -> Option<String> {
    Some(text.to_string())
}

#[test]
fn a_binary_that_is_named_is_used() {
    let source = faucet_source(some("/bin/faucet"), some("/repo"), None);
    assert!(matches!(source, Source::Ready(path) if path == "/bin/faucet"));
}

#[test]
fn a_directory_that_is_named_is_built_in() {
    match faucet_source(None, some("/repo"), some("/home/alice")) {
        Source::Build { repo, arguments } => {
            assert_eq!(repo, "/repo");
            assert_eq!(arguments, vec!["build", "--bin", "nostr-faucet"]);
        }
        Source::Ready(_) => panic!("nothing was named"),
    }
}

#[test]
fn the_default_is_below_the_home_directory() {
    match faucet_source(None, None, some("/home/alice")) {
        Source::Build { repo, .. } => assert_eq!(repo, "/home/alice/git/nostr-faucet"),
        Source::Ready(_) => panic!("nothing was named"),
    }
}

#[test]
fn a_build_gives_the_binary_or_says_why_not() {
    for built in [funding::faucet_binary, limits::faucet_binary] {
        let path = built("/repo".to_string(), Build::Succeeded).ok().unwrap();
        assert_eq!(path, "/repo/target/debug/nostr-faucet");
        let failed = built("/repo".to_string(), Build::Failed).err().unwrap();
        assert_eq!(failed.message(), "building nostr-faucet failed");
        assert!(failed.cause().is_none());
    }
}

#[test]
fn a_build_that_cannot_be_started_is_told_with_or_without_its_directory() {
    let absent = || Build::NotRun("No such file or directory (os error 2)".to_string());
    let told = funding::faucet_binary("/repo".to_string(), absent()).err().unwrap();
    assert_eq!(told.message(), "cannot build nostr-faucet in /repo");
    assert_eq!(told.cause().unwrap(), "No such file or directory (os error 2)");
    let told = limits::faucet_binary("/repo".to_string(), absent()).err().unwrap();
    assert_eq!(told.message(), "No such file or directory (os error 2)");
    assert!(told.cause().is_none());
}
