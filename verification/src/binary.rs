//! Where the faucet's binary comes from.

use crate::text::texts;
use vstd::prelude::*;
use vstd::string::*;

verus! {

/// Where the faucet's binary comes from.
pub enum Source {
    /// It is there, at this path.
    Ready(String),
    /// It is built: `cargo` is run in this directory, with these arguments.
    Build { repo: String, arguments: Vec<String> },
}

/// How a build ended.
pub enum Build {
    /// It could not be started, as these words say.
    NotRun(String),
    /// It failed.
    Failed,
    /// It succeeded.
    Succeeded,
}

/// Why there is no binary.
pub enum BuildError {
    /// The build could not be started, as these words say.
    NotRun(String),
    /// The same, told with the directory.
    NotRunIn { repo: String, words: String },
    /// The build failed.
    Failed,
}

/// Why there is no binary, with its texts as values.
pub enum BuildErrorView {
    NotRun(Seq<char>),
    NotRunIn { repo: Seq<char>, words: Seq<char> },
    Failed,
}

impl BuildError {
    /// The error, with its texts as values.
    pub open spec fn view(&self) -> BuildErrorView {
        match self {
            BuildError::NotRun(words) => BuildErrorView::NotRun(words@),
            BuildError::NotRunIn { repo, words } => BuildErrorView::NotRunIn {
                repo: repo@,
                words: words@,
            },
            BuildError::Failed => BuildErrorView::Failed,
        }
    }
}

/// The directory in which the faucet is built: the one that was named, or the one below
/// the home directory.
pub open spec fn build_directory(repo: Option<String>, home: Option<String>) -> Seq<char> {
    match repo {
        Some(path) => path@,
        None => home->0@ + "/git/nostr-faucet"@,
    }
}

/// What `cargo` is run with.
pub open spec fn build_arguments() -> Seq<Seq<char>> {
    seq!["build"@, "--bin"@, "nostr-faucet"@]
}

/// What is said of an error.
pub open spec fn build_error_text(error: BuildErrorView) -> Seq<char> {
    match error {
        BuildErrorView::NotRun(words) => words,
        BuildErrorView::NotRunIn { repo, .. } => "cannot build nostr-faucet in "@ + repo,
        BuildErrorView::Failed => "building nostr-faucet failed"@,
    }
}

/// What caused an error, where something else did.
pub open spec fn build_error_cause(error: BuildErrorView) -> Option<Seq<char>> {
    match error {
        BuildErrorView::NotRunIn { words, .. } => Some(words),
        _ => None,
    }
}

/// Where the faucet's binary comes from, as `NOSTR_FAUCET_BINARY`, `NOSTR_FAUCET_REPO` and
/// `HOME` say. A binary that is named is not built. Where neither a binary nor a
/// directory is named, there has to be a home directory.
pub fn faucet_source(binary: Option<String>, repo: Option<String>, home: Option<String>) -> (r:
    Source)
    requires
        binary is None && repo is None ==> home is Some,
    ensures
        match binary {
            Some(path) => r matches Source::Ready(used) && used@ == path@,
            None => r matches Source::Build { repo: directory, arguments } && directory@
                == build_directory(repo, home) && texts(arguments@) == build_arguments(),
        },
{
    match binary {
        Some(path) => Source::Ready(path),
        None => {
            let directory = match repo {
                Some(path) => path,
                None => home.unwrap().concat("/git/nostr-faucet"),
            };
            let arguments = vec!["build".to_owned(), "--bin".to_owned(), "nostr-faucet".to_owned()];
            proof {
                assert(texts(arguments@) =~= build_arguments());
            }
            Source::Build { repo: directory, arguments }
        },
    }
}

/// What is wrong with a build, where it did not succeed. Whether the directory is told of a
/// build that could not be started is up to `tells_directory`.
pub open spec fn build_error(repo: Seq<char>, build: Build, tells_directory: bool) -> Option<
    BuildErrorView,
> {
    match build {
        Build::NotRun(words) => if tells_directory {
            Some(BuildErrorView::NotRunIn { repo, words: words@ })
        } else {
            Some(BuildErrorView::NotRun(words@))
        },
        Build::Failed => Some(BuildErrorView::Failed),
        Build::Succeeded => None,
    }
}

/// The path of the binary that is built in a directory.
pub open spec fn binary_path(repo: Seq<char>) -> Seq<char> {
    repo + "/target/debug/nostr-faucet"@
}

/// The path of the binary that was built in `repo`, or why there is none.
pub(crate) fn built(repo: String, build: Build, tells_directory: bool) -> (r: Result<
    String,
    BuildError,
>)
    ensures
        r is Ok <==> build_error(repo@, build, tells_directory) is None,
        r matches Ok(path) ==> path@ == binary_path(repo@),
        r matches Err(error) ==> build_error(repo@, build, tells_directory) == Some(error@),
{
    match build {
        Build::NotRun(words) => if tells_directory {
            Err(BuildError::NotRunIn { repo, words })
        } else {
            Err(BuildError::NotRun(words))
        },
        Build::Failed => Err(BuildError::Failed),
        Build::Succeeded => Ok(repo.concat("/target/debug/nostr-faucet")),
    }
}

impl BuildError {
    /// The error in words.
    pub fn message(&self) -> (r: String)
        ensures
            r@ == build_error_text(self@),
    {
        match self {
            BuildError::NotRun(words) => words.clone(),
            BuildError::NotRunIn { repo, .. } => "cannot build nostr-faucet in ".to_owned().concat(
                repo.as_str(),
            ),
            BuildError::Failed => "building nostr-faucet failed".to_owned(),
        }
    }

    /// What caused the error, in words, where something else did.
    pub fn cause(&self) -> (r: Option<String>)
        ensures
            r is Some <==> build_error_cause(self@) is Some,
            r matches Some(words) ==> build_error_cause(self@) == Some(words@),
    {
        match self {
            BuildError::NotRunIn { words, .. } => Some(words.clone()),
            _ => None,
        }
    }
}

/// A binary that is named is used as it is; otherwise `cargo build --bin nostr-faucet` is run,
/// in the directory that is named, or else in `git/nostr-faucet` below the home directory.
pub proof fn law_source_is_named_or_built(
    binary: Option<String>,
    repo: Option<String>,
    home: Option<String>,
    r: Source,
)
    requires
        binary is None && repo is None ==> home is Some,
        call_ensures(faucet_source, (binary, repo, home), r),
    ensures
        binary matches Some(path) ==> (r matches Source::Ready(used) && used@ == path@),
        binary is None ==> (r matches Source::Build { arguments, .. } && arguments@.len() == 3
            && arguments@[0]@ == "build"@ && arguments@[1]@ == "--bin"@ && arguments@[2]@
            == "nostr-faucet"@),
        binary is None ==> (repo matches Some(path) ==> (r matches Source::Build {
            repo: directory,
            ..
        } && directory@ == path@)),
        binary is None && repo is None ==> (r matches Source::Build { repo: directory, .. }
            && directory@ == home->0@ + "/git/nostr-faucet"@),
{
    if binary is None {
        let arguments = r->arguments;
        assert(texts(arguments@).len() == arguments@.len());
        assert(texts(arguments@)[0] == arguments@[0]@);
        assert(texts(arguments@)[1] == arguments@[1]@);
        assert(texts(arguments@)[2] == arguments@[2]@);
    }
}

/// A build error in words.
pub proof fn law_build_error_in_words(error: BuildError, words: String, cause: Option<String>)
    requires
        call_ensures(BuildError::message, (&error,), words),
        call_ensures(BuildError::cause, (&error,), cause),
    ensures
        error matches BuildError::NotRun(own) ==> words@ == own@ && cause is None,
        error matches BuildError::NotRunIn { repo, words: own } ==> words@
            == "cannot build nostr-faucet in "@ + repo@ && (cause matches Some(c) && c@ == own@),
        error is Failed ==> words@ == "building nostr-faucet failed"@ && cause is None,
{
}

}
