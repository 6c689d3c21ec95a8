use vstd::prelude::*;
use vstd::string::StringExecFns;

verus! {

/// What is known of a version-control repository.
pub struct GitInfo {
    pub is_git_repo: bool,
    pub current_branch: Option<String>,
    pub remote_url: Option<String>,
    pub tags: Vec<String>,
}

/// A project folder and, where it is a repository, what is known of it.
pub struct Git {
    path: String,
    info: Option<GitInfo>,
}

/// What is known of the repository whose metadata directory is at
/// `git_path`: that it is one; branch, remote and tags are not read.
pub fn parse_git_info(git_path: &str) -> (r: GitInfo)
    ensures
        r.is_git_repo,
        r.current_branch is None,
        r.remote_url is None,
        r.tags@.len() == 0,
{
    GitInfo { is_git_repo: true, current_branch: None, remote_url: None, tags: Vec::new() }
}

impl Git {
    /// The folder's path.
    pub closed spec fn spec_path(&self) -> Seq<char> {
        self.path@
    }

    /// Whether the folder has repository information.
    pub closed spec fn has_info(&self) -> bool {
        self.info is Some
    }

    /// The folder at `path`; `has_git_dir` says whether it holds a `.git`
    /// directory, which makes it a repository.
    pub fn new(path: &str, has_git_dir: bool) -> (r: Self)
        ensures
            r.spec_path() == path@,
            r.has_info() == has_git_dir,
    {
        let info = if has_git_dir {
            Some(parse_git_info(path))
        } else {
            None
        };
        Git { path: String::from_str(path), info }
    }

    /// Whether the folder is a repository.
    pub fn is_repo(&self) -> (r: bool)
        ensures
            r == self.has_info(),
    {
        self.info.is_some()
    }

    /// What is known of the repository, if the folder is one.
    pub fn info(&self) -> (r: Option<&GitInfo>)
        ensures
            r is Some == self.has_info(),
    {
        self.info.as_ref()
    }

    /// The folder's path.
    pub fn path(&self) -> (r: &str)
        ensures
            r@ == self.spec_path(),
    {
        self.path.as_str()
    }
}

} // verus!
