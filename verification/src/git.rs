//! Git commands on a repository. The commands are executed through processes: each function gives the
//! command that has to be run, and what the run gives is read by the result functions.
use vstd::prelude::*;
#[allow(unused_imports)]
use vstd::string::*;
use vstd::utf8::*;
use crate::commons::utf8_text;
#[allow(unused_imports)]
use crate::text::{
    cat, cat4, cat5, path_in, path_join, remove_char, split, split_on, texts, without_char,
};

verus! {

//---------------------------------------------------------------------------------------- ERRORS
#[derive(Debug)]
pub enum Error {
    /// The command failed, with a message.
    Git(String),
    /// The command could not be run.
    Unknown,
}

impl Clone for Error {
    fn clone(&self) -> (res: Error)
        ensures
            res == *self,
    {
        match self {
            Error::Git(s) => Error::Git(s.clone()),
            Error::Unknown => Error::Unknown,
        }
    }
}

//-------------------------------------------------------------------------------------- COMMANDS
/// A command that has to be run: the program and its arguments, the directory in which it is run,
/// and what it is run for.
#[derive(Debug)]
pub struct Command {
    pub args: Vec<String>,
    pub dir: String,
    pub description: String,
}

/// What came of a command.
pub enum CommandOutcome {
    /// It succeeded, and wrote the given bytes on its standard output.
    Success(Vec<u8>),
    /// It failed, with the given message.
    Failed(String),
    /// It could not be run.
    NotRun,
}

/// Whether a command is the given one.
pub open spec fn is_command(
    command: Command,
    args: Seq<Seq<char>>,
    dir: Seq<char>,
    description: Seq<char>,
) -> bool {
    &&& texts(command.args@) == args
    &&& command.dir@ == dir
    &&& command.description@ == description
}

/// Clone repository from a url. Also clone submodules.
pub fn clone_remote_repo(git_url: &str, cmd_dir: &str) -> (res: Command)
    ensures
        is_command(
            res,
            seq!["git"@, "clone"@, "--recurse-submodule"@, git_url@],
            cmd_dir@,
            "clone remote repository "@ + git_url@,
        ),
{
    let mut args: Vec<String> = Vec::new();
    args.push("git".to_owned());
    args.push("clone".to_owned());
    args.push("--recurse-submodule".to_owned());
    args.push(git_url.to_owned());
    let command = Command { args, dir: cmd_dir.to_owned(), description: cat("clone remote repository ", git_url) };
    assert(texts(command.args@) =~= seq!["git"@, "clone"@, "--recurse-submodule"@, git_url@]);
    command
}

/// Clone a local repository by making a shallow copy of it.
pub fn clone_local_repo(repo_path: &str, cmd_dir: &str) -> (res: Command)
    ensures
        is_command(
            res,
            seq!["git"@, "clone"@, "-ls"@, repo_path@, "."@],
            cmd_dir@,
            "clone local repository "@ + repo_path@,
        ),
{
    let mut args: Vec<String> = Vec::new();
    args.push("git".to_owned());
    args.push("clone".to_owned());
    args.push("-ls".to_owned());
    args.push(repo_path.to_owned());
    args.push(".".to_owned());
    let command = Command { args, dir: cmd_dir.to_owned(), description: cat("clone local repository ", repo_path) };
    assert(texts(command.args@) =~= seq!["git"@, "clone"@, "-ls"@, repo_path@, "."@]);
    command
}

/// Get the hash of the commit of the branch tip. See `tip_result`.
pub fn get_tip(branch: &str, cmd_dir: &str) -> (res: Command)
    ensures
        is_command(
            res,
            seq!["git"@, "rev-parse"@, branch@],
            cmd_dir@,
            "get head in "@ + cmd_dir@,
        ),
{
    let mut args: Vec<String> = Vec::new();
    args.push("git".to_owned());
    args.push("rev-parse".to_owned());
    args.push(branch.to_owned());
    let command = Command { args, dir: cmd_dir.to_owned(), description: cat("get head in ", cmd_dir) };
    assert(texts(command.args@) =~= seq!["git"@, "rev-parse"@, branch@]);
    command
}

/// Checkout a particular commit given its hash.
pub fn checkout(commit_hash: &str, cmd_dir: &str) -> (res: Command)
    ensures
        is_command(
            res,
            seq!["git"@, "checkout"@, commit_hash@],
            cmd_dir@,
            "check out to "@ + commit_hash@ + " in "@ + cmd_dir@,
        ),
{
    let mut args: Vec<String> = Vec::new();
    args.push("git".to_owned());
    args.push("checkout".to_owned());
    args.push(commit_hash.to_owned());
    let command = Command { args, dir: cmd_dir.to_owned(), description: cat4("check out to ", commit_hash, " in ", cmd_dir) };
    assert(texts(command.args@) =~= seq!["git"@, "checkout"@, commit_hash@]);
    command
}

/// Get address of the origin branch. See `origin_url_result`.
pub fn get_origin_url(cmd_dir: &str) -> (res: Command)
    ensures
        is_command(
            res,
            seq!["git"@, "remote"@, "get-url"@, "origin"@],
            cmd_dir@,
            "get origin in "@ + cmd_dir@,
        ),
{
    let mut args: Vec<String> = Vec::new();
    args.push("git".to_owned());
    args.push("remote".to_owned());
    args.push("get-url".to_owned());
    args.push("origin".to_owned());
    let command = Command { args, dir: cmd_dir.to_owned(), description: cat("get origin in ", cmd_dir) };
    assert(texts(command.args@) =~= seq!["git"@, "remote"@, "get-url"@, "origin"@]);
    command
}

/// Add submodule to a repository.
pub fn add_submodule(sm_url: &str, name: &str, cmd_dir: &str) -> (res: Command)
    ensures
        is_command(
            res,
            seq!["git"@, "submodule"@, "add"@, sm_url@, name@],
            cmd_dir@,
            "add submodule "@ + sm_url@ + " in "@ + cmd_dir@,
        ),
{
    let mut args: Vec<String> = Vec::new();
    args.push("git".to_owned());
    args.push("submodule".to_owned());
    args.push("add".to_owned());
    args.push(sm_url.to_owned());
    args.push(name.to_owned());
    let command = Command { args, dir: cmd_dir.to_owned(), description: cat4("add submodule ", sm_url, " in ", cmd_dir) };
    assert(texts(command.args@) =~= seq!["git"@, "submodule"@, "add"@, sm_url@, name@]);
    command
}

/// Update the submodules of a repository.
pub fn update_submodule(cmd_dir: &str) -> (res: Command)
    ensures
        is_command(
            res,
            seq!["git"@, "submodule"@, "update"@, "--remote"@, "--merge"@],
            cmd_dir@,
            "update submodule in "@ + cmd_dir@,
        ),
{
    let mut args: Vec<String> = Vec::new();
    args.push("git".to_owned());
    args.push("submodule".to_owned());
    args.push("update".to_owned());
    args.push("--remote".to_owned());
    args.push("--merge".to_owned());
    let command = Command { args, dir: cmd_dir.to_owned(), description: cat("update submodule in ", cmd_dir) };
    assert(texts(command.args@) =~= seq!["git"@, "submodule"@, "update"@, "--remote"@, "--merge"@]);
    command
}

/// Get list of files staged for commits. See `staged_files_result`.
pub fn get_staged_files(cmd_dir: &str) -> (res: Command)
    ensures
        is_command(
            res,
            seq!["git"@, "diff"@, "--name-only"@, "--cached"@],
            cmd_dir@,
            "get staged files in "@ + cmd_dir@,
        ),
{
    let mut args: Vec<String> = Vec::new();
    args.push("git".to_owned());
    args.push("diff".to_owned());
    args.push("--name-only".to_owned());
    args.push("--cached".to_owned());
    let command = Command { args, dir: cmd_dir.to_owned(), description: cat("get staged files in ", cmd_dir) };
    assert(texts(command.args@) =~= seq!["git"@, "diff"@, "--name-only"@, "--cached"@]);
    command
}

/// Stage a file for commit.
pub fn stage(stage_path: &str, cmd_dir: &str) -> (res: Command)
    ensures
        is_command(
            res,
            seq!["git"@, "add"@, stage_path@],
            cmd_dir@,
            "stage "@ + stage_path@ + " in "@ + cmd_dir@,
        ),
{
    let mut args: Vec<String> = Vec::new();
    args.push("git".to_owned());
    args.push("add".to_owned());
    args.push(stage_path.to_owned());
    let command = Command { args, dir: cmd_dir.to_owned(), description: cat4("stage ", stage_path, " in ", cmd_dir) };
    assert(texts(command.args@) =~= seq!["git"@, "add"@, stage_path@]);
    command
}

/// Commit staged files with a given message.
pub fn commit(commit_message: &str, cmd_dir: &str) -> (res: Command)
    ensures
        is_command(
            res,
            seq!["git"@, "commit"@, "-m"@, commit_message@],
            cmd_dir@,
            "commit "@ + commit_message@ + " in "@ + cmd_dir@,
        ),
{
    let mut args: Vec<String> = Vec::new();
    args.push("git".to_owned());
    args.push("commit".to_owned());
    args.push("-m".to_owned());
    args.push(commit_message.to_owned());
    let command = Command { args, dir: cmd_dir.to_owned(), description: cat4("commit ", commit_message, " in ", cmd_dir) };
    assert(texts(command.args@) =~= seq!["git"@, "commit"@, "-m"@, commit_message@]);
    command
}

/// Abort previous rebase.
pub fn abort_rebase(cmd_dir: &str) -> (res: Command)
    ensures
        is_command(
            res,
            seq!["git"@, "rebase"@, "--abort"@],
            cmd_dir@,
            "abort rebase in "@ + cmd_dir@,
        ),
{
    let mut args: Vec<String> = Vec::new();
    args.push("git".to_owned());
    args.push("rebase".to_owned());
    args.push("--abort".to_owned());
    let command = Command { args, dir: cmd_dir.to_owned(), description: cat("abort rebase in ", cmd_dir) };
    assert(texts(command.args@) =~= seq!["git"@, "rebase"@, "--abort"@]);
    command
}

/// Pull changes from remote. Note that submodules are not affected by this command.
pub fn pull(cmd_dir: &str) -> (res: Command)
    ensures
        is_command(
            res,
            seq!["git"@, "pull"@, "--rebase"@, "--autostash"@, "--no-edit"@, "origin"@, "master"@],
            cmd_dir@,
            "pull in "@ + cmd_dir@,
        ),
{
    let mut args: Vec<String> = Vec::new();
    args.push("git".to_owned());
    args.push("pull".to_owned());
    args.push("--rebase".to_owned());
    args.push("--autostash".to_owned());
    args.push("--no-edit".to_owned());
    args.push("origin".to_owned());
    args.push("master".to_owned());
    let command = Command { args, dir: cmd_dir.to_owned(), description: cat("pull in ", cmd_dir) };
    assert(texts(command.args@) =~= seq!["git"@, "pull"@, "--rebase"@, "--autostash"@, "--no-edit"@, "origin"@, "master"@]);
    command
}

/// Fetch changes from a given branch.
pub fn fetch(origin: &str, cmd_dir: &str) -> (res: Command)
    ensures
        is_command(
            res,
            seq!["git"@, "fetch"@, origin@],
            cmd_dir@,
            "fetch "@ + origin@ + " in "@ + cmd_dir@,
        ),
{
    let mut args: Vec<String> = Vec::new();
    args.push("git".to_owned());
    args.push("fetch".to_owned());
    args.push(origin.to_owned());
    let command = Command { args, dir: cmd_dir.to_owned(), description: cat4("fetch ", origin, " in ", cmd_dir) };
    assert(texts(command.args@) =~= seq!["git"@, "fetch"@, origin@]);
    command
}

/// Get the hash of the last commit of a branch. See `last_commit_result`.
pub fn get_last_commit(branch: &str, cmd_dir: &str) -> (res: Command)
    ensures
        is_command(
            res,
            seq!["git"@, "log"@, "-n"@, "1"@, "--pretty=format:\"%H\""@, branch@],
            cmd_dir@,
            "get last commit of "@ + branch@ + " in "@ + cmd_dir@,
        ),
{
    let mut args: Vec<String> = Vec::new();
    args.push("git".to_owned());
    args.push("log".to_owned());
    args.push("-n".to_owned());
    args.push("1".to_owned());
    args.push("--pretty=format:\"%H\"".to_owned());
    args.push(branch.to_owned());
    let command = Command { args, dir: cmd_dir.to_owned(), description: cat4("get last commit of ", branch, " in ", cmd_dir) };
    assert(texts(command.args@) =~= seq!["git"@, "log"@, "-n"@, "1"@, "--pretty=format:\"%H\""@, branch@]);
    command
}

/// Get all commits hash. See `all_commits_result`.
pub fn get_all_commits(cmd_dir: &str) -> (res: Command)
    ensures
        is_command(
            res,
            seq!["git"@, "log"@, "--pretty=format:\"%H\""@],
            cmd_dir@,
            "get all commits in "@ + cmd_dir@,
        ),
{
    let mut args: Vec<String> = Vec::new();
    args.push("git".to_owned());
    args.push("log".to_owned());
    args.push("--pretty=format:\"%H\"".to_owned());
    let command = Command { args, dir: cmd_dir.to_owned(), description: cat("get all commits in ", cmd_dir) };
    assert(texts(command.args@) =~= seq!["git"@, "log"@, "--pretty=format:\"%H\""@]);
    command
}

/// Clean a folder from untracked files and directories.
pub fn clean(cmd_dir: &str) -> (res: Command)
    ensures
        is_command(
            res,
            seq!["git"@, "clean"@, "-dxf"@],
            cmd_dir@,
            "clean in "@ + cmd_dir@,
        ),
{
    let mut args: Vec<String> = Vec::new();
    args.push("git".to_owned());
    args.push("clean".to_owned());
    args.push("-dxf".to_owned());
    let command = Command { args, dir: cmd_dir.to_owned(), description: cat("clean in ", cmd_dir) };
    assert(texts(command.args@) =~= seq!["git"@, "clean"@, "-dxf"@]);
    command
}

/// Add a remote to the repository.
pub fn add_remote(name: &str, url: &str, cmd_dir: &str) -> (res: Command)
    ensures
        is_command(
            res,
            seq!["git"@, "remote"@, "add"@, name@, url@],
            cmd_dir@,
            "adding remote "@ + name@ + " "@ + url@ + " in "@ + cmd_dir@,
        ),
{
    let mut args: Vec<String> = Vec::new();
    args.push("git".to_owned());
    args.push("remote".to_owned());
    args.push("add".to_owned());
    args.push(name.to_owned());
    args.push(url.to_owned());
    let mut description = cat5("adding remote ", name, " ", url, " in ");
    description.append(cmd_dir);
    let command = Command { args, dir: cmd_dir.to_owned(), description };
    assert(texts(command.args@) =~= seq!["git"@, "remote"@, "add"@, name@, url@]);
    command
}

/// Initialize a local repository at the given location.
pub fn init(cmd_dir: &str) -> (res: Command)
    ensures
        is_command(
            res,
            seq!["git"@, "init"@],
            cmd_dir@,
            "initialize in "@ + cmd_dir@,
        ),
{
    let mut args: Vec<String> = Vec::new();
    args.push("git".to_owned());
    args.push("init".to_owned());
    let command = Command { args, dir: cmd_dir.to_owned(), description: cat("initialize in ", cmd_dir) };
    assert(texts(command.args@) =~= seq!["git"@, "init"@]);
    command
}

/// Push changes to remote. Add an option over `set_upstream` if you push for the first time.
pub fn push(set_upstream: Option<&str>, cmd_dir: &str) -> (res: Command)
    ensures
        match set_upstream {
            Some(remote) => is_command(
                res,
                seq!["git"@, "push"@, "-u"@, remote@, "--all"@],
                cmd_dir@,
                "push to "@ + remote@ + " in "@ + cmd_dir@,
            ),
            None => is_command(res, seq!["git"@, "push"@], cmd_dir@, "push in "@ + cmd_dir@),
        },
{
    let mut args: Vec<String> = Vec::new();
    args.push("git".to_owned());
    args.push("push".to_owned());
    match set_upstream {
        Some(remote) => {
            args.push("-u".to_owned());
            args.push(remote.to_owned());
            args.push("--all".to_owned());
            let command = Command {
                args,
                dir: cmd_dir.to_owned(),
                description: cat4("push to ", remote, " in ", cmd_dir),
            };
            assert(texts(command.args@) =~= seq!["git"@, "push"@, "-u"@, remote@, "--all"@]);
            command
        },
        None => {
            let command = Command {
                args,
                dir: cmd_dir.to_owned(),
                description: cat("push in ", cmd_dir),
            };
            assert(texts(command.args@) =~= seq!["git"@, "push"@]);
            command
        },
    }
}

//--------------------------------------------------------------------------------------- RESULTS
/// Whether what a command wrote is text, where it succeeded.
pub open spec fn is_text(outcome: CommandOutcome) -> bool {
    outcome is Success ==> valid_utf8(outcome->Success_0@)
}

/// The text that a command that succeeded wrote, or the error for one that did not.
pub open spec fn written_text(outcome: CommandOutcome) -> Result<Seq<char>, Error> {
    match outcome {
        CommandOutcome::Success(stdout) => Ok(decode_utf8(stdout@)),
        CommandOutcome::Failed(message) => Err(Error::Git(message)),
        CommandOutcome::NotRun => Err(Error::Unknown),
    }
}

fn text_of(outcome: CommandOutcome) -> (res: Result<String, Error>)
    requires
        is_text(outcome),
    ensures
        match res {
            Ok(text) => written_text(outcome) == Ok::<Seq<char>, Error>(text@),
            Err(e) => written_text(outcome) == Err::<Seq<char>, Error>(e),
        },
{
    match outcome {
        CommandOutcome::Success(stdout) => {
            let text = utf8_text(&stdout);
            Ok(text.unwrap())
        },
        CommandOutcome::Failed(message) => Err(Error::Git(message)),
        CommandOutcome::NotRun => Err(Error::Unknown),
    }
}

/// The result of a command that is run for what it does. What it writes is not looked at.
pub fn unit_result(outcome: CommandOutcome) -> (res: Result<(), Error>)
    ensures
        res == match outcome {
            CommandOutcome::Success(_) => Ok::<(), Error>(()),
            CommandOutcome::Failed(message) => Err::<(), Error>(Error::Git(message)),
            CommandOutcome::NotRun => Err::<(), Error>(Error::Unknown),
        },
{
    match outcome {
        CommandOutcome::Success(_) => Ok(()),
        CommandOutcome::Failed(message) => Err(Error::Git(message)),
        CommandOutcome::NotRun => Err(Error::Unknown),
    }
}

/// The hash of the commit of the branch tip: what `get_tip` wrote, without line feeds.
pub fn tip_result(outcome: CommandOutcome) -> (res: Result<String, Error>)
    requires
        is_text(outcome),
    ensures
        match written_text(outcome) {
            Ok(text) => res is Ok && res->Ok_0@ == without_char(text, '\n'),
            Err(e) => res == Err::<String, Error>(e),
        },
{
    match text_of(outcome) {
        Ok(text) => Ok(remove_char(text.as_str(), '\n')),
        Err(e) => Err(e),
    }
}

/// The address of the origin branch: what `get_origin_url` wrote, without line feeds.
pub fn origin_url_result(outcome: CommandOutcome) -> (res: Result<String, Error>)
    requires
        is_text(outcome),
    ensures
        match written_text(outcome) {
            Ok(text) => res is Ok && res->Ok_0@ == without_char(text, '\n'),
            Err(e) => res == Err::<String, Error>(e),
        },
{
    match text_of(outcome) {
        Ok(text) => Ok(remove_char(text.as_str(), '\n')),
        Err(e) => Err(e),
    }
}

/// The hash of the last commit: what `get_last_commit` wrote, without quotes.
pub fn last_commit_result(outcome: CommandOutcome) -> (res: Result<String, Error>)
    requires
        is_text(outcome),
    ensures
        match written_text(outcome) {
            Ok(text) => res is Ok && res->Ok_0@ == without_char(text, '"'),
            Err(e) => res == Err::<String, Error>(e),
        },
{
    match text_of(outcome) {
        Ok(text) => Ok(remove_char(text.as_str(), '"')),
        Err(e) => Err(e),
    }
}

/// The files staged for commits: the lines that `get_staged_files` wrote, taken from the directory
/// in which it was run. What stands behind the last line feed counts as a line, even if it is
/// empty.
pub fn staged_files_result(outcome: CommandOutcome, cmd_dir: &str) -> (res: Result<
    Vec<String>,
    Error,
>)
    requires
        is_text(outcome),
    ensures
        match written_text(outcome) {
            Ok(text) => {
                &&& res is Ok
                &&& res->Ok_0.len() == split_on(text, '\n').len()
                &&& forall|i: int|
                    0 <= i < res->Ok_0.len() ==> (#[trigger] res->Ok_0@[i])@ == path_in(
                        cmd_dir@,
                        split_on(text, '\n')[i],
                    )
            },
            Err(e) => res == Err::<Vec<String>, Error>(e),
        },
{
    match text_of(outcome) {
        Ok(text) => {
            let names = split(text.as_str(), '\n');
            let ghost pieces = split_on(text@, '\n');
            let mut files: Vec<String> = Vec::new();
            let mut i: usize = 0;
            while i < names.len()
                invariant
                    i <= names.len(),
                    texts(names@) == pieces,
                    files.len() == i,
                    forall|j: int|
                        0 <= j < i ==> (#[trigger] files@[j])@ == path_in(cmd_dir@, pieces[j]),
                decreases names.len() - i,
            {
                assert(pieces[i as int] == names@[i as int]@);
                files.push(path_join(cmd_dir, names[i].as_str()));
                i = i + 1;
            }
            assert(pieces.len() == names.len());
            Ok(files)
        },
        Err(e) => Err(e),
    }
}

/// The hashes of all commits: the lines that `get_all_commits` wrote, without quotes.
pub fn all_commits_result(outcome: CommandOutcome) -> (res: Result<Vec<String>, Error>)
    requires
        is_text(outcome),
    ensures
        match written_text(outcome) {
            Ok(text) => {
                &&& res is Ok
                &&& res->Ok_0.len() == split_on(text, '\n').len()
                &&& forall|i: int|
                    0 <= i < res->Ok_0.len() ==> (#[trigger] res->Ok_0@[i])@ == without_char(
                        split_on(text, '\n')[i],
                        '"',
                    )
            },
            Err(e) => res == Err::<Vec<String>, Error>(e),
        },
{
    match text_of(outcome) {
        Ok(text) => {
            let hashes = split(text.as_str(), '\n');
            let ghost pieces = split_on(text@, '\n');
            let mut commits: Vec<String> = Vec::new();
            let mut i: usize = 0;
            while i < hashes.len()
                invariant
                    i <= hashes.len(),
                    texts(hashes@) == pieces,
                    commits.len() == i,
                    forall|j: int|
                        0 <= j < i ==> (#[trigger] commits@[j])@ == without_char(pieces[j], '"'),
                decreases hashes.len() - i,
            {
                assert(pieces[i as int] == hashes@[i as int]@);
                commits.push(remove_char(hashes[i].as_str(), '"'));
                i = i + 1;
            }
            assert(pieces.len() == hashes.len());
            Ok(commits)
        },
        Err(e) => Err(e),
    }
}

/// There is always at least one staged file and one commit, if the command succeeded: where nothing
/// is written, it is empty.
pub proof fn lines_are_never_none(text: Seq<char>)
    ensures
        split_on(text, '\n').len() >= 1,
        split_on(Seq::<char>::empty(), '\n') == seq![Seq::<char>::empty()],
{
    crate::text::split_then_join(text, '\n');
}

//------------------------------------------------------------------------------------------ LAWS
/// Each command is run by git in the directory that was given, with what was given among its words.
pub proof fn commands_carry_their_arguments(
    first: &str,
    second: &str,
    dir: &str,
    cloned: Command,
    copied: Command,
    tip: Command,
    checked_out: Command,
    submodule: Command,
    staged: Command,
    committed: Command,
    fetched: Command,
    last: Command,
    remote: Command,
    pushed: Command,
)
    requires
        call_ensures(clone_remote_repo, (first, dir), cloned),
        call_ensures(clone_local_repo, (first, dir), copied),
        call_ensures(get_tip, (first, dir), tip),
        call_ensures(checkout, (first, dir), checked_out),
        call_ensures(add_submodule, (first, second, dir), submodule),
        call_ensures(stage, (first, dir), staged),
        call_ensures(commit, (first, dir), committed),
        call_ensures(fetch, (first, dir), fetched),
        call_ensures(get_last_commit, (first, dir), last),
        call_ensures(add_remote, (first, second, dir), remote),
        call_ensures(push, (Some(first), dir), pushed),
    ensures
        texts(cloned.args@) == seq!["git"@, "clone"@, "--recurse-submodule"@, first@],
        texts(copied.args@) == seq!["git"@, "clone"@, "-ls"@, first@, "."@],
        texts(tip.args@) == seq!["git"@, "rev-parse"@, first@],
        texts(checked_out.args@) == seq!["git"@, "checkout"@, first@],
        texts(submodule.args@) == seq!["git"@, "submodule"@, "add"@, first@, second@],
        texts(staged.args@) == seq!["git"@, "add"@, first@],
        texts(committed.args@) == seq!["git"@, "commit"@, "-m"@, first@],
        texts(fetched.args@) == seq!["git"@, "fetch"@, first@],
        texts(last.args@) == seq![
            "git"@,
            "log"@,
            "-n"@,
            "1"@,
            "--pretty=format:\"%H\""@,
            first@,
        ],
        texts(remote.args@) == seq!["git"@, "remote"@, "add"@, first@, second@],
        texts(pushed.args@) == seq!["git"@, "push"@, "-u"@, first@, "--all"@],
        cloned.dir@ == dir@ && copied.dir@ == dir@ && tip.dir@ == dir@ && checked_out.dir@ == dir@,
        submodule.dir@ == dir@ && staged.dir@ == dir@ && committed.dir@ == dir@,
        fetched.dir@ == dir@ && last.dir@ == dir@ && remote.dir@ == dir@ && pushed.dir@ == dir@,
{
}

/// The commands that take no argument are run by git in the directory that was given.
pub proof fn plain_commands_are_run_in_their_directory(
    dir: &str,
    origin: Command,
    updated: Command,
    files: Command,
    aborted: Command,
    pulled: Command,
    commits: Command,
    cleaned: Command,
    started: Command,
    pushed: Command,
)
    requires
        call_ensures(get_origin_url, (dir,), origin),
        call_ensures(update_submodule, (dir,), updated),
        call_ensures(get_staged_files, (dir,), files),
        call_ensures(abort_rebase, (dir,), aborted),
        call_ensures(pull, (dir,), pulled),
        call_ensures(get_all_commits, (dir,), commits),
        call_ensures(clean, (dir,), cleaned),
        call_ensures(init, (dir,), started),
        call_ensures(push, (None::<&str>, dir), pushed),
    ensures
        texts(origin.args@) == seq!["git"@, "remote"@, "get-url"@, "origin"@],
        texts(updated.args@) == seq!["git"@, "submodule"@, "update"@, "--remote"@, "--merge"@],
        texts(files.args@) == seq!["git"@, "diff"@, "--name-only"@, "--cached"@],
        texts(aborted.args@) == seq!["git"@, "rebase"@, "--abort"@],
        texts(pulled.args@) == seq![
            "git"@,
            "pull"@,
            "--rebase"@,
            "--autostash"@,
            "--no-edit"@,
            "origin"@,
            "master"@,
        ],
        texts(commits.args@) == seq!["git"@, "log"@, "--pretty=format:\"%H\""@],
        texts(cleaned.args@) == seq!["git"@, "clean"@, "-dxf"@],
        texts(started.args@) == seq!["git"@, "init"@],
        texts(pushed.args@) == seq!["git"@, "push"@],
        origin.dir@ == dir@ && updated.dir@ == dir@ && files.dir@ == dir@ && aborted.dir@ == dir@,
        pulled.dir@ == dir@ && commits.dir@ == dir@ && cleaned.dir@ == dir@,
        started.dir@ == dir@ && pushed.dir@ == dir@,
{
}

/// A command that is run for what it does succeeds if and only if git did, and tells what git said
/// where it did not.
pub proof fn failures_of_git_are_told(outcome: CommandOutcome, res: Result<(), Error>)
    requires
        call_ensures(unit_result, (outcome,), res),
    ensures
        res is Ok <==> outcome is Success,
        outcome is Failed ==> res == Err::<(), Error>(Error::Git(outcome->Failed_0)),
        outcome is NotRun ==> res == Err::<(), Error>(Error::Unknown),
{
}

/// A hash or an address that git wrote on a line of its own is read without the line feed, and a hash
/// that it wrote in quotes without the quotes.
pub proof fn what_git_wrote_is_read(
    bytes: Vec<u8>,
    quoted: Vec<u8>,
    text: Seq<char>,
    tip: Result<String, Error>,
    url: Result<String, Error>,
    last: Result<String, Error>,
)
    requires
        call_ensures(tip_result, (CommandOutcome::Success(bytes),), tip),
        call_ensures(origin_url_result, (CommandOutcome::Success(bytes),), url),
        call_ensures(last_commit_result, (CommandOutcome::Success(quoted),), last),
        decode_utf8(bytes@) == text.push('\n'),
        decode_utf8(quoted@) == seq!['"'] + text + seq!['"'],
        !text.contains('\n'),
        !text.contains('"'),
    ensures
        tip is Ok && tip->Ok_0@ == text,
        url is Ok && url->Ok_0@ == text,
        last is Ok && last->Ok_0@ == text,
{
    without_absent(text, '\n');
    assert(text.push('\n').drop_last() =~= text);
    without_quotes(text, '"');
}

proof fn without_absent(text: Seq<char>, c: char)
    requires
        !text.contains(c),
    ensures
        without_char(text, c) == text,
    decreases text.len(),
{
    if text.len() > 0 {
        let rest = text.drop_last();
        assert forall|i: int| 0 <= i < rest.len() implies rest[i] != c by {
            assert(text.contains(text[i]));
        }
        assert(text.contains(text.last()));
        without_absent(rest, c);
        assert(rest.push(text.last()) =~= text);
    }
}

proof fn without_quotes(text: Seq<char>, c: char)
    requires
        !text.contains(c),
    ensures
        without_char(seq![c] + text, c) == text,
        without_char(seq![c] + text + seq![c], c) == text,
    decreases text.len(),
{
    let s = seq![c] + text;
    if text.len() == 0 {
        assert(s.drop_last() =~= Seq::<char>::empty());
        assert(without_char(s.drop_last(), c) =~= Seq::<char>::empty());
        assert(without_char(s, c) =~= text);
    } else {
        let rest = text.drop_last();
        assert forall|i: int| 0 <= i < rest.len() implies rest[i] != c by {
            assert(text.contains(text[i]));
        }
        without_quotes(rest, c);
        assert(s.drop_last() =~= seq![c] + rest);
        assert(text.contains(text.last()));
        assert(rest.push(text.last()) =~= text);
    }
    assert((s + seq![c]).drop_last() =~= s);
}

/// The staged files are the lines that git wrote, one for each of them, taken from the directory; the
/// commits are its lines without quotes.
pub proof fn lines_of_git_are_read(
    bytes: Vec<u8>,
    dir: &str,
    i: int,
    files: Result<Vec<String>, Error>,
    commits: Result<Vec<String>, Error>,
)
    requires
        call_ensures(staged_files_result, (CommandOutcome::Success(bytes), dir), files),
        call_ensures(all_commits_result, (CommandOutcome::Success(bytes),), commits),
        0 <= i < split_on(decode_utf8(bytes@), '\n').len(),
    ensures
        files is Ok && commits is Ok,
        files->Ok_0.len() == split_on(decode_utf8(bytes@), '\n').len(),
        commits->Ok_0.len() == split_on(decode_utf8(bytes@), '\n').len(),
        files->Ok_0@[i]@ == path_in(dir@, split_on(decode_utf8(bytes@), '\n')[i]),
        commits->Ok_0@[i]@ == without_char(split_on(decode_utf8(bytes@), '\n')[i], '"'),
{
}

/// Each command is described by what it does, and where.
pub proof fn commands_are_described(
    first: &str,
    second: &str,
    dir: &str,
    cloned: Command,
    copied: Command,
    tip: Command,
    checked_out: Command,
    submodule: Command,
    staged: Command,
    committed: Command,
    fetched: Command,
    last: Command,
    remote: Command,
    pushed: Command,
)
    requires
        call_ensures(clone_remote_repo, (first, dir), cloned),
        call_ensures(clone_local_repo, (first, dir), copied),
        call_ensures(get_tip, (first, dir), tip),
        call_ensures(checkout, (first, dir), checked_out),
        call_ensures(add_submodule, (first, second, dir), submodule),
        call_ensures(stage, (first, dir), staged),
        call_ensures(commit, (first, dir), committed),
        call_ensures(fetch, (first, dir), fetched),
        call_ensures(get_last_commit, (first, dir), last),
        call_ensures(add_remote, (first, second, dir), remote),
        call_ensures(push, (Some(first), dir), pushed),
    ensures
        cloned.description@ == "clone remote repository "@ + first@,
        copied.description@ == "clone local repository "@ + first@,
        tip.description@ == "get head in "@ + dir@,
        checked_out.description@ == "check out to "@ + first@ + " in "@ + dir@,
        submodule.description@ == "add submodule "@ + first@ + " in "@ + dir@,
        staged.description@ == "stage "@ + first@ + " in "@ + dir@,
        committed.description@ == "commit "@ + first@ + " in "@ + dir@,
        fetched.description@ == "fetch "@ + first@ + " in "@ + dir@,
        last.description@ == "get last commit of "@ + first@ + " in "@ + dir@,
        remote.description@ == "adding remote "@ + first@ + " "@ + second@ + " in "@ + dir@,
        pushed.description@ == "push to "@ + first@ + " in "@ + dir@,
{
}

/// The commands that take no argument are described by what they do, and where.
pub proof fn plain_commands_are_described(
    dir: &str,
    origin: Command,
    updated: Command,
    files: Command,
    aborted: Command,
    pulled: Command,
    commits: Command,
    cleaned: Command,
    started: Command,
    pushed: Command,
)
    requires
        call_ensures(get_origin_url, (dir,), origin),
        call_ensures(update_submodule, (dir,), updated),
        call_ensures(get_staged_files, (dir,), files),
        call_ensures(abort_rebase, (dir,), aborted),
        call_ensures(pull, (dir,), pulled),
        call_ensures(get_all_commits, (dir,), commits),
        call_ensures(clean, (dir,), cleaned),
        call_ensures(init, (dir,), started),
        call_ensures(push, (None::<&str>, dir), pushed),
    ensures
        origin.description@ == "get origin in "@ + dir@,
        updated.description@ == "update submodule in "@ + dir@,
        files.description@ == "get staged files in "@ + dir@,
        aborted.description@ == "abort rebase in "@ + dir@,
        pulled.description@ == "pull in "@ + dir@,
        commits.description@ == "get all commits in "@ + dir@,
        cleaned.description@ == "clean in "@ + dir@,
        started.description@ == "initialize in "@ + dir@,
        pushed.description@ == "push in "@ + dir@,
{
}

} // verus!
