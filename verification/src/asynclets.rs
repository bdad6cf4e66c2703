//! Pieces of logic that can be assembled to produce larger pieces: files are listed, packed, hashed
//! and moved, on the local machine and on a node.
use vstd::prelude::*;
#[allow(unused_imports)]
use vstd::string::*;
use vstd::utf8::*;
use sha1::Digest;
use crate::commons::{Output, utf8_text};
use crate::primitives::AsResult;
#[allow(unused_imports)]
use crate::primitives::output_result;
#[allow(unused_imports)]
use crate::text::{
    cat, cat3, cat4, cat5, is_below, lines, lines_of, path_below, path_in, path_join, path_relative,
    split, split_on, texts,
};

verus! {

//----------------------------------------------------------------------------------------- TYPES
/// A glob pattern.
#[derive(Debug, PartialEq, Eq)]
pub struct Glob<S>(pub S);

/// The texts of globs.
pub open spec fn glob_texts(globs: Seq<Glob<String>>) -> Seq<Seq<char>> {
    Seq::new(globs.len(), |i: int| globs[i].0@)
}

/// What came of reading a text file.
pub enum ReadText {
    /// The file could not be opened, for the given reason.
    Unopened(String),
    /// The file could not be read, for the given reason.
    Unread(String),
    /// What the file holds.
    Text(String),
}

/// Reads globs specs out of what a file holds: one on each line.
pub fn read_globs_from_file(read: ReadText) -> (res: Result<Vec<Glob<String>>, String>)
    ensures
        match read {
            ReadText::Unopened(reason) => res is Err && res->Err_0@ == "Failed to open glob file: "@
                + reason@,
            ReadText::Unread(reason) => res is Err && res->Err_0@ == "Failed to read blog file: "@
                + reason@,
            ReadText::Text(contents) => res is Ok && glob_texts(res->Ok_0@) == lines_of(contents@),
        },
{
    match read {
        ReadText::Unopened(reason) => Err(cat("Failed to open glob file: ", reason.as_str())),
        ReadText::Unread(reason) => Err(cat("Failed to read blog file: ", reason.as_str())),
        ReadText::Text(contents) => {
            let specs = lines(contents.as_str());
            let mut globs: Vec<Glob<String>> = Vec::new();
            let mut i: usize = 0;
            while i < specs.len()
                invariant
                    i <= specs.len(),
                    globs.len() == i,
                    forall|j: int| 0 <= j < i ==> (#[trigger] globs@[j]).0@ == specs@[j]@,
                decreases specs.len() - i,
            {
                globs.push(Glob(specs[i].clone()));
                i = i + 1;
            }
            assert(glob_texts(globs@) =~= texts(specs@));
            Ok(globs)
        },
    }
}

//----------------------------------------------------------------------------------------- GLOBS
/// A set of globs that is built.
#[verifier::external_type_specification]
#[verifier::external_body]
pub struct ExGlobSetBuilder(globset::GlobSetBuilder);

/// A set of globs that paths are matched against.
#[verifier::external_type_specification]
#[verifier::external_body]
pub struct ExGlobSet(globset::GlobSet);

/// The globs that were added to a set that is built, in the order in which they were.
pub uninterp spec fn builder_globs(builder: globset::GlobSetBuilder) -> Seq<Seq<char>>;

/// The globs of a set.
pub uninterp spec fn set_globs(set: globset::GlobSet) -> Seq<Seq<char>>;

/// Whether a text is a glob pattern, or what is said where it is none.
pub uninterp spec fn glob_parsed(pattern: Seq<char>) -> Result<(), Seq<char>>;

/// Whether a set can be built of globs, or what is said where it cannot.
pub uninterp spec fn globs_built(globs: Seq<Seq<char>>) -> Result<(), Seq<char>>;

/// Whether a glob matches a path.
pub uninterp spec fn glob_matches(glob: Seq<char>, path: Seq<char>) -> bool;

/// A set without globs, by `globset::GlobSetBuilder::new`.
#[verifier::external_body]
fn builder_new() -> (res: globset::GlobSetBuilder)
    ensures
        builder_globs(res) == Seq::<Seq<char>>::empty(),
{
    globset::GlobSetBuilder::new()
}

/// Parses a pattern by `globset::Glob::new`, and adds the glob to the set by
/// `globset::GlobSetBuilder::add`. Which texts are patterns, and what the error says, is left to the
/// name of the result. The conversion of a pattern recurses on nested braces: at which depth the stack
/// runs out depends on the machine, as with memory, and is not stated.
#[verifier::external_body]
fn builder_add(builder: &mut globset::GlobSetBuilder, pattern: &str) -> (res: Result<(), String>)
    ensures
        match res {
            Ok(_) => {
                &&& glob_parsed(pattern@) is Ok
                &&& builder_globs(*final(builder)) == builder_globs(*old(builder)).push(pattern@)
            },
            Err(text) => {
                &&& glob_parsed(pattern@) == Err::<(), Seq<char>>(text@)
                &&& builder_globs(*final(builder)) == builder_globs(*old(builder))
            },
        },
{
    let glob = globset::Glob::new(pattern).map_err(|e| e.to_string())?;
    builder.add(glob);
    Ok(())
}

/// Builds the set by `globset::GlobSetBuilder::build`: it has the globs that were added. A set without
/// globs can always be built.
#[verifier::external_body]
fn builder_build(builder: &globset::GlobSetBuilder) -> (res: Result<globset::GlobSet, String>)
    ensures
        match res {
            Ok(set) => {
                &&& globs_built(builder_globs(*builder)) is Ok
                &&& set_globs(set) == builder_globs(*builder)
            },
            Err(text) => globs_built(builder_globs(*builder)) == Err::<(), Seq<char>>(text@),
        },
        builder_globs(*builder).len() == 0 ==> res is Ok,
{
    builder.build().map_err(|e| e.to_string())
}

/// Matches a path against the set by `globset::GlobSet::is_match`: one of its globs has to match.
/// Which paths a glob matches is left to the name of the result.
#[verifier::external_body]
fn set_is_match(set: &globset::GlobSet, path: &str) -> (res: bool)
    ensures
        res == (exists|i: int|
            0 <= i < set_globs(*set).len() && glob_matches(#[trigger] set_globs(*set)[i], path@)),
{
    set.is_match(path)
}

/// Whether one of the globs matches the path.
pub open spec fn matches_any(globs: Seq<Seq<char>>, path: Seq<char>) -> bool {
    exists|i: int| 0 <= i < globs.len() && glob_matches(#[trigger] globs[i], path)
}

/// The globs, each taken from the folder `root`, if there is one.
pub open spec fn rooted(root: Option<Seq<char>>, globs: Seq<Seq<char>>) -> Seq<Seq<char>> {
    match root {
        Some(folder) => Seq::new(globs.len(), |i: int| path_in(folder, globs[i])),
        None => globs,
    }
}

/// The error for the first text that is no pattern, or for a set that cannot be built; none where
/// the set is built.
pub open spec fn set_failure(globs: Seq<Seq<char>>, name: Seq<char>) -> Option<Seq<char>> {
    match first_unparsed(globs) {
        Some(text) => Some("Failed to parse "@ + name + " glob: "@ + text),
        None => match globs_built(globs) {
            Ok(_) => None,
            Err(text) => Some("Failed to build "@ + name + ": "@ + text),
        },
    }
}

/// What is said of the first text that is no pattern.
pub open spec fn first_unparsed(globs: Seq<Seq<char>>) -> Option<Seq<char>>
    decreases globs.len(),
{
    if globs.len() == 0 {
        None
    } else {
        match first_unparsed(globs.drop_last()) {
            Some(text) => Some(text),
            None => match glob_parsed(globs.last()) {
                Ok(_) => None,
                Err(text) => Some(text),
            },
        }
    }
}

proof fn first_unparsed_stays(globs: Seq<Seq<char>>, n: int)
    requires
        0 <= n <= globs.len(),
        first_unparsed(globs.take(n)) is Some,
    ensures
        first_unparsed(globs) == first_unparsed(globs.take(n)),
    decreases globs.len() - n,
{
    if n < globs.len() {
        assert(globs.take(n + 1).drop_last() =~= globs.take(n));
        first_unparsed_stays(globs, n + 1);
    } else {
        assert(globs.take(n) =~= globs);
    }
}

/// Builds a set of globs, each taken from the folder `root`, if there is one.
fn build_set(root: Option<&str>, globs: &Vec<Glob<String>>, name: &str) -> (res: Result<
    globset::GlobSet,
    String,
>)
    ensures
        ({
            let all = rooted(
                match root {
                    Some(folder) => Some(folder@),
                    None => None,
                },
                glob_texts(globs@),
            );
            match res {
                Ok(set) => set_failure(all, name@) is None && set_globs(set) == all,
                Err(text) => set_failure(all, name@) == Some(text@),
            }
        }),
        globs.len() == 0 ==> res is Ok,
{
    let ghost folder = match root {
        Some(folder) => Some(folder@),
        None => None,
    };
    let ghost all = rooted(folder, glob_texts(globs@));
    let mut builder = builder_new();
    let mut i: usize = 0;
    assert(all.take(0) =~= Seq::<Seq<char>>::empty());
    while i < globs.len()
        invariant
            i <= globs.len(),
            all.len() == globs.len(),
            all == rooted(folder, glob_texts(globs@)),
            folder == match root {
                Some(f) => Some(f@),
                None => None,
            },
            builder_globs(builder) == all.take(i as int),
            first_unparsed(all.take(i as int)) is None,
        decreases globs.len() - i,
    {
        let pattern = match root {
            Some(f) => path_join(f, globs[i].0.as_str()),
            None => globs[i].0.clone(),
        };
        assert(pattern@ == all[i as int]);
        assert(all.take(i + 1).drop_last() =~= all.take(i as int));
        match builder_add(&mut builder, pattern.as_str()) {
            Ok(_) => {
                assert(all.take(i as int).push(pattern@) =~= all.take(i + 1));
            },
            Err(text) => {
                proof {
                    first_unparsed_stays(all, i + 1);
                }
                return Err(cat4("Failed to parse ", name, " glob: ", text.as_str()));
            },
        }
        i = i + 1;
    }
    assert(all.take(i as int) =~= all);
    match builder_build(&builder) {
        Ok(set) => Ok(set),
        Err(text) => Err(cat4("Failed to build ", name, ": ", text.as_str())),
    }
}

/// Whether a path is kept: it is not ignored, or it is included nevertheless.
pub open spec fn is_kept(ignored: Seq<Seq<char>>, included: Seq<Seq<char>>, path: Seq<char>) -> bool {
    !matches_any(ignored, path) || matches_any(included, path)
}

//---------------------------------------------------------------------------------- LOCAL FILES
/// The files that are listed of a folder: those that are kept, by their path below the folder.
pub open spec fn listed_files(
    root: Seq<char>,
    ignored: Seq<Seq<char>>,
    included: Seq<Seq<char>>,
    met: Seq<(String, bool)>,
) -> Seq<Seq<char>>
    decreases met.len(),
{
    if met.len() == 0 {
        Seq::empty()
    } else {
        let before = listed_files(root, ignored, included, met.drop_last());
        let path = met.last().0@;
        if met.last().1 && is_kept(ignored, included, path) {
            before.push(path_below(root, path))
        } else {
            before
        }
    }
}

/// Lists a local folder. `met` holds the paths that were met in it, each with whether it is that of
/// a file. Returns paths to every file relative to the root. Ignore globs can be given along with
/// include globs, which supersede the ignore globs. The globs are taken from the root.
pub fn list_local_folder(
    root: &str,
    ignore_globs: &Vec<Glob<String>>,
    include_globs: &Vec<Glob<String>>,
    met: &Vec<(String, bool)>,
) -> (res: Result<Vec<String>, String>)
    ensures
        ({
            let ignored = rooted(Some(root@), glob_texts(ignore_globs@));
            let included = rooted(Some(root@), glob_texts(include_globs@));
            match (set_failure(ignored, "ignore"@), set_failure(included, "include"@)) {
                (Some(text), _) => res is Err && res->Err_0@ == text,
                (None, Some(text)) => res is Err && res->Err_0@ == text,
                (None, None) => res is Ok && texts(res->Ok_0@) == listed_files(
                    root@,
                    ignored,
                    included,
                    met@,
                ),
            }
        }),
        ignore_globs.len() == 0 && include_globs.len() == 0 ==> res is Ok,
{
    let ghost ignored = rooted(Some(root@), glob_texts(ignore_globs@));
    let ghost included = rooted(Some(root@), glob_texts(include_globs@));
    let ignore = match build_set(Some(root), ignore_globs, "ignore") {
        Ok(set) => set,
        Err(text) => {
            return Err(text);
        },
    };
    let include_set = match build_set(Some(root), include_globs, "include") {
        Ok(set) => set,
        Err(text) => {
            return Err(text);
        },
    };
    let mut files: Vec<String> = Vec::new();
    let mut i: usize = 0;
    assert(texts(files@) =~= listed_files(root@, ignored, included, met@.take(0)));
    while i < met.len()
        invariant
            i <= met.len(),
            set_globs(ignore) == ignored,
            set_globs(include_set) == included,
            texts(files@) == listed_files(root@, ignored, included, met@.take(i as int)),
        decreases met.len() - i,
    {
        assert(met@.take(i + 1).drop_last() =~= met@.take(i as int));
        let path = met[i].0.as_str();
        if met[i].1 && (!set_is_match(&ignore, path) || set_is_match(&include_set, path)) {
            let ghost kept = texts(files@);
            let below = path_relative(root, path);
            files.push(below);
            assert(texts(files@) =~= kept.push(below@));
        }
        i = i + 1;
    }
    assert(met@.take(i as int) =~= met@);
    Ok(files)
}

/// What came of packing files in a local archive.
pub enum Tarred {
    /// A file could not be added, for the given reason.
    NotAdded(String),
    /// The archive could not be finished, for the given reason.
    NotFinished(String),
    /// The file of the archive could not be opened.
    Unopened,
    /// The file of the archive could not be read.
    Unread,
    /// The bytes of the archive.
    Archive(Vec<u8>),
}

/// The sha1 digest of bytes.
pub uninterp spec fn sha1_digest(bytes: Seq<u8>) -> Seq<u8>;

/// The sha1 digest of bytes, by `sha1::Sha1::digest`. It has twenty bytes; how they are made is left
/// to the name of the result.
#[verifier::external_body]
fn digest(bytes: &Vec<u8>) -> (res: Vec<u8>)
    ensures
        res@ == sha1_digest(bytes@),
        res.len() == 20,
{
    sha1::Sha1::digest(bytes).to_vec()
}

/// The hexadecimal notation of bytes, two digits for each of them.
pub open spec fn hex_text(bytes: Seq<u8>) -> Seq<char>
    decreases bytes.len(),
{
    if bytes.len() == 0 {
        Seq::empty()
    } else {
        hex_text(bytes.drop_last()).push(hex_char(bytes.last() / 16)).push(
            hex_char(bytes.last() % 16),
        )
    }
}

/// The hexadecimal digit of a number below sixteen.
pub open spec fn hex_char(n: u8) -> char {
    if n < 10 {
        ((48 + n) as u8) as char
    } else {
        ((87 + n) as u8) as char
    }
}

fn hex(bytes: &Vec<u8>) -> (res: String)
    ensures
        res@ == hex_text(bytes@),
{
    let mut res = String::new();
    let mut i: usize = 0;
    while i < bytes.len()
        invariant
            i <= bytes.len(),
            res@ == hex_text(bytes@.take(i as int)),
        decreases bytes.len() - i,
    {
        assert(bytes@.take(i + 1).drop_last() =~= bytes@.take(i as int));
        let high: u8 = bytes[i] / 16;
        let low: u8 = bytes[i] % 16;
        let first: char = if high < 10 {
            (48 + high) as char
        } else {
            (87 + high) as char
        };
        let second: char = if low < 10 {
            (48 + low) as char
        } else {
            (87 + low) as char
        };
        res.push(first);
        res.push(second);
        i = i + 1;
    }
    assert(bytes@.take(i as int) =~= bytes@);
    res
}

/// The sha1 hash of the contents of a file.
pub fn sha1_of(contents: &Vec<u8>) -> (res: String)
    ensures
        res@ == hex_text(sha1_digest(contents@)),
{
    hex(&digest(contents))
}

/// What came of reading a file.
pub enum ReadBytes {
    Unopened,
    Unread,
    Bytes(Vec<u8>),
}

/// Computes the sha1 hash of a local file.
pub fn compute_local_sha1(read: ReadBytes) -> (res: Result<String, String>)
    ensures
        match read {
            ReadBytes::Unopened => res is Err && res->Err_0@ == "Failed to open file"@,
            ReadBytes::Unread => res is Err && res->Err_0@ == "Failed to compute hash"@,
            ReadBytes::Bytes(bytes) => res is Ok && res->Ok_0@ == hex_text(sha1_digest(bytes@)),
        },
{
    match read {
        ReadBytes::Unopened => Err("Failed to open file".to_owned()),
        ReadBytes::Unread => Err("Failed to compute hash".to_owned()),
        ReadBytes::Bytes(bytes) => Ok(sha1_of(&bytes)),
    }
}

/// A file that holds an archive, and its hash.
#[derive(Debug)]
pub struct Archive {
    pub file: String,
    pub hash: String,
}

/// What packing local files into a local tar archive gives.
pub fn tar_local_files(output: &str, tarred: Tarred) -> (res: Result<Archive, String>)
    ensures
        match tarred {
            Tarred::NotAdded(reason) => res is Err && res->Err_0@
                == "Failed to add file to the archive: "@ + reason@,
            Tarred::NotFinished(reason) => res is Err && res->Err_0@
                == "Failed to finish the archive: "@ + reason@,
            Tarred::Unopened => res is Err && res->Err_0@ == "Failed to open file"@,
            Tarred::Unread => res is Err && res->Err_0@ == "Failed to compute hash"@,
            Tarred::Archive(bytes) => {
                &&& res is Ok
                &&& res->Ok_0.file@ == output@
                &&& res->Ok_0.hash@ == hex_text(sha1_digest(bytes@))
            },
        },
{
    match tarred {
        Tarred::NotAdded(reason) => Err(
            cat("Failed to add file to the archive: ", reason.as_str()),
        ),
        Tarred::NotFinished(reason) => Err(cat("Failed to finish the archive: ", reason.as_str())),
        Tarred::Unopened => Err("Failed to open file".to_owned()),
        Tarred::Unread => Err("Failed to compute hash".to_owned()),
        Tarred::Archive(bytes) => Ok(
            Archive { file: output.to_owned(), hash: sha1_of(&bytes) },
        ),
    }
}

/// What came of unpacking a local archive.
pub enum Untarred {
    /// The archive could not be opened, for the given reason.
    Unopened(String),
    /// The archive could not be unpacked, for the given reason.
    NotUnpacked(String),
    /// What was then met in the folder: the paths, and whether they are those of files.
    Met(Vec<(String, bool)>),
}

/// What unpacking a local tar archive into a folder gives: the files of the folder.
pub fn untar_local_archive(root: &str, untarred: Untarred) -> (res: Result<Vec<String>, String>)
    ensures
        match untarred {
            Untarred::Unopened(reason) => res is Err && res->Err_0@ == "Failed to open archive: "@
                + reason@,
            Untarred::NotUnpacked(reason) => res is Err && res->Err_0@
                == "Failed to unpack archive: "@ + reason@,
            Untarred::Met(met) => res is Ok && texts(res->Ok_0@) == listed_files(
                root@,
                Seq::empty(),
                Seq::empty(),
                met@,
            ),
        },
{
    match untarred {
        Untarred::Unopened(reason) => Err(cat("Failed to open archive: ", reason.as_str())),
        Untarred::NotUnpacked(reason) => Err(cat("Failed to unpack archive: ", reason.as_str())),
        Untarred::Met(met) => {
            let none: Vec<Glob<String>> = Vec::new();
            assert(rooted(Some(root@), glob_texts(none@)) =~= Seq::<Seq<char>>::empty());
            list_local_folder(root, &none, &none, &met)
        },
    }
}

/// Without globs every file is listed.
pub proof fn no_globs_keep_everything(path: Seq<char>)
    ensures
        is_kept(Seq::empty(), Seq::empty(), path),
{
}

/// Include globs supersede ignore globs: a path that both match is kept.
pub proof fn include_supersedes_ignore(
    ignored: Seq<Seq<char>>,
    included: Seq<Seq<char>>,
    path: Seq<char>,
)
    requires
        matches_any(included, path),
    ensures
        is_kept(ignored, included, path),
{
}

//--------------------------------------------------------------------------------- REMOTE FILES
/// What came of a command on a node: its output, or why it could not be executed.
pub type Executed = Result<Output, String>;

/// The command that tests whether a remote file exists.
pub fn test_command(path: &str) -> (res: String)
    ensures
        res@ == "test -f "@ + path@,
{
    cat("test -f ", path)
}

/// Decides whether a local file is sent, out of what the test for the remote file gave: not over a
/// file that exists.
pub fn check_before_send(tested: Executed) -> (res: Result<(), String>)
    ensures
        match tested {
            Err(reason) => res is Err && res->Err_0@ == "Failed to test file: "@ + reason@,
            Ok(output) => if output@.status == 0 {
                res is Err && res->Err_0@ == "File already exists"@
            } else {
                res is Ok
            },
        },
{
    match tested {
        Err(reason) => Err(cat("Failed to test file: ", reason.as_str())),
        Ok(output) => {
            if output.status.success() {
                Err("File already exists".to_owned())
            } else {
                Ok(())
            }
        },
    }
}

/// What sending a local file to a remote path gives: the remote file.
pub fn send_local_file(to: &str, sent: Result<(), String>) -> (res: Result<String, String>)
    ensures
        match sent {
            Err(reason) => res is Err && res->Err_0@ == "Failed to send input data: "@ + reason@,
            Ok(_) => res is Ok && res->Ok_0@ == to@,
        },
{
    match sent {
        Err(reason) => Err(cat("Failed to send input data: ", reason.as_str())),
        Ok(_) => Ok(to.to_owned()),
    }
}

/// Decides whether a remote file is fetched: not over a file that exists.
pub fn check_before_fetch(present: bool) -> (res: Result<(), String>)
    ensures
        if present {
            res is Err && res->Err_0@ == "File already exists"@
        } else {
            res is Ok
        },
{
    if present {
        Err("File already exists".to_owned())
    } else {
        Ok(())
    }
}

/// What fetching a remote file to a local path gives: the local file.
pub fn fetch_remote_file(to: &str, fetched: Result<(), String>) -> (res: Result<String, String>)
    ensures
        match fetched {
            Err(reason) => res is Err && res->Err_0@ == "Failed to fetch file: "@ + reason@,
            Ok(_) => res is Ok && res->Ok_0@ == to@,
        },
{
    match fetched {
        Err(reason) => Err(cat("Failed to fetch file: ", reason.as_str())),
        Ok(_) => Ok(to.to_owned()),
    }
}

/// The command that lists the files of a remote folder.
pub fn find_command(root: &str) -> (res: String)
    ensures
        res@ == "find "@ + root@ + " -type f"@,
{
    cat3("find ", root, " -type f")
}

/// The files that are listed of a remote folder: those whose path below the folder is kept.
pub open spec fn found_files(
    root: Seq<char>,
    ignored: Seq<Seq<char>>,
    included: Seq<Seq<char>>,
    found: Seq<Seq<char>>,
) -> Seq<Seq<char>>
    decreases found.len(),
{
    if found.len() == 0 {
        Seq::empty()
    } else {
        let before = found_files(root, ignored, included, found.drop_last());
        let path = path_below(root, found.last());
        if is_kept(ignored, included, path) {
            before.push(path)
        } else {
            before
        }
    }
}

/// Whether what the listing command wrote is text, in which each line is a path below the folder.
pub open spec fn is_listing(root: Seq<char>, listed: Executed) -> bool {
    listed is Ok ==> {
        &&& valid_utf8(listed->Ok_0@.stdout)
        &&& forall|i: int|
            0 <= i < lines_of(decode_utf8(listed->Ok_0@.stdout)).len() ==> is_below(
                root,
                #[trigger] lines_of(decode_utf8(listed->Ok_0@.stdout))[i],
            )
    }
}

/// Lists the files in a remote folder, out of what the listing command gave. The globs are matched
/// against the paths below the root.
pub fn list_remote_folder(
    root: &str,
    ignore_globs: &Vec<Glob<String>>,
    include_globs: &Vec<Glob<String>>,
    listed: Executed,
) -> (res: Result<Vec<String>, String>)
    requires
        is_listing(root@, listed),
    ensures
        ({
            let ignored = glob_texts(ignore_globs@);
            let included = glob_texts(include_globs@);
            match (set_failure(ignored, "ignore"@), set_failure(included, "include"@)) {
                (Some(text), _) => res is Err && res->Err_0@ == text,
                (None, Some(text)) => res is Err && res->Err_0@ == text,
                (None, None) => match listed {
                    Err(reason) => res is Err && res->Err_0@ == "Failed to list remote files: "@
                        + reason@,
                    Ok(output) => res is Ok && texts(res->Ok_0@) == found_files(
                        root@,
                        ignored,
                        included,
                        lines_of(decode_utf8(output@.stdout)),
                    ),
                },
            }
        }),
        ignore_globs.len() == 0 && include_globs.len() == 0 && listed is Ok ==> res is Ok,
{
    let ghost ignored = glob_texts(ignore_globs@);
    let ghost included = glob_texts(include_globs@);
    let ignore = match build_set(None, ignore_globs, "ignore") {
        Ok(set) => set,
        Err(text) => {
            return Err(text);
        },
    };
    let include_set = match build_set(None, include_globs, "include") {
        Ok(set) => set,
        Err(text) => {
            return Err(text);
        },
    };
    let output = match listed {
        Ok(output) => output,
        Err(reason) => {
            return Err(cat("Failed to list remote files: ", reason.as_str()));
        },
    };
    let text = utf8_text(&output.stdout);
    let found = lines(text.unwrap().as_str());
    let ghost all = texts(found@);
    let mut files: Vec<String> = Vec::new();
    let mut i: usize = 0;
    assert(texts(files@) =~= found_files(root@, ignored, included, all.take(0)));
    while i < found.len()
        invariant
            i <= found.len(),
            all == texts(found@),
            set_globs(ignore) == ignored,
            set_globs(include_set) == included,
            texts(files@) == found_files(root@, ignored, included, all.take(i as int)),
        decreases found.len() - i,
    {
        assert(all.take(i + 1).drop_last() =~= all.take(i as int));
        assert(all[i as int] == found@[i as int]@);
        let path = path_relative(root, found[i].as_str());
        if !set_is_match(&ignore, path.as_str()) || set_is_match(&include_set, path.as_str()) {
            let ghost kept = texts(files@);
            let ghost added = path@;
            files.push(path);
            assert(texts(files@) =~= kept.push(added));
        }
        i = i + 1;
    }
    assert(all.take(i as int) =~= all);
    Ok(files)
}

/// The paths, each with a space behind it.
pub open spec fn spaced(paths: Seq<Seq<char>>) -> Seq<char>
    decreases paths.len(),
{
    if paths.len() == 0 {
        Seq::empty()
    } else {
        spaced(paths.drop_last()) + paths.last() + seq![' ']
    }
}

/// The command that packs remote files, given by their paths below the root, into a remote tar
/// archive.
pub fn tar_command(root: &str, output: &str, files: &Vec<String>) -> (res: String)
    requires
        files.len() > 0,
    ensures
        res@ == "cd "@ + root@ + " && tar -cvf "@ + output@ + " "@ + spaced(texts(files@)),
{
    let mut res = cat5("cd ", root, " && tar -cvf ", output, " ");
    let ghost head = res@;
    let ghost all = texts(files@);
    let mut i: usize = 0;
    assert(res@ =~= head + spaced(all.take(0)));
    while i < files.len()
        invariant
            i <= files.len(),
            all == texts(files@),
            res@ == head + spaced(all.take(i as int)),
        decreases files.len() - i,
    {
        assert(all.take(i + 1).drop_last() =~= all.take(i as int));
        res.append(files[i].as_str());
        res.push(' ');
        assert(res@ =~= head + spaced(all.take(i + 1)));
        i = i + 1;
    }
    assert(all.take(i as int) =~= all);
    res
}

/// The result of a tar command on a node.
fn tar_result(executed: Executed, failure: &str) -> (res: Result<(), String>)
    requires
        executed is Ok ==> executed->Ok_0.is_text(),
    ensures
        match executed {
            Err(reason) => res is Err && res->Err_0@ == "Failed to execute tar command: "@
                + reason@,
            Ok(output) => match output_result(output@) {
                Ok(_) => res is Ok,
                Err(text) => res is Err && res->Err_0@ == failure@ + text,
            },
        },
{
    match executed {
        Err(reason) => Err(cat("Failed to execute tar command: ", reason.as_str())),
        Ok(output) => match output.result() {
            Ok(_) => Ok(()),
            Err(text) => Err(cat(failure, text.as_str())),
        },
    }
}

/// What packing remote files gives, before the archive is hashed.
pub fn tar_remote_files(executed: Executed) -> (res: Result<(), String>)
    requires
        executed is Ok ==> executed->Ok_0.is_text(),
    ensures
        match executed {
            Err(reason) => res is Err && res->Err_0@ == "Failed to execute tar command: "@
                + reason@,
            Ok(output) => match output_result(output@) {
                Ok(_) => res is Ok,
                Err(text) => res is Err && res->Err_0@ == "Failed to tar files: "@ + text,
            },
        },
{
    tar_result(executed, "Failed to tar files: ")
}

/// The command that computes the sha1 hash of a remote file.
pub fn sha1_command(path: &str) -> (res: String)
    ensures
        res@ == "sha1sum "@ + path@,
{
    cat("sha1sum ", path)
}

/// The sha1 hash of a remote file, out of what the command gave: the first word that it wrote.
pub fn compute_remote_sha1(executed: Executed) -> (res: Result<String, String>)
    requires
        executed is Ok && executed->Ok_0@.status == 0 ==> valid_utf8(executed->Ok_0@.stdout),
    ensures
        match executed {
            Err(reason) => res is Err && res->Err_0@ == "Failed to execute sha1sum command: "@
                + reason@,
            Ok(output) => if output@.status == 0 {
                res is Ok && res->Ok_0@ == split_on(decode_utf8(output@.stdout), ' ')[0]
            } else {
                res is Err && res->Err_0@ == "Failed to compute sha1 hash"@
            },
        },
{
    match executed {
        Err(reason) => Err(cat("Failed to execute sha1sum command: ", reason.as_str())),
        Ok(output) => {
            if !output.status.success() {
                return Err("Failed to compute sha1 hash".to_owned());
            }
            let text = utf8_text(&output.stdout);
            let words = split(text.unwrap().as_str(), ' ');
            assert(texts(words@)[0] == words@[0]@);
            Ok(words[0].clone())
        },
    }
}

/// The command that unpacks a remote archive into a remote folder.
pub fn untar_command(archive: &str, root: &str) -> (res: String)
    ensures
        res@ == "tar -xvf "@ + archive@ + " -C "@ + root@,
{
    cat4("tar -xvf ", archive, " -C ", root)
}

/// What unpacking a remote archive gives, before the folder is listed.
pub fn untar_remote_archive(executed: Executed) -> (res: Result<(), String>)
    requires
        executed is Ok ==> executed->Ok_0.is_text(),
    ensures
        match executed {
            Err(reason) => res is Err && res->Err_0@ == "Failed to execute tar command: "@
                + reason@,
            Ok(output) => match output_result(output@) {
                Ok(_) => res is Ok,
                Err(text) => res is Err && res->Err_0@ == "Failed to untar files: "@ + text,
            },
        },
{
    tar_result(executed, "Failed to untar files: ")
}

//------------------------------------------------------------------------------------------ LAWS
/// Whether a path is to be listed: no glob of those to ignore matches it, or a glob of those to include
/// does. The globs are taken from the folder, if there is one.
pub open spec fn is_wanted(
    folder: Option<Seq<char>>,
    ignore_globs: Seq<Glob<String>>,
    include_globs: Seq<Glob<String>>,
    path: Seq<char>,
) -> bool {
    ||| forall|g: int|
        0 <= g < ignore_globs.len() ==> !glob_matches(
            match folder {
                Some(root) => path_in(root, (#[trigger] ignore_globs[g]).0@),
                None => ignore_globs[g].0@,
            },
            path,
        )
    ||| exists|g: int|
        0 <= g < include_globs.len() && glob_matches(
            match folder {
                Some(root) => path_in(root, (#[trigger] include_globs[g]).0@),
                None => include_globs[g].0@,
            },
            path,
        )
}

proof fn wanted_is_kept(
    folder: Option<Seq<char>>,
    ignore_globs: Seq<Glob<String>>,
    include_globs: Seq<Glob<String>>,
    path: Seq<char>,
)
    ensures
        is_kept(
            rooted(folder, glob_texts(ignore_globs)),
            rooted(folder, glob_texts(include_globs)),
            path,
        ) <==> is_wanted(folder, ignore_globs, include_globs, path),
{
    let ignored = rooted(folder, glob_texts(ignore_globs));
    let included = rooted(folder, glob_texts(include_globs));
    assert(forall|g: int|
        0 <= g < ignore_globs.len() ==> #[trigger] ignored[g] == match folder {
            Some(root) => path_in(root, ignore_globs[g].0@),
            None => ignore_globs[g].0@,
        });
    assert(forall|g: int|
        0 <= g < include_globs.len() ==> #[trigger] included[g] == match folder {
            Some(root) => path_in(root, include_globs[g].0@),
            None => include_globs[g].0@,
        });
    if matches_any(ignored, path) {
        let g = choose|g: int| 0 <= g < ignored.len() && glob_matches(#[trigger] ignored[g], path);
        assert(ignore_globs[g].0@ == ignore_globs[g].0@);
    }
    if matches_any(included, path) {
        let g = choose|g: int| 0 <= g < included.len() && glob_matches(#[trigger] included[g], path);
        assert(include_globs[g].0@ == include_globs[g].0@);
    }
    if !matches_any(ignored, path) {
        assert forall|g: int| 0 <= g < ignore_globs.len() implies !glob_matches(
            match folder {
                Some(root) => path_in(root, (#[trigger] ignore_globs[g]).0@),
                None => ignore_globs[g].0@,
            },
            path,
        ) by {
            assert(!glob_matches(ignored[g], path));
        }
    }
    if exists|g: int|
        0 <= g < include_globs.len() && glob_matches(
            match folder {
                Some(root) => path_in(root, (#[trigger] include_globs[g]).0@),
                None => include_globs[g].0@,
            },
            path,
        ) {
        let g = choose|g: int|
            0 <= g < include_globs.len() && glob_matches(
                match folder {
                    Some(root) => path_in(root, (#[trigger] include_globs[g]).0@),
                    None => include_globs[g].0@,
                },
                path,
            );
        assert(glob_matches(included[g], path));
    }
}

proof fn listed_files_filtered(
    root: Seq<char>,
    ignored: Seq<Seq<char>>,
    included: Seq<Seq<char>>,
    met: Seq<(String, bool)>,
    wanted: spec_fn((String, bool)) -> bool,
    below: spec_fn((String, bool)) -> Seq<char>,
)
    requires
        forall|m: (String, bool)| #[trigger] wanted(m) == (m.1 && is_kept(ignored, included, m.0@)),
        forall|m: (String, bool)| #[trigger] below(m) == path_below(root, m.0@),
    ensures
        listed_files(root, ignored, included, met) == met.filter(wanted).map_values(below),
    decreases met.len(),
{
    reveal(Seq::filter);
    if met.len() == 0 {
        assert(met.filter(wanted).map_values(below) =~= Seq::<Seq<char>>::empty());
    } else {
        listed_files_filtered(root, ignored, included, met.drop_last(), wanted, below);
        assert(wanted(met.last()) == (met.last().1 && is_kept(ignored, included, met.last().0@)));
        assert(below(met.last()) == path_below(root, met.last().0@));
        assert(listed_files(root, ignored, included, met) =~= met.filter(wanted).map_values(below));
    }
}

/// Whether a path is that of a file that was met and is wanted.
pub open spec fn is_path_of_wanted(
    root: Seq<char>,
    ignore_globs: Seq<Glob<String>>,
    include_globs: Seq<Glob<String>>,
    met: Seq<(String, bool)>,
    path: Seq<char>,
) -> bool {
    exists|i: int|
        0 <= i < met.len() && (#[trigger] met[i]).1 && is_wanted(
            Some(root),
            ignore_globs,
            include_globs,
            met[i].0@,
        ) && path == path_below(root, met[i].0@)
}

/// The files of a local folder are listed all and once each, in the order in which they were met: those
/// that are wanted, and no other path. Each is listed by its path below the folder.
pub proof fn every_wanted_file_is_listed(
    root: &str,
    ignore_globs: &Vec<Glob<String>>,
    include_globs: &Vec<Glob<String>>,
    met: &Vec<(String, bool)>,
    res: Result<Vec<String>, String>,
    below: spec_fn((String, bool)) -> Seq<char>,
)
    requires
        call_ensures(list_local_folder, (root, ignore_globs, include_globs, met), res),
        res is Ok,
        forall|m: (String, bool)| #[trigger] below(m) == path_below(root@, m.0@),
    ensures
        texts(res->Ok_0@) == met@.filter(
            |m: (String, bool)|
                m.1 && is_wanted(Some(root@), ignore_globs@, include_globs@, m.0@),
        ).map_values(below),
        forall|i: int|
            0 <= i < met.len() && (#[trigger] met@[i]).1 && is_wanted(
                Some(root@),
                ignore_globs@,
                include_globs@,
                met@[i].0@,
            ) ==> texts(res->Ok_0@).contains(path_below(root@, met@[i].0@)),
        forall|k: int|
            0 <= k < res->Ok_0.len() ==> is_path_of_wanted(
                root@,
                ignore_globs@,
                include_globs@,
                met@,
                #[trigger] texts(res->Ok_0@)[k],
            ),
{
    let ignored = rooted(Some(root@), glob_texts(ignore_globs@));
    let included = rooted(Some(root@), glob_texts(include_globs@));
    let wanted = |m: (String, bool)|
        m.1 && is_wanted(Some(root@), ignore_globs@, include_globs@, m.0@);
    assert forall|m: (String, bool)| #[trigger]
        wanted(m) == (m.1 && is_kept(ignored, included, m.0@)) by {
        wanted_is_kept(Some(root@), ignore_globs@, include_globs@, m.0@);
    }
    listed_files_filtered(root@, ignored, included, met@, wanted, below);
    let kept = met@.filter(wanted);
    let all = texts(res->Ok_0@);
    assert(all == kept.map_values(below));
    assert forall|i: int|
        0 <= i < met.len() && (#[trigger] met@[i]).1 && is_wanted(
            Some(root@),
            ignore_globs@,
            include_globs@,
            met@[i].0@,
        ) implies all.contains(path_below(root@, met@[i].0@)) by {
        assert(wanted(met@[i]));
        filter_keeps(met@, wanted, i);
        let k = choose|k: int| 0 <= k < kept.len() && kept[k] == met@[i];
        assert(all[k] == below(met@[i]));
    }
    assert forall|k: int| 0 <= k < res->Ok_0.len() implies is_path_of_wanted(
        root@,
        ignore_globs@,
        include_globs@,
        met@,
        #[trigger] texts(res->Ok_0@)[k],
    ) by {
        filter_takes(met@, wanted, k);
        let i = choose|i: int| 0 <= i < met@.len() && met@[i] == kept[k];
        assert(wanted(met@[i]));
        assert(all[k] == below(met@[i]));
    }
}

proof fn filter_keeps<T>(all: Seq<T>, wanted: spec_fn(T) -> bool, i: int)
    requires
        0 <= i < all.len(),
        wanted(all[i]),
    ensures
        exists|k: int| 0 <= k < all.filter(wanted).len() && all.filter(wanted)[k] == all[i],
    decreases all.len(),
{
    reveal(Seq::filter);
    let init = all.drop_last();
    if i == all.len() - 1 {
        let k = all.filter(wanted).len() - 1;
        assert(all.filter(wanted)[k] == all[i]);
    } else {
        assert(init[i] == all[i]);
        filter_keeps(init, wanted, i);
        let k = choose|k: int| 0 <= k < init.filter(wanted).len() && init.filter(wanted)[k] == all[i];
        assert(all.filter(wanted)[k] == all[i]);
    }
}

proof fn filter_takes<T>(all: Seq<T>, wanted: spec_fn(T) -> bool, k: int)
    requires
        0 <= k < all.filter(wanted).len(),
    ensures
        wanted(all.filter(wanted)[k]),
        exists|i: int| 0 <= i < all.len() && all[i] == all.filter(wanted)[k],
    decreases all.len(),
{
    reveal(Seq::filter);
    if all.len() > 0 {
        let init = all.drop_last();
        if k < init.filter(wanted).len() {
            filter_takes(init, wanted, k);
            let i = choose|i: int| 0 <= i < init.len() && init[i] == init.filter(wanted)[k];
            assert(all[i] == all.filter(wanted)[k]);
        } else {
            assert(all[all.len() - 1] == all.filter(wanted)[k]);
        }
    }
}

proof fn found_files_filtered(
    root: Seq<char>,
    ignored: Seq<Seq<char>>,
    included: Seq<Seq<char>>,
    found: Seq<Seq<char>>,
    below: spec_fn(Seq<char>) -> Seq<char>,
    wanted: spec_fn(Seq<char>) -> bool,
)
    requires
        forall|p: Seq<char>| #[trigger] below(p) == path_below(root, p),
        forall|p: Seq<char>| #[trigger] wanted(p) == is_kept(ignored, included, p),
    ensures
        found_files(root, ignored, included, found) == found.map_values(below).filter(wanted),
    decreases found.len(),
{
    reveal(Seq::filter);
    let mapped = found.map_values(below);
    if found.len() > 0 {
        found_files_filtered(root, ignored, included, found.drop_last(), below, wanted);
        assert(mapped.drop_last() =~= found.drop_last().map_values(below));
        assert(mapped.last() == below(found.last()));
        assert(wanted(mapped.last()) == is_kept(ignored, included, mapped.last()));
    }
}

/// The files of a remote folder are listed all and once each, in the order in which the command wrote
/// them: those whose path below the folder is wanted, and no other path.
pub proof fn every_wanted_remote_file_is_listed(
    root: &str,
    ignore_globs: &Vec<Glob<String>>,
    include_globs: &Vec<Glob<String>>,
    listed: Executed,
    res: Result<Vec<String>, String>,
    below: spec_fn(Seq<char>) -> Seq<char>,
)
    requires
        call_ensures(list_remote_folder, (root, ignore_globs, include_globs, listed), res),
        res is Ok,
        forall|p: Seq<char>| #[trigger] below(p) == path_below(root@, p),
    ensures
        listed is Ok,
        texts(res->Ok_0@) == lines_of(decode_utf8(listed->Ok_0.stdout@)).map_values(below).filter(
            |p: Seq<char>| is_wanted(None, ignore_globs@, include_globs@, p),
        ),
{
    let ignored = glob_texts(ignore_globs@);
    let included = glob_texts(include_globs@);
    let wanted = |p: Seq<char>| is_wanted(None, ignore_globs@, include_globs@, p);
    assert forall|p: Seq<char>| #[trigger] wanted(p) == is_kept(ignored, included, p) by {
        wanted_is_kept(None, ignore_globs@, include_globs@, p);
    }
    if listed is Ok {
        found_files_filtered(
            root@,
            ignored,
            included,
            lines_of(decode_utf8(listed->Ok_0.stdout@)),
            below,
            wanted,
        );
    }
}

/// What an archive held is listed all, once it is unpacked: every file that was met, by its path below
/// the folder.
pub proof fn every_unpacked_file_is_listed(
    root: &str,
    met: Vec<(String, bool)>,
    res: Result<Vec<String>, String>,
    below: spec_fn((String, bool)) -> Seq<char>,
)
    requires
        call_ensures(untar_local_archive, (root, Untarred::Met(met)), res),
        forall|m: (String, bool)| #[trigger] below(m) == path_below(root@, m.0@),
    ensures
        res is Ok,
        texts(res->Ok_0@) == met@.filter(|m: (String, bool)| m.1).map_values(below),
{
    let wanted = |m: (String, bool)| m.1;
    assert forall|m: (String, bool)| #[trigger]
        wanted(m) == (m.1 && is_kept(Seq::empty(), Seq::empty(), m.0@)) by {
        no_globs_keep_everything(m.0@);
    }
    listed_files_filtered(root@, Seq::empty(), Seq::empty(), met@, wanted, below);
}

/// The globs of a file are its lines, one glob for each of them.
pub proof fn globs_are_the_lines(contents: String, res: Result<Vec<Glob<String>>, String>)
    requires
        call_ensures(read_globs_from_file, (ReadText::Text(contents),), res),
    ensures
        res is Ok,
        res->Ok_0.len() == lines_of(contents@).len(),
        forall|i: int|
            0 <= i < res->Ok_0.len() ==> (#[trigger] res->Ok_0@[i]).0@ == lines_of(contents@)[i],
{
    let all = glob_texts(res->Ok_0@);
    assert forall|i: int| 0 <= i < res->Ok_0.len() implies (#[trigger] res->Ok_0@[i]).0@ == lines_of(
        contents@,
    )[i] by {
        assert(all[i] == res->Ok_0@[i].0@);
    }
}

/// The hexadecimal notation of one more byte is two more digits: that of its upper half and that of its
/// lower half.
pub proof fn hexadecimal_byte_by_byte(bytes: Seq<u8>, byte: u8)
    ensures
        hex_text(Seq::empty()).len() == 0,
        hex_text(bytes.push(byte)) == hex_text(bytes) + seq![
            "0123456789abcdef"@[byte as int / 16],
            "0123456789abcdef"@[byte as int % 16],
        ],
        hex_text(bytes).len() == 2 * bytes.len(),
    decreases bytes.len(),
{
    reveal_strlit("0123456789abcdef");
    assert(bytes.push(byte).drop_last() =~= bytes);
    hex_digits(byte / 16);
    hex_digits(byte % 16);
    assert(hex_text(bytes.push(byte)) =~= hex_text(bytes) + seq![
        "0123456789abcdef"@[byte as int / 16],
        "0123456789abcdef"@[byte as int % 16],
    ]);
    if bytes.len() > 0 {
        hexadecimal_byte_by_byte(bytes.drop_last(), bytes.last());
        assert(bytes.drop_last().push(bytes.last()) =~= bytes);
    }
}

proof fn hex_digits(n: u8)
    requires
        n < 16,
    ensures
        hex_char(n) == "0123456789abcdef"@[n as int],
{
    reveal_strlit("0123456789abcdef");
}

/// The hash of a file is that of its bytes alone, wherever they were read: a local file and an archive
/// with the same bytes have the same hash, which is the digest in hexadecimal notation.
pub proof fn hash_is_that_of_the_bytes(
    bytes: Vec<u8>,
    output: &str,
    local: Result<String, String>,
    archive: Result<Archive, String>,
)
    requires
        call_ensures(compute_local_sha1, (ReadBytes::Bytes(bytes),), local),
        call_ensures(tar_local_files, (output, Tarred::Archive(bytes)), archive),
    ensures
        local is Ok && archive is Ok,
        archive->Ok_0.file@ == output@,
        archive->Ok_0.hash@ == local->Ok_0@,
        local->Ok_0@ == hex_text(sha1_digest(bytes@)),
{
}

/// The hash of a remote file is the first word that the command wrote, if the command succeeded; if it
/// did not, there is none.
pub proof fn remote_hash_is_first_word(
    output: Output,
    hash: Seq<char>,
    rest: Seq<char>,
    res: Result<String, String>,
)
    requires
        call_ensures(compute_remote_sha1, (Ok::<Output, String>(output),), res),
        decode_utf8(output.stdout@) == hash + seq![' '] + rest,
        !hash.contains(' '),
    ensures
        output.status.raw == 0 ==> res is Ok && res->Ok_0@ == hash,
        output.status.raw != 0 ==> res is Err,
{
    crate::text::split_then_join(rest, ' ');
    first_piece(hash, rest);
}

proof fn first_piece(hash: Seq<char>, rest: Seq<char>)
    requires
        !hash.contains(' '),
    ensures
        split_on(hash + seq![' '] + rest, ' ')[0] == hash,
    decreases rest.len(),
{
    let s = hash + seq![' '] + rest;
    crate::text::split_of_pieces(hash, ' ', Seq::empty());
    crate::text::split_of_pieces(hash, ' ', hash);
    if rest.len() == 0 {
        assert(s =~= hash + seq![' '] + Seq::<char>::empty());
        assert(split_on(s, ' ')[0] == hash);
    } else {
        first_piece(hash, rest.drop_last());
        assert(s.drop_last() =~= hash + seq![' '] + rest.drop_last());
        two_pieces(hash, rest.drop_last());
    }
}

proof fn two_pieces(hash: Seq<char>, rest: Seq<char>)
    ensures
        split_on(hash + seq![' '] + rest, ' ').len() >= 2,
    decreases rest.len(),
{
    let s = hash + seq![' '] + rest;
    crate::text::split_then_join(hash, ' ');
    if rest.len() == 0 {
        assert(s.drop_last() =~= hash);
        assert(s.last() == ' ');
    } else {
        two_pieces(hash, rest.drop_last());
        assert(s.drop_last() =~= hash + seq![' '] + rest.drop_last());
    }
}

/// The commands on remote files name the files that they are about.
pub proof fn commands_name_their_files(
    path: &str,
    root: &str,
    test: String,
    find: String,
    sha1: String,
    untar: String,
)
    requires
        call_ensures(test_command, (path,), test),
        call_ensures(find_command, (root,), find),
        call_ensures(sha1_command, (path,), sha1),
        call_ensures(untar_command, (path, root), untar),
    ensures
        test@ == "test -f "@ + path@,
        find@ == "find "@ + root@ + " -type f"@,
        sha1@ == "sha1sum "@ + path@,
        untar@ == "tar -xvf "@ + path@ + " -C "@ + root@,
{
}

/// Each file that is packed is named in the command, in its order: one more file is one more word at
/// the end.
pub proof fn packed_files_are_named(
    root: &str,
    output: &str,
    files: &Vec<String>,
    more: &Vec<String>,
    file: String,
    before: String,
    after: String,
)
    requires
        call_ensures(tar_command, (root, output, files), before),
        call_ensures(tar_command, (root, output, more), after),
        more@ == files@.push(file),
    ensures
        after@ == before@ + file@ + seq![' '],
        files.len() == 0 ==> before@ == "cd "@ + root@ + " && tar -cvf "@ + output@ + " "@,
{
    assert(texts(more@).drop_last() =~= texts(files@));
    assert(after@ =~= before@ + file@ + seq![' ']);
    if files.len() == 0 {
        assert(before@ =~= "cd "@ + root@ + " && tar -cvf "@ + output@ + " "@);
    }
}

/// A file is moved only where there is none yet, and a failure of the test or of the move is told.
pub proof fn files_are_not_written_over(
    tested: Executed,
    present: bool,
    send: Result<(), String>,
    fetch: Result<(), String>,
)
    requires
        call_ensures(check_before_send, (tested,), send),
        call_ensures(check_before_fetch, (present,), fetch),
    ensures
        send is Ok <==> tested is Ok && tested->Ok_0.status.raw != 0,
        fetch is Ok <==> !present,
{
}

/// What is moved is where it was to be moved to, if and only if the move succeeded.
pub proof fn moved_files_are_there(
    to: &str,
    moved: Result<(), String>,
    sent: Result<String, String>,
    fetched: Result<String, String>,
)
    requires
        call_ensures(send_local_file, (to, moved), sent),
        call_ensures(fetch_remote_file, (to, moved), fetched),
    ensures
        sent is Ok <==> moved is Ok,
        fetched is Ok <==> moved is Ok,
        moved is Ok ==> sent->Ok_0@ == to@ && fetched->Ok_0@ == to@,
{
}

/// A remote archive is packed or unpacked if and only if its command succeeded.
pub proof fn remote_archives_need_success(
    executed: Executed,
    packed: Result<(), String>,
    unpacked: Result<(), String>,
)
    requires
        call_ensures(tar_remote_files, (executed,), packed),
        call_ensures(untar_remote_archive, (executed,), unpacked),
    ensures
        packed is Ok <==> executed is Ok && executed->Ok_0.status.raw == 0,
        unpacked is Ok <==> executed is Ok && executed->Ok_0.status.raw == 0,
{
}

/// What fails on a local file is told, with the reason.
pub proof fn local_failures_are_told(
    reason: String,
    root: &str,
    output: &str,
    not_added: Result<Archive, String>,
    not_finished: Result<Archive, String>,
    no_archive: Result<Archive, String>,
    no_archive_hash: Result<Archive, String>,
    unopened: Result<Vec<Glob<String>>, String>,
    unread: Result<Vec<Glob<String>>, String>,
    no_file: Result<String, String>,
    no_hash: Result<String, String>,
    closed: Result<Vec<String>, String>,
    packed: Result<Vec<String>, String>,
)
    requires
        call_ensures(read_globs_from_file, (ReadText::Unopened(reason),), unopened),
        call_ensures(read_globs_from_file, (ReadText::Unread(reason),), unread),
        call_ensures(compute_local_sha1, (ReadBytes::Unopened,), no_file),
        call_ensures(compute_local_sha1, (ReadBytes::Unread,), no_hash),
        call_ensures(tar_local_files, (output, Tarred::NotAdded(reason)), not_added),
        call_ensures(tar_local_files, (output, Tarred::NotFinished(reason)), not_finished),
        call_ensures(tar_local_files, (output, Tarred::Unopened), no_archive),
        call_ensures(tar_local_files, (output, Tarred::Unread), no_archive_hash),
        call_ensures(untar_local_archive, (root, Untarred::Unopened(reason)), closed),
        call_ensures(untar_local_archive, (root, Untarred::NotUnpacked(reason)), packed),
    ensures
        unopened is Err && unopened->Err_0@ == "Failed to open glob file: "@ + reason@,
        unread is Err && unread->Err_0@ == "Failed to read blog file: "@ + reason@,
        no_file is Err && no_file->Err_0@ == "Failed to open file"@,
        no_hash is Err && no_hash->Err_0@ == "Failed to compute hash"@,
        not_added is Err && not_added->Err_0@ == "Failed to add file to the archive: "@ + reason@,
        not_finished is Err && not_finished->Err_0@ == "Failed to finish the archive: "@ + reason@,
        no_archive is Err && no_archive->Err_0@ == "Failed to open file"@,
        no_archive_hash is Err && no_archive_hash->Err_0@ == "Failed to compute hash"@,
        closed is Err && closed->Err_0@ == "Failed to open archive: "@ + reason@,
        packed is Err && packed->Err_0@ == "Failed to unpack archive: "@ + reason@,
{
}

/// What fails on a remote file is told, with the reason.
pub proof fn remote_failures_are_told(
    reason: String,
    to: &str,
    tested: Result<(), String>,
    present: Result<(), String>,
    sent: Result<String, String>,
    fetched: Result<String, String>,
    packed: Result<(), String>,
    hashed: Result<String, String>,
    unpacked: Result<(), String>,
)
    requires
        call_ensures(check_before_send, (Err::<Output, String>(reason),), tested),
        call_ensures(check_before_fetch, (true,), present),
        call_ensures(send_local_file, (to, Err::<(), String>(reason)), sent),
        call_ensures(fetch_remote_file, (to, Err::<(), String>(reason)), fetched),
        call_ensures(tar_remote_files, (Err::<Output, String>(reason),), packed),
        call_ensures(compute_remote_sha1, (Err::<Output, String>(reason),), hashed),
        call_ensures(untar_remote_archive, (Err::<Output, String>(reason),), unpacked),
    ensures
        tested is Err && tested->Err_0@ == "Failed to test file: "@ + reason@,
        present is Err && present->Err_0@ == "File already exists"@,
        sent is Err && sent->Err_0@ == "Failed to send input data: "@ + reason@,
        fetched is Err && fetched->Err_0@ == "Failed to fetch file: "@ + reason@,
        packed is Err && packed->Err_0@ == "Failed to execute tar command: "@ + reason@,
        hashed is Err && hashed->Err_0@ == "Failed to execute sha1sum command: "@ + reason@,
        unpacked is Err && unpacked->Err_0@ == "Failed to execute tar command: "@ + reason@,
{
}

proof fn all_parsed(globs: Seq<Seq<char>>)
    ensures
        first_unparsed(globs) is None <==> forall|i: int|
            0 <= i < globs.len() ==> glob_parsed(#[trigger] globs[i]) is Ok,
    decreases globs.len(),
{
    if globs.len() > 0 {
        let init = globs.drop_last();
        all_parsed(init);
        assert(globs[globs.len() - 1] == globs.last());
        if first_unparsed(globs) is None {
            assert forall|i: int| 0 <= i < globs.len() implies glob_parsed(
                #[trigger] globs[i],
            ) is Ok by {
                if i < init.len() {
                    assert(init[i] == globs[i]);
                }
            }
        }
        if forall|i: int| 0 <= i < globs.len() ==> glob_parsed(#[trigger] globs[i]) is Ok {
            assert forall|i: int| 0 <= i < init.len() implies glob_parsed(
                #[trigger] init[i],
            ) is Ok by {
                assert(init[i] == globs[i]);
            }
        }
    }
}

/// A local folder is listed where each glob, taken from the folder, is a pattern and the patterns can
/// be put together, and only there.
pub proof fn listing_needs_patterns(
    root: &str,
    ignore_globs: &Vec<Glob<String>>,
    include_globs: &Vec<Glob<String>>,
    met: &Vec<(String, bool)>,
    ignored: Seq<Seq<char>>,
    included: Seq<Seq<char>>,
    res: Result<Vec<String>, String>,
)
    requires
        call_ensures(list_local_folder, (root, ignore_globs, include_globs, met), res),
        ignored.len() == ignore_globs.len(),
        included.len() == include_globs.len(),
        forall|i: int|
            0 <= i < ignored.len() ==> #[trigger] ignored[i] == path_in(
                root@,
                ignore_globs@[i].0@,
            ),
        forall|i: int|
            0 <= i < included.len() ==> #[trigger] included[i] == path_in(
                root@,
                include_globs@[i].0@,
            ),
    ensures
        res is Ok <==> {
            &&& forall|i: int| 0 <= i < ignored.len() ==> glob_parsed(#[trigger] ignored[i]) is Ok
            &&& forall|i: int| 0 <= i < included.len() ==> glob_parsed(#[trigger] included[i]) is Ok
            &&& globs_built(ignored) is Ok
            &&& globs_built(included) is Ok
        },
{
    assert(rooted(Some(root@), glob_texts(ignore_globs@)) =~= ignored);
    assert(rooted(Some(root@), glob_texts(include_globs@)) =~= included);
    all_parsed(ignored);
    all_parsed(included);
}

/// Whatever the command wrote, the hash of a remote file is what stands before the first blank.
pub proof fn remote_hash_stands_before_the_blank(output: Output, res: Result<String, String>)
    requires
        call_ensures(compute_remote_sha1, (Ok::<Output, String>(output),), res),
        output.status.raw == 0,
    ensures
        res is Ok,
        res->Ok_0@ == split_on(decode_utf8(output.stdout@), ' ')[0],
        !res->Ok_0@.contains(' '),
{
    crate::text::split_then_join(decode_utf8(output.stdout@), ' ');
}

} // verus!
