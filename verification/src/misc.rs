//! A few miscellaneous functions that are available library wide.
use vstd::prelude::*;
#[allow(unused_imports)]
use vstd::string::*;
use vstd::utf8::*;
#[allow(unused_imports)]
use crate::commons::{
    ExitStatus, Output, OutputBuf, OutputView, output_views, reported_code,
};
#[allow(unused_imports)]
use crate::text::{
    cat, cat3, characters, is_number, path_in, path_join, remove_char, signed_decimal,
    signed_decimal_of, slice, split, split_on, texts, trim, trimmed, without_char,
};
use crate::CMPCONF_RPATH;

verus! {

//---------------------------------------------------------------------------------------- ERRORS
#[derive(Clone, Copy, Debug, PartialEq, Eq, Structural)]
pub enum Error {
    InvalidRepository,
    Unknown,
}

impl Error {
    /// The characters of the text of the error.
    pub open spec fn text(&self) -> Seq<char> {
        match self {
            Error::InvalidRepository => "Invalid expegit repository"@,
            Error::Unknown => "Unknown error occured"@,
        }
    }

    /// The text of the error.
    pub fn message(&self) -> (res: String)
        ensures
            res@ == self.text(),
    {
        match self {
            Error::InvalidRepository => "Invalid expegit repository".to_owned(),
            Error::Unknown => "Unknown error occured".to_owned(),
        }
    }
}

//--------------------------------------------------------------------------------------- RETRIES
/// Whether an ssh error code says that the call would block, and has to be made again.
pub fn is_wouldblock_ssh(code: i32) -> (res: bool)
    ensures
        res == (code == -37 || code == -21),
{
    code == -37 || code == -21
}

/// Whether an ssh call that failed with `code` has to be made again: it is one of the codes that
/// are retried.
pub fn retry_ssh(code: i32, codes: &Vec<i32>) -> (res: bool)
    ensures
        res == codes@.contains(code),
{
    let mut i: usize = 0;
    while i < codes.len()
        invariant
            i <= codes.len(),
            forall|j: int| 0 <= j < i ==> codes@[j] != code,
        decreases codes.len() - i,
    {
        if codes[i] == code {
            return true;
        }
        i = i + 1;
    }
    false
}

/// Whether a call that failed at the given attempt, counted from one, has to be made again.
pub fn retry_n(attempt: usize, limit: usize) -> (res: bool)
    ensures
        res == (attempt != limit),
{
    attempt != limit
}

/// Whether an ssh call that failed with `code` at the given attempt, counted from one, has to be
/// made again.
pub fn retry_n_ssh(attempt: usize, limit: usize, code: i32, codes: &Vec<i32>) -> (res: bool)
    ensures
        res == (attempt != limit && codes@.contains(code)),
{
    retry_n(attempt, limit) && retry_ssh(code, codes)
}

//-------------------------------------------------------------------------------------- VERSIONS
/// The pattern of a version number.
pub const VERSION_PATTERN: &'static str = "[0-9]+\\.[0-9]+\\.[0-9]+";

/// Whether the characters from `i` on, up to `j`, are three numbers with dots between them.
pub open spec fn version_at(s: Seq<char>, i: int, j: int) -> bool {
    exists|a: int, b: int|
        #![trigger s.subrange(i, a), s.subrange(a + 1, b)]
        0 <= i < a < b < j <= s.len() && is_number(s.subrange(i, a)) && s[a] == '.' && is_number(
            s.subrange(a + 1, b),
        ) && s[b] == '.' && is_number(s.subrange(b + 1, j))
}

/// Whether some part of the text is a version number.
pub open spec fn has_version(s: Seq<char>) -> bool {
    exists|i: int, j: int| version_at(s, i, j)
}

/// Whether `version` is the version number that comes first in the text, with all of its digits.
pub open spec fn is_first_version(s: Seq<char>, version: Seq<char>) -> bool {
    exists|i: int, j: int|
        #![trigger s.subrange(i, j)]
        {
            &&& version_at(s, i, j)
            &&& version == s.subrange(i, j)
            &&& forall|k: int, l: int| #[trigger] version_at(s, k, l) ==> i <= k
            &&& j == s.len() || !('0' <= s[j] <= '9')
        }
}

/// Searches a pattern in a text, by `regex::Regex::new` and `regex::Regex::find`. The pattern is
/// that of a version number. A match is the leftmost one, and its repetitions take as many digits
/// as they can.
#[verifier::external_body]
fn regex_find(pattern: &str, text: &str) -> (res: Option<String>)
    requires
        pattern@ == VERSION_PATTERN@,
    ensures
        res is Some <==> has_version(text@),
        res is Some ==> is_first_version(text@, res->Some_0@),
{
    regex::Regex::new(pattern).unwrap().find(text).map(|found| found.as_str().to_owned())
}

/// The first version number of a text.
pub fn find_version(text: &str) -> (res: Option<String>)
    ensures
        res is Some <==> has_version(text@),
        res is Some ==> is_first_version(text@, res->Some_0@),
{
    regex_find(VERSION_PATTERN, text)
}

/// The git and git-lfs versions, out of what `git --version` and `git lfs --version` wrote.
pub fn check_git_lfs_versions(git_stdout: &str, lfs_stdout: &str) -> (res: (String, String))
    requires
        has_version(git_stdout@),
        has_version(lfs_stdout@),
    ensures
        is_first_version(git_stdout@, res.0@),
        is_first_version(lfs_stdout@, res.1@),
{
    let git_version = find_version(git_stdout);
    let lfs_version = find_version(lfs_stdout);
    (git_version.unwrap(), lfs_version.unwrap())
}

//-------------------------------------------------------------------------------- EXPEGIT ROOTS
/// The empty file that marks an expegit folder.
pub const EXPEGIT_RPATH: &'static str = ".expegit";

/// Whether a path is absolute and has neither empty nor `.` components.
pub open spec fn is_canonical(path: Seq<char>) -> bool {
    &&& path.len() > 0
    &&& path[0] == '/'
    &&& path.len() == 1 || path.last() != '/'
    &&& forall|i: int| 0 <= i < path.len() - 1 && #[trigger] path[i] == '/' ==> path[i + 1] != '/'
    &&& forall|i: int|
        0 <= i < path.len() - 1 && #[trigger] path[i] == '/' && path[i + 1] == '.' ==> i + 2
            < path.len() && path[i + 2] != '/'
}

/// The place of the last separator of a path, which has one.
pub open spec fn last_separator(path: Seq<char>) -> int
    decreases path.len(),
{
    if path.len() == 0 {
        -1
    } else if path.last() == '/' {
        path.len() - 1
    } else {
        last_separator(path.drop_last())
    }
}

/// The folder that a path other than the root lies in.
pub open spec fn folder_of(path: Seq<char>) -> Seq<char> {
    if last_separator(path) <= 0 {
        seq!['/']
    } else {
        path.take(last_separator(path))
    }
}

/// A path, the folder that it lies in, and so on up to the root.
pub open spec fn ancestors_of(path: Seq<char>) -> Seq<Seq<char>>
    decreases path.len(),
{
    if path.len() <= 1 {
        seq![path]
    } else if folder_of(path).len() < path.len() {
        seq![path] + ancestors_of(folder_of(path))
    } else {
        seq![path]
    }
}

proof fn last_separator_bounds(path: Seq<char>)
    ensures
        -1 <= last_separator(path) < path.len(),
    decreases path.len(),
{
    if path.len() > 0 && path.last() != '/' {
        last_separator_bounds(path.drop_last());
    }
}

/// The last component of a path.
pub open spec fn file_name_of(path: Seq<char>) -> Seq<char> {
    path.skip(last_separator(path) + 1)
}

/// Gives the last component of a path.
pub fn file_name(path: &str) -> (res: String)
    ensures
        res@ == file_name_of(path@),
{
    let chars = characters(path);
    let mut from: usize = chars.len();
    assert(path@.take(from as int) =~= path@);
    while from > 0 && chars[from - 1] != '/'
        invariant
            from <= chars.len(),
            chars@ == path@,
            last_separator(path@.take(from as int)) == last_separator(path@),
        decreases from,
    {
        assert(path@.take(from as int).drop_last() =~= path@.take(from - 1));
        from = from - 1;
    }
    assert(last_separator(path@) == from - 1);
    let res = slice(&chars, from, chars.len());
    assert(res@ =~= path@.skip(from as int));
    res
}

/// Gives the folder that a path other than the root lies in.
pub fn parent(path: &str) -> (res: String)
    ensures
        res@ == folder_of(path@),
{
    let chars = characters(path);
    let mut end: usize = chars.len();
    assert(path@.take(end as int) =~= path@);
    while end > 0 && chars[end - 1] != '/'
        invariant
            end <= chars.len(),
            chars@ == path@,
            last_separator(path@.take(end as int)) == last_separator(path@),
        decreases end,
    {
        assert(path@.take(end as int).drop_last() =~= path@.take(end - 1));
        end = end - 1;
    }
    assert(last_separator(path@) == end - 1);
    if end <= 1 {
        let mut root = String::new();
        root.push('/');
        assert(root@ =~= seq!['/']);
        root
    } else {
        let res = slice(&chars, 0, end - 1);
        assert(res@ =~= path@.take(end - 1));
        res
    }
}

/// The folders in which the root of an expegit repository is searched from `start`, in the order
/// of the search.
pub fn ancestors(start: &str) -> (res: Vec<String>)
    requires
        is_canonical(start@),
    ensures
        texts(res@) == ancestors_of(start@),
        res.len() >= 1,
{
    let chars = characters(start);
    let mut res: Vec<String> = Vec::new();
    let mut end: usize = chars.len();
    assert(start@.take(end as int) =~= start@);
    assert(texts(res@) + ancestors_of(start@) =~= ancestors_of(start@));
    while end > 1
        invariant
            1 <= end <= chars.len(),
            chars@ == start@,
            start@[0] == '/',
            texts(res@) + ancestors_of(start@.take(end as int)) == ancestors_of(start@),
        decreases end,
    {
        let ghost path = start@.take(end as int);
        let mut cut: usize = end;
        assert(path.take(cut as int) =~= path);
        while cut > 0 && chars[cut - 1] != '/'
            invariant
                cut <= end <= chars.len(),
                chars@ == start@,
                path == start@.take(end as int),
                last_separator(path.take(cut as int)) == last_separator(path),
            decreases cut,
        {
            assert(path.take(cut as int).drop_last() =~= path.take(cut - 1));
            cut = cut - 1;
        }
        proof {
            last_separator_bounds(path);
            if cut > 0 {
                assert(path.take(cut as int).last() == '/');
            }
        }
        assert(last_separator(path) == cut - 1);
        let ghost kept = texts(res@);
        let piece = slice(&chars, 0, end);
        assert(piece@ =~= path);
        res.push(piece);
        assert(texts(res@) =~= kept.push(path));
        let next: usize = if cut <= 2 {
            1
        } else {
            cut - 1
        };
        proof {
            let folder = folder_of(path);
            if cut <= 1 {
                assert(start@.take(1) =~= seq!['/']);
                assert(folder =~= start@.take(next as int));
            } else {
                assert(folder =~= start@.take(cut - 1));
            }
            if next < end {
                assert(texts(res@) + ancestors_of(folder) =~= kept + ancestors_of(path));
            }
        }
        if next >= end {
            assert(false);
        }
        end = next;
    }
    let ghost kept = texts(res@);
    let piece = slice(&chars, 0, end);
    assert(piece@ =~= start@.take(end as int));
    res.push(piece);
    assert(texts(res@) =~= kept + ancestors_of(start@.take(end as int)));
    res
}

/// The files of a folder, any of which marks it as the root of an expegit repository.
pub fn root_markers(folder: &str) -> (res: (String, String))
    ensures
        res.0@ == path_in(folder@, CMPCONF_RPATH@),
        res.1@ == path_in(folder@, EXPEGIT_RPATH@),
{
    (path_join(folder, CMPCONF_RPATH), path_join(folder, EXPEGIT_RPATH))
}

/// Whether no folder is marked.
pub open spec fn none_marked(marked: Seq<bool>) -> bool {
    forall|i: int| 0 <= i < marked.len() ==> !#[trigger] marked[i]
}

/// The root of the expegit repository: the first of the folders that holds a marker.
pub fn search_expegit_root(folders: &Vec<String>, marked: &Vec<bool>) -> (res: Result<String, Error>)
    requires
        folders.len() == marked.len(),
    ensures
        match res {
            Ok(root) => exists|i: int|
                #![trigger marked@[i]]
                0 <= i < folders.len() && marked@[i] && root@ == folders@[i]@ && forall|j: int|
                    0 <= j < i ==> !#[trigger] marked@[j],
            Err(e) => e == Error::InvalidRepository && none_marked(marked@),
        },
{
    let mut i: usize = 0;
    while i < folders.len()
        invariant
            i <= folders.len(),
            folders.len() == marked.len(),
            forall|j: int| 0 <= j < i ==> !#[trigger] marked@[j],
        decreases folders.len() - i,
    {
        if marked[i] {
            assert(marked@[i as int]);
            return Ok(folders[i].clone());
        }
        i = i + 1;
    }
    Err(Error::InvalidRepository)
}

//------------------------------------------------------------------------------------ PARAMETERS
/// The character that separates the parameters of a parameters string.
pub const PARAMETER_SEPARATOR: char = '\u{a4}';

/// The character that separates the values of a parameter.
pub const VALUE_SEPARATOR: char = ';';

/// `text`, as many times as asked for.
pub open spec fn repeated(text: Seq<char>, repeats: nat) -> Seq<Seq<char>> {
    Seq::new(repeats, |i: int| text)
}

/// Each value, trimmed, as many times as asked for.
pub open spec fn last_values(values: Seq<Seq<char>>, repeats: nat) -> Seq<Seq<char>>
    decreases values.len(),
{
    if values.len() == 0 {
        Seq::empty()
    } else {
        last_values(values.drop_last(), repeats) + repeated(trimmed(values.last()), repeats)
    }
}

/// Every text of `rest`, with `value` and a space before it.
pub open spec fn with_value(value: Seq<char>, rest: Seq<Seq<char>>) -> Seq<Seq<char>> {
    Seq::new(rest.len(), |i: int| value + seq![' '] + rest[i])
}

/// Every value with every text of `rest`.
pub open spec fn with_values(values: Seq<Seq<char>>, rest: Seq<Seq<char>>) -> Seq<Seq<char>>
    decreases values.len(),
{
    if values.len() == 0 {
        Seq::empty()
    } else {
        with_values(values.drop_last(), rest) + with_value(values.last(), rest)
    }
}

/// The combinations of the values of the parameters. The values of the last one are trimmed.
pub open spec fn combinations(parameters: Seq<Seq<char>>, repeats: nat) -> Seq<Seq<char>>
    decreases parameters.len(),
{
    if parameters.len() == 0 {
        Seq::empty()
    } else if parameters.len() == 1 {
        last_values(split_on(parameters[0], VALUE_SEPARATOR), repeats)
    } else {
        with_values(
            split_on(parameters[0], VALUE_SEPARATOR),
            combinations(parameters.skip(1), repeats),
        )
    }
}

fn parameters_generator(parameters: &Vec<String>, from: usize, repeats: usize) -> (res: Vec<String>)
    requires
        from < parameters.len(),
    ensures
        texts(res@) == combinations(texts(parameters@).skip(from as int), repeats as nat),
    decreases parameters.len() - from,
{
    let ghost segments = texts(parameters@).skip(from as int);
    let values = split(parameters[from].as_str(), VALUE_SEPARATOR);
    let ghost vals = texts(values@);
    assert(segments[0] == parameters@[from as int]@);
    let mut res: Vec<String> = Vec::new();
    let mut i: usize = 0;
    assert(texts(res@) =~= Seq::<Seq<char>>::empty());
    if from == parameters.len() - 1 {
        while i < values.len()
            invariant
                i <= values.len(),
                vals == texts(values@),
                texts(res@) == last_values(vals.take(i as int), repeats as nat),
            decreases values.len() - i,
        {
            let ghost kept = texts(res@);
            let value = trim(values[i].as_str());
            assert(vals[i as int] == values@[i as int]@);
            let mut k: usize = 0;
            assert(texts(res@) =~= kept + repeated(value@, 0));
            while k < repeats
                invariant
                    k <= repeats,
                    texts(res@) == kept + repeated(value@, k as nat),
                decreases repeats - k,
            {
                let ghost sofar = texts(res@);
                res.push(value.clone());
                k = k + 1;
                assert(texts(res@) =~= sofar.push(value@));
                assert(texts(res@) =~= kept + repeated(value@, k as nat));
            }
            assert(vals.take(i + 1).drop_last() =~= vals.take(i as int));
            i = i + 1;
        }
        assert(vals.take(i as int) =~= vals);
    } else {
        let rest = parameters_generator(parameters, from + 1, repeats);
        let ghost others = texts(rest@);
        assert(segments.skip(1) =~= texts(parameters@).skip(from + 1));
        while i < values.len()
            invariant
                i <= values.len(),
                vals == texts(values@),
                others == texts(rest@),
                texts(res@) == with_values(vals.take(i as int), others),
            decreases values.len() - i,
        {
            let ghost kept = texts(res@);
            let value = cat(values[i].as_str(), " ");
            proof {
                reveal_strlit(" ");
                assert(" "@ =~= seq![' ']);
            }
            let mut k: usize = 0;
            let ghost all = with_value(vals[i as int], others);
            assert(texts(res@) =~= kept + all.take(0));
            while k < rest.len()
                invariant
                    i < values.len(),
                    k <= rest.len(),
                    vals == texts(values@),
                    others == texts(rest@),
                    value@ == vals[i as int] + seq![' '],
                    all == with_value(vals[i as int], others),
                    texts(res@) == kept + all.take(k as int),
                decreases rest.len() - k,
            {
                let ghost sofar = texts(res@);
                let text = cat(value.as_str(), rest[k].as_str());
                assert(text@ =~= all[k as int]);
                res.push(text);
                k = k + 1;
                assert(texts(res@) =~= sofar.push(all[k - 1]));
                assert(texts(res@) =~= kept + all.take(k as int));
            }
            assert(all.take(k as int) =~= all);
            assert(vals.take(i + 1).drop_last() =~= vals.take(i as int));
            i = i + 1;
        }
        assert(vals.take(i as int) =~= vals);
    }
    res
}

/// Parses a parameters string with a number of repetitions and generates the combinations of
/// parameters.
pub fn parse_parameters(param_string: &str, repeats: usize) -> (res: Vec<String>)
    ensures
        texts(res@) == combinations(split_on(param_string@, PARAMETER_SEPARATOR), repeats as nat),
{
    let parameters = split(param_string, PARAMETER_SEPARATOR);
    assert(texts(parameters@).skip(0) =~= texts(parameters@));
    parameters_generator(&parameters, 0, repeats)
}

/// The number of ways to choose one value of each parameter.
pub open spec fn choice_count(parameters: Seq<Seq<char>>) -> nat
    decreases parameters.len(),
{
    if parameters.len() == 0 {
        1
    } else {
        split_on(parameters[0], VALUE_SEPARATOR).len() * choice_count(parameters.skip(1))
    }
}

/// Whether `choice` names a value of each parameter.
pub open spec fn is_choice(parameters: Seq<Seq<char>>, choice: Seq<int>) -> bool {
    &&& choice.len() == parameters.len()
    &&& forall|i: int|
        0 <= i < choice.len() ==> 0 <= #[trigger] choice[i] < split_on(
            parameters[i],
            VALUE_SEPARATOR,
        ).len()
}

/// The text of a choice: the chosen values with a space between each two of them, the last one
/// trimmed.
pub open spec fn choice_text(parameters: Seq<Seq<char>>, choice: Seq<int>) -> Seq<char>
    decreases parameters.len(),
{
    if parameters.len() == 0 {
        Seq::empty()
    } else if parameters.len() == 1 {
        trimmed(split_on(parameters[0], VALUE_SEPARATOR)[choice[0]])
    } else {
        split_on(parameters[0], VALUE_SEPARATOR)[choice[0]] + seq![' '] + choice_text(
            parameters.skip(1),
            choice.skip(1),
        )
    }
}

proof fn last_values_len(values: Seq<Seq<char>>, repeats: nat)
    ensures
        last_values(values, repeats).len() == values.len() * repeats,
    decreases values.len(),
{
    if values.len() > 0 {
        last_values_len(values.drop_last(), repeats);
        assert((values.len() - 1) * repeats + repeats == values.len() * repeats)
            by (nonlinear_arith)
            requires
                values.len() > 0,
        ;
    }
}

proof fn with_values_len(values: Seq<Seq<char>>, rest: Seq<Seq<char>>)
    ensures
        with_values(values, rest).len() == values.len() * rest.len(),
    decreases values.len(),
{
    if values.len() > 0 {
        with_values_len(values.drop_last(), rest);
        assert((values.len() - 1) * rest.len() + rest.len() == values.len() * rest.len())
            by (nonlinear_arith)
            requires
                values.len() > 0,
        ;
    }
}

/// There are as many combinations as there are choices, each as often as asked for.
pub proof fn combinations_count(parameters: Seq<Seq<char>>, repeats: nat)
    requires
        parameters.len() >= 1,
    ensures
        combinations(parameters, repeats).len() == choice_count(parameters) * repeats,
    decreases parameters.len(),
{
    let values = split_on(parameters[0], VALUE_SEPARATOR);
    if parameters.len() == 1 {
        last_values_len(values, repeats);
        assert(choice_count(parameters.skip(1)) == 1);
        assert(choice_count(parameters) == values.len()) by (nonlinear_arith)
            requires
                choice_count(parameters) == values.len() * choice_count(parameters.skip(1)),
                choice_count(parameters.skip(1)) == 1,
        ;
    } else {
        combinations_count(parameters.skip(1), repeats);
        with_values_len(values, combinations(parameters.skip(1), repeats));
        let others = choice_count(parameters.skip(1));
        assert(values.len() * (others * repeats) == (values.len() * others) * repeats)
            by (nonlinear_arith);
    }
}

/// Whether `all` holds each text of `once`, in order, the given number of times in adjacent places.
spec fn repeats_each(once: Seq<Seq<char>>, repeats: nat, all: Seq<Seq<char>>) -> bool {
    &&& all.len() == repeats * once.len()
    &&& forall|i: int| 0 <= i < all.len() ==> #[trigger] all[i] == once[i / repeats as int]
}

proof fn repeats_each_joined(
    once: Seq<Seq<char>>,
    more: Seq<Seq<char>>,
    repeats: nat,
    all: Seq<Seq<char>>,
    more_all: Seq<Seq<char>>,
)
    requires
        repeats >= 1,
        repeats_each(once, repeats, all),
        repeats_each(more, repeats, more_all),
    ensures
        repeats_each(once + more, repeats, all + more_all),
{
    let r = repeats as int;
    let n = once.len() as int;
    assert(r * n + r * more.len() == r * (n + more.len())) by (nonlinear_arith);
    assert forall|i: int| 0 <= i < (all + more_all).len() implies #[trigger] (all + more_all)[i] == (
    once + more)[i / r] by {
        if i < all.len() {
            assert(0 <= i / r < n) by (nonlinear_arith)
                requires
                    0 <= i < r * n,
                    r >= 1,
            ;
            assert(all[i] == once[i / r]);
        } else {
            let j = i - all.len();
            vstd::arithmetic::div_mod::lemma_hoist_over_denominator(j, n, repeats);
            assert(i / r == j / r + n) by {
                assert(i == j + n * r) by (nonlinear_arith)
                    requires
                        i == j + r * n,
                ;
            }
            assert(j / r >= 0) by (nonlinear_arith)
                requires
                    j >= 0,
                    r >= 1,
            ;
            assert(j / r < more.len()) by (nonlinear_arith)
                requires
                    0 <= j < r * more.len(),
                    r >= 1,
            ;
            assert(more_all[j] == more[j / r]);
        }
    }
}

#[verifier::spinoff_prover]
proof fn last_values_repeated(values: Seq<Seq<char>>, repeats: nat)
    requires
        repeats >= 1,
    ensures
        repeats_each(last_values(values, 1), repeats, last_values(values, repeats)),
    decreases values.len(),
{
    if values.len() > 0 {
        let text = trimmed(values.last());
        last_values_repeated(values.drop_last(), repeats);
        assert forall|i: int| 0 <= i < repeats implies #[trigger] repeated(text, repeats)[i]
            == repeated(text, 1)[i / repeats as int] by {
            vstd::arithmetic::div_mod::lemma_basic_div(i, repeats as int);
            assert(i / repeats as int == 0);
        }
        assert(repeated(text, 1).len() == 1 && repeated(text, repeats).len() == repeats);
        assert(repeats_each(repeated(text, 1), repeats, repeated(text, repeats)));
        repeats_each_joined(
            last_values(values.drop_last(), 1),
            repeated(text, 1),
            repeats,
            last_values(values.drop_last(), repeats),
            repeated(text, repeats),
        );
    }
}

#[verifier::spinoff_prover]
proof fn with_values_repeated(
    values: Seq<Seq<char>>,
    repeats: nat,
    once: Seq<Seq<char>>,
    all: Seq<Seq<char>>,
)
    requires
        repeats >= 1,
        repeats_each(once, repeats, all),
    ensures
        repeats_each(with_values(values, once), repeats, with_values(values, all)),
    decreases values.len(),
{
    if values.len() > 0 {
        let value = values.last();
        let r = repeats as int;
        with_values_repeated(values.drop_last(), repeats, once, all);
        assert forall|i: int| 0 <= i < all.len() implies #[trigger] with_value(value, all)[i]
            == with_value(value, once)[i / r] by {
            assert(0 <= i / r < once.len()) by (nonlinear_arith)
                requires
                    0 <= i < r * once.len(),
                    r >= 1,
            ;
            assert(all[i] == once[i / r]);
        }
        repeats_each_joined(
            with_values(values.drop_last(), once),
            with_value(value, once),
            repeats,
            with_values(values.drop_last(), all),
            with_value(value, all),
        );
    }
}

/// Each combination is there as often as asked for, in adjacent places: the combinations with
/// repetitions are those without, in the same order, each the given number of times in a row.
#[verifier::spinoff_prover]
pub proof fn combinations_are_repeated(parameters: Seq<Seq<char>>, repeats: nat)
    requires
        repeats >= 1,
    ensures
        combinations(parameters, repeats).len() == repeats * combinations(parameters, 1).len(),
        forall|i: int|
            0 <= i < combinations(parameters, repeats).len() ==> #[trigger] combinations(
                parameters,
                repeats,
            )[i] == combinations(parameters, 1)[i / repeats as int],
    decreases parameters.len(),
{
    if parameters.len() > 0 {
        let values = split_on(parameters[0], VALUE_SEPARATOR);
        if parameters.len() == 1 {
            last_values_repeated(values, repeats);
        } else {
            let rest = parameters.skip(1);
            combinations_are_repeated(rest, repeats);
            with_values_repeated(values, repeats, combinations(rest, 1), combinations(rest, repeats));
        }
    }
}

#[verifier::spinoff_prover]
proof fn last_values_members(values: Seq<Seq<char>>, repeats: nat, text: Seq<char>)
    requires
        repeats > 0,
    ensures
        last_values(values, repeats).contains(text) <==> exists|i: int|
            0 <= i < values.len() && trimmed(#[trigger] values[i]) == text,
    decreases values.len(),
{
    let all = last_values(values, repeats);
    if values.len() > 0 {
        let init = values.drop_last();
        let before = last_values(init, repeats);
        let added = repeated(trimmed(values.last()), repeats);
        last_values_members(init, repeats, text);
        if all.contains(text) {
            let k = choose|k: int| 0 <= k < all.len() && all[k] == text;
            if k < before.len() {
                assert(before[k] == text);
                assert(before.contains(text));
                let i = choose|i: int| 0 <= i < init.len() && trimmed(#[trigger] init[i]) == text;
                assert(trimmed(values[i]) == text);
            } else {
                assert(added[k - before.len()] == text);
                assert(trimmed(values[values.len() - 1]) == text);
            }
        }
        if exists|i: int| 0 <= i < values.len() && trimmed(#[trigger] values[i]) == text {
            let i = choose|i: int| 0 <= i < values.len() && trimmed(#[trigger] values[i]) == text;
            if i < init.len() {
                assert(trimmed(init[i]) == text);
                let k = choose|k: int| 0 <= k < before.len() && before[k] == text;
                assert(all[k] == text);
            } else {
                assert(added[0] == text);
                assert(all[before.len() as int] == text);
            }
        }
    }
}

#[verifier::spinoff_prover]
#[verifier::rlimit(40)]
proof fn with_values_members(values: Seq<Seq<char>>, rest: Seq<Seq<char>>, text: Seq<char>)
    ensures
        with_values(values, rest).contains(text) <==> exists|i: int, k: int|
            0 <= i < values.len() && 0 <= k < rest.len() && #[trigger] values[i] + seq![' ']
                + #[trigger] rest[k] == text,
    decreases values.len(),
{
    let all = with_values(values, rest);
    if values.len() > 0 {
        let init = values.drop_last();
        let before = with_values(init, rest);
        let added = with_value(values.last(), rest);
        with_values_members(init, rest, text);
        if all.contains(text) {
            let n = choose|n: int| 0 <= n < all.len() && all[n] == text;
            if n < before.len() {
                assert(before[n] == text);
                assert(before.contains(text));
                let (i, k) = choose|i: int, k: int|
                    0 <= i < init.len() && 0 <= k < rest.len() && #[trigger] init[i] + seq![' ']
                        + #[trigger] rest[k] == text;
                assert(values[i] + seq![' '] + rest[k] == text);
            } else {
                let k = n - before.len();
                assert(added[k] == text);
                assert(values[values.len() - 1] + seq![' '] + rest[k] == text);
            }
        }
        if exists|i: int, k: int|
            0 <= i < values.len() && 0 <= k < rest.len() && #[trigger] values[i] + seq![' ']
                + #[trigger] rest[k] == text {
            let (i, k) = choose|i: int, k: int|
                0 <= i < values.len() && 0 <= k < rest.len() && #[trigger] values[i] + seq![' ']
                    + #[trigger] rest[k] == text;
            if i < init.len() {
                assert(init[i] + seq![' '] + rest[k] == text);
                let n = choose|n: int| 0 <= n < before.len() && before[n] == text;
                assert(all[n] == text);
            } else {
                assert(added[k] == text);
                assert(all[before.len() + k] == text);
            }
        }
    }
}

/// The combinations are exactly the texts of the choices: each choice is there, and nothing else.
pub proof fn combinations_are_choices(parameters: Seq<Seq<char>>, repeats: nat, text: Seq<char>)
    requires
        parameters.len() >= 1,
        repeats > 0,
    ensures
        combinations(parameters, repeats).contains(text) <==> exists|choice: Seq<int>| #[trigger]
            is_choice(parameters, choice) && choice_text(parameters, choice) == text,
    decreases parameters.len(),
{
    let values = split_on(parameters[0], VALUE_SEPARATOR);
    if parameters.len() == 1 {
        last_values_members(values, repeats, text);
        if combinations(parameters, repeats).contains(text) {
            let i = choose|i: int| 0 <= i < values.len() && trimmed(#[trigger] values[i]) == text;
            let choice = seq![i];
            assert(is_choice(parameters, choice));
            assert(choice_text(parameters, choice) == text);
        }
        if exists|choice: Seq<int>| #[trigger]
            is_choice(parameters, choice) && choice_text(parameters, choice) == text {
            let choice = choose|choice: Seq<int>| #[trigger]
                is_choice(parameters, choice) && choice_text(parameters, choice) == text;
            assert(0 <= choice[0] < values.len());
            assert(trimmed(values[choice[0]]) == text);
        }
    } else {
        let tail = parameters.skip(1);
        let rest = combinations(tail, repeats);
        with_values_members(values, rest, text);
        if combinations(parameters, repeats).contains(text) {
            let (i, k) = choose|i: int, k: int|
                0 <= i < values.len() && 0 <= k < rest.len() && #[trigger] values[i] + seq![' ']
                    + #[trigger] rest[k] == text;
            combinations_are_choices(tail, repeats, rest[k]);
            assert(rest.contains(rest[k]));
            let others = choose|choice: Seq<int>| #[trigger]
                is_choice(tail, choice) && choice_text(tail, choice) == rest[k];
            let choice = seq![i] + others;
            assert(choice.skip(1) =~= others);
            assert forall|j: int| 0 <= j < choice.len() implies 0 <= #[trigger] choice[j] < split_on(
                parameters[j],
                VALUE_SEPARATOR,
            ).len() by {
                if j > 0 {
                    assert(choice[j] == others[j - 1]);
                    assert(tail[j - 1] == parameters[j]);
                }
            }
            assert(is_choice(parameters, choice));
            assert(choice_text(parameters, choice) == text);
        }
        if exists|choice: Seq<int>| #[trigger]
            is_choice(parameters, choice) && choice_text(parameters, choice) == text {
            let choice = choose|choice: Seq<int>| #[trigger]
                is_choice(parameters, choice) && choice_text(parameters, choice) == text;
            let others = choice.skip(1);
            assert forall|j: int| 0 <= j < others.len() implies 0 <= #[trigger] others[j] < split_on(
                tail[j],
                VALUE_SEPARATOR,
            ).len() by {
                assert(others[j] == choice[j + 1]);
                assert(tail[j] == parameters[j + 1]);
            }
            assert(is_choice(tail, others));
            combinations_are_choices(tail, repeats, choice_text(tail, others));
            assert(rest.contains(choice_text(tail, others)));
            let k = choose|k: int| 0 <= k < rest.len() && rest[k] == choice_text(tail, others);
            assert(0 <= choice[0] < values.len());
            assert(values[choice[0]] + seq![' '] + rest[k] == text);
        }
    }
}

//-------------------------------------------------------------------------------------- HOSTNAME
/// The current hostname, out of what `id -u -n` and `hostname` wrote.
pub fn get_hostname(user_stdout: &str, host_stdout: &str) -> (res: String)
    ensures
        res@ == without_char(user_stdout@, '\n') + "@"@ + without_char(host_stdout@, '\n'),
{
    let user = remove_char(user_stdout, '\n');
    let host = remove_char(host_stdout, '\n');
    cat3(user.as_str(), "@", host.as_str())
}

//--------------------------------------------------------------------------------------- OUTPUTS
/// The outputs in one: the streams one after the other, and the last status.
pub open spec fn compacted(outputs: Seq<OutputView>) -> OutputView
    decreases outputs.len(),
{
    if outputs.len() == 0 {
        OutputView { status: 0, stdout: Seq::empty(), stderr: Seq::empty() }
    } else {
        let before = compacted(outputs.drop_last());
        OutputView {
            status: outputs.last().status,
            stdout: before.stdout + outputs.last().stdout,
            stderr: before.stderr + outputs.last().stderr,
        }
    }
}

/// Compacts a list of outputs in a single output:
/// + The stdouts are concatenated
/// + The stderrs are concatenated
/// + The last error code is kept
pub fn compact_outputs(outputs: Vec<Output>) -> (res: Output)
    ensures
        res@ == compacted(output_views(outputs@)),
{
    let mut res = Output {
        status: ExitStatus::from_raw(0),
        stdout: Vec::new(),
        stderr: Vec::new(),
    };
    let ghost all = output_views(outputs@);
    let mut i: usize = 0;
    while i < outputs.len()
        invariant
            i <= outputs.len(),
            all == output_views(outputs@),
            res@ == compacted(all.take(i as int)),
        decreases outputs.len() - i,
    {
        let mut next = outputs[i].clone();
        assert(all.take(i + 1).drop_last() =~= all.take(i as int));
        assert(all[i as int] == next@);
        res.stdout.append(&mut next.stdout);
        res.stderr.append(&mut next.stderr);
        res.status = next.status;
        i = i + 1;
    }
    assert(all.take(i as int) =~= all);
    res
}

/// Compacting two lists one after the other is compacting what each of them compacts to, where the
/// second one is not empty.
pub proof fn compacted_in_two(first: Seq<OutputView>, second: Seq<OutputView>)
    requires
        second.len() > 0,
    ensures
        compacted(first + second) == compacted(seq![compacted(first), compacted(second)]),
    decreases second.len(),
{
    let whole = first + second;
    let a = compacted(first);
    let b = compacted(second);
    assert(whole.drop_last() =~= first + second.drop_last());
    let both = seq![a, b];
    let one = seq![a];
    let none = Seq::<OutputView>::empty();
    assert(both.drop_last() =~= one);
    assert(one.drop_last() =~= none);
    assert(compacted(none).stdout =~= Seq::<u8>::empty());
    assert(compacted(none).stderr =~= Seq::<u8>::empty());
    assert(one.last() == a);
    assert(compacted(one).stdout =~= a.stdout);
    assert(compacted(one).stderr =~= a.stderr);
    if second.len() > 1 {
        compacted_in_two(first, second.drop_last());
        let c = compacted(second.drop_last());
        let inner = seq![a, c];
        assert(inner.drop_last() =~= one);
        assert(compacted(inner).stdout =~= a.stdout + c.stdout);
        assert(compacted(inner).stderr =~= a.stderr + c.stderr);
    } else {
        assert(whole.drop_last() =~= first);
        assert(second.drop_last() =~= none);
        assert(b.stdout =~= second.last().stdout);
        assert(b.stderr =~= second.last().stderr);
    }
    assert(compacted(whole).stdout =~= a.stdout + b.stdout);
    assert(compacted(whole).stderr =~= a.stderr + b.stderr);
}

/// How a text is shown for debugging: between quotes, its special characters escaped.
pub uninterp spec fn debug_text(text: Seq<char>) -> Seq<char>;

/// Shows a text for debugging, as `format!` does with `{:?}`. How the characters are escaped is
/// left to the name of the result.
#[verifier::external_body]
pub(crate) fn debug(text: &str) -> (res: String)
    ensures
        res@ == debug_text(text@),
{
    format!("{:?}", text)
}

/// What is shown of a command and its output.
pub open spec fn command_report(command: Seq<char>, output: OutputView) -> Seq<char> {
    debug_text(command) + " :\n    stdout: "@ + debug_text(decode_utf8(output.stdout))
        + "\n    stderr: "@ + debug_text(decode_utf8(output.stderr)) + "\n    ecode: "@
        + signed_decimal_of(reported_code(output.status)) + "\n"@
}

/// What is shown of commands and their outputs, pair by pair as far as there are both.
pub open spec fn commands_report(commands: Seq<Seq<char>>, outputs: Seq<OutputView>) -> Seq<char>
    decreases commands.len(),
{
    if commands.len() == 0 || outputs.len() == 0 {
        Seq::empty()
    } else {
        command_report(commands[0], outputs[0]) + commands_report(commands.skip(1), outputs.skip(1))
    }
}

/// Formats commands and outputs properly.
pub fn format_commands_outputs(commands: &Vec<String>, outputs: &Vec<Output>) -> (res: String)
    requires
        forall|i: int| 0 <= i < outputs.len() ==> (#[trigger] outputs@[i]).is_text(),
    ensures
        res@ == commands_report(texts(commands@), output_views(outputs@)),
{
    let mut res = String::new();
    let ghost cs = texts(commands@);
    let ghost os = output_views(outputs@);
    let mut i: usize = 0;
    assert(cs.skip(0) =~= cs);
    assert(os.skip(0) =~= os);
    assert(res@ + commands_report(cs, os) =~= commands_report(cs, os));
    while i < commands.len() && i < outputs.len()
        invariant
            i <= commands.len(),
            i <= outputs.len(),
            cs == texts(commands@),
            os == output_views(outputs@),
            forall|i: int| 0 <= i < outputs.len() ==> (#[trigger] outputs@[i]).is_text(),
            res@ + commands_report(cs.skip(i as int), os.skip(i as int)) == commands_report(cs, os),
        decreases commands.len() - i,
    {
        let ghost before = res@;
        let buf = OutputBuf::from_output(&outputs[i]);
        res.append(debug(commands[i].as_str()).as_str());
        res.append(" :\n    stdout: ");
        res.append(debug(buf.stdout.as_str()).as_str());
        res.append("\n    stderr: ");
        res.append(debug(buf.stderr.as_str()).as_str());
        res.append("\n    ecode: ");
        res.append(signed_decimal(buf.ecode as i64).as_str());
        res.append("\n");
        assert(cs.skip(i as int).skip(1) =~= cs.skip(i + 1));
        assert(os.skip(i as int).skip(1) =~= os.skip(i + 1));
        assert(res@ =~= before + command_report(cs[i as int], os[i as int]));
        assert(res@ + commands_report(cs.skip(i + 1), os.skip(i + 1)) =~= before
            + commands_report(cs.skip(i as int), os.skip(i as int)));
        i = i + 1;
    }
    assert(res@ + Seq::<char>::empty() =~= res@);
    res
}

//------------------------------------------------------------------------------------------ LAWS
/// A call that fails each time is made exactly as often as allowed: it is made again after each
/// attempt before the last one, and not after the last one.
pub proof fn attempts_are_used_up(
    attempt: usize,
    limit: usize,
    codes: Vec<i32>,
    code: i32,
    again: bool,
    again_ssh: bool,
)
    requires
        1 <= attempt <= limit,
        call_ensures(retry_n, (attempt, limit), again),
        call_ensures(retry_n_ssh, (attempt, limit, code, &codes), again_ssh),
    ensures
        again <==> attempt < limit,
        again_ssh <==> attempt < limit && exists|i: int| 0 <= i < codes.len() && codes@[i] == code,
{
    if codes@.contains(code) {
        let i = codes@.index_of(code);
        assert(codes@[i] == code);
    }
}

proof fn number_ends_at(s: Seq<char>, i: int, a: int, b: int)
    requires
        0 <= i < a <= s.len(),
        0 <= i < b <= s.len(),
        is_number(s.subrange(i, a)),
        is_number(s.subrange(i, b)),
        b < s.len() ==> !('0' <= s[b] <= '9'),
    ensures
        a <= b,
{
    if a > b {
        assert(s.subrange(i, a)[b - i] == s[b]);
    }
}

/// The version that is found is the one that stands in the text: three numbers with dots between
/// them, whatever stands before and behind them that is no digit.
pub proof fn version_is_found(
    text: &str,
    a: Seq<char>,
    x: Seq<char>,
    y: Seq<char>,
    z: Seq<char>,
    b: Seq<char>,
    res: Option<String>,
)
    requires
        call_ensures(find_version, (text,), res),
        text@ == a + x + seq!['.'] + y + seq!['.'] + z + b,
        forall|i: int| 0 <= i < a.len() ==> !('0' <= #[trigger] a[i] <= '9'),
        is_number(x) && is_number(y) && is_number(z),
        b.len() > 0 ==> !('0' <= b[0] <= '9'),
    ensures
        res is Some,
        res->Some_0@ == x + seq!['.'] + y + seq!['.'] + z,
{
    let s = text@;
    let i0 = a.len() as int;
    let a0 = i0 + x.len();
    let b0 = a0 + 1 + y.len();
    let j0 = b0 + 1 + z.len();
    assert(s.subrange(i0, a0) =~= x);
    assert(s.subrange(a0 + 1, b0) =~= y);
    assert(s.subrange(b0 + 1, j0) =~= z);
    assert(s[a0] == '.' && s[b0] == '.');
    assert(version_at(s, i0, j0));
    assert(has_version(s));
    assert forall|k: int| 0 <= k < i0 implies !('0' <= #[trigger] s[k] <= '9') by {
        assert(s[k] == a[k]);
    }
    assert(j0 < s.len() ==> s[j0] == b[0]);
    assert(s.subrange(i0, j0) =~= x + seq!['.'] + y + seq!['.'] + z);
    first_version_is(s, res->Some_0@, i0, a0, b0, j0);
}

proof fn first_version_is(s: Seq<char>, version: Seq<char>, i0: int, a0: int, b0: int, j0: int)
    requires
        is_first_version(s, version),
        version_at(s, i0, j0),
        forall|k: int| 0 <= k < i0 ==> !('0' <= #[trigger] s[k] <= '9'),
        0 <= i0 < a0 < b0 < j0 <= s.len(),
        is_number(s.subrange(i0, a0)),
        is_number(s.subrange(a0 + 1, b0)),
        is_number(s.subrange(b0 + 1, j0)),
        s[a0] == '.' && s[b0] == '.',
        j0 < s.len() ==> !('0' <= s[j0] <= '9'),
    ensures
        version == s.subrange(i0, j0),
{
    let (i, j) = choose|i: int, j: int|
        #![trigger s.subrange(i, j)]
        {
            &&& version_at(s, i, j)
            &&& version == s.subrange(i, j)
            &&& forall|k: int, l: int| #[trigger] version_at(s, k, l) ==> i <= k
            &&& j == s.len() || !('0' <= s[j] <= '9')
        };
    let (p, q) = choose|p: int, q: int|
        #![trigger s.subrange(i, p), s.subrange(p + 1, q)]
        0 <= i < p < q < j <= s.len() && is_number(s.subrange(i, p)) && s[p] == '.' && is_number(
            s.subrange(p + 1, q),
        ) && s[q] == '.' && is_number(s.subrange(q + 1, j));
    assert(s.subrange(i, p)[0] == s[i]);
    assert(i == i0);
    number_ends_at(s, i, p, a0);
    number_ends_at(s, i, a0, p);
    number_ends_at(s, p + 1, q, b0);
    number_ends_at(s, p + 1, b0, q);
    number_ends_at(s, q + 1, j, j0);
    number_ends_at(s, q + 1, j0, j);
}

/// The separator of a path that holds a name is the one before the name.
proof fn separator_before_name(dir: Seq<char>, name: Seq<char>)
    requires
        !name.contains('/'),
    ensures
        last_separator(dir + seq!['/'] + name) == dir.len(),
    decreases name.len(),
{
    let path = dir + seq!['/'] + name;
    if name.len() == 0 {
        assert(path.last() == '/');
    } else {
        let init = name.drop_last();
        assert(name[name.len() - 1] != '/');
        assert(path.drop_last() =~= dir + seq!['/'] + init);
        assert forall|i: int| 0 <= i < init.len() implies init[i] != '/' by {
            assert(name[i] != '/');
        }
        assert(!init.contains('/'));
        separator_before_name(dir, init);
    }
}

/// A name in a folder has this folder and this name.
pub proof fn folder_and_name(dir: Seq<char>, name: Seq<char>)
    requires
        name.len() > 0,
        !name.contains('/'),
    ensures
        file_name_of(dir + seq!['/'] + name) == name,
        dir.len() > 0 ==> folder_of(dir + seq!['/'] + name) == dir,
{
    let path = dir + seq!['/'] + name;
    separator_before_name(dir, name);
    assert(path.skip(dir.len() as int + 1) =~= name);
    if dir.len() > 0 {
        assert(path.take(dir.len() as int) =~= dir);
    }
}

/// A path is taken apart into its folder and its name, and its ancestors are itself and those of its
/// folder.
pub proof fn path_is_folder_and_name(
    path: &str,
    dir: Seq<char>,
    name: Seq<char>,
    folder: String,
    file: String,
)
    requires
        call_ensures(parent, (path,), folder),
        call_ensures(file_name, (path,), file),
        path@ == dir + seq!['/'] + name,
        name.len() > 0,
        !name.contains('/'),
    ensures
        file@ == name,
        folder@ == if dir.len() == 0 {
            seq!['/']
        } else {
            dir
        },
        ancestors_of(path@) == seq![path@] + ancestors_of(folder@),
        ancestors_of(seq!['/']) == seq![seq!['/']],
{
    separator_before_name(dir, name);
    assert(path@.skip(dir.len() as int + 1) =~= name);
    if dir.len() > 0 {
        assert(path@.take(dir.len() as int) =~= dir);
    }
}

/// The root of the repository is the nearest folder that is marked.
pub proof fn nearest_marked_folder_is_root(
    folders: &Vec<String>,
    marked: &Vec<bool>,
    i: int,
    res: Result<String, Error>,
)
    requires
        call_ensures(search_expegit_root, (folders, marked), res),
        folders.len() == marked.len(),
        0 <= i <= folders.len(),
        forall|j: int| 0 <= j < i ==> !#[trigger] marked@[j],
        i < folders.len() ==> marked@[i],
    ensures
        i < folders.len() ==> res is Ok && res->Ok_0@ == folders@[i]@,
        i == folders.len() ==> res == Err::<String, Error>(Error::InvalidRepository),
{
    if res is Ok {
        let k = choose|k: int|
            #![trigger marked@[k]]
            0 <= k < folders.len() && marked@[k] && res->Ok_0@ == folders@[k]@ && forall|j: int|
                0 <= j < k ==> !#[trigger] marked@[j];
        assert(marked@[k]);
        if i < k {
            assert(!marked@[i]);
        }
        assert(k == i);
    } else if i < folders.len() {
        assert(!none_marked(marked@)) by {
            assert(marked@[i]);
        }
    }
}

proof fn with_values_item(values: Seq<Seq<char>>, rest: Seq<Seq<char>>, i: int, k: int)
    requires
        0 <= i < values.len(),
        0 <= k < rest.len(),
    ensures
        0 <= i * rest.len() + k < with_values(values, rest).len(),
        with_values(values, rest)[i * rest.len() + k] == values[i] + seq![' '] + rest[k],
    decreases values.len(),
{
    let n = rest.len() as int;
    let init = values.drop_last();
    with_values_len(values, rest);
    with_values_len(init, rest);
    if i == values.len() - 1 {
        assert(with_values(init, rest).len() == i * n);
    } else {
        with_values_item(init, rest, i, k);
        assert(init[i] == values[i]);
    }
    assert(i * n + k < values.len() * n) by (nonlinear_arith)
        requires
            0 <= i < values.len(),
            0 <= k < n,
    ;
    assert(0 <= i * n) by (nonlinear_arith)
        requires
            0 <= i,
            0 <= n,
    ;
}

/// The combinations come in the order of the values: those of the first parameter change slowest. Each
/// is a value of the first parameter, a space, and a combination of the other ones; of the last
/// parameter it is the value itself, trimmed.
pub proof fn combinations_in_order(first: Seq<char>, others: Seq<Seq<char>>, i: int, k: int)
    requires
        0 <= i < split_on(first, ';').len(),
    ensures
        combinations(seq![first], 1).len() == split_on(first, ';').len(),
        combinations(seq![first], 1)[i] == trimmed(split_on(first, ';')[i]),
        others.len() > 0 && 0 <= k < combinations(others, 1).len() ==> {
            let n = combinations(others, 1).len();
            &&& 0 <= i * n + k < combinations(seq![first] + others, 1).len()
            &&& combinations(seq![first] + others, 1)[i * n + k] == split_on(first, ';')[i] + seq![
                ' ',
            ] + combinations(others, 1)[k]
        },
    decreases i,
{
    let values = split_on(first, ';');
    last_values_item(values, i);
    assert(combinations(seq![first], 1) == last_values(values, 1));
    if others.len() > 0 && 0 <= k < combinations(others, 1).len() {
        assert((seq![first] + others).skip(1) =~= others);
        assert((seq![first] + others)[0] == first);
        with_values_item(values, combinations(others, 1), i, k);
    }
}

proof fn last_values_item(values: Seq<Seq<char>>, i: int)
    requires
        0 <= i < values.len(),
    ensures
        last_values(values, 1).len() == values.len(),
        last_values(values, 1)[i] == trimmed(values[i]),
    decreases values.len(),
{
    let init = values.drop_last();
    last_values_len(values, 1);
    last_values_len(init, 1);
    if i < values.len() - 1 {
        last_values_item(init, i);
        assert(init[i] == values[i]);
    }
}

/// The parameters of a string are combined as the string says: its parameters stand between currency
/// signs, and the combinations are those of `combinations_in_order`, each as often as asked for.
pub proof fn parameters_string_is_combined(
    param_string: &str,
    first: Seq<char>,
    rest: Seq<char>,
    repeats: usize,
    res: Vec<String>,
)
    requires
        call_ensures(parse_parameters, (param_string, repeats), res),
        !first.contains('\u{a4}'),
        !rest.contains('\u{a4}'),
    ensures
        texts(res@) == combinations(split_on(param_string@, '\u{a4}'), repeats as nat),
        param_string@ == first ==> texts(res@) == combinations(seq![first], repeats as nat),
        param_string@ == first + seq!['\u{a4}'] + rest ==> texts(res@) == combinations(
            seq![first, rest],
            repeats as nat,
        ),
{
    crate::text::split_of_pieces(first, '\u{a4}', rest);
    crate::text::split_of_pieces(first, '\u{a4}', first);
    assert(seq![first].push(rest) =~= seq![first, rest]);
}

/// The host name is made of what the two commands wrote, without their line feeds.
pub proof fn hostname_is_user_at_host(
    user: &str,
    host: &str,
    u: Seq<char>,
    h: Seq<char>,
    res: String,
)
    requires
        call_ensures(get_hostname, (user, host), res),
        user@ == u + seq!['\n'],
        host@ == h + seq!['\n'],
        !u.contains('\n'),
        !h.contains('\n'),
    ensures
        res@ == u + seq!['@'] + h,
{
    reveal_strlit("@");
    crate::text::other_characters_are_kept(u, '\n');
    crate::text::other_characters_are_kept(h, '\n');
    assert(user@.drop_last() =~= u);
    assert(host@.drop_last() =~= h);
    assert("@"@ =~= seq!['@']);
}

/// One more output adds what it holds at the end, and its status is the one that is kept.
pub proof fn one_more_output_is_added(
    first: Vec<Output>,
    all: Vec<Output>,
    one: Output,
    before: Output,
    after: Output,
)
    requires
        call_ensures(compact_outputs, (first,), before),
        call_ensures(compact_outputs, (all,), after),
        all@ == first@.push(one),
    ensures
        after.stdout@ == before.stdout@ + one.stdout@,
        after.stderr@ == before.stderr@ + one.stderr@,
        after.status.raw == one.status.raw,
        first.len() == 0 ==> before.stdout.len() == 0 && before.stderr.len() == 0
            && before.status.raw == 0,
{
    assert(output_views(all@).drop_last() =~= output_views(first@));
    assert(output_views(all@).last() == one@);
}

#[verifier::spinoff_prover]
proof fn report_grows(
    commands: Seq<Seq<char>>,
    outputs: Seq<OutputView>,
    command: Seq<char>,
    output: OutputView,
)
    requires
        commands.len() == outputs.len(),
    ensures
        commands_report(commands.push(command), outputs.push(output)) == commands_report(
            commands,
            outputs,
        ) + command_report(command, output),
    decreases commands.len(),
{
    let c = commands.push(command);
    let o = outputs.push(output);
    let one = command_report(command, output);
    if commands.len() == 0 {
        assert(c.skip(1).len() == 0);
        assert(commands_report(c.skip(1), o.skip(1)) == Seq::<char>::empty());
        assert(c[0] == command && o[0] == output);
        assert(commands_report(commands, outputs) == Seq::<char>::empty());
        assert(one + Seq::<char>::empty() =~= Seq::<char>::empty() + one);
    } else {
        assert(c.skip(1) =~= commands.skip(1).push(command));
        assert(o.skip(1) =~= outputs.skip(1).push(output));
        report_grows(commands.skip(1), outputs.skip(1), command, output);
        let rest = commands_report(commands.skip(1), outputs.skip(1));
        let first = command_report(commands[0], outputs[0]);
        assert(c[0] == commands[0] && o[0] == outputs[0]);
        assert(first + (rest + one) =~= (first + rest) + one);
    }
}

/// What is shown of one more command is added at the end: the command, its two streams and its exit
/// code.
#[verifier::spinoff_prover]
pub proof fn commands_are_shown_in_order(
    commands: &Vec<String>,
    outputs: &Vec<Output>,
    more_commands: &Vec<String>,
    more_outputs: &Vec<Output>,
    command: String,
    output: Output,
    before: String,
    after: String,
)
    requires
        call_ensures(format_commands_outputs, (commands, outputs), before),
        call_ensures(format_commands_outputs, (more_commands, more_outputs), after),
        commands.len() == outputs.len(),
        more_commands@ == commands@.push(command),
        more_outputs@ == outputs@.push(output),
    ensures
        after@ == before@ + (debug_text(command@) + " :\n    stdout: "@ + debug_text(
            decode_utf8(output.stdout@),
        ) + "\n    stderr: "@ + debug_text(decode_utf8(output.stderr@)) + "\n    ecode: "@
            + signed_decimal_of(reported_code(output.status.raw)) + "\n"@),
        commands.len() == 0 ==> before@.len() == 0,
{
    assert(texts(more_commands@) =~= texts(commands@).push(command@));
    assert(output_views(more_outputs@) =~= output_views(outputs@).push(output@));
    report_grows(texts(commands@), output_views(outputs@), command@, output@);
}

/// What an error says: what failed, and the reason that it holds.
pub proof fn errors_say_what_failed(error: Error, said: String)
    requires
        call_ensures(Error::message, (&error,), said),
    ensures
        error is InvalidRepository ==> said@ == "Invalid expegit repository"@,
        error is Unknown ==> said@ == "Unknown error occured"@,
{
}

/// The codes that say that a call would block are those two of the ssh library, and a call is made
/// again where its code is one of those that are given.
pub proof fn blocking_codes_are_known(code: i32, codes: &Vec<i32>, blocks: bool, again: bool)
    requires
        call_ensures(is_wouldblock_ssh, (code,), blocks),
        call_ensures(retry_ssh, (code, codes), again),
    ensures
        blocks <==> code == -37 || code == -21,
        again <==> exists|i: int| 0 <= i < codes.len() && codes@[i] == code,
{
    if codes@.contains(code) {
        let i = codes@.index_of(code);
        assert(codes@[i] == code);
    }
}

/// The root of a repository is marked by the configuration of a campaign or by an empty file of its
/// own; it is looked for from the start upwards.
pub proof fn roots_are_marked(
    folder: &str,
    start: &str,
    markers: (String, String),
    searched: Vec<String>,
)
    requires
        call_ensures(root_markers, (folder,), markers),
        call_ensures(ancestors, (start,), searched),
        folder@.len() > 0,
        folder@.last() != '/',
    ensures
        markers.0@ == folder@ + "/.cmpconf"@,
        markers.1@ == folder@ + "/.expegit"@,
        texts(searched@) == ancestors_of(start@),
{
    reveal_strlit(".cmpconf");
    reveal_strlit("/.cmpconf");
    reveal_strlit(".expegit");
    reveal_strlit("/.expegit");
    crate::text::paths_are_joined(folder@, ".cmpconf"@);
    crate::text::paths_are_joined(folder@, ".expegit"@);
    assert(markers.0@ =~= folder@ + "/.cmpconf"@);
    assert(markers.1@ =~= folder@ + "/.expegit"@);
}

/// The version of git is found in what git wrote, and that of its extension in what the extension
/// wrote.
pub proof fn versions_are_those_of_their_programs(
    git: &str,
    lfs: &str,
    res: (String, String),
)
    requires
        call_ensures(check_git_lfs_versions, (git, lfs), res),
    ensures
        is_first_version(git@, res.0@),
        is_first_version(lfs@, res.1@),
{
}

} // verus!
