//! Paths and the search path: making a path absolute, and the text work
//! behind reading and extending a list of directories.

use crate::text::{chars_of, join2, join3, same_span};
use vstd::prelude::*;
use vstd::string::*;

verus! {

/// The character that separates the directories of a search path.
pub const SEPARATOR: char = ';';

/// The marker that the operating system puts before a path to say that it
/// is to be taken word for word.
pub open spec fn verbatim_prefix() -> Seq<char> {
    seq!['\\', '\\', '?', '\\']
}

/// A path without the verbatim marker in front of it, if it had one.
pub open spec fn without_verbatim_prefix(path: Seq<char>) -> Seq<char> {
    if path.len() >= 4 && path.subrange(0, 4) == verbatim_prefix() {
        path.subrange(4, path.len() as int)
    } else {
        path
    }
}

/// What resolving a path gave: `Ok(Some(..))` with the resolved path,
/// `Ok(None)` if the resolved path is no valid text, `Err(..)` with the
/// reason if the path could not be resolved.
pub open spec fn absolute_path_of(resolved: Result<Option<Seq<char>>, Seq<char>>) -> Result<
    Seq<char>,
    Seq<char>,
> {
    match resolved {
        Ok(Some(path)) => Ok(without_verbatim_prefix(path)),
        Ok(None) => Err("Failed to convert path to string"@),
        Err(reason) => Err("Failed to get absolute path: "@ + reason),
    }
}

/// The error for a path that does not exist.
pub open spec fn missing_path(path: Seq<char>) -> Seq<char> {
    "Path "@ + path + " does not exist"@
}

/// The text of a result.
pub open spec fn text_of(result: Result<String, String>) -> Result<Seq<char>, Seq<char>> {
    match result {
        Ok(text) => Ok(text@),
        Err(text) => Err(text@),
    }
}

/// The text of what resolving a path gave.
pub open spec fn resolved_text(resolved: Result<Option<String>, String>) -> Result<
    Option<Seq<char>>,
    Seq<char>,
> {
    match resolved {
        Ok(Some(path)) => Ok(Some(path@)),
        Ok(None) => Ok(None),
        Err(reason) => Err(reason@),
    }
}

/// Asks the file system whether anything exists at `path`, with
/// `std::path::Path::exists`. The answer depends on the file system, so
/// nothing is claimed of it.
#[verifier::external_body]
fn path_exists(path: &str) -> bool {
    std::path::Path::new(path).exists()
}

/// Resolves `path` against the file system with
/// `std::path::Path::canonicalize`, and hands the result over as text. The
/// result depends on the file system, so nothing is claimed of it.
#[verifier::external_body]
fn canonicalize(path: &str) -> Result<Option<String>, String> {
    match std::path::Path::new(path).canonicalize() {
        Ok(resolved) => Ok(resolved.to_str().map(String::from)),
        Err(error) => Err(error.to_string()),
    }
}

/// Removes the verbatim marker from the front of a path, if it is there.
pub fn strip_verbatim_prefix(path: &str) -> (stripped: String)
    ensures
        stripped@ == without_verbatim_prefix(path@),
{
    let len = path.unicode_len();
    if len >= 4 && path.get_char(0) == '\\' && path.get_char(1) == '\\' && path.get_char(2) == '?'
        && path.get_char(3) == '\\' {
        assert(path@.subrange(0, 4) =~= verbatim_prefix());
        String::from_str(path.substring_char(4, len))
    } else {
        assert(path@.len() >= 4 ==> path@.subrange(0, 4)[0] == path@[0] && path@.subrange(0, 4)[1]
            == path@[1] && path@.subrange(0, 4)[2] == path@[2] && path@.subrange(0, 4)[3]
            == path@[3]);
        String::from_str(path)
    }
}

/// Turns what resolving a path gave into the absolute path, or into the
/// error that says what went wrong.
pub fn absolute_path_from(resolved: Result<Option<String>, String>) -> (result: Result<
    String,
    String,
>)
    ensures
        text_of(result) == absolute_path_of(resolved_text(resolved)),
{
    match resolved {
        Ok(Some(path)) => Ok(strip_verbatim_prefix(path.as_str())),
        Ok(None) => Err(String::from_str("Failed to convert path to string")),
        Err(reason) => Err(join2("Failed to get absolute path: ", reason.as_str())),
    }
}

/// What making a path absolute comes to, from what the file system said:
/// whether anything exists at the path, and what resolving it gave. A path
/// where nothing exists is an error whatever resolving gave.
pub open spec fn absolute_path_given(
    path: Seq<char>,
    found: bool,
    resolved: Result<Option<Seq<char>>, Seq<char>>,
) -> Result<Seq<char>, Seq<char>> {
    if found {
        absolute_path_of(resolved)
    } else {
        Err(missing_path(path))
    }
}

/// Turns what the file system said of `relative_path` into its absolute
/// form or into the error that says what went wrong: `found` is whether
/// anything exists there, `resolved` what resolving it gave. The result is
/// `Ok` exactly when something exists there and it resolved to valid text.
pub fn absolute_path_with(
    relative_path: &str,
    found: bool,
    resolved: Result<Option<String>, String>,
) -> (result: Result<String, String>)
    ensures
        text_of(result) == absolute_path_given(relative_path@, found, resolved_text(resolved)),
        result is Ok <==> found && resolved matches Ok(Some(_)),
{
    if found {
        absolute_path_from(resolved)
    } else {
        Err(join3("Path ", relative_path, " does not exist"))
    }
}

/// The absolute form of a path that exists, without the verbatim marker. A
/// path that does not exist, cannot be resolved, or resolves to something
/// that is no valid text gives the error that says so. Which of these holds
/// is for the file system to say: the result is what `absolute_path_with`
/// makes of its two answers.
pub fn get_absolute_path(relative_path: &str) -> (result: Result<String, String>)
    ensures
        exists|found: bool, resolved: Result<Option<Seq<char>>, Seq<char>>|
            text_of(result) == absolute_path_given(relative_path@, found, resolved),
{
    let found = path_exists(relative_path);
    let resolved = canonicalize(relative_path);
    let ghost answer = resolved_text(resolved);
    let result = absolute_path_with(relative_path, found, resolved);
    assert(text_of(result) == absolute_path_given(relative_path@, found, answer));
    result
}

/// The script that adds `dir` to the user's search path for good, unless it
/// is there already.
pub open spec fn permanent_path_script_of(dir: Seq<char>) -> Seq<char> {
    "if (([Environment]::GetEnvironmentVariable('PATH', 'User') -split ';') -notcontains '"@
        + dir + "') { $newPath = [Environment]::GetEnvironmentVariable('PATH', 'User') + ';"@ + dir
        + "'; [Environment]::SetEnvironmentVariable('PATH', $newPath, 'User') }"@
}

/// The command line that runs that script.
pub open spec fn permanent_path_command_of(dir: Seq<char>) -> Seq<char> {
    "powershell -NoProfile -ExecutionPolicy Bypass -Command \""@ + permanent_path_script_of(dir)
        + "\""@
}

/// The script that adds `dir` to the user's search path for good.
pub fn permanent_path_script(dir: &str) -> (script: String)
    ensures
        script@ == permanent_path_script_of(dir@),
{
    let mut script = join3(
        "if (([Environment]::GetEnvironmentVariable('PATH', 'User') -split ';') -notcontains '",
        dir,
        "') { $newPath = [Environment]::GetEnvironmentVariable('PATH', 'User') + ';",
    );
    script.append(dir);
    script.append("'; [Environment]::SetEnvironmentVariable('PATH', $newPath, 'User') }");
    script
}

/// The command line that a user can run to add `dir` to the search path for
/// good.
pub fn get_permanent_path_command(dir: &str) -> (command: String)
    ensures
        command@ == permanent_path_command_of(dir@),
{
    let script = permanent_path_script(dir);
    join3("powershell -NoProfile -ExecutionPolicy Bypass -Command \"", script.as_str(), "\"")
}

/// Whether `dir` stands in `list` at place `at` as a whole entry: it starts
/// at the beginning or just after a separator, and ends at the end or just
/// before one.
pub open spec fn entry_at(list: Seq<char>, dir: Seq<char>, at: int) -> bool {
    &&& 0 <= at <= list.len() - dir.len()
    &&& list.subrange(at, at + dir.len()) == dir
    &&& at == 0 || list[at - 1] == SEPARATOR
    &&& at + dir.len() == list.len() || list[at + dir.len()] == SEPARATOR
}

/// Whether `dir` is one of the entries of the search path `list`. An entry
/// holds no separator.
pub open spec fn is_entry(list: Seq<char>, dir: Seq<char>) -> bool {
    &&& !dir.contains(SEPARATOR)
    &&& exists|at: int| entry_at(list, dir, at)
}

/// The search path `list` with `dir` added at its end.
pub open spec fn extended_path_of(list: Seq<char>, dir: Seq<char>) -> Seq<char> {
    if list.len() == 0 {
        dir
    } else {
        list + seq![SEPARATOR] + dir
    }
}

/// Whether `dir` is one of the directories of the search path `list`.
pub fn path_list_contains(list: &str, dir: &str) -> (found: bool)
    ensures
        found == is_entry(list@, dir@),
{
    let all = chars_of(list);
    let wanted = chars_of(dir);
    let mut start: usize = 0;
    let mut i: usize = 0;
    while i < all.len()
        invariant
            all@ == list@,
            wanted@ == dir@,
            start <= i <= all@.len(),
            start == 0 || all@[start - 1] == SEPARATOR,
            forall|j: int| start <= j < i ==> all@[j] != SEPARATOR,
            forall|at: int|
                entry_at(all@, wanted@, at) && !wanted@.contains(SEPARATOR) ==> at >= start,
        decreases all@.len() - i,
    {
        if all[i] == SEPARATOR {
            if same_span(&all, start, i, &wanted) {
                proof {
                    lemma_span_is_entry(all@, wanted@, start as int, i as int);
                }
                return true;
            }
            proof {
                assert forall|at: int|
                    entry_at(all@, wanted@, at) && !wanted@.contains(SEPARATOR) implies at >= i
                    + 1 by {
                    lemma_entry_is_span(all@, wanted@, start as int, i as int, at);
                }
            }
            start = i + 1;
        }
        i += 1;
    }
    let found = same_span(&all, start, i, &wanted);
    proof {
        if found {
            lemma_span_is_entry(all@, wanted@, start as int, i as int);
        } else {
            assert forall|at: int|
                !(entry_at(all@, wanted@, at) && !wanted@.contains(SEPARATOR)) by {
                if entry_at(all@, wanted@, at) && !wanted@.contains(SEPARATOR) {
                    lemma_entry_is_span(all@, wanted@, start as int, i as int, at);
                }
            }
        }
    }
    found
}

/// A stretch of the list between two separators, with none inside, that
/// reads `dir` is an entry.
proof fn lemma_span_is_entry(list: Seq<char>, dir: Seq<char>, start: int, end: int)
    requires
        0 <= start <= end <= list.len(),
        start == 0 || list[start - 1] == SEPARATOR,
        end == list.len() || list[end] == SEPARATOR,
        forall|j: int| start <= j < end ==> list[j] != SEPARATOR,
        list.subrange(start, end) == dir,
    ensures
        is_entry(list, dir),
{
    assert(entry_at(list, dir, start));
    assert forall|k: int| 0 <= k < dir.len() implies dir[k] != SEPARATOR by {
        assert(dir[k] == list.subrange(start, end)[k]);
    }
}

/// An entry that starts at or after `start` and is free of separators
/// either is the stretch from `start` to `end` or starts after `end`.
proof fn lemma_entry_is_span(list: Seq<char>, dir: Seq<char>, start: int, end: int, at: int)
    requires
        0 <= start <= end <= list.len(),
        forall|j: int| start <= j < end ==> list[j] != SEPARATOR,
        end == list.len() || list[end] == SEPARATOR,
        entry_at(list, dir, at),
        !dir.contains(SEPARATOR),
        at >= start,
        list.subrange(start, end) != dir,
    ensures
        at > end,
{
    if at <= end {
        // The entry starts inside the stretch, so at its very beginning.
        if at > start {
            assert(list[at - 1] != SEPARATOR);
        }
        assert(at == start);
        let stop = at + dir.len();
        if stop < end {
            assert(list[stop] != SEPARATOR);
        }
        if stop > end {
            assert(dir[end - at] == list.subrange(at, stop)[end - at]);
            assert(dir.contains(list[end]));
        }
        assert(stop == end);
    }
}

/// The search path `list` with `dir` added at its end.
pub fn extended_path(list: &str, dir: &str) -> (path: String)
    ensures
        path@ == extended_path_of(list@, dir@),
{
    if list.unicode_len() == 0 {
        String::from_str(dir)
    } else {
        proof {
            reveal_strlit(";");
        }
        assert(";"@ =~= seq![SEPARATOR]);
        join3(list, ";", dir)
    }
}

} // verus!
