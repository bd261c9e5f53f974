//! The official Codex program: its configuration, its arguments and where it is
//! looked for.

use vstd::prelude::*;

use crate::text;
use crate::text::same;

verus! {

/// Whether a line opens a table.
pub open spec fn opens_table_v(line: Seq<char>) -> bool {
    text::starts_v(text::trim_start_v(line), "["@)
}

/// The number of lines that stand before the first table.
pub open spec fn root_lines_v(lines: Seq<Seq<char>>) -> int
    decreases lines.len(),
{
    if lines.len() == 0 || opens_table_v(lines[0]) {
        0
    } else {
        1 + root_lines_v(lines.skip(1))
    }
}

/// Whether a line sets `key`.
pub open spec fn sets_v(line: Seq<char>, key: Seq<char>) -> bool {
    match text::strip_v(text::trim_start_v(line), key) {
        Some(rest) => text::starts_v(text::trim_start_v(rest), "="@),
        None => false,
    }
}

/// The first of `n` lines that sets `key`, from the line `i` on.
pub open spec fn setting_v(lines: Seq<Seq<char>>, n: int, key: Seq<char>, i: int) -> Option<int>
    decreases n - i,
{
    if i >= n {
        None
    } else if sets_v(lines[i], key) {
        Some(i)
    } else {
        setting_v(lines, n, key, i + 1)
    }
}

pub open spec fn assignment_v(key: Seq<char>, value: Seq<char>) -> Seq<char> {
    key + " = "@ + value
}

/// A line that sets `key`, with the indent of `line`.
pub open spec fn reset_v(line: Seq<char>, key: Seq<char>, value: Seq<char>) -> Seq<char> {
    line.take(line.len() - text::trim_start_v(line).len()) + assignment_v(key, value)
}

/// The lines in which `key` is set to `value`: where it was set before the
/// first table, else in a line of its own before that table.
pub open spec fn set_v(lines: Seq<Seq<char>>, n: int, key: Seq<char>, value: Seq<char>) -> Seq<
    Seq<char>,
> {
    match setting_v(lines, n, key, 0) {
        Some(i) => lines.update(i, reset_v(lines[i], key, value)),
        None => lines.insert(n, assignment_v(key, value)),
    }
}

/// The configuration in which credentials are kept in a file and come from
/// ChatGPT. What is in tables stays as it is.
pub open spec fn auth_config_v(original: Seq<char>) -> Seq<char> {
    let lines = text::lines_v(original);
    let n = root_lines_v(lines);
    let first = set_v(lines, n, "cli_auth_credentials_store"@, "\"file\""@);
    let second = set_v(first, n, "forced_login_method"@, "\"chatgpt\""@);
    text::join_v(second, "\n"@) + "\n"@
}

proof fn root_within(lines: Seq<Seq<char>>)
    ensures
        0 <= root_lines_v(lines) <= lines.len(),
    decreases lines.len(),
{
    if lines.len() > 0 && !opens_table_v(lines[0]) {
        root_within(lines.skip(1));
    }
}

fn root_lines(lines: &Vec<String>) -> (r: usize)
    ensures
        r == root_lines_v(text::views(lines@)),
        r <= lines@.len(),
{
    let ghost all = text::views(lines@);
    let mut i: usize = 0;
    assert(all.skip(0) =~= all);
    while i < lines.len() && !text::starts_with(&text::trim_start(&lines[i]), "[")
        invariant
            i <= lines@.len(),
            all == text::views(lines@),
            root_lines_v(all) == i + root_lines_v(all.skip(i as int)),
        decreases lines@.len() - i,
    {
        proof {
            assert(all.skip(i as int)[0] == lines@[i as int]@);
            assert(all.skip(i as int).skip(1) =~= all.skip(i + 1));
        }
        i += 1;
    }
    proof {
        if i < lines@.len() {
            assert(all.skip(i as int)[0] == lines@[i as int]@);
        }
    }
    i
}

fn sets(line: &str, key: &str) -> (r: bool)
    ensures
        r == sets_v(line@, key@),
{
    match text::strip_prefix(&text::trim_start(line), key) {
        Some(rest) => text::starts_with(&text::trim_start(&rest), "="),
        None => false,
    }
}

fn assignment(key: &str, value: &str) -> (r: String)
    ensures
        r@ == assignment_v(key@, value@),
{
    text::cat3(key, " = ", value)
}

proof fn trim_start_shorter(s: Seq<char>)
    ensures
        text::trim_start_v(s).len() <= s.len(),
    decreases s.len(),
{
    if s.len() > 0 && text::is_space(s[0]) {
        trim_start_shorter(s.skip(1));
    }
}

fn reset(line: &str, key: &str, value: &str) -> (r: String)
    ensures
        r@ == reset_v(line@, key@, value@),
{
    let whole = text::chars_of(line);
    let trimmed = text::chars_of(&text::trim_start(line));
    proof {
        trim_start_shorter(line@);
    }
    let n: usize = whole.len() - trimmed.len();
    assert(whole@.subrange(0, n as int) =~= line@.take(n as int));
    text::cat(&text::string_of(&whole, 0, n), &assignment(key, value))
}

fn set(lines: &mut Vec<String>, n: usize, key: &str, value: &str)
    requires
        n <= old(lines)@.len(),
    ensures
        text::views(final(lines)@) == set_v(text::views(old(lines)@), n as int, key@, value@),
        final(lines)@.len() >= old(lines)@.len(),
{
    let ghost all = text::views(lines@);
    let mut i: usize = 0;
    while i < n
        invariant
            i <= n <= lines@.len(),
            lines@.len() == old(lines)@.len(),
            all == text::views(lines@),
            all == text::views(old(lines)@),
            setting_v(all, n as int, key@, 0) == setting_v(all, n as int, key@, i as int),
        decreases n - i,
    {
        assert(all[i as int] == lines@[i as int]@);
        if sets(&lines[i], key) {
            let line = reset(&lines[i], key, value);
            proof {
                assert(text::views(lines@.update(i as int, line)) =~= all.update(i as int, line@));
            }
            lines.set(i, line);
            return;
        }
        i += 1;
    }
    let line = assignment(key, value);
    proof {
        assert(text::views(lines@.insert(n as int, line)) =~= all.insert(n as int, line@));
    }
    lines.insert(n, line);
}

/// The configuration in which credentials are kept in a file and come from
/// ChatGPT.
pub fn auth_config(original: &str) -> (r: String)
    ensures
        r@ == auth_config_v(original@),
{
    let mut lines = text::lines(original);
    let n: usize = root_lines(&lines);
    set(&mut lines, n, "cli_auth_credentials_store", "\"file\"");
    set(&mut lines, n, "forced_login_method", "\"chatgpt\"");
    text::cat(&text::join(&lines, "\n"), "\n")
}

/// What stands in tables, and what it opens with, stays as it is, in its order,
/// at the end.
pub proof fn tables_are_kept(lines: Seq<Seq<char>>, key: Seq<char>, value: Seq<char>)
    ensures
        ({
            let n = root_lines_v(lines);
            let after = set_v(lines, n, key, value);
            &&& after.len() >= lines.len()
            &&& after.skip(after.len() - (lines.len() - n)) == lines.skip(n)
        }),
{
    let n = root_lines_v(lines);
    root_within(lines);
    setting_within(lines, n, key, 0);
    let after = set_v(lines, n, key, value);
    assert(after.skip(after.len() - (lines.len() - n)) =~= lines.skip(n));
}

proof fn setting_within(lines: Seq<Seq<char>>, n: int, key: Seq<char>, i: int)
    requires
        0 <= i <= n,
    ensures
        setting_v(lines, n, key, i) matches Some(k) ==> i <= k < n,
    decreases n - i,
{
    if i < n && !sets_v(lines[i], key) {
        setting_within(lines, n, key, i + 1);
    }
}

/// What the user asks of Codex.
#[derive(Clone, Copy, Debug, PartialEq, Eq, Structural)]
pub enum AuthAction {
    Login,
    Device,
    Status,
    Logout,
}

pub open spec fn auth_args_v(action: AuthAction) -> Seq<Seq<char>> {
    match action {
        AuthAction::Login => seq!["login"@],
        AuthAction::Device => seq!["login"@, "--device-auth"@],
        AuthAction::Status => seq!["login"@, "status"@],
        AuthAction::Logout => seq!["logout"@],
    }
}

/// The arguments with which Codex is run.
pub fn auth_args(action: AuthAction) -> (r: Vec<String>)
    ensures
        text::views(r@) == auth_args_v(action),
{
    let mut out: Vec<String> = Vec::new();
    match action {
        AuthAction::Login => {
            out.push(text::owned("login"));
        },
        AuthAction::Device => {
            out.push(text::owned("login"));
            out.push(text::owned("--device-auth"));
        },
        AuthAction::Status => {
            out.push(text::owned("login"));
            out.push(text::owned("status"));
        },
        AuthAction::Logout => {
            out.push(text::owned("logout"));
        },
    }
    assert(text::views(out@) =~= auth_args_v(action));
    out
}

/// Why Codex was not run.
pub fn binary_missing(binary: &str) -> (r: String)
    ensures
        r@ == "official `"@ + binary@ + "` CLI not found in PATH"@,
{
    text::cat3("official `", binary, "` CLI not found in PATH")
}

/// Why Codex did not do what was asked.
pub fn run_failed(args: &Vec<String>) -> (r: String)
    ensures
        r@ == "codex "@ + text::join_v(text::views(args@), " "@) + " failed"@,
{
    text::cat3("codex ", &text::join(args, " "), " failed")
}

/// A part of a path that is a component of it: not an empty one, and a point
/// only at the beginning.
pub open spec fn component_v(parts: Seq<Seq<char>>, i: int) -> bool {
    parts[i].len() > 0 && (parts[i] != "."@ || i == 0)
}

pub open spec fn components_of_v(parts: Seq<Seq<char>>, n: int) -> nat
    decreases n,
{
    if n <= 0 {
        0
    } else {
        components_of_v(parts, n - 1) + (if component_v(parts, n - 1) {
            1nat
        } else {
            0nat
        })
    }
}

/// The number of components of a path: of its parts, and the root.
pub open spec fn components_v(path: Seq<char>) -> nat {
    let parts = text::split_v(path, '/');
    components_of_v(parts, parts.len() as int) + (if text::starts_v(path, "/"@) {
        1nat
    } else {
        0nat
    })
}

/// A file name put to a directory.
pub open spec fn joined_v(directory: Seq<char>, name: Seq<char>) -> Seq<char> {
    if directory.len() == 0 || text::starts_v(name, "/"@) {
        name
    } else if text::ends_v(directory, "/"@) {
        directory + name
    } else {
        directory + "/"@ + name
    }
}

/// Where a program is looked for: a path is taken as it is, a name is looked
/// for in the directories of the search path.
pub open spec fn places_v(name: Seq<char>, search: Option<Seq<char>>) -> Seq<Seq<char>> {
    if components_v(name) > 1 {
        seq![name]
    } else {
        match search {
            None => Seq::empty(),
            Some(path) => text::split_v(path, ':').map_values(|d: Seq<char>| joined_v(d, name)),
        }
    }
}

fn components(path: &str) -> (r: usize)
    ensures
        r > 1 <==> components_v(path@) > 1,
{
    let parts = text::split(path, '/');
    let ghost all = text::views(parts@);
    let rooted = text::starts_with(path, "/");
    let mut n: usize = 0;
    let mut i: usize = 0;
    while i < parts.len()
        invariant
            i <= parts@.len(),
            n <= i,
            all == text::views(parts@),
            n == components_of_v(all, i as int),
        decreases parts@.len() - i,
    {
        assert(all[i as int] == parts@[i as int]@);
        if !parts[i].as_str().is_empty() && (!same(&parts[i], ".") || i == 0) {
            n += 1;
        }
        i += 1;
    }
    assert(all.len() == parts@.len());
    if rooted && n > 0 {
        2
    } else {
        n
    }
}

fn joined(directory: &str, name: &str) -> (r: String)
    ensures
        r@ == joined_v(directory@, name@),
{
    if directory.is_empty() || text::starts_with(name, "/") {
        text::owned(name)
    } else if text::ends_with(directory, "/") {
        text::cat(directory, name)
    } else {
        text::cat3(directory, "/", name)
    }
}

/// Where a program is looked for, in this order.
pub fn binary_places(name: &str, search: Option<&str>) -> (r: Vec<String>)
    ensures
        text::views(r@) == places_v(name@, crate::json::opt_str(search)),
{
    let mut out: Vec<String> = Vec::new();
    if components(name) > 1 {
        out.push(text::owned(name));
        assert(text::views(out@) =~= seq![name@]);
        return out;
    }
    let ghost all = places_v(name@, crate::json::opt_str(search));
    assert(text::views(out@) =~= all.take(0));
    if let Some(path) = search {
        let directories = text::split(path, ':');
        let ghost parts = text::views(directories@);
        let mut i: usize = 0;
        while i < directories.len()
            invariant
                i <= directories@.len(),
                parts == text::views(directories@),
                parts == text::split_v(path@, ':'),
                all == parts.map_values(|d: Seq<char>| joined_v(d, name@)),
                text::views(out@) == all.take(i as int),
            decreases directories@.len() - i,
        {
            assert(parts[i as int] == directories@[i as int]@);
            let place = joined(&directories[i], name);
            proof {
                assert(all.take(i + 1) =~= all.take(i as int).push(all[i as int]));
                assert(text::views(out@.push(place)) =~= text::views(out@).push(place@));
            }
            out.push(place);
            i += 1;
        }
    }
    assert(all.take(all.len() as int) =~= all);
    assert(text::views(out@) =~= all);
    out
}

/// A setting stands before the first table, with its value, and no other line is
/// lost or changed.
pub proof fn settings_are_written(lines: Seq<Seq<char>>, key: Seq<char>, value: Seq<char>) -> (at: int)
    ensures
        ({
            let n = root_lines_v(lines);
            let after = set_v(lines, n, key, value);
            &&& 0 <= at <= n
            &&& at < after.len()
            &&& text::ends_v(after[at], key + " = "@ + value)
            &&& after.len() == lines.len() ==> at < n && sets_v(lines[at], key) && after.remove(at)
                == lines.remove(at)
            &&& after.len() != lines.len() ==> after.remove(at) == lines && forall|i: int|
                0 <= i < n ==> !sets_v(#[trigger] lines[i], key)
        }),
{
    let n = root_lines_v(lines);
    root_within(lines);
    setting_within(lines, n, key, 0);
    let after = set_v(lines, n, key, value);
    let set = key + " = "@ + value;
    match setting_v(lines, n, key, 0) {
        Some(i) => {
            setting_sets(lines, n, key, 0);
            let indent = lines[i].take(lines[i].len() - text::trim_start_v(lines[i]).len());
            trim_start_shorter(lines[i]);
            assert(after[i] == indent + set);
            assert(after[i].skip(after[i].len() - set.len()) =~= set);
            assert(after.remove(i) =~= lines.remove(i));
            i
        },
        None => {
            setting_sets(lines, n, key, 0);
            assert(after[n] == set);
            assert(set.skip(0) =~= set);
            assert(after.remove(n) =~= lines);
            n
        },
    }
}

proof fn setting_sets(lines: Seq<Seq<char>>, n: int, key: Seq<char>, i: int)
    requires
        0 <= i <= n,
    ensures
        setting_v(lines, n, key, i) matches Some(k) ==> sets_v(lines[k], key),
        setting_v(lines, n, key, i) is None ==> forall|j: int|
            i <= j < n ==> !sets_v(#[trigger] lines[j], key),
    decreases n - i,
{
    if i < n && !sets_v(lines[i], key) {
        setting_sets(lines, n, key, i + 1);
    }
}

} // verus!
