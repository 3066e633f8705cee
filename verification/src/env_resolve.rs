//! Environment resolution from a login shell's sentinel-tagged output.
//!
//! Desktop-launched processes often inherit an incomplete PATH. At startup
//! the host runs the user's login shell with a probe command that prints one
//! sentinel-prefixed line per variable of interest; the functions here choose
//! that invocation, parse the captured output, and merge the parsed values
//! into the previously-active environment without ever clobbering a working
//! value with a blank one. Running the shell and writing the live process
//! environment are the caller's work; everything decided about them is here.

use vstd::prelude::*;

verus! {

/// The platforms whose login shells need different invocations.
#[derive(Clone, Copy, PartialEq, Eq, Structural)]
pub enum Platform {
    MacOs,
    Linux,
}

/// The shell used when the SHELL variable is unset.
pub open spec fn default_shell(platform: Platform) -> Seq<char> {
    match platform {
        Platform::MacOs => "/bin/zsh"@,
        Platform::Linux => "/bin/bash"@,
    }
}

/// The shell program to invoke: the SHELL variable when set, else the
/// platform default.
pub fn shell_program(shell_var: Option<String>, platform: Platform) -> (r: String)
    ensures
        match shell_var {
            Some(s) => r@ == s@,
            None => r@ == default_shell(platform),
        },
{
    match shell_var {
        Some(s) => s,
        None => match platform {
            Platform::MacOs => String::from_str("/bin/zsh"),
            Platform::Linux => String::from_str("/bin/bash"),
        },
    }
}

/// The probe the shell runs: it prints each variable of interest on its own
/// line behind an unambiguous marker, with no whitespace in between.
pub open spec fn probe_command() -> Seq<char> {
    "echo \"__PATH__$PATH\" && echo \"__JAVA__$JAVA_HOME\""@
}

/// Arguments for the shell invocation. Both platforms use a login shell so
/// profile files are sourced; macOS additionally forces interactive mode,
/// because its default shell skips user profiles when its output is piped.
pub open spec fn shell_arg_views(platform: Platform) -> Seq<Seq<char>> {
    match platform {
        Platform::MacOs => seq!["-l"@, "-i"@, "-c"@, probe_command()],
        Platform::Linux => seq!["-l"@, "-c"@, probe_command()],
    }
}

pub fn shell_args(platform: Platform) -> (r: Vec<String>)
    ensures
        r.deep_view() == shell_arg_views(platform),
{
    let mut v: Vec<String> = Vec::new();
    v.push(String::from_str("-l"));
    if let Platform::MacOs = platform {
        v.push(String::from_str("-i"));
    }
    v.push(String::from_str("-c"));
    v.push(String::from_str("echo \"__PATH__$PATH\" && echo \"__JAVA__$JAVA_HOME\""));
    proof {
        assert(v.deep_view() =~~= shell_arg_views(platform));
    }
    v
}

/// Marker in front of the resolved PATH value.
pub open spec fn path_marker() -> Seq<char> {
    "__PATH__"@
}

/// Marker in front of the resolved toolchain-home value.
pub open spec fn java_marker() -> Seq<char> {
    "__JAVA__"@
}

/// Whether the line begins with the marker.
pub open spec fn has_marker(line: Seq<char>, marker: Seq<char>) -> bool {
    marker.len() <= line.len() && line.take(marker.len() as int) == marker
}

/// The rest of the line behind the marker.
pub open spec fn marker_value(line: Seq<char>, marker: Seq<char>) -> Seq<char> {
    line.skip(marker.len() as int)
}

/// If `line` begins with `marker`, the remainder of the line.
pub fn strip_marker(line: &str, marker: &str) -> (r: Option<String>)
    ensures
        match r {
            Some(v) => has_marker(line@, marker@) && v@ == marker_value(line@, marker@),
            None => !has_marker(line@, marker@),
        },
{
    let line_len = line.unicode_len();
    let marker_len = marker.unicode_len();
    if line_len < marker_len {
        return None;
    }
    let mut i: usize = 0;
    while i < marker_len
        invariant
            i <= marker_len <= line_len,
            line_len == line@.len(),
            marker_len == marker@.len(),
            forall|j: int| 0 <= j < i ==> line@[j] == marker@[j],
        decreases marker_len - i,
    {
        if line.get_char(i) != marker.get_char(i) {
            proof {
                if has_marker(line@, marker@) {
                    assert(line@.take(marker@.len() as int)[i as int] == marker@[i as int]);
                }
            }
            return None;
        }
        i += 1;
    }
    let rest = line.substring_char(marker_len, line_len);
    proof {
        assert(line@.take(marker_len as int) =~= marker@);
        assert(line@.subrange(marker_len as int, line_len as int) =~= marker_value(
            line@,
            marker@,
        ));
    }
    Some(String::from_str(rest))
}

/// The lines of a text: segments between newline characters, with no empty
/// segment after a trailing newline.
pub open spec fn split_lines(s: Seq<char>) -> Seq<Seq<char>>
    decreases s.len(),
{
    if s.len() == 0 {
        Seq::empty()
    } else if s[0] == '\n' {
        seq![Seq::<char>::empty()] + split_lines(s.skip(1))
    } else {
        let rest = split_lines(s.skip(1));
        if rest.len() == 0 {
            seq![s]
        } else {
            seq![seq![s[0]] + rest[0]] + rest.skip(1)
        }
    }
}

/// Peeling the first line off `split_lines`: up to the first newline (at
/// `k`, or absent when `k` is the length) lies one line, and the rest of the
/// text splits independently.
proof fn lemma_split_first_line(s: Seq<char>, k: int)
    requires
        0 <= k <= s.len(),
        forall|j: int| 0 <= j < k ==> s[j] != '\n',
        k < s.len() ==> s[k] == '\n',
    ensures
        k == s.len() && k > 0 ==> split_lines(s) =~= seq![s],
        k < s.len() ==> split_lines(s) =~= seq![s.take(k)] + split_lines(s.skip(k + 1)),
    decreases k,
{
    if k == 0 {
        if 0 < s.len() {
            assert(s.take(0) =~= Seq::<char>::empty());
        }
    } else {
        let tail = s.skip(1);
        lemma_split_first_line(tail, k - 1);
        assert(s[0] != '\n');
        if k == s.len() {
            if k == 1 {
                assert(tail.len() == 0);
            } else {
                assert(split_lines(tail) =~= seq![tail]);
                assert(seq![s[0]] + tail =~= s);
            }
        } else {
            assert(tail[k - 1] == s[k]);
            assert(split_lines(tail) =~= seq![tail.take(k - 1)] + split_lines(tail.skip(k)));
            let rest = split_lines(tail);
            assert(rest.len() > 0);
            assert(rest[0] == tail.take(k - 1));
            assert(seq![s[0]] + tail.take(k - 1) =~= s.take(k));
            assert(rest.skip(1) =~= split_lines(tail.skip(k)));
            assert(tail.skip(k) =~= s.skip(k + 1));
        }
    }
}

/// Split a captured text into its lines.
pub fn split_into_lines(s: &str) -> (r: Vec<String>)
    ensures
        r.deep_view() == split_lines(s@),
{
    let n = s.unicode_len();
    let mut out: Vec<String> = Vec::new();
    let mut start: usize = 0;
    let mut i: usize = 0;
    proof {
        assert(s@.skip(0) =~= s@);
        assert(out.deep_view() =~= Seq::<Seq<char>>::empty());
    }
    while i < n
        invariant
            start <= i <= n,
            n == s@.len(),
            forall|j: int| start <= j < i ==> s@[j] != '\n',
            split_lines(s@) =~= out.deep_view() + split_lines(s@.skip(start as int)),
        decreases n - i,
    {
        if s.get_char(i) == '\n' {
            let line = String::from_str(s.substring_char(start, i));
            proof {
                let seg = s@.skip(start as int);
                assert(forall|j: int|
                    0 <= j < i - start ==> seg[j] == s@[j + start] && seg[j] != '\n');
                assert(seg[i - start as int] == '\n');
                lemma_split_first_line(seg, i - start as int);
                assert(seg.take(i - start as int) =~= s@.subrange(start as int, i as int));
                assert(seg.skip(i - start + 1) =~= s@.skip(i + 1));
            }
            out.push(line);
            proof {
                assert(out.deep_view() =~~= out.deep_view().drop_last().push(
                    s@.subrange(start as int, i as int),
                ));
                assert(split_lines(s@) =~= out.deep_view() + split_lines(s@.skip(i + 1)));
            }
            start = i + 1;
        }
        i += 1;
    }
    if start < n {
        let line = String::from_str(s.substring_char(start, n));
        proof {
            let seg = s@.skip(start as int);
            assert(forall|j: int| 0 <= j < seg.len() ==> seg[j] == s@[j + start] && seg[j] != '\n');
            lemma_split_first_line(seg, seg.len() as int);
            assert(seg =~= s@.subrange(start as int, n as int));
        }
        out.push(line);
        proof {
            assert(out.deep_view() =~~= out.deep_view().drop_last().push(
                s@.subrange(start as int, n as int),
            ));
            assert(split_lines(s@) =~= out.deep_view());
        }
    } else {
        proof {
            assert(s@.skip(start as int) =~= Seq::<char>::empty());
            assert(split_lines(s@) =~= out.deep_view());
        }
    }
    out
}

/// Values for the variables of interest parsed out of the shell output;
/// `None` where no line carried the marker.
pub struct EnvUpdates {
    pub path: Option<String>,
    pub tool_home: Option<String>,
}

/// The parsed values over a sequence of lines: the last marked line for each
/// variable wins.
pub open spec fn parsed_updates(lines: Seq<Seq<char>>) -> (Option<Seq<char>>, Option<Seq<char>>)
    decreases lines.len(),
{
    if lines.len() == 0 {
        (None, None)
    } else {
        let prev = parsed_updates(lines.drop_last());
        let l = lines.last();
        if has_marker(l, path_marker()) {
            (Some(marker_value(l, path_marker())), prev.1)
        } else if has_marker(l, java_marker()) {
            (prev.0, Some(marker_value(l, java_marker())))
        } else {
            prev
        }
    }
}

/// Parse a captured shell output line by line, stripping the marker of each
/// variable of interest; on duplicate marker lines the last write wins.
pub fn parse_env_output(out: &str) -> (r: EnvUpdates)
    ensures
        r.path.deep_view() == parsed_updates(split_lines(out@)).0,
        r.tool_home.deep_view() == parsed_updates(split_lines(out@)).1,
{
    let lines = split_into_lines(out);
    let mut path: Option<String> = None;
    let mut tool_home: Option<String> = None;
    let mut i: usize = 0;
    while i < lines.len()
        invariant
            i <= lines@.len(),
            lines.deep_view() == split_lines(out@),
            path.deep_view() == parsed_updates(lines.deep_view().take(i as int)).0,
            tool_home.deep_view() == parsed_updates(lines.deep_view().take(i as int)).1,
        decreases lines@.len() - i,
    {
        proof {
            assert(lines.deep_view().take(i + 1).drop_last() =~= lines.deep_view().take(
                i as int,
            ));
            assert(lines.deep_view().take(i + 1).last() == lines@[i as int]@);
        }
        let line = &lines[i];
        if let Some(v) = strip_marker(line.as_str(), "__PATH__") {
            path = Some(v);
        } else if let Some(v) = strip_marker(line.as_str(), "__JAVA__") {
            tool_home = Some(v);
        }
        i += 1;
    }
    proof {
        assert(lines.deep_view().take(lines@.len() as int) =~= lines.deep_view());
    }
    EnvUpdates { path, tool_home }
}

/// The environment values the process runs with. `None` models a variable
/// that is unset in the process environment.
pub struct ResolvedEnvironment {
    pub path: Option<String>,
    pub tool_home: Option<String>,
}

/// How one parsed value lands on the previously-active one: only a non-empty
/// resolved value replaces it.
pub open spec fn applied(prev: Option<Seq<char>>, update: Option<Seq<char>>) -> Option<Seq<char>> {
    match update {
        Some(v) => if v.len() > 0 {
            Some(v)
        } else {
            prev
        },
        None => prev,
    }
}

/// An empty resolved value leaves the previously-active one unchanged, a
/// non-empty one fully replaces it, and a variable the shell output never
/// mentioned is untouched.
pub proof fn lemma_blank_value_never_clobbers(prev: Option<Seq<char>>, v: Seq<char>)
    ensures
        v.len() == 0 ==> applied(prev, Some(v)) == prev,
        v.len() > 0 ==> applied(prev, Some(v)) == Some(v),
        applied(prev, None) == prev,
{
}

fn clone_opt_string(o: &Option<String>) -> (r: Option<String>)
    ensures
        r.deep_view() == o.deep_view(),
{
    match o {
        Some(s) => Some(s.clone()),
        None => None,
    }
}

/// Merge the parsed updates into the previously-active environment.
pub fn apply_updates(prev: &ResolvedEnvironment, updates: &EnvUpdates) -> (r: ResolvedEnvironment)
    ensures
        r.path.deep_view() == applied(prev.path.deep_view(), updates.path.deep_view()),
        r.tool_home.deep_view() == applied(
            prev.tool_home.deep_view(),
            updates.tool_home.deep_view(),
        ),
{
    let path = match &updates.path {
        Some(v) => if !v.as_str().is_empty() {
            Some(v.clone())
        } else {
            clone_opt_string(&prev.path)
        },
        None => clone_opt_string(&prev.path),
    };
    let tool_home = match &updates.tool_home {
        Some(v) => if !v.as_str().is_empty() {
            Some(v.clone())
        } else {
            clone_opt_string(&prev.tool_home)
        },
        None => clone_opt_string(&prev.tool_home),
    };
    ResolvedEnvironment { path, tool_home }
}

/// Resolve the environment from one captured shell output. A shell that
/// could not be run or read (`None`) is non-fatal: the previously-active
/// environment is kept as it is.
pub fn resolve_environment(prev: &ResolvedEnvironment, shell_output: &Option<String>) -> (r:
    ResolvedEnvironment)
    ensures
        match shell_output {
            Some(out) => {
                let updates = parsed_updates(split_lines(out@));
                r.path.deep_view() == applied(prev.path.deep_view(), updates.0)
                    && r.tool_home.deep_view() == applied(prev.tool_home.deep_view(), updates.1)
            },
            None => r.path.deep_view() == prev.path.deep_view() && r.tool_home.deep_view()
                == prev.tool_home.deep_view(),
        },
{
    match shell_output {
        Some(out) => {
            let updates = parse_env_output(out.as_str());
            apply_updates(prev, &updates)
        },
        None => ResolvedEnvironment {
            path: clone_opt_string(&prev.path),
            tool_home: clone_opt_string(&prev.tool_home),
        },
    }
}

} // verus!
