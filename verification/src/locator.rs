//! Locating the Kotlin compiler.
//!
//! The locator never caches: on every run request the driver first probes
//! whether the bare command starts under the current PATH, then checks a
//! priority-ordered list of well-known install locations for existence on
//! disk. Both probes are the driver's work; the candidate list and the
//! selection among the probe results are decided and specified here.

use vstd::prelude::*;

verus! {

/// The bare command name, resolvable through PATH.
pub open spec fn bare_tool() -> Seq<char> {
    "kotlinc"@
}

/// The home-directory root used in home-relative candidates: a missing home
/// variable is tolerated by substituting an empty root rather than failing.
pub open spec fn home_or_empty(home: Option<Seq<char>>) -> Seq<char> {
    match home {
        Some(h) => h,
        None => Seq::empty(),
    }
}

/// The well-known install locations, in priority order: Homebrew on Apple
/// silicon, Homebrew on Intel, SDKMAN, a manual install, snap, and the
/// JetBrains Toolbox scripts directory.
pub open spec fn candidate_views(home: Seq<char>) -> Seq<Seq<char>> {
    seq![
        "/opt/homebrew/bin/kotlinc"@,
        "/usr/local/bin/kotlinc"@,
        home + "/.sdkman/candidates/kotlin/current/bin/kotlinc"@,
        "/usr/bin/kotlinc"@,
        "/snap/bin/kotlinc"@,
        home + "/.local/share/JetBrains/Toolbox/scripts/kotlinc"@,
    ]
}

/// The candidate paths for a given home directory.
pub fn candidate_paths(home: &Option<String>) -> (r: Vec<String>)
    ensures
        r.deep_view() == candidate_views(home_or_empty(home.deep_view())),
{
    let home_root: &str = match home {
        Some(h) => h.as_str(),
        None => "",
    };
    proof {
        reveal_strlit("");
        assert(home_root@ =~= home_or_empty(home.deep_view()));
    }
    let mut v: Vec<String> = Vec::new();
    v.push(String::from_str("/opt/homebrew/bin/kotlinc"));
    v.push(String::from_str("/usr/local/bin/kotlinc"));
    v.push(String::from_str(home_root).concat("/.sdkman/candidates/kotlin/current/bin/kotlinc"));
    v.push(String::from_str("/usr/bin/kotlinc"));
    v.push(String::from_str("/snap/bin/kotlinc"));
    v.push(
        String::from_str(home_root).concat("/.local/share/JetBrains/Toolbox/scripts/kotlinc"),
    );
    proof {
        assert(v.deep_view() =~~= candidate_views(home_or_empty(home.deep_view())));
    }
    v
}

/// The first candidate that exists on disk, in priority order.
pub open spec fn first_existing(candidates: Seq<Seq<char>>, exists: Seq<bool>) -> Option<
    Seq<char>,
>
    decreases candidates.len(),
{
    if candidates.len() == 0 || exists.len() == 0 {
        None
    } else if exists[0] {
        Some(candidates[0])
    } else {
        first_existing(candidates.skip(1), exists.skip(1))
    }
}

/// What the locator returns for given probe results: the bare name whenever
/// the PATH probe started the tool, else the first existing candidate, else
/// nothing.
pub open spec fn selected(probe_ok: bool, candidates: Seq<Seq<char>>, exists: Seq<bool>) -> Option<
    Seq<char>,
> {
    if probe_ok {
        Some(bare_tool())
    } else {
        first_existing(candidates, exists)
    }
}

proof fn lemma_first_existing_skip(candidates: Seq<Seq<char>>, exists: Seq<bool>, i: int)
    requires
        candidates.len() == exists.len(),
        0 <= i <= candidates.len(),
        forall|j: int| 0 <= j < i ==> !exists[j],
    ensures
        first_existing(candidates, exists) == first_existing(
            candidates.skip(i),
            exists.skip(i),
        ),
    decreases i,
{
    if i == 0 {
        assert(candidates.skip(0) =~= candidates);
        assert(exists.skip(0) =~= exists);
    } else {
        lemma_first_existing_skip(candidates, exists, i - 1);
        let cs = candidates.skip(i - 1);
        let es = exists.skip(i - 1);
        assert(es[0] == exists[i - 1]);
        assert(first_existing(cs, es) == first_existing(cs.skip(1), es.skip(1)));
        assert(cs.skip(1) =~= candidates.skip(i));
        assert(es.skip(1) =~= exists.skip(i));
    }
}

/// Select the tool location from the probe results. `probe_ok` reports
/// whether running the bare command started at all (its exit status does not
/// matter); `exists[i]` reports whether `candidates[i]` exists on disk.
pub fn select_tool(probe_ok: bool, candidates: &Vec<String>, exists: &Vec<bool>) -> (r: Option<
    String,
>)
    requires
        candidates@.len() == exists@.len(),
    ensures
        r.deep_view() == selected(probe_ok, candidates.deep_view(), exists@),
{
    if probe_ok {
        return Some(String::from_str("kotlinc"));
    }
    let mut i: usize = 0;
    while i < exists.len()
        invariant
            !probe_ok,
            i <= exists@.len(),
            candidates@.len() == exists@.len(),
            forall|j: int| 0 <= j < i ==> !exists@[j],
        decreases exists@.len() - i,
    {
        if exists[i] {
            let chosen = candidates[i].clone();
            proof {
                lemma_first_existing_skip(candidates.deep_view(), exists@, i as int);
                let cs = candidates.deep_view().skip(i as int);
                let es = exists@.skip(i as int);
                assert(es[0] == exists@[i as int]);
                assert(cs[0] == candidates.deep_view()[i as int]);
                assert(first_existing(cs, es) == Some(cs[0]));
                assert(candidates.deep_view()[i as int] == candidates@[i as int]@);
                assert(chosen@ == candidates@[i as int]@);
                assert(first_existing(candidates.deep_view(), exists@) == Some(chosen@));
                assert(selected(probe_ok, candidates.deep_view(), exists@) == Some(chosen@));
            }
            return Some(chosen);
        }
        i += 1;
    }
    proof {
        lemma_first_existing_skip(candidates.deep_view(), exists@, exists@.len() as int);
    }
    None
}

/// The locator's preference order: a PATH-resolvable tool wins over every
/// fixed candidate; among the fixed candidates the first existing one in
/// priority order wins; and with nothing resolvable and nothing existing,
/// nothing is found.
pub proof fn lemma_locator_priority(candidates: Seq<Seq<char>>, exists: Seq<bool>, i: int)
    requires
        candidates.len() == exists.len(),
    ensures
        selected(true, candidates, exists) == Some(bare_tool()),
        (0 <= i < exists.len() && exists[i] && (forall|j: int| 0 <= j < i ==> !exists[j]))
            ==> selected(false, candidates, exists) == Some(candidates[i]),
        (forall|j: int| 0 <= j < exists.len() ==> !exists[j]) ==> selected(
            false,
            candidates,
            exists,
        ) is None,
{
    if 0 <= i < exists.len() && exists[i] && (forall|j: int| 0 <= j < i ==> !exists[j]) {
        lemma_first_existing_skip(candidates, exists, i);
        assert(candidates.skip(i)[0] == candidates[i]);
    }
    if forall|j: int| 0 <= j < exists.len() ==> !exists[j] {
        lemma_first_existing_skip(candidates, exists, exists.len() as int);
    }
}

} // verus!
