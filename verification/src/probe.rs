use vstd::prelude::*;
use vstd::string::StringExecFns;

verus! {

/// The directory the prober chooses: the first candidate that is a
/// non-empty path and whose probe found a directory; the empty path
/// when there is none.
pub open spec fn first_hit(cands: Seq<Seq<char>>, present: Seq<bool>) -> Seq<char>
    decreases cands.len(),
{
    if cands.len() == 0 {
        Seq::empty()
    } else if present[0] && cands[0].len() > 0 {
        cands[0]
    } else {
        first_hit(cands.drop_first(), present.drop_first())
    }
}

/// The character sequences of a sequence of strings.
pub open spec fn views_of(v: Seq<String>) -> Seq<Seq<char>> {
    v.map_values(|s: String| s@)
}

/// Law: when no candidate is an existing directory, the chosen save
/// directory is the empty path (and the caller goes on with it; nothing
/// aborts).
pub proof fn lemma_no_directory_empty(cands: Seq<Seq<char>>, present: Seq<bool>)
    requires
        cands.len() == present.len(),
        forall|i: int| 0 <= i < present.len() ==> !present[i],
    ensures
        first_hit(cands, present) == Seq::<char>::empty(),
    decreases cands.len(),
{
    if cands.len() > 0 {
        assert(!present[0]);
        lemma_no_directory_empty(cands.drop_first(), present.drop_first());
    }
}

/// Walks the candidate list in order and returns the first entry that
/// is a non-empty path marked present, or the empty path when none is.
/// `present[i]` says whether probing found `cands[i]` to be an existing
/// directory.
pub fn pick_first_dir(cands: &Vec<String>, present: &Vec<bool>) -> (r: String)
    requires
        cands@.len() == present@.len(),
    ensures
        r@ == first_hit(views_of(cands@), present@),
{
    let ghost all_c: Seq<Seq<char>> = views_of(cands@);
    let ghost all_p: Seq<bool> = present@;
    let n = cands.len();
    let mut i: usize = 0;
    proof {
        assert(all_c.skip(0) =~= all_c);
        assert(all_p.skip(0) =~= all_p);
    }
    while i < n
        invariant
            n == cands@.len(),
            n == present@.len(),
            all_c == views_of(cands@),
            all_p == present@,
            0 <= i <= n,
            first_hit(all_c, all_p) == first_hit(all_c.skip(i as int), all_p.skip(i as int)),
        decreases n - i,
    {
        let c = &cands[i];
        proof {
            assert(all_c.skip(i as int)[0] == c@);
            assert(all_p.skip(i as int)[0] == present@[i as int]);
        }
        if present[i] && !c.as_str().is_empty() {
            return c.clone();
        }
        proof {
            assert(all_c.skip(i as int).drop_first() =~= all_c.skip(i + 1));
            assert(all_p.skip(i as int).drop_first() =~= all_p.skip(i + 1));
        }
        i = i + 1;
    }
    proof {
        assert(all_c.skip(n as int) =~= Seq::<Seq<char>>::empty());
    }
    String::new()
}

/// Relies on dirs::desktop_dir: the user's Desktop directory as the OS
/// reports it. The result depends on the environment, so nothing is
/// promised of it; a path that is not valid UTF-8 counts as unresolved.
#[verifier::external_body]
fn desktop_dir_string() -> Option<String> {
    dirs::desktop_dir().and_then(|p| p.to_str().map(|s| s.to_owned()))
}

/// Relies on dirs::config_dir: the user's configuration directory. The
/// result depends on the environment, so nothing is promised of it; a
/// path that is not valid UTF-8 counts as unresolved.
#[verifier::external_body]
pub(crate) fn config_dir_string() -> Option<String> {
    dirs::config_dir().and_then(|p| p.to_str().map(|s| s.to_owned()))
}

/// Relies on dirs::home_dir: the user's home directory. The result
/// depends on the environment, so nothing is promised of it; a path
/// that is not valid UTF-8 counts as unresolved.
#[verifier::external_body]
fn home_dir_string() -> Option<String> {
    dirs::home_dir().and_then(|p| p.to_str().map(|s| s.to_owned()))
}

/// Relies on std::path::Path::is_dir: whether the path names an
/// existing directory. The result depends on what is on disk, so
/// nothing is promised of it.
#[verifier::external_body]
fn probe_is_dir(path: &str) -> bool {
    std::path::Path::new(path).is_dir()
}

/// A resolved base directory, or the empty path for an unresolved one.
fn or_empty(o: Option<String>) -> (r: String)
    ensures
        r@ == (match o {
            Some(s) => s@,
            None => Seq::<char>::empty(),
        }),
{
    match o {
        Some(s) => s,
        None => String::new(),
    }
}

/// A resolved base directory joined with `Desktop`; an unresolved base
/// is treated as the empty path, which no probe accepts.
fn join_desktop(o: Option<String>) -> (r: String)
    ensures
        r@ == (match o {
            Some(s) => s@ + "/Desktop"@,
            None => Seq::<char>::empty(),
        }),
{
    match o {
        Some(s) => s.concat("/Desktop"),
        None => String::new(),
    }
}

/// Probes the fixed candidate list — the Desktop directory as the OS
/// reports it, then `Desktop` under the configuration directory, then
/// `Desktop` under the home directory, then the home directory itself —
/// and returns the first existing directory, or the empty path when
/// none exists.
pub fn get_default_save_dir() -> String {
    let mut cands: Vec<String> = Vec::new();
    cands.push(or_empty(desktop_dir_string()));
    cands.push(join_desktop(config_dir_string()));
    cands.push(join_desktop(home_dir_string()));
    cands.push(or_empty(home_dir_string()));
    let mut present: Vec<bool> = Vec::new();
    let mut i: usize = 0;
    while i < cands.len()
        invariant
            present@.len() == i,
            0 <= i <= cands@.len(),
        decreases cands@.len() - i,
    {
        present.push(probe_is_dir(cands[i].as_str()));
        i = i + 1;
    }
    pick_first_dir(&cands, &present)
}

} // verus!
