//! Resolution of the batch script: an explicit override wins, else the first
//! existing candidate of a fixed list. Which paths exist is observed by the
//! host and handed in.

use vstd::prelude::*;
use vstd::string::StringExecFns;
use crate::text::{concat, join_str, path_join_of, trim_of, trimmed};

verus! {

pub open spec fn script_name() -> Seq<char> {
    "church_transcribe_batch.ps1"@
}

/// The override that a request gives, trimmed, if it is non-empty.
pub open spec fn override_of(requested: Option<String>) -> Option<Seq<char>> {
    match requested {
        Some(p) => if trim_of(p@).len() > 0 { Some(trim_of(p@)) } else { None },
        None => None,
    }
}

/// The fixed candidate locations, in search order.
pub open spec fn candidates_of(resource_dir: Option<String>, cwd: Option<String>) -> Seq<Seq<char>> {
    let n = script_name();
    (match resource_dir {
        Some(r) => seq![path_join_of(r@, n), path_join_of(path_join_of(r@, "resources"@), n)],
        None => Seq::empty(),
    }) + (match cwd {
        Some(c) => seq![
            path_join_of(path_join_of(c@, "resources"@), n),
            path_join_of(c@, n),
            path_join_of(c@, "../scripts/church_transcribe_batch.ps1"@),
            path_join_of(c@, "scripts/church_transcribe_batch.ps1"@),
        ],
        None => Seq::empty(),
    })
}

/// Index of the first candidate that exists, if any.
pub open spec fn first_existing(present: Seq<bool>) -> Option<int>
    decreases present.len(),
{
    if present.len() == 0 {
        None
    } else {
        match first_existing(present.drop_last()) {
            Some(i) => Some(i),
            None => if present.last() { Some(present.len() - 1) } else { None },
        }
    }
}

pub open spec fn not_found_message() -> Seq<char> {
    "Could not locate church_transcribe_batch.ps1. Set Script Path in Advanced settings."@
}

/// The outcome of resolution, as text.
pub open spec fn resolution(
    requested: Option<String>,
    override_exists: bool,
    candidates: Seq<Seq<char>>,
    present: Seq<bool>,
) -> Result<Seq<char>, Seq<char>> {
    match override_of(requested) {
        Some(p) => if override_exists { Ok(p) } else { Err("Script path does not exist: "@ + p) },
        None => match first_existing(present) {
            Some(i) => Ok(candidates[i]),
            None => Err(not_found_message()),
        },
    }
}

pub open spec fn result_view(r: Result<String, String>) -> Result<Seq<char>, Seq<char>> {
    match r {
        Ok(s) => Ok(s@),
        Err(e) => Err(e@),
    }
}

/// The explicit override path of a request, if it gives a non-empty one.
pub fn script_override(requested: &Option<String>) -> (r: Option<String>)
    ensures
        match r {
            Some(p) => override_of(*requested) == Some(p@),
            None => override_of(*requested) is None,
        },
{
    match requested {
        Some(p) => {
            let t = trimmed(p.as_str());
            if t.unicode_len() > 0 {
                Some(t)
            } else {
                None
            }
        },
        None => None,
    }
}

/// The fixed list of places where the script may lie: in the bundled
/// resources (if known), then under the working directory (if known).
pub fn script_candidates(resource_dir: &Option<String>, cwd: &Option<String>) -> (r: Vec<String>)
    ensures
        r@.map_values(|s: String| s@) == candidates_of(*resource_dir, *cwd),
{
    let mut r: Vec<String> = Vec::new();
    let name = "church_transcribe_batch.ps1";
    match resource_dir {
        Some(d) => {
            r.push(join_str(d.as_str(), name));
            let sub = join_str(d.as_str(), "resources");
            r.push(join_str(sub.as_str(), name));
        },
        None => {},
    }
    let ghost first = r@.map_values(|s: String| s@);
    match cwd {
        Some(c) => {
            let sub = join_str(c.as_str(), "resources");
            r.push(join_str(sub.as_str(), name));
            r.push(join_str(c.as_str(), name));
            r.push(join_str(c.as_str(), "../scripts/church_transcribe_batch.ps1"));
            r.push(join_str(c.as_str(), "scripts/church_transcribe_batch.ps1"));
        },
        None => {},
    }
    assert(r@.map_values(|s: String| s@) =~= candidates_of(*resource_dir, *cwd));
    r
}

/// Picks the script: the override if one is given (and then only if it
/// exists), else the first existing candidate.
pub fn resolve_script_path(
    requested: &Option<String>,
    override_exists: bool,
    candidates: &Vec<String>,
    exists: &Vec<bool>,
) -> (r: Result<String, String>)
    requires
        exists@.len() == candidates@.len(),
    ensures
        result_view(r) == resolution(*requested, override_exists, candidates@.map_values(|s: String| s@), exists@),
{
    let ov = script_override(requested);
    if let Some(p) = ov {
        if override_exists {
            return Ok(p);
        }
        return Err(concat("Script path does not exist: ", p.as_str()));
    }
    assert(override_of(*requested) is None);
    let mut i: usize = 0;
    while i < exists.len()
        invariant
            exists@.len() == candidates@.len(),
            override_of(*requested) is None,
            0 <= i <= exists@.len(),
            first_existing(exists@.subrange(0, i as int)) is None,
        decreases exists@.len() - i,
    {
        assert(exists@.subrange(0, (i + 1) as int).drop_last() =~= exists@.subrange(0, i as int));
        if exists[i] {
            assert(exists@.subrange(0, (i + 1) as int).last() == exists@[i as int]);
            assert(first_existing(exists@.subrange(0, (i + 1) as int)) == Some(i as int));
            proof {
                lemma_first_existing_prefix(exists@, (i + 1) as int, i as int);
            }
            let c = candidates[i].clone();
            assert(c@ == candidates@.map_values(|s: String| s@)[i as int]);
            return Ok(c);
        }
        i = i + 1;
    }
    assert(exists@.subrange(0, exists@.len() as int) =~= exists@);
    Err(String::from_str("Could not locate church_transcribe_batch.ps1. Set Script Path in Advanced settings."))
}

proof fn lemma_first_existing_prefix(s: Seq<bool>, k: int, j: int)
    requires
        0 <= k <= s.len(),
        first_existing(s.subrange(0, k)) == Some(j),
    ensures
        first_existing(s) == Some(j),
    decreases s.len() - k,
{
    if k < s.len() {
        assert(s.subrange(0, k + 1).drop_last() =~= s.subrange(0, k));
        assert(first_existing(s.subrange(0, k + 1)) == Some(j));
        lemma_first_existing_prefix(s, k + 1, j);
    } else {
        assert(s.subrange(0, k) =~= s);
    }
}

} // verus!
