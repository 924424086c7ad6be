//! The branch collector: extraction of a normalized branch record from the
//! raw values the repository reports, the protected-name exclusion set, the
//! case-insensitive substring filter, and the sorted triage list.
use vstd::prelude::*;

use crate::branch::BranchInfo;
use crate::branch::BranchKind;
use crate::branch::TriageError;
use crate::git::branch_is_head;
use crate::git::branch_kind_of;
use crate::git::branch_name_bytes;
use crate::git::branch_tip_commit;
use crate::git::branches_of;
use crate::git::commit_author_name;
use crate::git::commit_id_hex;
use crate::git::commit_summary_text;
use crate::git::commit_time_parts;
use crate::sort::sort_branches;
use crate::sort::sort_by_time;
use crate::sort::sorted_by_time;
use crate::text::contains_chars;
use crate::text::contains_sub;
use crate::text::lower_of;
use crate::text::lowercase;
use crate::text::utf8_to_string;

verus! {

/// The names this tool never offers for deletion, whatever the filter says.
pub open spec fn is_protected_name(name: Seq<char>) -> bool {
    ||| name == "main"@
    ||| name == "origin/main"@
    ||| name == "master"@
    ||| name == "origin/master"@
    ||| name == "default"@
    ||| name == "origin/default"@
    ||| name == "origin/HEAD"@
}

fn str_is(name: &String, lit: &str) -> (r: bool)
    ensures
        r == (name@ == lit@),
{
    let l = String::from_str(lit);
    *name == l
}

/// Whether the name belongs to the fixed protected set.
pub fn is_protected(name: &String) -> (r: bool)
    ensures
        r == is_protected_name(name@),
{
    str_is(name, "main") || str_is(name, "origin/main") || str_is(name, "master") || str_is(
        name,
        "origin/master",
    ) || str_is(name, "default") || str_is(name, "origin/default") || str_is(name, "origin/HEAD")
}

/// The raw values the repository reports for one branch, before any
/// normalization.
pub struct RawBranchData {
    pub name_bytes: Vec<u8>,
    pub id_hex: String,
    pub seconds: i64,
    pub offset_minutes: i32,
    pub author: Option<String>,
    pub summary: Option<String>,
    pub is_head: bool,
    pub kind: BranchKind,
}

/// The commit time in the commit's own timezone frame: recorded seconds
/// since the epoch plus the recorded UTC offset, kept as minutes.
pub open spec fn normalized_time(seconds: i64, offset_minutes: i32) -> int {
    seconds + offset_minutes * 60
}

/// The normalized time is representable in a 64-bit second count.
pub open spec fn time_fits(seconds: i64, offset_minutes: i32) -> bool {
    i64::MIN <= normalized_time(seconds, offset_minutes) <= i64::MAX
}

/// Builds the normalized branch record from the raw values of one branch:
/// the name must decode as UTF-8, the commit time is shifted into the
/// commit's own timezone frame, and missing author or summary fall back to
/// fixed sentinels.
pub fn extract(raw: RawBranchData) -> (r: Result<BranchInfo, TriageError>)
    ensures
        (r matches Err(_)) <==> (!vstd::utf8::valid_utf8(raw.name_bytes@) || !time_fits(
            raw.seconds,
            raw.offset_minutes,
        )),
        r matches Ok(b) ==> ({
            &&& b.name@ == vstd::utf8::decode_utf8(raw.name_bytes@)
            &&& b.id == raw.id_hex
            &&& b.commit_time == normalized_time(raw.seconds, raw.offset_minutes)
            &&& b.commit_author@ == (match raw.author {
                Some(a) => a@,
                None => "no author"@,
            })
            &&& b.commit_summary@ == (match raw.summary {
                Some(su) => su@,
                None => "no summary"@,
            })
            &&& b.kind == raw.kind
            &&& b.is_head == raw.is_head
        }),
        r matches Err(e) ==> (e matches TriageError::InvalidEncoding <==> !vstd::utf8::valid_utf8(
            raw.name_bytes@,
        )),
        r matches Err(e) ==> (e matches TriageError::InvalidEncoding || e matches
        TriageError::TimeOutOfRange),
{
    let RawBranchData { name_bytes, id_hex, seconds, offset_minutes, author, summary, is_head, kind } =
        raw;
    let name = match utf8_to_string(name_bytes) {
        Some(n) => n,
        None => {
            return Err(TriageError::InvalidEncoding);
        },
    };
    let delta: i64 = (offset_minutes as i64) * 60;
    let commit_time = match seconds.checked_add(delta) {
        Some(t) => t,
        None => {
            return Err(TriageError::TimeOutOfRange);
        },
    };
    let commit_author = match author {
        Some(a) => a,
        None => String::from_str("no author"),
    };
    let commit_summary = match summary {
        Some(su) => su,
        None => String::from_str("no summary"),
    };
    Ok(
        BranchInfo {
            id: id_hex,
            name,
            commit_author,
            commit_summary,
            kind,
            commit_time,
            is_head,
        },
    )
}

/// The filter argument as a character sequence, where one was given.
pub open spec fn filter_key(filter_in: Option<&String>) -> Option<Seq<char>> {
    match filter_in {
        Some(f) => Some(f@),
        None => None,
    }
}

/// A branch stays in the triage list when its name is not protected and,
/// where a filter was given, its lowercase name contains the lowercase
/// filter.
pub open spec fn keeps(b: BranchInfo, filter: Option<Seq<char>>) -> bool {
    &&& !is_protected_name(b.name@)
    &&& (filter matches Some(f) ==> contains_chars(lower_of(b.name@), lower_of(f)))
}

/// The filter predicate as a function value, for use with sequence filter.
pub open spec fn keeps_fn(filter: Option<Seq<char>>) -> spec_fn(BranchInfo) -> bool {
    |b: BranchInfo| keeps(b, filter)
}

/// The branches that the filter keeps, in their original order.
pub open spec fn kept(s: Seq<BranchInfo>, filter: Option<Seq<char>>) -> Seq<BranchInfo> {
    s.filter(keeps_fn(filter))
}

/// Whether one branch passes the protected-name and substring checks.
pub fn keeps_branch(b: &BranchInfo, filter_in: Option<&String>) -> (r: bool)
    ensures
        r == keeps(*b, filter_key(filter_in)),
{
    if is_protected(&b.name) {
        return false;
    }
    match filter_in {
        None => true,
        Some(f) => {
            let ln = lowercase(b.name.as_str());
            let lf = lowercase(f.as_str());
            contains_sub(ln.as_str(), lf.as_str())
        },
    }
}

/// Applies the filter to the collected branches and sorts what remains by
/// commit time, ascending and stable.
pub fn filter_and_sort(branches: Vec<BranchInfo>, filter_in: Option<&String>) -> (r: Vec<
    BranchInfo,
>)
    ensures
        r@ == sort_by_time(kept(branches@, filter_key(filter_in))),
{
    let ghost f = filter_key(filter_in);
    let ghost orig = branches@;
    let ghost pred = keeps_fn(f);
    let mut rest = branches;
    let mut acc: Vec<BranchInfo> = Vec::new();
    proof {
        reveal(Seq::filter);
        assert(orig.subrange(0, 0) =~= Seq::<BranchInfo>::empty());
        assert(orig.subrange(0, orig.len() as int) =~= orig);
    }
    while rest.len() > 0
        invariant
            rest@.len() <= orig.len(),
            rest@ == orig.subrange(orig.len() - rest@.len(), orig.len() as int),
            acc@ == orig.subrange(0, orig.len() - rest@.len()).filter(keeps_fn(f)),
            f == filter_key(filter_in),
        decreases rest@.len(),
    {
        let ghost k = orig.len() - rest@.len();
        let x = rest.remove(0);
        proof {
            assert(x == orig[k]);
            assert(rest@ =~= orig.subrange(k + 1, orig.len() as int));
        }
        let keep_it = keeps_branch(&x, filter_in);
        proof {
            reveal(Seq::filter);
            let before = orig.subrange(0, k);
            let after = orig.subrange(0, k + 1);
            assert(after.drop_last() =~= before);
            assert(after.last() == orig[k]);
            assert(after.filter(keeps_fn(f)) == if keeps_fn(f)(orig[k]) {
                before.filter(keeps_fn(f)).push(orig[k])
            } else {
                before.filter(keeps_fn(f))
            });
        }
        if keep_it {
            acc.push(x);
        }
    }
    proof {
        assert(orig.subrange(0, orig.len() as int) =~= orig);
    }
    sort_branches(acc)
}

/// Discovers the repository's branches (all of them, or only the local
/// ones), extracts a normalized record for each, drops the protected names
/// and those the filter excludes, and returns the rest sorted by commit
/// time ascending; extraction failure on any branch aborts the whole
/// collection with that error.
pub fn get_branches(
    repo: &git2::Repository,
    filter_in: Option<&String>,
    local_only: bool,
) -> (r: Result<Vec<BranchInfo>, TriageError>)
    ensures
        r matches Ok(v) ==> sorted_by_time(v@),
        r matches Ok(v) ==> forall|i: int|
            0 <= i < v@.len() ==> !is_protected_name(#[trigger] v@[i].name@),
        r matches Ok(v) ==> (filter_key(filter_in) matches Some(f) ==> forall|i: int|
            0 <= i < v@.len() ==> contains_chars(lower_of(#[trigger] v@[i].name@), lower_of(f))),
        r matches Err(e) ==> (e matches TriageError::Repository(_) || e matches
        TriageError::InvalidEncoding || e matches TriageError::TimeOutOfRange),
{
    let pairs = match branches_of(repo, local_only) {
        Ok(p) => p,
        Err(e) => {
            return Err(TriageError::Repository(e));
        },
    };
    let mut all: Vec<BranchInfo> = Vec::new();
    let mut i: usize = 0;
    while i < pairs.len()
        decreases pairs@.len() - i,
    {
        let pr = &pairs[i];
        let kind = branch_kind_of(&pr.1);
        let name_bytes = match branch_name_bytes(&pr.0) {
            Ok(nb) => nb,
            Err(e) => {
                return Err(TriageError::Repository(e));
            },
        };
        let commit = match branch_tip_commit(&pr.0) {
            Ok(c) => c,
            Err(e) => {
                return Err(TriageError::Repository(e));
            },
        };
        let (seconds, offset_minutes) = commit_time_parts(&commit);
        let raw = RawBranchData {
            name_bytes,
            id_hex: commit_id_hex(&commit),
            seconds,
            offset_minutes,
            author: commit_author_name(&commit),
            summary: commit_summary_text(&commit),
            is_head: branch_is_head(&pr.0),
            kind,
        };
        let b = match extract(raw) {
            Ok(b) => b,
            Err(e) => {
                return Err(e);
            },
        };
        all.push(b);
        i = i + 1;
    }
    let v = filter_and_sort(all, filter_in);
    proof {
        let f = filter_key(filter_in);
        let ks = kept(all@, f);
        crate::sort::lemma_sort_by_time_sorted(ks);
        crate::sort::lemma_sort_by_time_elems(ks);
        assert forall|j: int| 0 <= j < v@.len() implies keeps(#[trigger] v@[j], f) by {
            assert(ks.contains(v@[j]));
            let m = choose|m: int| 0 <= m < ks.len() && ks[m] == v@[j];
            all@.lemma_filter_pred(keeps_fn(f), m);
        }
    }
    Ok(v)
}

/// How many of the collected branches are of the given kind.
pub open spec fn of_kind(k: BranchKind) -> spec_fn(BranchInfo) -> bool {
    |b: BranchInfo| b.kind == k
}

/// Counts the branches of one kind in the list.
pub fn count_kind(v: &Vec<BranchInfo>, k: BranchKind) -> (n: usize)
    ensures
        n == v@.filter(of_kind(k)).len(),
{
    let ghost pred = of_kind(k);
    let mut n: usize = 0;
    let mut i: usize = 0;
    proof {
        reveal(Seq::filter);
        assert(v@.subrange(0, 0) =~= Seq::<BranchInfo>::empty());
    }
    while i < v.len()
        invariant
            i <= v@.len(),
            n <= i,
            n == v@.subrange(0, i as int).filter(of_kind(k)).len(),
        decreases v@.len() - i,
    {
        proof {
            reveal(Seq::filter);
            let before = v@.subrange(0, i as int);
            let after = v@.subrange(0, i + 1);
            assert(after.drop_last() =~= before);
            assert(after.last() == v@[i as int]);
        }
        if v[i].kind == k {
            n = n + 1;
        }
        i = i + 1;
    }
    proof {
        assert(v@.subrange(0, v@.len() as int) =~= v@);
    }
    n
}

} // verus!
