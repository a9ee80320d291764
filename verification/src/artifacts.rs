//! Artifact resolution: locating the built library under the install
//! root and assembling the metadata record handed downstream.
//!
//! The caller lists directories and performs the one rename; every
//! decision about what to look for and what to do with it is made
//! here, on plain values.

use vstd::prelude::*;

use crate::error::BuildError;
use crate::plan::BuildPlan;
use crate::strutil::concat2;
use crate::strutil::join_path;
use crate::strutil::joined;
use crate::strutil::starts_with;
use crate::strutil::starts_with_str;
use crate::LinkKind;

verus! {

/// The predicate selecting the entries that start with `p`.
pub open spec fn prefix_pred(p: Seq<char>) -> spec_fn(Seq<char>) -> bool {
    |s: Seq<char>| starts_with(s, p)
}

/// The directory entries that start with the given prefix, in
/// directory order.
pub open spec fn prefix_matches(entries: Seq<Seq<char>>, prefix: Seq<char>) -> Seq<Seq<char>> {
    entries.filter(prefix_pred(prefix))
}

/// Whether `r` reports that no entry with the given prefix was found.
pub open spec fn reports_artifact_not_found<T>(r: Result<T, BuildError>, prefix: Seq<char>) -> bool {
    match r {
        Err(BuildError::ArtifactNotFound { prefix: p }) => p@ == prefix,
        _ => false,
    }
}

/// Whether `r` reports more than one entry with the given prefix.
pub open spec fn reports_ambiguous_artifact<T>(
    r: Result<T, BuildError>,
    prefix: Seq<char>,
) -> bool {
    match r {
        Err(BuildError::AmbiguousArtifact { prefix: p }) => p@ == prefix,
        _ => false,
    }
}

/// Extending the scanned prefix of a listing by one entry extends its
/// matches by that entry exactly when the entry matches.
proof fn lemma_filter_one_more<A>(s: Seq<A>, i: int, pred: spec_fn(A) -> bool)
    requires
        0 <= i < s.len(),
    ensures
        s.subrange(0, i + 1).filter(pred) == s.subrange(0, i).filter(pred) + (if pred(s[i]) {
            seq![s[i]]
        } else {
            Seq::<A>::empty()
        }),
{
    reveal_with_fuel(Seq::filter, 2);
    let t = s.subrange(0, i + 1);
    assert(t.drop_last() =~= s.subrange(0, i));
    assert(t.last() == s[i]);
    if pred(s[i]) {
        assert(t.filter(pred) =~= s.subrange(0, i).filter(pred) + seq![s[i]]);
    } else {
        assert(t.filter(pred) =~= s.subrange(0, i).filter(pred) + Seq::<A>::empty());
    }
}

/// Locates the one directory entry whose name starts with `prefix`.
///
/// Zero matches and more than one match are both errors: an absent
/// artifact is a build-correctness violation, and an ambiguous one
/// cannot be renamed safely.
pub fn find_by_prefix(entries: &Vec<String>, prefix: &str) -> (r: Result<String, BuildError>)
    ensures
        prefix_matches(entries.deep_view(), prefix@).len() == 1 ==> (r matches Ok(n) && n@
            == prefix_matches(entries.deep_view(), prefix@)[0]),
        prefix_matches(entries.deep_view(), prefix@).len() == 0 ==> reports_artifact_not_found(
            r,
            prefix@,
        ),
        prefix_matches(entries.deep_view(), prefix@).len() > 1 ==> reports_ambiguous_artifact(
            r,
            prefix@,
        ),
{
    broadcast use Seq::filter_distributes_over_add;

    let ghost all = entries.deep_view();
    let ghost pred = prefix_pred(prefix@);
    let mut found: Option<usize> = None;
    let mut i: usize = 0;
    proof {
        assert(all.subrange(0, 0).filter(pred) =~= Seq::<Seq<char>>::empty());
    }
    while i < entries.len()
        invariant
            all == entries.deep_view(),
            pred == prefix_pred(prefix@),
            i <= all.len(),
            match found {
                None => all.subrange(0, i as int).filter(pred) == Seq::<Seq<char>>::empty(),
                Some(j) => j < i && all.subrange(0, i as int).filter(pred) == seq![all[j as int]],
            },
        decreases all.len() - i,
    {
        if starts_with_str(entries[i].as_str(), prefix) {
            if found.is_some() {
                proof {
                    lemma_filter_one_more(all, i as int, pred);
                    assert(all =~= all.subrange(0, i + 1) + all.subrange(i + 1, all.len() as int));
                    assert(all.filter(pred).len() >= 2);
                }
                return Err(BuildError::AmbiguousArtifact { prefix: prefix.to_owned() });
            }
            proof {
                lemma_filter_one_more(all, i as int, pred);
                assert(all.subrange(0, i + 1).filter(pred) =~= seq![all[i as int]]);
            }
            found = Some(i);
        } else {
            proof {
                lemma_filter_one_more(all, i as int, pred);
                assert(all.subrange(0, i + 1).filter(pred) =~= all.subrange(0, i as int).filter(
                    pred,
                ));
            }
        }
        i += 1;
    }
    proof {
        assert(all.subrange(0, all.len() as int) =~= all);
    }
    match found {
        Some(j) => Ok(entries[j].clone()),
        None => Err(BuildError::ArtifactNotFound { prefix: prefix.to_owned() }),
    }
}

/// Chooses the library directory under the install root: `lib` where
/// it is a readable directory, `lib64` otherwise; neither is fatal.
///
/// `lib_present` and `lib64_present` report whether `lib` and `lib64`
/// are readable directories under the install root.
pub fn choose_lib_dir(install_dir: &str, lib_present: bool, lib64_present: bool) -> (r: Result<
    String,
    BuildError,
>)
    ensures
        lib_present ==> (r matches Ok(d) && d@ == joined(install_dir@, "lib"@)),
        !lib_present && lib64_present ==> (r matches Ok(d) && d@ == joined(install_dir@, "lib64"@)),
        !lib_present && !lib64_present ==> r == Err::<String, BuildError>(
            BuildError::LibDirNotFound,
        ),
{
    if lib_present {
        Ok(join_path(install_dir, "lib"))
    } else if lib64_present {
        Ok(join_path(install_dir, "lib64"))
    } else {
        Err(BuildError::LibDirNotFound)
    }
}

/// What the built static archive must be renamed to on the MSVC
/// family, whose archive naming is not predictable from the options:
/// the one file whose name starts with `lib` and the library's
/// internal name becomes `<name>.lib`. No match is fatal.
pub fn msvc_rename_plan(entries: &Vec<String>, lib_name: &str) -> (r: Result<
    (String, String),
    BuildError,
>)
    ensures
        prefix_matches(entries.deep_view(), "lib"@ + lib_name@).len() == 1 ==> (r matches Ok(pair)
            && pair.0@ == prefix_matches(entries.deep_view(), "lib"@ + lib_name@)[0] && pair.1@
            == lib_name@ + ".lib"@),
        prefix_matches(entries.deep_view(), "lib"@ + lib_name@).len() == 0
            ==> reports_artifact_not_found(r, "lib"@ + lib_name@),
        prefix_matches(entries.deep_view(), "lib"@ + lib_name@).len() > 1
            ==> reports_ambiguous_artifact(r, "lib"@ + lib_name@),
{
    let prefix = concat2("lib", lib_name);
    match find_by_prefix(entries, prefix.as_str()) {
        Ok(from) => Ok((from, concat2(lib_name, ".lib"))),
        Err(e) => Err(e),
    }
}

/// The artifact metadata of a successful build: where the headers
/// and the built libraries live, and what to link. `libraries` is
/// never empty: the primary library is always its first entry.
#[derive(Debug)]
pub struct Artifacts {
    /// The installed headers.
    pub include_dir: String,
    /// The directory holding the built libraries.
    pub lib_dir: String,
    /// Each library to link, with its link kind, in link order.
    pub libraries: Vec<(String, LinkKind)>,
}

/// Mathematical model of an [`Artifacts`].
#[verifier::ext_equal]
pub ghost struct ArtifactsView {
    /// The installed headers.
    pub include_dir: Seq<char>,
    /// The directory holding the built libraries.
    pub lib_dir: Seq<char>,
    /// Each library to link, with its link kind, in link order.
    pub libraries: Seq<(Seq<char>, LinkKind)>,
}

impl View for Artifacts {
    type V = ArtifactsView;

    open spec fn view(&self) -> ArtifactsView {
        ArtifactsView {
            include_dir: self.include_dir@,
            lib_dir: self.lib_dir@,
            libraries: self.libraries.deep_view(),
        }
    }
}

/// Copies a library table, keeping its model.
fn clone_libraries(v: &Vec<(String, LinkKind)>) -> (r: Vec<(String, LinkKind)>)
    ensures
        r.deep_view() == v.deep_view(),
{
    let mut r: Vec<(String, LinkKind)> = Vec::new();
    let mut i: usize = 0;
    while i < v.len()
        invariant
            i <= v@.len(),
            r.deep_view().len() == i,
            forall|j: int| 0 <= j < i ==> r.deep_view()[j] == v.deep_view()[j],
        decreases v@.len() - i,
    {
        let name = v[i].0.clone();
        let kind = v[i].1;
        r.push((name, kind));
        i += 1;
    }
    proof {
        assert(r.deep_view() =~= v.deep_view());
    }
    r
}

/// Assembles the artifact record of a successful build: the installed
/// headers, the located library directory, and the plan's library
/// table. An install root with neither `lib` nor `lib64` is fatal.
pub fn resolve_artifacts(
    install_dir: &str,
    lib_present: bool,
    lib64_present: bool,
    plan: &BuildPlan,
) -> (r: Result<Artifacts, BuildError>)
    ensures
        !lib_present && !lib64_present ==> r == Err::<Artifacts, BuildError>(
            BuildError::LibDirNotFound,
        ),
        lib_present || lib64_present ==> (r matches Ok(a) && a@ == ArtifactsView {
            include_dir: joined(install_dir@, "include"@),
            lib_dir: if lib_present {
                joined(install_dir@, "lib"@)
            } else {
                joined(install_dir@, "lib64"@)
            },
            libraries: plan@.libraries,
        }),
{
    let lib_dir = match choose_lib_dir(install_dir, lib_present, lib64_present) {
        Ok(d) => d,
        Err(e) => {
            return Err(e);
        },
    };
    Ok(
        Artifacts {
            include_dir: join_path(install_dir, "include"),
            lib_dir,
            libraries: clone_libraries(&plan.libraries),
        },
    )
}

} // verus!
