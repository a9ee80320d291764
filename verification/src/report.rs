//! The metadata reporter: rendering an artifact record into the
//! key/value lines the consuming build pipeline reads.

use vstd::prelude::*;

use crate::artifacts::Artifacts;
use crate::artifacts::ArtifactsView;
use crate::strutil::concat2;
use crate::strutil::push_string;
use crate::LinkKind;

verus! {

/// The link-kind marker in front of a reported library name: empty
/// for default linkage.
pub open spec fn spec_kind_prefix(k: LinkKind) -> Seq<char> {
    match k {
        LinkKind::Static => "static="@,
        LinkKind::Dynamic => "dylib="@,
        LinkKind::Unspecified => ""@,
    }
}

/// The link-kind marker in front of a reported library name.
pub fn kind_prefix(k: LinkKind) -> (r: &'static str)
    ensures
        r@ == spec_kind_prefix(k),
{
    match k {
        LinkKind::Static => "static=",
        LinkKind::Dynamic => "dylib=",
        LinkKind::Unspecified => "",
    }
}

/// One reported library line.
pub open spec fn library_line(lib: (Seq<char>, LinkKind)) -> Seq<char> {
    "link-library="@ + spec_kind_prefix(lib.1) + lib.0
}

/// The metadata lines of a build, in protocol order: one link-search
/// path for the built libraries and one per extra search directory,
/// one line per library, the include and library paths, and the
/// retained output tree when one is kept for downstream consumers.
pub open spec fn spec_report_lines(
    a: ArtifactsView,
    extra_search: Seq<Seq<char>>,
    out_dir: Option<Seq<char>>,
) -> Seq<Seq<char>> {
    seq!["link-search-path="@ + a.lib_dir] + Seq::new(
        extra_search.len(),
        |i: int| "link-search-path="@ + extra_search[i],
    ) + Seq::new(a.libraries.len(), |i: int| library_line(a.libraries[i])) + seq![
        "include-path="@ + a.include_dir,
        "lib-path="@ + a.lib_dir,
    ] + (match out_dir {
        Some(o) => seq!["out-path="@ + o],
        None => Seq::empty(),
    })
}

/// Renders the metadata lines of a successful build.
///
/// `extra_search` carries the plan's additional link-search
/// directories, an external crypto library's among them. `out_dir` is
/// given when the whole unpacked build tree is retained for
/// downstream consumers, and is then reported as well.
pub fn report_lines(a: &Artifacts, extra_search: &Vec<String>, out_dir: Option<&str>) -> (v: Vec<
    String,
>)
    ensures
        v.deep_view() == spec_report_lines(
            a@,
            extra_search.deep_view(),
            match out_dir {
                Some(o) => Some(o@),
                None => None,
            },
        ),
{
    let mut v: Vec<String> = Vec::new();
    push_string(&mut v, concat2("link-search-path=", a.lib_dir.as_str()));
    let mut k: usize = 0;
    while k < extra_search.len()
        invariant
            k <= extra_search@.len(),
            v.deep_view().len() == k + 1,
            v.deep_view()[0] == "link-search-path="@ + a@.lib_dir,
            forall|j: int|
                0 <= j < k ==> v.deep_view()[j + 1] == "link-search-path="@
                    + extra_search.deep_view()[j],
        decreases extra_search@.len() - k,
    {
        push_string(&mut v, concat2("link-search-path=", extra_search[k].as_str()));
        k += 1;
    }
    let ghost searches = v.deep_view();
    let mut i: usize = 0;
    while i < a.libraries.len()
        invariant
            i <= a.libraries@.len(),
            v.deep_view().len() == searches.len() + i,
            v.deep_view().subrange(0, searches.len() as int) == searches,
            forall|j: int|
                0 <= j < i ==> v.deep_view()[searches.len() + j] == library_line(a@.libraries[j]),
        decreases a.libraries@.len() - i,
    {
        let head = concat2("link-library=", kind_prefix(a.libraries[i].1));
        push_string(&mut v, concat2(head.as_str(), a.libraries[i].0.as_str()));
        proof {
            assert(v.deep_view().subrange(0, searches.len() as int) =~= searches);
        }
        i += 1;
    }
    push_string(&mut v, concat2("include-path=", a.include_dir.as_str()));
    push_string(&mut v, concat2("lib-path=", a.lib_dir.as_str()));
    if let Some(o) = out_dir {
        push_string(&mut v, concat2("out-path=", o));
    }
    proof {
        assert(v.deep_view() =~= spec_report_lines(
            a@,
            extra_search.deep_view(),
            match out_dir {
                Some(o) => Some(o@),
                None => None,
            },
        ));
    }
    v
}

} // verus!
