//! Tagging a patient resource with a project-membership marker.
//!
//! The markers of a resource are kept as an ordered list but treated as a set
//! keyed by URL: a marker is appended only where no marker with the same URL is
//! present, nothing is ever removed, and no other field is touched.

use crate::fhir::{Extension, ExtensionView, Resource, ResourceView};
use crate::project::Project;
use vstd::prelude::*;

verus! {

/// The namespace under which project markers live.
pub const PROJECT_NAMESPACE: &'static str = "http://dktk.dkfz.de/fhir/projects/";

/// The marker URL of the project with the given code: the namespace followed
/// by the code.
pub open spec fn marker_url_of(code: Seq<char>) -> Seq<char> {
    PROJECT_NAMESPACE@ + code
}

/// The marker of the project with the given code.
pub open spec fn marker_of(code: Seq<char>) -> ExtensionView {
    ExtensionView { url: marker_url_of(code) }
}

/// The markers of a resource; a resource without a list has none.
pub open spec fn markers(resource: ResourceView) -> Seq<ExtensionView> {
    match resource.extension {
        Some(present) => present,
        None => Seq::empty(),
    }
}

/// The resource with the marker of the project appended, unless it is present.
pub open spec fn tagged(resource: ResourceView, code: Seq<char>) -> ResourceView {
    let present = markers(resource);
    let marker = marker_of(code);
    ResourceView {
        extension: Some(
            if present.contains(marker) {
                present
            } else {
                present.push(marker)
            },
        ),
        ..resource
    }
}

/// How often a marker occurs in a list.
pub open spec fn occurrences(list: Seq<ExtensionView>, marker: ExtensionView) -> nat
    decreases list.len(),
{
    if list.len() == 0 {
        0
    } else {
        occurrences(list.drop_last(), marker) + if list.last() == marker {
            1nat
        } else {
            0nat
        }
    }
}

/// No URL marks the resource twice.
pub open spec fn distinct_markers(resource: ResourceView) -> bool {
    forall|i: int, j: int|
        0 <= i < j < markers(resource).len() ==> markers(resource)[i] != markers(resource)[j]
}

/// Builds the marker URL of a project code.
pub fn marker_url(code: &str) -> (url: String)
    ensures
        url@ == marker_url_of(code@),
{
    let mut url = String::from_str(PROJECT_NAMESPACE);
    url.append(code);
    url
}

/// Tells whether a list holds a marker with the given URL.
pub fn has_marker(list: &Vec<Extension>, url: &String) -> (found: bool)
    ensures
        found == list.deep_view().contains(ExtensionView { url: url@ }),
{
    let ghost wanted = ExtensionView { url: url@ };
    let mut i: usize = 0;
    while i < list.len()
        invariant
            i <= list.len(),
            wanted == (ExtensionView { url: url@ }),
            forall|j: int| 0 <= j < i ==> list.deep_view()[j] != wanted,
        decreases list.len() - i,
    {
        if list[i].url == *url {
            assert(list.deep_view()[i as int] == wanted);
            return true;
        }
        i += 1;
    }
    false
}

/// Tags a patient resource as a member of a project.
///
/// The marker of the project is appended to the markers of the resource unless
/// a marker with the same URL is there already. Every other field, and every
/// marker that was present, is handed back as it came.
pub fn tag_project(resource: Resource, project: &Project) -> (result: Resource)
    ensures
        result@ == tagged(resource@, project.id@),
        result.meta == resource.meta,
        result.birth_date == resource.birth_date,
        result.resource_type == resource.resource_type,
        result.gender == resource.gender,
        result.name == resource.name,
        result.deceased_date_time == resource.deceased_date_time,
        result.deceased == resource.deceased,
        result.id == resource.id,
        result.identifier == resource.identifier,
        markers(resource@).is_prefix_of(markers(result@)),
{
    let Resource {
        meta,
        birth_date,
        resource_type,
        gender,
        name,
        deceased_date_time,
        deceased,
        id,
        identifier,
        extension,
    } = resource;
    let ghost before = markers(resource@);
    let mut list = match extension {
        Some(present) => present,
        None => Vec::new(),
    };
    assert(list.deep_view() =~= before);
    let url = marker_url(project.id.as_str());
    if !has_marker(&list, &url) {
        list.push(Extension { url });
        assert(list.deep_view() =~= before.push(marker_of(project.id@)));
    }
    Resource {
        meta,
        birth_date,
        resource_type,
        gender,
        name,
        deceased_date_time,
        deceased,
        id,
        identifier,
        extension: Some(list),
    }
}

/// A marker that a list does not hold occurs in it zero times, and only such
/// a marker does.
pub proof fn lemma_occurrences_of_absent(list: Seq<ExtensionView>, marker: ExtensionView)
    ensures
        occurrences(list, marker) == 0 <==> !list.contains(marker),
    decreases list.len(),
{
    if list.len() > 0 {
        let front = list.drop_last();
        lemma_occurrences_of_absent(front, marker);
        if list.contains(marker) {
            let i = choose|i: int| 0 <= i < list.len() && list[i] == marker;
            if i < front.len() {
                assert(front[i] == marker);
            }
        }
        if front.contains(marker) {
            let i = choose|i: int| 0 <= i < front.len() && front[i] == marker;
            assert(list[i] == marker);
        }
        if list.last() == marker {
            assert(list[list.len() - 1] == marker);
        }
    }
}

/// In a list without repetitions no marker occurs twice.
pub proof fn lemma_occurrences_in_distinct(list: Seq<ExtensionView>, marker: ExtensionView)
    requires
        forall|i: int, j: int| 0 <= i < j < list.len() ==> list[i] != list[j],
    ensures
        occurrences(list, marker) <= 1,
    decreases list.len(),
{
    if list.len() > 0 {
        let front = list.drop_last();
        assert forall|i: int, j: int| 0 <= i < j < front.len() implies front[i] != front[j] by {
            assert(front[i] == list[i] && front[j] == list[j]);
        }
        lemma_occurrences_in_distinct(front, marker);
        if list.last() == marker {
            lemma_occurrences_of_absent(front, marker);
            if front.contains(marker) {
                let i = choose|i: int| 0 <= i < front.len() && front[i] == marker;
                assert(list[i] == list[list.len() - 1]);
            }
        }
    }
}

/// Tagging never repeats a marker: where the marker of the project was
/// absent it occurs once afterwards, and where it was present it occurs as
/// often as before.
pub proof fn lemma_tagging_adds_at_most_one(resource: ResourceView, code: Seq<char>)
    ensures
        occurrences(markers(tagged(resource, code)), marker_of(code)) == if occurrences(
            markers(resource),
            marker_of(code),
        ) == 0 {
            1nat
        } else {
            occurrences(markers(resource), marker_of(code))
        },
{
    let present = markers(resource);
    let marker = marker_of(code);
    lemma_occurrences_of_absent(present, marker);
    if !present.contains(marker) {
        assert(present.push(marker).drop_last() =~= present);
    }
}

/// Tagging a resource twice with the same project gives what tagging it once
/// gives, and a resource whose markers were distinct then carries the marker
/// of the project exactly once, its markers still distinct.
pub proof fn lemma_tagging_twice_is_tagging_once(resource: ResourceView, code: Seq<char>)
    requires
        distinct_markers(resource),
    ensures
        tagged(tagged(resource, code), code) == tagged(resource, code),
        occurrences(markers(tagged(tagged(resource, code), code)), marker_of(code)) == 1,
        distinct_markers(tagged(tagged(resource, code), code)),
{
    let present = markers(resource);
    let marker = marker_of(code);
    let once = tagged(resource, code);
    if !present.contains(marker) {
        assert(present.push(marker)[present.len() as int] == marker);
    }
    assert(markers(once).contains(marker));
    lemma_tagging_adds_at_most_one(resource, code);
    lemma_occurrences_in_distinct(present, marker);
    assert forall|i: int, j: int| 0 <= i < j < markers(once).len() implies markers(once)[i]
        != markers(once)[j] by {
        if j < present.len() {
            assert(present[i] != present[j]);
        } else {
            assert(present[i] == markers(once)[i]);
        }
    }
}

/// Tagging alters nothing but the list of markers, and of that list it keeps
/// every marker that was present, in the order in which they stood.
pub proof fn lemma_tagging_keeps_the_rest(resource: ResourceView, code: Seq<char>)
    ensures
        tagged(resource, code).meta == resource.meta,
        tagged(resource, code).birth_date == resource.birth_date,
        tagged(resource, code).resource_type == resource.resource_type,
        tagged(resource, code).gender == resource.gender,
        tagged(resource, code).name == resource.name,
        tagged(resource, code).deceased_date_time == resource.deceased_date_time,
        tagged(resource, code).deceased == resource.deceased,
        tagged(resource, code).id == resource.id,
        tagged(resource, code).identifier == resource.identifier,
        markers(resource).is_prefix_of(markers(tagged(resource, code))),
        forall|other: ExtensionView|
            other != marker_of(code) ==> occurrences(markers(tagged(resource, code)), other)
                == occurrences(markers(resource), other),
{
    let present = markers(resource);
    let marker = marker_of(code);
    if !present.contains(marker) {
        assert(present.push(marker).drop_last() =~= present);
    }
}

} // verus!
