//! Patient resources and search bundles of the clinical data server, and the
//! project-membership marker that is attached to a patient.

use vstd::prelude::*;

verus! {

/// A search result as the clinical data server returns it.
#[derive(Default, Debug, Clone, PartialEq)]
pub struct Root {
    pub id: String,
    pub type_field: String,
    pub entry: Vec<Entry>,
    pub link: Vec<Link>,
    pub total: i64,
    pub resource_type: String,
}

/// One match of a search result.
#[derive(Default, Debug, Clone, PartialEq)]
pub struct Entry {
    pub full_url: String,
    pub resource: Resource,
}

/// A patient resource.
#[derive(Default, Debug, Clone, PartialEq)]
pub struct Resource {
    pub meta: Meta,
    pub birth_date: Option<String>,
    pub resource_type: String,
    pub gender: Option<String>,
    pub name: Option<String>,
    pub deceased_date_time: Option<String>,
    pub deceased: Option<bool>,
    pub id: String,
    pub identifier: Option<Vec<Identifier>>,
    pub extension: Option<Vec<Extension>>,
}

/// Version data that the server keeps for a resource.
#[derive(Default, Debug, Clone, PartialEq)]
pub struct Meta {
    pub version_id: String,
    pub last_updated: String,
    pub profile: Vec<String>,
}

/// An identifier under which a patient is known.
#[derive(Default, Debug, Clone, PartialEq)]
pub struct Identifier {
    pub type_field: Type,
    pub value: String,
}

/// The kind of an identifier.
#[derive(Default, Debug, Clone, PartialEq)]
pub struct Type {
    pub coding: Vec<Coding>,
}

/// A code of a coding system.
#[derive(Default, Debug, Clone, PartialEq)]
pub struct Coding {
    pub system: String,
    pub code: String,
}

/// How an entry came to be in a search result.
#[derive(Default, Debug, Clone, PartialEq)]
pub struct Search {
    pub mode: String,
}

/// A link that belongs to a search result.
#[derive(Default, Debug, Clone, PartialEq)]
pub struct Link {
    pub relation: String,
    pub url: String,
}

/// A marker on a patient resource, identified by its URL.
#[derive(Default, Debug, Clone, PartialEq)]
pub struct Extension {
    pub url: String,
}

/// Mathematical model of a [`Root`].
pub ghost struct RootView {
    pub id: Seq<char>,
    pub type_field: Seq<char>,
    pub entry: Seq<EntryView>,
    pub link: Seq<LinkView>,
    pub total: i64,
    pub resource_type: Seq<char>,
}

/// Mathematical model of an [`Entry`].
pub ghost struct EntryView {
    pub full_url: Seq<char>,
    pub resource: ResourceView,
}

/// Mathematical model of a [`Resource`].
pub ghost struct ResourceView {
    pub meta: MetaView,
    pub birth_date: Option<Seq<char>>,
    pub resource_type: Seq<char>,
    pub gender: Option<Seq<char>>,
    pub name: Option<Seq<char>>,
    pub deceased_date_time: Option<Seq<char>>,
    pub deceased: Option<bool>,
    pub id: Seq<char>,
    pub identifier: Option<Seq<IdentifierView>>,
    pub extension: Option<Seq<ExtensionView>>,
}

/// Mathematical model of a [`Meta`].
pub ghost struct MetaView {
    pub version_id: Seq<char>,
    pub last_updated: Seq<char>,
    pub profile: Seq<Seq<char>>,
}

/// Mathematical model of an [`Identifier`].
pub ghost struct IdentifierView {
    pub type_field: TypeView,
    pub value: Seq<char>,
}

/// Mathematical model of a [`Type`].
pub ghost struct TypeView {
    pub coding: Seq<CodingView>,
}

/// Mathematical model of a [`Coding`].
pub ghost struct CodingView {
    pub system: Seq<char>,
    pub code: Seq<char>,
}

/// Mathematical model of a [`Search`].
pub ghost struct SearchView {
    pub mode: Seq<char>,
}

/// Mathematical model of a [`Link`].
pub ghost struct LinkView {
    pub relation: Seq<char>,
    pub url: Seq<char>,
}

/// Mathematical model of an [`Extension`].
pub ghost struct ExtensionView {
    pub url: Seq<char>,
}

impl DeepView for Extension {
    type V = ExtensionView;

    open spec fn deep_view(&self) -> ExtensionView {
        ExtensionView { url: self.url@ }
    }
}

impl View for Extension {
    type V = ExtensionView;

    open spec fn view(&self) -> ExtensionView {
        self.deep_view()
    }
}

impl DeepView for Link {
    type V = LinkView;

    open spec fn deep_view(&self) -> LinkView {
        LinkView { relation: self.relation@, url: self.url@ }
    }
}

impl View for Link {
    type V = LinkView;

    open spec fn view(&self) -> LinkView {
        self.deep_view()
    }
}

impl DeepView for Search {
    type V = SearchView;

    open spec fn deep_view(&self) -> SearchView {
        SearchView { mode: self.mode@ }
    }
}

impl View for Search {
    type V = SearchView;

    open spec fn view(&self) -> SearchView {
        self.deep_view()
    }
}

impl DeepView for Coding {
    type V = CodingView;

    open spec fn deep_view(&self) -> CodingView {
        CodingView { system: self.system@, code: self.code@ }
    }
}

impl View for Coding {
    type V = CodingView;

    open spec fn view(&self) -> CodingView {
        self.deep_view()
    }
}

impl DeepView for Type {
    type V = TypeView;

    open spec fn deep_view(&self) -> TypeView {
        TypeView { coding: self.coding.deep_view() }
    }
}

impl View for Type {
    type V = TypeView;

    open spec fn view(&self) -> TypeView {
        self.deep_view()
    }
}

impl DeepView for Identifier {
    type V = IdentifierView;

    open spec fn deep_view(&self) -> IdentifierView {
        IdentifierView { type_field: self.type_field.deep_view(), value: self.value@ }
    }
}

impl View for Identifier {
    type V = IdentifierView;

    open spec fn view(&self) -> IdentifierView {
        self.deep_view()
    }
}

impl DeepView for Meta {
    type V = MetaView;

    open spec fn deep_view(&self) -> MetaView {
        MetaView {
            version_id: self.version_id@,
            last_updated: self.last_updated@,
            profile: self.profile.deep_view(),
        }
    }
}

impl View for Meta {
    type V = MetaView;

    open spec fn view(&self) -> MetaView {
        self.deep_view()
    }
}

impl DeepView for Resource {
    type V = ResourceView;

    open spec fn deep_view(&self) -> ResourceView {
        ResourceView {
            meta: self.meta.deep_view(),
            birth_date: self.birth_date.deep_view(),
            resource_type: self.resource_type@,
            gender: self.gender.deep_view(),
            name: self.name.deep_view(),
            deceased_date_time: self.deceased_date_time.deep_view(),
            deceased: self.deceased,
            id: self.id@,
            identifier: self.identifier.deep_view(),
            extension: self.extension.deep_view(),
        }
    }
}

impl View for Resource {
    type V = ResourceView;

    open spec fn view(&self) -> ResourceView {
        self.deep_view()
    }
}

impl DeepView for Entry {
    type V = EntryView;

    open spec fn deep_view(&self) -> EntryView {
        EntryView { full_url: self.full_url@, resource: self.resource.deep_view() }
    }
}

impl View for Entry {
    type V = EntryView;

    open spec fn view(&self) -> EntryView {
        self.deep_view()
    }
}

impl DeepView for Root {
    type V = RootView;

    open spec fn deep_view(&self) -> RootView {
        RootView {
            id: self.id@,
            type_field: self.type_field@,
            entry: self.entry.deep_view(),
            link: self.link.deep_view(),
            total: self.total,
            resource_type: self.resource_type@,
        }
    }
}

impl View for Root {
    type V = RootView;

    open spec fn view(&self) -> RootView {
        self.deep_view()
    }
}

} // verus!
