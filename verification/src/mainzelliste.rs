//! The token request of the pseudonym registry, and the identifier types that
//! it names.

use crate::project::Project;
use vstd::prelude::*;

verus! {

/// A token request: what kind of token is asked for, and for which patients.
#[derive(Default, Debug, Clone, PartialEq)]
pub struct Token {
    pub type_field: String,
    pub data: Data,
}

/// The patients that a token covers, the identifiers it gives out, and who
/// asks.
#[derive(Default, Debug, Clone, PartialEq)]
pub struct Data {
    pub search_ids: Vec<SearchId>,
    pub result_ids: Vec<String>,
    pub audit_trail: AuditTrail,
}

/// A search over the identifiers of one identifier type.
#[derive(Default, Debug, Clone, PartialEq)]
pub struct SearchId {
    pub id_string: String,
    pub id_type: String,
}

/// Who asks for a token, from where, and why.
#[derive(Default, Debug, Clone, PartialEq)]
pub struct AuditTrail {
    pub username: String,
    pub remote_system: String,
    pub reason_for_change: String,
}

/// The scope under which pseudonyms are resolved: that of the local site, or
/// the global one.
#[derive(Debug, Clone, Copy, PartialEq, Eq, Structural)]
pub enum Category {
    Local,
    Global,
}

/// Mathematical model of a [`Token`].
pub ghost struct TokenView {
    pub type_field: Seq<char>,
    pub data: DataView,
}

/// Mathematical model of a [`Data`].
pub ghost struct DataView {
    pub search_ids: Seq<SearchIdView>,
    pub result_ids: Seq<Seq<char>>,
    pub audit_trail: AuditTrailView,
}

/// Mathematical model of a [`SearchId`].
pub ghost struct SearchIdView {
    pub id_string: Seq<char>,
    pub id_type: Seq<char>,
}

/// Mathematical model of an [`AuditTrail`].
pub ghost struct AuditTrailView {
    pub username: Seq<char>,
    pub remote_system: Seq<char>,
    pub reason_for_change: Seq<char>,
}

impl DeepView for AuditTrail {
    type V = AuditTrailView;

    open spec fn deep_view(&self) -> AuditTrailView {
        AuditTrailView {
            username: self.username@,
            remote_system: self.remote_system@,
            reason_for_change: self.reason_for_change@,
        }
    }
}

impl View for AuditTrail {
    type V = AuditTrailView;

    open spec fn view(&self) -> AuditTrailView {
        self.deep_view()
    }
}

impl DeepView for SearchId {
    type V = SearchIdView;

    open spec fn deep_view(&self) -> SearchIdView {
        SearchIdView { id_string: self.id_string@, id_type: self.id_type@ }
    }
}

impl View for SearchId {
    type V = SearchIdView;

    open spec fn view(&self) -> SearchIdView {
        self.deep_view()
    }
}

impl DeepView for Data {
    type V = DataView;

    open spec fn deep_view(&self) -> DataView {
        DataView {
            search_ids: self.search_ids.deep_view(),
            result_ids: self.result_ids.deep_view(),
            audit_trail: self.audit_trail.deep_view(),
        }
    }
}

impl View for Data {
    type V = DataView;

    open spec fn view(&self) -> DataView {
        self.deep_view()
    }
}

impl DeepView for Token {
    type V = TokenView;

    open spec fn deep_view(&self) -> TokenView {
        TokenView { type_field: self.type_field@, data: self.data.deep_view() }
    }
}

impl View for Token {
    type V = TokenView;

    open spec fn view(&self) -> TokenView {
        self.deep_view()
    }
}

/// The kind of token that lets its holder read patients.
pub const READ_PATIENTS: &'static str = "readPatients";

/// The search string that matches every identifier.
pub const ANY_IDENTIFIER: &'static str = "*";

/// The user named in the audit trail of this batch process.
pub const AUDIT_USERNAME: &'static str = "test";

/// The system named in the audit trail of this batch process.
pub const AUDIT_REMOTE_SYSTEM: &'static str = "test";

/// The reason given in the audit trail of this batch process.
pub const AUDIT_REASON: &'static str = "keine";

impl Category {
    /// The letter that stands for the category in an identifier type.
    pub open spec fn letter(self) -> Seq<char> {
        match self {
            Category::Local => "L"@,
            Category::Global => "G"@,
        }
    }

    /// The letter that stands for the category in an identifier type.
    pub fn code(self) -> (code: &'static str)
        ensures
            code@ == self.letter(),
    {
        match self {
            Category::Local => "L",
            Category::Global => "G",
        }
    }
}

/// The identifier type under which the pseudonyms of a project are searched:
/// project code, site and category letter joined by `_`, then `-ID`.
pub open spec fn search_id_type_of(code: Seq<char>, site: Seq<char>, category: Category) -> Seq<
    char,
> {
    code + "_"@ + site + "_"@ + category.letter() + "-ID"@
}

/// The identifier type in which the registry gives its matches out: `BK`,
/// site and category letter joined by `_`, then `-ID`.
pub open spec fn result_id_type_of(site: Seq<char>, category: Category) -> Seq<char> {
    "BK_"@ + site + "_"@ + category.letter() + "-ID"@
}

/// The token request for the pseudonyms of a project at a site, in one
/// category.
pub open spec fn token_request_of(
    code: Seq<char>,
    site: Seq<char>,
    category: Category,
) -> TokenView {
    TokenView {
        type_field: READ_PATIENTS@,
        data: DataView {
            search_ids: seq![
                SearchIdView {
                    id_string: ANY_IDENTIFIER@,
                    id_type: search_id_type_of(code, site, category),
                },
            ],
            result_ids: seq![result_id_type_of(site, category)],
            audit_trail: AuditTrailView {
                username: AUDIT_USERNAME@,
                remote_system: AUDIT_REMOTE_SYSTEM@,
                reason_for_change: AUDIT_REASON@,
            },
        },
    }
}

/// Builds the identifier type under which the pseudonyms of a project are
/// searched.
pub fn search_id_type(code: &str, site: &str, category: Category) -> (id_type: String)
    ensures
        id_type@ == search_id_type_of(code@, site@, category),
{
    let mut id_type = String::from_str(code);
    id_type.append("_");
    id_type.append(site);
    id_type.append("_");
    id_type.append(category.code());
    id_type.append("-ID");
    id_type
}

/// Builds the identifier type in which the registry gives its matches out.
pub fn result_id_type(site: &str, category: Category) -> (id_type: String)
    ensures
        id_type@ == result_id_type_of(site@, category),
{
    let mut id_type = String::from_str("BK_");
    id_type.append(site);
    id_type.append("_");
    id_type.append(category.code());
    id_type.append("-ID");
    id_type
}

/// Builds the token request for the pseudonyms of a project at a site, in one
/// category: a token to read patients, found by a search for every
/// identifier of the project's identifier type, given out in the site's
/// identifier type, with the audit trail of this batch process.
pub fn token_request(project: &Project, site: &str, category: Category) -> (request: Token)
    ensures
        request@ == token_request_of(project.id@, site@, category),
{
    let search = SearchId {
        id_string: String::from_str(ANY_IDENTIFIER),
        id_type: search_id_type(project.id.as_str(), site, category),
    };
    let audit_trail = AuditTrail {
        username: String::from_str(AUDIT_USERNAME),
        remote_system: String::from_str(AUDIT_REMOTE_SYSTEM),
        reason_for_change: String::from_str(AUDIT_REASON),
    };
    let mut search_ids: Vec<SearchId> = Vec::new();
    search_ids.push(search);
    let mut result_ids: Vec<String> = Vec::new();
    result_ids.push(result_id_type(site, category));
    let request = Token {
        type_field: String::from_str(READ_PATIENTS),
        data: Data { search_ids, result_ids, audit_trail },
    };
    assert(request.data.search_ids.deep_view() =~= token_request_of(
        project.id@,
        site@,
        category,
    ).data.search_ids);
    assert(request.data.result_ids.deep_view() =~= token_request_of(
        project.id@,
        site@,
        category,
    ).data.result_ids);
    request
}

} // verus!
