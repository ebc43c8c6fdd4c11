//! What comes back from the two servers, as plain values.

use crate::fhir::{Root, RootView};
use vstd::prelude::*;

verus! {

/// What came back from the pseudonym registry.
#[derive(Debug, Clone, PartialEq)]
pub enum RegistryReply {
    /// The request did not get through.
    Unreachable,
    /// The registry answered.
    Answered {
        /// The status code of the answer.
        status: u16,
        /// The value of the location header, where the answer has one that
        /// is a text.
        location: Option<String>,
        /// The body of the answer.
        body: Vec<u8>,
    },
}

/// What came back from the clinical data server.
#[derive(Debug, Clone, PartialEq)]
pub enum ClinicalReply {
    /// The request did not get through.
    Unreachable,
    /// The server answered.
    Answered {
        /// The status code of the answer.
        status: u16,
        /// The search result in the body of the answer, where it holds one.
        bundle: Option<Root>,
    },
}

/// Mathematical model of a [`RegistryReply`].
pub ghost enum RegistryReplyView {
    Unreachable,
    Answered { status: u16, location: Option<Seq<char>>, body: Seq<u8> },
}

/// Mathematical model of a [`ClinicalReply`].
pub ghost enum ClinicalReplyView {
    Unreachable,
    Answered { status: u16, bundle: Option<RootView> },
}

impl DeepView for RegistryReply {
    type V = RegistryReplyView;

    open spec fn deep_view(&self) -> RegistryReplyView {
        match self {
            RegistryReply::Unreachable => RegistryReplyView::Unreachable,
            RegistryReply::Answered { status, location, body } => RegistryReplyView::Answered {
                status: *status,
                location: location.deep_view(),
                body: body@,
            },
        }
    }
}

impl View for RegistryReply {
    type V = RegistryReplyView;

    open spec fn view(&self) -> RegistryReplyView {
        self.deep_view()
    }
}

impl DeepView for ClinicalReply {
    type V = ClinicalReplyView;

    open spec fn deep_view(&self) -> ClinicalReplyView {
        match self {
            ClinicalReply::Unreachable => ClinicalReplyView::Unreachable,
            ClinicalReply::Answered { status, bundle } => ClinicalReplyView::Answered {
                status: *status,
                bundle: bundle.deep_view(),
            },
        }
    }
}

impl View for ClinicalReply {
    type V = ClinicalReplyView;

    open spec fn view(&self) -> ClinicalReplyView {
        self.deep_view()
    }
}

/// A status code that reports success: one from 200 to 299.
pub open spec fn is_success(status: u16) -> bool {
    200 <= status <= 299
}

/// Tells whether a status code reports success.
pub fn succeeded(status: u16) -> (success: bool)
    ensures
        success == is_success(status),
{
    200 <= status && status <= 299
}

} // verus!
