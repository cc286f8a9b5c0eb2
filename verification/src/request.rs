//! The selection request builder: from the caller's configuration to the
//! descriptor that the native picker is opened with.

use vstd::prelude::*;

verus! {

/// The title of a picker whose caller gave none.
pub const DEFAULT_TITLE: &'static str = "Select File";

/// One extension filter: the label shown to the user, then the extensions it admits.
pub type Filter = (String, Vec<String>);

/// What the caller asks for. Every field is optional.
#[derive(Debug, PartialEq, Eq)]
pub struct SelectionConfig {
    /// The title of the picker's window.
    pub title: Option<String>,
    /// The directory that the picker opens in, provided that it exists.
    pub default_path: Option<String>,
    /// The extension filters, in the order in which the user is to see them.
    pub filters: Option<Vec<Filter>>,
}

/// What the native picker is opened with.
#[derive(Debug, PartialEq, Eq)]
pub struct DialogRequest {
    /// The title of the picker's window.
    pub title: String,
    /// The directory that the picker is made to open in, if any.
    pub directory: Option<String>,
    /// The extension filters to register, first to last.
    pub filters: Vec<Filter>,
}

/// The mathematical value of a [`SelectionConfig`].
pub struct SelectionConfigView {
    pub title: Option<Seq<char>>,
    pub default_path: Option<Seq<char>>,
    pub filters: Option<Seq<(Seq<char>, Seq<Seq<char>>)>>,
}

/// The mathematical value of a [`DialogRequest`].
pub struct DialogRequestView {
    pub title: Seq<char>,
    pub directory: Option<Seq<char>>,
    pub filters: Seq<(Seq<char>, Seq<Seq<char>>)>,
}

impl View for SelectionConfig {
    type V = SelectionConfigView;

    open spec fn view(&self) -> SelectionConfigView {
        SelectionConfigView {
            title: self.title.deep_view(),
            default_path: self.default_path.deep_view(),
            filters: self.filters.deep_view(),
        }
    }
}

impl View for DialogRequest {
    type V = DialogRequestView;

    open spec fn view(&self) -> DialogRequestView {
        DialogRequestView {
            title: self.title@,
            directory: self.directory.deep_view(),
            filters: self.filters.deep_view(),
        }
    }
}

impl SelectionConfigView {
    /// The request that this configuration stands for, given whether its
    /// default path exists.
    ///
    /// The title is the caller's, or [`DEFAULT_TITLE`]. The directory is the
    /// caller's default path where that exists, and absent otherwise. The
    /// filters are the caller's, unchanged and in the same order.
    pub open spec fn request(self, default_path_exists: bool) -> DialogRequestView {
        DialogRequestView {
            title: match self.title {
                Some(title) => title,
                None => DEFAULT_TITLE@,
            },
            directory: if default_path_exists {
                self.default_path
            } else {
                None
            },
            filters: match self.filters {
                Some(filters) => filters,
                None => Seq::empty(),
            },
        }
    }
}

/// Builds the descriptor for one selection request.
///
/// `default_path_exists` is the answer to the question whether
/// `config.default_path` exists on disk now; where no default path is
/// configured it has no effect. No configuration is refused.
pub fn build_request(config: SelectionConfig, default_path_exists: bool) -> (request:
    DialogRequest)
    ensures
        request@ == config@.request(default_path_exists),
{
    let title = match config.title {
        Some(title) => title,
        None => DEFAULT_TITLE.to_owned(),
    };
    let directory = if default_path_exists {
        config.default_path
    } else {
        None
    };
    let filters = match config.filters {
        Some(filters) => filters,
        None => Vec::new(),
    };
    let request = DialogRequest { title, directory, filters };
    assert(request@.filters =~= config@.request(default_path_exists).filters);
    request
}

} // verus!
