//! The archive item record and its decoding from wire fields.

use vstd::prelude::*;

use crate::category::{category_of, label, parse_category, Category};

verus! {

/// The single domain record: a categorized link with a title.
#[derive(Debug)]
pub struct ArchiveItem {
    pub category: Category,
    pub url: String,
    pub title: String,
}

/// The mathematical value of an [`ArchiveItem`].
pub struct ArchiveItemView {
    pub category: Category,
    pub url: Seq<char>,
    pub title: Seq<char>,
}

impl View for ArchiveItem {
    type V = ArchiveItemView;

    open spec fn view(&self) -> ArchiveItemView {
        ArchiveItemView { category: self.category, url: self.url@, title: self.title@ }
    }
}

impl ArchiveItem {
    /// A fixed sample record, handy for exercising the store end to end.
    pub fn standard_test_item() -> (r: ArchiveItem)
        ensures
            r@.category == Category::ComputerScience,
            r@.url == "https://www.example.com"@,
            r@.title == "Example"@,
    {
        ArchiveItem {
            category: Category::ComputerScience,
            url: "https://www.example.com".to_owned(),
            title: "Example".to_owned(),
        }
    }
}

/// Why a wire record failed to decode into an [`ArchiveItem`].
#[derive(Debug, Clone, Copy, PartialEq, Eq, Structural)]
pub enum DecodeError {
    /// The body was not a JSON object at all.
    MalformedJson,
    /// The `category` field was absent or not a string.
    MissingCategory,
    /// The `category` field was a string outside the closed enumeration.
    UnknownCategory,
    /// The `itemUrl` field was absent or not a string.
    MissingUrl,
    /// The `title` field was absent or not a string.
    MissingTitle,
}

/// What decoding the three wire fields yields: the record exactly when all
/// three are present and the category label is recognized, and otherwise the
/// error naming the first field (in wire order) that is unusable.
pub open spec fn spec_decode(
    category: Option<Seq<char>>,
    url: Option<Seq<char>>,
    title: Option<Seq<char>>,
) -> Result<ArchiveItemView, DecodeError> {
    match category {
        Option::None => Result::Err(DecodeError::MissingCategory),
        Option::Some(c) => match category_of(c) {
            Option::None => Result::Err(DecodeError::UnknownCategory),
            Option::Some(cat) => match url {
                Option::None => Result::Err(DecodeError::MissingUrl),
                Option::Some(u) => match title {
                    Option::None => Result::Err(DecodeError::MissingTitle),
                    Option::Some(t) => Result::Ok(
                        ArchiveItemView { category: cat, url: u, title: t },
                    ),
                },
            },
        },
    }
}

/// The view of an optional owned string.
pub open spec fn opt_view(o: Option<String>) -> Option<Seq<char>> {
    match o {
        Option::None => Option::<Seq<char>>::None,
        Option::Some(s) => Option::Some(s@),
    }
}

/// The view of a decode result.
pub open spec fn decode_result_view(r: Result<ArchiveItem, DecodeError>) -> Result<
    ArchiveItemView,
    DecodeError,
> {
    match r {
        Result::Ok(item) => Result::Ok(item@),
        Result::Err(e) => Result::Err(e),
    }
}

/// Builds an [`ArchiveItem`] from the three optional wire fields, failing
/// exactly as [`spec_decode`] says: a missing field or an unrecognized
/// category label is rejected.
pub fn from_fields(category: Option<String>, url: Option<String>, title: Option<String>) -> (r:
    Result<ArchiveItem, DecodeError>)
    ensures
        decode_result_view(r) == spec_decode(opt_view(category), opt_view(url), opt_view(title)),
{
    let cat_text = match category {
        Option::Some(c) => c,
        Option::None => {
            return Result::Err(DecodeError::MissingCategory);
        },
    };
    let cat = match parse_category(&cat_text) {
        Option::Some(cat) => cat,
        Option::None => {
            return Result::Err(DecodeError::UnknownCategory);
        },
    };
    let url = match url {
        Option::Some(u) => u,
        Option::None => {
            return Result::Err(DecodeError::MissingUrl);
        },
    };
    let title = match title {
        Option::Some(t) => t,
        Option::None => {
            return Result::Err(DecodeError::MissingTitle);
        },
    };
    Result::Ok(ArchiveItem { category: cat, url, title })
}

/// Round trip: a record's own wire fields decode back to that record, for
/// every category in the enumeration and all URL and title strings.
pub proof fn lemma_fields_round_trip(v: ArchiveItemView)
    ensures
        spec_decode(Some(label(v.category)), Some(v.url), Some(v.title)) == Ok::<
            ArchiveItemView,
            DecodeError,
        >(v),
{
    crate::category::lemma_label_round_trip(v.category);
}

/// A decode with a missing field, or with a category label outside the
/// enumeration, always fails.
pub proof fn lemma_incomplete_fields_fail(
    category: Option<Seq<char>>,
    url: Option<Seq<char>>,
    title: Option<Seq<char>>,
)
    requires
        category is None || url is None || title is None || category_of(category->0) is None,
    ensures
        spec_decode(category, url, title) is Err,
{
}

} // verus!
