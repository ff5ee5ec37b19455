//! The closed category enumeration and its wire labels.

use vstd::prelude::*;

verus! {

/// The recognized categories of an archive item. The wire format uses the
/// snake_case labels given by [`label`].
#[derive(Debug, Clone, Copy, PartialEq, Eq, Structural)]
pub enum Category {
    Capitalism,
    ComputerScience,
    Career,
    Rust,
    Typescript,
}

/// The wire label of a category, as it appears in JSON.
pub open spec fn label(c: Category) -> Seq<char> {
    match c {
        Category::Capitalism => "capitalism"@,
        Category::ComputerScience => "computer_science"@,
        Category::Career => "career"@,
        Category::Rust => "rust"@,
        Category::Typescript => "typescript"@,
    }
}

/// The category whose wire label is `s`, if any.
pub open spec fn category_of(s: Seq<char>) -> Option<Category> {
    if s == label(Category::Capitalism) {
        Some(Category::Capitalism)
    } else if s == label(Category::ComputerScience) {
        Some(Category::ComputerScience)
    } else if s == label(Category::Career) {
        Some(Category::Career)
    } else if s == label(Category::Rust) {
        Some(Category::Rust)
    } else if s == label(Category::Typescript) {
        Some(Category::Typescript)
    } else {
        None
    }
}

impl Category {
    /// The wire label of this category as an owned string.
    pub fn wire_label(&self) -> (r: String)
        ensures
            r@ == label(*self),
    {
        match self {
            Category::Capitalism => "capitalism".to_owned(),
            Category::ComputerScience => "computer_science".to_owned(),
            Category::Career => "career".to_owned(),
            Category::Rust => "rust".to_owned(),
            Category::Typescript => "typescript".to_owned(),
        }
    }
}

/// Parses a wire label back into a category; `None` for anything outside the
/// closed enumeration.
pub fn parse_category(s: &String) -> (r: Option<Category>)
    ensures
        r == category_of(s@),
{
    if *s == "capitalism".to_owned() {
        Some(Category::Capitalism)
    } else if *s == "computer_science".to_owned() {
        Some(Category::ComputerScience)
    } else if *s == "career".to_owned() {
        Some(Category::Career)
    } else if *s == "rust".to_owned() {
        Some(Category::Rust)
    } else if *s == "typescript".to_owned() {
        Some(Category::Typescript)
    } else {
        None
    }
}

/// Every category's label parses back to that category: the labels are
/// pairwise distinct, so the enumeration round-trips through its wire form.
pub proof fn lemma_label_round_trip(c: Category)
    ensures
        category_of(label(c)) == Some(c),
{
    reveal_strlit("capitalism");
    reveal_strlit("computer_science");
    reveal_strlit("career");
    reveal_strlit("rust");
    reveal_strlit("typescript");
    match c {
        Category::Capitalism => {
            assert(category_of(label(c)) == Some(c));
        },
        Category::ComputerScience => {
            assert(label(c).len() != label(Category::Capitalism).len());
            assert(category_of(label(c)) == Some(c));
        },
        Category::Career => {
            assert(label(c).len() != label(Category::Capitalism).len());
            assert(label(c).len() != label(Category::ComputerScience).len());
            assert(category_of(label(c)) == Some(c));
        },
        Category::Rust => {
            assert(label(c).len() != label(Category::Capitalism).len());
            assert(label(c).len() != label(Category::ComputerScience).len());
            assert(label(c).len() != label(Category::Career).len());
            assert(category_of(label(c)) == Some(c));
        },
        Category::Typescript => {
            assert(label(c)[0] != label(Category::Capitalism)[0]);
            assert(label(c).len() != label(Category::ComputerScience).len());
            assert(label(c).len() != label(Category::Career).len());
            assert(label(c).len() != label(Category::Rust).len());
            assert(category_of(label(c)) == Some(c));
        },
    }
}

} // verus!
