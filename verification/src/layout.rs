use vstd::prelude::*;
use vstd::string::*;

verus! {

/// A style attribute a view may set.
#[derive(Debug, Clone, Copy, PartialEq, Eq, Structural)]
pub enum StyleAttr {
    FlexDirection,
    AlignItems,
    JustifyContent,
    Width,
    Height,
    MinWidth,
    MinHeight,
    MaxWidth,
    MaxHeight,
    Flex,
    Unknown,
}

/// The attribute a style key names; keys are snake case, and any other key
/// is `Unknown`.
pub open spec fn style_attr_of(s: Seq<char>) -> StyleAttr {
    if s == "flex_direction"@ {
        StyleAttr::FlexDirection
    } else if s == "align_items"@ {
        StyleAttr::AlignItems
    } else if s == "justify_content"@ {
        StyleAttr::JustifyContent
    } else if s == "width"@ {
        StyleAttr::Width
    } else if s == "height"@ {
        StyleAttr::Height
    } else if s == "min_width"@ {
        StyleAttr::MinWidth
    } else if s == "min_height"@ {
        StyleAttr::MinHeight
    } else if s == "max_width"@ {
        StyleAttr::MaxWidth
    } else if s == "max_height"@ {
        StyleAttr::MaxHeight
    } else if s == "flex"@ {
        StyleAttr::Flex
    } else {
        StyleAttr::Unknown
    }
}

/// Whether `a` and `b` hold the same characters.
fn str_eq(a: &str, b: &str) -> (r: bool)
    ensures
        r == (a@ == b@),
{
    let n = a.unicode_len();
    if n != b.unicode_len() {
        return false;
    }
    let mut i: usize = 0;
    while i < n
        invariant
            n == a@.len(),
            n == b@.len(),
            i <= n,
            forall|j: int| 0 <= j < i ==> a@[j] == b@[j],
        decreases n - i,
    {
        if a.get_char(i) != b.get_char(i) {
            return false;
        }
        i = i + 1;
    }
    assert(a@ =~= b@);
    true
}

impl StyleAttr {
    /// The attribute a style key names.
    pub fn from_str(s: &str) -> (r: StyleAttr)
        ensures
            r == style_attr_of(s@),
    {
        if str_eq(s, "flex_direction") {
            StyleAttr::FlexDirection
        } else if str_eq(s, "align_items") {
            StyleAttr::AlignItems
        } else if str_eq(s, "justify_content") {
            StyleAttr::JustifyContent
        } else if str_eq(s, "width") {
            StyleAttr::Width
        } else if str_eq(s, "height") {
            StyleAttr::Height
        } else if str_eq(s, "min_width") {
            StyleAttr::MinWidth
        } else if str_eq(s, "min_height") {
            StyleAttr::MinHeight
        } else if str_eq(s, "max_width") {
            StyleAttr::MaxWidth
        } else if str_eq(s, "max_height") {
            StyleAttr::MaxHeight
        } else if str_eq(s, "flex") {
            StyleAttr::Flex
        } else {
            StyleAttr::Unknown
        }
    }
}

} // verus!
