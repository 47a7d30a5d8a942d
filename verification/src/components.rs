//! Presentational components.
//!
//! Each component is a function from its props to a description of the one
//! element it renders: the class string and the other attributes, the
//! content passed through untouched, and the handlers that the element
//! dispatches to. None of them keeps state.
//!
//! Content and handlers are type parameters. A component never looks inside
//! them, so the embedding application is free in what it puts there.

pub mod button;
pub mod card;
pub mod input;
pub mod layout;

use vstd::prelude::*;
use crate::classes::{compose, composed, optional_view, views};

verus! {

/// What an optional string reads, where there is one.
pub open spec fn text_of(s: Option<String>) -> Option<Seq<char>> {
    match s {
        Some(s) => Some(s@),
        None => None,
    }
}

/// What an optional attribute reads: its text, or nothing where it is not set.
pub open spec fn text_or_empty(s: Option<String>) -> Seq<char> {
    match s {
        Some(s) => s@,
        None => Seq::empty(),
    }
}

/// Borrows the text of an optional string.
pub fn as_text(s: &Option<String>) -> (text: Option<&str>)
    ensures
        optional_view(text) == text_of(*s),
{
    match s {
        Some(s) => Some(s.as_str()),
        None => None,
    }
}

/// Takes the text of an optional attribute, or the empty string where it is
/// not set.
pub fn into_text(s: Option<String>) -> (text: String)
    ensures
        text@ == text_or_empty(s),
{
    match s {
        Some(s) => s,
        None => String::new(),
    }
}

/// Composes the class string of an element that has no variants: the base
/// classes and then the caller's.
pub fn classes_with(base: &str, class: &Option<String>) -> (classes: String)
    ensures
        classes@ == composed(base@, Seq::empty(), text_of(*class)),
{
    let none: [&str; 0] = [];
    proof {
        assert(views(none@) =~= Seq::empty());
    }
    compose(base, none.as_slice(), as_text(class))
}

/// An element that only wraps its content: a class string and the content
/// as it was given.
#[derive(Debug, Clone, PartialEq)]
pub struct Container<C> {
    pub class: String,
    pub children: C,
}

/// Wraps `children` in a container with the base classes and then the
/// caller's.
pub fn container<C>(base: &str, class: &Option<String>, children: C) -> (element: Container<C>)
    ensures
        element.class@ == composed(base@, Seq::empty(), text_of(*class)),
        element.children == children,
{
    Container { class: classes_with(base, class), children }
}

} // verus!
