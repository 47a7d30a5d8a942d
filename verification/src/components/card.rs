//! The card and its two sections.

use vstd::prelude::*;
use crate::classes::composed;
use crate::components::{container, text_of, Container};

verus! {

/// Classes that every card carries.
pub const CARD_BASE: &'static str =
    "bg-white dark:bg-gray-800 shadow-lg border border-gray-200 dark:border-gray-700 rounded-lg overflow-hidden";

/// Classes that every card header carries.
pub const CARD_HEADER_BASE: &'static str =
    "px-6 py-4 border-b border-gray-200 dark:border-gray-700";

/// Classes that every card body carries.
pub const CARD_CONTENT_BASE: &'static str = "px-6 py-4";

/// What a card is made from.
#[derive(Debug, Clone, PartialEq)]
pub struct CardProps<C> {
    pub class: Option<String>,
    pub children: C,
}

/// What a card header is made from.
#[derive(Debug, Clone, PartialEq)]
pub struct CardHeaderProps<C> {
    pub class: Option<String>,
    pub children: C,
}

/// What a card body is made from.
#[derive(Debug, Clone, PartialEq)]
pub struct CardContentProps<C> {
    pub class: Option<String>,
    pub children: C,
}

impl<C> CardProps<C> {
    /// Props for a card around `children`, with no classes of the caller's.
    pub fn new(children: C) -> (props: Self)
        ensures
            props.class is None,
            props.children == children,
    {
        CardProps { class: None, children }
    }
}

impl<C> CardHeaderProps<C> {
    /// Props for a card header around `children`, with no classes of the caller's.
    pub fn new(children: C) -> (props: Self)
        ensures
            props.class is None,
            props.children == children,
    {
        CardHeaderProps { class: None, children }
    }
}

impl<C> CardContentProps<C> {
    /// Props for a card body around `children`, with no classes of the caller's.
    pub fn new(children: C) -> (props: Self)
        ensures
            props.class is None,
            props.children == children,
    {
        CardContentProps { class: None, children }
    }
}

/// Renders a card around its content.
#[allow(non_snake_case)]
pub fn Card<C>(props: CardProps<C>) -> (element: Container<C>)
    ensures
        element.class@ == composed(CARD_BASE@, Seq::empty(), text_of(props.class)),
        element.children == props.children,
{
    container(CARD_BASE, &props.class, props.children)
}

/// Renders the header section of a card around its content.
#[allow(non_snake_case)]
pub fn CardHeader<C>(props: CardHeaderProps<C>) -> (element: Container<C>)
    ensures
        element.class@ == composed(CARD_HEADER_BASE@, Seq::empty(), text_of(props.class)),
        element.children == props.children,
{
    container(CARD_HEADER_BASE, &props.class, props.children)
}

/// Renders the body section of a card around its content.
#[allow(non_snake_case)]
pub fn CardContent<C>(props: CardContentProps<C>) -> (element: Container<C>)
    ensures
        element.class@ == composed(CARD_CONTENT_BASE@, Seq::empty(), text_of(props.class)),
        element.children == props.children,
{
    container(CARD_CONTENT_BASE, &props.class, props.children)
}

} // verus!
