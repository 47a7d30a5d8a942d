//! The page frame: layout, header and main area.

use vstd::prelude::*;
use crate::classes::composed;
use crate::components::{classes_with, container, text_of, Container};

verus! {

/// Classes that every layout carries.
pub const LAYOUT_BASE: &'static str = "min-h-screen bg-gray-50 dark:bg-gray-900 flex flex-col";

/// Classes that every header carries.
pub const HEADER_BASE: &'static str =
    "bg-white dark:bg-gray-800 shadow-sm border-b border-gray-200 dark:border-gray-700";

/// Classes of the block that centres what is inside a header.
pub const HEADER_INNER: &'static str = "max-w-7xl mx-auto px-4 sm:px-6 lg:px-8";

/// Classes of the row that holds a header's title and content.
pub const HEADER_ROW: &'static str = "flex justify-between items-center py-6";

/// Classes of a header's title.
pub const HEADER_TITLE: &'static str = "text-2xl font-bold text-gray-900 dark:text-white";

/// Classes that every main area carries.
pub const MAIN_BASE: &'static str = "flex-1 max-w-7xl mx-auto px-4 sm:px-6 lg:px-8 py-8";

/// What a layout is made from.
#[derive(Debug, Clone, PartialEq)]
pub struct LayoutProps<C> {
    pub class: Option<String>,
    pub children: C,
}

/// What a header is made from.
#[derive(Debug, Clone, PartialEq)]
pub struct HeaderProps<C> {
    pub title: Option<String>,
    pub class: Option<String>,
    pub children: C,
}

/// What a main area is made from.
#[derive(Debug, Clone, PartialEq)]
pub struct MainProps<C> {
    pub class: Option<String>,
    pub children: C,
}

/// One of the things that a header shows, side by side.
#[derive(Debug, Clone, PartialEq)]
pub enum HeaderPart<C> {
    /// The title of the page.
    Title(String),
    /// The content that the caller put into the header.
    Children(C),
}

/// The element that a header renders: a class string, and what the header
/// shows, from first to last.
#[derive(Debug, Clone, PartialEq)]
pub struct HeaderElement<C> {
    pub class: String,
    pub parts: Vec<HeaderPart<C>>,
}

/// What a header shows, from first to last: the title, if it has one, and
/// then its content.
pub open spec fn header_parts<C>(title: Option<String>, children: C) -> Seq<HeaderPart<C>> {
    match title {
        Some(title) => seq![HeaderPart::Title(title), HeaderPart::Children(children)],
        None => seq![HeaderPart::Children(children)],
    }
}

impl<C> LayoutProps<C> {
    /// Props for a layout around `children`, with no classes of the caller's.
    pub fn new(children: C) -> (props: Self)
        ensures
            props.class is None,
            props.children == children,
    {
        LayoutProps { class: None, children }
    }
}

impl<C> HeaderProps<C> {
    /// Props for a header around `children`, with no title and no classes of the
    /// caller's.
    pub fn new(children: C) -> (props: Self)
        ensures
            props.title is None,
            props.class is None,
            props.children == children,
    {
        HeaderProps { title: None, class: None, children }
    }
}

impl<C> MainProps<C> {
    /// Props for a main area around `children`, with no classes of the caller's.
    pub fn new(children: C) -> (props: Self)
        ensures
            props.class is None,
            props.children == children,
    {
        MainProps { class: None, children }
    }
}

/// Renders the outermost frame of a page around its content.
#[allow(non_snake_case)]
pub fn Layout<C>(props: LayoutProps<C>) -> (element: Container<C>)
    ensures
        element.class@ == composed(LAYOUT_BASE@, Seq::empty(), text_of(props.class)),
        element.children == props.children,
{
    container(LAYOUT_BASE, &props.class, props.children)
}

/// Renders a page header: a title only where one was given, before the
/// content, and the content as it is.
#[allow(non_snake_case)]
pub fn Header<C>(props: HeaderProps<C>) -> (element: HeaderElement<C>)
    ensures
        element.class@ == composed(HEADER_BASE@, Seq::empty(), text_of(props.class)),
        element.parts@ == header_parts(props.title, props.children),
{
    let class = classes_with(HEADER_BASE, &props.class);
    let mut parts = Vec::new();
    match props.title {
        Some(title) => {
            parts.push(HeaderPart::Title(title));
        },
        None => {},
    }
    parts.push(HeaderPart::Children(props.children));
    assert(parts@ =~= header_parts(props.title, props.children));
    HeaderElement { class, parts }
}

/// Renders the main area of a page around its content.
#[allow(non_snake_case)]
pub fn Main<C>(props: MainProps<C>) -> (element: Container<C>)
    ensures
        element.class@ == composed(MAIN_BASE@, Seq::empty(), text_of(props.class)),
        element.children == props.children,
{
    container(MAIN_BASE, &props.class, props.children)
}

} // verus!
