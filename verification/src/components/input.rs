//! The text input and its label.

use vstd::prelude::*;
use crate::classes::composed;
use crate::components::{classes_with, into_text, text_of, text_or_empty};

verus! {

/// Classes that every input carries.
pub const INPUT_BASE: &'static str =
    "w-full px-3 py-2 border border-gray-300 dark:border-gray-600 rounded-lg focus:outline-none focus:ring-2 focus:ring-blue-500 focus:border-transparent bg-white dark:bg-gray-800 text-gray-900 dark:text-gray-100 disabled:opacity-50 disabled:cursor-not-allowed";

/// Classes that every label carries.
pub const LABEL_BASE: &'static str =
    "block text-sm font-medium text-gray-700 dark:text-gray-300 mb-1";

/// Classes of the mark that a label shows for a required field.
pub const REQUIRED_MARK_CLASS: &'static str = "text-red-500 ml-1";

/// Text of the mark that a label shows for a required field.
pub const REQUIRED_MARK: &'static str = "*";

/// The kind of an input.
#[derive(Clone, Copy, Debug, PartialEq, Eq, Structural)]
pub enum InputType {
    Text,
    Email,
    Password,
    Number,
    Tel,
    Url,
}

impl InputType {
    /// The value of the `type` attribute that selects the kind.
    pub open spec fn name(self) -> Seq<char> {
        match self {
            InputType::Text => "text"@,
            InputType::Email => "email"@,
            InputType::Password => "password"@,
            InputType::Number => "number"@,
            InputType::Tel => "tel"@,
            InputType::Url => "url"@,
        }
    }

    /// The value of the `type` attribute that selects the kind.
    pub fn to_str(&self) -> (name: &'static str)
        ensures
            name@ == self.name(),
    {
        match self {
            InputType::Text => "text",
            InputType::Email => "email",
            InputType::Password => "password",
            InputType::Number => "number",
            InputType::Tel => "tel",
            InputType::Url => "url",
        }
    }
}

/// What an input is made from. `I` and `C` are the types of the handlers
/// for the `input` and the `change` event.
#[derive(Debug, Clone, PartialEq)]
pub struct InputProps<I, C> {
    pub input_type: InputType,
    pub placeholder: Option<String>,
    pub value: Option<String>,
    pub disabled: bool,
    pub required: bool,
    pub oninput: Option<I>,
    pub onchange: Option<C>,
    pub class: Option<String>,
    pub id: Option<String>,
    pub name: Option<String>,
}

/// The element that an input renders. An attribute that was not set reads
/// as the empty string.
#[derive(Debug, Clone, PartialEq)]
pub struct InputElement<I, C> {
    pub input_type: &'static str,
    pub class: String,
    pub placeholder: String,
    pub value: String,
    pub disabled: bool,
    pub required: bool,
    pub id: String,
    pub name: String,
    pub oninput: Option<I>,
    pub onchange: Option<C>,
}

/// What a label is made from.
#[derive(Debug, Clone, PartialEq)]
pub struct LabelProps<C> {
    pub for_input: Option<String>,
    pub required: bool,
    pub class: Option<String>,
    pub children: C,
}

/// The mark that follows the content of a label for a required field.
#[derive(Debug, Clone, PartialEq)]
pub struct RequiredMark {
    pub class: &'static str,
    pub text: &'static str,
}

/// One of the things that a label shows, one after the other.
#[derive(Debug, Clone, PartialEq)]
pub enum LabelPart<C> {
    /// The content that the caller put into the label.
    Children(C),
    /// The mark for a required field.
    Mark(RequiredMark),
}

/// The element that a label renders: a class string, the `for` attribute
/// (empty where the label is tied to no input), and what the label shows,
/// from first to last.
#[derive(Debug, Clone, PartialEq)]
pub struct LabelElement<C> {
    pub class: String,
    pub for_input: String,
    pub parts: Vec<LabelPart<C>>,
}

/// The one mark that labels show.
pub open spec fn required_mark() -> RequiredMark {
    RequiredMark { class: REQUIRED_MARK_CLASS, text: REQUIRED_MARK }
}

/// What a label shows, from first to last: its content and, for a required
/// field only, the mark after it.
pub open spec fn label_parts<C>(required: bool, children: C) -> Seq<LabelPart<C>> {
    if required {
        seq![LabelPart::Children(children), LabelPart::Mark(required_mark())]
    } else {
        seq![LabelPart::Children(children)]
    }
}

impl<I, C> Default for InputProps<I, C> {
    /// A text input that is enabled and optional, with nothing else set.
    fn default() -> (props: Self)
        ensures
            props.input_type == InputType::Text,
            props.placeholder is None,
            props.value is None,
            !props.disabled,
            !props.required,
            props.oninput is None,
            props.onchange is None,
            props.class is None,
            props.id is None,
            props.name is None,
    {
        InputProps {
            input_type: InputType::Text,
            placeholder: None,
            value: None,
            disabled: false,
            required: false,
            oninput: None,
            onchange: None,
            class: None,
            id: None,
            name: None,
        }
    }
}

impl<C> LabelProps<C> {
    /// Props for a label around `children`: tied to no input, for a field that
    /// is optional, with no classes of the caller's.
    pub fn new(children: C) -> (props: Self)
        ensures
            props.for_input is None,
            !props.required,
            props.class is None,
            props.children == children,
    {
        LabelProps { for_input: None, required: false, class: None, children }
    }
}

/// Renders an input. The value shown is the value given, and nothing about
/// it is checked or changed here.
#[allow(non_snake_case)]
pub fn Input<I, C>(props: InputProps<I, C>) -> (element: InputElement<I, C>)
    ensures
        element.input_type@ == props.input_type.name(),
        element.class@ == composed(INPUT_BASE@, Seq::empty(), text_of(props.class)),
        element.placeholder@ == text_or_empty(props.placeholder),
        element.value@ == text_or_empty(props.value),
        element.disabled == props.disabled,
        element.required == props.required,
        element.id@ == text_or_empty(props.id),
        element.name@ == text_or_empty(props.name),
        element.oninput == props.oninput,
        element.onchange == props.onchange,
{
    InputElement {
        input_type: props.input_type.to_str(),
        class: classes_with(INPUT_BASE, &props.class),
        placeholder: into_text(props.placeholder),
        value: into_text(props.value),
        disabled: props.disabled,
        required: props.required,
        id: into_text(props.id),
        name: into_text(props.name),
        oninput: props.oninput,
        onchange: props.onchange,
    }
}

impl<I, C> InputElement<I, C> {
    /// Delivers an `input` event. Where the element has a handler for it,
    /// the handler is called once with the event and what it returned is
    /// handed back; else nothing happens.
    pub fn input<E, R>(&self, event: E) -> (outcome: Option<R>) where I: Fn(E) -> R
        requires
            self.oninput is Some ==> self.oninput->0.requires((event,)),
        ensures
            outcome is Some == self.oninput is Some,
            outcome matches Some(returned) ==> self.oninput->0.ensures((event,), returned),
    {
        match &self.oninput {
            Some(handler) => Some(handler(event)),
            None => None,
        }
    }

    /// Delivers a `change` event. Where the element has a handler for it,
    /// the handler is called once with the event and what it returned is
    /// handed back; else nothing happens.
    pub fn change<E, R>(&self, event: E) -> (outcome: Option<R>) where C: Fn(E) -> R
        requires
            self.onchange is Some ==> self.onchange->0.requires((event,)),
        ensures
            outcome is Some == self.onchange is Some,
            outcome matches Some(returned) ==> self.onchange->0.ensures((event,), returned),
    {
        match &self.onchange {
            Some(handler) => Some(handler(event)),
            None => None,
        }
    }
}

/// Renders a label around its content, with the mark for a required field
/// after the content exactly where the field is required.
#[allow(non_snake_case)]
pub fn Label<C>(props: LabelProps<C>) -> (element: LabelElement<C>)
    ensures
        element.class@ == composed(LABEL_BASE@, Seq::empty(), text_of(props.class)),
        element.for_input@ == text_or_empty(props.for_input),
        element.parts@ == label_parts(props.required, props.children),
{
    let class = classes_with(LABEL_BASE, &props.class);
    let mut parts = Vec::new();
    parts.push(LabelPart::Children(props.children));
    if props.required {
        parts.push(LabelPart::Mark(RequiredMark { class: REQUIRED_MARK_CLASS, text: REQUIRED_MARK }));
    }
    assert(parts@ =~= label_parts(props.required, props.children));
    LabelElement { class, for_input: into_text(props.for_input), parts }
}

} // verus!
