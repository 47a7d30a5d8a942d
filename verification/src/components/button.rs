//! The button.

use vstd::prelude::*;
use crate::classes::{compose, composed, views};
use crate::components::{as_text, text_of};

verus! {

/// Classes that every button carries.
pub const BUTTON_BASE: &'static str =
    "font-medium rounded-lg transition-colors duration-200 focus:outline-none focus:ring-2 focus:ring-opacity-50 disabled:opacity-50 disabled:cursor-not-allowed";

/// The label of a button that was given none.
pub const DEFAULT_TEXT: &'static str = "Button";

/// Classes of the primary colour scheme.
pub const PRIMARY: &'static str = "bg-blue-600 hover:bg-blue-700 text-white focus:ring-blue-500";

/// Classes of the secondary colour scheme.
pub const SECONDARY: &'static str =
    "bg-gray-200 hover:bg-gray-300 text-gray-900 focus:ring-gray-400";

/// Classes of the outlined colour scheme.
pub const OUTLINE: &'static str =
    "border-2 border-blue-600 text-blue-600 hover:bg-blue-600 hover:text-white focus:ring-blue-500";

/// Classes of the colour scheme for actions that destroy something.
pub const DESTRUCTIVE: &'static str = "bg-red-600 hover:bg-red-700 text-white focus:ring-red-500";

/// Classes of a small button.
pub const SMALL: &'static str = "px-3 py-1.5 text-sm";

/// Classes of a button of medium size.
pub const MEDIUM: &'static str = "px-4 py-2 text-base";

/// Classes of a large button.
pub const LARGE: &'static str = "px-6 py-3 text-lg";

/// The colour scheme of a button.
#[derive(Clone, Copy, Debug, PartialEq, Eq, Structural)]
pub enum ButtonVariant {
    Primary,
    Secondary,
    Outline,
    Destructive,
}

/// The size of a button.
#[derive(Clone, Copy, Debug, PartialEq, Eq, Structural)]
pub enum ButtonSize {
    Small,
    Medium,
    Large,
}

impl ButtonVariant {
    /// The classes that the variant stands for.
    pub open spec fn classes(self) -> Seq<char> {
        match self {
            ButtonVariant::Primary => PRIMARY@,
            ButtonVariant::Secondary => SECONDARY@,
            ButtonVariant::Outline => OUTLINE@,
            ButtonVariant::Destructive => DESTRUCTIVE@,
        }
    }

    /// The classes that the variant stands for.
    pub fn to_classes(&self) -> (classes: &'static str)
        ensures
            classes@ == self.classes(),
    {
        match self {
            ButtonVariant::Primary => PRIMARY,
            ButtonVariant::Secondary => SECONDARY,
            ButtonVariant::Outline => OUTLINE,
            ButtonVariant::Destructive => DESTRUCTIVE,
        }
    }
}

impl ButtonSize {
    /// The classes that the size stands for.
    pub open spec fn classes(self) -> Seq<char> {
        match self {
            ButtonSize::Small => SMALL@,
            ButtonSize::Medium => MEDIUM@,
            ButtonSize::Large => LARGE@,
        }
    }

    /// The classes that the size stands for.
    pub fn to_classes(&self) -> (classes: &'static str)
        ensures
            classes@ == self.classes(),
    {
        match self {
            ButtonSize::Small => SMALL,
            ButtonSize::Medium => MEDIUM,
            ButtonSize::Large => LARGE,
        }
    }
}

/// What a button is made from. `H` is the type of the click handler.
#[derive(Debug, Clone, PartialEq)]
pub struct ButtonProps<H> {
    pub text: String,
    pub variant: ButtonVariant,
    pub size: ButtonSize,
    pub disabled: bool,
    pub onclick: Option<H>,
    pub class: Option<String>,
}

/// The element that a button renders.
#[derive(Debug, Clone, PartialEq)]
pub struct ButtonElement<H> {
    pub class: String,
    pub disabled: bool,
    pub text: String,
    pub onclick: Option<H>,
}

impl<H> Default for ButtonProps<H> {
    /// A primary button of medium size labelled "Button", enabled, with no
    /// handler and no classes of the caller's.
    fn default() -> (props: Self)
        ensures
            props.text@ == DEFAULT_TEXT@,
            props.variant == ButtonVariant::Primary,
            props.size == ButtonSize::Medium,
            !props.disabled,
            props.onclick is None,
            props.class is None,
    {
        ButtonProps {
            text: DEFAULT_TEXT.to_owned(),
            variant: ButtonVariant::Primary,
            size: ButtonSize::Medium,
            disabled: false,
            onclick: None,
            class: None,
        }
    }
}

/// Renders a button: the base classes, then the variant's, then the size's,
/// then the caller's; the label, the flag and the handler as given.
#[allow(non_snake_case)]
pub fn Button<H>(props: ButtonProps<H>) -> (element: ButtonElement<H>)
    ensures
        element.class@ == composed(
            BUTTON_BASE@,
            seq![props.variant.classes(), props.size.classes()],
            text_of(props.class),
        ),
        element.disabled == props.disabled,
        element.text == props.text,
        element.onclick == props.onclick,
{
    let variants = [props.variant.to_classes(), props.size.to_classes()];
    let class = compose(BUTTON_BASE, variants.as_slice(), as_text(&props.class));
    proof {
        assert(views(variants@) =~= seq![
            props.variant.classes(),
            props.size.classes(),
        ]);
    }
    ButtonElement { class, disabled: props.disabled, text: props.text, onclick: props.onclick }
}

impl<H> ButtonElement<H> {
    /// Whether a click on the element reaches a handler: the button is
    /// enabled and has one.
    pub open spec fn dispatches(&self) -> bool {
        !self.disabled && self.onclick is Some
    }

    /// Delivers a click. An enabled button with a handler calls it once with
    /// the event and hands back what it returned. A disabled button, or one
    /// without a handler, does nothing.
    pub fn click<E, R>(&self, event: E) -> (outcome: Option<R>) where H: Fn(E) -> R
        requires
            self.dispatches() ==> self.onclick->0.requires((event,)),
        ensures
            outcome is Some == self.dispatches(),
            outcome matches Some(returned) ==> self.onclick->0.ensures((event,), returned),
    {
        if self.disabled {
            return None;
        }
        match &self.onclick {
            Some(handler) => Some(handler(event)),
            None => None,
        }
    }
}

} // verus!
