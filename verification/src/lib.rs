//! Building blocks of a small client-rendered web application: a validated
//! `User` record, the class-string rules shared by a set of presentational
//! components, the components themselves as functions from props to the
//! attributes of the element they render, and the state machine of the demo
//! page that wires them together.
//!
//! Everything here is plain data in, plain data out. Rendering to a real
//! document and delivering real events is left to the embedding application.

pub mod classes;
pub mod components;
pub mod shell;
pub mod text;
pub mod user;

pub use components::button::{Button, ButtonElement, ButtonProps, ButtonSize, ButtonVariant};
pub use components::card::{Card, CardContent, CardContentProps, CardHeader, CardHeaderProps, CardProps};
pub use components::input::{
    Input, InputElement, InputProps, InputType, Label, LabelElement, LabelPart, LabelProps,
    RequiredMark,
};
pub use components::layout::{
    Header, HeaderElement, HeaderPart, HeaderProps, Layout, LayoutProps, Main, MainProps,
};
pub use components::Container;
pub use shell::{AppEvent, AppState};
pub use user::User;
