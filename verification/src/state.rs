//! The application state and its transitions.
//!
//! The state is the tuple (input buffer, output buffer, theme). Every user
//! event is a [`Message`]; [`App::update`] applies it as one total,
//! synchronous transition and returns the one [`Command`] the shell must
//! perform beyond re-rendering. [`App::view`] computes what the widget tree
//! shows: which buttons are enabled and which theme and icon to use.

use crate::buffer::{Action, Buffer};
use crate::highlight::highlight_typst_to_ansi;
use crate::highlight::spec_highlight_output;
use crate::theme::{AppTheme, ThemeIcon};
use vstd::prelude::*;

verus! {

/// An event the user interface delivers to the application state.
#[derive(Clone, Debug)]
pub enum Message {
    /// Received some Typst code in the relevant input field.
    TypstInput(Action),
    /// User pressed the 'Highlight' button (highlight the code with ANSI).
    Submit,
    /// Received some action for the result text box.
    ResultAction(Action),
    /// Change between light and dark theme.
    InvertTheme,
    /// User requested to copy the output.
    Copy,
}

/// What the shell must do after an update, beyond re-rendering the view.
#[derive(Clone, Debug)]
pub enum Command {
    /// Nothing.
    Nothing,
    /// Place the given text on the system clipboard.
    CopyToClipboard(Vec<char>),
}

/// What the view shows of the state: button enablement, theme and icon. The
/// widget shell builds the widget tree from this and the two buffer texts.
pub struct ViewModel {
    /// The 'Highlight' button reacts to presses; enabled exactly when the
    /// input buffer is non-empty.
    pub highlight_enabled: bool,
    /// The 'Copy' button reacts to presses; enabled exactly when the output
    /// buffer is non-empty.
    pub copy_enabled: bool,
    /// The color scheme to render with.
    pub theme: AppTheme,
    /// The icon on the theme-toggle button.
    pub theme_icon: ThemeIcon,
}

/// The whole application state: input buffer, output buffer, theme.
#[derive(Clone, Debug)]
pub struct App {
    code: Buffer,
    result: Buffer,
    theme: AppTheme,
}

impl App {
    /// The editable input buffer.
    pub closed spec fn spec_code(&self) -> Buffer {
        self.code
    }

    /// The read-only output buffer.
    pub closed spec fn spec_result(&self) -> Buffer {
        self.result
    }

    /// The current theme.
    pub closed spec fn spec_theme(&self) -> AppTheme {
        self.theme
    }

    /// Both buffers are well formed.
    pub open spec fn wf(&self) -> bool {
        &&& self.spec_code().wf()
        &&& self.spec_result().wf()
    }

    /// Applies one user event and returns the command the shell must run.
    pub fn update(&mut self, message: Message) -> (cmd: Command)
        requires
            old(self).wf(),
        ensures
            final(self).wf(),
            (match message {
                Message::TypstInput(a) => {
                    &&& final(self).spec_code().spec_text() == old(self).spec_code().spec_text_after(a)
                    &&& final(self).spec_code().spec_cursor() == old(self).spec_code().spec_cursor_after(a)
                    &&& final(self).spec_code().spec_anchor() == old(self).spec_code().spec_anchor_after(a)
                    &&& final(self).spec_result() == old(self).spec_result()
                    &&& final(self).spec_theme() == old(self).spec_theme()
                    &&& cmd is Nothing
                },
                Message::Submit => {
                    &&& final(self).spec_code() == old(self).spec_code()
                    &&& final(self).spec_theme() == old(self).spec_theme()
                    &&& if old(self).spec_code().spec_is_empty() {
                        final(self).spec_result() == old(self).spec_result()
                    } else {
                        &&& final(self).spec_result().spec_text() == spec_highlight_output(
                            old(self).spec_code().spec_text(),
                        )
                        &&& final(self).spec_result().spec_cursor() == final(self).spec_result().spec_text().len()
                        &&& final(self).spec_result().spec_anchor() == final(self).spec_result().spec_text().len()
                    }
                    &&& cmd is Nothing
                },
                Message::ResultAction(a) => {
                    &&& final(self).spec_result().spec_text() == old(self).spec_result().spec_text()
                    &&& if a is Edit {
                        final(self).spec_result() == old(self).spec_result()
                    } else {
                        &&& final(self).spec_result().spec_cursor() == old(self).spec_result().spec_cursor_after(a)
                        &&& final(self).spec_result().spec_anchor() == old(self).spec_result().spec_anchor_after(a)
                    }
                    &&& final(self).spec_code() == old(self).spec_code()
                    &&& final(self).spec_theme() == old(self).spec_theme()
                    &&& cmd is Nothing
                },
                Message::InvertTheme => {
                    &&& final(self).spec_theme() == old(self).spec_theme().spec_inv()
                    &&& final(self).spec_code() == old(self).spec_code()
                    &&& final(self).spec_result() == old(self).spec_result()
                    &&& cmd is Nothing
                },
                Message::Copy => {
                    &&& *final(self) == *old(self)
                    &&& cmd matches Command::CopyToClipboard(t) && t@ == old(self).spec_result().spec_text()
                },
            }),
    {
        match message {
            Message::TypstInput(a) => {
                self.code.apply(&a);
                Command::Nothing
            },
            Message::Submit => {
                if !self.code.is_empty() {
                    let txt = self.code.text();
                    let hl = highlight_typst_to_ansi(&txt);
                    self.apply_highlight(hl);
                }
                Command::Nothing
            },
            Message::ResultAction(a) => {
                match &a {
                    // Don't let user edit the output.
                    Action::Edit(_) => {},
                    _ => {
                        self.result.apply(&a);
                    },
                }
                Command::Nothing
            },
            Message::InvertTheme => {
                self.theme = self.theme.inv();
                Command::Nothing
            },
            Message::Copy => { Command::CopyToClipboard(self.result.text()) },
        }
    }

    /// Replaces the output buffer with a completed highlighter result, as
    /// running the highlight action does.
    pub fn apply_highlight(&mut self, highlighted: Vec<char>)
        requires
            old(self).wf(),
        ensures
            final(self).wf(),
            final(self).spec_result().spec_text() == highlighted@,
            final(self).spec_result().spec_cursor() == highlighted@.len(),
            final(self).spec_result().spec_anchor() == highlighted@.len(),
            final(self).spec_code() == old(self).spec_code(),
            final(self).spec_theme() == old(self).spec_theme(),
    {
        self.result.replace_all(highlighted);
    }

    /// What the widget tree shows for this state.
    pub fn view(&self) -> (vm: ViewModel)
        ensures
            vm.highlight_enabled == !self.spec_code().spec_is_empty(),
            vm.copy_enabled == !self.spec_result().spec_is_empty(),
            vm.theme == self.spec_theme(),
            vm.theme_icon == self.spec_theme().spec_icon(),
    {
        ViewModel {
            highlight_enabled: !self.code.is_empty(),
            copy_enabled: !self.result.is_empty(),
            theme: self.theme,
            theme_icon: self.theme.icon(),
        }
    }

    /// A copy of the input buffer's characters.
    pub fn code_text(&self) -> (r: Vec<char>)
        ensures
            r@ == self.spec_code().spec_text(),
    {
        self.code.text()
    }

    /// A copy of the output buffer's characters.
    pub fn result_text(&self) -> (r: Vec<char>)
        ensures
            r@ == self.spec_result().spec_text(),
    {
        self.result.text()
    }

    /// The output buffer's cursor.
    pub fn result_cursor(&self) -> (r: usize)
        ensures
            r as int == self.spec_result().spec_cursor(),
    {
        self.result.cursor()
    }

    /// The output buffer's selection anchor.
    pub fn result_anchor(&self) -> (r: usize)
        ensures
            r as int == self.spec_result().spec_anchor(),
    {
        self.result.anchor()
    }

    /// The current theme.
    pub fn theme(&self) -> (r: AppTheme)
        ensures
            r == self.spec_theme(),
    {
        self.theme
    }
}

impl Default for App {
    /// Both buffers start empty; the theme starts dark.
    fn default() -> (r: App)
        ensures
            r.wf(),
            r.spec_code().spec_is_empty(),
            r.spec_result().spec_is_empty(),
            r.spec_code().spec_cursor() == 0,
            r.spec_code().spec_anchor() == 0,
            r.spec_theme() == AppTheme::Dark,
    {
        App { code: Buffer::new(), result: Buffer::new(), theme: AppTheme::Dark }
    }
}

} // verus!
