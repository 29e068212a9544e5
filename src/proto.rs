use vstd::prelude::*;

verus! {

/// Absolute position within a document.
#[derive(Debug, Clone, Copy, PartialEq, Eq, Structural)]
pub struct CaretPosition {
    pub line: usize,
    pub col: usize,
}

impl CaretPosition {
    pub fn new(line: usize, col: usize) -> (r: CaretPosition)
        ensures
            r.line == line,
            r.col == col,
    {
        CaretPosition { line, col }
    }
}

/// Id of a request, that is of a call that expects a response. It is echoed
/// verbatim in the response.
#[derive(Debug, Clone, Copy, PartialEq, Eq, Structural)]
pub struct RequestId(pub u128);

/// A key of the keyboard.
#[derive(Debug, Clone, Copy, PartialEq, Eq, Structural)]
pub enum KeyCode {
    Char(char),
    Enter,
    Backspace,
    Left,
    Right,
    Up,
    Down,
    Escape,
}

/// A key event: the modifiers held and the key pressed.
#[derive(Debug, Clone, Copy, PartialEq, Eq, Structural)]
pub struct KeyInput {
    pub ctrl: bool,
    pub alt: bool,
    pub code: KeyCode,
}

/// Messages from the backend to the frontend.
#[derive(Debug)]
pub enum ToFrontend {
    OpenDocument {
        document_id: u128,
        path: Option<String>,
        text: Vec<char>,
    },
    /// Sent whenever anything in the view changed, i.e. the content,
    /// the viewport, or a caret position.
    UpdateView {
        view_id: u128,
        first_line: usize,
        height: usize,
        /// the visible lines
        text: Vec<Vec<char>>,
        /// caret positions are absolute
        carets: Vec<CaretPosition>,
    },
    /// Response to a `ToBackend::ViewOpened` request.
    ViewOpenedResponse {
        request_id: RequestId,
        view_id: u128,
    },
}

/// Messages from the frontend to the backend.
#[derive(Debug)]
pub enum ToBackend {
    SaveDocument {
        document_id: u128,
    },
    KeyPressed {
        view_id: u128,
        input: KeyInput,
    },
    /// Mouse was clicked.
    MouseInput {
        view_id: u128,
        /// absolute coordinates
        position: CaretPosition,
    },
    /// Mouse wheel turned; positive or negative values mean scrolling down or
    /// up respectively.
    MouseScroll {
        view_id: u128,
        line_delta: i32,
    },
    /// The viewport of a view changed, because the window was resized or the
    /// user scrolled.
    ViewportChanged {
        view_id: u128,
        height: usize,
        width: usize,
        first_line: usize,
        first_col: usize,
    },
    ViewOpened {
        request_id: RequestId,
        document_id: u128,
        height: usize,
        width: usize,
    },
}

} // verus!
