use vstd::prelude::*;

use crate::buffer::{EditOp, MovementOp};
use crate::proto::{KeyCode, KeyInput};

verus! {

/// An operation on a document as a whole.
#[derive(Debug, Clone, Copy, PartialEq, Eq, Structural)]
pub enum DocumentOp {
    Save,
}

/// What a key press asks of the editor.
#[derive(Debug, Clone, Copy, PartialEq, Eq, Structural)]
pub enum Operation {
    Document(DocumentOp),
    Edit(EditOp),
    Movement(MovementOp),
}

/// The operation bound to a key: ctrl+s saves; without a modifier, a
/// character, Enter and Backspace edit and the arrows move the caret. Anything
/// else is bound to nothing.
pub open spec fn key_operation(k: KeyInput) -> Option<Operation> {
    if k.ctrl || k.alt {
        if k.ctrl && !k.alt && k.code == KeyCode::Char('s') {
            Some(Operation::Document(DocumentOp::Save))
        } else {
            None
        }
    } else {
        match k.code {
            KeyCode::Char(c) => Some(Operation::Edit(EditOp::Insert(c))),
            KeyCode::Enter => Some(Operation::Edit(EditOp::Insert('\n'))),
            KeyCode::Backspace => Some(Operation::Edit(EditOp::Backspace)),
            KeyCode::Left => Some(Operation::Movement(MovementOp::Left)),
            KeyCode::Right => Some(Operation::Movement(MovementOp::Right)),
            KeyCode::Up => Some(Operation::Movement(MovementOp::Up)),
            KeyCode::Down => Some(Operation::Movement(MovementOp::Down)),
            KeyCode::Escape => None,
        }
    }
}

/// Maps a key event to the operation bound to it, if any.
pub fn interpret_key_input(input: &KeyInput) -> (r: Option<Operation>)
    ensures
        r == key_operation(*input),
{
    if input.ctrl || input.alt {
        let is_s = match input.code {
            KeyCode::Char(c) => c == 's',
            _ => false,
        };
        if input.ctrl && !input.alt && is_s {
            Some(Operation::Document(DocumentOp::Save))
        } else {
            None
        }
    } else {
        match input.code {
            KeyCode::Char(c) => Some(Operation::Edit(EditOp::Insert(c))),
            KeyCode::Enter => Some(Operation::Edit(EditOp::Insert('\n'))),
            KeyCode::Backspace => Some(Operation::Edit(EditOp::Backspace)),
            KeyCode::Left => Some(Operation::Movement(MovementOp::Left)),
            KeyCode::Right => Some(Operation::Movement(MovementOp::Right)),
            KeyCode::Up => Some(Operation::Movement(MovementOp::Up)),
            KeyCode::Down => Some(Operation::Movement(MovementOp::Down)),
            KeyCode::Escape => None,
        }
    }
}

} // verus!
