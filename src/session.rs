use std::collections::HashMap;

use vstd::prelude::*;

use crate::buffer::{edited_caret, edited_lines, lines_of, moved_caret, text_of, visible, Buffer};
use crate::keymap::{interpret_key_input, key_operation, DocumentOp, Operation};
use crate::proto::{CaretPosition, KeyInput, ToBackend, ToFrontend};

verus! {

/// Relies on uuid::Uuid::new_v4 and Uuid::as_u128: a random id, of which
/// nothing is promised.
#[verifier::external_body]
fn new_id() -> (r: u128) {
    uuid::Uuid::new_v4().as_u128()
}

/// Why a command was not carried out.
#[derive(Debug, Clone, Copy, PartialEq, Eq, Structural)]
pub enum Error {
    /// No document with this id is open.
    InvalidDocumentId(u128),
    /// No view with this id is open.
    InvalidViewId(u128),
    /// A newly drawn id already names a document or a view.
    IdInUse(u128),
    /// The document has no path to be saved to.
    NoPath(u128),
}

/// Outside work that handling a command asks for, in the order given.
#[derive(Debug)]
pub enum Effect {
    /// Send a message to the frontend.
    Send(ToFrontend),
    /// Write a document's text to its file.
    WriteFile { path: String, text: Vec<char> },
}

/// An open document: its source path, if any, and its text.
pub struct Document {
    pub path: Option<String>,
    pub buffer: Buffer,
}

/// A viewport onto one document.
#[derive(Debug, Clone, Copy, PartialEq, Eq, Structural)]
pub struct Viewport {
    pub document_id: u128,
    pub height: usize,
    pub width: usize,
    pub first_line: usize,
    pub first_col: usize,
}

impl Viewport {
    /// A view of a document, scrolled to its start.
    pub fn new(document_id: u128, height: usize, width: usize) -> (r: Viewport)
        ensures
            r == (Viewport { document_id, height, width, first_line: 0, first_col: 0 }),
    {
        Viewport { document_id, height, width, first_line: 0, first_col: 0 }
    }
}

/// `m` is the update of view `view_id`, shown as `view`, of a document with
/// buffer `buf`: its visible lines and its caret.
pub open spec fn is_update_view(m: ToFrontend, view_id: u128, view: Viewport, buf: Buffer) -> bool {
    match m {
        ToFrontend::UpdateView { view_id: v, first_line, height, text, carets } => {
            &&& v == view_id
            &&& first_line == view.first_line
            &&& height == view.height
            &&& text@.map_values(|l: Vec<char>| l@) == visible(
                buf.text_lines(),
                view.first_line as int,
                view.height as int,
            )
            &&& carets@ == seq![buf.caret()]
        },
        _ => false,
    }
}

/// `e` sends the update of view `view_id`, shown as `view`, of a document
/// with buffer `buf`.
pub open spec fn is_update_effect(e: Effect, view_id: u128, view: Viewport, buf: Buffer) -> bool {
    match e {
        Effect::Send(m) => is_update_view(m, view_id, view, buf),
        _ => false,
    }
}

/// `e` sends a view update, of any view.
pub open spec fn is_update(e: Effect) -> bool {
    match e {
        Effect::Send(ToFrontend::UpdateView { .. }) => true,
        _ => false,
    }
}

/// `e` writes the whole text of `buf` to `path`.
pub open spec fn is_write_effect(e: Effect, path: String, buf: Buffer) -> bool {
    match e {
        Effect::WriteFile { path: p, text } => p == path && text@ == text_of(buf.text_lines()),
        _ => false,
    }
}

impl Document {
    /// The update of view `view_id`, shown as `view`, of this document.
    pub fn create_update_notification(&self, view_id: u128, view: &Viewport) -> (r: ToFrontend)
        ensures
            is_update_view(r, view_id, *view, self.buffer),
    {
        let text = self.buffer.visible_lines(view.first_line, view.height);
        let mut carets: Vec<CaretPosition> = Vec::new();
        carets.push(self.buffer.caret_position());
        proof {
            assert(carets@ =~= seq![self.buffer.caret()]);
        }
        ToFrontend::UpdateView {
            view_id,
            first_line: view.first_line,
            height: view.height,
            text,
            carets,
        }
    }
}

/// The session: every open document and view, by id.
pub struct App {
    documents: HashMap<u128, Document>,
    views: HashMap<u128, Viewport>,
}

/// Two sessions hold the same documents and views.
pub open spec fn unchanged(a: App, b: App) -> bool {
    a.doc_map() == b.doc_map() && a.view_map() == b.view_map()
}

/// The command succeeded and asks for no outside work.
pub open spec fn no_effects(r: Result<Vec<Effect>, Error>) -> bool {
    match r {
        Ok(effs) => effs@.len() == 0,
        Err(_) => false,
    }
}

/// What opening a document with id `id` does.
pub open spec fn open_document_spec(
    old: App,
    new: App,
    path: Option<String>,
    text: Seq<char>,
    id: u128,
    r: Result<Vec<Effect>, Error>,
) -> bool {
    if old.is_allocated(id) {
        r == Err::<Vec<Effect>, Error>(Error::IdInUse(id)) && unchanged(old, new)
    } else {
        &&& new.view_map() == old.view_map()
        &&& new.doc_map() == old.doc_map().insert(id, new.doc_map()[id])
        &&& new.doc_map()[id].path == path
        &&& new.doc_map()[id].buffer.text_lines() == lines_of(text)
        &&& new.doc_map()[id].buffer.caret() == (CaretPosition { line: 0, col: 0 })
        &&& match r {
            Ok(effs) => effs@.len() == 1 && match effs@[0] {
                Effect::Send(ToFrontend::OpenDocument { document_id, path: p, text: t }) => {
                    document_id == id && p == path && t@ == text
                },
                _ => false,
            },
            Err(_) => false,
        }
    }
}

/// What `SaveDocument` does.
pub open spec fn save_document_spec(
    old: App,
    new: App,
    document_id: u128,
    r: Result<Vec<Effect>, Error>,
) -> bool {
    &&& unchanged(old, new)
    &&& if !old.doc_map().contains_key(document_id) {
        r == Err::<Vec<Effect>, Error>(Error::InvalidDocumentId(document_id))
    } else {
        let doc = old.doc_map()[document_id];
        match doc.path {
            None => r == Err::<Vec<Effect>, Error>(Error::NoPath(document_id)),
            Some(p) => match r {
                Ok(effs) => effs@.len() == 1 && is_write_effect(effs@[0], p, doc.buffer),
                Err(_) => false,
            },
        }
    }
}

/// The view after a viewport change.
pub open spec fn resized(v: Viewport, height: usize, width: usize, first_line: usize, first_col: usize) -> Viewport {
    Viewport { document_id: v.document_id, height, width, first_line, first_col }
}

/// A viewport change asks for new content when the view grew taller or
/// scrolled to another first line.
pub open spec fn needs_update(v: Viewport, height: usize, first_line: usize) -> bool {
    height > v.height || first_line != v.first_line
}

/// What `ViewportChanged` does.
pub open spec fn viewport_changed_spec(
    old: App,
    new: App,
    view_id: u128,
    height: usize,
    width: usize,
    first_line: usize,
    first_col: usize,
    r: Result<Vec<Effect>, Error>,
) -> bool {
    if !old.view_map().contains_key(view_id) {
        r == Err::<Vec<Effect>, Error>(Error::InvalidViewId(view_id)) && unchanged(old, new)
    } else {
        let v = old.view_map()[view_id];
        let nv = resized(v, height, width, first_line, first_col);
        &&& new.doc_map() == old.doc_map()
        &&& new.view_map() == old.view_map().insert(view_id, nv)
        &&& match r {
            Ok(effs) => if needs_update(v, height, first_line) {
                effs@.len() == 1 && is_update_effect(
                    effs@[0],
                    view_id,
                    nv,
                    old.doc_map()[v.document_id].buffer,
                )
            } else {
                effs@.len() == 0
            },
            Err(_) => false,
        }
    }
}

/// What `KeyPressed` does.
pub open spec fn key_pressed_spec(
    old: App,
    new: App,
    view_id: u128,
    input: KeyInput,
    r: Result<Vec<Effect>, Error>,
) -> bool {
    if !old.view_map().contains_key(view_id) {
        r == Err::<Vec<Effect>, Error>(Error::InvalidViewId(view_id)) && unchanged(old, new)
    } else {
        let v = old.view_map()[view_id];
        let did = v.document_id;
        let doc = old.doc_map()[did];
        let nd = new.doc_map()[did];
        match key_operation(input) {
            None => no_effects(r) && unchanged(old, new),
            Some(Operation::Document(DocumentOp::Save)) => unchanged(old, new) && match doc.path {
                None => r == Err::<Vec<Effect>, Error>(Error::NoPath(did)),
                Some(p) => match r {
                    Ok(effs) => {
                        &&& effs@.len() == 2
                        &&& is_write_effect(effs@[0], p, doc.buffer)
                        &&& is_update_effect(effs@[1], view_id, v, doc.buffer)
                    },
                    Err(_) => false,
                },
            },
            Some(op) => {
                &&& new.view_map() == old.view_map()
                &&& new.doc_map() == old.doc_map().insert(did, nd)
                &&& nd.path == doc.path
                &&& match op {
                    Operation::Edit(e) => {
                        &&& nd.buffer.text_lines() == edited_lines(
                            doc.buffer.text_lines(),
                            doc.buffer.caret(),
                            e,
                        )
                        &&& nd.buffer.caret() == edited_caret(
                            doc.buffer.text_lines(),
                            doc.buffer.caret(),
                            e,
                        )
                    },
                    Operation::Movement(m) => {
                        &&& nd.buffer.text_lines() == doc.buffer.text_lines()
                        &&& nd.buffer.caret() == moved_caret(
                            doc.buffer.text_lines(),
                            doc.buffer.caret(),
                            m,
                        )
                    },
                    _ => true,
                }
                &&& match r {
                    Ok(effs) => effs@.len() == 1 && is_update_effect(effs@[0], view_id, v, nd.buffer),
                    Err(_) => false,
                }
            },
        }
    }
}

/// What a mouse command does: nothing, once its view is found.
pub open spec fn mouse_spec(old: App, new: App, view_id: u128, r: Result<Vec<Effect>, Error>) -> bool {
    &&& unchanged(old, new)
    &&& if old.view_map().contains_key(view_id) {
        no_effects(r)
    } else {
        r == Err::<Vec<Effect>, Error>(Error::InvalidViewId(view_id))
    }
}

/// What `ViewOpened` does, with `id` drawn for the new view.
pub open spec fn view_opened_spec(
    old: App,
    new: App,
    document_id: u128,
    height: usize,
    width: usize,
    id: u128,
    r: Result<u128, Error>,
) -> bool {
    if !old.doc_map().contains_key(document_id) {
        r == Err::<u128, Error>(Error::InvalidDocumentId(document_id)) && unchanged(old, new)
    } else if old.is_allocated(id) {
        r == Err::<u128, Error>(Error::IdInUse(id)) && unchanged(old, new)
    } else {
        &&& r == Ok::<u128, Error>(id)
        &&& new.doc_map() == old.doc_map()
        &&& new.view_map() == old.view_map().insert(
            id,
            Viewport { document_id, height, width, first_line: 0, first_col: 0 },
        )
    }
}

/// What a command does, with `id` drawn in case it opens a view.
pub open spec fn handled(
    old: App,
    new: App,
    call: ToBackend,
    id: u128,
    r: Result<Vec<Effect>, Error>,
) -> bool {
    match call {
        ToBackend::SaveDocument { document_id } => save_document_spec(old, new, document_id, r),
        ToBackend::KeyPressed { view_id, input } => key_pressed_spec(old, new, view_id, input, r),
        ToBackend::MouseInput { view_id, .. } => mouse_spec(old, new, view_id, r),
        ToBackend::MouseScroll { view_id, .. } => mouse_spec(old, new, view_id, r),
        ToBackend::ViewportChanged { view_id, height, width, first_line, first_col } => {
            viewport_changed_spec(old, new, view_id, height, width, first_line, first_col, r)
        },
        ToBackend::ViewOpened { request_id, document_id, height, width } => match r {
            Ok(effs) => {
                &&& view_opened_spec(old, new, document_id, height, width, id, Ok(id))
                &&& effs@.len() == 1
                &&& effs@[0] matches Effect::Send(
                    ToFrontend::ViewOpenedResponse { request_id: q, view_id: v },
                ) && q == request_id && v == id
            },
            Err(e) => view_opened_spec(old, new, document_id, height, width, id, Err(e)),
        },
    }
}

impl App {
    /// The open documents, by id.
    pub closed spec fn doc_map(&self) -> Map<u128, Document> {
        self.documents@
    }

    /// The open views, by id.
    pub closed spec fn view_map(&self) -> Map<u128, Viewport> {
        self.views@
    }

    /// An id names a document or a view.
    pub open spec fn is_allocated(&self, id: u128) -> bool {
        self.doc_map().contains_key(id) || self.view_map().contains_key(id)
    }

    /// Each buffer is well formed, each view shows an open document, and no id
    /// names both a document and a view.
    pub open spec fn wf(&self) -> bool {
        &&& forall|d: u128| #[trigger]
            self.doc_map().contains_key(d) ==> self.doc_map()[d].buffer.wf()
        &&& forall|v: u128| #[trigger]
            self.view_map().contains_key(v) ==> self.doc_map().contains_key(
                self.view_map()[v].document_id,
            )
        &&& forall|id: u128|
            #![trigger self.doc_map().contains_key(id)]
            #![trigger self.view_map().contains_key(id)]
            !(self.doc_map().contains_key(id) && self.view_map().contains_key(id))
    }

    /// A session with no documents and no views.
    pub fn new() -> (r: App)
        ensures
            r.wf(),
            r.doc_map() == Map::<u128, Document>::empty(),
            r.view_map() == Map::<u128, Viewport>::empty(),
    {
        App { documents: HashMap::new(), views: HashMap::new() }
    }

    /// The open views, by id.
    pub fn views(&self) -> (r: &HashMap<u128, Viewport>)
        ensures
            r@ == self.view_map(),
    {
        &self.views
    }

    /// The open document with this id, if any.
    pub fn document(&self, id: u128) -> (r: Option<&Document>)
        ensures
            r matches Some(d) ==> self.doc_map().contains_key(id) && *d == self.doc_map()[id],
            r is None ==> !self.doc_map().contains_key(id),
    {
        self.documents.get(&id)
    }

    /// Whether an id names a document or a view.
    pub fn id_in_use(&self, id: u128) -> (r: bool)
        ensures
            r == self.is_allocated(id),
    {
        self.documents.contains_key(&id) || self.views.contains_key(&id)
    }

    /// Opens a document with id `id`, holding `text`, and announces it to the
    /// frontend.
    pub fn open_document(&mut self, path: Option<String>, text: Vec<char>, id: u128) -> (r: Result<
        Vec<Effect>,
        Error,
    >)
        requires
            old(self).wf(),
        ensures
            final(self).wf(),
            open_document_spec(*old(self), *final(self), path, text@, id, r),
    {
        if self.id_in_use(id) {
            return Err(Error::IdInUse(id));
        }
        let buffer = Buffer::from_text(&text);
        let announced = match &path {
            Some(p) => Some(p.clone()),
            None => None,
        };
        self.documents.insert(id, Document { path, buffer });
        let mut effs: Vec<Effect> = Vec::new();
        effs.push(Effect::Send(ToFrontend::OpenDocument { document_id: id, path: announced, text }));
        Ok(effs)
    }

    /// Opens a document read from `path`, holding `text`, under a new id.
    pub fn open_file(&mut self, path: String, text: Vec<char>) -> (r: Result<Vec<Effect>, Error>)
        requires
            old(self).wf(),
        ensures
            final(self).wf(),
            exists|id: u128| open_document_spec(*old(self), *final(self), Some(path), text@, id, r),
    {
        let id = new_id();
        let ghost t = text@;
        let r = self.open_document(Some(path), text, id);
        assert(open_document_spec(*old(self), *self, Some(path), t, id, r));
        r
    }

    /// Opens an empty document with no path, under a new id.
    pub fn open_ephemeral(&mut self) -> (r: Result<Vec<Effect>, Error>)
        requires
            old(self).wf(),
        ensures
            final(self).wf(),
            exists|id: u128| open_document_spec(*old(self), *final(self), None, Seq::empty(), id, r),
    {
        let id = new_id();
        let text: Vec<char> = Vec::new();
        let r = self.open_document(None, text, id);
        assert(open_document_spec(*old(self), *self, None, Seq::empty(), id, r));
        r
    }

    /// Asks for a document's text to be written to its path.
    pub fn handle_save_document(&self, document_id: u128) -> (r: Result<Vec<Effect>, Error>)
        requires
            self.wf(),
        ensures
            save_document_spec(*self, *self, document_id, r),
    {
        match self.documents.get(&document_id) {
            None => Err(Error::InvalidDocumentId(document_id)),
            Some(doc) => match &doc.path {
                None => Err(Error::NoPath(document_id)),
                Some(p) => {
                    let mut effs: Vec<Effect> = Vec::new();
                    effs.push(Effect::WriteFile { path: p.clone(), text: doc.buffer.content() });
                    Ok(effs)
                },
            },
        }
    }

    /// Sets a view's geometry, and sends its content again when it grew
    /// taller or scrolled to another first line.
    pub fn handle_viewport_changed(
        &mut self,
        view_id: u128,
        height: usize,
        width: usize,
        first_line: usize,
        first_col: usize,
    ) -> (r: Result<Vec<Effect>, Error>)
        requires
            old(self).wf(),
        ensures
            final(self).wf(),
            viewport_changed_spec(
                *old(self),
                *final(self),
                view_id,
                height,
                width,
                first_line,
                first_col,
                r,
            ),
    {
        let v = match self.views.get(&view_id) {
            Some(v) => *v,
            None => return Err(Error::InvalidViewId(view_id)),
        };
        assert(self.view_map().contains_key(view_id));
        assert(self.doc_map().contains_key(v.document_id));
        let needs_new_view_info = height > v.height || v.first_line != first_line;
        let nv = Viewport { document_id: v.document_id, height, width, first_line, first_col };
        self.views.insert(view_id, nv);
        let mut effs: Vec<Effect> = Vec::new();
        if needs_new_view_info {
            match self.documents.get(&nv.document_id) {
                Some(doc) => effs.push(Effect::Send(doc.create_update_notification(view_id, &nv))),
                None => return Err(Error::InvalidDocumentId(nv.document_id)),
            }
        }
        Ok(effs)
    }

    /// Carries out the operation bound to a key, if any, and sends the view's
    /// content again after it.
    pub fn handle_key_pressed(&mut self, view_id: u128, input: KeyInput) -> (r: Result<
        Vec<Effect>,
        Error,
    >)
        requires
            old(self).wf(),
        ensures
            final(self).wf(),
            key_pressed_spec(*old(self), *final(self), view_id, input, r),
    {
        let v = match self.views.get(&view_id) {
            Some(v) => *v,
            None => return Err(Error::InvalidViewId(view_id)),
        };
        assert(self.view_map().contains_key(view_id));
        assert(self.doc_map().contains_key(v.document_id));
        let did = v.document_id;
        let op = match interpret_key_input(&input) {
            Some(op) => op,
            None => return Ok(Vec::new()),
        };
        let mut effs: Vec<Effect> = Vec::new();
        match op {
            Operation::Document(DocumentOp::Save) => {
                let doc = match self.documents.get(&did) {
                    Some(d) => d,
                    None => return Err(Error::InvalidDocumentId(did)),
                };
                match &doc.path {
                    None => Err(Error::NoPath(did)),
                    Some(p) => {
                        effs.push(Effect::WriteFile { path: p.clone(), text: doc.buffer.content() });
                        effs.push(Effect::Send(doc.create_update_notification(view_id, &v)));
                        Ok(effs)
                    },
                }
            },
            _ => {
                let mut doc = match self.documents.remove(&did) {
                    Some(d) => d,
                    None => return Err(Error::InvalidDocumentId(did)),
                };
                match op {
                    Operation::Edit(e) => doc.buffer.apply_edit_op(e),
                    Operation::Movement(m) => doc.buffer.apply_movement_op(m),
                    Operation::Document(_) => {},
                }
                effs.push(Effect::Send(doc.create_update_notification(view_id, &v)));
                self.documents.insert(did, doc);
                assert(self.doc_map() =~= old(self).doc_map().insert(did, self.doc_map()[did]));
                Ok(effs)
            },
        }
    }

    /// A mouse click or scroll: nothing is done with it yet, once its view is
    /// found.
    pub fn handle_mouse_input(&self, view_id: u128) -> (r: Result<Vec<Effect>, Error>)
        requires
            self.wf(),
        ensures
            mouse_spec(*self, *self, view_id, r),
    {
        if self.views.contains_key(&view_id) {
            Ok(Vec::new())
        } else {
            Err(Error::InvalidViewId(view_id))
        }
    }

    /// Opens a view of a document under id `id`.
    pub fn handle_view_opened(
        &mut self,
        document_id: u128,
        height: usize,
        width: usize,
        id: u128,
    ) -> (r: Result<u128, Error>)
        requires
            old(self).wf(),
        ensures
            final(self).wf(),
            view_opened_spec(*old(self), *final(self), document_id, height, width, id, r),
    {
        if !self.documents.contains_key(&document_id) {
            return Err(Error::InvalidDocumentId(document_id));
        }
        if self.id_in_use(id) {
            return Err(Error::IdInUse(id));
        }
        self.views.insert(id, Viewport::new(document_id, height, width));
        Ok(id)
    }

    /// Handles one command; `id` is the id a view opened by it gets.
    pub fn handle_rpc_call_with_id(&mut self, call: ToBackend, id: u128) -> (r: Result<
        Vec<Effect>,
        Error,
    >)
        requires
            old(self).wf(),
        ensures
            final(self).wf(),
            handled(*old(self), *final(self), call, id, r),
    {
        match call {
            ToBackend::SaveDocument { document_id } => self.handle_save_document(document_id),
            ToBackend::KeyPressed { view_id, input } => self.handle_key_pressed(view_id, input),
            ToBackend::MouseInput { view_id, .. } => self.handle_mouse_input(view_id),
            ToBackend::MouseScroll { view_id, .. } => self.handle_mouse_input(view_id),
            ToBackend::ViewportChanged { view_id, height, width, first_line, first_col } => {
                self.handle_viewport_changed(view_id, height, width, first_line, first_col)
            },
            ToBackend::ViewOpened { request_id, document_id, height, width } => {
                match self.handle_view_opened(document_id, height, width, id) {
                    Ok(view_id) => {
                        let mut effs: Vec<Effect> = Vec::new();
                        effs.push(
                            Effect::Send(ToFrontend::ViewOpenedResponse { request_id, view_id }),
                        );
                        Ok(effs)
                    },
                    Err(e) => Err(e),
                }
            },
        }
    }

    /// Handles one command, drawing a new id for a view that it opens.
    pub fn handle_rpc_call(&mut self, call: ToBackend) -> (r: Result<Vec<Effect>, Error>)
        requires
            old(self).wf(),
        ensures
            final(self).wf(),
            exists|id: u128| handled(*old(self), *final(self), call, id, r),
    {
        let id = new_id();
        let ghost c = call;
        let r = self.handle_rpc_call_with_id(call, id);
        assert(handled(*old(self), *self, c, id, r));
        r
    }
}

} // verus!
