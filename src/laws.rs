use vstd::prelude::*;

use crate::keymap::key_operation;
use crate::proto::{KeyInput, RequestId, ToBackend, ToFrontend};
use crate::session::{
    handled, is_update, key_pressed_spec, no_effects, unchanged, viewport_changed_spec, App,
    Effect, Error,
};

verus! {

/// The error a command gets when it names a document or a view that is not
/// open, if it does.
pub open spec fn unknown_id_error(app: App, call: ToBackend) -> Option<Error> {
    match call {
        ToBackend::SaveDocument { document_id } | ToBackend::ViewOpened { document_id, .. } => {
            if app.doc_map().contains_key(document_id) {
                None
            } else {
                Some(Error::InvalidDocumentId(document_id))
            }
        },
        ToBackend::KeyPressed { view_id, .. }
        | ToBackend::MouseInput { view_id, .. }
        | ToBackend::MouseScroll { view_id, .. }
        | ToBackend::ViewportChanged { view_id, .. } => {
            if app.view_map().contains_key(view_id) {
                None
            } else {
                Some(Error::InvalidViewId(view_id))
            }
        },
    }
}

/// The id that a command names: a document's or a view's.
pub open spec fn named_id(call: ToBackend) -> u128 {
    match call {
        ToBackend::SaveDocument { document_id } => document_id,
        ToBackend::ViewOpened { document_id, .. } => document_id,
        ToBackend::KeyPressed { view_id, .. } => view_id,
        ToBackend::MouseInput { view_id, .. } => view_id,
        ToBackend::MouseScroll { view_id, .. } => view_id,
        ToBackend::ViewportChanged { view_id, .. } => view_id,
    }
}

/// `e` tells the frontend of a document or a view with id `x`.
pub open spec fn announces(e: Effect, x: u128) -> bool {
    match e {
        Effect::Send(ToFrontend::OpenDocument { document_id, .. }) => document_id == x,
        Effect::Send(ToFrontend::ViewOpenedResponse { view_id, .. }) => view_id == x,
        _ => false,
    }
}

/// A command succeeded and one of its effects tells of id `x`.
pub open spec fn result_announces(r: Result<Vec<Effect>, Error>, x: u128) -> bool {
    match r {
        Ok(effs) => exists|i: int| 0 <= i < effs@.len() && #[trigger] announces(effs@[i], x),
        Err(_) => false,
    }
}

/// How many of the effects send a view update.
pub open spec fn count_updates(effs: Seq<Effect>) -> nat
    decreases effs.len(),
{
    if effs.len() == 0 {
        0
    } else {
        count_updates(effs.drop_last()) + if is_update(effs.last()) {
            1nat
        } else {
            0nat
        }
    }
}

/// A command that names a document or a view that is not open fails with the
/// matching error and leaves every document and view as it was.
pub proof fn lemma_unknown_id_rejected(
    old: App,
    new: App,
    call: ToBackend,
    id: u128,
    r: Result<Vec<Effect>, Error>,
)
    requires
        old.wf(),
        handled(old, new, call, id, r),
    ensures
        unknown_id_error(old, call) matches Some(e) ==> r == Err::<Vec<Effect>, Error>(e)
            && unchanged(old, new),
{
}

/// A command that makes an id name a document or a view announces that id
/// to the frontend.
pub proof fn lemma_new_ids_announced(
    old: App,
    new: App,
    call: ToBackend,
    id: u128,
    r: Result<Vec<Effect>, Error>,
    x: u128,
)
    requires
        old.wf(),
        handled(old, new, call, id, r),
        !old.is_allocated(x),
        new.is_allocated(x),
    ensures
        result_announces(r, x),
{
    if let ToBackend::ViewOpened { .. } = call {
        if let Ok(effs) = r {
            assert(announces(effs@[0], x));
        }
    }
}

/// `states` is a run of the session from `states[0]`: command `calls[i]`, with
/// id `ids[i]` drawn for it, takes `states[i]` to `states[i + 1]` with result
/// `results[i]`.
pub open spec fn is_run(
    states: Seq<App>,
    calls: Seq<ToBackend>,
    ids: Seq<u128>,
    results: Seq<Result<Vec<Effect>, Error>>,
) -> bool {
    &&& states.len() == calls.len() + 1
    &&& ids.len() == calls.len()
    &&& results.len() == calls.len()
    &&& forall|i: int| 0 <= i < states.len() ==> #[trigger] states[i].wf()
    &&& forall|i: int|
        0 <= i < calls.len() ==> #[trigger] handled(
            states[i],
            states[i + 1],
            calls[i],
            ids[i],
            results[i],
        )
}

/// Over a run, an id that the session did not hold at the start and that no
/// command up to step `j` announced names nothing at step `j`.
pub proof fn lemma_run_keeps_unannounced_free(
    states: Seq<App>,
    calls: Seq<ToBackend>,
    ids: Seq<u128>,
    results: Seq<Result<Vec<Effect>, Error>>,
    x: u128,
    j: int,
)
    requires
        is_run(states, calls, ids, results),
        0 <= j <= calls.len(),
        !states[0].is_allocated(x),
        forall|i: int| 0 <= i < j ==> !#[trigger] result_announces(results[i], x),
    ensures
        !states[j].is_allocated(x),
    decreases j,
{
    if j > 0 {
        let i = j - 1;
        lemma_run_keeps_unannounced_free(states, calls, ids, results, x, i);
        assert(states[i].wf());
        assert(handled(states[i], states[i + 1], calls[i], ids[i], results[i]));
        if states[j].is_allocated(x) {
            lemma_new_ids_announced(states[i], states[i + 1], calls[i], ids[i], results[i], x);
            assert(!result_announces(results[i], x));
        }
    }
}

/// Over any run of commands, one that names an id which the session did
/// not hold at the start and which no earlier command announced fails with
/// the matching error, and leaves every document and view as it was.
pub proof fn lemma_run_rejects_unannounced_ids(
    states: Seq<App>,
    calls: Seq<ToBackend>,
    ids: Seq<u128>,
    results: Seq<Result<Vec<Effect>, Error>>,
    k: int,
)
    requires
        is_run(states, calls, ids, results),
        0 <= k < calls.len(),
        !states[0].is_allocated(named_id(calls[k])),
        forall|j: int| 0 <= j < k ==> !#[trigger] result_announces(results[j], named_id(calls[k])),
    ensures
        unknown_id_error(states[k], calls[k]) is Some,
        results[k] == Err::<Vec<Effect>, Error>(unknown_id_error(states[k], calls[k])->Some_0),
        unchanged(states[k], states[k + 1]),
{
    lemma_run_keeps_unannounced_free(states, calls, ids, results, named_id(calls[k]), k);
    assert(states[k].wf());
    assert(handled(states[k], states[k + 1], calls[k], ids[k], results[k]));
    lemma_unknown_id_rejected(states[k], states[k + 1], calls[k], ids[k], results[k]);
}

/// A view that is opened gets an id that named no document and no view
/// before; afterwards it names the new view, of the document asked for.
pub proof fn lemma_view_id_fresh(
    old: App,
    new: App,
    request_id: RequestId,
    document_id: u128,
    height: usize,
    width: usize,
    id: u128,
    r: Result<Vec<Effect>, Error>,
)
    requires
        old.wf(),
        handled(old, new, ToBackend::ViewOpened { request_id, document_id, height, width }, id, r),
    ensures
        r matches Ok(effs) ==> effs@.len() == 1 && match effs@[0] {
            Effect::Send(ToFrontend::ViewOpenedResponse { request_id: q, view_id: v }) => {
                &&& q == request_id
                &&& !old.is_allocated(v)
                &&& new.view_map().contains_key(v)
                &&& new.view_map()[v].document_id == document_id
                &&& !new.doc_map().contains_key(v)
            },
            _ => false,
        },
{
}

/// A viewport change that keeps the first line and does not make the view
/// taller sends nothing; any other sends exactly one view update.
pub proof fn lemma_viewport_update_rule(
    old: App,
    new: App,
    view_id: u128,
    height: usize,
    width: usize,
    first_line: usize,
    first_col: usize,
    r: Result<Vec<Effect>, Error>,
)
    requires
        old.view_map().contains_key(view_id),
        viewport_changed_spec(old, new, view_id, height, width, first_line, first_col, r),
    ensures
        r matches Ok(effs) && ({
            let v = old.view_map()[view_id];
            if first_line == v.first_line && height <= v.height {
                effs@.len() == 0
            } else {
                effs@.len() == 1 && is_update(effs@[0])
            }
        }),
{
}

/// A key press bound to an operation that is carried out sends exactly one
/// view update; one bound to nothing sends nothing and changes nothing.
pub proof fn lemma_key_update_once(
    old: App,
    new: App,
    view_id: u128,
    input: KeyInput,
    r: Result<Vec<Effect>, Error>,
)
    requires
        old.view_map().contains_key(view_id),
        key_pressed_spec(old, new, view_id, input, r),
    ensures
        key_operation(input) is None ==> no_effects(r) && unchanged(old, new),
        key_operation(input) is Some ==> (r matches Ok(effs) ==> count_updates(effs@) == 1),
{
    if key_operation(input) is Some {
        if let Ok(effs) = r {
            let s = effs@;
            if s.len() == 2 {
                let d = s.drop_last();
                assert(d.drop_last() =~= Seq::<Effect>::empty());
                assert(d.last() == s[0]);
                assert(!is_update(s[0]));
                assert(count_updates(d) == count_updates(d.drop_last()));
                assert(is_update(s.last()));
                assert(count_updates(s) == count_updates(d) + 1);
            } else if s.len() == 1 {
                assert(s.drop_last() =~= Seq::<Effect>::empty());
                assert(is_update(s.last()));
                assert(count_updates(s) == count_updates(s.drop_last()) + 1);
            }
        }
    }
}

/// Saving a document that has no path fails with `NoPath` and changes
/// nothing.
pub proof fn lemma_save_without_path(
    old: App,
    new: App,
    document_id: u128,
    id: u128,
    r: Result<Vec<Effect>, Error>,
)
    requires
        old.doc_map().contains_key(document_id),
        old.doc_map()[document_id].path is None,
        handled(old, new, ToBackend::SaveDocument { document_id }, id, r),
    ensures
        r == Err::<Vec<Effect>, Error>(Error::NoPath(document_id)),
        unchanged(old, new),
{
}

} // verus!
