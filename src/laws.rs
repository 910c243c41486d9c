use vstd::prelude::*;

use crate::controller::{
    is_new_task_key, AppView, CurrentlyEditing, EditSessionView, Key, ModeView,
};
use crate::store::TodoListView;
use crate::task::{next_status, Status, TaskView};

verus! {

/// The store after a sequence of selection moves, applied in order: `true` is a
/// move to the next task, `false` a move to the previous one.
pub open spec fn after_moves(v: TodoListView, moves: Seq<bool>) -> TodoListView
    decreases moves.len(),
{
    if moves.len() == 0 {
        v
    } else {
        let before = after_moves(v, moves.drop_last());
        if moves.last() {
            before.after_select_next()
        } else {
            before.after_select_previous()
        }
    }
}

/// The interface state after a sequence of key presses, applied in order.
pub open spec fn after_keys(a: AppView, keys: Seq<Key>) -> AppView
    decreases keys.len(),
{
    if keys.len() == 0 {
        a
    } else {
        after_keys(a, keys.drop_last()).step(keys.last())
    }
}

/// The key presses `keys` type the characters of `t`, one by one.
pub open spec fn types_text(keys: Seq<Key>, t: Seq<char>) -> bool {
    &&& keys.len() == t.len()
    &&& forall|i: int| 0 <= i < t.len() ==> keys[i] == Key::Char(#[trigger] t[i])
}

/// `n` presses of Backspace.
pub open spec fn erasing(n: nat) -> Seq<Key> {
    Seq::new(n, |i: int| Key::Backspace)
}

/// The draft after `t` is typed into its active field.
pub open spec fn typed_all(s: EditSessionView, t: Seq<char>) -> EditSessionView {
    match s.field {
        CurrentlyEditing::Title => EditSessionView { title: s.title + t, ..s },
        CurrentlyEditing::Info => EditSessionView { info: s.info + t, ..s },
    }
}

proof fn lemma_select_next_valid(v: TodoListView)
    requires
        v.valid(),
        v.tasks.len() > 0,
    ensures
        v.after_select_next().valid(),
        v.after_select_next().selected is Some,
        v.after_select_next().tasks == v.tasks,
{
    if let Some(i) = v.selected {
        let n = v.tasks.len() as int;
        assert(0 <= (i + 1) as int % n < n) by (nonlinear_arith)
            requires n > 0;
    }
}

/// Any sequence of selection moves on a non-empty store keeps the tasks as they
/// are and the selection on one of them; after at least one move a task is
/// selected.
pub proof fn lemma_moves_keep_selection_valid(v: TodoListView, moves: Seq<bool>)
    requires
        v.valid(),
        v.tasks.len() > 0,
    ensures
        after_moves(v, moves).valid(),
        after_moves(v, moves).tasks == v.tasks,
        moves.len() > 0 ==> after_moves(v, moves).selected is Some,
    decreases moves.len(),
{
    if moves.len() > 0 {
        lemma_moves_keep_selection_valid(v, moves.drop_last());
        lemma_select_next_valid(after_moves(v, moves.drop_last()));
    }
}

/// Deleting the only task leaves nothing selected; deleting the selected task of
/// a store of two or more leaves one task fewer and a selection on one of them.
pub proof fn lemma_delete_selected_selection(v: TodoListView)
    requires
        v.valid(),
        v.selected is Some,
    ensures
        v.tasks.len() == 1 ==> v.after_delete_selected().tasks.len() == 0
            && v.after_delete_selected().selected is None,
        v.tasks.len() > 1 ==> v.after_delete_selected().tasks.len() == v.tasks.len() - 1
            && v.after_delete_selected().selected is Some
            && v.after_delete_selected().valid(),
{
}

/// Cycling the selected task's status three times gives back the store it started from.
pub proof fn lemma_cycle_status_three_times(v: TodoListView)
    requires
        v.valid(),
    ensures
        v.after_cycle_status_selected().after_cycle_status_selected().after_cycle_status_selected()
            == v,
{
    if let Some(i) = v.selected {
        let t = v.tasks[i as int];
        assert(next_status(next_status(next_status(t.status))) == t.status);
        assert(v.after_cycle_status_selected().after_cycle_status_selected().after_cycle_status_selected().tasks
            =~= v.tasks);
    }
}

proof fn lemma_after_one_key(a: AppView, k: Key)
    ensures
        after_keys(a, seq![k]) == a.step(k),
{
    assert(seq![k].drop_last() =~= Seq::<Key>::empty());
    assert(after_keys(a, Seq::<Key>::empty()) == a);
}

/// Key presses done one sequence after another act as the two sequences joined.
pub proof fn lemma_after_keys_append(a: AppView, x: Seq<Key>, y: Seq<Key>)
    ensures
        after_keys(a, x + y) == after_keys(after_keys(a, x), y),
    decreases y.len(),
{
    if y.len() == 0 {
        assert(x + y =~= x);
    } else {
        assert((x + y).drop_last() =~= x + y.drop_last());
        lemma_after_keys_append(a, x, y.drop_last());
    }
}

/// Typing characters in Edit mode appends them to the active field and changes
/// nothing else.
pub proof fn lemma_typing(a: AppView, s: EditSessionView, keys: Seq<Key>, t: Seq<char>)
    requires
        a.mode == ModeView::Edit(s),
        types_text(keys, t),
    ensures
        after_keys(a, keys) == (AppView { mode: ModeView::Edit(typed_all(s, t)), ..a }),
    decreases t.len(),
{
    if t.len() == 0 {
        assert(s.title + t =~= s.title);
        assert(s.info + t =~= s.info);
    } else {
        let u = t.drop_last();
        assert(keys.last() == Key::Char(t[t.len() - 1]));
        assert forall|i: int| 0 <= i < u.len() implies keys.drop_last()[i] == Key::Char(#[trigger] u[i]) by {
            assert(u[i] == t[i]);
        }
        lemma_typing(a, s, keys.drop_last(), u);
        assert((s.title + u).push(t.last()) =~= s.title + t);
        assert((s.info + u).push(t.last()) =~= s.info + t);
    }
}

/// Backspace pressed `n` times on a Title field of at least `n` characters
/// removes its last `n` characters and changes nothing else.
pub proof fn lemma_erasing(a: AppView, s: EditSessionView, n: nat)
    requires
        a.mode == ModeView::Edit(s),
        s.field == CurrentlyEditing::Title,
        n <= s.title.len(),
    ensures
        after_keys(a, erasing(n)) == (AppView {
            mode: ModeView::Edit(EditSessionView { title: s.title.subrange(0, s.title.len() - n), ..s }),
            ..a
        }),
    decreases n,
{
    if n == 0 {
        assert(erasing(n) =~= Seq::<Key>::empty());
        assert(s.title.subrange(0, s.title.len() as int) =~= s.title);
    } else {
        assert(erasing(n).drop_last() =~= erasing((n - 1) as nat));
        lemma_erasing(a, s, (n - 1) as nat);
        assert(s.title.subrange(0, s.title.len() - (n - 1)).drop_last()
            =~= s.title.subrange(0, s.title.len() - n));
    }
}

/// Opening a new draft, typing a title, confirming, typing a detail and
/// confirming again appends one `Upcoming` task with those texts when the title is
/// non-empty, and leaves the store as it was when it is empty; either way the
/// interface is back in View mode.
pub proof fn lemma_new_task_flow(
    a: AppView,
    k: Key,
    title_keys: Seq<Key>,
    title: Seq<char>,
    info_keys: Seq<Key>,
    info: Seq<char>,
)
    requires
        a.valid(),
        a.mode == ModeView::View,
        is_new_task_key(k),
        types_text(title_keys, title),
        types_text(info_keys, info),
    ensures
        ({
            let r = after_keys(a, seq![k] + title_keys + seq![Key::Enter] + info_keys + seq![Key::Enter]);
            &&& r.mode == ModeView::View
            &&& r.exit == a.exit
            &&& title.len() > 0 ==> r.list == a.list.inserted(
                TaskView { title, info, status: Status::Upcoming },
            )
            &&& title.len() == 0 ==> r.list == a.list
        }),
{
    let k0 = seq![k];
    let k1 = k0 + title_keys;
    let k2 = k1 + seq![Key::Enter];
    let k3 = k2 + info_keys;
    let k4 = k3 + seq![Key::Enter];
    lemma_after_one_key(a, k);
    let a0 = after_keys(a, k0);
    let s0 = EditSessionView::fresh();
    assert(a0 == (AppView { mode: ModeView::Edit(s0), ..a }));
    lemma_after_keys_append(a, k0, title_keys);
    lemma_typing(a0, s0, title_keys, title);
    let s1 = typed_all(s0, title);
    assert(s1.title =~= title);
    assert(k2.drop_last() =~= k1);
    let s2 = EditSessionView { field: CurrentlyEditing::Info, ..s1 };
    let a2 = after_keys(a, k2);
    assert(a2 == (AppView { mode: ModeView::Edit(s2), ..a }));
    lemma_after_keys_append(a, k2, info_keys);
    lemma_typing(a2, s2, info_keys, info);
    let s3 = typed_all(s2, info);
    assert(s3.info =~= info);
    assert(k4.drop_last() =~= k3);
}

/// Opening a draft of the selected task, erasing its title, typing a new
/// non-empty title and confirming twice replaces that task's title, keeps its
/// detail and status, the number of tasks and the selection, and returns to View mode.
pub proof fn lemma_edit_title_flow(a: AppView, title_keys: Seq<Key>, title: Seq<char>)
    requires
        a.valid(),
        a.mode == ModeView::View,
        a.list.selected is Some,
        types_text(title_keys, title),
        title.len() > 0,
    ensures
        ({
            let i = a.list.selected->0;
            let old_task = a.list.tasks[i as int];
            let r = after_keys(
                a,
                seq![Key::Char('e')] + erasing(old_task.title.len()) + title_keys + seq![Key::Enter, Key::Enter],
            );
            &&& r.mode == ModeView::View
            &&& r.exit == a.exit
            &&& r.list.selected == a.list.selected
            &&& r.list.tasks.len() == a.list.tasks.len()
            &&& r.list.tasks == a.list.tasks.update(
                i as int,
                TaskView { title, info: old_task.info, status: old_task.status },
            )
        }),
{
    let i = a.list.selected->0;
    let old_task = a.list.tasks[i as int];
    let n = old_task.title.len();
    let k0 = seq![Key::Char('e')];
    let k1 = k0 + erasing(n);
    let k2 = k1 + title_keys;
    let k3 = k2 + seq![Key::Enter];
    let k4 = k3 + seq![Key::Enter];
    lemma_after_one_key(a, Key::Char('e'));
    let s0 = EditSessionView::revising(a.list, i);
    let a0 = after_keys(a, k0);
    assert(a0 == (AppView { mode: ModeView::Edit(s0), ..a }));
    lemma_after_keys_append(a, k0, erasing(n));
    lemma_erasing(a0, s0, n);
    let s1 = EditSessionView { title: s0.title.subrange(0, s0.title.len() - n), ..s0 };
    assert(s1.title =~= Seq::<char>::empty());
    let a1 = after_keys(a, k1);
    lemma_after_keys_append(a, k1, title_keys);
    lemma_typing(a1, s1, title_keys, title);
    let s2 = typed_all(s1, title);
    assert(s2.title =~= title);
    assert(k3.drop_last() =~= k2);
    assert(k4.drop_last() =~= k3);
    assert(k4 =~= k0 + erasing(n) + title_keys + seq![Key::Enter, Key::Enter]);
    let s3 = EditSessionView { field: CurrentlyEditing::Info, ..s2 };
    assert(after_keys(a, k3) == (AppView { mode: ModeView::Edit(s3), ..a }));
    assert(s3.committed_to(a.list) == a.list.updated(i, title, old_task.info));
}

/// In Edit mode, key presses other than Enter and Esc keep the interface in Edit
/// mode and leave the store and the exit request as they were.
pub proof fn lemma_draft_keys_keep_store(a: AppView, keys: Seq<Key>)
    requires
        a.mode is Edit,
        forall|j: int| 0 <= j < keys.len() ==> keys[j] != Key::Enter && keys[j] != Key::Esc,
    ensures
        after_keys(a, keys).mode is Edit,
        after_keys(a, keys).list == a.list,
        after_keys(a, keys).exit == a.exit,
    decreases keys.len(),
{
    if keys.len() > 0 {
        lemma_draft_keys_keep_store(a, keys.drop_last());
        assert(keys.last() == keys[keys.len() - 1]);
    }
}

/// Opening a draft, new or of the selected task, editing it with any keys but
/// Enter and Esc, and cancelling returns to View mode with the store exactly as
/// it was before the draft was opened.
pub proof fn lemma_cancel_leaves_store(a: AppView, k: Key, edits: Seq<Key>)
    requires
        a.valid(),
        a.mode == ModeView::View,
        is_new_task_key(k) || (k == Key::Char('e') && a.list.selected is Some),
        forall|j: int| 0 <= j < edits.len() ==> edits[j] != Key::Enter && edits[j] != Key::Esc,
    ensures
        ({
            let r = after_keys(a, seq![k] + edits + seq![Key::Esc]);
            &&& r.mode == ModeView::View
            &&& r.list == a.list
            &&& r.exit == a.exit
        }),
{
    let k0 = seq![k];
    let k1 = k0 + edits;
    let k2 = k1 + seq![Key::Esc];
    lemma_after_one_key(a, k);
    let a0 = after_keys(a, k0);
    assert(a0.mode is Edit && a0.list == a.list && a0.exit == a.exit);
    lemma_after_keys_append(a, k0, edits);
    lemma_draft_keys_keep_store(a0, edits);
    assert(k2.drop_last() =~= k1);
}

/// Opening Help from View mode and cancelling it gives back exactly the state
/// it started from.
pub proof fn lemma_help_round_trip(a: AppView)
    requires
        a.mode == ModeView::View,
    ensures
        after_keys(a, seq![Key::Char('h'), Key::Esc]) == a,
{
    let keys = seq![Key::Char('h'), Key::Esc];
    assert(keys.drop_last() =~= seq![Key::Char('h')]);
    lemma_after_one_key(a, Key::Char('h'));
}

} // verus!
