//! Edit actions and the undo/redo history.
use vstd::prelude::*;

verus! {

/// One edit of the buffer; a group is undone and redone as a whole.
#[derive(Debug)]
pub enum EditAction {
    InsertChar { line: usize, col: usize, c: char },
    DeleteChar { line: usize, col: usize, c: char },
    InsertNewline { line: usize, col: usize },
    DeleteNewline { line: usize, col: usize },
    InsertLine { line: usize, text: String },
    DeleteLine { line: usize, text: String },
    Group(Vec<EditAction>),
}

/// The value of an `EditAction`: the same tree, with sequences.
pub enum Edit {
    InsertChar { line: usize, col: usize, c: char },
    DeleteChar { line: usize, col: usize, c: char },
    InsertNewline { line: usize, col: usize },
    DeleteNewline { line: usize, col: usize },
    InsertLine { line: usize, text: Seq<char> },
    DeleteLine { line: usize, text: Seq<char> },
    Group(Seq<Edit>),
}

/// The value of an action.
pub open spec fn edit_of(a: EditAction) -> Edit
    decreases a,
{
    match a {
        EditAction::InsertChar { line, col, c } => Edit::InsertChar { line, col, c },
        EditAction::DeleteChar { line, col, c } => Edit::DeleteChar { line, col, c },
        EditAction::InsertNewline { line, col } => Edit::InsertNewline { line, col },
        EditAction::DeleteNewline { line, col } => Edit::DeleteNewline { line, col },
        EditAction::InsertLine { line, text } => Edit::InsertLine { line, text: text@ },
        EditAction::DeleteLine { line, text } => Edit::DeleteLine { line, text: text@ },
        EditAction::Group(v) => Edit::Group(edits_of(v@)),
    }
}

/// The value of an action, one level unfolded.
pub broadcast proof fn lemma_edit_of_unfold(a: EditAction)
    ensures
        #[trigger] edit_of(a) == match a {
            EditAction::InsertChar { line, col, c } => Edit::InsertChar { line, col, c },
            EditAction::DeleteChar { line, col, c } => Edit::DeleteChar { line, col, c },
            EditAction::InsertNewline { line, col } => Edit::InsertNewline { line, col },
            EditAction::DeleteNewline { line, col } => Edit::DeleteNewline { line, col },
            EditAction::InsertLine { line, text } => Edit::InsertLine { line, text: text@ },
            EditAction::DeleteLine { line, text } => Edit::DeleteLine { line, text: text@ },
            EditAction::Group(v) => Edit::Group(edits_of(v@)),
        },
{
}

/// The values of a sequence of actions.
pub open spec fn edits_of(s: Seq<EditAction>) -> Seq<Edit>
    decreases s,
{
    if s.len() == 0 {
        Seq::empty()
    } else {
        edits_of(s.drop_last()).push(edit_of(s.last()))
    }
}

impl View for EditAction {
    type V = Edit;

    open spec fn view(&self) -> Edit {
        edit_of(*self)
    }
}

/// The edit that undoes `e`: inserts and deletes swap, and a group is
/// reversed in order, each member reversed.
pub open spec fn reversed(e: Edit) -> Edit
    decreases e,
{
    match e {
        Edit::InsertChar { line, col, c } => Edit::DeleteChar { line, col, c },
        Edit::DeleteChar { line, col, c } => Edit::InsertChar { line, col, c },
        Edit::InsertNewline { line, col } => Edit::DeleteNewline { line, col },
        Edit::DeleteNewline { line, col } => Edit::InsertNewline { line, col },
        Edit::InsertLine { line, text } => Edit::DeleteLine { line, text },
        Edit::DeleteLine { line, text } => Edit::InsertLine { line, text },
        Edit::Group(s) => Edit::Group(reversed_all(s)),
    }
}

/// Each edit reversed, in reverse order.
pub open spec fn reversed_all(s: Seq<Edit>) -> Seq<Edit>
    decreases s,
{
    if s.len() == 0 {
        Seq::empty()
    } else {
        reversed_all(s.drop_first()).push(reversed(s[0]))
    }
}

/// Whether `new` continues `prev` so that both can be undone as one: typing
/// on the next column, or deleting backwards on the column before; a group
/// continues through its last member.
pub open spec fn mergeable(prev: Edit, new: Edit) -> bool
    decreases prev,
{
    match prev {
        Edit::Group(s) => if s.len() > 0 {
            mergeable(s.last(), new)
        } else {
            false
        },
        Edit::InsertChar { line: l1, col: c1, .. } => match new {
            Edit::InsertChar { line: l2, col: c2, .. } => l1 == l2 && c2 == c1 + 1,
            _ => false,
        },
        Edit::DeleteChar { line: l1, col: c1, .. } => match new {
            Edit::DeleteChar { line: l2, col: c2, .. } => l1 == l2 && c1 == c2 + 1,
            _ => false,
        },
        _ => false,
    }
}

proof fn lemma_reversed_all_push(a: Seq<Edit>, x: Edit)
    ensures
        reversed_all(a.push(x)) == seq![reversed(x)] + reversed_all(a),
    decreases a.len(),
{
    if a.len() == 0 {
        assert(a.push(x).drop_first() =~= Seq::<Edit>::empty());
        assert(a.push(x)[0] == x);
        assert(reversed_all(a) =~= Seq::<Edit>::empty());
        assert(reversed_all(Seq::<Edit>::empty()) =~= Seq::<Edit>::empty());
        assert(reversed_all(a.push(x)) =~= seq![reversed(x)]);
        assert(seq![reversed(x)] + reversed_all(a) =~= seq![reversed(x)]);
    } else {
        assert(a.push(x).drop_first() =~= a.drop_first().push(x));
        lemma_reversed_all_push(a.drop_first(), x);
        assert(reversed_all(a.push(x)) =~= seq![reversed(x)] + reversed_all(a));
    }
}

/// Reversing an edit twice gives the edit back: undoing an undo redoes.
pub proof fn law_reverse_involution(e: Edit)
    ensures
        reversed(reversed(e)) == e,
    decreases e,
{
    if let Edit::Group(s) = e {
        law_reverse_all_involution(s);
    }
}

/// Reversing a sequence of edits twice gives it back.
pub proof fn law_reverse_all_involution(s: Seq<Edit>)
    ensures
        reversed_all(reversed_all(s)) == s,
    decreases s,
{
    if s.len() > 0 {
        let r = reversed_all(s.drop_first());
        law_reverse_involution(s[0]);
        law_reverse_all_involution(s.drop_first());
        lemma_reversed_all_push(r, reversed(s[0]));
        assert(seq![s[0]] + s.drop_first() =~= s);
    }
}

/// Recording an edit that does not merge, with no group open, and then
/// taking the top of the undo stack gives back that edit and the undo stack
/// as it was; the redo stack is empty.
pub proof fn law_undo_gives_back_last_edit(h: History, a: Edit)
    requires
        h.group is None,
        !(h.undo.len() > 0 && mergeable(h.undo.last(), a)),
    ensures
        ({
            let h2 = after_finish_group(after_push_undo(h, a));
            &&& h2.undo.len() > 0
            &&& h2.undo.last() == a
            &&& h2.undo.drop_last() == h.undo
            &&& h2.redo == Seq::<Edit>::empty()
            &&& h2.group is None
        }),
{
    let h2 = after_finish_group(after_push_undo(h, a));
    assert(h2.undo.drop_last() =~= h.undo);
}

/// With no group open, a deletion joins the deletion on top of the undo
/// stack only when it is on the same line one column to its left, as
/// backspacing goes; any other deletion, such as a second one on the same
/// column (deleting forwards), is recorded on its own, so that undo puts back
/// exactly that one character.
pub proof fn law_deletions_merge_only_backwards(
    h: History,
    l1: usize,
    c1: usize,
    ch1: char,
    l2: usize,
    c2: usize,
    ch2: char,
)
    requires
        h.group is None,
        h.undo.len() > 0,
        h.undo.last() == (Edit::DeleteChar { line: l1, col: c1, c: ch1 }),
    ensures
        ({
            let d = Edit::DeleteChar { line: l2, col: c2, c: ch2 };
            let h2 = after_push_undo(h, d);
            &&& (l1 == l2 && c2 + 1 == c1) ==> h2.undo == h.undo.drop_last().push(
                Edit::Group(seq![h.undo.last(), d]),
            )
            &&& !(l1 == l2 && c2 + 1 == c1) ==> h2.undo == h.undo.push(d)
        }),
{
}

/// With no group open, a typed character joins the one on top of the undo
/// stack only when it is on the same line one column to its right; any
/// other is recorded on its own.
pub proof fn law_typing_merges_only_forwards(
    h: History,
    l1: usize,
    c1: usize,
    ch1: char,
    l2: usize,
    c2: usize,
    ch2: char,
)
    requires
        h.group is None,
        h.undo.len() > 0,
        h.undo.last() == (Edit::InsertChar { line: l1, col: c1, c: ch1 }),
    ensures
        ({
            let d = Edit::InsertChar { line: l2, col: c2, c: ch2 };
            let h2 = after_push_undo(h, d);
            &&& (l1 == l2 && c2 == c1 + 1) ==> h2.undo == h.undo.drop_last().push(
                Edit::Group(seq![h.undo.last(), d]),
            )
            &&& !(l1 == l2 && c2 == c1 + 1) ==> h2.undo == h.undo.push(d)
        }),
{
}

/// Edits recorded while a group is open are undone together: closing a group
/// of two or more edits pushes exactly one group edit holding them in order.
pub proof fn law_group_undone_as_one(h: History, g: Seq<Edit>)
    requires
        h.group == Some(g),
        g.len() >= 2,
    ensures
        after_finish_group(h).undo == h.undo.push(Edit::Group(g)),
        after_finish_group(h).group is None,
{
}

pub proof fn lemma_edits_of_len_index(s: Seq<EditAction>)
    ensures
        edits_of(s).len() == s.len(),
        forall|i: int| 0 <= i < s.len() ==> #[trigger] edits_of(s)[i] == edit_of(s[i]),
    decreases s.len(),
{
    if s.len() > 0 {
        lemma_edits_of_len_index(s.drop_last());
    }
}

proof fn lemma_edits_of_push(s: Seq<EditAction>, a: EditAction)
    ensures
        edits_of(s.push(a)) == edits_of(s).push(edit_of(a)),
{
    assert(s.push(a).drop_last() =~= s);
}

proof fn lemma_edits_of_extensional(s: Seq<EditAction>, t: Seq<EditAction>)
    requires
        s.len() == t.len(),
        forall|i: int| 0 <= i < s.len() ==> edit_of(#[trigger] s[i]) == edit_of(t[i]),
    ensures
        edits_of(s) == edits_of(t),
    decreases s.len(),
{
    if s.len() > 0 {
        assert forall|i: int| 0 <= i < s.drop_last().len() implies edit_of(
            #[trigger] s.drop_last()[i],
        ) == edit_of(t.drop_last()[i]) by {
            assert(s.drop_last()[i] == s[i]);
            assert(t.drop_last()[i] == t[i]);
        }
        lemma_edits_of_extensional(s.drop_last(), t.drop_last());
    }
}

impl EditAction {
    /// The action that undoes this one.
    pub fn reverse(&self) -> (r: Self)
        ensures
            r@ == reversed(self@),
        decreases self,
    {
        match self {
            Self::InsertChar { line, col, c } => Self::DeleteChar { line: *line, col: *col, c: *c },
            Self::DeleteChar { line, col, c } => Self::InsertChar { line: *line, col: *col, c: *c },
            Self::InsertNewline { line, col } => Self::DeleteNewline { line: *line, col: *col },
            Self::DeleteNewline { line, col } => Self::InsertNewline { line: *line, col: *col },
            Self::InsertLine { line, text } => Self::DeleteLine { line: *line, text: text.clone() },
            Self::DeleteLine { line, text } => Self::InsertLine { line: *line, text: text.clone() },
            Self::Group(actions) => {
                let n = actions.len();
                let mut out: Vec<EditAction> = Vec::new();
                let mut i = n;
                let ghost es = edits_of(actions@);
                proof {
                    lemma_edits_of_len_index(actions@);
                    assert(es.subrange(n as int, n as int) =~= Seq::<Edit>::empty());
                }
                #[verifier::loop_isolation(false)]
                while i > 0
                    invariant
                        n == actions@.len(),
                        es == edits_of(actions@),
                        es.len() == n,
                        forall|k: int| 0 <= k < n ==> #[trigger] es[k] == edit_of(actions@[k]),
                        i <= n,
                        edits_of(out@) == reversed_all(es.subrange(i as int, n as int)),
                    decreases i,
                {
                    i = i - 1;
                    assert(decreases_to!(self => actions@[i as int]));
                    let r = actions[i].reverse();
                    proof {
                        lemma_edits_of_push(out@, r);
                        let sub = es.subrange(i as int, n as int);
                        assert(sub.drop_first() =~= es.subrange(i + 1, n as int));
                        assert(sub[0] == es[i as int]);
                    }
                    out.push(r);
                }
                proof {
                    assert(es.subrange(0, n as int) =~= es);
                }
                Self::Group(out)
            },
        }
    }

    /// Whether `new` can be merged into this action in the history.
    pub fn can_merge(&self, new: &EditAction) -> (r: bool)
        ensures
            r == mergeable(self@, new@),
        decreases self,
    {
        match (self, new) {
            (Self::Group(actions), _) => {
                proof {
                    lemma_edits_of_len_index(actions@);
                }
                if actions.len() > 0 {
                    let last = &actions[actions.len() - 1];
                    assert(decreases_to!(self => actions@[actions@.len() - 1]));
                    last.can_merge(new)
                } else {
                    false
                }
            },
            (Self::InsertChar { line: l1, col: c1, .. }, Self::InsertChar { line: l2, col: c2, .. }) => {
                *l1 == *l2 && *c2 > 0 && *c2 - 1 == *c1
            },
            (Self::DeleteChar { line: l1, col: c1, .. }, Self::DeleteChar { line: l2, col: c2, .. }) => {
                *l1 == *l2 && *c1 > 0 && *c1 - 1 == *c2
            },
            _ => false,
        }
    }
}

/// The state of the history: the undo stack, the redo stack (tops last),
/// and the group being collected, if one is open.
pub struct History {
    pub undo: Seq<Edit>,
    pub redo: Seq<Edit>,
    pub group: Option<Seq<Edit>>,
}

/// What merging `new` into `last` makes: a group that ends with `new`.
pub open spec fn merged(last: Edit, new: Edit) -> Edit {
    match last {
        Edit::Group(s) => Edit::Group(s.push(new)),
        _ => Edit::Group(seq![last, new]),
    }
}

/// The history after recording `a`: the redo stack is emptied; `a` joins
/// the open group, or merges into the top of the undo stack, or is pushed.
pub open spec fn after_push_undo(h: History, a: Edit) -> History {
    match h.group {
        Some(g) => History { undo: h.undo, redo: Seq::empty(), group: Some(g.push(a)) },
        None => if h.undo.len() > 0 && mergeable(h.undo.last(), a) {
            History {
                undo: h.undo.drop_last().push(merged(h.undo.last(), a)),
                redo: Seq::empty(),
                group: None,
            }
        } else {
            History { undo: h.undo.push(a), redo: Seq::empty(), group: None }
        },
    }
}

/// The history after closing the open group: a group of one edit is pushed
/// as that edit, a longer one as a group, an empty one not at all.
pub open spec fn after_finish_group(h: History) -> History {
    match h.group {
        None => h,
        Some(g) => History {
            undo: if g.len() == 0 {
                h.undo
            } else if g.len() == 1 {
                h.undo.push(g[0])
            } else {
                h.undo.push(Edit::Group(g))
            },
            redo: h.redo,
            group: None,
        },
    }
}

pub struct HistoryManager {
    undo_stack: Vec<EditAction>,
    redo_stack: Vec<EditAction>,
    current_group: Option<Vec<EditAction>>,
}

impl View for HistoryManager {
    type V = History;

    closed spec fn view(&self) -> History {
        History {
            undo: edits_of(self.undo_stack@),
            redo: edits_of(self.redo_stack@),
            group: match self.current_group {
                Some(g) => Some(edits_of(g@)),
                None => None,
            },
        }
    }
}

impl HistoryManager {
    /// An empty history with no open group.
    pub fn new() -> (h: Self)
        ensures
            h@ == (History { undo: Seq::empty(), redo: Seq::empty(), group: None }),
    {
        let h = Self { undo_stack: Vec::new(), redo_stack: Vec::new(), current_group: None };
        proof {
            assert(edits_of(h.undo_stack@) =~= Seq::<Edit>::empty());
            assert(edits_of(h.redo_stack@) =~= Seq::<Edit>::empty());
        }
        h
    }

    /// Opens a group, unless one is open already.
    pub fn start_group(&mut self)
        ensures
            final(self)@ == (match old(self)@.group {
                Some(_) => old(self)@,
                None => History { undo: old(self)@.undo, redo: old(self)@.redo, group: Some(Seq::empty()) },
            }),
    {
        if self.current_group.is_none() {
            self.current_group = Some(Vec::new());
            proof {
                assert(edits_of(Seq::<EditAction>::empty()) =~= Seq::<Edit>::empty());
            }
        }
    }

    /// Closes the open group, if any, pushing it on the undo stack.
    pub fn finish_group(&mut self)
        ensures
            final(self)@ == after_finish_group(old(self)@),
    {
        if let Some(actions) = self.current_group.take() {
            let mut actions = actions;
            proof {
                lemma_edits_of_len_index(actions@);
            }
            if actions.len() > 0 {
                if actions.len() == 1 {
                    let a = actions.pop().unwrap();
                    proof {
                        lemma_edits_of_push(self.undo_stack@, a);
                    }
                    self.undo_stack.push(a);
                } else {
                    let g = EditAction::Group(actions);
                    proof {
                        lemma_edits_of_push(self.undo_stack@, g);
                    }
                    self.undo_stack.push(g);
                }
            }
        }
    }

    /// Records an edit; see `after_push_undo`.
    pub fn push_undo(&mut self, action: EditAction)
        ensures
            final(self)@ == after_push_undo(old(self)@, action@),
    {
        self.redo_stack.clear();
        proof {
            assert(edits_of(self.redo_stack@) =~= Seq::<Edit>::empty());
        }
        if self.current_group.is_some() {
            let mut group = self.current_group.take().unwrap();
            proof {
                lemma_edits_of_push(group@, action);
            }
            group.push(action);
            self.current_group = Some(group);
            return;
        }
        let n = self.undo_stack.len();
        if n > 0 {
            proof {
                lemma_edits_of_len_index(self.undo_stack@);
            }
            if self.undo_stack[n - 1].can_merge(&action) {
                let ghost before = self.undo_stack@;
                let last = self.undo_stack.pop().unwrap();
                proof {
                    assert(before.drop_last() =~= self.undo_stack@);
                }
                let ghost last_edit = last@;
                let ghost act = action@;
                let new_last = match last {
                    EditAction::Group(vec) => {
                        let mut vec = vec;
                        proof {
                            lemma_edits_of_push(vec@, action);
                        }
                        vec.push(action);
                        EditAction::Group(vec)
                    },
                    other => {
                        let mut vec: Vec<EditAction> = Vec::new();
                        vec.push(other);
                        vec.push(action);
                        proof {
                            reveal_with_fuel(edits_of, 3);
                            assert(vec@.drop_last().drop_last() =~= Seq::<EditAction>::empty());
                            assert(edits_of(vec@) =~= seq![last_edit, act]);
                        }
                        EditAction::Group(vec)
                    },
                };
                proof {
                    assert(new_last@ == merged(last_edit, act));
                    lemma_edits_of_push(self.undo_stack@, new_last);
                    assert(edits_of(before).drop_last() =~= edits_of(self.undo_stack@));
                    assert(edits_of(before).last() == last_edit);
                }
                self.undo_stack.push(new_last);
                return;
            }
        }
        proof {
            lemma_edits_of_push(self.undo_stack@, action);
        }
        self.undo_stack.push(action);
    }

    /// The edits of the open group, if a group is open.
    pub fn open_group(&self) -> (r: Option<&Vec<EditAction>>)
        ensures
            match r {
                Some(g) => self@.group == Some(edits_of(g@)),
                None => self@.group is None,
            },
    {
        match &self.current_group {
            Some(g) => Some(g),
            None => None,
        }
    }

    /// The top of the undo stack, if any.
    pub fn last_undo(&self) -> (r: Option<&EditAction>)
        ensures
            match r {
                Some(a) => self@.undo.len() > 0 && a@ == self@.undo.last(),
                None => self@.undo.len() == 0,
            },
    {
        proof {
            lemma_edits_of_len_index(self.undo_stack@);
        }
        let n = self.undo_stack.len();
        if n > 0 {
            Some(&self.undo_stack[n - 1])
        } else {
            None
        }
    }

    /// The top of the redo stack, if any.
    pub fn last_redo(&self) -> (r: Option<&EditAction>)
        ensures
            match r {
                Some(a) => self@.redo.len() > 0 && a@ == self@.redo.last(),
                None => self@.redo.len() == 0,
            },
    {
        proof {
            lemma_edits_of_len_index(self.redo_stack@);
        }
        let n = self.redo_stack.len();
        if n > 0 {
            Some(&self.redo_stack[n - 1])
        } else {
            None
        }
    }

    /// Closes the open group, then takes the top of the undo stack.
    pub fn pop_undo(&mut self) -> (r: Option<EditAction>)
        ensures
            ({
                let h = after_finish_group(old(self)@);
                &&& h.undo.len() == 0 ==> r is None && final(self)@ == h
                &&& h.undo.len() > 0 ==> r is Some && r->0@ == h.undo.last() && final(self)@ == (
                History { undo: h.undo.drop_last(), redo: h.redo, group: None })
            }),
    {
        self.finish_group();
        proof {
            lemma_edits_of_len_index(self.undo_stack@);
        }
        let ghost before = self.undo_stack@;
        let r = self.undo_stack.pop();
        proof {
            if before.len() > 0 {
                assert(before.drop_last() =~= self.undo_stack@);
                assert(edits_of(before).drop_last() =~= edits_of(self.undo_stack@));
            }
        }
        r
    }

    /// Puts an action on the redo stack.
    pub fn push_redo(&mut self, action: EditAction)
        ensures
            final(self)@ == (History {
                undo: old(self)@.undo,
                redo: old(self)@.redo.push(action@),
                group: old(self)@.group,
            }),
    {
        proof {
            lemma_edits_of_push(self.redo_stack@, action);
        }
        self.redo_stack.push(action);
    }

    /// Takes the top of the redo stack.
    pub fn pop_redo(&mut self) -> (r: Option<EditAction>)
        ensures
            old(self)@.redo.len() == 0 ==> r is None && final(self)@ == old(self)@,
            old(self)@.redo.len() > 0 ==> r is Some && r->0@ == old(self)@.redo.last() && final(self)@ == (History {
                undo: old(self)@.undo,
                redo: old(self)@.redo.drop_last(),
                group: old(self)@.group,
            }),
    {
        proof {
            lemma_edits_of_len_index(self.redo_stack@);
        }
        let ghost before = self.redo_stack@;
        let r = self.redo_stack.pop();
        proof {
            if before.len() > 0 {
                assert(before.drop_last() =~= self.redo_stack@);
                assert(edits_of(before).drop_last() =~= edits_of(self.redo_stack@));
            }
        }
        r
    }

    /// Puts an action on the redo stack, as `push_redo` does.
    pub fn push_undo_from_redo(&mut self, action: EditAction)
        ensures
            final(self)@ == (History {
                undo: old(self)@.undo,
                redo: old(self)@.redo.push(action@),
                group: old(self)@.group,
            }),
    {
        proof {
            lemma_edits_of_push(self.redo_stack@, action);
        }
        self.redo_stack.push(action);
    }

    /// Empties both stacks and drops the open group.
    pub fn clear(&mut self)
        ensures
            final(self)@ == (History { undo: Seq::empty(), redo: Seq::empty(), group: None }),
    {
        self.undo_stack.clear();
        self.redo_stack.clear();
        self.current_group = None;
        proof {
            assert(edits_of(self.undo_stack@) =~= Seq::<Edit>::empty());
            assert(edits_of(self.redo_stack@) =~= Seq::<Edit>::empty());
        }
    }
}

} // verus!
