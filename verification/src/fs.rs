use vstd::prelude::*;
use vstd::string::*;

verus! {

/// The path that joining `name` onto `base` gives on a Unix system: an
/// absolute `name` replaces `base`; otherwise a `/` separates the two unless
/// `base` is empty or already ends in one.
pub open spec fn path_join(base: Seq<char>, name: Seq<char>) -> Seq<char> {
    if name.len() > 0 && name[0] == '/' {
        name
    } else if base.len() == 0 || base.last() == '/' {
        base + name
    } else {
        base + seq!['/'] + name
    }
}

/// Joins `name` onto the path `base`, as `Path::join` does on Unix.
pub fn join_path(base: &str, name: &str) -> (r: String)
    ensures
        r@ == path_join(base@, name@),
{
    let name_len = name.unicode_len();
    if name_len > 0 && name.get_char(0) == '/' {
        return String::from_str(name);
    }
    let base_len = base.unicode_len();
    if base_len == 0 || base.get_char(base_len - 1) == '/' {
        String::from_str(base).concat(name)
    } else {
        let sep = "/";
        proof {
            reveal_strlit("/");
        }
        let r = String::from_str(base).concat(sep).concat(name);
        assert(r@ == base@ + seq!['/'] + name@);
        r
    }
}

/// A path whose expansion names the home directory: `~` alone or followed by `/`.
pub open spec fn starts_with_home(path: Seq<char>) -> bool {
    path.len() > 0 && path[0] == '~' && (path.len() == 1 || path[1] == '/')
}

/// A path that names no variable and does not start with `~` or `~/`:
/// shell expansion leaves it as it is.
pub open spec fn is_plain_path(path: Seq<char>) -> bool {
    !path.contains('$') && !starts_with_home(path)
}

/// A character that may continue a `$`: a `{` or a character that can be
/// part of a variable's name (`_`, an ASCII letter or digit, or any
/// non-ASCII character, some of which are alphanumeric).
pub open spec fn may_follow_dollar_in_reference(c: char) -> bool {
    ||| c == '{'
    ||| c == '_'
    ||| ('0' <= c && c <= '9')
    ||| ('a' <= c && c <= 'z')
    ||| ('A' <= c && c <= 'Z')
    ||| (c as u32) >= 0x80
}

/// A path none of whose `$` can begin a variable reference (each is last, or
/// is followed by a character that no reference continues with), so that
/// expanding it looks up no variable.
pub open spec fn names_no_variable(path: Seq<char>) -> bool {
    forall|i: int|
        0 <= i < path.len() - 1 && #[trigger] path[i] == '$' ==> !may_follow_dollar_in_reference(path[i + 1])
}

/// The text with each `$$` turned into `$`: what expanding the variables of
/// a path that names none gives.
pub open spec fn collapse_dollars(s: Seq<char>) -> Seq<char>
    decreases s.len(),
{
    if s.len() == 0 {
        s
    } else if s.len() >= 2 && s[0] == '$' && s[1] == '$' {
        seq!['$'] + collapse_dollars(s.subrange(2, s.len() as int))
    } else {
        seq![s[0]] + collapse_dollars(s.drop_first())
    }
}

/// What an expansion of `path` can be, whatever the environment: a plain
/// path is its own expansion; in a path in which no `$` can begin a
/// variable reference each `$$` becomes `$` and nothing else changes but a
/// leading `~` (alone or before `/`); and a path that names no variable but
/// starts with `~` or `~/` comes back either with that `~` as it is (no home
/// directory known) or with some home directory in its place.
pub open spec fn expansion_of(path: Seq<char>, expanded: Seq<char>) -> bool {
    &&& is_plain_path(path) ==> expanded == path
    &&& names_no_variable(path) ==> (expanded == collapse_dollars(path) || (starts_with_home(path)
        && exists|home: Seq<char>|
        expanded == home + collapse_dollars(path).subrange(1, collapse_dollars(path).len() as int)))
    &&& (starts_with_home(path) && !path.contains('$')) ==> (expanded == path || exists|home: Seq<char>|
        expanded == home + path.subrange(1, path.len() as int))
}

/// `shellexpand::full`: expands a leading `~` (alone or before `/`) to the
/// home directory and `$VAR` / `${VAR}` references to the environment's
/// values, failing where a variable cannot be looked up. What comes back
/// depends on the environment, so the contract claims only what holds in
/// every environment: only a path in which a `$` can begin a variable
/// reference can fail (a lookup is the only step that fails), and what
/// comes back is an expansion as `expansion_of` describes it.
#[verifier::external_body]
fn shell_expand(path: &str) -> (r: Option<String>)
    ensures
        match r {
            Some(s) => expansion_of(path@, s@),
            None => path@.contains('$') && !names_no_variable(path@),
        },
{
    match shellexpand::full(path) {
        Ok(expanded) => Some(expanded.into_owned()),
        Err(_) => None,
    }
}

/// The path with a leading `~` and environment variables expanded as a shell
/// would; `None` where a variable it names cannot be looked up. A path that
/// names no variable always expands, and a plain path is its own expansion.
pub fn expand_path(path: &str) -> (r: Option<String>)
    ensures
        !path@.contains('$') ==> r is Some,
        names_no_variable(path@) ==> r is Some,
        is_plain_path(path@) ==> (r matches Some(s) && s@ == path@),
        r matches Some(s) ==> expansion_of(path@, s@),
{
    shell_expand(path)
}

/// Text without `$` has nothing to collapse.
proof fn lemma_collapse_without_dollar(s: Seq<char>)
    requires
        !s.contains('$'),
    ensures
        collapse_dollars(s) == s,
    decreases s.len(),
{
    if s.len() > 0 {
        let rest = s.drop_first();
        assert(!rest.contains('$')) by {
            if rest.contains('$') {
                let i = choose|i: int| 0 <= i < rest.len() && rest[i] == '$';
                assert(s[i + 1] == '$');
            }
        }
        assert(s[0] != '$') by {
            assert(s.contains(s[0]));
        }
        lemma_collapse_without_dollar(rest);
        assert(seq![s[0]] + rest == s);
    }
}

/// Expanding a path that names no variable and does not start with `~` or
/// `~/` gives one result whatever the environment: the path with each `$$`
/// turned into `$`, and the path itself when it has no `$` at all.
pub proof fn law_expansion_without_variables_is_fixed(path: Seq<char>, e1: Seq<char>, e2: Seq<char>)
    requires
        names_no_variable(path),
        !starts_with_home(path),
        expansion_of(path, e1),
        expansion_of(path, e2),
    ensures
        e1 == e2,
        e1 == collapse_dollars(path),
        !path.contains('$') ==> e1 == path,
{
    if !path.contains('$') {
        lemma_collapse_without_dollar(path);
    }
}

/// An absolute path that names no variable is plain, so expanding it leaves
/// it as it is (and expanding a canonical path again changes nothing).
pub proof fn law_absolute_path_is_plain(path: Seq<char>)
    requires
        path.len() > 0,
        path[0] == '/',
        !path.contains('$'),
    ensures
        is_plain_path(path),
{
}

/// The name of the directory under the new root where the old root is put.
pub open spec fn old_root_name() -> Seq<char> {
    "old_root"@
}

/// One system call of pivoting into a new root file system.
pub enum PivotOp {
    /// Change the working directory to the path.
    ChangeDir(String),
    /// Create the directory, with its parents.
    CreateDirAll(String),
    /// Make the first path the root and put the old root at the second.
    PivotRoot(String, String),
    /// Unmount the path lazily (detached).
    UnmountDetach(String),
}

/// A system call of the pivot as plain values.
pub enum PivotOpView {
    ChangeDir(Seq<char>),
    CreateDirAll(Seq<char>),
    PivotRoot(Seq<char>, Seq<char>),
    UnmountDetach(Seq<char>),
}

impl View for PivotOp {
    type V = PivotOpView;

    open spec fn view(&self) -> PivotOpView {
        match self {
            PivotOp::ChangeDir(p) => PivotOpView::ChangeDir(p@),
            PivotOp::CreateDirAll(p) => PivotOpView::CreateDirAll(p@),
            PivotOp::PivotRoot(n, o) => PivotOpView::PivotRoot(n@, o@),
            PivotOp::UnmountDetach(p) => PivotOpView::UnmountDetach(p@),
        }
    }
}

/// What the caller does next: run a system call and report how it went, or
/// stop with the pivot's result (the error message where it failed).
pub enum PivotAction {
    Run(PivotOp),
    Finish(Result<(), String>),
}

/// The next action as plain values.
pub enum PivotActionView {
    Run(PivotOpView),
    Finish(Result<(), Seq<char>>),
}

impl View for PivotAction {
    type V = PivotActionView;

    open spec fn view(&self) -> PivotActionView {
        match self {
            PivotAction::Run(op) => PivotActionView::Run(op@),
            PivotAction::Finish(Ok(())) => PivotActionView::Finish(Ok(())),
            PivotAction::Finish(Err(m)) => PivotActionView::Finish(Err(m@)),
        }
    }
}

/// The number of system calls of a pivot.
pub open spec fn pivot_len() -> nat {
    4
}

/// The `i`-th system call of pivoting into `root`: change into it, create
/// `old_root` in it, pivot with the old root put there, unmount `./old_root`.
pub open spec fn pivot_op(root: Seq<char>, i: nat) -> PivotOpView {
    if i == 0 {
        PivotOpView::ChangeDir(root)
    } else if i == 1 {
        PivotOpView::CreateDirAll(path_join(root, old_root_name()))
    } else if i == 2 {
        PivotOpView::PivotRoot(root, path_join(root, old_root_name()))
    } else {
        PivotOpView::UnmountDetach("./"@ + old_root_name())
    }
}

/// The start of the error message when the `i`-th system call fails; the
/// call's error follows it.
pub open spec fn pivot_failure_prefix(i: nat) -> Seq<char> {
    if i == 0 {
        "failed to chdir to rootfs: "@
    } else if i == 1 {
        "failed to create old_root path: "@
    } else if i == 2 {
        "failed to pivot_root: "@
    } else {
        "failed to unmount old_root: "@
    }
}

/// The step after the `step`-th system call went as `outcome` says: the next
/// call, success after the last one, or the failure of this one.
pub open spec fn pivot_next(root: Seq<char>, step: nat, outcome: Result<(), Seq<char>>) -> (
    nat,
    PivotActionView,
) {
    match outcome {
        Err(e) => (pivot_len(), PivotActionView::Finish(Err(pivot_failure_prefix(step) + e))),
        Ok(()) => if step + 1 < pivot_len() {
            ((step + 1) as nat, PivotActionView::Run(pivot_op(root, (step + 1) as nat)))
        } else {
            (pivot_len(), PivotActionView::Finish(Ok(())))
        },
    }
}

/// The view of a system call's outcome.
pub open spec fn outcome_view(outcome: Result<(), String>) -> Result<(), Seq<char>> {
    match outcome {
        Ok(()) => Ok(()),
        Err(e) => Err(e@),
    }
}

/// The progress of pivoting into a new root file system: the caller runs
/// each system call it is given and reports its outcome (the error's debug
/// text when it fails), until the pivot finishes.
pub struct PivotRootfs {
    root: String,
    step: usize,
}

impl PivotRootfs {
    /// The new root.
    pub closed spec fn root(&self) -> Seq<char> {
        self.root@
    }

    /// The number of the system call whose outcome is awaited; the pivot
    /// length once finished.
    pub closed spec fn step(&self) -> nat {
        self.step as nat
    }

    /// The pivot has finished and runs no more system calls.
    pub open spec fn is_finished(&self) -> bool {
        self.step() >= pivot_len()
    }

    /// Starts pivoting into `root`; the first action is to change into it.
    pub fn new(root: String) -> (r: (Self, PivotAction))
        ensures
            r.0.root() == root@,
            r.0.step() == 0,
            r.1@ == PivotActionView::Run(pivot_op(root@, 0)),
    {
        let op = PivotOp::ChangeDir(root.clone());
        (PivotRootfs { root, step: 0 }, PivotAction::Run(op))
    }

    /// Takes the outcome of the system call last given and returns the next
    /// action.
    pub fn advance(&mut self, outcome: Result<(), String>) -> (a: PivotAction)
        requires
            !old(self).is_finished(),
        ensures
            final(self).root() == old(self).root(),
            (final(self).step(), a@) == pivot_next(old(self).root(), old(self).step(), outcome_view(outcome)),
    {
        match outcome {
            Err(e) => {
                let prefix = match self.step {
                    0 => "failed to chdir to rootfs: ",
                    1 => "failed to create old_root path: ",
                    2 => "failed to pivot_root: ",
                    _ => "failed to unmount old_root: ",
                };
                let message = String::from_str(prefix).concat(e.as_str());
                self.step = 4;
                PivotAction::Finish(Err(message))
            },
            Ok(()) => {
                if self.step == 3 {
                    self.step = 4;
                    return PivotAction::Finish(Ok(()));
                }
                self.step = self.step + 1;
                let old_root = join_path(self.root.as_str(), "old_root");
                proof {
                    reveal_strlit("old_root");
                }
                let op = if self.step == 1 {
                    PivotOp::CreateDirAll(old_root)
                } else if self.step == 2 {
                    PivotOp::PivotRoot(self.root.clone(), old_root)
                } else {
                    let target = "./old_root";
                    proof {
                        reveal_strlit("./old_root");
                        reveal_strlit("./");
                        assert("./"@ + "old_root"@ == "./old_root"@);
                    }
                    PivotOp::UnmountDetach(String::from_str(target))
                };
                PivotAction::Run(op)
            },
        }
    }
}

/// The actions a pivot into `root` gives after its `step`-th system call
/// when the calls go as `outcomes` say, until it finishes.
pub open spec fn pivot_trace(root: Seq<char>, step: nat, outcomes: Seq<Result<(), Seq<char>>>) -> Seq<
    PivotActionView,
>
    decreases outcomes.len(),
{
    if outcomes.len() == 0 || step >= pivot_len() {
        Seq::empty()
    } else {
        let (next, action) = pivot_next(root, step, outcomes[0]);
        seq![action] + pivot_trace(root, next, outcomes.drop_first())
    }
}

/// When every system call succeeds, the pivot changes into the root, creates
/// `old_root` in it, pivots with the old root put there, unmounts
/// `./old_root`, and then finishes with success.
pub proof fn law_pivot_runs_in_order(root: Seq<char>)
    ensures
        pivot_op(root, 0) == PivotOpView::ChangeDir(root),
        pivot_trace(root, 0, seq![Ok(()), Ok(()), Ok(()), Ok(())]) == seq![
            PivotActionView::Run(PivotOpView::CreateDirAll(path_join(root, old_root_name()))),
            PivotActionView::Run(PivotOpView::PivotRoot(root, path_join(root, old_root_name()))),
            PivotActionView::Run(PivotOpView::UnmountDetach("./"@ + old_root_name())),
            PivotActionView::Finish(Ok(())),
        ],
{
    let oks: Seq<Result<(), Seq<char>>> = seq![Ok(()), Ok(()), Ok(()), Ok(())];
    assert(oks.drop_first() == seq![Ok::<(), Seq<char>>(()), Ok(()), Ok(())]);
    assert(oks.drop_first().drop_first() == seq![Ok::<(), Seq<char>>(()), Ok(())]);
    assert(oks.drop_first().drop_first().drop_first() == seq![Ok::<(), Seq<char>>(())]);
    assert(oks.drop_first().drop_first().drop_first().drop_first() == Seq::<Result<(), Seq<char>>>::empty());
    reveal_with_fuel(pivot_trace, 5);
}

/// The first system call that fails ends the pivot with that call's message
/// followed by its error; no later call is run.
pub proof fn law_pivot_stops_at_first_failure(root: Seq<char>, step: nat, e: Seq<char>, rest: Seq<Result<(), Seq<char>>>)
    requires
        step < pivot_len(),
    ensures
        pivot_trace(root, step, seq![Err(e)] + rest) == seq![
            PivotActionView::Finish(Err(pivot_failure_prefix(step) + e)),
        ],
{
    let outcomes = seq![Err(e)] + rest;
    assert(outcomes[0] == Err::<(), Seq<char>>(e));
    assert(pivot_trace(root, pivot_len(), outcomes.drop_first()) == Seq::<PivotActionView>::empty());
}

} // verus!
