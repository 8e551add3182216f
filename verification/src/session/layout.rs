//! Layout tree: the recursive split/terminal structure of a workspace.

use vstd::prelude::*;

use crate::ids::{is_hyphenated_uuid, new_uuid};
use crate::text::{opt_view, owned, str_eq, strs_view};

verus! {

/// Deepest nesting at which a terminal may still be split.
pub const MAX_SPLIT_DEPTH: usize = 5;

/// The ratio a fresh split starts with (`0.5`), as IEEE-754 binary64 bits.
pub const EVEN_SPLIT_RATIO: u64 = 0x3FE0_0000_0000_0000;

/// Direction in which a split divides its area.
#[derive(Debug, Clone, Copy, PartialEq, Eq, Structural)]
pub enum SplitOrientation {
    Horizontal,
    Vertical,
}

/// A node of the layout tree.
///
/// A split's `ratio` holds the IEEE-754 binary64 bits of the share given
/// to `first` (see [`EVEN_SPLIT_RATIO`]).
#[derive(Debug, PartialEq, Eq)]
pub enum LayoutNode {
    Terminal {
        uuid: String,
        profile: Option<String>,
        cwd: Option<String>,
        custom_title: Option<String>,
    },
    Split {
        orientation: SplitOrientation,
        ratio: u64,
        first: Box<LayoutNode>,
        second: Box<LayoutNode>,
    },
}

/// Mathematical model of a [`LayoutNode`].
pub enum LayoutView {
    Terminal {
        uuid: Seq<char>,
        profile: Option<Seq<char>>,
        cwd: Option<Seq<char>>,
        custom_title: Option<Seq<char>>,
    },
    Split {
        orientation: SplitOrientation,
        ratio: u64,
        first: Box<LayoutView>,
        second: Box<LayoutView>,
    },
}

/// The model of a layout node.
pub open spec fn layout_view(n: LayoutNode) -> LayoutView
    decreases n,
{
    match n {
        LayoutNode::Terminal { uuid, profile, cwd, custom_title } => LayoutView::Terminal {
            uuid: uuid@,
            profile: opt_view(profile),
            cwd: opt_view(cwd),
            custom_title: opt_view(custom_title),
        },
        LayoutNode::Split { orientation, ratio, first, second } => LayoutView::Split {
            orientation,
            ratio,
            first: Box::new(layout_view(*first)),
            second: Box::new(layout_view(*second)),
        },
    }
}

impl View for LayoutNode {
    type V = LayoutView;

    open spec fn view(&self) -> LayoutView {
        layout_view(*self)
    }
}

/// The model of an optional layout node.
pub open spec fn opt_layout(o: Option<LayoutNode>) -> Option<LayoutView> {
    match o {
        Some(n) => Some(n@),
        None => None,
    }
}

impl LayoutView {
    /// A bare terminal with the given id.
    pub open spec fn terminal(uuid: Seq<char>) -> LayoutView {
        LayoutView::Terminal { uuid, profile: None, cwd: None, custom_title: None }
    }

    /// Terminal ids in left-to-right (first-then-second) order.
    pub open spec fn uuids(self) -> Seq<Seq<char>>
        decreases self,
    {
        match self {
            LayoutView::Terminal { uuid, .. } => seq![uuid],
            LayoutView::Split { first, second, .. } => first.uuids() + second.uuids(),
        }
    }

    /// Number of terminals.
    pub open spec fn count(self) -> nat
        decreases self,
    {
        match self {
            LayoutView::Terminal { .. } => 1,
            LayoutView::Split { first, second, .. } => first.count() + second.count(),
        }
    }

    /// Number of terminals with id `t`.
    pub open spec fn occurrences(self, t: Seq<char>) -> nat
        decreases self,
    {
        match self {
            LayoutView::Terminal { uuid, .. } => if uuid == t {
                1
            } else {
                0
            },
            LayoutView::Split { first, second, .. } => first.occurrences(t) + second.occurrences(t),
        }
    }

    /// Whether some terminal has id `t`.
    pub open spec fn has(self, t: Seq<char>) -> bool
        decreases self,
    {
        match self {
            LayoutView::Terminal { uuid, .. } => uuid == t,
            LayoutView::Split { first, second, .. } => first.has(t) || second.has(t),
        }
    }

    /// Number of nodes on the longest root-to-terminal path.
    pub open spec fn height(self) -> nat
        decreases self,
    {
        match self {
            LayoutView::Terminal { .. } => 1,
            LayoutView::Split { first, second, .. } => 1 + if first.height() >= second.height() {
                first.height()
            } else {
                second.height()
            },
        }
    }

    /// Nodes on the path from the root to the first terminal with id `t`.
    pub open spec fn depth_of(self, t: Seq<char>) -> Option<nat>
        decreases self,
    {
        match self {
            LayoutView::Terminal { uuid, .. } => if uuid == t {
                Some(1)
            } else {
                None
            },
            LayoutView::Split { first, second, .. } => match first.depth_of(t) {
                Some(d) => Some(d + 1),
                None => match second.depth_of(t) {
                    Some(d) => Some(d + 1),
                    None => None,
                },
            },
        }
    }

    /// This node split in two, with a new terminal `u` as the second half.
    pub open spec fn split_off(self, orientation: SplitOrientation, u: Seq<char>) -> LayoutView {
        LayoutView::Split {
            orientation,
            ratio: EVEN_SPLIT_RATIO,
            first: Box::new(self),
            second: Box::new(LayoutView::terminal(u)),
        }
    }

    /// The tree with the first terminal `t` split off a new terminal `u`.
    pub open spec fn split_at(self, t: Seq<char>, orientation: SplitOrientation, u: Seq<char>) -> Option<LayoutView>
        decreases self,
    {
        match self {
            LayoutView::Terminal { uuid, .. } => if uuid == t {
                Some(self.split_off(orientation, u))
            } else {
                None
            },
            LayoutView::Split { orientation: o, ratio, first, second } => match first.split_at(t, orientation, u) {
                Some(f) => Some(LayoutView::Split { orientation: o, ratio, first: Box::new(f), second }),
                None => match second.split_at(t, orientation, u) {
                    Some(s) => Some(LayoutView::Split { orientation: o, ratio, first, second: Box::new(s) }),
                    None => None,
                },
            },
        }
    }

    /// The tree without its terminals `t`; a split that loses one side is
    /// replaced by the other side, and nothing is left when every terminal
    /// is `t`.
    pub open spec fn remove(self, t: Seq<char>) -> Option<LayoutView>
        decreases self,
    {
        match self {
            LayoutView::Terminal { uuid, .. } => if uuid == t {
                None
            } else {
                Some(self)
            },
            LayoutView::Split { orientation, ratio, first, second } => match (first.remove(t), second.remove(t)) {
                (None, None) => None,
                (None, Some(s)) => Some(s),
                (Some(f), None) => Some(f),
                (Some(f), Some(s)) => Some(LayoutView::Split { orientation, ratio, first: Box::new(f), second: Box::new(s) }),
            },
        }
    }

    /// The last terminal (in order) with id `t`.
    pub open spec fn last_with(self, t: Seq<char>) -> Option<LayoutView>
        decreases self,
    {
        match self {
            LayoutView::Terminal { uuid, .. } => if uuid == t {
                Some(self)
            } else {
                None
            },
            LayoutView::Split { first, second, .. } => match second.last_with(t) {
                Some(n) => Some(n),
                None => first.last_with(t),
            },
        }
    }

    /// Every terminal `a` replaced by `va` and every terminal `b` by `vb`.
    pub open spec fn substitute(self, a: Seq<char>, b: Seq<char>, va: LayoutView, vb: LayoutView) -> LayoutView
        decreases self,
    {
        match self {
            LayoutView::Terminal { uuid, .. } => if uuid == a {
                va
            } else if uuid == b {
                vb
            } else {
                self
            },
            LayoutView::Split { orientation, ratio, first, second } => LayoutView::Split {
                orientation,
                ratio,
                first: Box::new(first.substitute(a, b, va, vb)),
                second: Box::new(second.substitute(a, b, va, vb)),
            },
        }
    }

    /// The tree with terminals `a` and `b` exchanged (all their data moves
    /// with them); unchanged unless both occur and differ.
    pub open spec fn swapped(self, a: Seq<char>, b: Seq<char>) -> LayoutView {
        if a == b || !self.has(a) || !self.has(b) {
            self
        } else {
            match (self.last_with(a), self.last_with(b)) {
                (Some(na), Some(nb)) => self.substitute(a, b, nb, na),
                _ => self,
            }
        }
    }

    /// The first terminal `t` renamed to `new`, and whether there was one.
    pub open spec fn renamed(self, t: Seq<char>, new: Seq<char>) -> (LayoutView, bool)
        decreases self,
    {
        match self {
            LayoutView::Terminal { uuid, profile, cwd, custom_title } => if uuid == t {
                (LayoutView::Terminal { uuid: new, profile, cwd, custom_title }, true)
            } else {
                (self, false)
            },
            LayoutView::Split { orientation, ratio, first, second } => {
                let (f, done) = first.renamed(t, new);
                if done {
                    (LayoutView::Split { orientation, ratio, first: Box::new(f), second }, true)
                } else {
                    let (s, done2) = second.renamed(t, new);
                    (LayoutView::Split { orientation, ratio, first: Box::new(f), second: Box::new(s) }, done2)
                }
            },
        }
    }

    /// The working directory of terminal `t`: that of the first terminal
    /// `t` that has one.
    pub open spec fn cwd_of(self, t: Seq<char>) -> Option<Seq<char>>
        decreases self,
    {
        match self {
            LayoutView::Terminal { uuid, cwd, .. } => if uuid == t {
                cwd
            } else {
                None
            },
            LayoutView::Split { first, second, .. } => match first.cwd_of(t) {
                Some(c) => Some(c),
                None => second.cwd_of(t),
            },
        }
    }

    /// The first terminal `t` given working directory `cwd`, and whether
    /// there was one.
    pub open spec fn with_cwd(self, t: Seq<char>, cwd: Option<Seq<char>>) -> (LayoutView, bool)
        decreases self,
    {
        match self {
            LayoutView::Terminal { uuid, profile, custom_title, .. } => if uuid == t {
                (LayoutView::Terminal { uuid, profile, cwd, custom_title }, true)
            } else {
                (self, false)
            },
            LayoutView::Split { orientation, ratio, first, second } => {
                let (f, done) = first.with_cwd(t, cwd);
                if done {
                    (LayoutView::Split { orientation, ratio, first: Box::new(f), second }, true)
                } else {
                    let (s, done2) = second.with_cwd(t, cwd);
                    (LayoutView::Split { orientation, ratio, first: Box::new(f), second: Box::new(s) }, done2)
                }
            },
        }
    }

    /// The custom title of terminal `t`: that of the first terminal `t`
    /// that has one.
    pub open spec fn title_of(self, t: Seq<char>) -> Option<Seq<char>>
        decreases self,
    {
        match self {
            LayoutView::Terminal { uuid, custom_title, .. } => if uuid == t {
                custom_title
            } else {
                None
            },
            LayoutView::Split { first, second, .. } => match first.title_of(t) {
                Some(c) => Some(c),
                None => second.title_of(t),
            },
        }
    }

    /// The first terminal `t` given custom title `title`, and whether there
    /// was one.
    pub open spec fn with_title(self, t: Seq<char>, title: Option<Seq<char>>) -> (LayoutView, bool)
        decreases self,
    {
        match self {
            LayoutView::Terminal { uuid, profile, cwd, .. } => if uuid == t {
                (LayoutView::Terminal { uuid, profile, cwd, custom_title: title }, true)
            } else {
                (self, false)
            },
            LayoutView::Split { orientation, ratio, first, second } => {
                let (f, done) = first.with_title(t, title);
                if done {
                    (LayoutView::Split { orientation, ratio, first: Box::new(f), second }, true)
                } else {
                    let (s, done2) = second.with_title(t, title);
                    (LayoutView::Split { orientation, ratio, first: Box::new(f), second: Box::new(s) }, done2)
                }
            },
        }
    }
}

pub(crate) fn clone_opt(o: &Option<String>) -> (r: Option<String>)
    ensures
        r == *o,
{
    match o {
        Some(s) => Some(s.clone()),
        None => None,
    }
}

pub(crate) fn clone_node(n: &LayoutNode) -> (r: LayoutNode)
    ensures
        r == *n,
    decreases n,
{
    match n {
        LayoutNode::Terminal { uuid, profile, cwd, custom_title } => LayoutNode::Terminal {
            uuid: uuid.clone(),
            profile: clone_opt(profile),
            cwd: clone_opt(cwd),
            custom_title: clone_opt(custom_title),
        },
        LayoutNode::Split { orientation, ratio, first, second } => LayoutNode::Split {
            orientation: *orientation,
            ratio: *ratio,
            first: Box::new(clone_node(first)),
            second: Box::new(clone_node(second)),
        },
    }
}

impl Clone for LayoutNode {
    fn clone(&self) -> (r: Self)
        ensures
            r == *self,
    {
        clone_node(self)
    }
}

/// A terminal node with no profile, directory or title.
fn bare_terminal(uuid: String) -> (r: LayoutNode)
    ensures
        r@ == LayoutView::terminal(uuid@),
{
    LayoutNode::Terminal { uuid, profile: None, cwd: None, custom_title: None }
}

/// The order-preserving concatenation of two id lists, as models.
proof fn lemma_strs_concat(a: Seq<String>, b: Seq<String>)
    ensures
        strs_view(a + b) == strs_view(a) + strs_view(b),
{
    assert(strs_view(a + b) =~= strs_view(a) + strs_view(b));
}

impl LayoutNode {
    /// A fresh terminal with a new random (v4) id.
    pub fn new_terminal() -> (r: Self)
        ensures
            r@ is Terminal,
            r@ == LayoutView::terminal(r@->uuid),
            is_hyphenated_uuid(r@->uuid),
    {
        bare_terminal(new_uuid())
    }

    /// A fresh terminal with the given id.
    pub fn new_terminal_with_uuid(uuid: &str) -> (r: Self)
        ensures
            r@ == LayoutView::terminal(uuid@),
    {
        bare_terminal(owned(uuid))
    }

    /// This node split in two, the second half a new terminal `new_uuid`.
    pub fn split_with_uuid(&self, orientation: SplitOrientation, new_uuid: &str) -> (r: Self)
        ensures
            r@ == self@.split_off(orientation, new_uuid@),
    {
        LayoutNode::Split {
            orientation,
            ratio: EVEN_SPLIT_RATIO,
            first: Box::new(self.clone()),
            second: Box::new(Self::new_terminal_with_uuid(new_uuid)),
        }
    }

    /// This node split in two, the second half a fresh terminal.
    pub fn split(&self, orientation: SplitOrientation) -> (r: Self)
        ensures
            exists|u: Seq<char>| is_hyphenated_uuid(u) && r@ == self@.split_off(orientation, u),
    {
        let u = new_uuid();
        self.split_with_uuid(orientation, u.as_str())
    }

    /// Terminal ids in left-to-right order.
    pub fn terminal_uuids(&self) -> (v: Vec<String>)
        ensures
            strs_view(v@) == self@.uuids(),
        decreases self,
    {
        match self {
            LayoutNode::Terminal { uuid, .. } => {
                let v = vec![uuid.clone()];
                assert(strs_view(v@) =~= seq![uuid@]);
                v
            },
            LayoutNode::Split { first, second, .. } => {
                let mut a = first.terminal_uuids();
                let mut b = second.terminal_uuids();
                let ghost a0 = a@;
                let ghost b0 = b@;
                a.append(&mut b);
                proof {
                    lemma_strs_concat(a0, b0);
                }
                a
            },
        }
    }

    /// Number of terminals in the tree.
    pub fn terminal_count(&self) -> (n: usize)
        ensures
            n == self@.count(),
    {
        let v = self.terminal_uuids();
        proof {
            lemma_count_is_uuid_len(self@);
        }
        v.len()
    }

    /// Whether some terminal has id `uuid`.
    pub fn contains_terminal(&self, uuid: &str) -> (b: bool)
        ensures
            b == self@.has(uuid@),
        decreases self,
    {
        match self {
            LayoutNode::Terminal { uuid: u, .. } => str_eq(u.as_str(), uuid),
            LayoutNode::Split { first, second, .. } => first.contains_terminal(uuid) || second.contains_terminal(uuid),
        }
    }

    fn renamed_owned(self, old_uuid: &str, new_uuid: &str) -> (r: (LayoutNode, bool))
        ensures
            (r.0@, r.1) == self@.renamed(old_uuid@, new_uuid@),
        decreases self,
    {
        match self {
            LayoutNode::Terminal { uuid, profile, cwd, custom_title } => {
                if str_eq(uuid.as_str(), old_uuid) {
                    (LayoutNode::Terminal { uuid: owned(new_uuid), profile, cwd, custom_title }, true)
                } else {
                    (LayoutNode::Terminal { uuid, profile, cwd, custom_title }, false)
                }
            },
            LayoutNode::Split { orientation, ratio, first, second } => {
                let (f, done) = (*first).renamed_owned(old_uuid, new_uuid);
                if done {
                    (LayoutNode::Split { orientation, ratio, first: Box::new(f), second }, true)
                } else {
                    let (s, done2) = (*second).renamed_owned(old_uuid, new_uuid);
                    (LayoutNode::Split { orientation, ratio, first: Box::new(f), second: Box::new(s) }, done2)
                }
            },
        }
    }

    /// Give the first terminal `old_uuid` the id `new_uuid`; whether there
    /// was one.
    pub fn replace_terminal_uuid(&mut self, old_uuid: &str, new_uuid: &str) -> (b: bool)
        ensures
            (final(self)@, b) == old(self)@.renamed(old_uuid@, new_uuid@),
    {
        let mut cur = bare_terminal(String::new());
        std::mem::swap(&mut cur, self);
        let (n, done) = cur.renamed_owned(old_uuid, new_uuid);
        *self = n;
        done
    }

    /// The tree with the first terminal `target_uuid` split off a new
    /// terminal `new_uuid`; `None` when no terminal is `target_uuid`.
    pub fn split_terminal_with_uuid(&self, target_uuid: &str, orientation: SplitOrientation, new_uuid: &str) -> (r: Option<Self>)
        ensures
            opt_layout(r) == self@.split_at(target_uuid@, orientation, new_uuid@),
        decreases self,
    {
        match self {
            LayoutNode::Terminal { uuid, .. } => {
                if str_eq(uuid.as_str(), target_uuid) {
                    Some(self.split_with_uuid(orientation, new_uuid))
                } else {
                    None
                }
            },
            LayoutNode::Split { orientation: o, ratio, first, second } => {
                match first.split_terminal_with_uuid(target_uuid, orientation, new_uuid) {
                    Some(f) => Some(LayoutNode::Split { orientation: *o, ratio: *ratio, first: Box::new(f), second: Box::new(clone_node(second)) }),
                    None => match second.split_terminal_with_uuid(target_uuid, orientation, new_uuid) {
                        Some(s) => Some(LayoutNode::Split { orientation: *o, ratio: *ratio, first: Box::new(clone_node(first)), second: Box::new(s) }),
                        None => None,
                    },
                }
            },
        }
    }

    /// The tree with the first terminal `target_uuid` split off a fresh
    /// terminal; `None` when no terminal is `target_uuid`.
    pub fn split_terminal(&self, target_uuid: &str, orientation: SplitOrientation) -> (r: Option<Self>)
        ensures
            r is Some <==> self@.has(target_uuid@),
            r is Some ==> exists|u: Seq<char>|
                is_hyphenated_uuid(u) && opt_layout(r) == self@.split_at(target_uuid@, orientation, u),
    {
        if !self.contains_terminal(target_uuid) {
            proof {
                lemma_split_at_iff_has(self@, target_uuid@, orientation, seq![]);
            }
            return None;
        }
        let u = new_uuid();
        let r = self.split_terminal_with_uuid(target_uuid, orientation, u.as_str());
        proof {
            lemma_split_at_iff_has(self@, target_uuid@, orientation, u@);
        }
        r
    }

    /// Nodes on the path from the root to the first terminal `target_uuid`.
    pub fn depth_of_terminal(&self, target_uuid: &str) -> (r: Option<usize>)
        requires
            self@.height() <= usize::MAX,
        ensures
            match r {
                Some(d) => self@.depth_of(target_uuid@) == Some(d as nat),
                None => self@.depth_of(target_uuid@) is None,
            },
        decreases self,
    {
        proof {
            lemma_depth_within_height(self@, target_uuid@);
        }
        match self {
            LayoutNode::Terminal { uuid, .. } => {
                if str_eq(uuid.as_str(), target_uuid) {
                    Some(1)
                } else {
                    None
                }
            },
            LayoutNode::Split { first, second, .. } => {
                match first.depth_of_terminal(target_uuid) {
                    Some(d) => Some(d + 1),
                    None => match second.depth_of_terminal(target_uuid) {
                        Some(d) => Some(d + 1),
                        None => None,
                    },
                }
            },
        }
    }

    /// Split the first terminal `target_uuid` off a new terminal `new_uuid`,
    /// unless it is missing or already [`MAX_SPLIT_DEPTH`] deep.
    pub fn split_terminal_within_depth(&self, target_uuid: &str, orientation: SplitOrientation, new_uuid: &str) -> (r: Option<(Self, String)>)
        requires
            self@.height() <= usize::MAX,
        ensures
            match self@.depth_of(target_uuid@) {
                Some(d) => if d >= MAX_SPLIT_DEPTH {
                    r is None
                } else {
                    r matches Some((n, u)) && u@ == new_uuid@
                        && Some(n@) == self@.split_at(target_uuid@, orientation, new_uuid@)
                },
                None => r is None,
            },
    {
        match self.depth_of_terminal(target_uuid) {
            None => None,
            Some(d) => {
                if d >= MAX_SPLIT_DEPTH {
                    return None;
                }
                proof {
                    lemma_depth_iff_has(self@, target_uuid@);
                    lemma_split_at_iff_has(self@, target_uuid@, orientation, new_uuid@);
                }
                match self.split_terminal_with_uuid(target_uuid, orientation, new_uuid) {
                    Some(n) => Some((n, owned(new_uuid))),
                    None => None,
                }
            },
        }
    }

    /// Split the first terminal `target_uuid` off a fresh terminal and
    /// report the new terminal's id, unless the target is missing or
    /// already [`MAX_SPLIT_DEPTH`] deep.
    pub fn split_terminal_with_new_uuid(&self, target_uuid: &str, orientation: SplitOrientation) -> (r: Option<(Self, String)>)
        requires
            self@.height() <= usize::MAX,
        ensures
            match self@.depth_of(target_uuid@) {
                Some(d) => if d >= MAX_SPLIT_DEPTH {
                    r is None
                } else {
                    r matches Some((n, u)) && is_hyphenated_uuid(u@)
                        && Some(n@) == self@.split_at(target_uuid@, orientation, u@)
                },
                None => r is None,
            },
    {
        match self.depth_of_terminal(target_uuid) {
            None => None,
            Some(d) => {
                if d >= MAX_SPLIT_DEPTH {
                    return None;
                }
                let u = new_uuid();
                self.split_terminal_within_depth(target_uuid, orientation, u.as_str())
            },
        }
    }

    /// The tree without its terminals `target_uuid`; `None` when nothing is
    /// left.
    pub fn remove_terminal(&self, target_uuid: &str) -> (r: Option<Self>)
        ensures
            opt_layout(r) == self@.remove(target_uuid@),
        decreases self,
    {
        match self {
            LayoutNode::Terminal { uuid, .. } => {
                if str_eq(uuid.as_str(), target_uuid) {
                    None
                } else {
                    Some(clone_node(self))
                }
            },
            LayoutNode::Split { orientation, ratio, first, second } => {
                let new_first = first.remove_terminal(target_uuid);
                let new_second = second.remove_terminal(target_uuid);
                match (new_first, new_second) {
                    (None, None) => None,
                    (None, Some(s)) => Some(s),
                    (Some(f), None) => Some(f),
                    (Some(f), Some(s)) => Some(LayoutNode::Split { orientation: *orientation, ratio: *ratio, first: Box::new(f), second: Box::new(s) }),
                }
            },
        }
    }

    fn last_terminal_with(&self, t: &str) -> (r: Option<LayoutNode>)
        ensures
            opt_layout(r) == self@.last_with(t@),
        decreases self,
    {
        match self {
            LayoutNode::Terminal { uuid, .. } => {
                if str_eq(uuid.as_str(), t) {
                    Some(clone_node(self))
                } else {
                    None
                }
            },
            LayoutNode::Split { first, second, .. } => match second.last_terminal_with(t) {
                Some(n) => Some(n),
                None => first.last_terminal_with(t),
            },
        }
    }

    fn substituted(&self, a: &str, b: &str, va: &LayoutNode, vb: &LayoutNode) -> (r: LayoutNode)
        ensures
            r@ == self@.substitute(a@, b@, va@, vb@),
        decreases self,
    {
        match self {
            LayoutNode::Terminal { uuid, .. } => {
                if str_eq(uuid.as_str(), a) {
                    clone_node(va)
                } else if str_eq(uuid.as_str(), b) {
                    clone_node(vb)
                } else {
                    clone_node(self)
                }
            },
            LayoutNode::Split { orientation, ratio, first, second } => LayoutNode::Split {
                orientation: *orientation,
                ratio: *ratio,
                first: Box::new(first.substituted(a, b, va, vb)),
                second: Box::new(second.substituted(a, b, va, vb)),
            },
        }
    }

    /// Exchange terminals `a` and `b`, with all their data; nothing changes
    /// unless both occur and differ.
    pub fn swap_terminals(&mut self, a: &str, b: &str)
        ensures
            final(self)@ == old(self)@.swapped(a@, b@),
    {
        if str_eq(a, b) {
            return;
        }
        if !self.contains_terminal(a) || !self.contains_terminal(b) {
            return;
        }
        let rep_a = self.last_terminal_with(a);
        let rep_b = self.last_terminal_with(b);
        match (rep_a, rep_b) {
            (Some(node_a), Some(node_b)) => {
                let n = self.substituted(a, b, &node_b, &node_a);
                *self = n;
            },
            _ => {},
        }
    }

    /// Working directory of the first terminal `target_uuid` that has one.
    pub fn terminal_cwd(&self, target_uuid: &str) -> (r: Option<String>)
        ensures
            opt_view(r) == self@.cwd_of(target_uuid@),
        decreases self,
    {
        match self {
            LayoutNode::Terminal { uuid, cwd, .. } => {
                if str_eq(uuid.as_str(), target_uuid) {
                    clone_opt(cwd)
                } else {
                    None
                }
            },
            LayoutNode::Split { first, second, .. } => match first.terminal_cwd(target_uuid) {
                Some(c) => Some(c),
                None => second.terminal_cwd(target_uuid),
            },
        }
    }

    fn with_cwd_owned(self, target_uuid: &str, cwd: Option<String>) -> (r: (LayoutNode, bool))
        ensures
            (r.0@, r.1) == self@.with_cwd(target_uuid@, opt_view(cwd)),
        decreases self,
    {
        match self {
            LayoutNode::Terminal { uuid, profile, cwd: old_cwd, custom_title } => {
                if str_eq(uuid.as_str(), target_uuid) {
                    (LayoutNode::Terminal { uuid, profile, cwd, custom_title }, true)
                } else {
                    (LayoutNode::Terminal { uuid, profile, cwd: old_cwd, custom_title }, false)
                }
            },
            LayoutNode::Split { orientation, ratio, first, second } => {
                let (f, done) = (*first).with_cwd_owned(target_uuid, clone_opt(&cwd));
                if done {
                    (LayoutNode::Split { orientation, ratio, first: Box::new(f), second }, true)
                } else {
                    let (s, done2) = (*second).with_cwd_owned(target_uuid, cwd);
                    (LayoutNode::Split { orientation, ratio, first: Box::new(f), second: Box::new(s) }, done2)
                }
            },
        }
    }

    /// Set the working directory of the first terminal `target_uuid`;
    /// whether there was one.
    pub fn set_terminal_cwd(&mut self, target_uuid: &str, cwd: Option<String>) -> (b: bool)
        ensures
            (final(self)@, b) == old(self)@.with_cwd(target_uuid@, opt_view(cwd)),
    {
        let mut cur = bare_terminal(String::new());
        std::mem::swap(&mut cur, self);
        let (n, done) = cur.with_cwd_owned(target_uuid, cwd);
        *self = n;
        done
    }

    /// Custom title of the first terminal `target_uuid` that has one.
    pub fn terminal_custom_title(&self, target_uuid: &str) -> (r: Option<String>)
        ensures
            opt_view(r) == self@.title_of(target_uuid@),
        decreases self,
    {
        match self {
            LayoutNode::Terminal { uuid, custom_title, .. } => {
                if str_eq(uuid.as_str(), target_uuid) {
                    clone_opt(custom_title)
                } else {
                    None
                }
            },
            LayoutNode::Split { first, second, .. } => match first.terminal_custom_title(target_uuid) {
                Some(c) => Some(c),
                None => second.terminal_custom_title(target_uuid),
            },
        }
    }

    fn with_title_owned(self, target_uuid: &str, title: Option<String>) -> (r: (LayoutNode, bool))
        ensures
            (r.0@, r.1) == self@.with_title(target_uuid@, opt_view(title)),
        decreases self,
    {
        match self {
            LayoutNode::Terminal { uuid, profile, cwd, custom_title } => {
                if str_eq(uuid.as_str(), target_uuid) {
                    (LayoutNode::Terminal { uuid, profile, cwd, custom_title: title }, true)
                } else {
                    (LayoutNode::Terminal { uuid, profile, cwd, custom_title }, false)
                }
            },
            LayoutNode::Split { orientation, ratio, first, second } => {
                let (f, done) = (*first).with_title_owned(target_uuid, clone_opt(&title));
                if done {
                    (LayoutNode::Split { orientation, ratio, first: Box::new(f), second }, true)
                } else {
                    let (s, done2) = (*second).with_title_owned(target_uuid, title);
                    (LayoutNode::Split { orientation, ratio, first: Box::new(f), second: Box::new(s) }, done2)
                }
            },
        }
    }

    /// Set the custom title of the first terminal `target_uuid`; whether
    /// there was one.
    pub fn set_terminal_custom_title(&mut self, target_uuid: &str, custom_title: Option<String>) -> (b: bool)
        ensures
            (final(self)@, b) == old(self)@.with_title(target_uuid@, opt_view(custom_title)),
    {
        let mut cur = bare_terminal(String::new());
        std::mem::swap(&mut cur, self);
        let (n, done) = cur.with_title_owned(target_uuid, custom_title);
        *self = n;
        done
    }
}

/// The number of terminals is the length of the id list.
pub proof fn lemma_count_is_uuid_len(n: LayoutView)
    ensures
        n.count() == n.uuids().len(),
    decreases n,
{
    match n {
        LayoutView::Terminal { .. } => {},
        LayoutView::Split { first, second, .. } => {
            lemma_count_is_uuid_len(*first);
            lemma_count_is_uuid_len(*second);
        },
    }
}

/// A terminal can be split exactly when it occurs.
pub proof fn lemma_split_at_iff_has(n: LayoutView, t: Seq<char>, o: SplitOrientation, u: Seq<char>)
    ensures
        n.split_at(t, o, u) is Some <==> n.has(t),
    decreases n,
{
    match n {
        LayoutView::Terminal { .. } => {},
        LayoutView::Split { first, second, .. } => {
            lemma_split_at_iff_has(*first, t, o, u);
            lemma_split_at_iff_has(*second, t, o, u);
        },
    }
}

/// A terminal has a depth exactly when it occurs.
pub proof fn lemma_depth_iff_has(n: LayoutView, t: Seq<char>)
    ensures
        n.depth_of(t) is Some <==> n.has(t),
    decreases n,
{
    match n {
        LayoutView::Terminal { .. } => {},
        LayoutView::Split { first, second, .. } => {
            lemma_depth_iff_has(*first, t);
            lemma_depth_iff_has(*second, t);
        },
    }
}

/// A terminal's depth is at least one and at most the tree's height.
pub proof fn lemma_depth_within_height(n: LayoutView, t: Seq<char>)
    ensures
        n.height() >= 1,
        n.depth_of(t) matches Some(d) ==> 1 <= d <= n.height(),
    decreases n,
{
    match n {
        LayoutView::Terminal { .. } => {},
        LayoutView::Split { first, second, .. } => {
            lemma_depth_within_height(*first, t);
            lemma_depth_within_height(*second, t);
        },
    }
}

/// Splitting a terminal that occurs adds exactly one terminal.
pub proof fn law_split_adds_one_terminal(n: LayoutView, t: Seq<char>, o: SplitOrientation, u: Seq<char>)
    requires
        n.has(t),
    ensures
        n.split_at(t, o, u) matches Some(m) && m.count() == n.count() + 1,
    decreases n,
{
    match n {
        LayoutView::Terminal { .. } => {
            let leaf = LayoutView::terminal(u);
            assert(leaf.count() == 1);
            assert(n.split_off(o, u).count() == n.count() + leaf.count());
        },
        LayoutView::Split { first, second, .. } => {
            lemma_split_at_iff_has(*first, t, o, u);
            if first.has(t) {
                law_split_adds_one_terminal(*first, t, o, u);
            } else {
                law_split_adds_one_terminal(*second, t, o, u);
            }
        },
    }
}

/// Splitting below a split keeps the root's orientation and ratio.
pub proof fn law_split_keeps_root_ratio(n: LayoutView, t: Seq<char>, o: SplitOrientation, u: Seq<char>)
    requires
        n is Split,
        n.has(t),
    ensures
        n.split_at(t, o, u) matches Some(m) && m is Split && m->orientation == n->orientation
            && m->ratio == n->ratio,
{
    lemma_split_at_iff_has(n, t, o, u);
}

/// A tree always holds at least one terminal.
pub proof fn lemma_count_positive(n: LayoutView)
    ensures
        n.count() >= 1,
    decreases n,
{
    match n {
        LayoutView::Terminal { .. } => {},
        LayoutView::Split { first, second, .. } => {
            lemma_count_positive(*first);
            lemma_count_positive(*second);
        },
    }
}

/// Removing `t` drops exactly its occurrences; nothing is left exactly
/// when every terminal is `t`.
pub proof fn lemma_remove_count(n: LayoutView, t: Seq<char>)
    ensures
        n.occurrences(t) <= n.count(),
        n.remove(t) is None <==> n.occurrences(t) == n.count(),
        n.remove(t) matches Some(m) ==> m.count() == n.count() - n.occurrences(t),
    decreases n,
{
    match n {
        LayoutView::Terminal { .. } => {},
        LayoutView::Split { first, second, .. } => {
            lemma_remove_count(*first, t);
            lemma_remove_count(*second, t);
            lemma_count_positive(*first);
            lemma_count_positive(*second);
            match (first.remove(t), second.remove(t)) {
                (Some(f), _) => lemma_count_positive(f),
                (_, Some(s)) => lemma_count_positive(s),
                _ => {},
            }
        },
    }
}

/// Removing a terminal that occurs once, from a tree with others, leaves
/// one terminal fewer.
pub proof fn law_remove_single_terminal(n: LayoutView, t: Seq<char>)
    requires
        n.occurrences(t) == 1,
        n.count() > 1,
    ensures
        n.remove(t) matches Some(m) && m.count() == n.count() - 1,
{
    lemma_remove_count(n, t);
}

/// Removing an id that does not occur changes nothing.
pub proof fn lemma_remove_absent(n: LayoutView, u: Seq<char>)
    requires
        !n.has(u),
    ensures
        n.remove(u) == Some(n),
    decreases n,
{
    match n {
        LayoutView::Terminal { .. } => {},
        LayoutView::Split { first, second, .. } => {
            lemma_remove_absent(*first, u);
            lemma_remove_absent(*second, u);
        },
    }
}

/// Splitting off a new terminal `u` and then removing `u` gives back the
/// original tree.
pub proof fn law_split_then_remove_restores(n: LayoutView, t: Seq<char>, o: SplitOrientation, u: Seq<char>)
    requires
        n.has(t),
        !n.has(u),
    ensures
        n.split_at(t, o, u) matches Some(m) && m.remove(u) == Some(n),
    decreases n,
{
    match n {
        LayoutView::Terminal { .. } => {
            lemma_remove_absent(n, u);
            let leaf = LayoutView::terminal(u);
            assert(leaf.remove(u) is None);
            assert(n.split_off(o, u).remove(u) == Some(n));
        },
        LayoutView::Split { first, second, .. } => {
            lemma_split_at_iff_has(*first, t, o, u);
            if first.has(t) {
                law_split_then_remove_restores(*first, t, o, u);
                lemma_remove_absent(*second, u);
            } else {
                law_split_then_remove_restores(*second, t, o, u);
                lemma_remove_absent(*first, u);
            }
        },
    }
}

/// The number of terminals `x` is the multiplicity of `x` among the ids.
pub proof fn lemma_occurrences_multiset(n: LayoutView, x: Seq<char>)
    ensures
        n.occurrences(x) == n.uuids().to_multiset().count(x),
    decreases n,
{
    broadcast use vstd::seq_lib::group_to_multiset_ensures;

    match n {
        LayoutView::Terminal { uuid, .. } => {
            assert(seq![uuid] =~= Seq::<Seq<char>>::empty().push(uuid));
            assert(Seq::<Seq<char>>::empty().to_multiset() =~= vstd::multiset::Multiset::empty());
        },
        LayoutView::Split { first, second, .. } => {
            lemma_occurrences_multiset(*first, x);
            lemma_occurrences_multiset(*second, x);
            vstd::seq_lib::lemma_multiset_commutative(first.uuids(), second.uuids());
        },
    }
}

/// The last terminal with id `t` is a terminal with that id.
pub proof fn lemma_last_with_is_terminal(n: LayoutView, t: Seq<char>)
    ensures
        n.last_with(t) matches Some(m) ==> m is Terminal && m->uuid == t,
        n.last_with(t) is Some <==> n.has(t),
    decreases n,
{
    match n {
        LayoutView::Terminal { .. } => {},
        LayoutView::Split { first, second, .. } => {
            lemma_last_with_is_terminal(*first, t);
            lemma_last_with_is_terminal(*second, t);
        },
    }
}

/// Substituting a terminal `b` for every `a` and a terminal `a` for every
/// `b` exchanges their counts and keeps every other count.
pub proof fn lemma_substitute_occurrences(n: LayoutView, a: Seq<char>, b: Seq<char>, va: LayoutView, vb: LayoutView, x: Seq<char>)
    requires
        a != b,
        va is Terminal && va->uuid == b,
        vb is Terminal && vb->uuid == a,
    ensures
        n.substitute(a, b, va, vb).occurrences(x) == if x == a {
            n.occurrences(b)
        } else if x == b {
            n.occurrences(a)
        } else {
            n.occurrences(x)
        },
    decreases n,
{
    match n {
        LayoutView::Terminal { .. } => {},
        LayoutView::Split { first, second, .. } => {
            lemma_substitute_occurrences(*first, a, b, va, vb, x);
            lemma_substitute_occurrences(*second, a, b, va, vb, x);
        },
    }
}

/// Swapping two terminals that occur equally often keeps the multiset of
/// ids.
pub proof fn law_swap_keeps_uuid_multiset(n: LayoutView, a: Seq<char>, b: Seq<char>)
    requires
        n.occurrences(a) == n.occurrences(b),
    ensures
        n.swapped(a, b).uuids().to_multiset() == n.uuids().to_multiset(),
{
    let m = n.swapped(a, b);
    if !(a == b || !n.has(a) || !n.has(b)) {
        lemma_last_with_is_terminal(n, a);
        lemma_last_with_is_terminal(n, b);
        assert forall|x: Seq<char>| m.uuids().to_multiset().count(x) == n.uuids().to_multiset().count(x) by {
            lemma_substitute_occurrences(n, a, b, n.last_with(b).unwrap(), n.last_with(a).unwrap(), x);
            lemma_occurrences_multiset(m, x);
            lemma_occurrences_multiset(n, x);
        }
    }
    assert(m.uuids().to_multiset() =~= n.uuids().to_multiset());
}

/// A terminal occurs exactly when its id is among the ids.
pub proof fn lemma_has_uuids(n: LayoutView, t: Seq<char>)
    ensures
        n.has(t) <==> n.uuids().contains(t),
    decreases n,
{
    match n {
        LayoutView::Terminal { uuid, .. } => {
            assert(n.uuids()[0] == uuid);
        },
        LayoutView::Split { first, second, .. } => {
            lemma_has_uuids(*first, t);
            lemma_has_uuids(*second, t);
            let a = first.uuids();
            let b = second.uuids();
            if (a + b).contains(t) {
                let k = choose|k: int| 0 <= k < (a + b).len() && (a + b)[k] == t;
                if k < a.len() {
                    assert(a[k] == t);
                } else {
                    assert(b[k - a.len()] == t);
                }
            }
            if a.contains(t) {
                let k = choose|k: int| 0 <= k < a.len() && a[k] == t;
                assert((a + b)[k] == t);
            }
            if b.contains(t) {
                let k = choose|k: int| 0 <= k < b.len() && b[k] == t;
                assert((a + b)[a.len() + k] == t);
            }
        },
    }
}

} // verus!
