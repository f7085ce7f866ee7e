use vstd::prelude::*;

verus! {

/// What kind of construct introduced a scope frame.
#[derive(Clone, Copy, PartialEq, Eq, Structural, Debug)]
pub enum ScopeKind {
    /// A function body.
    Function,
    /// A bare block or a control-flow body.
    Block,
}

/// One lexical nesting level: created on entering a block-introducing node,
/// destroyed on leaving it. Holds the bindings declared at this level.
#[derive(Debug)]
pub struct ScopeFrame {
    pub kind: ScopeKind,
    pub bindings: Vec<String>,
}

/// The model of a frame: bindings as character sequences.
#[verifier::ext_equal]
pub struct FrameV {
    pub kind: ScopeKind,
    pub bindings: Seq<Seq<char>>,
}

impl View for ScopeFrame {
    type V = FrameV;

    open spec fn view(&self) -> FrameV {
        FrameV { kind: self.kind, bindings: self.bindings.deep_view() }
    }
}

impl DeepView for ScopeFrame {
    type V = FrameV;

    open spec fn deep_view(&self) -> FrameV {
        self.view()
    }
}

/// `f` holds a binding named `n`.
pub open spec fn frame_binds(f: FrameV, n: Seq<char>) -> bool {
    exists|k: int| 0 <= k < f.bindings.len() && f.bindings[k] == n
}

/// Some frame of the stack is a function body.
pub open spec fn frames_have_function(fs: Seq<FrameV>) -> bool {
    exists|i: int| 0 <= i < fs.len() && (#[trigger] fs[i]).kind == ScopeKind::Function
}

/// Pushing a frame adds exactly its own kind to what the stack has.
pub proof fn lemma_have_function_push(fs: Seq<FrameV>, f: FrameV)
    ensures
        frames_have_function(fs.push(f)) == (frames_have_function(fs) || f.kind
            == ScopeKind::Function),
{
    if frames_have_function(fs) {
        let i = choose|i: int| 0 <= i < fs.len() && fs[i].kind == ScopeKind::Function;
        assert(fs.push(f)[i].kind == ScopeKind::Function);
    }
    if f.kind == ScopeKind::Function {
        assert(fs.push(f)[fs.len() as int].kind == ScopeKind::Function);
    }
    if frames_have_function(fs.push(f)) {
        let i = choose|i: int| 0 <= i < fs.push(f).len() && fs.push(f)[i].kind
            == ScopeKind::Function;
        if i < fs.len() {
            assert(fs[i].kind == ScopeKind::Function);
        }
    }
}

/// The ordered stack of scopes of one traversal. Parent scopes are reached
/// by walking the stack downward; no frame owns another.
pub struct ScopeStack {
    frames: Vec<ScopeFrame>,
    enters: Ghost<nat>,
    exits: Ghost<nat>,
}

impl ScopeStack {
    /// The stack of frames, innermost last.
    pub closed spec fn frames(self) -> Seq<FrameV> {
        self.frames.deep_view()
    }

    /// How many scopes have been entered since construction.
    pub closed spec fn enters(self) -> nat {
        self.enters@
    }

    /// How many scopes have been left since construction.
    pub closed spec fn exits(self) -> nat {
        self.exits@
    }

    pub open spec fn depth_spec(self) -> nat {
        self.frames().len()
    }

    /// Some enclosing scope is a function body.
    pub open spec fn in_function_spec(self) -> bool {
        frames_have_function(self.frames())
    }

    pub fn new() -> (s: ScopeStack)
        ensures
            s.frames() == Seq::<FrameV>::empty(),
            s.enters() == 0,
            s.exits() == 0,
    {
        let s = ScopeStack { frames: Vec::new(), enters: Ghost(0), exits: Ghost(0) };
        proof {
            assert(s.frames() =~~= Seq::<FrameV>::empty());
        }
        s
    }

    /// Push a fresh, empty frame: called on entering any block-introducing
    /// node.
    pub fn enter_scope(&mut self, kind: ScopeKind)
        ensures
            final(self).frames() == old(self).frames().push(
                FrameV { kind, bindings: Seq::empty() },
            ),
            final(self).enters() == old(self).enters() + 1,
            final(self).exits() == old(self).exits(),
    {
        self.frames.push(ScopeFrame { kind, bindings: Vec::new() });
        proof {
            self.enters@ = self.enters@ + 1;
            assert(self.frames() =~~= old(self).frames().push(
                FrameV { kind, bindings: Seq::<Seq<char>>::empty() },
            ));
        }
    }

    /// Pop the innermost frame: called on every path that leaves the node,
    /// whatever the subtree walk did.
    pub fn exit_scope(&mut self)
        requires
            old(self).frames().len() > 0,
        ensures
            final(self).frames() == old(self).frames().drop_last(),
            final(self).exits() == old(self).exits() + 1,
            final(self).enters() == old(self).enters(),
    {
        let _ = self.frames.pop();
        proof {
            self.exits@ = self.exits@ + 1;
            assert(self.frames() =~~= old(self).frames().drop_last());
        }
    }

    /// Record a binding in the innermost frame.
    pub fn declare(&mut self, name: String)
        requires
            old(self).frames().len() > 0,
        ensures
            final(self).frames() == old(self).frames().update(
                old(self).frames().len() - 1,
                FrameV {
                    kind: old(self).frames().last().kind,
                    bindings: old(self).frames().last().bindings.push(name@),
                },
            ),
            final(self).enters() == old(self).enters(),
            final(self).exits() == old(self).exits(),
    {
        let i = self.frames.len() - 1;
        let frame = &mut self.frames[i];
        frame.bindings.push(name);
        proof {
            assert(self.frames() =~~= old(self).frames().update(
                old(self).frames().len() - 1,
                FrameV {
                    kind: old(self).frames().last().kind,
                    bindings: old(self).frames().last().bindings.push(name@),
                },
            ));
        }
    }

    /// The current nesting depth.
    pub fn depth(&self) -> (d: usize)
        ensures
            d == self.depth_spec(),
    {
        self.frames.len()
    }

    /// Whether the walk currently stands inside some function body.
    pub fn in_function(&self) -> (b: bool)
        ensures
            b == self.in_function_spec(),
    {
        let mut i: usize = 0;
        while i < self.frames.len()
            invariant
                i <= self.frames.len(),
                forall|j: int| 0 <= j < i ==> (#[trigger] self.frames()[j]).kind != ScopeKind::Function,
            decreases self.frames.len() - i,
        {
            if self.frames[i].kind == ScopeKind::Function {
                proof {
                    assert(self.frames()[i as int].kind == ScopeKind::Function);
                }
                return true;
            }
            i = i + 1;
        }
        false
    }

    /// Walk the stack from innermost to outermost; the result is the index
    /// of the nearest frame holding a binding of that name, or absence.
    pub fn lookup(&self, name: &String) -> (r: Option<usize>)
        ensures
            match r {
                Some(i) => {
                    &&& i < self.frames().len()
                    &&& frame_binds(self.frames()[i as int], name@)
                    &&& forall|j: int|
                        i < j < self.frames().len() ==> !frame_binds(
                            #[trigger] self.frames()[j],
                            name@,
                        )
                },
                None => forall|j: int|
                    0 <= j < self.frames().len() ==> !frame_binds(#[trigger] self.frames()[j], name@),
            },
    {
        let mut i: usize = self.frames.len();
        while i > 0
            invariant
                i <= self.frames.len(),
                forall|j: int|
                    i <= j < self.frames().len() ==> !frame_binds(#[trigger] self.frames()[j], name@),
            decreases i,
        {
            i = i - 1;
            if Self::frame_contains(&self.frames[i], name) {
                return Some(i);
            }
        }
        None
    }

    /// Whether one frame holds a binding of that name.
    fn frame_contains(f: &ScopeFrame, name: &String) -> (b: bool)
        ensures
            b == frame_binds(f@, name@),
    {
        let mut k: usize = 0;
        while k < f.bindings.len()
            invariant
                k <= f.bindings.len(),
                forall|j: int| 0 <= j < k ==> f@.bindings[j] != name@,
            decreases f.bindings.len() - k,
        {
            if f.bindings[k] == *name {
                proof {
                    assert(f@.bindings[k as int] == name@);
                }
                return true;
            }
            k = k + 1;
        }
        false
    }
}

} // verus!
