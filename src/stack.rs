use vstd::prelude::*;

use crate::value::{Native, Trap, Value};

verus! {

/// One open block, loop or if arm on the control stack.
#[derive(Debug, PartialEq, Eq, Structural, Clone)]
pub struct Label {
    /// How many operands survive a branch to this label.
    pub n: usize,
    /// Where execution resumes when a branch targets this label.
    pub offset: usize,
}

/// A module instance, named by its index in the embedder's instance arena.
///
/// Frames running code of the same module hold equal handles.
#[derive(Debug, PartialEq, Eq, Structural, Clone, Copy)]
pub struct InstanceHandle(pub usize);

/// One call activation: parameters followed by declared locals.
#[derive(Debug, PartialEq, Clone)]
pub struct Frame {
    pub instance: InstanceHandle,
    pub local: Vec<Value>,
}

/// The abstract state of a `Stack`: its three sub-stacks, top at the end.
pub ghost struct StackModel {
    pub values: Seq<Value>,
    pub labels: Seq<Label>,
    pub frames: Seq<Frame>,
}

impl StackModel {
    pub open spec fn empty() -> StackModel {
        StackModel { values: Seq::empty(), labels: Seq::empty(), frames: Seq::empty() }
    }

    pub open spec fn is_empty(self) -> bool {
        &&& self.values.len() == 0
        &&& self.labels.len() == 0
        &&& self.frames.len() == 0
    }

    pub open spec fn push_value(self, v: Value) -> StackModel {
        StackModel { values: self.values.push(v), ..self }
    }

    pub open spec fn push_label(self, l: Label) -> StackModel {
        StackModel { labels: self.labels.push(l), ..self }
    }

    pub open spec fn push_frame(self, f: Frame) -> StackModel {
        StackModel { frames: self.frames.push(f), ..self }
    }

    /// Pops the top operand as a `T`; a wrong variant leaves the state as it was.
    pub open spec fn pop_value<T: Native>(self) -> (StackModel, Result<T, Trap>) {
        if self.values.len() == 0 {
            (self, Err(Trap::StackUnderflow))
        } else {
            match T::of_value(self.values.last()) {
                Some(x) => (StackModel { values: self.values.drop_last(), ..self }, Ok(x)),
                None => (self, Err(Trap::TypeMismatch)),
            }
        }
    }

    pub open spec fn pop_label(self) -> (StackModel, Result<Label, Trap>) {
        if self.labels.len() == 0 {
            (self, Err(Trap::StackUnderflow))
        } else {
            (StackModel { labels: self.labels.drop_last(), ..self }, Ok(self.labels.last()))
        }
    }

    pub open spec fn pop_frame(self) -> (StackModel, Result<Frame, Trap>) {
        if self.frames.len() == 0 {
            (self, Err(Trap::StackUnderflow))
        } else {
            (StackModel { frames: self.frames.drop_last(), ..self }, Ok(self.frames.last()))
        }
    }

    pub open spec fn set_params(self, params: Seq<Value>) -> StackModel {
        StackModel { values: params, ..self }
    }

    /// The drained operands, bottom first, and the state left behind.
    pub open spec fn get_returns(self) -> (StackModel, Seq<Value>) {
        (StackModel { values: Seq::empty(), ..self }, self.values)
    }

    /// The label `th` places below the top, without removing it.
    pub open spec fn th_label(self, th: int) -> Result<Label, Trap> {
        if 0 <= th < self.labels.len() {
            Ok(self.labels[self.labels.len() - 1 - th])
        } else {
            Err(Trap::StackUnderflow)
        }
    }

    pub open spec fn top_frame(self) -> Result<Frame, Trap> {
        if self.frames.len() == 0 {
            Err(Trap::StackUnderflow)
        } else {
            Ok(self.frames.last())
        }
    }
}

/// The interpreter's execution state: operands, open control constructs
/// and call frames, each a separate LIFO stack.
#[derive(Debug, PartialEq, Clone)]
pub struct Stack {
    values: Vec<Value>,
    labels: Vec<Label>,
    frames: Vec<Frame>,
}

impl View for Stack {
    type V = StackModel;

    closed spec fn view(&self) -> StackModel {
        StackModel { values: self.values@, labels: self.labels@, frames: self.frames@ }
    }
}

impl Default for Stack {
    fn default() -> (r: Stack)
        ensures
            r@ == StackModel::empty(),
    {
        Stack::new()
    }
}

impl Stack {
    pub fn new() -> (r: Stack)
        ensures
            r@ == StackModel::empty(),
    {
        Stack { values: Vec::new(), labels: Vec::new(), frames: Vec::new() }
    }

    pub fn values_len(&self) -> (r: usize)
        ensures
            r == self@.values.len(),
    {
        self.values.len()
    }

    pub fn labels_len(&self) -> (r: usize)
        ensures
            r == self@.labels.len(),
    {
        self.labels.len()
    }

    pub fn frames_len(&self) -> (r: usize)
        ensures
            r == self@.frames.len(),
    {
        self.frames.len()
    }

    pub fn is_empty(&self) -> (r: bool)
        ensures
            r == (self@.values.len() == 0 && self@.labels.len() == 0 && self@.frames.len() == 0),
            r == (self@ == StackModel::empty()),
    {
        let r = self.values.len() == 0 && self.labels.len() == 0 && self.frames.len() == 0;
        proof {
            if r {
                assert(self@.values =~= Seq::empty());
                assert(self@.labels =~= Seq::empty());
                assert(self@.frames =~= Seq::empty());
            }
        }
        r
    }

    pub fn push_value<T: Native>(&mut self, value: T)
        ensures
            final(self)@ == old(self)@.push_value(value.to_value()),
    {
        self.values.push(value.into_value());
    }

    pub fn push_label(&mut self, label: Label)
        ensures
            final(self)@ == old(self)@.push_label(label),
    {
        self.labels.push(label);
    }

    pub fn push_frame(&mut self, frame: Frame)
        ensures
            final(self)@ == old(self)@.push_frame(frame),
    {
        self.frames.push(frame);
    }

    /// Pops the top operand read as a `T`.
    ///
    /// On an empty operand stack, or when the top holds another variant,
    /// nothing is removed and the fault is returned.
    pub fn pop_value<T: Native>(&mut self) -> (r: Result<T, Trap>)
        ensures
            (final(self)@, r) == old(self)@.pop_value::<T>(),
    {
        let len = self.values.len();
        if len == 0 {
            return Err(Trap::StackUnderflow);
        }
        match T::from_value(self.values[len - 1]) {
            Some(x) => {
                self.values.pop();
                Ok(x)
            },
            None => Err(Trap::TypeMismatch),
        }
    }

    pub fn pop_label(&mut self) -> (r: Result<Label, Trap>)
        ensures
            (final(self)@, r) == old(self)@.pop_label(),
    {
        match self.labels.pop() {
            Some(l) => Ok(l),
            None => Err(Trap::StackUnderflow),
        }
    }

    pub fn pop_frame(&mut self) -> (r: Result<Frame, Trap>)
        ensures
            (final(self)@, r) == old(self)@.pop_frame(),
    {
        match self.frames.pop() {
            Some(f) => Ok(f),
            None => Err(Trap::StackUnderflow),
        }
    }

    /// Replaces the whole operand stack with `params`; whatever was there is
    /// discarded, so this belongs at the start of a top-level invocation.
    pub fn set_params(&mut self, params: Vec<Value>)
        ensures
            final(self)@ == old(self)@.set_params(params@),
    {
        self.values = params;
    }

    /// Drains the operand stack, bottom first, leaving it empty.
    pub fn get_returns(&mut self) -> (r: Vec<Value>)
        ensures
            (final(self)@, r@) == old(self)@.get_returns(),
    {
        let mut r: Vec<Value> = Vec::new();
        std::mem::swap(&mut r, &mut self.values);
        r
    }

    /// A copy of the label `th` places below the top (0 is the innermost).
    pub fn th_label(&self, th: usize) -> (r: Result<Label, Trap>)
        ensures
            r == self@.th_label(th as int),
    {
        let len = self.labels.len();
        if th >= len {
            return Err(Trap::StackUnderflow);
        }
        let l = &self.labels[len - 1 - th];
        Ok(Label { n: l.n, offset: l.offset })
    }

    /// The frame of the function now executing.
    pub fn top_frame(&self) -> (r: Result<&Frame, Trap>)
        ensures
            r matches Ok(f) ==> self@.top_frame() == Ok::<Frame, Trap>(*f),
            r matches Err(e) ==> self@.top_frame() == Err::<Frame, Trap>(e),
    {
        let len = self.frames.len();
        if len == 0 {
            return Err(Trap::StackUnderflow);
        }
        Ok(&self.frames[len - 1])
    }

    /// Mutable access to the frame of the function now executing; what the
    /// caller writes through it becomes the new top frame.
    pub fn top_frame_mut(&mut self) -> (r: Result<&mut Frame, Trap>)
        ensures
            old(self)@.frames.len() == 0 ==> (r matches Err(e) && e == Trap::StackUnderflow
                && final(self)@ == old(self)@),
            old(self)@.frames.len() > 0 ==> (r matches Ok(f) && *f == old(self)@.frames.last()
                && final(self)@ == (StackModel {
                    frames: old(self)@.frames.update(old(self)@.frames.len() - 1, *final(f)),
                    ..old(self)@
                })),
    {
        let len = self.frames.len();
        if len == 0 {
            return Err(Trap::StackUnderflow);
        }
        Ok(&mut self.frames[len - 1])
    }
}

} // verus!
