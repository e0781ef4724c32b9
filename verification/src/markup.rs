//! The embedded markup subtree, the document output nodes, and the
//! evaluation context that collects them.
//!
//! The surrounding evaluator owns parsing and layout; this core carries a
//! subtree opaquely as its canonical text together with the output nodes its
//! evaluation yields, and delegates to them.

use vstd::prelude::*;

verus! {

/// One node of document output.
#[derive(Debug)]
pub enum OutputNode {
    Text(String),
}

/// The text carried by an output node.
pub open spec fn node_text(n: OutputNode) -> Seq<char> {
    match n {
        OutputNode::Text(s) => s@,
    }
}

/// The texts carried by a sequence of output nodes.
pub open spec fn node_texts(nodes: Seq<OutputNode>) -> Seq<Seq<char>> {
    nodes.map_values(|n: OutputNode| node_text(n))
}

/// A markup subtree: its canonical text, and the output its evaluation
/// appends to a context.
#[derive(Debug)]
pub struct Template {
    pub repr: String,
    pub content: Vec<OutputNode>,
}

/// The context a value is evaluated into: the document output built so far.
#[derive(Debug)]
pub struct EvalContext {
    pub out: Vec<OutputNode>,
}

impl Template {
    /// A subtree from its canonical text and its evaluated output.
    pub fn new(repr: String, content: Vec<OutputNode>) -> (t: Self)
        ensures
            t.repr == repr,
            t.content == content,
    {
        Template { repr, content }
    }

    /// Evaluates the subtree: appends its output nodes to the context.
    pub fn eval(&self, ctx: &mut EvalContext)
        ensures
            node_texts(final(ctx).out@) == node_texts(old(ctx).out@) + node_texts(self.content@),
    {
        let mut i: usize = 0;
        while i < self.content.len()
            invariant
                i <= self.content.len(),
                ctx.out@.len() == old(ctx).out@.len() + i,
                forall|j: int|
                    0 <= j < old(ctx).out@.len() ==> ctx.out@[j] == old(ctx).out@[j],
                forall|j: int|
                    0 <= j < i ==> node_text(ctx.out@[old(ctx).out@.len() + j]) == node_text(
                        self.content@[j],
                    ),
            decreases self.content.len() - i,
        {
            let node = match &self.content[i] {
                OutputNode::Text(s) => OutputNode::Text(s.clone()),
            };
            ctx.out.push(node);
            i = i + 1;
        }
        proof {
            assert(node_texts(ctx.out@) =~= node_texts(old(ctx).out@) + node_texts(
                self.content@,
            ));
        }
    }
}

impl Clone for OutputNode {
    /// A copy carrying the same text.
    fn clone(&self) -> (r: Self)
        ensures
            r == *self,
    {
        match self {
            OutputNode::Text(s) => OutputNode::Text(s.clone()),
        }
    }
}

impl Clone for Template {
    /// A copy with the same canonical text and the same output nodes.
    fn clone(&self) -> (r: Self)
        ensures
            r.repr == self.repr,
            r.content@ == self.content@,
    {
        let mut content: Vec<OutputNode> = Vec::new();
        let mut i: usize = 0;
        while i < self.content.len()
            invariant
                i <= self.content@.len(),
                content@.len() == i as int,
                forall|j: int| 0 <= j < i ==> content@[j] == self.content@[j],
            decreases self.content@.len() - i,
        {
            content.push(self.content[i].clone());
            i = i + 1;
        }
        proof {
            assert(content@ =~= self.content@);
        }
        Template { repr: self.repr.clone(), content }
    }
}

/// Whether two output nodes carry the same text.
pub fn node_eq(a: &OutputNode, b: &OutputNode) -> (r: bool)
    ensures
        r == (node_text(*a) == node_text(*b)),
{
    match (a, b) {
        (OutputNode::Text(s1), OutputNode::Text(s2)) => s1.eq(s2),
    }
}

impl EvalContext {
    /// A context with no output yet.
    pub fn new() -> (c: Self)
        ensures
            c.out@ == Seq::<OutputNode>::empty(),
    {
        EvalContext { out: Vec::new() }
    }

    /// Wraps text as one output node.
    pub fn make_text_node(&self, text: String) -> (n: OutputNode)
        ensures
            n == OutputNode::Text(text),
    {
        OutputNode::Text(text)
    }

    /// Appends one node to the document output.
    pub fn push(&mut self, node: OutputNode)
        ensures
            final(self).out@ == old(self).out@.push(node),
    {
        self.out.push(node);
    }
}

} // verus!
