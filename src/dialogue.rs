//! Branching dialogue: a graph of text nodes whose options lead on to another
//! node or end the conversation.

use vstd::prelude::*;

verus! {

/// An option offered at a node: its text, and the node it leads to, or
/// `None` where choosing it ends the conversation.
#[derive(Debug)]
pub struct DialogueOption {
    pub text: String,
    pub next_node: Option<usize>,
}

/// A node: what the speaker says, and the options in the order they are
/// offered.
#[derive(Debug)]
pub struct DialogueNode {
    pub text: String,
    pub options: Vec<DialogueOption>,
}

/// The number of options at node `n`.
pub open spec fn option_count(g: Seq<DialogueNode>, n: int) -> int {
    g[n].options@.len() as int
}

/// Where option `o` of node `n` leads.
pub open spec fn option_target(g: Seq<DialogueNode>, n: int, o: int) -> Option<usize> {
    g[n].options@[o].next_node
}

/// A graph that a conversation can run on: it has an entry node 0, every
/// node offers at least one option, and every option leads to a later node
/// or ends the conversation (so no conversation can cycle).
pub open spec fn dialogue_wf(g: Seq<DialogueNode>) -> bool {
    &&& g.len() > 0
    &&& forall|n: int| 0 <= n < g.len() ==> option_count(g, n) > 0
    &&& forall|n: int, o: int|
        0 <= n < g.len() && 0 <= o < option_count(g, n) ==> match #[trigger] option_target(
            g,
            n,
            o,
        ) {
            Some(m) => n < m < g.len(),
            None => true,
        }
}

/// The shape of a graph: for each node, where each of its options leads.
pub open spec fn dialogue_shape(g: Seq<DialogueNode>) -> Seq<Seq<Option<usize>>> {
    g.map_values(|node: DialogueNode| node.options@.map_values(|o: DialogueOption| o.next_node))
}

/// Starting at node `n` and confirming, at each node `m` reached, option
/// `pick(m)`, the conversation ends within `confirms` confirmations.
pub open spec fn ends_within(
    g: Seq<DialogueNode>,
    n: int,
    pick: spec_fn(int) -> int,
    confirms: nat,
) -> bool
    decreases confirms,
{
    if confirms == 0 {
        false
    } else {
        match option_target(g, n, pick(n)) {
            None => true,
            Some(m) => ends_within(g, m as int, pick, (confirms - 1) as nat),
        }
    }
}

/// Every conversation on a well-formed graph ends: from node 0, whatever
/// valid option is picked at each node, at most as many confirmations as the
/// graph has nodes end it.
pub proof fn lemma_dialogue_terminates(g: Seq<DialogueNode>, pick: spec_fn(int) -> int)
    requires
        dialogue_wf(g),
        forall|n: int| 0 <= n < g.len() ==> 0 <= #[trigger] pick(n) < option_count(g, n),
    ensures
        ends_within(g, 0, pick, g.len()),
{
    lemma_ends_from(g, 0, pick, g.len());
}

proof fn lemma_ends_from(g: Seq<DialogueNode>, n: int, pick: spec_fn(int) -> int, confirms: nat)
    requires
        dialogue_wf(g),
        forall|k: int| 0 <= k < g.len() ==> 0 <= #[trigger] pick(k) < option_count(g, k),
        0 <= n < g.len(),
        confirms >= g.len() - n,
    ensures
        ends_within(g, n, pick, confirms),
    decreases confirms,
{
    let p = pick(n);
    match option_target(g, n, p) {
        None => {},
        Some(m) => {
            lemma_ends_from(g, m as int, pick, (confirms - 1) as nat);
        },
    }
}

/// An option with the given text leading to `next_node`.
pub fn reply(text: &str, next_node: Option<usize>) -> (r: DialogueOption)
    ensures
        r.text@ == text@,
        r.next_node == next_node,
{
    DialogueOption { text: String::from_str(text), next_node }
}

/// A node with the given text and options.
pub fn node(text: &str, options: Vec<DialogueOption>) -> (r: DialogueNode)
    ensures
        r.text@ == text@,
        r.options@ == options@,
{
    DialogueNode { text: String::from_str(text), options }
}

} // verus!
