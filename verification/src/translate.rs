//! Translation of the upstream UI-node description into renderable
//! fields, seeding the form state with each input's default value. The
//! transform is pure and repeatable: a value already in the form state —
//! in particular one the user already typed — is never overwritten.

use vstd::prelude::*;
use crate::form::FormState;
use crate::form::seeded;
use crate::model::Flow;
use crate::model::Message;
use crate::model::UiNode;
use crate::pairs::first_value_for;
use crate::pairs::remove_key;

verus! {

/// One renderable element handed to the presentation layer, in the order
/// the upstream listed its nodes.
#[derive(Clone, Debug)]
pub enum RenderableField {
    /// A bound form control: `value` is what the control shows now — the
    /// form state's value for `name`, which starts as the node's default.
    InputField { name: String, value: String, group: String, messages: Vec<Message> },
    /// Static text, render-only.
    TextBlock { content: String, messages: Vec<Message> },
    /// An image reference, render-only.
    ImageRef { source: String, messages: Vec<Message> },
    /// A script reference, render-only.
    ScriptRef { source: String, messages: Vec<Message> },
    /// A node this core does not model; rendered inertly.
    OpaqueBlock { messages: Vec<Message> },
}

/// How rendering one node changes the form state: an input seeds its
/// default under its name; every other node leaves the state alone.
pub open spec fn node_form_effect(
    node: UiNode,
    before: Seq<(String, String)>,
) -> Seq<(String, String)> {
    match node {
        UiNode::Input { name, value, .. } => seeded(before, name, value),
        _ => before,
    }
}

/// The renderable field `r` is the faithful rendering of `node` against
/// the form state `before`: same kind, same texts, same messages, and for
/// an input the value the form state holds (the default only when the
/// name was absent).
pub open spec fn renders_node(node: UiNode, before: Seq<(String, String)>, r: RenderableField) -> bool {
    match node {
        UiNode::Input { name, value, group, messages } => match r {
            RenderableField::InputField { name: rn, value: rv, group: rg, messages: rm } => {
                &&& rn@ == name@
                &&& rg@ == group@
                &&& rm@ == messages@
                &&& rv@ == match first_value_for(before, name@) {
                    Some(v) => v,
                    None => value@,
                }
            },
            _ => false,
        },
        UiNode::Text { content, messages } => match r {
            RenderableField::TextBlock { content: rc, messages: rm } => rc@ == content@ && rm@
                == messages@,
            _ => false,
        },
        UiNode::Image { source, messages } => match r {
            RenderableField::ImageRef { source: rs, messages: rm } => rs@ == source@ && rm@
                == messages@,
            _ => false,
        },
        UiNode::Script { source, messages } => match r {
            RenderableField::ScriptRef { source: rs, messages: rm } => rs@ == source@ && rm@
                == messages@,
            _ => false,
        },
        UiNode::Opaque { messages } => match r {
            RenderableField::OpaqueBlock { messages: rm } => rm@ == messages@,
            _ => false,
        },
    }
}

/// Rendering a node is idempotent on the form state: once its effect is
/// applied, applying it again changes nothing.
pub proof fn lemma_node_effect_idempotent(node: UiNode, s: Seq<(String, String)>)
    ensures
        node_form_effect(node, node_form_effect(node, s)) == node_form_effect(node, s),
{
    match node {
        UiNode::Input { name, value, .. } => {
            crate::form::lemma_seeded_idempotent(s, name, value);
        },
        _ => {},
    }
}

/// Copies one message; the copy holds the same id, text and kind.
fn clone_message(m: &Message) -> (r: Message)
    ensures
        r == *m,
{
    Message { id: m.id, text: m.text.clone(), kind: m.kind }
}

/// Copies a message list; the copy holds the same messages in order.
fn clone_messages(v: &Vec<Message>) -> (r: Vec<Message>)
    ensures
        r@ == v@,
{
    let n = v.len();
    let mut out: Vec<Message> = Vec::new();
    let mut i: usize = 0;
    while i < n
        invariant
            n == v@.len(),
            0 <= i <= n,
            out@ =~= v@.take(i as int),
        decreases n - i,
    {
        out.push(clone_message(&v[i]));
        proof {
            assert(out@ =~= v@.take(i as int + 1));
        }
        i += 1;
    }
    proof {
        assert(v@.take(n as int) =~= v@);
    }
    out
}

/// Renders one node against the form state: seeds an input's default
/// value when its name is absent, never overwriting a present value, and
/// returns the renderable form of the node.
pub fn render(node: &UiNode, form: &mut FormState) -> (r: RenderableField)
    requires
        old(form).wf(),
    ensures
        final(form).wf(),
        final(form)@ == node_form_effect(*node, old(form)@),
        renders_node(*node, old(form)@, r),
{
    match node {
        UiNode::Input { name, value, group, messages } => {
            let current = form.get(name.as_str());
            form.seed(name, value);
            let shown = match current {
                Some(v) => v,
                None => value.clone(),
            };
            RenderableField::InputField {
                name: name.clone(),
                value: shown,
                group: group.clone(),
                messages: clone_messages(messages),
            }
        },
        UiNode::Text { content, messages } => RenderableField::TextBlock {
            content: content.clone(),
            messages: clone_messages(messages),
        },
        UiNode::Image { source, messages } => RenderableField::ImageRef {
            source: source.clone(),
            messages: clone_messages(messages),
        },
        UiNode::Script { source, messages } => RenderableField::ScriptRef {
            source: source.clone(),
            messages: clone_messages(messages),
        },
        UiNode::Opaque { messages } => RenderableField::OpaqueBlock {
            messages: clone_messages(messages),
        },
    }
}

/// The form state after rendering a whole node list, left to right.
pub open spec fn form_effect_all(
    nodes: Seq<UiNode>,
    before: Seq<(String, String)>,
) -> Seq<(String, String)>
    decreases nodes.len(),
{
    if nodes.len() == 0 {
        before
    } else {
        node_form_effect(nodes.last(), form_effect_all(nodes.drop_last(), before))
    }
}

/// Renders every node in upstream order — the order is preserved, one
/// renderable field per node — seeding the form state along the way.
pub fn render_all(nodes: &Vec<UiNode>, form: &mut FormState) -> (r: Vec<RenderableField>)
    requires
        old(form).wf(),
    ensures
        final(form).wf(),
        final(form)@ == form_effect_all(nodes@, old(form)@),
        r@.len() == nodes@.len(),
        forall|i: int|
            0 <= i < nodes@.len() ==> renders_node(
                nodes@[i],
                form_effect_all(nodes@.take(i), old(form)@),
                #[trigger] r@[i],
            ),
{
    let n = nodes.len();
    let mut out: Vec<RenderableField> = Vec::new();
    proof {
        assert(nodes@.take(0) =~= Seq::<UiNode>::empty());
    }
    let mut i: usize = 0;
    while i < n
        invariant
            old(form).wf(),
            form.wf(),
            n == nodes@.len(),
            0 <= i <= n,
            form@ == form_effect_all(nodes@.take(i as int), old(form)@),
            out@.len() == i,
            forall|k: int|
                0 <= k < i ==> renders_node(
                    nodes@[k],
                    form_effect_all(nodes@.take(k), old(form)@),
                    #[trigger] out@[k],
                ),
        decreases n - i,
    {
        proof {
            assert(nodes@.take(i as int + 1).drop_last() =~= nodes@.take(i as int));
            assert(nodes@.take(i as int + 1).last() == nodes@[i as int]);
        }
        let field = render(&nodes[i], form);
        out.push(field);
        i += 1;
    }
    proof {
        assert(nodes@.take(n as int) =~= nodes@);
    }
    out
}

/// Renders a flow's nodes in order and stages the flow's `action` URL
/// into the form state, leaving the form ready for submission.
pub fn prepare_form(flow: &Flow, form: &mut FormState) -> (r: Vec<RenderableField>)
    requires
        old(form).wf(),
    ensures
        final(form).wf(),
        r@.len() == flow.ui.nodes@.len(),
        forall|i: int|
            0 <= i < flow.ui.nodes@.len() ==> renders_node(
                flow.ui.nodes@[i],
                form_effect_all(flow.ui.nodes@.take(i), old(form)@),
                #[trigger] r@[i],
            ),
        final(form)@.len() > 0,
        final(form)@.drop_last() == remove_key(
            form_effect_all(flow.ui.nodes@, old(form)@),
            "action"@,
        ),
        final(form)@.last().0@ == "action"@,
        final(form)@.last().1@ == flow.ui.action@,
        first_value_for(final(form)@, "action"@) == Some(flow.ui.action@),
{
    let fields = render_all(&flow.ui.nodes, form);
    form.set("action".to_owned(), flow.ui.action.clone());
    proof {
        let staged = remove_key(form_effect_all(flow.ui.nodes@, old(form)@), "action"@);
        assert(form@.drop_last() =~= staged);
    }
    fields
}

} // verus!
