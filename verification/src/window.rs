//! The focused window of a sway session and where it is on the screen.

use crate::decimal::{append_int, int_text};
use vstd::prelude::*;

verus! {

/// A rectangle on the screen, in pixels.
#[derive(Debug, Clone, Copy, PartialEq, Eq, Structural)]
pub struct Rect {
    pub x: i32,
    pub y: i32,
    pub width: i32,
    pub height: i32,
}

/// A rectangle the way `grim -g` takes it: `x,y widthxheight`, each number in
/// decimal.
pub open spec fn geometry_text(rect: Rect) -> Seq<char> {
    int_text(rect.x as int) + seq![','] + int_text(rect.y as int) + seq![' '] + int_text(
        rect.width as int,
    ) + seq!['x'] + int_text(rect.height as int)
}

/// Writes `rect` the way `grim -g` takes it.
pub fn geometry(rect: Rect) -> (text: String)
    ensures
        text@ == geometry_text(rect),
{
    proof {
        reveal_strlit(",");
        reveal_strlit(" ");
        reveal_strlit("x");
    }
    let mut text = String::new();
    append_int(&mut text, rect.x);
    text.append(",");
    append_int(&mut text, rect.y);
    text.append(" ");
    append_int(&mut text, rect.width);
    text.append("x");
    append_int(&mut text, rect.height);
    assert(text@ =~= geometry_text(rect));
    text
}

/// What a node of the window tree stands for.
#[derive(Debug, Clone, Copy, PartialEq, Eq, Structural)]
pub enum NodeKind {
    Root,
    Output,
    Workspace,
    /// An ordinary tiled container: a window, or a split that holds some.
    Con,
    FloatingCon,
    Dockarea,
    /// A kind that this library does not know by name.
    Other,
}

impl NodeKind {
    /// Whether a node of this kind can be the window to capture.
    pub fn is_window(self) -> (yes: bool)
        ensures
            yes <==> self is Con,
    {
        match self {
            NodeKind::Con => true,
            _ => false,
        }
    }
}

/// A node of sway's window tree with everything below it, carried along
/// unopened.
#[verifier::external_type_specification]
#[verifier::external_body]
pub struct ExNode(swayipc::Node);

/// The kind of the node at the root of `tree`: what its field `node_type`
/// says, under the names that [`NodeKind`] gives.
pub uninterp spec fn kind_at(tree: swayipc::Node) -> NodeKind;

/// The rectangle of the window that the focus leads to in `tree`: of the
/// first node that [`is_window`] accepts on the way that `Node::find_focused`
/// goes, from the root to the child that each node's focus names first.
/// `None` where that way ends before it comes to such a node.
pub uninterp spec fn focus_of(tree: swayipc::Node) -> Option<Rect>;

/// Reads the field `node_type` of a `swayipc::Node` and gives the variant
/// the name it has here.
#[verifier::external_body]
fn kind_of(node: &swayipc::Node) -> (kind: NodeKind)
    ensures
        kind == kind_at(*node),
{
    match node.node_type {
        swayipc::NodeType::Root => NodeKind::Root,
        swayipc::NodeType::Output => NodeKind::Output,
        swayipc::NodeType::Workspace => NodeKind::Workspace,
        swayipc::NodeType::Con => NodeKind::Con,
        swayipc::NodeType::FloatingCon => NodeKind::FloatingCon,
        swayipc::NodeType::Dockarea => NodeKind::Dockarea,
        _ => NodeKind::Other,
    }
}

/// Whether `node` can be the window to capture.
fn is_window(node: &swayipc::Node) -> (yes: bool)
    ensures
        yes <==> kind_at(*node) is Con,
{
    kind_of(node).is_window()
}

/// Follows the focus from the root of `tree` with `Node::find_focused`,
/// stopping at the first node that [`is_window`] accepts, and copies out the
/// field `rect` of the node found.
#[verifier::external_body]
pub(crate) fn focused_window(tree: swayipc::Node) -> (found: Option<Rect>)
    ensures
        found == focus_of(tree),
{
    tree.find_focused(|node| is_window(node)).map(
        |node| Rect {
            x: node.rect.x,
            y: node.rect.y,
            width: node.rect.width,
            height: node.rect.height,
        },
    )
}

} // verus!
