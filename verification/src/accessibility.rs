//! The accessibility bridge: current focus within the accessibility tree,
//! directional focus navigation over the focusable nodes, and the
//! once-per-window hand-off of the initial tree.

use vstd::prelude::*;

verus! {

/// The direction of a focus-navigation request.
#[derive(Debug, Clone, Copy, PartialEq, Eq)]
pub enum AccessibilityFocusDirection {
    Forward,
    Backward,
}

/// Whether focus-driving input currently originates from the keyboard or
/// from a pointer.
#[derive(Debug, Clone, Copy, PartialEq, Eq)]
pub enum NavigationMode {
    NotKeyboard,
    Keyboard,
}

/// The index of the first occurrence of `id` in `nodes`, or `-1` when
/// `id` does not occur.
pub open spec fn spec_first_index(nodes: Seq<u64>, id: u64) -> int
    decreases nodes.len(),
{
    if nodes.len() == 0 {
        -1
    } else if nodes[0] == id {
        0
    } else {
        let rest = spec_first_index(nodes.drop_first(), id);
        if rest < 0 {
            -1
        } else {
            1 + rest
        }
    }
}

/// What directional navigation focuses next: the neighbour of the current
/// focus in the focusable order, wrapping at either end; from no focus (or
/// a focus that is no longer focusable) it enters at the first node going
/// forward and at the last going backward; with nothing focusable the
/// focus is left as it is.
pub open spec fn spec_navigate(
    nodes: Seq<u64>,
    focused: Option<u64>,
    direction: AccessibilityFocusDirection,
) -> Option<u64> {
    if nodes.len() == 0 {
        focused
    } else {
        let current = match focused {
            Some(id) => spec_first_index(nodes, id),
            None => -1,
        };
        match direction {
            AccessibilityFocusDirection::Forward => {
                if current < 0 || current + 1 >= nodes.len() {
                    Some(nodes[0])
                } else {
                    Some(nodes[current + 1])
                }
            },
            AccessibilityFocusDirection::Backward => {
                if current < 0 {
                    Some(nodes.last())
                } else if current == 0 {
                    Some(nodes.last())
                } else {
                    Some(nodes[current - 1])
                }
            },
        }
    }
}

/// `spec_first_index` finds the first occurrence: a non-negative result
/// indexes an occurrence preceded by none, and `-1` means no occurrence.
pub proof fn lemma_first_index_characterization(nodes: Seq<u64>, id: u64)
    ensures
        spec_first_index(nodes, id) < 0 ==> forall|j: int|
            0 <= j < nodes.len() ==> nodes[j] != id,
        spec_first_index(nodes, id) >= 0 ==> {
            let i = spec_first_index(nodes, id);
            &&& i < nodes.len()
            &&& nodes[i] == id
            &&& forall|j: int| 0 <= j < i ==> nodes[j] != id
        },
    decreases nodes.len(),
{
    if nodes.len() == 0 {
    } else if nodes[0] == id {
    } else {
        lemma_first_index_characterization(nodes.drop_first(), id);
        let rest = spec_first_index(nodes.drop_first(), id);
        if rest >= 0 {
            assert(forall|j: int|
                1 <= j < 1 + rest ==> nodes[j] == nodes.drop_first()[j - 1]);
        } else {
            assert(forall|j: int|
                1 <= j < nodes.len() ==> nodes[j] == nodes.drop_first()[j - 1]);
        }
    }
}

/// Over a single-node universe, directional navigation always lands on
/// that node — in particular, from the only focusable node it returns to
/// itself, in either direction, without fault.
pub proof fn lemma_navigation_single_node(
    nodes: Seq<u64>,
    focused: Option<u64>,
    direction: AccessibilityFocusDirection,
)
    requires
        nodes.len() == 1,
    ensures
        spec_navigate(nodes, focused, direction) == Some(nodes[0]),
{
    if focused is Some {
        lemma_first_index_characterization(nodes, focused->0);
    }
}

/// The accessibility bridge: the focused node, the focusable universe in
/// navigation order (kept in step with the retained tree by the
/// embedding), and whether the initial tree was already handed off.
#[derive(Debug, Clone, PartialEq, Eq)]
pub struct AccessibilityBridge {
    pub focused_node: Option<u64>,
    pub focusable_nodes: Vec<u64>,
    pub initial_tree_sent: bool,
}

impl AccessibilityBridge {
    /// A bridge for a freshly created window: nothing focused, nothing
    /// focusable yet, initial tree not yet handed off.
    pub fn new() -> (r: AccessibilityBridge)
        ensures
            r.focused_node is None,
            r.focusable_nodes@ == Seq::<u64>::empty(),
            !r.initial_tree_sent,
    {
        AccessibilityBridge {
            focused_node: None,
            focusable_nodes: Vec::new(),
            initial_tree_sent: false,
        }
    }

    /// Focuses the given node unconditionally (an explicit focus request
    /// or a platform action request).
    pub fn set_focus(&mut self, id: u64)
        ensures
            *final(self) == (AccessibilityBridge { focused_node: Some(id), ..*old(self) }),
    {
        self.focused_node = Some(id);
    }

    /// Replaces the focusable universe (the embedding keeps it in step
    /// with the retained tree).
    pub fn set_focusable_nodes(&mut self, nodes: Vec<u64>)
        ensures
            *final(self) == (AccessibilityBridge { focusable_nodes: nodes, ..*old(self) }),
    {
        self.focusable_nodes = nodes;
    }

    /// Moves focus one step in the given direction and returns the node
    /// now focused, if any.
    pub fn navigate(&mut self, direction: AccessibilityFocusDirection) -> (r: Option<u64>)
        ensures
            r == spec_navigate(old(self).focusable_nodes@, old(self).focused_node, direction),
            *final(self) == (AccessibilityBridge { focused_node: r, ..*old(self) }),
    {
        let nodes_len = self.focusable_nodes.len();
        if nodes_len == 0 {
            return self.focused_node;
        }
        let current: Option<usize> = match self.focused_node {
            Some(id) => self.find_first(id),
            None => None,
        };
        proof {
            if old(self).focused_node is Some {
                lemma_first_index_characterization(
                    self.focusable_nodes@,
                    old(self).focused_node->0,
                );
            }
        }
        let target: u64 = match direction {
            AccessibilityFocusDirection::Forward => {
                match current {
                    Some(i) => {
                        if i + 1 >= nodes_len {
                            self.focusable_nodes[0]
                        } else {
                            self.focusable_nodes[i + 1]
                        }
                    },
                    None => self.focusable_nodes[0],
                }
            },
            AccessibilityFocusDirection::Backward => {
                match current {
                    Some(i) => {
                        if i == 0 {
                            self.focusable_nodes[nodes_len - 1]
                        } else {
                            self.focusable_nodes[i - 1]
                        }
                    },
                    None => self.focusable_nodes[nodes_len - 1],
                }
            },
        };
        self.focused_node = Some(target);
        Some(target)
    }

    /// Hands off the initial accessibility tree at most once per window
    /// lifetime: returns whether the tree must be sent now; a repeated
    /// request is a protocol violation and is ignored.
    pub fn process_initial_tree(&mut self) -> (send: bool)
        ensures
            send == !old(self).initial_tree_sent,
            *final(self) == (AccessibilityBridge { initial_tree_sent: true, ..*old(self) }),
    {
        let send = !self.initial_tree_sent;
        self.initial_tree_sent = true;
        send
    }

    /// Finds the index of the first occurrence of `id` among the
    /// focusable nodes.
    fn find_first(&self, id: u64) -> (r: Option<usize>)
        ensures
            r matches Some(i) ==> spec_first_index(self.focusable_nodes@, id) == i as int,
            r is None ==> spec_first_index(self.focusable_nodes@, id) < 0,
    {
        let mut i: usize = 0;
        while i < self.focusable_nodes.len()
            invariant
                0 <= i <= self.focusable_nodes@.len(),
                forall|j: int| 0 <= j < i ==> self.focusable_nodes@[j] != id,
            decreases self.focusable_nodes@.len() - i,
        {
            if self.focusable_nodes[i] == id {
                proof {
                    lemma_first_index_characterization(self.focusable_nodes@, id);
                }
                return Some(i);
            }
            i = i + 1;
        }
        proof {
            lemma_first_index_characterization(self.focusable_nodes@, id);
        }
        None
    }
}

} // verus!
