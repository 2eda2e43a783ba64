//! Identifiers shared by the notification components.

use vstd::prelude::*;

verus! {

/// Identifies a pane: a terminal or a plugin, each by its number.
#[derive(Debug, Clone, Copy, PartialEq, Eq, Hash, Structural)]
pub enum PaneId {
    Terminal(u32),
    Plugin(u32),
}

impl PaneId {
    /// A number that stands for this pane and for no other: terminals take
    /// the even numbers, plugins the odd ones.
    pub open spec fn spec_key(self) -> u64 {
        match self {
            PaneId::Terminal(id) => (2 * id) as u64,
            PaneId::Plugin(id) => (2 * id + 1) as u64,
        }
    }

    /// Computes [`PaneId::spec_key`].
    pub fn key(&self) -> (key: u64)
        ensures
            key == self.spec_key(),
    {
        match self {
            PaneId::Terminal(id) => 2 * (*id as u64),
            PaneId::Plugin(id) => 2 * (*id as u64) + 1,
        }
    }

    /// Two panes with the same key are the same pane.
    pub proof fn lemma_key_is_injective(a: PaneId, b: PaneId)
        requires
            a.spec_key() == b.spec_key(),
        ensures
            a == b,
    {
    }
}

} // verus!
