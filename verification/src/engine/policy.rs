//! ActivationPolicy: named predicates over Modifiers that drive the engine.

use vstd::prelude::*;
use crate::engine::modifiers::{ModMatcher, Modifiers};

verus! {

#[derive(Debug, Clone, Copy, PartialEq, Eq, Structural)]
pub struct ActivationPolicy {
    /// When this matches current modifiers, the engine is "armed" and ready to start a drag.
    pub arm: ModMatcher,
    /// When this matches at drag start, the adapter raises the target window.
    pub raise: ModMatcher,
    /// When this matches, snap behavior is suspended.
    pub no_snap: ModMatcher,
}

/// The default policy: Alt arms (Win forbidden, to leave Win+drag alone),
/// Ctrl raises, Space suspends snap; none of them exact.
pub open spec fn default_policy() -> ActivationPolicy {
    ActivationPolicy {
        arm: ModMatcher { required: Modifiers { bits: 1 }, forbidden: Modifiers { bits: 8 }, exact: false },
        raise: ModMatcher { required: Modifiers { bits: 2 }, forbidden: Modifiers { bits: 0 }, exact: false },
        no_snap: ModMatcher { required: Modifiers { bits: 16 }, forbidden: Modifiers { bits: 0 }, exact: false },
    }
}

impl Default for ActivationPolicy {
    fn default() -> (r: ActivationPolicy)
        ensures
            r == default_policy(),
    {
        ActivationPolicy {
            arm: ModMatcher { required: Modifiers::alt(), forbidden: Modifiers::win(), exact: false },
            raise: ModMatcher { required: Modifiers::ctrl(), forbidden: Modifiers::none(), exact: false },
            no_snap: ModMatcher { required: Modifiers::space(), forbidden: Modifiers::none(), exact: false },
        }
    }
}

/// The default policy arms on Alt alone and on Alt with Ctrl or Shift, never
/// when Win is held; it raises whenever Ctrl is held.
pub proof fn lemma_default_policy(m: Modifiers)
    ensures
        default_policy().arm.spec_matches(m) <==> (m.bits & 1 == 1 && m.bits & 8 == 0),
        default_policy().raise.spec_matches(m) <==> m.bits & 2 == 2,
        default_policy().no_snap.spec_matches(m) <==> m.bits & 16 == 16,
{
    let b = m.bits;
    assert(b & 0 == 0) by (bit_vector);
}

} // verus!
