//! The oracle plugin binding: how an external validator is attached to a
//! collection and consulted on lifecycle events.

use vstd::prelude::*;
use crate::address::Address;
use crate::address::oracle_address;
use crate::address::oracle_address_spec;

verus! {

/// Lifecycle events of an asset that a bound plugin can hook.
#[derive(Clone, Copy, Debug, PartialEq, Eq, Structural)]
pub enum LifecycleEvent {
    Create,
    Transfer,
    Update,
    Burn,
}

/// Check-result flag: the plugin may force-approve the event.
pub const CHECK_CAN_APPROVE: u32 = 2;

/// Check-result flag: the plugin may reject the event.
pub const CHECK_CAN_REJECT: u32 = 4;

/// May the holder of these check-result flags veto an event?
pub open spec fn can_reject(flags: u32) -> bool {
    flags & CHECK_CAN_REJECT != 0
}

/// May the holder of these check-result flags force-approve an event?
pub open spec fn can_approve(flags: u32) -> bool {
    flags & CHECK_CAN_APPROVE != 0
}

/// What the bound oracle answered for a pending lifecycle event, read back
/// through the validation-results channel declared at binding time.
#[derive(Clone, Copy, Debug, PartialEq, Eq, Structural)]
pub enum Verdict {
    /// The oracle did not object (approval by silence).
    Approved,
    /// The oracle vetoed the event.
    Rejected,
}

/// One lifecycle check a bound oracle performs: the event it hooks and the
/// powers it holds over that event.
#[derive(Clone, Copy, Debug)]
pub struct LifecycleCheck {
    pub event: LifecycleEvent,
    pub flags: u32,
}

/// Where the oracle writes its validation results back, in the scheme the
/// asset library defines.
#[derive(Clone, Copy, Debug)]
pub enum ResultsOffset {
    /// No offset: the results sit at the start of the oracle account.
    NoOffset,
    /// The results follow the account's discriminator.
    Anchor,
    /// The results sit at a custom byte offset.
    Custom(u64),
}

/// The binding of an external oracle validator to a collection, recorded at
/// collection-creation time and consulted by the asset library's lifecycle
/// dispatch.
#[derive(Debug)]
pub struct OracleBinding {
    /// Address of the pre-deployed oracle validator.
    pub base_address: Address,
    /// Optional distinct authority allowed to update the binding later.
    pub plugin_authority: Option<Address>,
    /// The lifecycle events the oracle is consulted on, with its powers.
    pub lifecycle_checks: Vec<LifecycleCheck>,
    /// Where the oracle's validation results are read from.
    pub results_offset: ResultsOffset,
}

/// The canonical binding this module attaches to the collection it creates:
/// the fixed oracle, hooked on `Transfer` alone, able only to reject (never
/// to force-approve), reporting results in the library's own scheme.
pub open spec fn is_transfer_veto_binding(b: OracleBinding) -> bool {
    &&& b.base_address@ == oracle_address_spec()
    &&& b.plugin_authority is None
    &&& b.lifecycle_checks@.len() == 1
    &&& b.lifecycle_checks@[0].event == LifecycleEvent::Transfer
    &&& b.lifecycle_checks@[0].flags == CHECK_CAN_REJECT
    &&& b.results_offset is Anchor
}

/// Does the binding hook the given event with the power to veto it?
pub open spec fn binding_can_veto(b: OracleBinding, e: LifecycleEvent) -> bool {
    exists|i: int|
        0 <= i < b.lifecycle_checks@.len() && b.lifecycle_checks@[i].event == e && can_reject(
            b.lifecycle_checks@[i].flags,
        )
}

/// Builds the canonical veto-only transfer binding.
pub fn oracle_binding() -> (b: OracleBinding)
    ensures
        is_transfer_veto_binding(b),
        binding_can_veto(b, LifecycleEvent::Transfer),
{
    let mut checks: Vec<LifecycleCheck> = Vec::new();
    checks.push(LifecycleCheck { event: LifecycleEvent::Transfer, flags: CHECK_CAN_REJECT });
    let b = OracleBinding {
        base_address: oracle_address(),
        plugin_authority: None,
        lifecycle_checks: checks,
        results_offset: ResultsOffset::Anchor,
    };
    proof {
        assert(4u32 & 4u32 != 0) by (bit_vector);
        assert(b.lifecycle_checks@[0].event == LifecycleEvent::Transfer);
        assert(can_reject(b.lifecycle_checks@[0].flags));
    }
    b
}

/// Does this binding hook the given event with veto power? Scans the
/// recorded lifecycle checks exactly as the library's dispatch does.
pub fn binding_vetoes(b: &OracleBinding, e: LifecycleEvent) -> (r: bool)
    ensures
        r == binding_can_veto(*b, e),
{
    let n = b.lifecycle_checks.len();
    let mut i: usize = 0;
    while i < n
        invariant
            n == b.lifecycle_checks@.len(),
            0 <= i <= n,
            forall|j: int|
                0 <= j < i ==> !(b.lifecycle_checks@[j].event == e && can_reject(
                    b.lifecycle_checks@[j].flags,
                )),
        decreases n - i,
    {
        let c = &b.lifecycle_checks[i];
        if c.event == e && c.flags & CHECK_CAN_REJECT != 0 {
            proof {
                assert(can_reject(b.lifecycle_checks@[i as int].flags));
            }
            return true;
        }
        i = i + 1;
    }
    false
}

/// The canonical binding does hook `Transfer` with veto power.
pub proof fn lemma_veto_binding_can_veto(b: OracleBinding)
    requires
        is_transfer_veto_binding(b),
    ensures
        binding_can_veto(b, LifecycleEvent::Transfer),
{
    assert(4u32 & 4u32 != 0) by (bit_vector);
    assert(can_reject(b.lifecycle_checks@[0].flags));
}

/// A veto-only binding can never force-approve the event it hooks.
pub proof fn lemma_veto_binding_cannot_approve(b: OracleBinding)
    requires
        is_transfer_veto_binding(b),
    ensures
        forall|i: int|
            0 <= i < b.lifecycle_checks@.len() ==> !can_approve(b.lifecycle_checks@[i].flags),
{
    assert(4u32 & 2u32 == 0) by (bit_vector);
}

} // verus!
