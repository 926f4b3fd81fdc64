//! TCPM event types and bitfields.
//!
//! [`PortStatusChanged`] holds events related to the overall port state (plug state, power
//! contract, ...), which are processed together. [`PortNotification`] holds message-like events
//! (PD alerts, VDMs, ...) that are processed one at a time: [`PortNotification::next`] hands them
//! out in a fixed order, clearing each one. [`PortPending`] records which ports have pending
//! events.
use vstd::prelude::*;

verus! {

/// Bit `k` of `x` is set.
pub open spec fn flag16(x: u16, k: u16) -> bool {
    (x >> k) & 1u16 == 1u16
}

/// `x` with bit `k` set to `v`.
pub open spec fn with_flag16(x: u16, k: u16, v: bool) -> u16 {
    if v {
        x | (1u16 << k)
    } else {
        x & !(1u16 << k)
    }
}

/// Bit `k` of `x` is set.
pub open spec fn flag32(x: u32, k: u32) -> bool {
    (x >> k) & 1u32 == 1u32
}

/// `x` with bit `k` set to `v`.
pub open spec fn with_flag32(x: u32, k: u32, v: bool) -> u32 {
    if v {
        x | (1u32 << k)
    } else {
        x & !(1u32 << k)
    }
}

fn get_flag16(x: u16, k: u16) -> (r: bool)
    requires
        k < 16,
    ensures
        r == flag16(x, k),
{
    let b = (x >> k) & 1u16;
    assert(b != 0u16 <==> b == 1u16) by (bit_vector)
        requires
            b == (x >> k) & 1u16,
    ;
    b != 0
}

fn set_flag16(x: u16, k: u16, v: bool) -> (r: u16)
    requires
        k < 16,
    ensures
        r == with_flag16(x, k, v),
{
    if v {
        x | (1u16 << k)
    } else {
        x & !(1u16 << k)
    }
}

/// Setting bit `k` to `v` makes bit `k` read `v` and leaves every other bit as it was.
pub proof fn lemma_flag16_set_get(x: u16, k: u16, j: u16, v: bool)
    requires
        k < 16,
        j < 16,
    ensures
        flag16(with_flag16(x, k, v), j) == if j == k {
            v
        } else {
            flag16(x, j)
        },
{
    if v {
        assert(((x | (1u16 << k)) >> j) & 1u16 == 1u16 <==> (j == k || (x >> j) & 1u16 == 1u16))
            by (bit_vector)
            requires
                k < 16,
                j < 16,
        ;
    } else {
        assert(((x & !(1u16 << k)) >> j) & 1u16 == 1u16 <==> (j != k && (x >> j) & 1u16 == 1u16))
            by (bit_vector)
            requires
                k < 16,
                j < 16,
        ;
    }
}

/// A bit of a union is set exactly when it is set in either side.
pub proof fn lemma_flag16_union(a: u16, b: u16, j: u16)
    requires
        j < 16,
    ensures
        flag16(a | b, j) == (flag16(a, j) || flag16(b, j)),
{
    assert(((a | b) >> j) & 1u16 == 1u16 <==> ((a >> j) & 1u16 == 1u16 || (b >> j) & 1u16 == 1u16))
        by (bit_vector)
        requires
            j < 16,
    ;
}

/// No bit of zero is set.
pub proof fn lemma_flag16_none(j: u16)
    requires
        j < 16,
    ensures
        !flag16(0u16, j),
{
    assert((0u16 >> j) & 1u16 != 1u16) by (bit_vector);
}

/// Setting bit `k` to `v` makes bit `k` read `v` and leaves every other bit as it was.
pub proof fn lemma_flag32_set_get(x: u32, k: u32, j: u32, v: bool)
    requires
        k < 32,
        j < 32,
    ensures
        flag32(with_flag32(x, k, v), j) == if j == k {
            v
        } else {
            flag32(x, j)
        },
{
    if v {
        assert(((x | (1u32 << k)) >> j) & 1u32 == 1u32 <==> (j == k || (x >> j) & 1u32 == 1u32))
            by (bit_vector)
            requires
                k < 32,
                j < 32,
        ;
    } else {
        assert(((x & !(1u32 << k)) >> j) & 1u32 == 1u32 <==> (j != k && (x >> j) & 1u32 == 1u32))
            by (bit_vector)
            requires
                k < 32,
                j < 32,
        ;
    }
}

/// A bit of a union is set exactly when it is set in either side.
pub proof fn lemma_flag32_union(a: u32, b: u32, j: u32)
    requires
        j < 32,
    ensures
        flag32(a | b, j) == (flag32(a, j) || flag32(b, j)),
{
    assert(((a | b) >> j) & 1u32 == 1u32 <==> ((a >> j) & 1u32 == 1u32 || (b >> j) & 1u32 == 1u32))
        by (bit_vector)
        requires
            j < 32,
    ;
}

/// A 32-bit word is zero exactly when none of its bits is set.
pub proof fn lemma_flag32_zero(x: u32)
    ensures
        (x == 0) <==> forall|j: u32| j < 32 ==> !flag32(x, j),
{
    assert(x != 0u32 ==> (flag32(x, 0u32) || flag32(x, 1u32) || flag32(x, 2u32) || flag32(x, 3u32) || flag32(x, 4u32) || flag32(x, 5u32) || flag32(x, 6u32) || flag32(x, 7u32) || flag32(x, 8u32) || flag32(x, 9u32) || flag32(x, 10u32) || flag32(x, 11u32) || flag32(x, 12u32) || flag32(x, 13u32) || flag32(x, 14u32) || flag32(x, 15u32) || flag32(x, 16u32) || flag32(x, 17u32) || flag32(x, 18u32) || flag32(x, 19u32) || flag32(x, 20u32) || flag32(x, 21u32) || flag32(x, 22u32) || flag32(x, 23u32) || flag32(x, 24u32) || flag32(x, 25u32) || flag32(x, 26u32) || flag32(x, 27u32) || flag32(x, 28u32) || flag32(x, 29u32) || flag32(x, 30u32) || flag32(x, 31u32))) by (bit_vector);
    assert forall|j: u32| x == 0 && j < 32 implies !flag32(x, j) by {
        assert((0u32 >> j) & 1u32 != 1u32) by (bit_vector);
    }
}

/// Raw bitfield of possible port status events
#[derive(Copy, Clone, Debug, PartialEq, Eq, Default, Structural)]
struct PortStatusChangedRaw(u16);

/// Port status change events, a type-safe wrapper around the raw bitfield.
/// These events are related to the overall port state and typically need to be considered together.
#[derive(Copy, Clone, Debug, PartialEq, Eq, Structural)]
pub struct PortStatusChanged(PortStatusChangedRaw);

impl PortStatusChanged {
    /// The raw event bits (bit 0 plug inserted/removed ... bit 9 patch loaded).
    pub closed spec fn bits(self) -> u16 {
        self.0.0
    }

    /// Create a new value with no pending events
    pub fn none() -> (r: Self)
        ensures
            r.bits() == 0,
    {
        Self(PortStatusChangedRaw(0))
    }

    /// The events pending in either of `self` and `other`.
    pub closed spec fn union_spec(self, other: PortStatusChanged) -> PortStatusChanged {
        PortStatusChanged(PortStatusChangedRaw(self.0.0 | other.0.0))
    }

    /// Returns the union of self and other
    pub fn union(self, other: PortStatusChanged) -> (r: PortStatusChanged)
        ensures
            r == self.union_spec(other),
            r.bits() == self.bits() | other.bits(),
    {
        PortStatusChanged(PortStatusChangedRaw(self.0.0 | other.0.0))
    }

    /// Returns true if a plug was inserted or removed
    pub fn plug_inserted_or_removed(self) -> (r: bool)
        ensures
            r == flag16(self.bits(), 0u16),
    {
        get_flag16(self.0.0, 0u16)
    }

    /// Sets or clears the event that a plug was inserted or removed
    pub fn set_plug_inserted_or_removed(&mut self, value: bool)
        ensures
            final(self).bits() == with_flag16(old(self).bits(), 0u16, value),
    {
        self.0.0 = set_flag16(self.0.0, 0u16, value);
    }

    /// Returns true if a Source Caps message was received
    pub fn source_caps_received(self) -> (r: bool)
        ensures
            r == flag16(self.bits(), 1u16),
    {
        get_flag16(self.0.0, 1u16)
    }

    /// Sets or clears the event that a Source Caps message was received
    pub fn set_source_caps_received(&mut self, value: bool)
        ensures
            final(self).bits() == with_flag16(old(self).bits(), 1u16, value),
    {
        self.0.0 = set_flag16(self.0.0, 1u16, value);
    }

    /// Returns true if a new power contract was established as provider
    pub fn new_power_contract_as_provider(&self) -> (r: bool)
        ensures
            r == flag16(self.bits(), 2u16),
    {
        get_flag16(self.0.0, 2u16)
    }

    /// Sets or clears the event that a new power contract was established as provider
    pub fn set_new_power_contract_as_provider(&mut self, value: bool)
        ensures
            final(self).bits() == with_flag16(old(self).bits(), 2u16, value),
    {
        self.0.0 = set_flag16(self.0.0, 2u16, value);
    }

    /// Returns true if a new power contract was established as consumer
    pub fn new_power_contract_as_consumer(self) -> (r: bool)
        ensures
            r == flag16(self.bits(), 3u16),
    {
        get_flag16(self.0.0, 3u16)
    }

    /// Sets or clears the event that a new power contract was established as consumer
    pub fn set_new_power_contract_as_consumer(&mut self, value: bool)
        ensures
            final(self).bits() == with_flag16(old(self).bits(), 3u16, value),
    {
        self.0.0 = set_flag16(self.0.0, 3u16, value);
    }

    /// Returns true if a sink ready event triggered
    pub fn sink_ready(self) -> (r: bool)
        ensures
            r == flag16(self.bits(), 4u16),
    {
        get_flag16(self.0.0, 4u16)
    }

    /// Sets or clears the event that a sink ready event triggered
    pub fn set_sink_ready(&mut self, value: bool)
        ensures
            final(self).bits() == with_flag16(old(self).bits(), 4u16, value),
    {
        self.0.0 = set_flag16(self.0.0, 4u16, value);
    }

    /// Returns true if a power swap completed
    pub fn power_swap_completed(self) -> (r: bool)
        ensures
            r == flag16(self.bits(), 5u16),
    {
        get_flag16(self.0.0, 5u16)
    }

    /// Sets or clears the event that a power swap completed
    pub fn set_power_swap_completed(&mut self, value: bool)
        ensures
            final(self).bits() == with_flag16(old(self).bits(), 5u16, value),
    {
        self.0.0 = set_flag16(self.0.0, 5u16, value);
    }

    /// Returns true if a data swap completed
    pub fn data_swap_completed(self) -> (r: bool)
        ensures
            r == flag16(self.bits(), 6u16),
    {
        get_flag16(self.0.0, 6u16)
    }

    /// Sets or clears the event that a data swap completed
    pub fn set_data_swap_completed(&mut self, value: bool)
        ensures
            final(self).bits() == with_flag16(old(self).bits(), 6u16, value),
    {
        self.0.0 = set_flag16(self.0.0, 6u16, value);
    }

    /// Returns true if an alternate mode was entered
    pub fn alt_mode_entered(self) -> (r: bool)
        ensures
            r == flag16(self.bits(), 7u16),
    {
        get_flag16(self.0.0, 7u16)
    }

    /// Sets or clears the event that an alternate mode was entered
    pub fn set_alt_mode_entered(&mut self, value: bool)
        ensures
            final(self).bits() == with_flag16(old(self).bits(), 7u16, value),
    {
        self.0.0 = set_flag16(self.0.0, 7u16, value);
    }

    /// Returns true if a PD hard reset happened
    pub fn pd_hard_reset(self) -> (r: bool)
        ensures
            r == flag16(self.bits(), 8u16),
    {
        get_flag16(self.0.0, 8u16)
    }

    /// Sets or clears the event that a PD hard reset happened
    pub fn set_pd_hard_reset(&mut self, value: bool)
        ensures
            final(self).bits() == with_flag16(old(self).bits(), 8u16, value),
    {
        self.0.0 = set_flag16(self.0.0, 8u16, value);
    }

    /// Returns true if a patch was loaded
    pub fn patch_loaded(self) -> (r: bool)
        ensures
            r == flag16(self.bits(), 9u16),
    {
        get_flag16(self.0.0, 9u16)
    }

    /// Sets or clears the event that a patch was loaded
    pub fn set_patch_loaded(&mut self, value: bool)
        ensures
            final(self).bits() == with_flag16(old(self).bits(), 9u16, value),
    {
        self.0.0 = set_flag16(self.0.0, 9u16, value);
    }
}

impl Default for PortStatusChanged {
    /// No pending events, as [`PortStatusChanged::none`]
    fn default() -> (r: Self)
        ensures
            r.bits() == 0,
    {
        Self::none()
    }
}

/// OR on 16-bit words is commutative, associative and idempotent, with zero as identity.
proof fn lemma_or16_laws(x: u16, y: u16, z: u16)
    ensures
        x | y == y | x,
        x | (y | z) == (x | y) | z,
        x | x == x,
        x | 0u16 == x,
{
    assert(x | y == y | x && x | (y | z) == (x | y) | z && x | x == x && x | 0u16 == x) by (bit_vector);
}

/// Status-change events are their bits: two values with the same bits are the same value (so
/// [`PortStatusChanged::default`] and [`PortStatusChanged::none`] agree).
pub proof fn lemma_status_bits_determine(a: PortStatusChanged, b: PortStatusChanged)
    ensures
        a.bits() == b.bits() ==> a == b,
{
}

/// Union of status-change events is commutative, associative and idempotent, has the value with no
/// events as identity, and holds each flag exactly when either side holds it.
pub proof fn lemma_status_union_laws(a: PortStatusChanged, b: PortStatusChanged, c: PortStatusChanged, j: u16)
    requires
        j < 16,
    ensures
        a.union_spec(b) == b.union_spec(a),
        a.union_spec(b.union_spec(c)) == a.union_spec(b).union_spec(c),
        a.union_spec(a) == a,
        b.bits() == 0 ==> a.union_spec(b) == a,
        flag16(a.union_spec(b).bits(), j) == (flag16(a.bits(), j) || flag16(b.bits(), j)),
{
    lemma_or16_laws(a.bits(), b.bits(), c.bits());
    lemma_flag16_union(a.bits(), b.bits(), j);
}

/// Raw bitfield of possible port notification events
#[derive(Copy, Clone, Debug, PartialEq, Eq, Structural)]
struct PortNotificationRaw(u16);

/// Port notification events, a type-safe wrapper around the raw bitfield.
/// These events are unrelated to the overall port state and to each other.
#[derive(Copy, Clone, Debug, PartialEq, Eq, Structural)]
pub struct PortNotification(PortNotificationRaw);

/// Individual VDM notifications
#[derive(Copy, Clone, Debug, PartialEq, Eq, Structural)]
pub enum VdmNotification {
    /// Custom mode entered
    Entered,
    /// Custom mode exited
    Exited,
    /// Attention VDM was received.
    AttentionReceived,
    /// Other VDM was received.
    OtherReceived,
}

/// Individual port notifications
#[derive(Copy, Clone, Debug, PartialEq, Eq, Structural)]
pub enum PortNotificationSingle {
    /// PD alert
    Alert,
    /// VDM
    Vdm(VdmNotification),
    /// Discover mode completed
    DiscoverModeCompleted,
    /// USB mux error recovery
    UsbMuxErrorRecovery,
    /// DP status update
    DpStatusUpdate,
}

/// The next notification to hand out from the bits `x`, with the bit it comes from: the first
/// set one in the order alert, VDM entered, exited, attention, other VDM, discover mode
/// completed, USB mux error recovery, DP status update.
pub open spec fn next_notification(x: u16) -> Option<(u16, PortNotificationSingle)> {
    if flag16(x, 0) {
        Some((0u16, PortNotificationSingle::Alert))
    } else if flag16(x, 1) {
        Some((1u16, PortNotificationSingle::Vdm(VdmNotification::Entered)))
    } else if flag16(x, 2) {
        Some((2u16, PortNotificationSingle::Vdm(VdmNotification::Exited)))
    } else if flag16(x, 3) {
        Some((3u16, PortNotificationSingle::Vdm(VdmNotification::AttentionReceived)))
    } else if flag16(x, 4) {
        Some((4u16, PortNotificationSingle::Vdm(VdmNotification::OtherReceived)))
    } else if flag16(x, 5) {
        Some((5u16, PortNotificationSingle::DiscoverModeCompleted))
    } else if flag16(x, 6) {
        Some((6u16, PortNotificationSingle::UsbMuxErrorRecovery))
    } else if flag16(x, 15) {
        Some((15u16, PortNotificationSingle::DpStatusUpdate))
    } else {
        None
    }
}

impl PortNotification {
    /// The raw event bits (bit 0 alert ... bit 6 USB mux error recovery, bit 15 DP status).
    pub closed spec fn bits(self) -> u16 {
        self.0.0
    }

    /// Create a new PortNotification with no pending events
    pub fn none() -> (r: Self)
        ensures
            r.bits() == 0,
    {
        Self(PortNotificationRaw(0))
    }

    /// The events pending in either of `self` and `other`.
    pub closed spec fn union_spec(self, other: PortNotification) -> PortNotification {
        PortNotification(PortNotificationRaw(self.0.0 | other.0.0))
    }

    /// Returns the union of self and other
    pub fn union(self, other: PortNotification) -> (r: PortNotification)
        ensures
            r == self.union_spec(other),
            r.bits() == self.bits() | other.bits(),
    {
        PortNotification(PortNotificationRaw(self.0.0 | other.0.0))
    }

    /// Returns true if a PD alert was received
    pub fn alert(self) -> (r: bool)
        ensures
            r == flag16(self.bits(), 0u16),
    {
        get_flag16(self.0.0, 0u16)
    }

    /// Sets or clears the event that a PD alert was received
    pub fn set_alert(&mut self, value: bool)
        ensures
            final(self).bits() == with_flag16(old(self).bits(), 0u16, value),
    {
        self.0.0 = set_flag16(self.0.0, 0u16, value);
    }

    /// Returns true if a user SVID mode was entered
    pub fn custom_mode_entered(self) -> (r: bool)
        ensures
            r == flag16(self.bits(), 1u16),
    {
        get_flag16(self.0.0, 1u16)
    }

    /// Sets or clears the event that a user SVID mode was entered
    pub fn set_custom_mode_entered(&mut self, value: bool)
        ensures
            final(self).bits() == with_flag16(old(self).bits(), 1u16, value),
    {
        self.0.0 = set_flag16(self.0.0, 1u16, value);
    }

    /// Returns true if a user SVID mode was exited
    pub fn custom_mode_exited(self) -> (r: bool)
        ensures
            r == flag16(self.bits(), 2u16),
    {
        get_flag16(self.0.0, 2u16)
    }

    /// Sets or clears the event that a user SVID mode was exited
    pub fn set_custom_mode_exited(&mut self, value: bool)
        ensures
            final(self).bits() == with_flag16(old(self).bits(), 2u16, value),
    {
        self.0.0 = set_flag16(self.0.0, 2u16, value);
    }

    /// Returns true if a user SVID attention VDM was received
    pub fn custom_mode_attention_received(self) -> (r: bool)
        ensures
            r == flag16(self.bits(), 3u16),
    {
        get_flag16(self.0.0, 3u16)
    }

    /// Sets or clears the event that a user SVID attention VDM was received
    pub fn set_custom_mode_attention_received(&mut self, value: bool)
        ensures
            final(self).bits() == with_flag16(old(self).bits(), 3u16, value),
    {
        self.0.0 = set_flag16(self.0.0, 3u16, value);
    }

    /// Returns true if another user SVID VDM was received
    pub fn custom_mode_other_vdm_received(self) -> (r: bool)
        ensures
            r == flag16(self.bits(), 4u16),
    {
        get_flag16(self.0.0, 4u16)
    }

    /// Sets or clears the event that another user SVID VDM was received
    pub fn set_custom_mode_other_vdm_received(&mut self, value: bool)
        ensures
            final(self).bits() == with_flag16(old(self).bits(), 4u16, value),
    {
        self.0.0 = set_flag16(self.0.0, 4u16, value);
    }

    /// Returns true if discover mode completed
    pub fn discover_mode_completed(self) -> (r: bool)
        ensures
            r == flag16(self.bits(), 5u16),
    {
        get_flag16(self.0.0, 5u16)
    }

    /// Sets or clears the event that discover mode completed
    pub fn set_discover_mode_completed(&mut self, value: bool)
        ensures
            final(self).bits() == with_flag16(old(self).bits(), 5u16, value),
    {
        self.0.0 = set_flag16(self.0.0, 5u16, value);
    }

    /// Returns true if USB mux error recovery happened
    pub fn usb_mux_error_recovery(self) -> (r: bool)
        ensures
            r == flag16(self.bits(), 6u16),
    {
        get_flag16(self.0.0, 6u16)
    }

    /// Sets or clears the event that USB mux error recovery happened
    pub fn set_usb_mux_error_recovery(&mut self, value: bool)
        ensures
            final(self).bits() == with_flag16(old(self).bits(), 6u16, value),
    {
        self.0.0 = set_flag16(self.0.0, 6u16, value);
    }

    /// Returns true if a DP status update was received
    pub fn dp_status_update(self) -> (r: bool)
        ensures
            r == flag16(self.bits(), 15u16),
    {
        get_flag16(self.0.0, 15u16)
    }

    /// Sets or clears the event that a DP status update was received
    pub fn set_dp_status_update(&mut self, value: bool)
        ensures
            final(self).bits() == with_flag16(old(self).bits(), 15u16, value),
    {
        self.0.0 = set_flag16(self.0.0, 15u16, value);
    }

    /// Hand out the next pending notification and clear it, or `None` when none is pending.
    pub fn next(&mut self) -> (r: Option<PortNotificationSingle>)
        ensures
            match next_notification(old(self).bits()) {
                Some((k, n)) => r == Some(n) && final(self).bits() == with_flag16(old(self).bits(), k, false),
                None => r is None && final(self).bits() == old(self).bits(),
            },
    {
        if self.alert() {
            self.set_alert(false);
            Some(PortNotificationSingle::Alert)
        } else if self.custom_mode_entered() {
            self.set_custom_mode_entered(false);
            Some(PortNotificationSingle::Vdm(VdmNotification::Entered))
        } else if self.custom_mode_exited() {
            self.set_custom_mode_exited(false);
            Some(PortNotificationSingle::Vdm(VdmNotification::Exited))
        } else if self.custom_mode_attention_received() {
            self.set_custom_mode_attention_received(false);
            Some(PortNotificationSingle::Vdm(VdmNotification::AttentionReceived))
        } else if self.custom_mode_other_vdm_received() {
            self.set_custom_mode_other_vdm_received(false);
            Some(PortNotificationSingle::Vdm(VdmNotification::OtherReceived))
        } else if self.discover_mode_completed() {
            self.set_discover_mode_completed(false);
            Some(PortNotificationSingle::DiscoverModeCompleted)
        } else if self.usb_mux_error_recovery() {
            self.set_usb_mux_error_recovery(false);
            Some(PortNotificationSingle::UsbMuxErrorRecovery)
        } else if self.dp_status_update() {
            self.set_dp_status_update(false);
            Some(PortNotificationSingle::DpStatusUpdate)
        } else {
            None
        }
    }
}

/// Handing out a notification clears exactly its bit, so it is not handed out again: the bit
/// reads clear afterwards and every other bit is unchanged.
pub proof fn lemma_next_clears_only_its_bit(x: u16, j: u16)
    requires
        next_notification(x) is Some,
        j < 16,
    ensures
        ({
            let k = next_notification(x).unwrap().0;
            &&& !flag16(with_flag16(x, k, false), j) || j != k
            &&& j != k ==> flag16(with_flag16(x, k, false), j) == flag16(x, j)
        }),
{
    let k = next_notification(x).unwrap().0;
    lemma_flag16_set_get(x, k, j, false);
}

/// Notification events are their bits: two values with the same bits are the same value.
pub proof fn lemma_notification_bits_determine(a: PortNotification, b: PortNotification)
    ensures
        a.bits() == b.bits() ==> a == b,
{
}

/// Union of notification events is commutative, associative and idempotent, has the value with no
/// events as identity, and holds each flag exactly when either side holds it.
pub proof fn lemma_notification_union_laws(a: PortNotification, b: PortNotification, c: PortNotification, j: u16)
    requires
        j < 16,
    ensures
        a.union_spec(b) == b.union_spec(a),
        a.union_spec(b.union_spec(c)) == a.union_spec(b).union_spec(c),
        a.union_spec(a) == a,
        b.bits() == 0 ==> a.union_spec(b) == a,
        flag16(a.union_spec(b).bits(), j) == (flag16(a.bits(), j) || flag16(b.bits(), j)),
{
    lemma_or16_laws(a.bits(), b.bits(), c.bits());
    lemma_flag16_union(a.bits(), b.bits(), j);
}

/// Overall port event type
#[derive(Copy, Clone, Debug, PartialEq, Eq, Structural)]
pub struct PortEvent {
    /// Port status change events
    pub status: PortStatusChanged,
    /// Port notification events
    pub notification: PortNotification,
}

impl PortEvent {
    /// Creates a new PortEvent with no pending events
    pub fn none() -> (r: Self)
        ensures
            r.status.bits() == 0,
            r.notification.bits() == 0,
    {
        Self { status: PortStatusChanged::none(), notification: PortNotification::none() }
    }

    /// The events pending in either of `self` and `other`, field by field.
    pub open spec fn union_spec(self, other: PortEvent) -> PortEvent {
        PortEvent {
            status: self.status.union_spec(other.status),
            notification: self.notification.union_spec(other.notification),
        }
    }

    /// Returns the union of self and other
    pub fn union(self, other: PortEvent) -> (r: PortEvent)
        ensures
            r == self.union_spec(other),
            r.status.bits() == self.status.bits() | other.status.bits(),
            r.notification.bits() == self.notification.bits() | other.notification.bits(),
    {
        PortEvent {
            status: self.status.union(other.status),
            notification: self.notification.union(other.notification),
        }
    }
}

impl Default for PortEvent {
    fn default() -> (r: Self)
        ensures
            r.status.bits() == 0,
            r.notification.bits() == 0,
    {
        Self::none()
    }
}

/// Union of port events is taken field by field, so it is commutative, associative and
/// idempotent, and has the event with no pending status changes or notifications as identity.
pub proof fn lemma_event_union_laws(a: PortEvent, b: PortEvent, c: PortEvent)
    ensures
        a.union_spec(b) == b.union_spec(a),
        a.union_spec(b.union_spec(c)) == a.union_spec(b).union_spec(c),
        a.union_spec(a) == a,
        b.status.bits() == 0 && b.notification.bits() == 0 ==> a.union_spec(b) == a,
{
    lemma_status_union_laws(a.status, b.status, c.status, 0);
    lemma_notification_union_laws(a.notification, b.notification, c.notification, 0);
}

impl From<PortStatusChanged> for PortEvent {
    fn from(status: PortStatusChanged) -> (r: Self)
        ensures
            r.status == status,
            r.notification.bits() == 0,
    {
        Self { status, notification: PortNotification::none() }
    }
}

impl vstd::std_specs::convert::FromSpecImpl<PortStatusChanged> for PortEvent {
    open spec fn obeys_from_spec() -> bool {
        true
    }

    closed spec fn from_spec(status: PortStatusChanged) -> Self {
        PortEvent { status, notification: PortNotification(PortNotificationRaw(0)) }
    }
}

impl From<PortNotification> for PortEvent {
    fn from(notification: PortNotification) -> (r: Self)
        ensures
            r.notification == notification,
            r.status.bits() == 0,
    {
        Self { status: PortStatusChanged::none(), notification }
    }
}

impl vstd::std_specs::convert::FromSpecImpl<PortNotification> for PortEvent {
    open spec fn obeys_from_spec() -> bool {
        true
    }

    closed spec fn from_spec(notification: PortNotification) -> Self {
        PortEvent { status: PortStatusChanged(PortStatusChangedRaw(0)), notification }
    }
}

/// Number of ports a [`PortPending`] can track.
pub const PORT_PENDING_BITS: usize = 32;

/// Pending port events: bit `i` set means port `i` has pending events.
///
/// This type works using usize to allow use with both global and local port IDs.
#[derive(Copy, Clone, Debug, PartialEq, Eq, Structural)]
pub struct PortPending(u32);

/// The first pending port at or after `i`.
pub open spec fn first_pending_from(x: u32, i: int) -> Option<int>
    decreases 32 - i,
{
    if i < 0 || i >= 32 {
        None
    } else if flag32(x, i as u32) {
        Some(i)
    } else {
        first_pending_from(x, i + 1)
    }
}

impl PortPending {
    /// The raw pending bits.
    pub closed spec fn bits(self) -> u32 {
        self.0
    }

    /// Creates a new PortPending with no pending ports
    pub fn none() -> (r: Self)
        ensures
            r.bits() == 0,
    {
        Self(0)
    }

    /// Returns true if there are no pending ports
    pub fn is_none(&self) -> (r: bool)
        ensures
            r == (self.bits() == 0),
    {
        self.0 == 0
    }

    /// Marks the given port as pending
    pub fn pend_port(&mut self, port: usize)
        requires
            port < 32,
        ensures
            final(self).bits() == with_flag32(old(self).bits(), port as u32, true),
    {
        self.0 = self.0 | (1u32 << (port as u32));
    }

    /// Marks every port of `ports` as pending
    pub fn pend_ports(&mut self, ports: &[usize])
        requires
            forall|i: int| 0 <= i < ports@.len() ==> ports@[i] < 32,
        ensures
            forall|j: u32| j < 32 ==> flag32(final(self).bits(), j) == (flag32(old(self).bits(), j)
                || exists|i: int| 0 <= i < ports@.len() && ports@[i] == j),
    {
        let mut k: usize = 0;
        while k < ports.len()
            invariant
                0 <= k <= ports@.len(),
                forall|i: int| 0 <= i < ports@.len() ==> ports@[i] < 32,
                forall|j: u32| j < 32 ==> flag32(self.bits(), j) == (flag32(old(self).bits(), j)
                    || exists|i: int| 0 <= i < k && ports@[i] == j),
            decreases ports@.len() - k,
        {
            let ghost before = self.bits();
            let port = ports[k];
            self.pend_port(port);
            proof {
                assert forall|j: u32| j < 32 implies flag32(self.bits(), j) == (flag32(old(self).bits(), j)
                    || exists|i: int| 0 <= i < k + 1 && ports@[i] == j) by {
                    lemma_flag32_set_get(before, port as u32, j, true);
                    if j == port as u32 {
                        assert(ports@[k as int] == j);
                    } else {
                        if exists|i: int| 0 <= i < k + 1 && ports@[i] == j {
                            let i = choose|i: int| 0 <= i < k + 1 && ports@[i] == j;
                            assert(i < k);
                        }
                    }
                }
            }
            k = k + 1;
        }
    }

    /// Clears the pending status of the given port
    pub fn clear_port(&mut self, port: usize)
        requires
            port < 32,
        ensures
            final(self).bits() == with_flag32(old(self).bits(), port as u32, false),
    {
        self.0 = self.0 & !(1u32 << (port as u32));
    }

    /// Returns true if the given port is pending
    pub fn is_pending(&self, port: usize) -> (r: bool)
        requires
            port < 32,
        ensures
            r == flag32(self.bits(), port as u32),
    {
        let x: u32 = self.0;
        let k: u32 = port as u32;
        let b: u32 = (x >> k) & 1u32;
        assert(b != 0u32 <==> b == 1u32) by (bit_vector)
            requires
                b == (x >> k) & 1u32,
        ;
        b != 0
    }

    /// Returns a combination of the current pending ports and other
    pub fn union(&self, other: PortPending) -> (r: PortPending)
        ensures
            r.bits() == self.bits() | other.bits(),
    {
        PortPending(self.0 | other.0)
    }

    /// Returns the number of ports tracked (the number of bits in Self)
    #[allow(clippy::len_without_is_empty)]
    pub fn len(&self) -> (r: usize)
        ensures
            r == 32,
    {
        PORT_PENDING_BITS
    }

    /// A value with exactly the ports of `ports` pending
    pub fn from_iter(ports: &[usize]) -> (r: Self)
        requires
            forall|i: int| 0 <= i < ports@.len() ==> ports@[i] < 32,
        ensures
            forall|j: u32| j < 32 ==> flag32(r.bits(), j) == exists|i: int| 0 <= i < ports@.len() && ports@[i] == j,
    {
        let mut flags = PortPending::none();
        proof {
            assert forall|j: u32| j < 32 implies !flag32(0u32, j) by {
                assert((0u32 >> j) & 1u32 != 1u32) by (bit_vector);
            }
        }
        flags.pend_ports(ports);
        flags
    }

    /// An iterator over the pending ports, in increasing order
    pub fn into_iter(self) -> (r: PortPendingIter)
        ensures
            r.flags() == self,
            r.index() == 0,
    {
        PortPendingIter { flags: self, index: 0 }
    }
}

impl From<PortPending> for u32 {
    fn from(flags: PortPending) -> (r: Self)
        ensures
            r == flags.bits(),
    {
        flags.0
    }
}

impl vstd::std_specs::convert::FromSpecImpl<PortPending> for u32 {
    open spec fn obeys_from_spec() -> bool {
        true
    }

    open spec fn from_spec(flags: PortPending) -> Self {
        flags.bits()
    }
}

/// An iterator over the pending port event flags
#[derive(Copy, Clone)]
pub struct PortPendingIter {
    /// The flags being iterated over
    flags: PortPending,
    /// The current index in the flags
    index: usize,
}

impl PortPendingIter {
    /// The ports not handed out yet.
    pub closed spec fn flags(self) -> PortPending {
        self.flags
    }

    /// The next index to look at.
    pub closed spec fn index(self) -> int {
        self.index as int
    }

    /// The next pending port, cleared from the remaining flags, or `None` when none is left.
    pub fn next(&mut self) -> (r: Option<usize>)
        ensures
            match first_pending_from(old(self).flags().bits(), old(self).index()) {
                Some(p) => r == Some(p as usize) && final(self).index() == p + 1
                    && final(self).flags().bits() == with_flag32(old(self).flags().bits(), p as u32, false),
                None => r is None && final(self).flags() == old(self).flags() && final(self).index() == if old(
                    self,
                ).index() < 32 {
                    32
                } else {
                    old(self).index()
                },
            },
    {
        while self.index < self.flags.len()
            invariant
                first_pending_from(old(self).flags().bits(), old(self).index()) == first_pending_from(
                    self.flags.bits(),
                    self.index as int,
                ),
                self.flags == old(self).flags(),
                old(self).index() <= self.index,
                old(self).index() < 32 ==> self.index <= 32,
                old(self).index() >= 32 ==> self.index == old(self).index(),
            decreases 32 - self.index,
        {
            let port_index = self.index;
            self.index = self.index + 1;
            if self.flags.is_pending(port_index) {
                self.flags.clear_port(port_index);
                return Some(port_index);
            }
        }
        None
    }
}

} // verus!
