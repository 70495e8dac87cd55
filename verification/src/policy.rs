//! The rule that decides whether a change of the pedals is transmitted.
//!
//! Small movements are held back; a movement of more than
//! [`PEDAL_DIFF`] raw steps since the last transmitted value goes out, and
//! so does every release of a pedal to zero, however small the step. A pedal
//! that reaches full scale gets no such treatment.

use vstd::prelude::*;

verus! {

/// The largest pedal movement, in raw steps, that is still held back.
pub const PEDAL_DIFF: u8 = 20;

/// The absolute difference of two bytes.
pub open spec fn distance(a: u8, b: u8) -> int {
    if a > b {
        a - b
    } else {
        b - a
    }
}

/// A pedal moved away from its last transmitted value and is now released.
pub open spec fn released(current: u8, last_sent: u8) -> bool {
    current != last_sent && current == 0
}

/// Whether an update goes out, given the pedal bytes of the report at hand
/// and those that were transmitted last.
pub open spec fn significant(
    first_read: bool,
    gas: u8,
    brake: u8,
    last_gas: u8,
    last_brake: u8,
) -> bool {
    first_read || distance(gas, last_gas) > PEDAL_DIFF || distance(brake, last_brake) > PEDAL_DIFF
        || released(gas, last_gas) || released(brake, last_brake)
}

/// `abs::abs` on two bytes: the larger minus the smaller, which is their
/// absolute difference and never wraps.
#[verifier::external_body]
fn pedal_distance(a: u8, b: u8) -> (d: u8)
    ensures
        d == distance(a, b),
{
    abs::abs(a, b)
}

/// Decides whether the pedal bytes of a report are transmitted.
pub fn is_significant(first_read: bool, gas: u8, brake: u8, last_gas: u8, last_brake: u8) -> (emit:
    bool)
    ensures
        emit == significant(first_read, gas, brake, last_gas, last_brake),
{
    first_read || pedal_distance(gas, last_gas) > PEDAL_DIFF || pedal_distance(brake, last_brake)
        > PEDAL_DIFF || (gas != last_gas && gas == 0) || (brake != last_brake && brake == 0)
}

/// After the first report, an update in which neither pedal is released goes
/// out only on a movement above the threshold: reaching full scale forces
/// nothing.
pub proof fn lemma_only_release_is_forced(gas: u8, brake: u8, last_gas: u8, last_brake: u8)
    requires
        gas != 0,
        brake != 0,
    ensures
        significant(false, gas, brake, last_gas, last_brake) <==> (distance(gas, last_gas) > 20
            || distance(brake, last_brake) > 20),
{
}

/// After the first report, pedals that stand where they were last
/// transmitted are never transmitted again.
pub proof fn lemma_unmoved_is_insignificant(gas: u8, brake: u8)
    ensures
        !significant(false, gas, brake, gas, brake),
{
}

/// The first report is always transmitted, and so is every release.
pub proof fn lemma_first_and_release_are_significant(
    gas: u8,
    brake: u8,
    last_gas: u8,
    last_brake: u8,
)
    ensures
        significant(true, gas, brake, last_gas, last_brake),
        last_gas != 0 ==> significant(false, 0, brake, last_gas, last_brake),
        last_brake != 0 ==> significant(false, gas, 0, last_gas, last_brake),
{
}

} // verus!
