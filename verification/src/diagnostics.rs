//! Checks of the keyboard's firmware, run by hand.
use vstd::prelude::*;

verus! {

/// The layer that a probe switches to.
pub const PROBE_LAYER: u8 = 1;

/// A step of a probe.
pub enum ProbeStep {
    /// Read the keyboard's layer.
    Read,
    /// Switch to this layer, then read the keyboard's layer.
    SwitchAndRead(u8),
    /// The keyboard does not do what it should.
    Failed(String),
    /// The keyboard does what it should, and is back on its layer.
    Passed,
}

/// The step of a probe that follows after these readings of the layer: the
/// keyboard is switched to the probe's layer and back, and must follow.
pub open spec fn probes(readings: Seq<u8>, step: ProbeStep) -> bool {
    if readings.len() == 0 {
        step is Read
    } else if readings.len() == 1 {
        step == ProbeStep::SwitchAndRead(PROBE_LAYER)
    } else if readings[1] != PROBE_LAYER {
        step matches ProbeStep::Failed(m) && m@ == "Keyboard did not switch to layer 1"@
    } else if readings.len() == 2 {
        step == ProbeStep::SwitchAndRead(readings[0])
    } else if readings[2] != readings[0] {
        step matches ProbeStep::Failed(m) && m@ == "Restore failed"@
    } else {
        step is Passed
    }
}

/// The step of a probe that follows after these readings of the layer.
pub fn probe_step(readings: &[u8]) -> (step: ProbeStep)
    ensures
        probes(readings@, step),
{
    if readings.len() == 0 {
        ProbeStep::Read
    } else if readings.len() == 1 {
        ProbeStep::SwitchAndRead(PROBE_LAYER)
    } else if readings[1] != PROBE_LAYER {
        ProbeStep::Failed("Keyboard did not switch to layer 1".to_owned())
    } else if readings.len() == 2 {
        ProbeStep::SwitchAndRead(readings[0])
    } else if readings[2] != readings[0] {
        ProbeStep::Failed("Restore failed".to_owned())
    } else {
        ProbeStep::Passed
    }
}

/// The layers to show one after the other: the first four, then the one the
/// keyboard was on.
pub fn cycle_plan(before: u8) -> (layers: Vec<u8>)
    ensures
        layers@ == seq![1u8, 2u8, 3u8, 4u8, before],
{
    let mut layers: Vec<u8> = Vec::new();
    layers.push(1);
    layers.push(2);
    layers.push(3);
    layers.push(4);
    layers.push(before);
    layers
}

/// A probe that passes leaves the keyboard on the layer it was on, having seen
/// it on the probe's layer in between.
pub proof fn law_passed_probe_restored_the_layer(readings: Seq<u8>, step: ProbeStep)
    requires
        probes(readings, step),
        step is Passed,
    ensures
        readings.len() >= 3,
        readings[1] == PROBE_LAYER,
        readings[2] == readings[0],
{
}

/// A probe reads the layer, switches to layer 1 and reads, switches back to the layer
/// it read first and reads, and judges the two readings after a switch.
pub proof fn law_probe_goes_there_and_back(readings: &[u8], step: ProbeStep)
    requires
        call_ensures(probe_step, (readings,), step),
    ensures
        readings@.len() == 0 <==> step is Read,
        readings@.len() == 1 ==> step == ProbeStep::SwitchAndRead(1),
        readings@.len() >= 2 && readings@[1] != 1 <==> (step matches ProbeStep::Failed(m) && m@
            == "Keyboard did not switch to layer 1"@),
        readings@.len() == 2 && readings@[1] == 1 ==> step == ProbeStep::SwitchAndRead(
            readings@[0],
        ),
        readings@.len() > 2 && readings@[1] == 1 && readings@[2] != readings@[0] ==> (
        step matches ProbeStep::Failed(m) && m@ == "Restore failed"@),
        step is Passed <==> readings@.len() > 2 && readings@[1] == 1 && readings@[2] == readings@[0],
{
    reveal_strlit("Keyboard did not switch to layer 1");
    reveal_strlit("Restore failed");
    assert("Keyboard did not switch to layer 1"@.len() != "Restore failed"@.len());
}

/// The layers shown count up from 1 to 4, and the last is the one before.
pub proof fn law_cycle_ends_where_it_began(before: u8, layers: Vec<u8>, i: int)
    requires
        call_ensures(cycle_plan, (before,), layers),
        0 <= i < 4,
    ensures
        layers@.len() == 5,
        layers@[i] == i + 1,
        layers@.last() == before,
{
}

} // verus!
