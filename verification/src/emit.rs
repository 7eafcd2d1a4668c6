//! The emission coordinator and the trigger state machine. One emission
//! cycle takes every sampler's outcome plus the refresher's cached block
//! and the clock block, keeps the available blocks in the fixed source
//! order — air quality, network rate, Wi-Fi, CPU, temperature, audio,
//! battery, clock — turns the failures into fault-log entries, and
//! renders one protocol element. A failed sampler costs exactly its own
//! block and one log entry, never the cycle.
use vstd::prelude::*;

use crate::block::SwayBarBlock;
use crate::error::CliError;
use crate::json::snapshot_json;
use crate::text::dec;

verus! {

/// The protocol handshake values: line one of the stream.
pub struct SwayBarApiVersion {
    pub version: u8,
    pub click_events: bool,
}

impl Default for SwayBarApiVersion {
    /// Protocol version one, click events off.
    fn default() -> (r: SwayBarApiVersion)
        ensures
            r.version == 1,
            !r.click_events,
    {
        SwayBarApiVersion { version: 1, click_events: false }
    }
}

/// The header object: version and click-events flag, compact.
pub open spec fn header_json(version: nat, click_events: bool) -> Seq<u8> {
    seq![0x7bu8, 0x22, 0x76, 0x65, 0x72, 0x73, 0x69, 0x6f, 0x6e, 0x22, 0x3a] + dec(version)
        + seq![0x2cu8, 0x22, 0x63, 0x6c, 0x69, 0x63, 0x6b, 0x5f, 0x65, 0x76, 0x65, 0x6e, 0x74,
        0x73, 0x22, 0x3a] + (if click_events {
        crate::json::lit_true()
    } else {
        crate::json::lit_false()
    }) + seq![0x7du8]
}

/// Everything the stream starts with: the header line, then the line
/// opening the never-closed array.
pub fn protocol_prelude(v: &SwayBarApiVersion) -> (r: Vec<u8>)
    ensures
        r@ == header_json(v.version as nat, v.click_events) + seq![0x0au8, 0x5b, 0x0a],
{
    let mut out: Vec<u8> = Vec::new();
    // "{\"version\":"
    let lit1: [u8; 11] = [0x7b, 0x22, 0x76, 0x65, 0x72, 0x73, 0x69, 0x6f, 0x6e, 0x22, 0x3a];
    crate::text::push_bytes(&mut out, lit1.as_slice());
    crate::text::push_dec(&mut out, v.version as u64);
    // ",\"click_events\":"
    let lit2: [u8; 16] = [
        0x2c, 0x22, 0x63, 0x6c, 0x69, 0x63, 0x6b, 0x5f, 0x65, 0x76, 0x65, 0x6e, 0x74, 0x73,
        0x22, 0x3a,
    ];
    crate::text::push_bytes(&mut out, lit2.as_slice());
    if v.click_events {
        let lit_t: [u8; 4] = [0x74, 0x72, 0x75, 0x65];
        crate::text::push_bytes(&mut out, lit_t.as_slice());
    } else {
        let lit_f: [u8; 5] = [0x66, 0x61, 0x6c, 0x73, 0x65];
        crate::text::push_bytes(&mut out, lit_f.as_slice());
    }
    // "}\n[\n"
    let lit3: [u8; 4] = [0x7d, 0x0a, 0x5b, 0x0a];
    crate::text::push_bytes(&mut out, lit3.as_slice());
    assert(out@ =~= header_json(v.version as nat, v.click_events) + seq![0x0au8, 0x5b, 0x0a]);
    out
}

/// The block an optional source contributes.
pub open spec fn opt_blocks(o: Option<SwayBarBlock>) -> Seq<SwayBarBlock> {
    match o {
        Some(b) => seq![b],
        None => Seq::empty(),
    }
}

/// The block a sampler outcome contributes: its block on success,
/// nothing on failure.
pub open spec fn ok_blocks(r: Result<SwayBarBlock, CliError>) -> Seq<SwayBarBlock> {
    match r {
        Ok(b) => seq![b],
        Err(_) => Seq::empty(),
    }
}

/// The block an optional-source sampler outcome contributes.
pub open spec fn okopt_blocks(r: Result<Option<SwayBarBlock>, CliError>) -> Seq<SwayBarBlock> {
    match r {
        Ok(o) => opt_blocks(o),
        Err(_) => Seq::empty(),
    }
}

/// The fault entry a sampler outcome contributes: its error on failure,
/// nothing on success.
pub open spec fn err_faults(r: Result<SwayBarBlock, CliError>) -> Seq<CliError> {
    match r {
        Ok(_) => Seq::empty(),
        Err(e) => seq![e],
    }
}

/// The fault entry an optional-source sampler outcome contributes.
pub open spec fn err_faults_opt(r: Result<Option<SwayBarBlock>, CliError>) -> Seq<CliError> {
    match r {
        Ok(_) => Seq::empty(),
        Err(e) => seq![e],
    }
}

/// The snapshot one cycle shows: the available blocks in the fixed
/// source order, the clock always last.
pub open spec fn snapshot_blocks(
    aqi: Option<SwayBarBlock>,
    rate: Result<SwayBarBlock, CliError>,
    wifi: Result<Option<SwayBarBlock>, CliError>,
    cpu: Result<SwayBarBlock, CliError>,
    temp: Result<Option<SwayBarBlock>, CliError>,
    sound: Result<SwayBarBlock, CliError>,
    battery: Result<Option<SwayBarBlock>, CliError>,
    time: SwayBarBlock,
) -> Seq<SwayBarBlock> {
    opt_blocks(aqi) + ok_blocks(rate) + okopt_blocks(wifi) + ok_blocks(cpu) + okopt_blocks(temp)
        + ok_blocks(sound) + okopt_blocks(battery) + seq![time]
}

/// The fault-log entries of one cycle, one per failed sampler, in the
/// fixed source order.
pub open spec fn cycle_faults(
    rate: Result<SwayBarBlock, CliError>,
    wifi: Result<Option<SwayBarBlock>, CliError>,
    cpu: Result<SwayBarBlock, CliError>,
    temp: Result<Option<SwayBarBlock>, CliError>,
    sound: Result<SwayBarBlock, CliError>,
    battery: Result<Option<SwayBarBlock>, CliError>,
) -> Seq<CliError> {
    err_faults(rate) + err_faults_opt(wifi) + err_faults(cpu) + err_faults_opt(temp)
        + err_faults(sound) + err_faults_opt(battery)
}

/// Append an optional source's block.
fn push_opt(blocks: &mut Vec<SwayBarBlock>, o: Option<SwayBarBlock>)
    ensures
        final(blocks)@ == old(blocks)@ + opt_blocks(o),
{
    let ghost g = o;
    match o {
        Some(b) => blocks.push(b),
        None => {},
    }
    assert(blocks@ =~= old(blocks)@ + opt_blocks(g));
}

/// Append a sampler outcome: its block on success, its error to the
/// fault list on failure.
fn push_outcome(
    blocks: &mut Vec<SwayBarBlock>,
    faults: &mut Vec<CliError>,
    r: Result<SwayBarBlock, CliError>,
)
    ensures
        final(blocks)@ == old(blocks)@ + ok_blocks(r),
        final(faults)@ == old(faults)@ + err_faults(r),
{
    let ghost g = r;
    match r {
        Ok(b) => blocks.push(b),
        Err(e) => faults.push(e),
    }
    assert(blocks@ =~= old(blocks)@ + ok_blocks(g));
    assert(faults@ =~= old(faults)@ + err_faults(g));
}

/// Append an optional-source sampler outcome.
fn push_opt_outcome(
    blocks: &mut Vec<SwayBarBlock>,
    faults: &mut Vec<CliError>,
    r: Result<Option<SwayBarBlock>, CliError>,
)
    ensures
        final(blocks)@ == old(blocks)@ + okopt_blocks(r),
        final(faults)@ == old(faults)@ + err_faults_opt(r),
{
    let ghost g = r;
    match r {
        Ok(Some(b)) => blocks.push(b),
        Ok(None) => {},
        Err(e) => faults.push(e),
    }
    assert(blocks@ =~= old(blocks)@ + okopt_blocks(g));
    assert(faults@ =~= old(faults)@ + err_faults_opt(g));
}

/// Assemble one snapshot from the samplers' outcomes. The blocks keep
/// the fixed source order whatever order the samplers finished in, every
/// successful sampler's block appears, and every failed one yields
/// exactly one fault entry and nothing else.
#[verifier::rlimit(100)]
pub fn assemble_snapshot(
    aqi: Option<SwayBarBlock>,
    rate: Result<SwayBarBlock, CliError>,
    wifi: Result<Option<SwayBarBlock>, CliError>,
    cpu: Result<SwayBarBlock, CliError>,
    temp: Result<Option<SwayBarBlock>, CliError>,
    sound: Result<SwayBarBlock, CliError>,
    battery: Result<Option<SwayBarBlock>, CliError>,
    time: SwayBarBlock,
) -> (r: (Vec<SwayBarBlock>, Vec<CliError>))
    ensures
        r.0@ == snapshot_blocks(aqi, rate, wifi, cpu, temp, sound, battery, time),
        r.1@ == cycle_faults(rate, wifi, cpu, temp, sound, battery),
        r.1@.len() == (if rate is Err {
            1int
        } else {
            0int
        }) + (if wifi is Err {
            1int
        } else {
            0int
        }) + (if cpu is Err {
            1int
        } else {
            0int
        }) + (if temp is Err {
            1int
        } else {
            0int
        }) + (if sound is Err {
            1int
        } else {
            0int
        }) + (if battery is Err {
            1int
        } else {
            0int
        }),
{
    let ghost g_aqi = aqi;
    let ghost g_rate = rate;
    let ghost g_wifi = wifi;
    let ghost g_cpu = cpu;
    let ghost g_temp = temp;
    let ghost g_sound = sound;
    let ghost g_battery = battery;
    let ghost g_time = time;
    let mut blocks: Vec<SwayBarBlock> = Vec::new();
    let mut faults: Vec<CliError> = Vec::new();
    push_opt(&mut blocks, aqi);
    push_outcome(&mut blocks, &mut faults, rate);
    push_opt_outcome(&mut blocks, &mut faults, wifi);
    push_outcome(&mut blocks, &mut faults, cpu);
    push_opt_outcome(&mut blocks, &mut faults, temp);
    push_outcome(&mut blocks, &mut faults, sound);
    push_opt_outcome(&mut blocks, &mut faults, battery);
    blocks.push(time);
    assert(blocks@ =~= snapshot_blocks(g_aqi, g_rate, g_wifi, g_cpu, g_temp, g_sound, g_battery, g_time));
    assert(faults@ =~= cycle_faults(g_rate, g_wifi, g_cpu, g_temp, g_sound, g_battery));
    (blocks, faults)
}

/// One protocol element as the stream carries it: the snapshot array on
/// its own line, then the separating comma.
pub fn emission_bytes(blocks: &Vec<SwayBarBlock>) -> (r: Vec<u8>)
    ensures
        r@ == snapshot_json(blocks@) + seq![0x0au8, 0x2c],
{
    let mut out = crate::json::render_snapshot(blocks);
    out.push(0x0a);
    out.push(0x2c);
    assert(out@ =~= snapshot_json(blocks@) + seq![0x0au8, 0x2c]);
    out
}

/// Run one whole emission cycle on the samplers' outcomes: assemble the
/// snapshot and render the protocol element, handing back the bytes to
/// write and the fault-log entries.
pub fn emit_status(
    aqi: Option<SwayBarBlock>,
    rate: Result<SwayBarBlock, CliError>,
    wifi: Result<Option<SwayBarBlock>, CliError>,
    cpu: Result<SwayBarBlock, CliError>,
    temp: Result<Option<SwayBarBlock>, CliError>,
    sound: Result<SwayBarBlock, CliError>,
    battery: Result<Option<SwayBarBlock>, CliError>,
    time: SwayBarBlock,
) -> (r: (Vec<u8>, Vec<CliError>))
    ensures
        r.0@ == snapshot_json(
            snapshot_blocks(aqi, rate, wifi, cpu, temp, sound, battery, time),
        ) + seq![0x0au8, 0x2c],
        r.1@ == cycle_faults(rate, wifi, cpu, temp, sound, battery),
{
    let (blocks, faults) = assemble_snapshot(aqi, rate, wifi, cpu, temp, sound, battery, time);
    let bytes = emission_bytes(&blocks);
    (bytes, faults)
}

/// The trigger loop's state: at most one emission in flight.
#[derive(Clone, Copy, Debug, PartialEq, Eq, Structural)]
pub enum TriggerState {
    Idle,
    Emitting,
}

/// What reaches the trigger loop: the interval timer, the external wake
/// signal, or the end of the running emission.
#[derive(Clone, Copy, Debug, PartialEq, Eq, Structural)]
pub enum TriggerEvent {
    TimerTick,
    WakeSignal,
    EmissionDone,
}

/// What the loop does in answer: start one emission cycle, or nothing
/// (a trigger that lands while one is in flight is dropped).
#[derive(Clone, Copy, Debug, PartialEq, Eq, Structural)]
pub enum TriggerAction {
    StartEmission,
    Nothing,
}

/// One step of the trigger loop. Only an idle loop starts an emission,
/// so emissions are strictly serialized; a trigger that lands while one
/// is in flight is dropped, never queued.
pub fn trigger_step(state: TriggerState, event: TriggerEvent) -> (r: (
    TriggerState,
    TriggerAction,
))
    ensures
        state is Idle && (event is TimerTick || event is WakeSignal) ==> r
            == (TriggerState::Emitting, TriggerAction::StartEmission),
        state is Emitting && (event is TimerTick || event is WakeSignal) ==> r
            == (TriggerState::Emitting, TriggerAction::Nothing),
        event is EmissionDone ==> r == (TriggerState::Idle, TriggerAction::Nothing),
        r.1 is StartEmission ==> state is Idle && r.0 is Emitting,
{
    match (state, event) {
        (TriggerState::Idle, TriggerEvent::TimerTick) => (
            TriggerState::Emitting,
            TriggerAction::StartEmission,
        ),
        (TriggerState::Idle, TriggerEvent::WakeSignal) => (
            TriggerState::Emitting,
            TriggerAction::StartEmission,
        ),
        (TriggerState::Emitting, TriggerEvent::TimerTick) => (
            TriggerState::Emitting,
            TriggerAction::Nothing,
        ),
        (TriggerState::Emitting, TriggerEvent::WakeSignal) => (
            TriggerState::Emitting,
            TriggerAction::Nothing,
        ),
        (_, TriggerEvent::EmissionDone) => (TriggerState::Idle, TriggerAction::Nothing),
    }
}

} // verus!
