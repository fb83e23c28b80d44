//! The rules by which the host runs the machine: how long a slice of
//! machine time is, what an event from the window does to the machine,
//! when a pause ends, and what the commands of the test mode mean.

use crate::device::{Device, DeviceModel};
use crate::input::GBEvent;
use crate::plugins::{PluginTable, ScriptValue};
use crate::sound::CPU_FREQUENCY;
use vstd::prelude::*;

verus! {

/// Milliseconds of a frame that the host counts with.
pub const FRAME_MILLIS: u32 = 16;

/// Steps that the test mode takes between two looks at its input.
pub const TEST_BATCH: u32 = 1000;

/// Cycles in a slice of machine time: the cycles of the processor in the
/// milliseconds of a frame, rounded to the nearest whole.
pub open spec fn slice_cycles() -> int {
    (CPU_FREQUENCY * FRAME_MILLIS + 500) / 1000
}

pub fn wait_ticks() -> (ticks: u32)
    ensures
        ticks == slice_cycles(),
        ticks == 67109,
{
    ((CPU_FREQUENCY as u64 * FRAME_MILLIS as u64 + 500) / 1000) as u32
}

/// What the thread that runs the machine keeps between steps.
#[derive(Debug, Clone, Copy)]
pub struct Runner {
    /// The machine waits for the clock of the host after every slice.
    pub limit_speed: bool,
    /// Cycles run in the current slice.
    pub ticks: u32,
    /// The plugin that was loaded, if one was.
    pub plugin: Option<PluginTable>,
}

/// What a step of the machine means for the host.
#[derive(Debug, Clone, Copy, PartialEq, Eq, Structural)]
pub struct StepOutcome {
    /// A frame was completed: the picture is to be shown.
    pub frame: bool,
    /// The slice is over: events are to be looked at, and the clock of the
    /// host waited for if the speed is limited.
    pub slice_done: bool,
}

/// What the host is to do about an event.
#[derive(Debug, Clone, Copy, PartialEq, Eq, Structural)]
pub enum RunnerAction {
    Nothing,
    /// Wait until the window says Resume.
    Pause,
    /// Load the plugin from its file and hand it to `plugin_loaded`.
    LoadPlugin,
    /// Run the plugin that was loaded.
    RunPlugin,
    /// Say that no plugin was loaded.
    NoPluginLoaded,
}

impl Runner {
    pub open spec fn initial() -> Runner {
        Runner { limit_speed: true, ticks: 0, plugin: None }
    }

    pub open spec fn wf(self) -> bool {
        self.ticks < slice_cycles()
    }

    pub fn new() -> (r: Runner)
        ensures
            r == Runner::initial(),
            r.wf(),
    {
        Runner { limit_speed: true, ticks: 0, plugin: None }
    }

    /// Lets the machine take one step and counts its cycles towards the
    /// slice. A slice is over when it has run its cycles; what it ran
    /// beyond them counts towards the next.
    pub fn step(&mut self, device: &mut Device) -> (outcome: StepOutcome)
        requires
            old(self).wf(),
            old(device)@.wf(),
            old(device)@.cpu.can_step(),
        ensures
            final(device)@.wf(),
            final(self).wf(),
            outcome.frame == old(device)@.cpu.cycled().mmu.gpu.regs.updated,
            final(device)@ == (DeviceModel {
                cpu: old(device)@.cpu.cycled(),
                ..old(device)@
            }).with_mmu(
                crate::mmu::MmuModel {
                    gpu: old(device)@.cpu.cycled().mmu.gpu.acknowledged(),
                    ..old(device)@.cpu.cycled().mmu
                },
            ),
            ({
                let dots = old(device)@.cpu.stepped().0.mmu.dots(old(device)@.cpu.stepped().1);
                let total = old(self).ticks + dots;
                &&& outcome.slice_done == (total >= slice_cycles())
                &&& final(self).ticks == if dots >= slice_cycles() {
                    0
                } else if total >= slice_cycles() {
                    total - slice_cycles()
                } else {
                    total
                }
                &&& final(self).limit_speed == old(self).limit_speed
                &&& final(self).plugin == old(self).plugin
            }),
    {
        let dots = device.do_cycle();
        let frame = device.check_and_reset_gpu_updated();
        let limit = wait_ticks();
        if dots >= limit {
            self.ticks = 0;
            StepOutcome { frame, slice_done: true }
        } else if self.ticks + dots >= limit {
            self.ticks = self.ticks + dots - limit;
            StepOutcome { frame, slice_done: true }
        } else {
            self.ticks = self.ticks + dots;
            StepOutcome { frame, slice_done: false }
        }
    }

    /// Does what an event from the window asks of the machine, and says
    /// what is left for the host to do. Keys go to the machine; SpeedUp
    /// lifts the limit on the speed and SpeedDown sets it again and brings
    /// the sound back in step.
    pub fn apply_event(&mut self, device: &mut Device, event: GBEvent) -> (action: RunnerAction)
        requires
            old(device)@.wf(),
        ensures
            final(device)@.wf(),
            final(self).ticks == old(self).ticks,
            final(self).plugin == old(self).plugin,
            final(self).limit_speed == match event {
                GBEvent::SpeedUp => false,
                GBEvent::SpeedDown => true,
                _ => old(self).limit_speed,
            },
            final(device)@ == match event {
                GBEvent::KeyUp(key) => old(device)@.with_mmu(
                    old(device)@.cpu.mmu.key_released(key),
                ),
                GBEvent::KeyDown(key) => old(device)@.with_mmu(
                    old(device)@.cpu.mmu.key_pressed(key),
                ),
                GBEvent::SpeedDown => old(device)@.with_mmu(
                    crate::mmu::MmuModel {
                        sound: old(device)@.cpu.mmu.sound.drained(),
                        ..old(device)@.cpu.mmu
                    },
                ),
                _ => old(device)@,
            },
            action == match event {
                GBEvent::Pause => RunnerAction::Pause,
                GBEvent::LoadPlugin => RunnerAction::LoadPlugin,
                GBEvent::RunPlugin => if old(self).plugin is Some {
                    RunnerAction::RunPlugin
                } else {
                    RunnerAction::NoPluginLoaded
                },
                _ => RunnerAction::Nothing,
            },
    {
        match event {
            GBEvent::KeyUp(key) => {
                device.keyup(key);
                RunnerAction::Nothing
            },
            GBEvent::KeyDown(key) => {
                device.keydown(key);
                RunnerAction::Nothing
            },
            GBEvent::SpeedUp => {
                self.limit_speed = false;
                RunnerAction::Nothing
            },
            GBEvent::SpeedDown => {
                self.limit_speed = true;
                device.sync_audio();
                RunnerAction::Nothing
            },
            GBEvent::Pause => RunnerAction::Pause,
            GBEvent::Resume => RunnerAction::Nothing,
            GBEvent::LoadPlugin => RunnerAction::LoadPlugin,
            GBEvent::RunPlugin => {
                if self.plugin.is_some() {
                    RunnerAction::RunPlugin
                } else {
                    RunnerAction::NoPluginLoaded
                }
            },
        }
    }

    /// Keeps the plugin that the host has loaded.
    pub fn plugin_loaded(&mut self, table: PluginTable)
        ensures
            final(self).plugin == Some(table),
            final(self).ticks == old(self).ticks,
            final(self).limit_speed == old(self).limit_speed,
    {
        self.plugin = Some(table);
    }
}

/// Whether a pause ends with what came from the window: with Resume, and
/// when the window is gone, which `None` stands for.
pub fn pause_cpu(event: Option<GBEvent>) -> (ends: bool)
    ensures
        ends == (event is None || event == Some(GBEvent::Resume)),
{
    match event {
        None => true,
        Some(GBEvent::Resume) => true,
        Some(_) => false,
    }
}

/// A command of the test mode.
#[derive(Debug, Clone, Copy, PartialEq, Eq, Structural)]
pub enum TestCommand {
    /// End the program.
    Quit,
    /// Dump the picture.
    Screenshot,
    /// A byte that is no command.
    Unknown(u8),
}

/// The command that a byte of the test mode's input stands for: `q` quits
/// and `s` dumps the picture.
pub fn test_command(byte: u8) -> (c: TestCommand)
    ensures
        c == if byte == 0x71 {
            TestCommand::Quit
        } else if byte == 0x73 {
            TestCommand::Screenshot
        } else {
            TestCommand::Unknown(byte)
        },
{
    if byte == 0x71 {
        TestCommand::Quit
    } else if byte == 0x73 {
        TestCommand::Screenshot
    } else {
        TestCommand::Unknown(byte)
    }
}

/// The machine after `n` steps.
pub open spec fn cycled_times(d: DeviceModel, n: nat) -> DeviceModel
    decreases n,
{
    if n == 0 {
        d
    } else {
        DeviceModel { cpu: cycled_times(d, (n - 1) as nat).cpu.cycled(), ..d }
    }
}

/// Lets the machine take up to `n` steps, and fewer only if it comes to a
/// point where it can take none. Returns the steps taken.
pub fn run_cycles(device: &mut Device, n: u32) -> (done: u32)
    requires
        old(device)@.wf(),
    ensures
        final(device)@.wf(),
        done <= n,
        final(device)@ == cycled_times(old(device)@, done as nat),
        done < n ==> !final(device)@.cpu.can_step(),
        forall|k: nat| k < done ==> (#[trigger] cycled_times(old(device)@, k)).cpu.can_step(),
{
    let mut done: u32 = 0;
    while done < n && device.can_step()
        invariant
            done <= n,
            device@.wf(),
            device@ == cycled_times(old(device)@, done as nat),
            forall|k: nat| k < done ==> (#[trigger] cycled_times(old(device)@, k)).cpu.can_step(),
        decreases n - done,
    {
        device.do_cycle();
        done += 1;
    }
    done
}

/// An address that a plugin gives as a whole number, brought into the
/// sixteen bits of the address space.
pub open spec fn address_of(n: i64) -> u16 {
    (n as int % 0x10000) as u16
}

/// A byte that a plugin gives as a whole number, brought into eight bits.
pub open spec fn byte_of_number(n: i64) -> u8 {
    (n as int % 0x100) as u8
}

fn low_bits(n: i64, modulus: i64) -> (r: i64)
    requires
        modulus == 0x100 || modulus == 0x10000,
    ensures
        r == n as int % modulus as int,
        0 <= r < modulus,
{
    if n >= 0 {
        n % modulus
    } else {
        // a negative number and the number that has its bits inverted,
        // `-n - 1`, add up to all ones
        let inverted = -(n + 1);
        (modulus - 1) - inverted % modulus
    }
}

/// What the plugin function `readbyte` returns for its argument: the byte
/// of the machine at the address that a whole number gives, and nil for
/// any other argument.
pub fn plugin_readbyte(device: &Device, address: &ScriptValue) -> (r: ScriptValue)
    requires
        device@.wf(),
    ensures
        match *address {
            ScriptValue::Integer(a) => r == ScriptValue::Integer(
                device@.cpu.mmu.read(address_of(a)) as i64,
            ),
            _ => r is Nil,
        },
{
    match address {
        ScriptValue::Integer(a) => {
            let byte = device.read_byte(low_bits(*a, 0x10000) as u16);
            ScriptValue::Integer(byte as i64)
        },
        _ => ScriptValue::Nil,
    }
}

/// What the plugin function `writebyte` does with its arguments: it writes
/// the byte to the machine if both are whole numbers and returns nothing;
/// else it leaves the machine alone and returns nil.
pub fn plugin_writebyte(device: &mut Device, address: &ScriptValue, byte: &ScriptValue) -> (r:
    Option<ScriptValue>)
    requires
        old(device)@.wf(),
    ensures
        final(device)@.wf(),
        match (*address, *byte) {
            (ScriptValue::Integer(a), ScriptValue::Integer(b)) => r is None && final(device)@
                == old(device)@.with_mmu(
                old(device)@.cpu.mmu.written(address_of(a), byte_of_number(b)),
            ),
            _ => r == Some(ScriptValue::Nil) && final(device)@ == old(device)@,
        },
{
    match (address, byte) {
        (ScriptValue::Integer(a), ScriptValue::Integer(b)) => {
            device.write_byte(low_bits(*a, 0x10000) as u16, low_bits(*b, 0x100) as u8);
            None
        },
        _ => Some(ScriptValue::Nil),
    }
}

} // verus!
