//! The whole machine, as the host sees it.

use crate::cpu::{Cpu, CpuModel};
use crate::gbmode::GbMode;
use crate::keypad::KeypadKey;
use crate::mbc::header::{header_fault, title, title_text, CartridgeError, CGB_FLAG};
use crate::mbc::{Cartridge, CartridgeModel, MbcState};
use crate::mmu::{Mmu, MmuModel};
use crate::serial::SerialModel;
use crate::StrResult;
use vstd::prelude::*;

verus! {

/// Microseconds that a frame lasts: the machine shows about 59.7 frames in
/// a second.
pub const FRAME_DURATION_MICROS: u32 = 16750;

pub struct Device {
    pub cpu: Cpu,
    /// A printer is on the serial port.
    pub printer: bool,
}

/// The machine as a value.
pub struct DeviceModel {
    pub cpu: CpuModel,
    pub printer: bool,
}

impl View for Device {
    type V = DeviceModel;

    open spec fn view(&self) -> DeviceModel {
        DeviceModel { cpu: self.cpu@, printer: self.printer }
    }
}

/// The values that the registers hold when the program of a cartridge
/// starts, in the order in which they are written.
pub open spec fn boot_writes() -> Seq<(u16, u8)> {
    seq![
        (0xFF05u16, 0x00u8),
        (0xFF06u16, 0x00u8),
        (0xFF07u16, 0x00u8),
        (0xFF26u16, 0xF1u8),
        (0xFF10u16, 0x80u8),
        (0xFF11u16, 0xBFu8),
        (0xFF12u16, 0xF3u8),
        (0xFF14u16, 0xBFu8),
        (0xFF16u16, 0x3Fu8),
        (0xFF17u16, 0x00u8),
        (0xFF19u16, 0xBFu8),
        (0xFF1Au16, 0x7Fu8),
        (0xFF1Bu16, 0xFFu8),
        (0xFF1Cu16, 0x9Fu8),
        (0xFF1Eu16, 0xBFu8),
        (0xFF20u16, 0xFFu8),
        (0xFF21u16, 0x00u8),
        (0xFF22u16, 0x00u8),
        (0xFF23u16, 0xBFu8),
        (0xFF24u16, 0x77u8),
        (0xFF25u16, 0xF3u8),
        (0xFF40u16, 0x91u8),
        (0xFF42u16, 0x00u8),
        (0xFF43u16, 0x00u8),
        (0xFF45u16, 0x00u8),
        (0xFF47u16, 0xFCu8),
        (0xFF48u16, 0xFFu8),
        (0xFF49u16, 0xFFu8),
        (0xFF4Au16, 0x00u8),
        (0xFF4Bu16, 0x00u8),
    ]
}

/// The machine after the first `n` of `writes` were made.
pub open spec fn written_all(m: MmuModel, writes: Seq<(u16, u8)>, n: int) -> MmuModel
    decreases n,
{
    if n <= 0 {
        m
    } else {
        written_all(m, writes, n - 1).written(writes[n - 1].0, writes[n - 1].1)
    }
}

/// The machine that runs the cartridge: the colour machine for a cartridge
/// whose header says it knows it, and for others the colour machine as it
/// runs cartridges of the monochrome one; or, where the host insists, the
/// monochrome machine.
pub open spec fn machine_for(image: Seq<u8>, classic: bool) -> GbMode {
    if classic {
        GbMode::Classic
    } else if image[CGB_FLAG as int] >= 0x80 {
        GbMode::Color
    } else {
        GbMode::ColorAsClassic
    }
}

impl DeviceModel {
    pub open spec fn wf(self) -> bool {
        self.cpu.wf()
    }

    /// The machine when the program of the cartridge with the image
    /// `image` starts.
    pub open spec fn started(image: Seq<u8>, classic: bool) -> DeviceModel {
        DeviceModel {
            cpu: CpuModel::initial(
                written_all(
                    MmuModel::blank(
                        CartridgeModel::plugged_in(image),
                        machine_for(image, classic),
                    ),
                    boot_writes(),
                    boot_writes().len() as int,
                ),
            ),
            printer: false,
        }
    }

    pub open spec fn with_mmu(self, mmu: MmuModel) -> DeviceModel {
        DeviceModel { cpu: CpuModel { mmu, ..self.cpu }, ..self }
    }

    /// The machine with the serial port tapped or not.
    pub open spec fn tapped(self, on: bool) -> DeviceModel {
        self.with_mmu(
            MmuModel { serial: SerialModel { tapped: on, ..self.cpu.mmu.serial }, ..self.cpu.mmu },
        )
    }
}

impl Device {
    fn boot(mmu: &mut Mmu)
        requires
            old(mmu)@.wf(),
        ensures
            final(mmu)@ == written_all(old(mmu)@, boot_writes(), boot_writes().len() as int),
            final(mmu)@.wf(),
    {
        let writes: [(u16, u8); 30] = [
            (0xFF05, 0x00),
            (0xFF06, 0x00),
            (0xFF07, 0x00),
            (0xFF26, 0xF1),
            (0xFF10, 0x80),
            (0xFF11, 0xBF),
            (0xFF12, 0xF3),
            (0xFF14, 0xBF),
            (0xFF16, 0x3F),
            (0xFF17, 0x00),
            (0xFF19, 0xBF),
            (0xFF1A, 0x7F),
            (0xFF1B, 0xFF),
            (0xFF1C, 0x9F),
            (0xFF1E, 0xBF),
            (0xFF20, 0xFF),
            (0xFF21, 0x00),
            (0xFF22, 0x00),
            (0xFF23, 0xBF),
            (0xFF24, 0x77),
            (0xFF25, 0xF3),
            (0xFF40, 0x91),
            (0xFF42, 0x00),
            (0xFF43, 0x00),
            (0xFF45, 0x00),
            (0xFF47, 0xFC),
            (0xFF48, 0xFF),
            (0xFF49, 0xFF),
            (0xFF4A, 0x00),
            (0xFF4B, 0x00),
        ];
        assert(writes@ =~= boot_writes());
        let mut i: usize = 0;
        while i < 30
            invariant
                i <= 30,
                writes@ == boot_writes(),
                mmu@.wf(),
                mmu@ == written_all(old(mmu)@, boot_writes(), i as int),
            decreases 30 - i,
        {
            let (a, v) = writes[i];
            mmu.wb(a, v);
            i += 1;
        }
    }

    fn start(image: Vec<u8>, skip_checksum: bool, classic: bool) -> (r: Result<
        Device,
        &'static str,
    >)
        ensures
            match header_fault(image@, skip_checksum) {
                Some(e) => r matches Err(msg) && msg@ == e.text(),
                None => r matches Ok(d) && d@ == DeviceModel::started(image@, classic) && d@.wf(),
            },
    {
        let ghost bytes = image@;
        let flag: u8 = if image.len() > CGB_FLAG {
            image[CGB_FLAG]
        } else {
            0
        };
        match Cartridge::load(image, skip_checksum) {
            Err(e) => Err(e.message()),
            Ok(cart) => {
                let gbmode = if classic {
                    GbMode::Classic
                } else if flag >= 0x80 {
                    GbMode::Color
                } else {
                    GbMode::ColorAsClassic
                };
                let mut mmu = Mmu::new(cart, gbmode);
                Self::boot(&mut mmu);
                Ok(Device { cpu: Cpu::new(mmu), printer: false })
            },
        }
    }

    /// The monochrome machine with the cartridge of the image `image`.
    /// Fails, with the reason in words, if the header of the image is not
    /// accepted; `skip_checksum` lets a wrong header checksum pass.
    pub fn new(image: Vec<u8>, skip_checksum: bool) -> (r: StrResult<Device>)
        ensures
            match header_fault(image@, skip_checksum) {
                Some(e) => r matches Err(msg) && msg@ == e.text(),
                None => r matches Ok(d) && d@ == DeviceModel::started(image@, true) && d@.wf(),
            },
    {
        Self::start(image, skip_checksum, true)
    }

    /// The colour machine with the cartridge of the image `image`.
    pub fn new_cgb(image: Vec<u8>, skip_checksum: bool) -> (r: StrResult<Device>)
        ensures
            match header_fault(image@, skip_checksum) {
                Some(e) => r matches Err(msg) && msg@ == e.text(),
                None => r matches Ok(d) && d@ == DeviceModel::started(image@, false) && d@.wf(),
            },
    {
        Self::start(image, skip_checksum, false)
    }

    /// Whether the machine can take a step: the processor is not about to
    /// execute an opcode that stands for no instruction.
    pub fn can_step(&self) -> (r: bool)
        requires
            self@.wf(),
        ensures
            r == self@.cpu.can_step(),
    {
        self.cpu.can_step()
    }

    /// Takes one step of the processor and lets the rest of the machine
    /// catch up. Returns the time that passed, in cycles of picture and
    /// sound.
    pub fn do_cycle(&mut self) -> (dots: u32)
        requires
            old(self)@.wf(),
            old(self)@.cpu.can_step(),
        ensures
            final(self)@ == (DeviceModel { cpu: old(self)@.cpu.cycled(), ..old(self)@ }),
            dots == old(self)@.cpu.stepped().0.mmu.dots(old(self)@.cpu.stepped().1),
            final(self)@.wf(),
    {
        self.cpu.do_cycle()
    }

    /// Whether a frame was completed since this was last asked.
    pub fn check_and_reset_gpu_updated(&mut self) -> (r: bool)
        requires
            old(self)@.wf(),
        ensures
            r == old(self)@.cpu.mmu.gpu.regs.updated,
            final(self)@ == old(self)@.with_mmu(
                MmuModel { gpu: old(self)@.cpu.mmu.gpu.acknowledged(), ..old(self)@.cpu.mmu },
            ),
            final(self)@.wf(),
    {
        reveal(MmuModel::wf);
        self.cpu.mmu.gpu.check_and_reset_updated()
    }

    /// The picture: 144 lines of 160 points, each point a byte of red, of
    /// green and of blue.
    pub fn get_gpu_data(&self) -> (data: &Vec<u8>)
        ensures
            data@ == self@.cpu.mmu.gpu.data,
    {
        &self.cpu.mmu.gpu.data
    }

    pub fn keydown(&mut self, key: KeypadKey)
        requires
            old(self)@.wf(),
        ensures
            final(self)@ == old(self)@.with_mmu(old(self)@.cpu.mmu.key_pressed(key)),
            final(self)@.wf(),
    {
        self.cpu.mmu.keydown(key);
    }

    pub fn keyup(&mut self, key: KeypadKey)
        requires
            old(self)@.wf(),
        ensures
            final(self)@ == old(self)@.with_mmu(old(self)@.cpu.mmu.key_released(key)),
            final(self)@.wf(),
    {
        self.cpu.mmu.keyup(key);
    }

    /// Makes the machine keep, or no longer keep, the bytes that it sends
    /// over the serial port for the host, which may show them.
    pub fn set_stdout(&mut self, output: bool)
        requires
            old(self)@.wf(),
        ensures
            final(self)@ == old(self)@.tapped(output),
            final(self)@.wf(),
    {
        reveal(MmuModel::wf);
        self.cpu.mmu.serial.set_tapped(output);
    }

    /// Puts a printer on the serial port: the bytes sent are kept for it.
    pub fn attach_printer(&mut self)
        requires
            old(self)@.wf(),
        ensures
            final(self)@ == (DeviceModel { printer: true, ..old(self)@.tapped(true) }),
            final(self)@.wf(),
    {
        reveal(MmuModel::wf);
        self.cpu.mmu.serial.set_tapped(true);
        self.printer = true;
    }

    /// Hands over the bytes that the machine has sent over the serial
    /// port, oldest first.
    pub fn take_serial_output(&mut self) -> (bytes: Vec<u8>)
        requires
            old(self)@.wf(),
        ensures
            bytes@ == old(self)@.cpu.mmu.serial.sent,
            final(self)@ == old(self)@.with_mmu(
                MmuModel { serial: old(self)@.cpu.mmu.serial.drained(), ..old(self)@.cpu.mmu },
            ),
            final(self)@.wf(),
    {
        reveal(MmuModel::wf);
        self.cpu.mmu.serial.take_sent()
    }

    /// Makes the machine produce sound, at `sample_rate` samples a second.
    pub fn enable_audio(&mut self, sample_rate: u32)
        requires
            old(self)@.wf(),
        ensures
            final(self)@ == old(self)@.with_mmu(
                MmuModel {
                    sound: old(self)@.cpu.mmu.sound.with_sample_rate(sample_rate),
                    ..old(self)@.cpu.mmu
                },
            ),
            final(self)@.wf(),
    {
        reveal(MmuModel::wf);
        self.cpu.mmu.sound.set_sample_rate(sample_rate);
    }

    /// Hands over the samples made so far, left and right, each from -480
    /// to 480, oldest first.
    pub fn take_audio(&mut self) -> (samples: Vec<(i16, i16)>)
        requires
            old(self)@.wf(),
        ensures
            samples@ == old(self)@.cpu.mmu.sound.samples,
            final(self)@ == old(self)@.with_mmu(
                MmuModel { sound: old(self)@.cpu.mmu.sound.drained(), ..old(self)@.cpu.mmu },
            ),
            final(self)@.wf(),
    {
        reveal(MmuModel::wf);
        self.cpu.mmu.sound.take_samples()
    }

    /// Drops the samples made so far, so that sound and picture are in
    /// step again after the machine ran at full speed.
    pub fn sync_audio(&mut self)
        requires
            old(self)@.wf(),
        ensures
            final(self)@ == old(self)@.with_mmu(
                MmuModel { sound: old(self)@.cpu.mmu.sound.drained(), ..old(self)@.cpu.mmu },
            ),
            final(self)@.wf(),
    {
        let _ = self.take_audio();
    }

    /// The title of the cartridge.
    pub fn romname(&self) -> (name: String)
        requires
            self@.wf(),
        ensures
            name@ == title_text(self@.cpu.mmu.cart.rom),
    {
        reveal(MmuModel::wf);
        title(self.cpu.mmu.cart.rom.as_slice())
    }

    /// Reads the byte at `a` as the processor would.
    pub fn read_byte(&self, a: u16) -> (v: u8)
        requires
            self@.wf(),
        ensures
            v == self@.cpu.mmu.read(a),
    {
        self.cpu.mmu.rb(a)
    }

    /// Writes `v` at `a` as the processor would.
    pub fn write_byte(&mut self, a: u16, v: u8)
        requires
            old(self)@.wf(),
        ensures
            final(self)@ == old(self)@.with_mmu(old(self)@.cpu.mmu.written(a, v)),
            final(self)@.wf(),
    {
        self.cpu.mmu.wb(a, v);
    }

    /// Whether the cartridge keeps its RAM when the power is off.
    pub fn ram_is_battery_backed(&self) -> (r: bool)
        ensures
            r == self@.cpu.mmu.cart.state.battery,
    {
        self.cpu.mmu.cart.is_battery_backed()
    }

    /// Whether the cartridge's RAM was written since this was last asked.
    pub fn check_and_reset_ram_updated(&mut self) -> (r: bool)
        requires
            old(self)@.wf(),
        ensures
            r == old(self)@.cpu.mmu.cart.state.dirty,
            final(self)@ == old(self)@.with_mmu(
                MmuModel {
                    cart: CartridgeModel {
                        state: MbcState { dirty: false, ..old(self)@.cpu.mmu.cart.state },
                        ..old(self)@.cpu.mmu.cart
                    },
                    ..old(self)@.cpu.mmu
                },
            ),
            final(self)@.wf(),
    {
        reveal(MmuModel::wf);
        self.cpu.mmu.cart.check_and_reset_ram_updated()
    }

    /// A copy of the cartridge's RAM, to be saved.
    pub fn dump_ram(&self) -> (saved: Vec<u8>)
        ensures
            saved@ == self@.cpu.mmu.cart.ram,
    {
        self.cpu.mmu.cart.dump_ram()
    }

    /// Puts back RAM that was saved earlier. Returns whether it was taken:
    /// it must have the size of the cartridge's RAM.
    pub fn load_ram(&mut self, saved: Vec<u8>) -> (taken: bool)
        requires
            old(self)@.wf(),
        ensures
            taken == (saved@.len() == old(self)@.cpu.mmu.cart.ram.len()),
            final(self)@ == old(self)@.with_mmu(
                MmuModel {
                    cart: old(self)@.cpu.mmu.cart.with_ram(saved@),
                    ..old(self)@.cpu.mmu
                },
            ),
            final(self)@.wf(),
    {
        reveal(MmuModel::wf);
        self.cpu.mmu.cart.load_ram(saved)
    }

    /// Lets one second pass on the cartridge's clock.
    pub fn tick_second(&mut self)
        requires
            old(self)@.wf(),
        ensures
            final(self)@ == old(self)@.with_mmu(
                MmuModel { cart: old(self)@.cpu.mmu.cart.next_second(), ..old(self)@.cpu.mmu },
            ),
            final(self)@.wf(),
    {
        reveal(MmuModel::wf);
        self.cpu.mmu.cart.tick_second();
    }
}

/// Makes the machine for a cartridge and sets up where its serial port
/// goes: to a printer, or to the host, or nowhere.
pub fn construct_cpu(
    image: Vec<u8>,
    classic_mode: bool,
    output_serial: bool,
    output_printer: bool,
    skip_checksum: bool,
) -> (r: Result<Device, &'static str>)
    ensures
        match header_fault(image@, skip_checksum) {
            Some(e) => r matches Err(msg) && msg@ == e.text(),
            None => r matches Ok(d) && d@.wf() && d@ == if output_printer {
                DeviceModel {
                    printer: true,
                    ..DeviceModel::started(image@, classic_mode).tapped(true)
                }
            } else {
                DeviceModel::started(image@, classic_mode).tapped(output_serial)
            },
        },
{
    let made = if classic_mode {
        Device::new(image, skip_checksum)
    } else {
        Device::new_cgb(image, skip_checksum)
    };
    match made {
        Err(msg) => Err(msg),
        Ok(d) => {
            let mut c = d;
            if output_printer {
                c.attach_printer();
            } else {
                c.set_stdout(output_serial);
            }
            Ok(c)
        },
    }
}

} // verus!
