//! The CHIP-8 machine as a collaborator drives it: program loading, stepping, timers,
//! keys and an ARGB framebuffer.
use crate::chip8_model::{
    reset_state, step_spec, write_block, Chip8State, EdgePolicy, HEIGHT, MEMORY_SIZE,
    PROGRAM_START_ADDRESS, SCREEN_PIXELS, WIDTH, FONTSET_START_ADDRESS, FONT_SET,
};
use crate::cpu::{power_up_memory, Cpu};
use crate::emulator::{keymap_of, timer_cue_spec, AudioCue, Emulator};
use crate::error::EmuError;
use vstd::prelude::*;

verus! {

/// Colour of a lit pixel.
pub const PIXEL_ON: u32 = 0xFFFFFFFF;

/// Colour of a dark pixel.
pub const PIXEL_OFF: u32 = 0xFF000000;

/// Bytes available to a program: memory from the program start on.
pub const ROM_CAPACITY: usize = 3584;

/// Labels of the physical keys bound to the logical keys 0 to F.
pub const CHIP8_KEY_LABELS: [&'static str; 16] = [
    "X", "1", "2", "3", "Q", "W", "E", "A", "S", "D", "Z", "C", "4", "R", "F", "V",
];

/// The ARGB image of a screen.
pub open spec fn pixel_colors(pixels: Seq<bool>) -> Seq<u32> {
    Seq::new(
        pixels.len(),
        |i: int|
            if pixels[i] {
                PIXEL_ON
            } else {
                PIXEL_OFF
            },
    )
}

/// The key vector after a poll that reported `inputs`: keys past its end read as released.
pub open spec fn polled_keys(inputs: Seq<bool>) -> Seq<bool> {
    Seq::new(16, |i: int| i < inputs.len() && inputs[i])
}

/// CHIP-8 specific metadata: a copy of the machine state for debugging views.
#[derive(Debug, Clone)]
pub struct Chip8Metadata {
    pub registers: [u8; 16],
    pub index_register: u16,
    pub program_counter: u16,
    pub stack: [u16; 16],
    pub stack_pointer: u8,
    pub delay_timer: u8,
    pub sound_timer: u8,
    pub current_opcode: u16,
    pub memory: [u8; 4096],
}

/// The CHIP-8 emulator. Sprites wrap around the screen edges.
pub struct Chip8Emulator {
    cpu: Cpu,
    framebuffer: [u32; 2048],
}

impl View for Chip8Emulator {
    type V = Chip8State;

    closed spec fn view(&self) -> Chip8State {
        self.cpu@
    }
}

impl Chip8Emulator {
    /// The ARGB framebuffer handed to the collaborator.
    pub closed spec fn frame(&self) -> Seq<u32> {
        self.framebuffer@
    }

    /// The beep is silenced.
    pub closed spec fn muted(&self) -> bool {
        self.cpu.is_mute
    }

    pub fn new() -> (r: Chip8Emulator)
        ensures
            r@.wf(),
            r@ == reset_state(r@),
            r@.memory == power_up_memory(),
            r@.keys == Seq::new(16, |i: int| false),
            r@.rng == (75u8, 1u8, 31u8),
            r.frame() == Seq::new(SCREEN_PIXELS as nat, |i: int| 0u32),
            !r.muted(),
    {
        let r = Chip8Emulator { cpu: Cpu::new(), framebuffer: [0u32; 2048] };
        assert(r.framebuffer@ =~= Seq::new(SCREEN_PIXELS as nat, |i: int| 0u32));
        assert(write_block(r@.memory, FONTSET_START_ADDRESS as int, FONT_SET@) =~= r@.memory);
        assert(r@ =~= reset_state(r@));
        r
    }

    pub fn set_mute(&mut self, mute: bool)
        ensures
            final(self)@ == old(self)@,
            final(self).frame() == old(self).frame(),
            final(self).muted() == mute,
    {
        self.cpu.is_mute = mute;
    }

    /// Repaints the framebuffer from the screen.
    fn update_framebuffer(&mut self)
        ensures
            final(self)@ == old(self)@,
            final(self).muted() == old(self).muted(),
            final(self).frame() == pixel_colors(old(self)@.pixels),
    {
        let mut i: usize = 0;
        while i < SCREEN_PIXELS
            invariant
                i <= SCREEN_PIXELS,
                self.cpu == old(self).cpu,
                forall|j: int| 0 <= j < i ==> self.framebuffer@[j] == pixel_colors(self.cpu.buffer@)[j],
            decreases SCREEN_PIXELS - i,
        {
            self.framebuffer[i] = if self.cpu.buffer[i] {
                PIXEL_ON
            } else {
                PIXEL_OFF
            };
            i += 1;
        }
        assert(self.framebuffer@ =~= pixel_colors(self.cpu.buffer@));
    }

    /// Whether the beep sounds: the sound timer is positive.
    pub fn sound_active(&self) -> (r: bool)
        ensures
            r == (self@.sound > 0),
    {
        self.cpu.sound_timer > 0
    }
}

impl Emulator for Chip8Emulator {
    type Metadata = Chip8Metadata;

    fn system_name(&self) -> (r: &'static str)
        ensures
            r@ == "CHIP-8"@,
    {
        "CHIP-8"
    }

    /// Copies `rom` to memory from the program start on, after a reset. A program larger
    /// than the space left there is refused and changes nothing.
    fn load_rom(&mut self, rom: &[u8]) -> (r: Result<(), EmuError>)
        ensures
            rom@.len() > ROM_CAPACITY ==> r == Err::<(), EmuError>(
                EmuError::InvalidRom { size: rom@.len() as usize, capacity: ROM_CAPACITY },
            ) && final(self)@ == old(self)@ && final(self).frame() == old(self).frame(),
            rom@.len() <= ROM_CAPACITY ==> r is Ok && final(self)@ == (Chip8State {
                memory: write_block(reset_state(old(self)@).memory, PROGRAM_START_ADDRESS as int, rom@),
                ..reset_state(old(self)@)
            }) && final(self).frame() == Seq::new(SCREEN_PIXELS as nat, |i: int| 0u32),
            rom@.len() <= ROM_CAPACITY ==> final(self)@.memory.subrange(0x50, 0xA0) == FONT_SET@,
            final(self)@.wf(),
            final(self).muted() == old(self).muted(),
    {
        if rom.len() > ROM_CAPACITY {
            return Err(EmuError::InvalidRom { size: rom.len(), capacity: ROM_CAPACITY });
        }
        self.reset();
        let ghost before = self.cpu@;
        let start = PROGRAM_START_ADDRESS as usize;
        let mut i: usize = 0;
        assert(write_block(before.memory, start as int, rom@.subrange(0, 0)) =~= before.memory);
        while i < rom.len()
            invariant
                i <= rom@.len() <= ROM_CAPACITY,
                start == PROGRAM_START_ADDRESS,
                self.cpu.memory@.len() == MEMORY_SIZE,
                self.cpu@ == (Chip8State {
                    memory: write_block(before.memory, start as int, rom@.subrange(0, i as int)),
                    ..before
                }),
                self.cpu.is_mute == old(self).cpu.is_mute,
                self.framebuffer@ == Seq::new(SCREEN_PIXELS as nat, |i: int| 0u32),
            decreases rom@.len() - i,
        {
            self.cpu.memory[start + i] = rom[i];
            i += 1;
            assert(self.cpu.memory@ =~= write_block(before.memory, start as int, rom@.subrange(0, i as int)));
        }
        assert(rom@.subrange(0, rom@.len() as int) =~= rom@);
        assert(self.cpu.memory@.subrange(0x50, 0xA0) =~= FONT_SET@);
        Ok(())
    }

    fn reset(&mut self)
        ensures
            final(self)@ == reset_state(old(self)@),
            final(self)@.wf(),
            final(self)@.memory.subrange(0x50, 0xA0) == FONT_SET@,
            final(self).frame() == Seq::new(SCREEN_PIXELS as nat, |i: int| 0u32),
            final(self).muted() == old(self).muted(),
    {
        self.cpu.load_font();
        self.cpu.program_counter = PROGRAM_START_ADDRESS;
        self.cpu.index_register = 0;
        self.cpu.stack_pointer = 0;
        self.cpu.stack = [0u16; 16];
        self.cpu.delay_timer = 0;
        self.cpu.sound_timer = 0;
        self.cpu.registers = [0u8; 16];
        self.cpu.buffer = [false; 2048];
        self.cpu.input_keys = [false; 16];
        self.cpu.is_key_pressed = false;
        self.cpu.current_opcode = 0;
        self.framebuffer = [0u32; 2048];
        assert(self.cpu.registers@ =~= Seq::new(16, |i: int| 0u8));
        assert(self.cpu.stack@ =~= Seq::new(16, |i: int| 0u16));
        assert(self.cpu.input_keys@ =~= Seq::new(16, |i: int| false));
        assert(self.cpu.buffer@ =~= Seq::new(SCREEN_PIXELS as nat, |p: int| false));
        assert(self.framebuffer@ =~= Seq::new(SCREEN_PIXELS as nat, |i: int| 0u32));
        assert(self.cpu.memory@.subrange(0x50, 0xA0) =~= FONT_SET@);
    }

    /// Executes one instruction; the framebuffer is repainted after a successful one.
    fn step(&mut self) -> (r: Result<(), EmuError>)
        ensures
            (final(self)@, r) == step_spec(old(self)@, EdgePolicy::Wrap),
            r is Ok ==> final(self).frame() == pixel_colors(final(self)@.pixels),
            r is Err ==> final(self).frame() == old(self).frame(),
            final(self)@.wf(),
            final(self).muted() == old(self).muted(),
    {
        let r = self.cpu.step_with(EdgePolicy::Wrap);
        if r.is_ok() {
            self.update_framebuffer();
        }
        r
    }

    /// One 60 Hz timer tick.
    fn update_timers(&mut self) -> (r: AudioCue)
        ensures
            final(self)@ == (Chip8State {
                delay: if old(self)@.delay > 0 {
                    (old(self)@.delay - 1) as u8
                } else {
                    0
                },
                sound: if old(self)@.sound > 0 {
                    (old(self)@.sound - 1) as u8
                } else {
                    0
                },
                ..old(self)@
            }),
            final(self).frame() == old(self).frame(),
            final(self).muted() == old(self).muted(),
            r == timer_cue_spec(old(self)@.sound, old(self).muted()),
    {
        self.cpu.update_timers()
    }

    fn framebuffer(&self) -> (r: &[u32])
        ensures
            r@ == self.frame(),
    {
        self.framebuffer.as_slice()
    }

    fn resolution(&self) -> (r: (usize, usize))
        ensures
            r == (WIDTH, HEIGHT),
    {
        (WIDTH, HEIGHT)
    }

    /// Replaces the key vector; keys past the end of `inputs` read as released.
    fn set_input_state(&mut self, inputs: &[bool])
        ensures
            final(self)@ == (Chip8State { keys: polled_keys(inputs@), ..old(self)@ }),
            final(self)@.wf(),
            final(self).frame() == old(self).frame(),
            final(self).muted() == old(self).muted(),
    {
        let mut i: usize = 0;
        while i < 16
            invariant
                i <= 16,
                self.framebuffer == old(self).framebuffer,
                self.cpu@ == (Chip8State { keys: self.cpu@.keys, ..old(self).cpu@ }),
                self.cpu.is_mute == old(self).cpu.is_mute,
                forall|j: int| 0 <= j < i ==> self.cpu.input_keys@[j] == polled_keys(inputs@)[j],
            decreases 16 - i,
        {
            self.cpu.input_keys[i] = i < inputs.len() && inputs[i];
            i += 1;
        }
        assert(self.cpu.input_keys@ =~= polled_keys(inputs@));
    }

    fn keymap(&self) -> (r: Vec<(usize, String)>)
        ensures
            r@.len() == 16,
            forall|i: int| 0 <= i < 16 ==> (#[trigger] r@[i]).0 == i && r@[i].1@ == CHIP8_KEY_LABELS@[i]@,
    {
        keymap_of(CHIP8_KEY_LABELS.as_slice())
    }

    fn metadata(&self) -> (r: Chip8Metadata)
        ensures
            r.registers@ == self@.registers,
            r.index_register == self@.index,
            r.program_counter == self@.pc,
            r.stack@ == self@.stack,
            r.stack_pointer == self@.sp,
            r.delay_timer == self@.delay,
            r.sound_timer == self@.sound,
            r.current_opcode == self@.opcode,
            r.memory@ == self@.memory,
    {
        Chip8Metadata {
            registers: self.cpu.registers,
            index_register: self.cpu.index_register,
            program_counter: self.cpu.program_counter,
            stack: self.cpu.stack,
            stack_pointer: self.cpu.stack_pointer,
            delay_timer: self.cpu.delay_timer,
            sound_timer: self.cpu.sound_timer,
            current_opcode: self.cpu.current_opcode,
            memory: self.cpu.memory,
        }
    }
}

} // verus!
