//! The description of a machine and the configuration of its peripherals, as
//! far as the bus reads them when it installs the devices.
use vstd::prelude::*;
use crate::mmio::VideoType;

verus! {

/// The smallest conventional memory that a machine can be configured with.
pub const CONVENTIONAL_MEMORY_MIN: u32 = 0x4000;

/// The largest conventional memory that a machine can be configured with.
pub const CONVENTIONAL_MEMORY_MAX: u32 = 0xA0000;

/// Conventional memory is configured in whole units of this many bytes.
pub const CONVENTIONAL_MEMORY_UNIT: u32 = 0x1000;

/// The setting of the drive-type switches of the hard disk controller.
pub const DRIVE_TYPE2_DIP: u8 = 0b1010;

/// Number of drives that the hard disk controller is built for.
pub const HDC_DRIVE_COUNT: usize = 2;

/// The models of machine.
#[derive(Copy, Clone, Debug, PartialEq, Eq, Structural)]
pub enum MachineType {
    Ibm5150v64K,
    Ibm5150v256K,
    Ibm5160,
}

/// The models of programmable interval timer.
#[derive(Copy, Clone, Debug, PartialEq, Eq, Structural)]
pub enum PitType {
    Model8253,
    Model8254,
}

/// The models of keyboard.
#[derive(Copy, Clone, Debug, PartialEq, Eq, Structural)]
pub enum KeyboardType {
    ModelF,
    ModelM,
}

/// The models of hard disk controller.
#[derive(Copy, Clone, Debug, PartialEq, Eq, Structural)]
pub enum HardDiskControllerType {
    IbmXebec,
}

/// The models of serial controller.
#[derive(Copy, Clone, Debug, PartialEq, Eq, Structural)]
pub enum SerialControllerType {
    IbmAsync,
}

/// The models of serial mouse.
#[derive(Copy, Clone, Debug, PartialEq, Eq, Structural)]
pub enum SerialMouseType {
    Microsoft,
}

/// How a video card derives its clock.
#[derive(Copy, Clone, Debug, PartialEq, Eq, Structural)]
pub enum ClockingMode {
    Default,
    Cycle,
    Character,
    Scanline,
}

/// What is fixed for a model of machine: its crystals and the chips on its
/// board. Frequencies are in hertz.
#[derive(Copy, Clone, Debug, PartialEq, Eq, Structural)]
pub struct MachineDescriptor {
    pub machine_type: MachineType,
    pub system_crystal: u32,
    pub timer_crystal: Option<u32>,
    pub timer_divisor: u32,
    pub pit_type: PitType,
    pub have_ppi: bool,
}

impl MachineDescriptor {
    /// A descriptor is usable when its system crystal oscillates at all.
    pub open spec fn valid(self) -> bool {
        self.system_crystal >= 1
    }

    /// Tells whether the descriptor is usable.
    pub fn is_valid(&self) -> (r: bool)
        ensures
            r == self.valid(),
    {
        self.system_crystal >= 1
    }

    /// The crystal that clocks the timer: its own where it has one, the
    /// system crystal otherwise.
    pub open spec fn timer_clock(self) -> u32 {
        match self.timer_crystal {
            Some(crystal) => crystal,
            None => self.system_crystal,
        }
    }
}

/// The configuration of a keyboard.
#[derive(Copy, Clone, Debug, PartialEq, Eq, Structural)]
pub struct KeyboardConfig {
    pub kb_type: KeyboardType,
    pub typematic: bool,
    pub typematic_delay: Option<u32>,
    pub typematic_rate: Option<u32>,
}

/// The configuration of a floppy disk controller.
#[derive(Copy, Clone, Debug, PartialEq, Eq, Structural)]
pub struct FloppyControllerConfig {
    pub drives: usize,
}

/// The configuration of a hard disk controller.
#[derive(Copy, Clone, Debug, PartialEq, Eq, Structural)]
pub struct HardDriveControllerConfig {
    pub hdc_type: HardDiskControllerType,
}

/// The configuration of a serial controller.
#[derive(Copy, Clone, Debug, PartialEq, Eq, Structural)]
pub struct SerialControllerConfig {
    pub sc_type: SerialControllerType,
}

/// The configuration of a serial mouse.
#[derive(Copy, Clone, Debug, PartialEq, Eq, Structural)]
pub struct SerialMouseConfig {
    pub mouse_type: SerialMouseType,
    pub port: usize,
}

/// The configuration of a video card.
#[derive(Copy, Clone, Debug, PartialEq, Eq, Structural)]
pub struct VideoCardConfig {
    pub video_type: VideoType,
}

/// The peripherals that a machine is configured with.
#[derive(Clone, Debug)]
pub struct MachineConfiguration {
    pub conventional_memory: u32,
    pub keyboard: Option<KeyboardConfig>,
    pub fdc: Option<FloppyControllerConfig>,
    pub hdc: Option<HardDriveControllerConfig>,
    pub serial: Vec<SerialControllerConfig>,
    pub serial_mouse: Option<SerialMouseConfig>,
    pub video: Vec<VideoCardConfig>,
}

/// Why a machine could not be built from its configuration.
#[derive(Copy, Clone, Debug, PartialEq, Eq, Structural)]
pub enum InstallError {
    /// The conventional memory is smaller or larger than a machine can have.
    InvalidConventionalMemory,
}

/// The conventional memory rounded down to a whole number of units.
pub open spec fn rounded_conventional_memory(size: u32) -> int {
    size - size % CONVENTIONAL_MEMORY_UNIT
}

/// The rounded conventional memory is one that a machine can have.
pub open spec fn conventional_memory_valid(size: u32) -> bool {
    CONVENTIONAL_MEMORY_MIN <= rounded_conventional_memory(size) <= CONVENTIONAL_MEMORY_MAX
}

/// Rounds the configured conventional memory down to a whole number of units
/// and checks that a machine can have that much.
pub fn normalize_conventional_memory(config: &MachineConfiguration) -> (r: Result<u32, InstallError>)
    ensures
        conventional_memory_valid(config.conventional_memory) ==> r == Ok::<u32, InstallError>(
            rounded_conventional_memory(config.conventional_memory) as u32,
        ),
        !conventional_memory_valid(config.conventional_memory) ==> r == Err::<u32, InstallError>(
            InstallError::InvalidConventionalMemory,
        ),
{
    let size = config.conventional_memory;
    let rounded = size - size % CONVENTIONAL_MEMORY_UNIT;
    if rounded < CONVENTIONAL_MEMORY_MIN || rounded > CONVENTIONAL_MEMORY_MAX {
        Err(InstallError::InvalidConventionalMemory)
    } else {
        Ok(rounded)
    }
}

} // verus!
