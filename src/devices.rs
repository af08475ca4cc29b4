use vstd::prelude::*;

use crate::bits::{bit_len, decoded, encodes, bits_kept_from, read_image, write_image};
use crate::error::ControlError;

verus! {

/// `(vendor_id, product_id, revision)` of a subdevice.
pub type SubDeviceIdentityTuple = (u32, u32, u32);

/// `(vendor_id, product_id)` of a subdevice.
pub type SubDeviceProductTuple = (u32, u32);

pub const EL2004_VENDOR_ID: u32 = 0x2;
pub const EL2004_PRODUCT_ID: u32 = 131346514;
pub const EL2004_REVISION_A: u32 = 1179648;
pub const EL2004_REVISION_B: u32 = 0x110000;
pub const EL2004_IDENTITY_A: SubDeviceIdentityTuple = (EL2004_VENDOR_ID, EL2004_PRODUCT_ID, EL2004_REVISION_A);
pub const EL2004_IDENTITY_B: SubDeviceIdentityTuple = (EL2004_VENDOR_ID, EL2004_PRODUCT_ID, EL2004_REVISION_B);

pub const EL2008_VENDOR_ID: u32 = 0x2;
pub const EL2008_PRODUCT_ID_A: u32 = 0x07d83052;
pub const EL2008_REVISION_A: u32 = 0x00110000;
pub const EL2008_PRODUCT_ID_B: u32 = 0x7d83052;
pub const EL2008_REVISION_B: u32 = 0x120000;
pub const EL2008_REVISION_C: u32 = 0x100000;
pub const EL2008_IDENTITY_A: SubDeviceIdentityTuple = (EL2008_VENDOR_ID, EL2008_PRODUCT_ID_A, EL2008_REVISION_A);
pub const EL2008_IDENTITY_B: SubDeviceIdentityTuple = (EL2008_VENDOR_ID, EL2008_PRODUCT_ID_B, EL2008_REVISION_B);
pub const EL2008_IDENTITY_C: SubDeviceIdentityTuple = (EL2008_VENDOR_ID, EL2008_PRODUCT_ID_B, EL2008_REVISION_C);

/// A child module of a bus coupler, which shares the coupler's process data image.
#[derive(Debug, Clone, Copy, PartialEq, Eq, Structural)]
pub struct Module {
    pub slot: u16,
    pub belongs_to_addr: u16,
    pub has_tx: bool,
    pub has_rx: bool,
    pub vendor_id: u32,
    pub product_id: u32,
    pub tx_offset: usize,
    pub rx_offset: usize,
}

/// Tracks whether a machine has claimed a device.
pub trait EthercatDeviceUsed {
    /// Whether the device is claimed.
    spec fn used_spec(&self) -> bool;

    /// Returns true if a machine has claimed the device.
    fn is_used(&self) -> (r: bool)
        ensures
            r == self.used_spec(),
    ;

    /// Marks the device as claimed or released.
    fn set_used(&mut self, used: bool)
        ensures
            final(self).used_spec() == used,
    ;
}

/// Builds a device with its process data at defaults, not yet claimed.
pub trait NewEthercatDevice: EthercatDeviceUsed + Sized {
    fn new() -> (r: Self)
        ensures
            !r.used_spec(),
    ;
}

/// Hooks for devices whose machine-facing view is derived from several PDO objects.
pub trait EthercatDeviceProcessing {
    /// Runs after the input image was decoded.
    fn input_post_process(&mut self) -> Result<(), ControlError>;

    /// Runs before the output image is encoded.
    fn output_pre_process(&mut self) -> Result<(), ControlError>;
}

/// A boolean PDO object: one bit of the process data image.
#[derive(Debug, Clone, Copy, PartialEq, Eq, Structural)]
pub struct BoolPdoObject {
    pub value: bool,
}

/// The output channels of an EL2004.
#[derive(Debug, Clone, Copy, PartialEq, Eq, Structural)]
pub enum EL2004Port {
    DO1,
    DO2,
    DO3,
    DO4,
}

impl EL2004Port {
    /// The channel's position in the output image.
    pub open spec fn index(&self) -> int {
        match self {
            EL2004Port::DO1 => 0,
            EL2004Port::DO2 => 1,
            EL2004Port::DO3 => 2,
            EL2004Port::DO4 => 3,
        }
    }
}

/// Output image of an EL2004: PDO objects 0x1600 to 0x1603, one bit each.
#[derive(Debug, Clone, Copy, PartialEq, Eq, Structural)]
pub struct EL2004RxPdo {
    pub channel1: BoolPdoObject,
    pub channel2: BoolPdoObject,
    pub channel3: BoolPdoObject,
    pub channel4: BoolPdoObject,
}

impl EL2004RxPdo {
    /// The image as bits, in ascending PDO index order.
    pub open spec fn bits(&self) -> Seq<bool> {
        seq![self.channel1.value, self.channel2.value, self.channel3.value, self.channel4.value]
    }

    /// The image that the given bits describe.
    pub open spec fn from_bits(b: Seq<bool>) -> Self {
        EL2004RxPdo {
            channel1: BoolPdoObject { value: b[0] },
            channel2: BoolPdoObject { value: b[1] },
            channel3: BoolPdoObject { value: b[2] },
            channel4: BoolPdoObject { value: b[3] },
        }
    }

    fn to_bits(&self) -> (r: Vec<bool>)
        ensures
            r@ == self.bits(),
    {
        let mut v: Vec<bool> = Vec::new();
        v.push(self.channel1.value);
        v.push(self.channel2.value);
        v.push(self.channel3.value);
        v.push(self.channel4.value);
        assert(v@ =~= self.bits());
        v
    }

    /// Writes the image into a raw output buffer; fails with `ShortBuffer` when
    /// the buffer holds fewer than 4 bits.
    pub fn write(&self, buf: &mut Vec<u8>) -> (r: Result<(), ControlError>)
        ensures
            (r is Ok) <==> 4 <= bit_len(old(buf)@),
            r is Err ==> r == Err::<(), ControlError>(ControlError::ShortBuffer) && final(buf)@ == old(buf)@,
            r is Ok ==> encodes(final(buf)@, self.bits()) && bits_kept_from(old(buf)@, final(buf)@, 4),
    {
        let image = self.to_bits();
        write_image(buf, &image)
    }

    /// Reads an image back from a raw output buffer; fails with `ShortBuffer`
    /// when the buffer holds fewer than 4 bits.
    pub fn read(buf: &Vec<u8>) -> (r: Result<Self, ControlError>)
        ensures
            (r is Ok) <==> 4 <= bit_len(buf@),
            r is Err ==> r == Err::<Self, ControlError>(ControlError::ShortBuffer),
            r is Ok ==> r->Ok_0 == Self::from_bits(decoded(buf@, 4)),
    {
        let b = read_image(buf, 4)?;
        Ok(EL2004RxPdo {
            channel1: BoolPdoObject { value: b[0] },
            channel2: BoolPdoObject { value: b[1] },
            channel3: BoolPdoObject { value: b[2] },
            channel4: BoolPdoObject { value: b[3] },
        })
    }
}

impl Default for EL2004RxPdo {
    fn default() -> (r: Self)
        ensures
            r.bits() == seq![false, false, false, false],
    {
        EL2004RxPdo {
            channel1: BoolPdoObject { value: false },
            channel2: BoolPdoObject { value: false },
            channel3: BoolPdoObject { value: false },
            channel4: BoolPdoObject { value: false },
        }
    }
}

/// EL2004: 4-channel digital output terminal, 24 V DC, 0.5 A per channel.
#[derive(Debug)]
pub struct EL2004 {
    pub rxpdo: EL2004RxPdo,
    pub is_used: bool,
}

impl EL2004 {
    /// Whether a machine has claimed the terminal.
    pub open spec fn used(&self) -> bool {
        self.is_used
    }

    pub const INPUT_LEN: usize = 0;
    pub const OUTPUT_LEN: usize = 4;

    /// A terminal with every output off, not yet claimed.
    pub fn new() -> (r: Self)
        ensures
            !r.used(),
            r.rxpdo.bits() == Seq::new(4, |k: int| false),
    {
        let rxpdo = EL2004RxPdo::default();
        assert(rxpdo.bits() =~= Seq::new(4, |k: int| false));
        EL2004 { rxpdo, is_used: false }
    }

    /// Switches one output channel.
    pub fn set_output(&mut self, port: EL2004Port, value: bool)
        ensures
            final(self).rxpdo.bits() == old(self).rxpdo.bits().update(port.index(), value),
            final(self).used() == old(self).used(),
    {
        match port {
            EL2004Port::DO1 => self.rxpdo.channel1.value = value,
            EL2004Port::DO2 => self.rxpdo.channel2.value = value,
            EL2004Port::DO3 => self.rxpdo.channel3.value = value,
            EL2004Port::DO4 => self.rxpdo.channel4.value = value,
        }
        assert(self.rxpdo.bits() =~= old(self).rxpdo.bits().update(port.index(), value));
    }

    /// The current value of one output channel.
    pub fn get_output(&self, port: EL2004Port) -> (r: bool)
        ensures
            r == self.rxpdo.bits()[port.index()],
    {
        match port {
            EL2004Port::DO1 => self.rxpdo.channel1.value,
            EL2004Port::DO2 => self.rxpdo.channel2.value,
            EL2004Port::DO3 => self.rxpdo.channel3.value,
            EL2004Port::DO4 => self.rxpdo.channel4.value,
        }
    }
}

impl EthercatDeviceUsed for EL2004 {
    open spec fn used_spec(&self) -> bool {
        self.used()
    }

    fn is_used(&self) -> (r: bool) {
        self.is_used
    }

    fn set_used(&mut self, used: bool) {
        self.is_used = used;
    }
}

impl NewEthercatDevice for EL2004 {
    fn new() -> (r: Self) {
        EL2004::new()
    }
}

impl EthercatDeviceProcessing for EL2004 {
    fn input_post_process(&mut self) -> (r: Result<(), ControlError>) {
        Ok(())
    }

    fn output_pre_process(&mut self) -> (r: Result<(), ControlError>) {
        Ok(())
    }
}

/// The output channels of an EL2008.
#[derive(Debug, Clone, Copy, PartialEq, Eq, Structural)]
pub enum EL2008Port {
    DO1,
    DO2,
    DO3,
    DO4,
    DO5,
    DO6,
    DO7,
    DO8,
}

impl EL2008Port {
    /// The channel's position in the output image.
    pub open spec fn index(&self) -> int {
        match self {
            EL2008Port::DO1 => 0,
            EL2008Port::DO2 => 1,
            EL2008Port::DO3 => 2,
            EL2008Port::DO4 => 3,
            EL2008Port::DO5 => 4,
            EL2008Port::DO6 => 5,
            EL2008Port::DO7 => 6,
            EL2008Port::DO8 => 7,
        }
    }
}

/// Output image of an EL2008: PDO objects 0x1600 to 0x1607, one bit each.
#[derive(Debug, Clone, Copy, PartialEq, Eq, Structural)]
pub struct EL2008RxPdo {
    pub channel1: BoolPdoObject,
    pub channel2: BoolPdoObject,
    pub channel3: BoolPdoObject,
    pub channel4: BoolPdoObject,
    pub channel5: BoolPdoObject,
    pub channel6: BoolPdoObject,
    pub channel7: BoolPdoObject,
    pub channel8: BoolPdoObject,
}

impl EL2008RxPdo {
    /// The image as bits, in ascending PDO index order.
    pub open spec fn bits(&self) -> Seq<bool> {
        seq![
            self.channel1.value,
            self.channel2.value,
            self.channel3.value,
            self.channel4.value,
            self.channel5.value,
            self.channel6.value,
            self.channel7.value,
            self.channel8.value,
        ]
    }

    /// The image that the given bits describe.
    pub open spec fn from_bits(b: Seq<bool>) -> Self {
        EL2008RxPdo {
            channel1: BoolPdoObject { value: b[0] },
            channel2: BoolPdoObject { value: b[1] },
            channel3: BoolPdoObject { value: b[2] },
            channel4: BoolPdoObject { value: b[3] },
            channel5: BoolPdoObject { value: b[4] },
            channel6: BoolPdoObject { value: b[5] },
            channel7: BoolPdoObject { value: b[6] },
            channel8: BoolPdoObject { value: b[7] },
        }
    }

    fn to_bits(&self) -> (r: Vec<bool>)
        ensures
            r@ == self.bits(),
    {
        let mut v: Vec<bool> = Vec::new();
        v.push(self.channel1.value);
        v.push(self.channel2.value);
        v.push(self.channel3.value);
        v.push(self.channel4.value);
        v.push(self.channel5.value);
        v.push(self.channel6.value);
        v.push(self.channel7.value);
        v.push(self.channel8.value);
        assert(v@ =~= self.bits());
        v
    }

    /// Writes the image into a raw output buffer; fails with `ShortBuffer` when
    /// the buffer holds fewer than 8 bits.
    pub fn write(&self, buf: &mut Vec<u8>) -> (r: Result<(), ControlError>)
        ensures
            (r is Ok) <==> 8 <= bit_len(old(buf)@),
            r is Err ==> r == Err::<(), ControlError>(ControlError::ShortBuffer) && final(buf)@ == old(buf)@,
            r is Ok ==> encodes(final(buf)@, self.bits()) && bits_kept_from(old(buf)@, final(buf)@, 8),
    {
        let image = self.to_bits();
        write_image(buf, &image)
    }

    /// Reads an image back from a raw output buffer; fails with `ShortBuffer`
    /// when the buffer holds fewer than 8 bits.
    pub fn read(buf: &Vec<u8>) -> (r: Result<Self, ControlError>)
        ensures
            (r is Ok) <==> 8 <= bit_len(buf@),
            r is Err ==> r == Err::<Self, ControlError>(ControlError::ShortBuffer),
            r is Ok ==> r->Ok_0 == Self::from_bits(decoded(buf@, 8)),
    {
        let b = read_image(buf, 8)?;
        Ok(EL2008RxPdo {
            channel1: BoolPdoObject { value: b[0] },
            channel2: BoolPdoObject { value: b[1] },
            channel3: BoolPdoObject { value: b[2] },
            channel4: BoolPdoObject { value: b[3] },
            channel5: BoolPdoObject { value: b[4] },
            channel6: BoolPdoObject { value: b[5] },
            channel7: BoolPdoObject { value: b[6] },
            channel8: BoolPdoObject { value: b[7] },
        })
    }
}

impl Default for EL2008RxPdo {
    fn default() -> (r: Self)
        ensures
            r.bits() == seq![false, false, false, false, false, false, false, false],
    {
        EL2008RxPdo {
            channel1: BoolPdoObject { value: false },
            channel2: BoolPdoObject { value: false },
            channel3: BoolPdoObject { value: false },
            channel4: BoolPdoObject { value: false },
            channel5: BoolPdoObject { value: false },
            channel6: BoolPdoObject { value: false },
            channel7: BoolPdoObject { value: false },
            channel8: BoolPdoObject { value: false },
        }
    }
}

/// EL2008: 8-channel digital output terminal, 24 V DC, 0.5 A per channel.
#[derive(Debug)]
pub struct EL2008 {
    pub rxpdo: EL2008RxPdo,
    pub is_used: bool,
}

impl EL2008 {
    /// Whether a machine has claimed the terminal.
    pub open spec fn used(&self) -> bool {
        self.is_used
    }

    pub const INPUT_LEN: usize = 0;
    pub const OUTPUT_LEN: usize = 8;

    /// A terminal with every output off, not yet claimed.
    pub fn new() -> (r: Self)
        ensures
            !r.used(),
            r.rxpdo.bits() == Seq::new(8, |k: int| false),
    {
        let rxpdo = EL2008RxPdo::default();
        assert(rxpdo.bits() =~= Seq::new(8, |k: int| false));
        EL2008 { rxpdo, is_used: false }
    }

    /// Switches one output channel.
    pub fn set_output(&mut self, port: EL2008Port, value: bool)
        ensures
            final(self).rxpdo.bits() == old(self).rxpdo.bits().update(port.index(), value),
            final(self).used() == old(self).used(),
    {
        match port {
            EL2008Port::DO1 => self.rxpdo.channel1.value = value,
            EL2008Port::DO2 => self.rxpdo.channel2.value = value,
            EL2008Port::DO3 => self.rxpdo.channel3.value = value,
            EL2008Port::DO4 => self.rxpdo.channel4.value = value,
            EL2008Port::DO5 => self.rxpdo.channel5.value = value,
            EL2008Port::DO6 => self.rxpdo.channel6.value = value,
            EL2008Port::DO7 => self.rxpdo.channel7.value = value,
            EL2008Port::DO8 => self.rxpdo.channel8.value = value,
        }
        assert(self.rxpdo.bits() =~= old(self).rxpdo.bits().update(port.index(), value));
    }

    /// The current value of one output channel.
    pub fn get_output(&self, port: EL2008Port) -> (r: bool)
        ensures
            r == self.rxpdo.bits()[port.index()],
    {
        match port {
            EL2008Port::DO1 => self.rxpdo.channel1.value,
            EL2008Port::DO2 => self.rxpdo.channel2.value,
            EL2008Port::DO3 => self.rxpdo.channel3.value,
            EL2008Port::DO4 => self.rxpdo.channel4.value,
            EL2008Port::DO5 => self.rxpdo.channel5.value,
            EL2008Port::DO6 => self.rxpdo.channel6.value,
            EL2008Port::DO7 => self.rxpdo.channel7.value,
            EL2008Port::DO8 => self.rxpdo.channel8.value,
        }
    }
}

impl EthercatDeviceUsed for EL2008 {
    open spec fn used_spec(&self) -> bool {
        self.used()
    }

    fn is_used(&self) -> (r: bool) {
        self.is_used
    }

    fn set_used(&mut self, used: bool) {
        self.is_used = used;
    }
}

impl NewEthercatDevice for EL2008 {
    fn new() -> (r: Self) {
        EL2008::new()
    }
}

impl EthercatDeviceProcessing for EL2008 {
    fn input_post_process(&mut self) -> (r: Result<(), ControlError>) {
        Ok(())
    }

    fn output_pre_process(&mut self) -> (r: Result<(), ControlError>) {
        Ok(())
    }
}

/// A driver for one subdevice on the bus. The set of drivers is closed, so a
/// machine claims a driver by matching on its variant.
#[derive(Debug)]
pub enum EthercatDevice {
    EL2004(EL2004),
    EL2008(EL2008),
    /// A subdevice without a driver: present on the bus, never claimed, no process data.
    Unsupported(SubDeviceIdentityTuple),
}

impl EthercatDevice {
    /// Whether a machine has claimed the driver.
    pub open spec fn used(&self) -> bool {
        match self {
            EthercatDevice::EL2004(d) => d.is_used,
            EthercatDevice::EL2008(d) => d.is_used,
            EthercatDevice::Unsupported(_) => false,
        }
    }

    /// The same driver with its claim flag set to `u`; a subdevice without a
    /// driver cannot be claimed.
    pub open spec fn with_used(&self, u: bool) -> Self {
        match self {
            EthercatDevice::EL2004(d) => EthercatDevice::EL2004(EL2004 { is_used: u, ..*d }),
            EthercatDevice::EL2008(d) => EthercatDevice::EL2008(EL2008 { is_used: u, ..*d }),
            EthercatDevice::Unsupported(id) => EthercatDevice::Unsupported(*id),
        }
    }

    /// Bits of the input image.
    pub open spec fn input_len_spec(&self) -> nat {
        0
    }

    /// Bits of the output image.
    pub open spec fn output_len_spec(&self) -> nat {
        match self {
            EthercatDevice::EL2004(_) => 4,
            EthercatDevice::EL2008(_) => 8,
            EthercatDevice::Unsupported(_) => 0,
        }
    }

    /// The output image, in ascending PDO index order.
    pub open spec fn output_image(&self) -> Seq<bool> {
        match self {
            EthercatDevice::EL2004(d) => d.rxpdo.bits(),
            EthercatDevice::EL2008(d) => d.rxpdo.bits(),
            EthercatDevice::Unsupported(_) => Seq::empty(),
        }
    }

    /// The same driver with its output image decoded from `b`.
    pub open spec fn with_output_image(&self, b: Seq<bool>) -> Self {
        match self {
            EthercatDevice::EL2004(d) => EthercatDevice::EL2004(
                EL2004 { rxpdo: EL2004RxPdo::from_bits(b), ..*d },
            ),
            EthercatDevice::EL2008(d) => EthercatDevice::EL2008(
                EL2008 { rxpdo: EL2008RxPdo::from_bits(b), ..*d },
            ),
            EthercatDevice::Unsupported(id) => EthercatDevice::Unsupported(*id),
        }
    }

    /// The accepted length of the input data, in bits.
    pub fn input_len(&self) -> (r: usize)
        ensures
            r == self.input_len_spec(),
    {
        match self {
            EthercatDevice::EL2004(_) => EL2004::INPUT_LEN,
            EthercatDevice::EL2008(_) => EL2008::INPUT_LEN,
            EthercatDevice::Unsupported(_) => 0,
        }
    }

    /// The accepted length of the output data, in bits.
    pub fn output_len(&self) -> (r: usize)
        ensures
            r == self.output_len_spec(),
    {
        match self {
            EthercatDevice::EL2004(_) => EL2004::OUTPUT_LEN,
            EthercatDevice::EL2008(_) => EL2008::OUTPUT_LEN,
            EthercatDevice::Unsupported(_) => 0,
        }
    }

    /// Returns true if a machine has claimed the driver.
    pub fn is_used(&self) -> (r: bool)
        ensures
            r == self.used(),
    {
        match self {
            EthercatDevice::EL2004(d) => d.is_used,
            EthercatDevice::EL2008(d) => d.is_used,
            EthercatDevice::Unsupported(_) => false,
        }
    }

    /// Sets the claim flag and changes nothing else.
    pub fn set_used(&mut self, used: bool)
        ensures
            *final(self) == old(self).with_used(used),
    {
        match self {
            EthercatDevice::EL2004(d) => d.is_used = used,
            EthercatDevice::EL2008(d) => d.is_used = used,
            EthercatDevice::Unsupported(_) => {},
        }
    }

    /// Decodes a raw input buffer into the input image. Fails with
    /// `ShortBuffer` when the buffer is shorter than `input_len()` bits.
    pub fn input(&mut self, buf: &Vec<u8>) -> (r: Result<(), ControlError>)
        ensures
            (r is Ok) <==> old(self).input_len_spec() <= bit_len(buf@),
            r is Err ==> r == Err::<(), ControlError>(ControlError::ShortBuffer),
            *final(self) == *old(self),
    {
        if buf.len() < self.input_len() / 8 + if self.input_len() % 8 == 0 {
            0
        } else {
            1
        } {
            return Err(ControlError::ShortBuffer);
        }
        Ok(())
    }

    /// Encodes the output image into a raw output buffer, keeping the bits
    /// after it. Fails with `ShortBuffer`, and leaves the buffer untouched,
    /// when it is shorter than `output_len()` bits.
    pub fn output(&self, buf: &mut Vec<u8>) -> (r: Result<(), ControlError>)
        ensures
            (r is Ok) <==> self.output_len_spec() <= bit_len(old(buf)@),
            r is Err ==> r == Err::<(), ControlError>(ControlError::ShortBuffer) && final(buf)@ == old(buf)@,
            r is Ok ==> encodes(final(buf)@, self.output_image()) && bits_kept_from(
                old(buf)@,
                final(buf)@,
                self.output_len_spec() as int,
            ),
    {
        match self {
            EthercatDevice::EL2004(d) => d.rxpdo.write(buf),
            EthercatDevice::EL2008(d) => d.rxpdo.write(buf),
            EthercatDevice::Unsupported(_) => {
                assert(encodes(buf@, Seq::<bool>::empty()));
                Ok(())
            },
        }
    }

    /// Runs after the input image was decoded; these drivers keep their image as is.
    pub fn input_post_process(&mut self) -> (r: Result<(), ControlError>)
        ensures
            r is Ok,
            *final(self) == *old(self),
    {
        Ok(())
    }

    /// Runs before the output image is encoded; these drivers keep their image as is.
    pub fn output_pre_process(&mut self) -> (r: Result<(), ControlError>)
        ensures
            r is Ok,
            *final(self) == *old(self),
    {
        Ok(())
    }

    /// Whether the driver is a child module of a coupler.
    pub fn is_module(&self) -> (r: bool)
        ensures
            !r,
    {
        false
    }

    /// The coupler module this driver stands for, if any.
    pub fn get_module(&self) -> (r: Option<Module>)
        ensures
            r is None,
    {
        None
    }
}

/// Encoding a driver's output image and decoding the bits written yields the
/// driver back, whatever the buffer held before.
pub proof fn lemma_output_round_trip(d: EthercatDevice, before: Seq<u8>, after: Seq<u8>)
    requires
        encodes(after, d.output_image()),
        bits_kept_from(before, after, d.output_len_spec() as int),
    ensures
        d.with_output_image(decoded(after, d.output_len_spec())) == d,
{
    let b = decoded(after, d.output_len_spec());
    assert(b =~= d.output_image());
    match d {
        EthercatDevice::EL2004(x) => {
            assert(EL2004RxPdo::from_bits(b) == x.rxpdo);
        },
        EthercatDevice::EL2008(x) => {
            assert(EL2008RxPdo::from_bits(b) == x.rxpdo);
        },
        EthercatDevice::Unsupported(_) => {},
    }
}

/// Every driver accepts no empty output buffer, and no empty input buffer
/// where it has input bits.
pub proof fn lemma_empty_buffers_rejected(d: EthercatDevice, empty: Seq<u8>)
    requires
        empty.len() == 0,
        !(d is Unsupported),
    ensures
        d.output_len_spec() > bit_len(empty),
        d.input_len_spec() > 0 ==> d.input_len_spec() > bit_len(empty),
{
}

/// `a` and `b` name the same subdevice identity.
fn identity_eq(a: SubDeviceIdentityTuple, b: SubDeviceIdentityTuple) -> (r: bool)
    ensures
        r == (a == b),
{
    a.0 == b.0 && a.1 == b.1 && a.2 == b.2
}

/// Identities served by the EL2004 driver.
pub open spec fn is_el2004_identity(id: SubDeviceIdentityTuple) -> bool {
    id == EL2004_IDENTITY_A || id == EL2004_IDENTITY_B
}

/// Identities served by the EL2008 driver: every accepted revision.
pub open spec fn is_el2008_identity(id: SubDeviceIdentityTuple) -> bool {
    id == EL2008_IDENTITY_A || id == EL2008_IDENTITY_B || id == EL2008_IDENTITY_C
}

/// The driver that the registry builds for an identity: an unclaimed EL2004
/// or EL2008 with every output off, or an unsupported subdevice.
pub open spec fn fresh_device(id: SubDeviceIdentityTuple) -> EthercatDevice {
    if is_el2004_identity(id) {
        EthercatDevice::EL2004(
            EL2004 { rxpdo: EL2004RxPdo::from_bits(Seq::new(4, |k: int| false)), is_used: false },
        )
    } else if is_el2008_identity(id) {
        EthercatDevice::EL2008(
            EL2008 { rxpdo: EL2008RxPdo::from_bits(Seq::new(8, |k: int| false)), is_used: false },
        )
    } else {
        EthercatDevice::Unsupported(id)
    }
}

/// Builds the driver registered for a subdevice identity, unclaimed and with
/// every output off; fails with `NoDriver` for an identity without a driver.
pub fn device_from_subdevice_identity_tuple(subdevice_identity_tuple: SubDeviceIdentityTuple) -> (r:
    Result<EthercatDevice, ControlError>)
    ensures
        (is_el2004_identity(subdevice_identity_tuple) || is_el2008_identity(
            subdevice_identity_tuple,
        )) ==> r == Ok::<EthercatDevice, ControlError>(fresh_device(subdevice_identity_tuple)),
        !is_el2004_identity(subdevice_identity_tuple) && !is_el2008_identity(subdevice_identity_tuple)
            ==> r == Err::<EthercatDevice, ControlError>(ControlError::NoDriver),
{
    let id = subdevice_identity_tuple;
    if identity_eq(id, EL2004_IDENTITY_A) || identity_eq(id, EL2004_IDENTITY_B) {
        let d = EL2004::new();
        assert(d.rxpdo == EL2004RxPdo::from_bits(Seq::new(4, |k: int| false)));
        Ok(EthercatDevice::EL2004(d))
    } else if identity_eq(id, EL2008_IDENTITY_A) || identity_eq(id, EL2008_IDENTITY_B)
        || identity_eq(id, EL2008_IDENTITY_C) {
        let d = EL2008::new();
        assert(d.rxpdo == EL2008RxPdo::from_bits(Seq::new(8, |k: int| false)));
        Ok(EthercatDevice::EL2008(d))
    } else {
        Err(ControlError::NoDriver)
    }
}

/// The device table of a bus, in bus order: the registered driver of each
/// subdevice, or an unsupported entry where no driver is registered.
pub fn devices_from_subdevices(subdevice_identities: &Vec<SubDeviceIdentityTuple>) -> (r: Vec<
    EthercatDevice,
>)
    ensures
        r@.len() == subdevice_identities@.len(),
        forall|i: int|
            0 <= i < r@.len() ==> #[trigger] r@[i] == fresh_device(subdevice_identities@[i]),
{
    let mut out: Vec<EthercatDevice> = Vec::new();
    let mut i: usize = 0;
    while i < subdevice_identities.len()
        invariant
            0 <= i <= subdevice_identities@.len(),
            out@.len() == i,
            forall|k: int| 0 <= k < i ==> #[trigger] out@[k] == fresh_device(subdevice_identities@[k]),
        decreases subdevice_identities@.len() - i,
    {
        let id = subdevice_identities[i];
        let d = match device_from_subdevice_identity_tuple(id) {
            Ok(d) => d,
            Err(_) => EthercatDevice::Unsupported(id),
        };
        out.push(d);
        i += 1;
    }
    out
}

} // verus!
