use vstd::prelude::*;

verus! {

/// The failures that the device layer, the identification pipeline, machine
/// construction and the real-time cycle report.
#[derive(Debug, Clone, Copy, PartialEq, Eq, Structural)]
pub enum ControlError {
    /// No driver is registered for a subdevice identity.
    NoDriver,
    /// No identification word offsets are known for a subdevice identity.
    UnknownAddressMap,
    /// A non-volatile memory read failed.
    NvMemoryRead,
    /// A non-volatile memory write failed.
    NvMemoryWrite,
    /// Two devices of one machine carry the same role.
    DuplicateRole,
    /// Devices of one group disagree on the machine, or a device has an unexpected identity.
    IdentityMismatch,
    /// No device of the group carries a required role.
    MissingRole,
    /// A device group holds no device.
    EmptyGroup,
    /// The driver is already claimed by a machine.
    AlreadyClaimed,
    /// No machine constructor is registered for a machine identification.
    MachineNotFound,
    /// A device with the required role is not an EtherCAT device.
    NotEthercat,
    /// A subdevice index lies outside the device table.
    IndexOutOfBounds,
    /// A device identification carries no machine identification.
    Unidentified,
    /// A raw process data buffer is shorter than the driver's image.
    ShortBuffer,
    /// A driver's internal invariant was broken while processing its image.
    PostProcessFailed,
    /// The bus exchange of a cycle failed.
    TxRx,
    /// The bus group failed to change state.
    StateTransition,
}

impl ControlError {
    /// The description of each error.
    pub open spec fn description(self) -> Seq<char> {
        match self {
            ControlError::NoDriver => "no driver"@,
            ControlError::UnknownAddressMap => "unknown address map"@,
            ControlError::NvMemoryRead => "nv memory read failed"@,
            ControlError::NvMemoryWrite => "nv memory write failed"@,
            ControlError::DuplicateRole => "duplicate role"@,
            ControlError::IdentityMismatch => "identity mismatch"@,
            ControlError::MissingRole => "missing role"@,
            ControlError::EmptyGroup => "empty device group"@,
            ControlError::AlreadyClaimed => "device already claimed"@,
            ControlError::MachineNotFound => "machine not found"@,
            ControlError::NotEthercat => "device is not ethercat"@,
            ControlError::IndexOutOfBounds => "index out of bounds"@,
            ControlError::Unidentified => "no device machine identification"@,
            ControlError::ShortBuffer => "short buffer"@,
            ControlError::PostProcessFailed => "post process failed"@,
            ControlError::TxRx => "tx/rx failed"@,
            ControlError::StateTransition => "state transition failed"@,
        }
    }

    /// A short human-readable description of the error.
    pub fn describe(&self) -> (r: &'static str)
        ensures
            r@ == self.description(),
    {
        proof {
            reveal_strlit("no driver");
            reveal_strlit("unknown address map");
            reveal_strlit("nv memory read failed");
            reveal_strlit("nv memory write failed");
            reveal_strlit("duplicate role");
            reveal_strlit("identity mismatch");
            reveal_strlit("missing role");
            reveal_strlit("empty device group");
            reveal_strlit("device already claimed");
            reveal_strlit("machine not found");
            reveal_strlit("device is not ethercat");
            reveal_strlit("index out of bounds");
            reveal_strlit("no device machine identification");
            reveal_strlit("short buffer");
            reveal_strlit("post process failed");
            reveal_strlit("tx/rx failed");
            reveal_strlit("state transition failed");
        }
        match self {
            ControlError::NoDriver => "no driver",
            ControlError::UnknownAddressMap => "unknown address map",
            ControlError::NvMemoryRead => "nv memory read failed",
            ControlError::NvMemoryWrite => "nv memory write failed",
            ControlError::DuplicateRole => "duplicate role",
            ControlError::IdentityMismatch => "identity mismatch",
            ControlError::MissingRole => "missing role",
            ControlError::EmptyGroup => "empty device group",
            ControlError::AlreadyClaimed => "device already claimed",
            ControlError::MachineNotFound => "machine not found",
            ControlError::NotEthercat => "device is not ethercat",
            ControlError::IndexOutOfBounds => "index out of bounds",
            ControlError::Unidentified => "no device machine identification",
            ControlError::ShortBuffer => "short buffer",
            ControlError::PostProcessFailed => "post process failed",
            ControlError::TxRx => "tx/rx failed",
            ControlError::StateTransition => "state transition failed",
        }
    }
}

} // verus!
