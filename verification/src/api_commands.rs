//! The protocol's command, channel and value identifiers, each with the byte
//! that stands for it on the wire.

use vstd::prelude::*;

verus! {

/// Identifiers of the protocol's commands. The byte of each is the first byte of
/// its request and of the answer to it.
#[derive(Clone, Copy, Debug, PartialEq, Eq)]
pub enum ViaCommandId {
    GetProtocolVersion,
    GetKeyboardValue,
    SetKeyboardValue,
    DynamicKeymapGetKeycode,
    DynamicKeymapSetKeycode,
    DynamicKeymapClearAll,
    /// Formerly the command that set a backlight value.
    CustomMenuSetValue,
    /// Formerly the command that read a backlight value.
    CustomMenuGetValue,
    /// Formerly the command that saved the backlight values.
    CustomMenuSave,
    EepromReset,
    BootloaderJump,
    DynamicKeymapMacroGetCount,
    DynamicKeymapMacroGetBufferSize,
    DynamicKeymapMacroGetBuffer,
    DynamicKeymapMacroSetBuffer,
    DynamicKeymapMacroReset,
    DynamicKeymapGetLayerCount,
    DynamicKeymapGetBuffer,
    DynamicKeymapSetBuffer,
    DynamicKeymapGetEncoder,
    DynamicKeymapSetEncoder,
}

impl ViaCommandId {
    /// The byte that stands for this identifier on the wire.
    pub open spec fn spec_code(self) -> u8 {
        match self {
            ViaCommandId::GetProtocolVersion => 0x01,
            ViaCommandId::GetKeyboardValue => 0x02,
            ViaCommandId::SetKeyboardValue => 0x03,
            ViaCommandId::DynamicKeymapGetKeycode => 0x04,
            ViaCommandId::DynamicKeymapSetKeycode => 0x05,
            ViaCommandId::DynamicKeymapClearAll => 0x06,
            ViaCommandId::CustomMenuSetValue => 0x07,
            ViaCommandId::CustomMenuGetValue => 0x08,
            ViaCommandId::CustomMenuSave => 0x09,
            ViaCommandId::EepromReset => 0x0a,
            ViaCommandId::BootloaderJump => 0x0b,
            ViaCommandId::DynamicKeymapMacroGetCount => 0x0c,
            ViaCommandId::DynamicKeymapMacroGetBufferSize => 0x0d,
            ViaCommandId::DynamicKeymapMacroGetBuffer => 0x0e,
            ViaCommandId::DynamicKeymapMacroSetBuffer => 0x0f,
            ViaCommandId::DynamicKeymapMacroReset => 0x10,
            ViaCommandId::DynamicKeymapGetLayerCount => 0x11,
            ViaCommandId::DynamicKeymapGetBuffer => 0x12,
            ViaCommandId::DynamicKeymapSetBuffer => 0x13,
            ViaCommandId::DynamicKeymapGetEncoder => 0x14,
            ViaCommandId::DynamicKeymapSetEncoder => 0x15,
        }
    }

    /// The byte that stands for this identifier on the wire.
    #[verifier::when_used_as_spec(spec_code)]
    pub fn code(self) -> (byte: u8)
        ensures
            byte == self.spec_code(),
    {
        match self {
            ViaCommandId::GetProtocolVersion => 0x01,
            ViaCommandId::GetKeyboardValue => 0x02,
            ViaCommandId::SetKeyboardValue => 0x03,
            ViaCommandId::DynamicKeymapGetKeycode => 0x04,
            ViaCommandId::DynamicKeymapSetKeycode => 0x05,
            ViaCommandId::DynamicKeymapClearAll => 0x06,
            ViaCommandId::CustomMenuSetValue => 0x07,
            ViaCommandId::CustomMenuGetValue => 0x08,
            ViaCommandId::CustomMenuSave => 0x09,
            ViaCommandId::EepromReset => 0x0a,
            ViaCommandId::BootloaderJump => 0x0b,
            ViaCommandId::DynamicKeymapMacroGetCount => 0x0c,
            ViaCommandId::DynamicKeymapMacroGetBufferSize => 0x0d,
            ViaCommandId::DynamicKeymapMacroGetBuffer => 0x0e,
            ViaCommandId::DynamicKeymapMacroSetBuffer => 0x0f,
            ViaCommandId::DynamicKeymapMacroReset => 0x10,
            ViaCommandId::DynamicKeymapGetLayerCount => 0x11,
            ViaCommandId::DynamicKeymapGetBuffer => 0x12,
            ViaCommandId::DynamicKeymapSetBuffer => 0x13,
            ViaCommandId::DynamicKeymapGetEncoder => 0x14,
            ViaCommandId::DynamicKeymapSetEncoder => 0x15,
        }
    }
}

/// Channels that the custom menu commands address.
#[derive(Clone, Copy, Debug, PartialEq, Eq)]
pub enum ViaChannelId {
    IdCustomChannel,
    IdQmkBacklightChannel,
    IdQmkRgblightChannel,
    IdQmkRgbMatrixChannel,
    IdQmkAudioChannel,
    IdQmkLedMatrixChannel,
}

impl ViaChannelId {
    /// The byte that stands for this identifier on the wire.
    pub open spec fn spec_code(self) -> u8 {
        match self {
            ViaChannelId::IdCustomChannel => 0x00,
            ViaChannelId::IdQmkBacklightChannel => 0x01,
            ViaChannelId::IdQmkRgblightChannel => 0x02,
            ViaChannelId::IdQmkRgbMatrixChannel => 0x03,
            ViaChannelId::IdQmkAudioChannel => 0x04,
            ViaChannelId::IdQmkLedMatrixChannel => 0x05,
        }
    }

    /// The byte that stands for this identifier on the wire.
    #[verifier::when_used_as_spec(spec_code)]
    pub fn code(self) -> (byte: u8)
        ensures
            byte == self.spec_code(),
    {
        match self {
            ViaChannelId::IdCustomChannel => 0x00,
            ViaChannelId::IdQmkBacklightChannel => 0x01,
            ViaChannelId::IdQmkRgblightChannel => 0x02,
            ViaChannelId::IdQmkRgbMatrixChannel => 0x03,
            ViaChannelId::IdQmkAudioChannel => 0x04,
            ViaChannelId::IdQmkLedMatrixChannel => 0x05,
        }
    }
}

/// Values of the backlight channel.
#[derive(Clone, Copy, Debug, PartialEq, Eq)]
pub enum ViaQmkBacklightValue {
    IdQmkBacklightBrightness,
    IdQmkBacklightEffect,
}

impl ViaQmkBacklightValue {
    /// The byte that stands for this identifier on the wire.
    pub open spec fn spec_code(self) -> u8 {
        match self {
            ViaQmkBacklightValue::IdQmkBacklightBrightness => 0x01,
            ViaQmkBacklightValue::IdQmkBacklightEffect => 0x02,
        }
    }

    /// The byte that stands for this identifier on the wire.
    #[verifier::when_used_as_spec(spec_code)]
    pub fn code(self) -> (byte: u8)
        ensures
            byte == self.spec_code(),
    {
        match self {
            ViaQmkBacklightValue::IdQmkBacklightBrightness => 0x01,
            ViaQmkBacklightValue::IdQmkBacklightEffect => 0x02,
        }
    }
}

/// Values of the RGB light channel.
#[derive(Clone, Copy, Debug, PartialEq, Eq)]
pub enum ViaQmkRgblightValue {
    IdQmkRgblightBrightness,
    IdQmkRgblightEffect,
    IdQmkRgblightEffectSpeed,
    IdQmkRgblightColor,
}

impl ViaQmkRgblightValue {
    /// The byte that stands for this identifier on the wire.
    pub open spec fn spec_code(self) -> u8 {
        match self {
            ViaQmkRgblightValue::IdQmkRgblightBrightness => 0x01,
            ViaQmkRgblightValue::IdQmkRgblightEffect => 0x02,
            ViaQmkRgblightValue::IdQmkRgblightEffectSpeed => 0x03,
            ViaQmkRgblightValue::IdQmkRgblightColor => 0x04,
        }
    }

    /// The byte that stands for this identifier on the wire.
    #[verifier::when_used_as_spec(spec_code)]
    pub fn code(self) -> (byte: u8)
        ensures
            byte == self.spec_code(),
    {
        match self {
            ViaQmkRgblightValue::IdQmkRgblightBrightness => 0x01,
            ViaQmkRgblightValue::IdQmkRgblightEffect => 0x02,
            ViaQmkRgblightValue::IdQmkRgblightEffectSpeed => 0x03,
            ViaQmkRgblightValue::IdQmkRgblightColor => 0x04,
        }
    }
}

/// Values of the RGB matrix channel.
#[derive(Clone, Copy, Debug, PartialEq, Eq)]
pub enum ViaQmkRgbMatrixValue {
    IdQmkRgbMatrixBrightness,
    IdQmkRgbMatrixEffect,
    IdQmkRgbMatrixEffectSpeed,
    IdQmkRgbMatrixColor,
}

impl ViaQmkRgbMatrixValue {
    /// The byte that stands for this identifier on the wire.
    pub open spec fn spec_code(self) -> u8 {
        match self {
            ViaQmkRgbMatrixValue::IdQmkRgbMatrixBrightness => 0x01,
            ViaQmkRgbMatrixValue::IdQmkRgbMatrixEffect => 0x02,
            ViaQmkRgbMatrixValue::IdQmkRgbMatrixEffectSpeed => 0x03,
            ViaQmkRgbMatrixValue::IdQmkRgbMatrixColor => 0x04,
        }
    }

    /// The byte that stands for this identifier on the wire.
    #[verifier::when_used_as_spec(spec_code)]
    pub fn code(self) -> (byte: u8)
        ensures
            byte == self.spec_code(),
    {
        match self {
            ViaQmkRgbMatrixValue::IdQmkRgbMatrixBrightness => 0x01,
            ViaQmkRgbMatrixValue::IdQmkRgbMatrixEffect => 0x02,
            ViaQmkRgbMatrixValue::IdQmkRgbMatrixEffectSpeed => 0x03,
            ViaQmkRgbMatrixValue::IdQmkRgbMatrixColor => 0x04,
        }
    }
}

/// Values of the LED matrix channel.
#[derive(Clone, Copy, Debug, PartialEq, Eq)]
pub enum ViaQmkLedMatrixValue {
    IdQmkLedMatrixBrightness,
    IdQmkLedMatrixEffect,
    IdQmkLedMatrixEffectSpeed,
}

impl ViaQmkLedMatrixValue {
    /// The byte that stands for this identifier on the wire.
    pub open spec fn spec_code(self) -> u8 {
        match self {
            ViaQmkLedMatrixValue::IdQmkLedMatrixBrightness => 0x01,
            ViaQmkLedMatrixValue::IdQmkLedMatrixEffect => 0x02,
            ViaQmkLedMatrixValue::IdQmkLedMatrixEffectSpeed => 0x03,
        }
    }

    /// The byte that stands for this identifier on the wire.
    #[verifier::when_used_as_spec(spec_code)]
    pub fn code(self) -> (byte: u8)
        ensures
            byte == self.spec_code(),
    {
        match self {
            ViaQmkLedMatrixValue::IdQmkLedMatrixBrightness => 0x01,
            ViaQmkLedMatrixValue::IdQmkLedMatrixEffect => 0x02,
            ViaQmkLedMatrixValue::IdQmkLedMatrixEffectSpeed => 0x03,
        }
    }
}

/// Values of the audio channel.
#[derive(Clone, Copy, Debug, PartialEq, Eq)]
pub enum ViaQmkAudioValue {
    IdQmkAudioEnable,
    IdQmkAudioClickyEnable,
}

impl ViaQmkAudioValue {
    /// The byte that stands for this identifier on the wire.
    pub open spec fn spec_code(self) -> u8 {
        match self {
            ViaQmkAudioValue::IdQmkAudioEnable => 0x01,
            ViaQmkAudioValue::IdQmkAudioClickyEnable => 0x02,
        }
    }

    /// The byte that stands for this identifier on the wire.
    #[verifier::when_used_as_spec(spec_code)]
    pub fn code(self) -> (byte: u8)
        ensures
            byte == self.spec_code(),
    {
        match self {
            ViaQmkAudioValue::IdQmkAudioEnable => 0x01,
            ViaQmkAudioValue::IdQmkAudioClickyEnable => 0x02,
        }
    }
}

/// No two commands share a wire byte.
pub proof fn lemma_command_codes_differ(a: ViaCommandId, b: ViaCommandId)
    requires
        a.spec_code() == b.spec_code(),
    ensures
        a == b,
{
}

} // verus!
