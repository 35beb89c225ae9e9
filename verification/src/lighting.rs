//! The lighting and audio settings, which travel as custom menu values: a
//! channel, a value of that channel, and the setting's bytes.

use crate::api::{KeyboardApi, Step};
use crate::api_commands::{
    ViaChannelId, ViaCommandId, ViaQmkAudioValue, ViaQmkBacklightValue, ViaQmkLedMatrixValue,
    ViaQmkRgbMatrixValue, ViaQmkRgblightValue,
};
use crate::session::{single, StepView};
use crate::transfer::{shape_needs, Keep, Shape};
use vstd::prelude::*;

verus! {

/// Where a setting begins in the answer to a read: behind the command, the
/// channel and the value.
pub const SETTING_OFFSET: usize = 3;

/// The first step of reading a setting: the request names the channel and
/// the value, and the setting is taken from behind them in the answer.
pub open spec fn setting_read(channel: ViaChannelId, value: u8, shape: Shape) -> StepView {
    single(
        ViaCommandId::CustomMenuGetValue,
        seq![channel.spec_code(), value],
        Keep::Range { start: SETTING_OFFSET, len: shape_needs(shape) as usize },
        shape,
    )
}

/// The first step of writing a setting: the request names the channel and
/// the value and carries the setting's bytes.
pub open spec fn setting_write(channel: ViaChannelId, value: u8, setting: Seq<u8>) -> StepView {
    single(
        ViaCommandId::CustomMenuSetValue,
        seq![channel.spec_code(), value] + setting,
        Keep::Range { start: 0, len: 0 },
        Shape::Empty,
    )
}

/// Begins reading a setting of one or two bytes.
fn read_setting(channel: ViaChannelId, value: u8, shape: Shape) -> (step: Step)
    requires
        shape is Byte || shape is Flag || shape is Pair,
    ensures
        step@ == setting_read(channel, value, shape),
{
    let len: usize = match shape {
        Shape::Pair => 2,
        _ => 1,
    };
    let mut bytes: Vec<u8> = Vec::new();
    bytes.push(channel.code());
    bytes.push(value);
    assert(bytes@ =~= seq![channel.spec_code(), value]);
    KeyboardApi::exchange(
        ViaCommandId::CustomMenuGetValue,
        bytes,
        Keep::Range { start: SETTING_OFFSET, len },
        shape,
    )
}

/// Begins writing a setting of one byte.
fn write_setting(channel: ViaChannelId, value: u8, setting: u8) -> (step: Step)
    ensures
        step@ == setting_write(channel, value, seq![setting]),
{
    let mut bytes: Vec<u8> = Vec::new();
    bytes.push(channel.code());
    bytes.push(value);
    bytes.push(setting);
    assert(bytes@ =~= seq![channel.spec_code(), value] + seq![setting]);
    KeyboardApi::exchange(
        ViaCommandId::CustomMenuSetValue,
        bytes,
        Keep::Range { start: 0, len: 0 },
        Shape::Empty,
    )
}

/// Begins writing a setting of two bytes.
fn write_setting_pair(channel: ViaChannelId, value: u8, first: u8, second: u8) -> (step: Step)
    ensures
        step@ == setting_write(channel, value, seq![first, second]),
{
    let mut bytes: Vec<u8> = Vec::new();
    bytes.push(channel.code());
    bytes.push(value);
    bytes.push(first);
    bytes.push(second);
    assert(bytes@ =~= seq![channel.spec_code(), value] + seq![first, second]);
    KeyboardApi::exchange(
        ViaCommandId::CustomMenuSetValue,
        bytes,
        Keep::Range { start: 0, len: 0 },
        Shape::Empty,
    )
}

impl KeyboardApi {
    /// Begins reading the backlight brightness.
    pub fn get_backlight_brightness() -> (step: Step)
        ensures
            step@ == setting_read(
                ViaChannelId::IdQmkBacklightChannel,
                ViaQmkBacklightValue::IdQmkBacklightBrightness.spec_code(),
                Shape::Byte,
            ),
    {
        read_setting(
            ViaChannelId::IdQmkBacklightChannel,
            ViaQmkBacklightValue::IdQmkBacklightBrightness.code(),
            Shape::Byte,
        )
    }

    /// Begins setting the backlight brightness.
    pub fn set_backlight_brightness(brightness: u8) -> (step: Step)
        ensures
            step@ == setting_write(
                ViaChannelId::IdQmkBacklightChannel,
                ViaQmkBacklightValue::IdQmkBacklightBrightness.spec_code(),
                seq![brightness],
            ),
    {
        write_setting(
            ViaChannelId::IdQmkBacklightChannel,
            ViaQmkBacklightValue::IdQmkBacklightBrightness.code(),
            brightness,
        )
    }

    /// Begins reading the backlight effect.
    pub fn get_backlight_effect() -> (step: Step)
        ensures
            step@ == setting_read(
                ViaChannelId::IdQmkBacklightChannel,
                ViaQmkBacklightValue::IdQmkBacklightEffect.spec_code(),
                Shape::Byte,
            ),
    {
        read_setting(
            ViaChannelId::IdQmkBacklightChannel,
            ViaQmkBacklightValue::IdQmkBacklightEffect.code(),
            Shape::Byte,
        )
    }

    /// Begins setting the backlight effect.
    pub fn set_backlight_effect(effect: u8) -> (step: Step)
        ensures
            step@ == setting_write(
                ViaChannelId::IdQmkBacklightChannel,
                ViaQmkBacklightValue::IdQmkBacklightEffect.spec_code(),
                seq![effect],
            ),
    {
        write_setting(
            ViaChannelId::IdQmkBacklightChannel,
            ViaQmkBacklightValue::IdQmkBacklightEffect.code(),
            effect,
        )
    }

    /// Begins reading the RGB light brightness.
    pub fn get_rgblight_brightness() -> (step: Step)
        ensures
            step@ == setting_read(
                ViaChannelId::IdQmkRgblightChannel,
                ViaQmkRgblightValue::IdQmkRgblightBrightness.spec_code(),
                Shape::Byte,
            ),
    {
        read_setting(
            ViaChannelId::IdQmkRgblightChannel,
            ViaQmkRgblightValue::IdQmkRgblightBrightness.code(),
            Shape::Byte,
        )
    }

    /// Begins setting the RGB light brightness.
    pub fn set_rgblight_brightness(brightness: u8) -> (step: Step)
        ensures
            step@ == setting_write(
                ViaChannelId::IdQmkRgblightChannel,
                ViaQmkRgblightValue::IdQmkRgblightBrightness.spec_code(),
                seq![brightness],
            ),
    {
        write_setting(
            ViaChannelId::IdQmkRgblightChannel,
            ViaQmkRgblightValue::IdQmkRgblightBrightness.code(),
            brightness,
        )
    }

    /// Begins reading the RGB light effect.
    pub fn get_rgblight_effect() -> (step: Step)
        ensures
            step@ == setting_read(
                ViaChannelId::IdQmkRgblightChannel,
                ViaQmkRgblightValue::IdQmkRgblightEffect.spec_code(),
                Shape::Byte,
            ),
    {
        read_setting(
            ViaChannelId::IdQmkRgblightChannel,
            ViaQmkRgblightValue::IdQmkRgblightEffect.code(),
            Shape::Byte,
        )
    }

    /// Begins setting the RGB light effect.
    pub fn set_rgblight_effect(effect: u8) -> (step: Step)
        ensures
            step@ == setting_write(
                ViaChannelId::IdQmkRgblightChannel,
                ViaQmkRgblightValue::IdQmkRgblightEffect.spec_code(),
                seq![effect],
            ),
    {
        write_setting(
            ViaChannelId::IdQmkRgblightChannel,
            ViaQmkRgblightValue::IdQmkRgblightEffect.code(),
            effect,
        )
    }

    /// Begins reading the RGB light effect speed.
    pub fn get_rgblight_effect_speed() -> (step: Step)
        ensures
            step@ == setting_read(
                ViaChannelId::IdQmkRgblightChannel,
                ViaQmkRgblightValue::IdQmkRgblightEffectSpeed.spec_code(),
                Shape::Byte,
            ),
    {
        read_setting(
            ViaChannelId::IdQmkRgblightChannel,
            ViaQmkRgblightValue::IdQmkRgblightEffectSpeed.code(),
            Shape::Byte,
        )
    }

    /// Begins setting the RGB light effect speed.
    pub fn set_rgblight_effect_speed(speed: u8) -> (step: Step)
        ensures
            step@ == setting_write(
                ViaChannelId::IdQmkRgblightChannel,
                ViaQmkRgblightValue::IdQmkRgblightEffectSpeed.spec_code(),
                seq![speed],
            ),
    {
        write_setting(
            ViaChannelId::IdQmkRgblightChannel,
            ViaQmkRgblightValue::IdQmkRgblightEffectSpeed.code(),
            speed,
        )
    }

    /// Begins reading the RGB light color: its hue and its saturation.
    pub fn get_rgblight_color() -> (step: Step)
        ensures
            step@ == setting_read(
                ViaChannelId::IdQmkRgblightChannel,
                ViaQmkRgblightValue::IdQmkRgblightColor.spec_code(),
                Shape::Pair,
            ),
    {
        read_setting(
            ViaChannelId::IdQmkRgblightChannel,
            ViaQmkRgblightValue::IdQmkRgblightColor.code(),
            Shape::Pair,
        )
    }

    /// Begins setting the RGB light color by its hue and its saturation.
    pub fn set_rgblight_color(hue: u8, sat: u8) -> (step: Step)
        ensures
            step@ == setting_write(
                ViaChannelId::IdQmkRgblightChannel,
                ViaQmkRgblightValue::IdQmkRgblightColor.spec_code(),
                seq![hue, sat],
            ),
    {
        write_setting_pair(
            ViaChannelId::IdQmkRgblightChannel,
            ViaQmkRgblightValue::IdQmkRgblightColor.code(),
            hue,
            sat,
        )
    }

    /// Begins reading the RGB matrix brightness.
    pub fn get_rgb_matrix_brightness() -> (step: Step)
        ensures
            step@ == setting_read(
                ViaChannelId::IdQmkRgbMatrixChannel,
                ViaQmkRgbMatrixValue::IdQmkRgbMatrixBrightness.spec_code(),
                Shape::Byte,
            ),
    {
        read_setting(
            ViaChannelId::IdQmkRgbMatrixChannel,
            ViaQmkRgbMatrixValue::IdQmkRgbMatrixBrightness.code(),
            Shape::Byte,
        )
    }

    /// Begins setting the RGB matrix brightness.
    pub fn set_rgb_matrix_brightness(brightness: u8) -> (step: Step)
        ensures
            step@ == setting_write(
                ViaChannelId::IdQmkRgbMatrixChannel,
                ViaQmkRgbMatrixValue::IdQmkRgbMatrixBrightness.spec_code(),
                seq![brightness],
            ),
    {
        write_setting(
            ViaChannelId::IdQmkRgbMatrixChannel,
            ViaQmkRgbMatrixValue::IdQmkRgbMatrixBrightness.code(),
            brightness,
        )
    }

    /// Begins reading the RGB matrix effect.
    pub fn get_rgb_matrix_effect() -> (step: Step)
        ensures
            step@ == setting_read(
                ViaChannelId::IdQmkRgbMatrixChannel,
                ViaQmkRgbMatrixValue::IdQmkRgbMatrixEffect.spec_code(),
                Shape::Byte,
            ),
    {
        read_setting(
            ViaChannelId::IdQmkRgbMatrixChannel,
            ViaQmkRgbMatrixValue::IdQmkRgbMatrixEffect.code(),
            Shape::Byte,
        )
    }

    /// Begins setting the RGB matrix effect.
    pub fn set_rgb_matrix_effect(effect: u8) -> (step: Step)
        ensures
            step@ == setting_write(
                ViaChannelId::IdQmkRgbMatrixChannel,
                ViaQmkRgbMatrixValue::IdQmkRgbMatrixEffect.spec_code(),
                seq![effect],
            ),
    {
        write_setting(
            ViaChannelId::IdQmkRgbMatrixChannel,
            ViaQmkRgbMatrixValue::IdQmkRgbMatrixEffect.code(),
            effect,
        )
    }

    /// Begins reading the RGB matrix effect speed.
    pub fn get_rgb_matrix_effect_speed() -> (step: Step)
        ensures
            step@ == setting_read(
                ViaChannelId::IdQmkRgbMatrixChannel,
                ViaQmkRgbMatrixValue::IdQmkRgbMatrixEffectSpeed.spec_code(),
                Shape::Byte,
            ),
    {
        read_setting(
            ViaChannelId::IdQmkRgbMatrixChannel,
            ViaQmkRgbMatrixValue::IdQmkRgbMatrixEffectSpeed.code(),
            Shape::Byte,
        )
    }

    /// Begins setting the RGB matrix effect speed.
    pub fn set_rgb_matrix_effect_speed(speed: u8) -> (step: Step)
        ensures
            step@ == setting_write(
                ViaChannelId::IdQmkRgbMatrixChannel,
                ViaQmkRgbMatrixValue::IdQmkRgbMatrixEffectSpeed.spec_code(),
                seq![speed],
            ),
    {
        write_setting(
            ViaChannelId::IdQmkRgbMatrixChannel,
            ViaQmkRgbMatrixValue::IdQmkRgbMatrixEffectSpeed.code(),
            speed,
        )
    }

    /// Begins reading the RGB matrix color: its hue and its saturation.
    pub fn get_rgb_matrix_color() -> (step: Step)
        ensures
            step@ == setting_read(
                ViaChannelId::IdQmkRgbMatrixChannel,
                ViaQmkRgbMatrixValue::IdQmkRgbMatrixColor.spec_code(),
                Shape::Pair,
            ),
    {
        read_setting(
            ViaChannelId::IdQmkRgbMatrixChannel,
            ViaQmkRgbMatrixValue::IdQmkRgbMatrixColor.code(),
            Shape::Pair,
        )
    }

    /// Begins setting the RGB matrix color by its hue and its saturation.
    pub fn set_rgb_matrix_color(hue: u8, sat: u8) -> (step: Step)
        ensures
            step@ == setting_write(
                ViaChannelId::IdQmkRgbMatrixChannel,
                ViaQmkRgbMatrixValue::IdQmkRgbMatrixColor.spec_code(),
                seq![hue, sat],
            ),
    {
        write_setting_pair(
            ViaChannelId::IdQmkRgbMatrixChannel,
            ViaQmkRgbMatrixValue::IdQmkRgbMatrixColor.code(),
            hue,
            sat,
        )
    }

    /// Begins reading the LED matrix brightness.
    pub fn get_led_matrix_brightness() -> (step: Step)
        ensures
            step@ == setting_read(
                ViaChannelId::IdQmkLedMatrixChannel,
                ViaQmkLedMatrixValue::IdQmkLedMatrixBrightness.spec_code(),
                Shape::Byte,
            ),
    {
        read_setting(
            ViaChannelId::IdQmkLedMatrixChannel,
            ViaQmkLedMatrixValue::IdQmkLedMatrixBrightness.code(),
            Shape::Byte,
        )
    }

    /// Begins setting the LED matrix brightness.
    pub fn set_led_matrix_brightness(brightness: u8) -> (step: Step)
        ensures
            step@ == setting_write(
                ViaChannelId::IdQmkLedMatrixChannel,
                ViaQmkLedMatrixValue::IdQmkLedMatrixBrightness.spec_code(),
                seq![brightness],
            ),
    {
        write_setting(
            ViaChannelId::IdQmkLedMatrixChannel,
            ViaQmkLedMatrixValue::IdQmkLedMatrixBrightness.code(),
            brightness,
        )
    }

    /// Begins reading the LED matrix effect.
    pub fn get_led_matrix_effect() -> (step: Step)
        ensures
            step@ == setting_read(
                ViaChannelId::IdQmkLedMatrixChannel,
                ViaQmkLedMatrixValue::IdQmkLedMatrixEffect.spec_code(),
                Shape::Byte,
            ),
    {
        read_setting(
            ViaChannelId::IdQmkLedMatrixChannel,
            ViaQmkLedMatrixValue::IdQmkLedMatrixEffect.code(),
            Shape::Byte,
        )
    }

    /// Begins setting the LED matrix effect.
    pub fn set_led_matrix_effect(effect: u8) -> (step: Step)
        ensures
            step@ == setting_write(
                ViaChannelId::IdQmkLedMatrixChannel,
                ViaQmkLedMatrixValue::IdQmkLedMatrixEffect.spec_code(),
                seq![effect],
            ),
    {
        write_setting(
            ViaChannelId::IdQmkLedMatrixChannel,
            ViaQmkLedMatrixValue::IdQmkLedMatrixEffect.code(),
            effect,
        )
    }

    /// Begins reading the LED matrix effect speed.
    pub fn get_led_matrix_effect_speed() -> (step: Step)
        ensures
            step@ == setting_read(
                ViaChannelId::IdQmkLedMatrixChannel,
                ViaQmkLedMatrixValue::IdQmkLedMatrixEffectSpeed.spec_code(),
                Shape::Byte,
            ),
    {
        read_setting(
            ViaChannelId::IdQmkLedMatrixChannel,
            ViaQmkLedMatrixValue::IdQmkLedMatrixEffectSpeed.code(),
            Shape::Byte,
        )
    }

    /// Begins setting the LED matrix effect speed.
    pub fn set_led_matrix_effect_speed(speed: u8) -> (step: Step)
        ensures
            step@ == setting_write(
                ViaChannelId::IdQmkLedMatrixChannel,
                ViaQmkLedMatrixValue::IdQmkLedMatrixEffectSpeed.spec_code(),
                seq![speed],
            ),
    {
        write_setting(
            ViaChannelId::IdQmkLedMatrixChannel,
            ViaQmkLedMatrixValue::IdQmkLedMatrixEffectSpeed.code(),
            speed,
        )
    }

    /// Begins saving the lighting settings.
    pub fn save_lighting() -> (step: Step)
        ensures
            step@ == single(
                ViaCommandId::CustomMenuSave,
                Seq::empty(),
                Keep::Range { start: 0, len: 0 },
                Shape::Empty,
            ),
    {
        KeyboardApi::exchange(
            ViaCommandId::CustomMenuSave,
            Vec::new(),
            Keep::Range { start: 0, len: 0 },
            Shape::Empty,
        )
    }

    /// Begins reading whether audio is enabled; it is where the setting's byte is 1.
    pub fn get_audio_enabled() -> (step: Step)
        ensures
            step@ == setting_read(
                ViaChannelId::IdQmkAudioChannel,
                ViaQmkAudioValue::IdQmkAudioEnable.spec_code(),
                Shape::Flag,
            ),
    {
        read_setting(
            ViaChannelId::IdQmkAudioChannel,
            ViaQmkAudioValue::IdQmkAudioEnable.code(),
            Shape::Flag,
        )
    }

    /// Begins setting whether audio is enabled.
    pub fn set_audio_enabled(enabled: bool) -> (step: Step)
        ensures
            step@ == setting_write(
                ViaChannelId::IdQmkAudioChannel,
                ViaQmkAudioValue::IdQmkAudioEnable.spec_code(),
                seq![if enabled { 1u8 } else { 0u8 }],
            ),
    {
        let setting: u8 = if enabled {
            1
        } else {
            0
        };
        write_setting(
            ViaChannelId::IdQmkAudioChannel,
            ViaQmkAudioValue::IdQmkAudioEnable.code(),
            setting,
        )
    }

    /// Begins reading whether the clicky sound is enabled; it is where the setting's byte is 1.
    pub fn get_audio_clicky_enabled() -> (step: Step)
        ensures
            step@ == setting_read(
                ViaChannelId::IdQmkAudioChannel,
                ViaQmkAudioValue::IdQmkAudioClickyEnable.spec_code(),
                Shape::Flag,
            ),
    {
        read_setting(
            ViaChannelId::IdQmkAudioChannel,
            ViaQmkAudioValue::IdQmkAudioClickyEnable.code(),
            Shape::Flag,
        )
    }

    /// Begins setting whether the clicky sound is enabled.
    pub fn set_audio_clicky_enabled(enabled: bool) -> (step: Step)
        ensures
            step@ == setting_write(
                ViaChannelId::IdQmkAudioChannel,
                ViaQmkAudioValue::IdQmkAudioClickyEnable.spec_code(),
                seq![if enabled { 1u8 } else { 0u8 }],
            ),
    {
        let setting: u8 = if enabled {
            1
        } else {
            0
        };
        write_setting(
            ViaChannelId::IdQmkAudioChannel,
            ViaQmkAudioValue::IdQmkAudioClickyEnable.code(),
            setting,
        )
    }
}

} // verus!
