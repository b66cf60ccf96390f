//! Tests of the console-interface data types.

use iso::gamepad::{Gamepad, GamepadButton, GamepadSlot, GamepadState};
use iso::vdp::{
    BlendEquation, BlendFactor, Color32, Compare, DBTex, Rectangle, RenderTexture, TexCombine,
    Texture, TextureFilter, TextureFormat, TextureUnit, TextureWrap, Topology, VertexSlotFormat,
    WindingOrder,
};

#[test]
fn color_and_rectangle_constructors() {
    let c = Color32::new(20, 30, 42, 255);
    assert_eq!((c.r, c.g, c.b, c.a), (20, 30, 42, 255));
    let r = Rectangle::new(-1, 2, 640, 480);
    assert_eq!((r.x, r.y, r.width, r.height), (-1, 2, 640, 480));
}

#[test]
fn gamepad_button_mask() {
    let a = GamepadButton::from_index(0);
    let start = GamepadButton::from_index(15);
    assert_eq!(a.bits, 1);
    assert_eq!(start.bits, 1 << 15);
    let state = GamepadState {
        button_mask: GamepadButton { bits: (1 << 15) | 1 },
        left_stick_x: 0,
        left_stick_y: 0,
        right_stick_x: 0,
        right_stick_y: 0,
    };
    assert!(state.is_pressed(a));
    assert!(state.is_pressed(start));
    assert!(!state.is_pressed(GamepadButton::from_index(3)));
    assert!(GamepadButton::empty().bits == 0);
    let pad = Gamepad::new(GamepadSlot::SlotA);
    assert!(matches!(pad.slot, GamepadSlot::SlotA));
}

#[test]
fn vdp_wire_codes() {
    assert_eq!(Compare::LessOrEqual.code(), 0x0203);
    assert_eq!(Compare::Always.code(), 0x0207);
    assert_eq!(BlendEquation::Add.code(), 0x8006);
    assert_eq!(BlendFactor::SrcAlpha.code(), 0x0302);
    assert_eq!(WindingOrder::CounterClockwise.code(), 0x0901);
    assert_eq!(Topology::TriangleList.code(), 2);
    assert_eq!(TextureFormat::RGBA8888.code(), 2);
    assert_eq!(TextureFilter::Linear.code(), 0x2601);
    assert_eq!(TextureWrap::Clamp.code(), 0x812F);
    assert_eq!(VertexSlotFormat::FLOAT4.code(), 3);
    assert_eq!(TexCombine::Mix.code(), 4);
    assert_eq!(TextureUnit::TU1.code(), 1);
}

#[test]
fn textures_carry_their_handles() {
    let t = Texture {
        format: TextureFormat::RGBA8888,
        width: 64,
        height: 64,
        mipmap: false,
        handle: 5,
    };
    assert_eq!(t.get_handle(), 5);
    let rt = RenderTexture { width: 32, height: 32, handle: 9 };
    assert_eq!(rt.get_handle(), 9);
}
