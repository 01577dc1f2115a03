use vstd::prelude::*;
use std::collections::HashMap;

verus! {

/// Source kinds of input nodes.
#[derive(Debug, Clone, Copy, PartialEq, Eq, Structural)]
pub enum InputType {
    Camera,
    ScreenCapture,
    WindowCapture,
    VideoFile,
    TestPattern,
}

/// Sink kinds of output nodes.
#[derive(Debug, Clone, Copy, PartialEq, Eq, Structural)]
pub enum OutputType {
    VirtualWebcam,
    Preview,
}

/// Kinds of video effect nodes.
#[derive(Debug, Clone, Copy, PartialEq, Eq, Structural)]
pub enum EffectType {
    ColorCorrection,
    Blur,
    Sharpen,
    Transform,
    Composite,
}

/// Kinds of audio nodes.
#[derive(Debug, Clone, Copy, PartialEq, Eq, Structural)]
pub enum AudioType {
    Input,
    Mixer,
    Effect,
    Output,
}

/// Kinds of tally (on-air signalling) nodes.
#[derive(Debug, Clone, Copy, PartialEq, Eq, Structural)]
pub enum TallyType {
    Generator,
    Monitor,
    Logic,
    Router,
}

/// Kinds of controller nodes.
#[derive(Debug, Clone, Copy, PartialEq, Eq, Structural)]
pub enum ControlType {
    Lfo,
    Timeline,
    MidiController,
    MathController,
    AudioReactive,
    GamepadController,
    TouchOSC,
    Envelope,
    RandomController,
    LogicController,
    OSCReceiver,
    WebSocketController,
    APIController,
    VideoAnalysis,
}

/// The kind of a node in the processing graph.
#[derive(Debug, Clone, Copy, PartialEq, Eq, Structural)]
pub enum NodeType {
    Input(InputType),
    Output(OutputType),
    Effect(EffectType),
    Audio(AudioType),
    Tally(TallyType),
    Control(ControlType),
}

/// The kind of data a connection carries.
#[derive(Debug, Clone, Copy, PartialEq, Eq, Structural)]
pub enum ConnectionType {
    RenderData,
    Audio,
    Control,
}

/// Kinds of frame processors.
#[derive(Debug, Clone, Copy, PartialEq, Eq, Structural)]
pub enum ProcessorType {
    PassThrough,
    ColorCorrection,
    Blur,
    Transform,
}

/// Kinds of scene lights.
#[derive(Debug, Clone, Copy, PartialEq, Eq, Structural)]
pub enum LightType {
    Directional,
    Point,
    Spot,
    Area,
}

/// Tally state carried with a frame: on air, in preview, and named custom tallies.
#[derive(Debug, Clone)]
pub struct TallyData {
    pub program_tally: bool,
    pub preview_tally: bool,
    pub custom_tally: HashMap<String, bool>,
}

} // verus!
