//! The messages exchanged between the pico and the tools on the host.
use vstd::prelude::*;
use vstd::string::StringSliceAdditionalSpecFns;

verus! {

/// The name of the environment variable that holds the pico's address.
pub const PICO_ADDRESS_ENVNAME: &'static str = "PICO_ADDRESS";

/// The pico's address when the environment names none.
pub const PICO_ADDRESS_DEFAULT: &'static str = "192.168.7.1:1234";

/// Number of measurement slots, one per pin of the pico.
pub const MAX_NUM_MEASUREMENTS: usize = 32;

/// Number of pins that a bar graph selection may name.
pub const NUM_PINS: usize = 32;

/// Number of digital inputs of the board.
pub const NUM_PINS_DI: usize = 4;

/// Number of digital outputs of the board.
pub const NUM_PINS_DO: usize = 5;

/// Number of analog inputs of the board.
pub const NUM_PINS_AI: usize = 3;

/// Number of analog outputs of the board.
pub const NUM_PINS_AO: usize = 2;

/// Capacity of a label, in bytes.
pub const LABEL_CAPACITY: usize = 16;

/// The last value seen on each pin, indexed by pin number.
pub type Measurements = [u8; 32];

/// A list of pins and their values, as sent by an input or output task.
pub type Pins<T> = Vec<(u8, T)>;

/// The error of a label that does not fit in its capacity.
#[verifier::external_type_specification]
#[verifier::external_body]
pub struct ExCapacityError(heapless::CapacityError);

/// A text of at most sixteen bytes, held in a `heapless::String<16>`.
#[verifier::external_body]
#[derive(Debug, PartialEq, Eq)]
pub struct Label {
    text: heapless::String<16>,
}

/// The characters that a label holds.
pub uninterp spec fn label_text(label: Label) -> Seq<char>;

impl Label {
    /// An empty label: `heapless::String::<16>::new`, which holds no characters.
    #[verifier::external_body]
    pub fn new() -> (label: Label)
        ensures
            label_text(label) == Seq::<char>::empty(),
    {
        Label { text: heapless::String::new() }
    }

    /// `heapless::String::<16>::try_from(&str)`: it pushes the bytes of `text` into an empty
    /// string and fails with `CapacityError` exactly when they are more than sixteen; otherwise
    /// the label holds the characters of `text`.
    #[verifier::external_body]
    pub fn try_from_str(text: &str) -> (result: Result<Label, heapless::CapacityError>)
        ensures
            result is Ok <==> text.spec_bytes().len() <= LABEL_CAPACITY,
            result matches Ok(label) ==> label_text(label) == text@,
    {
        match heapless::String::<16>::try_from(text) {
            Ok(text) => Ok(Label { text }),
            Err(error) => Err(error),
        }
    }
}

impl Label {
    /// `heapless::String::<16>::as_str`: the characters that the label holds.
    #[verifier::external_body]
    pub fn as_str(&self) -> (text: &str)
        ensures
            text@ == label_text(*self),
    {
        self.text.as_str()
    }
}

impl Clone for Label {
    /// `heapless::String::<16>::clone`, which copies the bytes: the copy is the same label.
    #[verifier::external_body]
    fn clone(&self) -> (copy: Self)
        ensures
            copy == *self,
    {
        Label { text: self.text.clone() }
    }
}

/// A command sent to the pico.
#[derive(Debug, PartialEq, Eq)]
pub enum Command {
    Ping,
    Restart,
    Subscribe,
    SetDO { pin: u8, value: bool },
    SetAO { pin: u8, value: u8 },
    BangBangStart,
    BangBangStop,
    BangBangInput { pin: u8 },
    BangBangOutput { pin: u8 },
    BangBangLowerLimit { value: u8 },
    BangBangUpperLimit { value: u8 },
    BangBangShow,
    BangBangHide,
    ClearDisplay,
    AddLine { label: Label, value: Value },
    AddPage,
    RemovePage,
    StartSequence { sequence_id: u8 },
    StopSequence,
}

impl Clone for Command {
    fn clone(&self) -> (copy: Self)
        ensures
            copy == *self,
    {
        match self {
            Command::Ping => Command::Ping,
            Command::Restart => Command::Restart,
            Command::Subscribe => Command::Subscribe,
            Command::SetDO { pin, value } => Command::SetDO { pin: *pin, value: *value },
            Command::SetAO { pin, value } => Command::SetAO { pin: *pin, value: *value },
            Command::BangBangStart => Command::BangBangStart,
            Command::BangBangStop => Command::BangBangStop,
            Command::BangBangInput { pin } => Command::BangBangInput { pin: *pin },
            Command::BangBangOutput { pin } => Command::BangBangOutput { pin: *pin },
            Command::BangBangLowerLimit { value } => Command::BangBangLowerLimit { value: *value },
            Command::BangBangUpperLimit { value } => Command::BangBangUpperLimit { value: *value },
            Command::BangBangShow => Command::BangBangShow,
            Command::BangBangHide => Command::BangBangHide,
            Command::ClearDisplay => Command::ClearDisplay,
            Command::AddLine { label, value } => Command::AddLine {
                label: label.clone(),
                value: *value,
            },
            Command::AddPage => Command::AddPage,
            Command::RemovePage => Command::RemovePage,
            Command::StartSequence { sequence_id } => Command::StartSequence {
                sequence_id: *sequence_id,
            },
            Command::StopSequence => Command::StopSequence,
        }
    }
}

/// A report sent by the pico: what happened and when.
#[derive(Debug, PartialEq, Eq)]
pub struct Info {
    pub content: Content,
    pub diagnostics: Diagnostics,
}

/// What a report is about.
#[derive(Debug, PartialEq, Eq)]
pub enum Content {
    Pong,
    DI { pins: Pins<bool> },
    DO { pins: Pins<bool> },
    AI { pins: Pins<u8> },
    AO { pins: Pins<u8> },
    BangBang { settings: BangBang },
}

/// The state of the bang bang controller.
#[derive(Debug, PartialEq, Eq, Structural, Clone, Copy)]
pub enum Mode {
    Off,
    Running,
    Waiting,
}

/// The settings of the bang bang controller.
#[derive(Debug, PartialEq, Eq, Structural, Clone, Copy)]
pub struct BangBang {
    pub mode: Mode,
    pub input_pin: u8,
    pub output_pin: u8,
    pub lower_limit: u8,
    pub upper_limit: u8,
}

/// What a display line shows beside its label.
#[derive(Debug, PartialEq, Eq, Structural, Clone, Copy)]
pub enum Value {
    Blank,
    OffOn(u8),
    OnOff(u8),
    Analog(u8),
    Number(u8),
    Boolean(bool),
}

/// Timing of a periodic task, in microseconds.
#[derive(Debug, PartialEq, Eq, Structural, Clone, Copy)]
pub struct Diagnostics {
    pub timestamp_us: u64,
    pub execution_us: u64,
    pub jitter_in_us: u64,
    pub period_in_us: u64,
}

} // verus!
