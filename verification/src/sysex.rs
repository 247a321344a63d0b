//! Mode-switch SysEx messages of the APC40 mk2.
use vstd::prelude::*;

verus! {

/// Model ID of the APC40 mk2 in Akai SysEx messages.
pub const MODEL_ID: u8 = 0x29;

/// The three operating modes the APC40 mk2 can be switched into.
#[derive(Debug, Clone, Copy, PartialEq, Eq, Structural)]
pub enum ApcMode {
    Generic,
    Ableton,
    AlternateAbleton,
}

/// The mode's number as the device documents it (Mode 0, 1, 2).
pub open spec fn mode_number(mode: ApcMode) -> nat {
    match mode {
        ApcMode::Generic => 0,
        ApcMode::Ableton => 1,
        ApcMode::AlternateAbleton => 2,
    }
}

/// Menu label of a mode.
pub open spec fn spec_label(mode: ApcMode) -> Seq<char> {
    match mode {
        ApcMode::Generic => "Mode 0: Generic"@,
        ApcMode::Ableton => "Mode 1: Ableton"@,
        ApcMode::AlternateAbleton => "Mode 2: Alt Ableton"@,
    }
}

/// The byte that selects a mode in the mode-switch message: 0x40 plus the mode's number.
pub open spec fn spec_mode_byte(mode: ApcMode) -> u8 {
    match mode {
        ApcMode::Generic => 0x40,
        ApcMode::Ableton => 0x41,
        ApcMode::AlternateAbleton => 0x42,
    }
}

/// The complete mode-switch message: SysEx start, Akai manufacturer ID, device ID,
/// model ID, message type 0x60, a data length of 4 (0x00 0x04), the mode byte,
/// the firmware version bytes 0x08 0x02 0x01, and SysEx end.
pub open spec fn spec_sysex_message(mode: ApcMode) -> Seq<u8> {
    seq![
        0xF0u8, 0x47u8, 0x7Fu8, MODEL_ID, 0x60u8, 0x00u8, 0x04u8,
        spec_mode_byte(mode), 0x08u8, 0x02u8, 0x01u8, 0xF7u8,
    ]
}

/// A well-framed SysEx message: it opens with 0xF0, closes with 0xF7, and every byte
/// in between is a MIDI data byte (high bit clear).
pub open spec fn is_framed_sysex(msg: Seq<u8>) -> bool {
    &&& msg.len() >= 2
    &&& msg[0] == 0xF0u8
    &&& msg[msg.len() - 1] == 0xF7u8
    &&& forall|i: int| 1 <= i < msg.len() - 1 ==> #[trigger] msg[i] < 0x80u8
}

impl ApcMode {
    /// The mode's menu label.
    pub fn label(&self) -> (r: &'static str)
        ensures
            r@ == spec_label(*self),
    {
        match self {
            ApcMode::Generic => "Mode 0: Generic",
            ApcMode::Ableton => "Mode 1: Ableton",
            ApcMode::AlternateAbleton => "Mode 2: Alt Ableton",
        }
    }

    /// The byte that selects this mode in the mode-switch message.
    pub fn mode_byte(&self) -> (r: u8)
        ensures
            r == spec_mode_byte(*self),
            r == 0x40 + mode_number(*self),
    {
        match self {
            ApcMode::Generic => 0x40,
            ApcMode::Ableton => 0x41,
            ApcMode::AlternateAbleton => 0x42,
        }
    }

    /// Build the mode switch SysEx message (including F0/F7 framing).
    pub fn sysex_message(&self) -> (r: Vec<u8>)
        ensures
            r@ == spec_sysex_message(*self),
            is_framed_sysex(r@),
    {
        let v = vec![
            0xF0u8,
            0x47u8,
            0x7Fu8,
            MODEL_ID,
            0x60u8,
            0x00u8,
            0x04u8,
            self.mode_byte(),
            0x08u8,
            0x02u8,
            0x01u8,
            0xF7u8,
        ];
        proof {
            lemma_sysex_message_framed(*self);
        }
        v
    }
}

/// Every mode-switch message is a well-framed SysEx message of twelve bytes.
pub proof fn lemma_sysex_message_framed(mode: ApcMode)
    ensures
        is_framed_sysex(spec_sysex_message(mode)),
        spec_sysex_message(mode).len() == 12,
{
    let m = spec_sysex_message(mode);
    assert forall|i: int| 1 <= i < m.len() - 1 implies #[trigger] m[i] < 0x80u8 by {}
}

/// Different modes give different mode-switch messages, and the mode can be read back
/// from the message: its eighth byte is 0x40 plus the mode's number.
pub proof fn lemma_sysex_message_identifies_mode(a: ApcMode, b: ApcMode)
    ensures
        spec_sysex_message(a)[7] == 0x40 + mode_number(a),
        a != b ==> spec_sysex_message(a) != spec_sysex_message(b),
{
    if a != b {
        assert(spec_sysex_message(a)[7] != spec_sysex_message(b)[7]);
    }
}

/// A mode's label names the number of the mode that its message selects:
/// the label reads "Mode n: ..." where the mode byte is 0x40 + n.
pub proof fn lemma_label_matches_mode_byte(mode: ApcMode)
    ensures
        spec_label(mode).len() > 7,
        spec_label(mode).subrange(0, 5) == "Mode "@,
        spec_label(mode)[5] as int == '0' as int + (spec_mode_byte(mode) - 0x40),
        spec_label(mode)[6] == ':',
{
    reveal_strlit("Mode 0: Generic");
    reveal_strlit("Mode 1: Ableton");
    reveal_strlit("Mode 2: Alt Ableton");
    reveal_strlit("Mode ");
    assert(spec_label(mode).subrange(0, 5) =~= "Mode "@);
}

} // verus!
