use vstd::prelude::*;

verus! {

/// A keystroke read from the controlling terminal, as the console bridge
/// classifies it.
#[derive(Clone, Copy, Debug, PartialEq, Eq, Structural)]
pub enum ConsoleKey {
    Char(char),
    Ctrl(char),
    Backspace,
    Esc,
    Up,
    Down,
    Right,
    Left,
    Other,
}

/// What the console bridge does with one keystroke: write bytes to the
/// serial stream, leave the console, or nothing.
#[derive(Debug, Clone, PartialEq, Eq)]
pub enum ConsoleAction {
    Send(Vec<u8>),
    Exit,
    Ignore,
}

/// The bytes one keystroke sends on the serial stream: a plain character
/// as its byte, Ctrl-letter as the letter's low five bits, Backspace and
/// Esc as their control bytes, arrows as ANSI CSI sequences. Ctrl-4
/// (what the terminal reports for Ctrl-backslash) leaves the console;
/// anything else is ignored.
pub open spec fn spec_console_bytes(k: ConsoleKey) -> Option<Seq<u8>> {
    match k {
        ConsoleKey::Char(c) => Some(seq![(c as u32) as u8]),
        ConsoleKey::Ctrl(c) => {
            let u = c as u32;
            if 97 <= u <= 122 {
                Some(seq![((u as u8) - 96) as u8])
            } else {
                None
            }
        },
        ConsoleKey::Backspace => Some(seq![8u8]),
        ConsoleKey::Esc => Some(seq![27u8]),
        ConsoleKey::Up => Some(seq![27u8, 91u8, 65u8]),
        ConsoleKey::Down => Some(seq![27u8, 91u8, 66u8]),
        ConsoleKey::Right => Some(seq![27u8, 91u8, 67u8]),
        ConsoleKey::Left => Some(seq![27u8, 91u8, 68u8]),
        ConsoleKey::Other => None,
    }
}

/// Translates one keystroke for the serial console: `Send` with the
/// bytes `spec_console_bytes` gives, `Exit` on Ctrl-4 (Ctrl-backslash),
/// `Ignore` where no bytes are defined.
pub fn translate_key(k: ConsoleKey) -> (r: ConsoleAction)
    ensures
        (match spec_console_bytes(k) {
            Some(bytes) => r matches ConsoleAction::Send(v) && v@ == bytes,
            None => r == (if k == ConsoleKey::Ctrl('4') {
                ConsoleAction::Exit
            } else {
                ConsoleAction::Ignore
            }),
        }),
{
    match k {
        ConsoleKey::Char(c) => {
            let mut v: Vec<u8> = Vec::new();
            v.push(#[verifier::truncate] ((c as u32) as u8));
            proof {
                assert(v@ =~= seq![(c as u32) as u8]);
            }
            ConsoleAction::Send(v)
        },
        ConsoleKey::Ctrl(c) => {
            let u = c as u32;
            if 97 <= u && u <= 122 {
                let mut v: Vec<u8> = Vec::new();
                v.push((u as u8) - 96);
                proof {
                    assert(v@ =~= seq![((u as u8) - 96) as u8]);
                }
                ConsoleAction::Send(v)
            } else if c == '4' {
                ConsoleAction::Exit
            } else {
                ConsoleAction::Ignore
            }
        },
        ConsoleKey::Backspace => {
            let mut v: Vec<u8> = Vec::new();
            v.push(8);
            proof {
                assert(v@ =~= seq![8u8]);
            }
            ConsoleAction::Send(v)
        },
        ConsoleKey::Esc => {
            let mut v: Vec<u8> = Vec::new();
            v.push(27);
            proof {
                assert(v@ =~= seq![27u8]);
            }
            ConsoleAction::Send(v)
        },
        ConsoleKey::Up => {
            let v = csi_arrow(65);
            ConsoleAction::Send(v)
        },
        ConsoleKey::Down => {
            let v = csi_arrow(66);
            ConsoleAction::Send(v)
        },
        ConsoleKey::Right => {
            let v = csi_arrow(67);
            ConsoleAction::Send(v)
        },
        ConsoleKey::Left => {
            let v = csi_arrow(68);
            ConsoleAction::Send(v)
        },
        ConsoleKey::Other => ConsoleAction::Ignore,
    }
}

/// The three-byte ANSI escape sequence `ESC [ <fin>`.
fn csi_arrow(fin: u8) -> (r: Vec<u8>)
    ensures
        r@ == seq![27u8, 91u8, fin],
{
    let mut v: Vec<u8> = Vec::new();
    v.push(27);
    v.push(91);
    v.push(fin);
    proof {
        assert(v@ =~= seq![27u8, 91u8, fin]);
    }
    v
}

} // verus!
