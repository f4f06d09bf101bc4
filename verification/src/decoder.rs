//! The scancode decoder of `pc_keyboard`, as the rest of the crate sees it.
//!
//! What the decoder answers to a byte depends on the byte and on the state
//! that the bytes before it have left the decoder in, and on nothing else.
//! The table by which it answers is `pc_keyboard`'s own; here each answer has
//! a name, and the crate proves what it does with each of them.

use pc_keyboard::layouts::Us104Key;
use pc_keyboard::{DecodedKey, HandleControl, KeyEvent, Keyboard, ScancodeSet1};
use vstd::prelude::*;

verus! {

/// `pc_keyboard::KeyEvent`, carried as an opaque value.
#[verifier::external_type_specification]
#[verifier::external_body]
pub struct ExKeyEvent(KeyEvent);

/// `pc_keyboard::Error`, carried as an opaque value.
#[verifier::external_type_specification]
#[verifier::external_body]
pub struct ExError(pc_keyboard::Error);

/// A `pc_keyboard::Keyboard` for scancode set 1 and the US 104-key layout,
/// carried as an opaque value.
#[verifier::external_body]
pub struct Keyboard104 {
    keyboard: Keyboard<Us104Key, ScancodeSet1>,
}

/// A decoded key: a character to show, or the name of a key that has none.
#[derive(Debug, PartialEq, Eq)]
pub enum Key {
    Unicode(char),
    RawKey(String),
}

/// What `Keyboard::add_byte` answers when a keyboard in this state is fed
/// this byte.
pub uninterp spec fn byte_answer(keyboard: Keyboard104, byte: u8) -> Result<
    Option<KeyEvent>,
    pc_keyboard::Error,
>;

/// The state in which `Keyboard::add_byte` leaves a keyboard that was in this
/// state and is fed this byte.
pub uninterp spec fn after_byte(keyboard: Keyboard104, byte: u8) -> Keyboard104;

/// What `Keyboard::process_keyevent` answers when a keyboard in this state is
/// given this event, with a key that has no character under the name that its
/// `Debug` form gives it.
pub uninterp spec fn event_answer(keyboard: Keyboard104, event: KeyEvent) -> Option<Key>;

/// The state in which `Keyboard::process_keyevent` leaves a keyboard that was
/// in this state and is given this event.
pub uninterp spec fn after_event(keyboard: Keyboard104, event: KeyEvent) -> Keyboard104;

/// `Keyboard::new`, for scancode set 1, the US 104-key layout, and control
/// keys passed through as they are.
#[verifier::external_body]
fn new_keyboard() -> Keyboard104 {
    Keyboard104 { keyboard: Keyboard::new(ScancodeSet1::new(), Us104Key, HandleControl::Ignore) }
}

/// `Keyboard::add_byte`: feeds one scancode byte to the decoder, which
/// answers with a key event once the bytes of one are complete. Answer and
/// new state depend on the old state and the byte alone.
#[verifier::external_body]
fn add_byte(keyboard: &mut Keyboard104, byte: u8) -> (answer: Result<
    Option<KeyEvent>,
    pc_keyboard::Error,
>)
    ensures
        answer == byte_answer(*old(keyboard), byte),
        *final(keyboard) == after_byte(*old(keyboard), byte),
{
    keyboard.keyboard.add_byte(byte)
}

/// `Keyboard::process_keyevent`: turns a key event into a decoded key, if the
/// event stands for one. A key without a character comes back under the name
/// that its `Debug` form gives it. Answer and new state depend on the old
/// state and the event alone.
#[verifier::external_body]
fn process_keyevent(keyboard: &mut Keyboard104, event: KeyEvent) -> (answer: Option<Key>)
    ensures
        answer == event_answer(*old(keyboard), event),
        *final(keyboard) == after_event(*old(keyboard), event),
{
    match keyboard.keyboard.process_keyevent(event) {
        Some(DecodedKey::Unicode(character)) => Some(Key::Unicode(character)),
        Some(DecodedKey::RawKey(code)) => Some(Key::RawKey(format!("{:?}", code))),
        None => None,
    }
}

/// The key that a keyboard in this state completes when it is fed this byte:
/// the decoded form of the key event that the byte completes, if it completes
/// one and that event stands for a key. A byte that the keyboard rejects
/// completes none.
pub open spec fn decoded(keyboard: Keyboard104, byte: u8) -> Option<Key> {
    match byte_answer(keyboard, byte) {
        Ok(Some(event)) => event_answer(after_byte(keyboard, byte), event),
        _ => None,
    }
}

/// The state of a keyboard that was in this state and has been fed this byte.
pub open spec fn advanced(keyboard: Keyboard104, byte: u8) -> Keyboard104 {
    match byte_answer(keyboard, byte) {
        Ok(Some(event)) => after_event(after_byte(keyboard, byte), event),
        _ => after_byte(keyboard, byte),
    }
}

/// The state of a keyboard that was in this state and has been fed these
/// bytes, first to last.
pub open spec fn advanced_all(keyboard: Keyboard104, bytes: Seq<u8>) -> Keyboard104
    decreases bytes.len(),
{
    if bytes.len() == 0 {
        keyboard
    } else {
        advanced(advanced_all(keyboard, bytes.drop_last()), bytes.last())
    }
}

/// What a keyboard in this state answers to each of these bytes when it is
/// fed them first to last.
pub open spec fn decoded_all(keyboard: Keyboard104, bytes: Seq<u8>) -> Seq<Option<Key>>
    decreases bytes.len(),
{
    if bytes.len() == 0 {
        Seq::<Option<Key>>::empty()
    } else {
        decoded_all(keyboard, bytes.drop_last()).push(
            decoded(advanced_all(keyboard, bytes.drop_last()), bytes.last()),
        )
    }
}

/// What a decoder holds, as a mathematical value.
pub struct DecoderState {
    /// The bytes fed to the decoder since it was made, in order.
    pub fed: Seq<u8>,
    /// The keyboard, in the state those bytes have left it in.
    pub keyboard: Keyboard104,
}

/// The keyboard decoder together with the record of what it has been fed.
pub struct Decoder {
    keyboard: Keyboard104,
    fed: Ghost<Seq<u8>>,
}

impl View for Decoder {
    type V = DecoderState;

    closed spec fn view(&self) -> DecoderState {
        DecoderState { fed: self.fed@, keyboard: self.keyboard }
    }
}

impl Decoder {
    /// A decoder with a new keyboard, which has been fed nothing.
    pub fn new() -> (decoder: Self)
        ensures
            decoder@.fed == Seq::<u8>::empty(),
    {
        Decoder { keyboard: new_keyboard(), fed: Ghost(Seq::empty()) }
    }

    /// Feeds one scancode byte to the decoder and returns the key that this
    /// byte completes, if it completes one. A byte that the decoder rejects
    /// completes none.
    pub fn feed(&mut self, byte: u8) -> (key: Option<Key>)
        ensures
            key == decoded(old(self)@.keyboard, byte),
            final(self)@.keyboard == advanced(old(self)@.keyboard, byte),
            final(self)@.fed == old(self)@.fed.push(byte),
    {
        self.fed = Ghost(self.fed@.push(byte));
        match add_byte(&mut self.keyboard, byte) {
            Ok(Some(event)) => process_keyevent(&mut self.keyboard, event),
            _ => None,
        }
    }
}

} // verus!
