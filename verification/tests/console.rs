use kernel_tasks::console::Console;
use kernel_tasks::decoder::{Decoder, Key};
use kernel_tasks::task::keyboard::print_key;

#[test]
fn a_new_console_is_empty() {
    let console = Console::new();
    assert_eq!(console.text(), "");
}

#[test]
fn the_console_appends_in_order() {
    let mut console = Console::new();
    console.print_char('a');
    console.print_str("bc");
    console.print_char('\n');
    console.print_str("");
    console.print_char('é');
    assert_eq!(console.text(), "abc\né");
}

#[test]
fn taking_the_text_leaves_the_console_empty() {
    let mut console = Console::new();
    console.print_str("async number: 42");
    assert_eq!(console.take(), "async number: 42");
    assert_eq!(console.text(), "");
    assert_eq!(console.take(), "");
    console.print_char('x');
    assert_eq!(console.text(), "x");
}

#[test]
fn a_key_is_shown_as_its_character_or_its_name() {
    let mut console = Console::new();
    print_key(&mut console, &Key::Unicode('q'));
    print_key(&mut console, &Key::RawKey(String::from("ArrowUp")));
    print_key(&mut console, &Key::Unicode('!'));
    assert_eq!(console.text(), "qArrowUp!");
}

#[test]
fn the_decoder_answers_a_key_press_with_its_character() {
    let mut decoder = Decoder::new();
    assert_eq!(decoder.feed(0x1e), Some(Key::Unicode('a')));
    assert_eq!(decoder.feed(0x9e), None);
    assert_eq!(decoder.feed(0x02), Some(Key::Unicode('1')));
    assert_eq!(decoder.feed(0x82), None);
}

#[test]
fn the_decoder_keeps_track_of_shift() {
    let mut decoder = Decoder::new();
    assert_eq!(decoder.feed(0x2a), Some(Key::RawKey(String::from("LShift"))));
    assert_eq!(decoder.feed(0x1e), Some(Key::Unicode('A')));
    assert_eq!(decoder.feed(0x9e), None);
    assert_eq!(decoder.feed(0xaa), None);
    assert_eq!(decoder.feed(0x1e), Some(Key::Unicode('a')));
}

#[test]
fn the_decoder_puts_the_bytes_of_an_extended_key_together() {
    let mut decoder = Decoder::new();
    assert_eq!(decoder.feed(0xe0), None);
    assert_eq!(decoder.feed(0x48), Some(Key::RawKey(String::from("ArrowUp"))));
    assert_eq!(decoder.feed(0xe0), None);
    assert_eq!(decoder.feed(0xc8), None);
}

#[test]
fn the_decoder_passes_over_a_byte_it_does_not_know() {
    let mut decoder = Decoder::new();
    assert_eq!(decoder.feed(0x7f), None);
    assert_eq!(decoder.feed(0x1e), Some(Key::Unicode('a')));
}

#[test]
fn two_new_decoders_answer_the_same_bytes_alike() {
    let bytes = [0x2au8, 0x1e, 0x9e, 0xe0, 0x48, 0xaa, 0x1e, 0x7f, 0x3a, 0x1e];
    let mut first = Decoder::new();
    let mut second = Decoder::new();
    let mut answers = 0;
    for byte in bytes {
        let answer = first.feed(byte);
        assert_eq!(answer, second.feed(byte));
        if answer.is_some() {
            answers += 1;
        }
    }
    assert_eq!(answers, 6);
}
