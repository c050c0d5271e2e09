use cli_prompt::keys::{decode_next, feed, DecodeState, DecodeStep, KeyEvent};

#[test]
fn arrow_up_sequence_decodes_to_move_up() {
    let input = vec![0x1Bu8, 0x5B, 0x41];
    assert_eq!(decode_next(&input, 0), (KeyEvent::MoveUp, 3));
}

#[test]
fn arrow_down_sequence_decodes_to_move_down() {
    let input = vec![0x1Bu8, 0x5B, 0x42];
    assert_eq!(decode_next(&input, 0), (KeyEvent::MoveDown, 3));
}

#[test]
fn vi_bindings_decode_to_moves() {
    let up = vec![0x6Bu8]; // 'k'
    let down = vec![0x6Au8]; // 'j'
    assert_eq!(decode_next(&up, 0), (KeyEvent::MoveUp, 1));
    assert_eq!(decode_next(&down, 0), (KeyEvent::MoveDown, 1));
}

#[test]
fn carriage_return_and_line_feed_confirm() {
    let cr = vec![0x0Du8];
    let lf = vec![0x0Au8];
    assert_eq!(decode_next(&cr, 0), (KeyEvent::Confirm, 1));
    assert_eq!(decode_next(&lf, 0), (KeyEvent::Confirm, 1));
}

#[test]
fn empty_stream_aborts() {
    let input: Vec<u8> = vec![];
    assert_eq!(decode_next(&input, 0), (KeyEvent::Abort, 0));
}

#[test]
fn unknown_escape_sequence_is_ignored_and_fully_consumed() {
    // ESC [ Z: unrecognised final byte; all three bytes are consumed so
    // the next decode starts fresh.
    let input = vec![0x1Bu8, 0x5B, 0x5A, 0x0D];
    let (event, next) = decode_next(&input, 0);
    assert_eq!(event, KeyEvent::Ignore);
    assert_eq!(next, 3);
    assert_eq!(decode_next(&input, next), (KeyEvent::Confirm, 4));
}

#[test]
fn escape_followed_by_other_byte_is_ignored() {
    let input = vec![0x1Bu8, 0x58]; // ESC 'X'
    assert_eq!(decode_next(&input, 0), (KeyEvent::Ignore, 2));
}

#[test]
fn truncated_escape_sequences_abort() {
    let only_esc = vec![0x1Bu8];
    let esc_bracket = vec![0x1Bu8, 0x5B];
    assert_eq!(decode_next(&only_esc, 0), (KeyEvent::Abort, 1));
    assert_eq!(decode_next(&esc_bracket, 0), (KeyEvent::Abort, 2));
}

#[test]
fn other_bytes_are_ignored_one_at_a_time() {
    let input = vec![0x78u8]; // 'x'
    assert_eq!(decode_next(&input, 0), (KeyEvent::Ignore, 1));
}

#[test]
fn feed_steps_through_an_escape_sequence() {
    let step1 = feed(DecodeState::Start, Some(0x1B));
    assert_eq!(step1, DecodeStep::Pending(DecodeState::SawEsc));
    let step2 = feed(DecodeState::SawEsc, Some(0x5B));
    assert_eq!(step2, DecodeStep::Pending(DecodeState::SawEscBracket));
    let step3 = feed(DecodeState::SawEscBracket, Some(0x41));
    assert_eq!(step3, DecodeStep::Done(KeyEvent::MoveUp));
}

#[test]
fn feed_reports_abort_when_the_stream_ends_mid_sequence() {
    assert_eq!(feed(DecodeState::SawEsc, None), DecodeStep::Done(KeyEvent::Abort));
    assert_eq!(
        feed(DecodeState::SawEscBracket, None),
        DecodeStep::Done(KeyEvent::Abort)
    );
}
