use gittwo::sideband::{checked_update_remote, remote_line_of, update_remote, ProgressMessage};

fn line(index: usize, text: &str) -> ProgressMessage {
    ProgressMessage { index, text: String::from(text) }
}

#[test]
fn one_line_without_a_break() {
    let update = update_remote(1, b"Enumerating objects: 5");
    assert_eq!(update.next_index, 1);
    assert_eq!(update.messages, vec![line(1, "remote: Enumerating objects: 5")]);
}

#[test]
fn empty_buffer_gives_nothing() {
    let update = update_remote(3, b"");
    assert_eq!(update.next_index, 3);
    assert!(update.messages.is_empty());
}

#[test]
fn carriage_returns_rewrite_in_place_and_done_moves_on() {
    let update = update_remote(
        1,
        b"Counting objects:  50% (1/2)\rCounting objects: 100% (2/2)\rCounting objects: 100% (2/2), done.\nCompressing objects:  50% (1/2)\r",
    );
    assert_eq!(
        update.messages,
        vec![
            line(1, "remote: Counting objects:  50% (1/2)"),
            line(1, "remote: Counting objects: 100% (2/2)"),
            line(1, "remote: Counting objects: 100% (2/2), done."),
            line(2, "remote: Compressing objects:  50% (1/2)"),
        ]
    );
    assert_eq!(update.next_index, 2);
}

#[test]
fn done_at_the_end_of_the_buffer_counts() {
    let update = update_remote(7, b"Total 3, done.");
    assert_eq!(update.messages, vec![line(7, "remote: Total 3, done.")]);
    assert_eq!(update.next_index, 8);
}

#[test]
fn several_done_lines_move_the_index_each() {
    let update = update_remote(1, b"a done.\nb done.\r\nc\ndone.");
    assert_eq!(
        update.messages,
        vec![
            line(1, "remote: a done."),
            line(2, "remote: b done."),
            line(3, "remote: c"),
            line(3, "remote: done."),
        ]
    );
    assert_eq!(update.next_index, 4);
}

#[test]
fn done_must_be_the_very_end_of_the_fragment() {
    let update = update_remote(1, b"done. \ndone\nDone.\n");
    assert_eq!(
        update.messages,
        vec![line(1, "remote: done. "), line(1, "remote: done"), line(1, "remote: Done.")]
    );
    assert_eq!(update.next_index, 1);
}

#[test]
fn only_breaks_give_no_lines() {
    let update = update_remote(5, b"\r\n\n\r");
    assert!(update.messages.is_empty());
    assert_eq!(update.next_index, 5);
}

#[test]
fn bytes_that_are_no_utf8_are_replaced() {
    let update = update_remote(1, &[b'a', 0xff, b'b', b'\n', 0xe2, 0x82, b'\r', b'c']);
    assert_eq!(
        update.messages,
        vec![line(1, "remote: a\u{fffd}b"), line(1, "remote: \u{fffd}"), line(1, "remote: c")]
    );
}

#[test]
fn fragments_are_decoded_as_the_whole_buffer_is() {
    let buffers: [&[u8]; 5] = [
        b"plain\nascii\rtext done.\n",
        "gr\u{fc}\u{df}e\n\u{65e5}\u{672c}\u{8a9e}\rdone.".as_bytes(),
        &[0xe2, 0x82, b'\n', 0xac, b'\r', 0xf0, 0x9f, b'\n', 0x80],
        &[0xc3, b'\r', 0xa4, 0xff, 0xfe, b'\n', b'd', b'o', b'n', b'e', b'.'],
        &[0xed, 0xa0, 0x80, b'\n', 0xf4, 0x90, 0x80, 0x80, b'\r', b'x'],
    ];
    for buffer in buffers {
        let whole = String::from_utf8_lossy(buffer);
        let mut expected: Vec<ProgressMessage> = Vec::new();
        let mut index = 1;
        for by_line in whole.split('\n') {
            for piece in by_line.split('\r') {
                if !piece.is_empty() {
                    expected.push(line(index, &format!("remote: {}", piece)));
                }
                if piece.ends_with("done.") {
                    index += 1;
                }
            }
        }
        let update = update_remote(1, buffer);
        assert_eq!(update.messages, expected);
        assert_eq!(update.next_index, index);
    }
}

#[test]
fn multibyte_text_is_kept() {
    let update = update_remote(1, "Z\u{e4}hle Objekte: 3, done.\n".as_bytes());
    assert_eq!(update.messages, vec![line(1, "remote: Z\u{e4}hle Objekte: 3, done.")]);
    assert_eq!(update.next_index, 2);
}

#[test]
fn remote_line_prefix() {
    assert_eq!(remote_line_of("x"), "remote: x");
    assert_eq!(remote_line_of(""), "remote: ");
}

#[test]
fn indices_never_go_down_along_the_lines() {
    let update = update_remote(10, b"a\rb done.\rc\nd done.\ne");
    let mut last = 10;
    for message in &update.messages {
        assert!(message.index >= last);
        assert!(message.index <= update.next_index);
        last = message.index;
    }
    assert_eq!(update.next_index, 12);
}

#[test]
fn checked_update_gives_the_same_lines() {
    let buffer = b"a done.\rb\nc done.";
    let plain = update_remote(4, buffer);
    let checked = checked_update_remote(4, buffer).unwrap();
    assert_eq!(checked, plain);
    assert_eq!(checked.next_index, 6);
    assert!(checked_update_remote(usize::MAX, b"x").is_none());
    assert!(checked_update_remote(usize::MAX, b"").is_some());
}
