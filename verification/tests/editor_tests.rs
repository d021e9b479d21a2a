use yt_tui::InputBuffer;

fn buffer(text: &str, cursor: usize) -> InputBuffer {
    InputBuffer { text: text.chars().collect(), cursor }
}

fn text_of(b: &InputBuffer) -> String {
    b.text.iter().collect()
}

#[test]
fn new_buffer_is_empty() {
    let b = InputBuffer::new();
    assert_eq!(text_of(&b), "");
    assert_eq!(b.cursor, 0);
}

#[test]
fn insert_advances_cursor() {
    let mut b = InputBuffer::new();
    b.insert('h');
    b.insert('i');
    assert_eq!(text_of(&b), "hi");
    assert_eq!(b.cursor, 2);
}

#[test]
fn insert_in_middle() {
    let mut b = buffer("hllo", 1);
    b.insert('e');
    assert_eq!(text_of(&b), "hello");
    assert_eq!(b.cursor, 2);
}

#[test]
fn insert_multibyte_scalar_keeps_units_consistent() {
    let mut b = InputBuffer::new();
    b.insert('é');
    b.insert('л');
    b.insert('!');
    assert_eq!(text_of(&b), "éл!");
    assert_eq!(b.cursor, 3);
    b.delete_backward();
    assert_eq!(text_of(&b), "éл");
    assert_eq!(b.cursor, 2);
}

#[test]
fn delete_backward_on_empty_is_noop() {
    let mut b = InputBuffer::new();
    b.delete_backward();
    assert_eq!(text_of(&b), "");
    assert_eq!(b.cursor, 0);
}

#[test]
fn delete_backward_at_start_is_noop() {
    let mut b = buffer("abc", 0);
    b.delete_backward();
    assert_eq!(text_of(&b), "abc");
    assert_eq!(b.cursor, 0);
}

#[test]
fn delete_backward_three_times_from_hello() {
    let mut b = buffer("hello", 5);
    b.delete_backward();
    b.delete_backward();
    b.delete_backward();
    assert_eq!(text_of(&b), "he");
    assert_eq!(b.cursor, 2);
}

#[test]
fn delete_backward_in_middle() {
    let mut b = buffer("hello", 3);
    b.delete_backward();
    assert_eq!(text_of(&b), "helo");
    assert_eq!(b.cursor, 2);
}

#[test]
fn move_left_saturates_at_start() {
    let mut b = buffer("ab", 1);
    b.move_left();
    assert_eq!(b.cursor, 0);
    b.move_left();
    assert_eq!(b.cursor, 0);
    assert_eq!(text_of(&b), "ab");
}

#[test]
fn move_right_saturates_at_end() {
    let mut b = buffer("ab", 1);
    b.move_right();
    assert_eq!(b.cursor, 2);
    b.move_right();
    assert_eq!(b.cursor, 2);
    assert_eq!(text_of(&b), "ab");
}

#[test]
fn clear_resets_text_and_cursor() {
    let mut b = buffer("query", 3);
    b.clear();
    assert_eq!(text_of(&b), "");
    assert_eq!(b.cursor, 0);
}

#[test]
fn cursor_stays_in_bounds_through_edit_sequences() {
    let mut b = InputBuffer::new();
    let ops: &[u8] = b"iiddllrrirconvoluted";
    for (k, op) in ops.iter().enumerate() {
        match op {
            b'i' => b.insert((b'a' + (k as u8 % 26)) as char),
            b'd' => b.delete_backward(),
            b'l' => b.move_left(),
            b'r' => b.move_right(),
            _ => b.insert(*op as char),
        }
        assert!(b.cursor <= b.text.len());
    }
}
