use edit_block::styled::{
    emit_batched, emit_sequential, encode, received, styled_line, Directive, Tint,
};

#[test]
fn foreground_codes_are_the_ansi_sequences() {
    assert_eq!(encode(&Directive::SetForeground(Tint::Reset)), "\x1b[39m");
    assert_eq!(encode(&Directive::SetForeground(Tint::Ansi(9))), "\x1b[38;5;9m");
    assert_eq!(encode(&Directive::SetForeground(Tint::Rgb(1, 20, 255))), "\x1b[38;2;1;20;255m");
}

#[test]
fn background_codes_are_the_ansi_sequences() {
    assert_eq!(encode(&Directive::SetBackground(Tint::Reset)), "\x1b[49m");
    assert_eq!(encode(&Directive::SetBackground(Tint::Ansi(12))), "\x1b[48;5;12m");
    assert_eq!(encode(&Directive::SetBackground(Tint::Rgb(0, 0, 0))), "\x1b[48;2;0;0;0m");
}

#[test]
fn print_writes_the_text_and_reset_the_reset_sequence() {
    assert_eq!(encode(&Directive::Print(String::from("Styled text here."))), "Styled text here.");
    assert_eq!(encode(&Directive::Print(String::new())), "");
    assert_eq!(encode(&Directive::ResetColor), "\x1b[0m");
}

#[test]
fn styled_line_is_the_fixed_sequence() {
    let line = styled_line(Tint::Ansi(12), Tint::Ansi(9), "Styled text here.");
    assert_eq!(
        line,
        vec![
            Directive::SetForeground(Tint::Ansi(12)),
            Directive::SetBackground(Tint::Ansi(9)),
            Directive::Print(String::from("Styled text here.")),
            Directive::ResetColor,
        ]
    );
}

#[test]
fn batched_output_is_exact_and_ends_reset() {
    let line = styled_line(Tint::Ansi(12), Tint::Ansi(9), "Styled text here.");
    let out = emit_batched(&line);
    assert_eq!(out, "\x1b[38;5;12m\x1b[48;5;9mStyled text here.\x1b[0m");
    assert!(out.ends_with("\x1b[0m"));
}

#[test]
fn sequential_output_is_one_piece_per_directive() {
    let line = styled_line(Tint::Rgb(10, 20, 30), Tint::Reset, "abc");
    let pieces = emit_sequential(&line);
    assert_eq!(pieces, vec!["\x1b[38;2;10;20;30m", "\x1b[49m", "abc", "\x1b[0m"]);
}

#[test]
fn batched_and_sequential_are_identical() {
    let line = styled_line(Tint::Ansi(12), Tint::Ansi(9), "Styled text here.");
    assert_eq!(received(&emit_sequential(&line)).as_bytes(), emit_batched(&line).as_bytes());
    let mixed = vec![
        Directive::Print(String::from("a")),
        Directive::ResetColor,
        Directive::SetBackground(Tint::Rgb(1, 2, 3)),
        Directive::Print(String::from("\u{e9}\u{4e16}")),
        Directive::SetForeground(Tint::Reset),
    ];
    assert_eq!(received(&emit_sequential(&mixed)).as_bytes(), emit_batched(&mixed).as_bytes());
}

#[test]
fn empty_sequence_sends_nothing() {
    assert_eq!(emit_batched(&Vec::new()), "");
    assert_eq!(emit_sequential(&Vec::new()), Vec::<String>::new());
    assert_eq!(received(&Vec::new()), "");
}
