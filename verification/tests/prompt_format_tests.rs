use arch_installer::prompt::Question;
use arch_installer::format::{
    formatted_text, print_operation_result, installation_status_text, PrintFormat, OperationResult,
};
use arch_installer::config::AppConfig;

fn with_answer(text: &str) -> Question {
    let mut q = Question::new();
    q.answer = String::from(text);
    q
}

#[test]
fn new_question_is_empty() {
    assert_eq!(Question::new().answer, "");
}

#[test]
fn bool_ask_recognizes_yes_and_no() {
    assert_eq!(with_answer("y").bool_ask(), Some(true));
    assert_eq!(with_answer("Y").bool_ask(), Some(true));
    assert_eq!(with_answer("n").bool_ask(), Some(false));
    assert_eq!(with_answer("N").bool_ask(), Some(false));
}

#[test]
fn bool_ask_rejects_anything_else() {
    assert_eq!(with_answer("").bool_ask(), None);
    assert_eq!(with_answer("yes").bool_ask(), None);
    assert_eq!(with_answer("x").bool_ask(), None);
    assert_eq!(with_answer("ny").bool_ask(), None);
}

#[test]
fn selecting_ask_takes_a_one_based_index() {
    assert_eq!(with_answer("1").selecting_ask(2), Some(1));
    assert_eq!(with_answer("2").selecting_ask(2), Some(2));
}

#[test]
fn selecting_ask_rejects_out_of_range_and_noise() {
    assert_eq!(with_answer("0").selecting_ask(2), None);
    assert_eq!(with_answer("3").selecting_ask(2), None);
    assert_eq!(with_answer("two").selecting_ask(2), None);
    assert_eq!(with_answer("").selecting_ask(2), None);
}

#[test]
fn dashed_banner_for_done() {
    let blank62 = " ".repeat(62);
    let dashes27 = "-".repeat(27);
    let expected = format!(" {blank62} \n--{dashes27} Done {dashes27}--\n {blank62} \n");
    assert_eq!(print_operation_result(OperationResult::Done), expected);
}

#[test]
fn dashed_banner_for_error() {
    // "Error" has odd length, so the left edge loses one dash.
    let blank62 = " ".repeat(62);
    let dashes27 = "-".repeat(27);
    let expected = format!(" {blank62} \n-{dashes27} Error {dashes27}--\n {blank62} \n");
    assert_eq!(print_operation_result(OperationResult::Error), expected);
}

#[test]
fn bordered_banner_centers_the_text() {
    let blank62 = " ".repeat(62);
    let full64 = "=".repeat(64);
    let pad27 = " ".repeat(27);
    let expected = format!(
        "{full64}\n|{blank62}|\n| {pad27} Done {pad27} |\n|{blank62}|\n{full64}\n"
    );
    assert_eq!(formatted_text("Done", PrintFormat::Bordered), expected);
}

#[test]
fn double_dashed_banner() {
    let blank62 = " ".repeat(62);
    let eq27 = "=".repeat(27);
    let expected = format!(" {blank62} \n=={eq27} Done {eq27}==\n {blank62} \n");
    assert_eq!(formatted_text("Done", PrintFormat::DoubleDashedLine), expected);
}

#[test]
fn status_banner_shows_progress_and_percentage() {
    let mut c = AppConfig::new(34);
    c.current_installation_step = 17;
    // Title of 17 characters: remaining 47 (odd), 22 dashes each side.
    let d22 = "-".repeat(22);
    let blank62 = " ".repeat(62);
    // "17/34 | 50" has 10 characters: remaining 54 (even), 23 dashes each side.
    let d23 = "-".repeat(23);
    let expected = format!(
        "\n{d22} Setting time zone {d22}-\n|{blank62}|\n{d23}> [17/34 | 50%] <{d23}-\n\n"
    );
    assert_eq!(installation_status_text(&c, "Setting time zone"), expected);
}

#[test]
fn status_banner_truncates_percentage() {
    let mut c = AppConfig::new(34);
    c.current_installation_step = 1;
    // 1*100/34 = 2 after truncation.
    let text = installation_status_text(&c, "Configuring pacman");
    assert!(text.contains("[1/34 | 2%]"));
}
