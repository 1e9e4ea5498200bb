use ym::tools::{word_reading, yes_or_no};

#[test]
fn test_yes_answers() {
    let yes_inputs = ["y", "Y", "yes", "YES", "д", "Д", "да", "Да", "ДА"];
    for input in yes_inputs {
        let res = yes_or_no(input, "no");
        assert_eq!(res.unwrap(), true, "Не распознано как 'да': {}", input);
    }
}

#[test]
fn test_no_answers() {
    let no_inputs = ["n", "N", "no", "NO", "н", "Н", "нет", "Нет", "НЕТ"];
    for input in no_inputs {
        let res = yes_or_no(input, "yes");
        assert_eq!(res.unwrap(), false, "Не распознано как 'нет': {}", input);
    }
}

#[test]
fn test_empty_uses_default_yes() {
    let res = yes_or_no("", "yes").unwrap();
    assert_eq!(res, true);
}

#[test]
fn test_empty_uses_default_no() {
    let res = yes_or_no("", "no").unwrap();
    assert_eq!(res, false);
}

#[test]
fn test_invalid_input_returns_error() {
    let res = yes_or_no("maybe", "no");
    assert!(res.is_err());
    let msg = res.err().unwrap();
    assert!(
        msg.contains("Некорректный ответ"),
        "Не то сообщение об ошибке: {}",
        msg
    );
}

#[test]
fn test_default_invalid_recursion_propagates_error() {
    let res = yes_or_no("", "invalid");
    assert!(res.is_err());
}

#[test]
fn answer_is_trimmed_before_reading() {
    assert_eq!(yes_or_no("  Yes \n", "no"), Ok(true));
    assert_eq!(yes_or_no("\tнет ", "yes"), Ok(false));
}

#[test]
fn blank_answer_uses_default() {
    assert_eq!(yes_or_no("   ", "д"), Ok(true));
}

#[test]
fn rejection_quotes_trimmed_answer() {
    assert_eq!(
        yes_or_no("  Maybe ", "no"),
        Err("Некорректный ответ. Ожидается 'да', 'нет', получено: Maybe".to_string())
    );
}

#[test]
fn blank_default_is_rejected() {
    assert_eq!(
        yes_or_no("", " "),
        Err("Некорректный ответ. Ожидается 'да', 'нет', получено: ".to_string())
    );
}

#[test]
fn word_reading_of_normalized_words() {
    assert_eq!(word_reading("да"), Some(true));
    assert_eq!(word_reading("y"), Some(true));
    assert_eq!(word_reading("нет"), Some(false));
    assert_eq!(word_reading("n"), Some(false));
    assert_eq!(word_reading("YES"), None);
    assert_eq!(word_reading(""), None);
}
