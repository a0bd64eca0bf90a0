use journai::date::Date;
use journai::entry::CreateJournalEntry;
use journai::prompt::build_completion_request;
use journai::prompt::build_prompt;
use journai::prompt::user_message;
use journai::prompt::PromptMessage;
use journai::prompt::Role;
use journai::prompt::COMPLETIONS;
use journai::prompt::MODEL;

fn submission(name: &str, summary: &str, year: i32, month: u32, day: u32) -> CreateJournalEntry {
    CreateJournalEntry {
        name: name.to_string(),
        summary: summary.to_string(),
        date: Date::from_ymd(year, month, day).expect("the day exists"),
    }
}

#[test]
fn the_user_message_holds_name_date_and_summary() {
    let ana = submission("Ana", "Felt productive", 2024, 3, 1);
    assert_eq!(user_message(&ana), "Ana (2024-03-01): Felt productive");
}

#[test]
fn the_user_message_takes_empty_and_odd_texts_as_they_are() {
    assert_eq!(user_message(&submission("", "", 2024, 12, 31)), " (2024-12-31): ");
    assert_eq!(
        user_message(&submission("Zoë (she)", "a: b\nc", -1, 1, 1)),
        "Zoë (she) (-0001-01-01): a: b\nc"
    );
}

#[test]
fn the_prompt_is_the_instruction_then_the_submission() {
    let ana = submission("Ana", "Felt productive", 2024, 3, 1);
    let messages = build_prompt("Answer with JSON.", &ana);
    assert_eq!(
        messages,
        vec![
            PromptMessage { role: Role::System, content: "Answer with JSON.".to_string() },
            PromptMessage {
                role: Role::User,
                content: "Ana (2024-03-01): Felt productive".to_string()
            },
        ]
    );
}

#[test]
fn the_instruction_is_taken_word_for_word() {
    let instruction = "  Keep {braces}, \"quotes\"\nand lines.  ";
    let messages = build_prompt(instruction, &submission("Ana", "x", 2024, 3, 1));
    assert_eq!(messages.len(), 2);
    assert_eq!(messages[0].role, Role::System);
    assert_eq!(messages[0].content, instruction);
}

#[test]
fn the_request_names_the_model_and_asks_for_one_completion() {
    let ana = submission("Ana", "Felt productive", 2024, 3, 1);
    let request = build_completion_request("Answer with JSON.", &ana);
    assert_eq!(MODEL, "gpt-3.5-turbo");
    assert_eq!(COMPLETIONS, 1);
    assert_eq!(request.model, "gpt-3.5-turbo");
    assert_eq!(request.n, 1);
    assert_eq!(request.messages, build_prompt("Answer with JSON.", &ana));
}
